//! What holds of the texts that are cut, trimmed, joined and counted out.

use vstd::prelude::*;
use crate::text;

verus! {

/// The white space that is trimmed, by its code points.
pub proof fn law_white_space_by_code_point(c: char)
    ensures
        text::is_white_space(c) <==> {
            let n = c as int;
            ||| 0x9 <= n <= 0xd
            ||| n == 0x20
            ||| n == 0x85
            ||| n == 0xa0
            ||| n == 0x1680
            ||| 0x2000 <= n <= 0x200a
            ||| n == 0x2028
            ||| n == 0x2029
            ||| n == 0x202f
            ||| n == 0x205f
            ||| n == 0x3000
        },
{
}

/// Dropping from the front takes away all of what is to be dropped and no more.
pub proof fn law_drop_leading_parts_a_text(
    front: Seq<char>,
    rest: Seq<char>,
    drop: spec_fn(char) -> bool,
)
    requires
        forall|i: int| 0 <= i < front.len() ==> drop(#[trigger] front[i]),
        rest.len() > 0 ==> !drop(rest[0]),
    ensures
        text::drop_leading(front + rest, drop) == rest,
    decreases front.len(),
{
    if front.len() == 0 {
        assert(front + rest =~= rest);
    } else {
        assert((front + rest).first() == front[0]);
        assert((front + rest).drop_first() =~= front.drop_first() + rest);
        assert forall|i: int| 0 <= i < front.drop_first().len() implies drop(
            #[trigger] front.drop_first()[i],
        ) by {
            assert(front.drop_first()[i] == front[i + 1]);
        }
        law_drop_leading_parts_a_text(front.drop_first(), rest, drop);
    }
}

/// Dropping from the back takes away all of what is to be dropped and no more.
pub proof fn law_drop_trailing_parts_a_text(
    rest: Seq<char>,
    back: Seq<char>,
    drop: spec_fn(char) -> bool,
)
    requires
        forall|i: int| 0 <= i < back.len() ==> drop(#[trigger] back[i]),
        rest.len() > 0 ==> !drop(rest[rest.len() - 1]),
    ensures
        text::drop_trailing(rest + back, drop) == rest,
    decreases back.len(),
{
    if back.len() == 0 {
        assert(rest + back =~= rest);
    } else {
        assert((rest + back).last() == back[back.len() - 1]);
        assert((rest + back).drop_last() =~= rest + back.drop_last());
        assert forall|i: int| 0 <= i < back.drop_last().len() implies drop(
            #[trigger] back.drop_last()[i],
        ) by {
            assert(back.drop_last()[i] == back[i]);
        }
        law_drop_trailing_parts_a_text(rest, back.drop_last(), drop);
    }
}

/// A text between two runs of white space, which neither begins nor ends with any, is
/// what trimming leaves: all of it, with the white space inside it.
pub proof fn law_trimming_leaves_the_middle(
    front: Seq<char>,
    middle: Seq<char>,
    back: Seq<char>,
)
    requires
        forall|i: int| 0 <= i < front.len() ==> text::is_white_space(#[trigger] front[i]),
        forall|i: int| 0 <= i < back.len() ==> text::is_white_space(#[trigger] back[i]),
        middle.len() > 0 ==> !text::is_white_space(middle[0]),
        middle.len() > 0 ==> !text::is_white_space(middle[middle.len() - 1]),
    ensures
        text::trimmed(front + middle + back) == middle,
{
    let white = |c: char| text::is_white_space(c);
    if middle.len() > 0 {
        assert(front + middle + back =~= front + (middle + back));
        law_drop_leading_parts_a_text(front, middle + back, white);
        law_drop_trailing_parts_a_text(middle, back, white);
    } else {
        let none = Seq::<char>::empty();
        let all = front + back;
        assert forall|i: int| 0 <= i < all.len() implies white(#[trigger] all[i]) by {
            if i < front.len() {
                assert(all[i] == front[i]);
            } else {
                assert(all[i] == back[i - front.len()]);
            }
        }
        assert(front + middle + back =~= all + none);
        law_drop_leading_parts_a_text(all, none, white);
        law_drop_trailing_parts_a_text(none, none, white);
        assert(none + none =~= none);
        assert(middle =~= none);
    }
}

/// What follows the last slash of a path is its name: all of it, for any directory and
/// any name without a slash. A path without a slash is its own name.
pub proof fn law_name_follows_the_last_slash(directory: Seq<char>, name: Seq<char>)
    requires
        forall|i: int| 0 <= i < name.len() ==> #[trigger] name[i] != '/',
    ensures
        text::last_segment(directory + seq!['/'] + name) == name,
        text::last_segment(name) == name,
{
    let path = directory + seq!['/'] + name;
    path.index_of_last_ensures('/');
    name.index_of_last_ensures('/');
    assert(path[directory.len() as int] == '/');
    assert(path.contains('/'));
    let i = path.index_of_last('/')->0;
    if i > directory.len() {
        assert(path[i] == name[i - directory.len() - 1]);
    }
    assert(path.skip(directory.len() as int + 1) =~= name);
    assert(!name.contains('/'));
}

/// Joining is told by the parts alone: no parts give nothing, one part gives itself,
/// and of two runs of parts the whole is the one, the separator and the other.
pub proof fn law_joining_runs_of_parts(
    part: Seq<char>,
    left: Seq<Seq<char>>,
    right: Seq<Seq<char>>,
    separator: Seq<char>,
)
    ensures
        text::joined(Seq::empty(), separator) == Seq::<char>::empty(),
        text::joined(seq![part], separator) == part,
        left.len() > 0 && right.len() > 0 ==> text::joined(left + right, separator)
            == text::joined(left, separator) + separator + text::joined(right, separator),
    decreases right.len(),
{
    if left.len() > 0 && right.len() > 0 {
        let whole = left + right;
        assert(whole.last() == right.last());
        assert(whole.drop_last() =~= left + right.drop_last());
        if right.len() == 1 {
            assert(whole.drop_last() =~= left);
            assert(text::joined(right, separator) == right.last());
        } else {
            law_joining_runs_of_parts(part, left, right.drop_last(), separator);
            assert(text::joined(whole, separator) =~= text::joined(left, separator) + separator
                + text::joined(right, separator));
        }
    }
}

/// The joined parts, after one more separator, are the parts with a separator ahead of
/// each, one after the other.
pub proof fn law_joined_parts_in_a_row(parts: Seq<Seq<char>>, separator: Seq<char>)
    requires
        parts.len() > 0,
    ensures
        separator + text::joined(parts, separator) == parts.map_values(
            |part: Seq<char>| separator + part,
        ).flatten(),
    decreases parts.len(),
{
    let ahead = |part: Seq<char>| separator + part;
    let row = parts.map_values(ahead);
    let last = separator + parts.last();
    lemma_flatten_ends_with_last(row);
    assert(row.last() == last);
    assert(row.drop_last() =~= parts.drop_last().map_values(ahead));
    if parts.len() == 1 {
        assert(row.drop_last() =~= Seq::<Seq<char>>::empty());
        assert(row.drop_last().flatten() =~= Seq::<char>::empty());
        assert(row.flatten() =~= last);
    } else {
        law_joined_parts_in_a_row(parts.drop_last(), separator);
        assert(separator + text::joined(parts, separator) =~= (separator + text::joined(
            parts.drop_last(),
            separator,
        )) + last);
    }
}

/// Texts one after the other end with the last of them.
pub proof fn lemma_flatten_ends_with_last(rows: Seq<Seq<char>>)
    requires
        rows.len() > 0,
    ensures
        rows.flatten() == rows.drop_last().flatten() + rows.last(),
{
    rows.lemma_flatten_and_flatten_alt_are_equivalent();
    rows.drop_last().lemma_flatten_and_flatten_alt_are_equivalent();
}

/// A digit is written as itself, and a number of more digits as what is ahead of its
/// last digit and then that digit.
pub proof fn law_decimal_grows_by_its_last_digit(n: nat, digit: nat)
    requires
        digit < 10,
    ensures
        text::decimal(digit).len() == 1,
        text::decimal(digit)[0] as int == '0' as int + digit,
        n > 0 ==> text::decimal(10 * n + digit).len() == text::decimal(n).len() + 1,
        n > 0 ==> text::decimal(10 * n + digit).drop_last() == text::decimal(n),
        n > 0 ==> text::decimal(10 * n + digit).last() as int == '0' as int + digit,
{
    reveal_strlit("0123456789");
    if n > 0 {
        let m = 10 * n + digit;
        assert(m / 10 == n && m % 10 == digit);
        assert(text::decimal(m).drop_last() =~= text::decimal(n));
    }
}

/// The contents of strings are as many as the strings, each at its place.
pub proof fn law_texts_are_the_strings_contents(strings: Seq<String>)
    ensures
        text::texts(strings).len() == strings.len(),
        forall|i: int| 0 <= i < strings.len() ==> #[trigger] text::texts(strings)[i] == strings[i]@,
{
}

} // verus!
