//! Text as sequences of characters: searching, cutting, joining and trimming.

use vstd::prelude::*;
use vstd::string::*;

verus! {

/// What is left of `s` once the leading characters that satisfy `drop` are gone.
pub open spec fn drop_leading(s: Seq<char>, drop: spec_fn(char) -> bool) -> Seq<char>
    decreases s.len(),
{
    if s.len() > 0 && drop(s.first()) {
        drop_leading(s.drop_first(), drop)
    } else {
        s
    }
}

/// What is left of `s` once the trailing characters that satisfy `drop` are gone.
pub open spec fn drop_trailing(s: Seq<char>, drop: spec_fn(char) -> bool) -> Seq<char>
    decreases s.len(),
{
    if s.len() > 0 && drop(s.last()) {
        drop_trailing(s.drop_last(), drop)
    } else {
        s
    }
}

/// The code points that Unicode gives the `White_Space` property.
pub open spec fn is_white_space(c: char) -> bool {
    ||| '\u{9}' <= c <= '\u{d}'
    ||| c == '\u{20}'
    ||| c == '\u{85}'
    ||| c == '\u{a0}'
    ||| c == '\u{1680}'
    ||| '\u{2000}' <= c <= '\u{200a}'
    ||| c == '\u{2028}'
    ||| c == '\u{2029}'
    ||| c == '\u{202f}'
    ||| c == '\u{205f}'
    ||| c == '\u{3000}'
}

/// `s` without the white space around it.
pub open spec fn trimmed(s: Seq<char>) -> Seq<char> {
    drop_trailing(
        drop_leading(s, |c: char| is_white_space(c)),
        |c: char| is_white_space(c),
    )
}

/// What follows the last `/` of `s`; all of `s` where it has none.
pub open spec fn last_segment(s: Seq<char>) -> Seq<char> {
    match s.index_of_last('/') {
        Some(i) => s.skip(i + 1),
        None => s,
    }
}

/// The parts in order, with `separator` between each two neighbours.
pub open spec fn joined(parts: Seq<Seq<char>>, separator: Seq<char>) -> Seq<char>
    decreases parts.len(),
{
    if parts.len() == 0 {
        Seq::empty()
    } else if parts.len() == 1 {
        parts[0]
    } else {
        joined(parts.drop_last(), separator) + separator + parts.last()
    }
}

/// The contents of each string, in order.
pub open spec fn texts(strings: Seq<String>) -> Seq<Seq<char>> {
    strings.map_values(|s: String| s@)
}

/// The digits of `n` in base ten, the most significant first.
pub open spec fn decimal(n: nat) -> Seq<char>
    decreases n,
{
    if n < 10 {
        seq!["0123456789"@[n as int]]
    } else {
        decimal(n / 10).push("0123456789"@[(n % 10) as int])
    }
}

/// `char::is_whitespace` of the standard library: it holds exactly of the
/// characters with the Unicode property `White_Space`.
pub assume_specification[ char::is_whitespace ](c: char) -> (white: bool)
    ensures
        white == is_white_space(c),
;

/// The text that the standard library makes of bytes that are not UTF-8, with U+FFFD
/// in the place of what is wrong with them.
pub uninterp spec fn lossy_utf8(bytes: Seq<u8>) -> Seq<char>;

/// The text that bytes encode where they are UTF-8, and `other` where they are not.
pub open spec fn utf8_or(bytes: Seq<u8>, other: Seq<char>) -> Seq<char> {
    if vstd::utf8::valid_utf8(bytes) {
        vstd::utf8::decode_utf8(bytes)
    } else {
        other
    }
}

/// `String::from_utf8_lossy` of the standard library: the text that the bytes encode
/// where they are UTF-8. Where they are not, the text is a function of the bytes; the
/// places of its replacement characters are left to the name.
#[verifier::external_body]
pub(crate) fn lossy_text(bytes: &[u8]) -> (decoded: String)
    ensures
        decoded@ == utf8_or(bytes@, lossy_utf8(bytes@)),
{
    String::from_utf8_lossy(bytes).into_owned()
}

/// The characters of `text`.
pub fn chars_of(text: &str) -> (chars: Vec<char>)
    ensures
        chars@ == text@,
{
    let mut chars: Vec<char> = Vec::new();
    for c in it: text.chars()
        invariant
            chars@ == it.seq().take(it.index() as int),
            it.seq() == text@,
    {
        chars.push(c);
    }
    chars
}

/// The characters of `text` from the place `from` up to the place `to`.
pub fn cut(text: &str, from: usize, to: usize) -> (part: String)
    requires
        from <= to <= text@.len(),
    ensures
        part@ == text@.subrange(from as int, to as int),
{
    text.substring_char(from, to).to_owned()
}

/// Whether `pattern` stands in `chars` at the place `at`.
fn stands_at(chars: &Vec<char>, at: usize, pattern: &Vec<char>) -> (found: bool)
    requires
        at + pattern@.len() <= chars@.len(),
    ensures
        found == (chars@.subrange(at as int, at + pattern@.len()) == pattern@),
{
    let available: usize = chars.len();
    assert(at + pattern@.len() <= available);
    let end: usize = at + pattern.len();
    let mut i: usize = 0;
    while i < pattern.len()
        invariant
            i <= pattern@.len(),
            end == at + pattern@.len(),
            at + pattern@.len() <= chars@.len(),
            forall|j: int| 0 <= j < i ==> chars@[at + j] == pattern@[j],
        decreases pattern@.len() - i,
    {
        if chars[at + i] != pattern[i] {
            assert(chars@.subrange(at as int, at + pattern@.len())[i as int] == chars@[at + i]);
            return false;
        }
        i += 1;
    }
    assert(chars@.subrange(at as int, at + pattern@.len()) =~= pattern@);
    true
}

/// Whether `text` begins with `prefix`.
pub fn starts_with(text: &str, prefix: &str) -> (found: bool)
    ensures
        found == prefix@.is_prefix_of(text@),
{
    let chars = chars_of(text);
    let pattern = chars_of(prefix);
    pattern.len() <= chars.len() && stands_at(&chars, 0, &pattern)
}

/// Whether `text` ends with `suffix`.
pub fn ends_with(text: &str, suffix: &str) -> (found: bool)
    ensures
        found == suffix@.is_suffix_of(text@),
{
    let chars = chars_of(text);
    let pattern = chars_of(suffix);
    pattern.len() <= chars.len() && stands_at(&chars, chars.len() - pattern.len(), &pattern)
}

/// The place of the first `wanted` in `text`.
pub fn find(text: &str, wanted: char) -> (place: Option<usize>)
    ensures
        match place {
            Some(i) => text@.index_of_first(wanted) == Some(i as int) && i < text@.len(),
            None => text@.index_of_first(wanted) is None,
        },
{
    let chars = chars_of(text);
    proof {
        text@.index_of_first_ensures(wanted);
    }
    let mut i: usize = 0;
    while i < chars.len()
        invariant
            i <= chars@.len(),
            chars@ == text@,
            forall|j: int| 0 <= j < i ==> chars@[j] != wanted,
            text@.index_of_first(wanted) matches Some(index) ==> {
                &&& text@.contains(wanted)
                &&& 0 <= index < text@.len()
                &&& text@[index] == wanted
                &&& forall|j: int| 0 <= j < index < text@.len() ==> text@[j] != wanted
            },
            text@.index_of_first(wanted) is None ==> !text@.contains(wanted),
        decreases chars@.len() - i,
    {
        if chars[i] == wanted {
            assert(text@.contains(wanted));
            return Some(i);
        }
        i += 1;
    }
    None
}

/// The place of the last `wanted` in `text`.
pub fn find_last(text: &str, wanted: char) -> (place: Option<usize>)
    ensures
        match place {
            Some(i) => text@.index_of_last(wanted) == Some(i as int) && i < text@.len(),
            None => text@.index_of_last(wanted) is None,
        },
{
    let chars = chars_of(text);
    proof {
        text@.index_of_last_ensures(wanted);
    }
    let mut i: usize = chars.len();
    while i > 0
        invariant
            i <= chars@.len(),
            chars@ == text@,
            forall|j: int| i <= j < chars@.len() ==> chars@[j] != wanted,
            text@.index_of_last(wanted) matches Some(index) ==> {
                &&& text@.contains(wanted)
                &&& 0 <= index < text@.len()
                &&& text@[index] == wanted
                &&& forall|j: int| 0 <= index < j < text@.len() ==> text@[j] != wanted
            },
            text@.index_of_last(wanted) is None ==> !text@.contains(wanted),
        decreases i,
    {
        i -= 1;
        if chars[i] == wanted {
            assert(text@.contains(wanted));
            return Some(i);
        }
    }
    None
}

/// Whether `wanted` occurs in `text`.
pub fn has_char(text: &str, wanted: char) -> (found: bool)
    ensures
        found == text@.contains(wanted),
{
    proof {
        text@.index_of_first_ensures(wanted);
    }
    find(text, wanted).is_some()
}

/// `text` without the white space around it.
pub fn trim(text: &str) -> (rest: String)
    ensures
        rest@ == trimmed(text@),
{
    let chars = chars_of(text);
    let ghost white = |c: char| is_white_space(c);
    let mut from: usize = 0;
    assert(text@.skip(0) =~= text@);
    while from < chars.len() && chars[from].is_whitespace()
        invariant
            from <= chars@.len(),
            chars@ == text@,
            white == (|c: char| is_white_space(c)),
            drop_leading(text@, white) == drop_leading(text@.skip(from as int), white),
        decreases chars@.len() - from,
    {
        assert(text@.skip(from as int).first() == text@[from as int]);
        assert(text@.skip(from as int).drop_first() =~= text@.skip(from + 1));
        from += 1;
    }
    assert(drop_leading(text@, white) == text@.skip(from as int));
    let mut to: usize = chars.len();
    assert(text@.subrange(from as int, to as int) =~= text@.skip(from as int));
    while to > from && chars[to - 1].is_whitespace()
        invariant
            from <= to <= chars@.len(),
            chars@ == text@,
            white == (|c: char| is_white_space(c)),
            trimmed(text@) == drop_trailing(text@.subrange(from as int, to as int), white),
        decreases to,
    {
        let ghost part = text@.subrange(from as int, to as int);
        assert(part.last() == text@[to - 1]);
        assert(part.drop_last() =~= text@.subrange(from as int, to - 1));
        to -= 1;
    }
    assert(to > from ==> text@.subrange(from as int, to as int).last() == text@[to - 1]);
    cut(text, from, to)
}

/// `text` without the slashes that it begins with.
pub fn trim_slashes(text: &str) -> (rest: String)
    ensures
        rest@ == drop_leading(text@, |c: char| c == '/'),
{
    let chars = chars_of(text);
    let ghost slash = |c: char| c == '/';
    let mut from: usize = 0;
    assert(text@.skip(0) =~= text@);
    while from < chars.len() && chars[from] == '/'
        invariant
            from <= chars@.len(),
            chars@ == text@,
            slash == (|c: char| c == '/'),
            drop_leading(text@, slash) == drop_leading(text@.skip(from as int), slash),
        decreases chars@.len() - from,
    {
        assert(text@.skip(from as int).first() == text@[from as int]);
        assert(text@.skip(from as int).drop_first() =~= text@.skip(from + 1));
        from += 1;
    }
    assert(drop_leading(text@, slash) == text@.skip(from as int));
    assert(text@.subrange(from as int, text@.len() as int) =~= text@.skip(from as int));
    cut(text, from, chars.len())
}

/// The parts in order, with `separator` between each two neighbours.
pub fn join(parts: &Vec<String>, separator: &str) -> (whole: String)
    ensures
        whole@ == joined(texts(parts@), separator@),
{
    let mut whole = String::new();
    let mut i: usize = 0;
    while i < parts.len()
        invariant
            i <= parts@.len(),
            whole@ == joined(texts(parts@).take(i as int), separator@),
        decreases parts@.len() - i,
    {
        let ghost sofar = texts(parts@).take(i as int);
        if i > 0 {
            whole.append(separator);
        }
        whole.append(parts[i].as_str());
        assert(texts(parts@).take(i + 1).drop_last() =~= sofar);
        assert(texts(parts@).take(i + 1).last() == parts@[i as int]@);
        i += 1;
    }
    assert(texts(parts@).take(i as int) =~= texts(parts@));
    whole
}

/// The digits of `n` in base ten.
pub fn decimal_text(n: u64) -> (digits: String)
    ensures
        digits@ == decimal(n as nat),
    decreases n,
{
    let place: usize = (n % 10) as usize;
    proof {
        reveal_strlit("0123456789");
    }
    let digit = "0123456789".substring_char(place, place + 1);
    assert(digit@ =~= seq!["0123456789"@[place as int]]);
    if n < 10 {
        digit.to_owned()
    } else {
        let mut digits = decimal_text(n / 10);
        digits.append(digit);
        assert(digits@ =~= decimal((n / 10) as nat).push("0123456789"@[place as int]));
        digits
    }
}

/// What is left begins with a character that is not dropped, and is an ending of `s`.
pub proof fn lemma_drop_leading(s: Seq<char>, drop: spec_fn(char) -> bool)
    ensures
        drop_leading(s, drop).len() > 0 ==> !drop(drop_leading(s, drop).first()),
        drop_leading(s, drop).is_suffix_of(s),
    decreases s.len(),
{
    if s.len() > 0 && drop(s.first()) {
        lemma_drop_leading(s.drop_first(), drop);
        let rest = drop_leading(s, drop);
        assert(rest =~= s.subrange(s.len() - rest.len(), s.len() as int));
    }
}

/// What is left ends with a character that is not dropped, and is a beginning of `s`.
pub proof fn lemma_drop_trailing(s: Seq<char>, drop: spec_fn(char) -> bool)
    ensures
        drop_trailing(s, drop).len() > 0 ==> !drop(drop_trailing(s, drop).last()),
        drop_trailing(s, drop).is_prefix_of(s),
    decreases s.len(),
{
    if s.len() > 0 && drop(s.last()) {
        lemma_drop_trailing(s.drop_last(), drop);
        let rest = drop_trailing(s, drop);
        assert(rest =~= s.subrange(0, rest.len() as int));
    }
}

/// The number that digits in base ten stand for.
pub open spec fn decimal_value(digits: Seq<char>) -> nat
    decreases digits.len(),
{
    if digits.len() == 0 {
        0
    } else {
        10 * decimal_value(digits.drop_last()) + (digits.last() as nat - '0' as nat) as nat
    }
}

/// The digits of a number stand for it.
pub proof fn law_decimal_keeps_its_value(n: nat)
    ensures
        decimal_value(decimal(n)) == n,
    decreases n,
{
    reveal_strlit("0123456789");
    let digits = decimal(n);
    let place = (n % 10) as int;
    assert("0123456789"@[place] as nat == '0' as nat + place);
    if n < 10 {
        assert(digits.drop_last() =~= Seq::empty());
        assert(decimal_value(digits.drop_last()) == 0);
    } else {
        law_decimal_keeps_its_value(n / 10);
        assert(digits.drop_last() =~= decimal(n / 10));
    }
}

} // verus!
