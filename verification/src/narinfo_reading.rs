//! A narinfo can be read back: its lines give the fields that it was made from.

use vstd::prelude::*;
use crate::narinfo_laws;
use crate::path_info::PathInfoView;
use crate::store;
use crate::text;
use crate::text_laws;

verus! {

/// The lines of a text: what stands ahead of each end of a line, and what follows the
/// last of them where that is not empty.
pub open spec fn lines_of(s: Seq<char>) -> Seq<Seq<char>>
    decreases s.len(),
{
    match s.index_of_first('\n') {
        Some(i) => if 0 <= i < s.len() {
            seq![s.take(i)] + lines_of(s.skip(i + 1))
        } else {
            seq![s]
        },
        None => if s.len() == 0 {
            Seq::empty()
        } else {
            seq![s]
        },
    }
}

/// What follows a label in the lines that begin with it, in order.
pub open spec fn values_under(lines: Seq<Seq<char>>, label: Seq<char>) -> Seq<Seq<char>>
    decreases lines.len(),
{
    if lines.len() == 0 {
        Seq::empty()
    } else {
        values_under(lines.drop_last(), label) + (if label.is_prefix_of(lines.last()) {
            seq![lines.last().skip(label.len() as int)]
        } else {
            Seq::empty()
        })
    }
}

/// Whether a text is all on one line.
pub open spec fn on_one_line(s: Seq<char>) -> bool {
    forall|i: int| 0 <= i < s.len() ==> #[trigger] s[i] != '\n'
}

/// Whether two labels can be told apart by three of their characters.
pub open spec fn apart(a: Seq<char>, b: Seq<char>) -> bool {
    a.len() > 3 && b.len() > 3 && (a[0] != b[0] || a[1] != b[1] || a[3] != b[3])
}

/// The lines that say these values under a label.
pub open spec fn labelled(label: Seq<char>, values: Seq<Seq<char>>) -> Seq<Seq<char>> {
    values.map_values(|value: Seq<char>| label + value)
}

/// The text that is made of lines.
pub open spec fn text_of_lines(lines: Seq<Seq<char>>) -> Seq<char> {
    lines.map_values(|line: Seq<char>| line + "\n"@).flatten()
}

proof fn lemma_first_line(line: Seq<char>, rest: Seq<char>)
    requires
        on_one_line(line),
    ensures
        lines_of(line + "\n"@ + rest) == seq![line] + lines_of(rest),
{
    reveal_strlit("\n");
    let s = line + "\n"@ + rest;
    s.index_of_first_ensures('\n');
    assert(s[line.len() as int] == '\n');
    assert(s.contains('\n'));
    let i = s.index_of_first('\n')->0;
    if i < line.len() {
        assert(s[i] == line[i]);
    }
    assert(s.take(i) =~= line);
    assert(s.skip(i + 1) =~= rest);
}

proof fn lemma_lines_of_lines(lines: Seq<Seq<char>>)
    requires
        forall|i: int| 0 <= i < lines.len() ==> on_one_line(#[trigger] lines[i]),
    ensures
        lines_of(text_of_lines(lines)) == lines,
    decreases lines.len(),
{
    let ended = |line: Seq<char>| line + "\n"@;
    let rows = lines.map_values(ended);
    if lines.len() == 0 {
        assert(rows =~= Seq::empty());
        let s = text_of_lines(lines);
        s.index_of_first_ensures('\n');
        assert(lines_of(s) =~= lines);
    } else {
        let rest = lines.drop_first();
        assert forall|i: int| 0 <= i < rest.len() implies on_one_line(#[trigger] rest[i]) by {
            assert(rest[i] == lines[i + 1]);
        }
        lemma_lines_of_lines(rest);
        assert(rows.drop_first() =~= rest.map_values(ended));
        assert(rows.first() == lines[0] + "\n"@);
        assert(text_of_lines(lines) == lines[0] + "\n"@ + text_of_lines(rest));
        lemma_first_line(lines[0], text_of_lines(rest));
        assert(seq![lines[0]] + rest =~= lines);
    }
}

proof fn lemma_text_of_two_runs(a: Seq<Seq<char>>, b: Seq<Seq<char>>)
    ensures
        text_of_lines(a + b) == text_of_lines(a) + text_of_lines(b),
    decreases b.len(),
{
    let ended = |line: Seq<char>| line + "\n"@;
    if b.len() == 0 {
        assert(a + b =~= a);
        assert(b.map_values(ended) =~= Seq::empty());
        assert(text_of_lines(a) + text_of_lines(b) =~= text_of_lines(a));
    } else {
        lemma_text_of_two_runs(a, b.drop_last());
        let ab = (a + b).map_values(ended);
        text_laws::lemma_flatten_ends_with_last(ab);
        text_laws::lemma_flatten_ends_with_last(b.map_values(ended));
        assert(ab.drop_last() =~= (a + b.drop_last()).map_values(ended));
        assert(b.map_values(ended).drop_last() =~= b.drop_last().map_values(ended));
        assert(text_of_lines(a + b) =~= text_of_lines(a) + text_of_lines(b));
    }
}

proof fn lemma_values_of_two_runs(a: Seq<Seq<char>>, b: Seq<Seq<char>>, label: Seq<char>)
    ensures
        values_under(a + b, label) == values_under(a, label) + values_under(b, label),
    decreases b.len(),
{
    if b.len() == 0 {
        assert(a + b =~= a);
        assert(values_under(a, label) + values_under(b, label) =~= values_under(a, label));
    } else {
        lemma_values_of_two_runs(a, b.drop_last(), label);
        assert((a + b).drop_last() =~= a + b.drop_last());
        assert((a + b).last() == b.last());
        assert(values_under(a + b, label) =~= values_under(a, label) + values_under(b, label));
    }
}

proof fn lemma_values_under_own_label(label: Seq<char>, own: Seq<char>, values: Seq<Seq<char>>)
    requires
        label == own || apart(label, own),
    ensures
        values_under(labelled(own, values), label) == (if label == own {
            values
        } else {
            Seq::empty()
        }),
    decreases values.len(),
{
    if values.len() > 0 {
        let rows = labelled(own, values);
        let row = own + values.last();
        lemma_values_under_own_label(label, own, values.drop_last());
        assert(rows.drop_last() =~= labelled(own, values.drop_last()));
        assert(rows.last() == row);
        if label == own {
            assert(row.subrange(0, own.len() as int) =~= own);
            assert(row.skip(own.len() as int) =~= values.last());
            assert(values.drop_last() + seq![values.last()] =~= values);
        } else if label.is_prefix_of(row) {
            let head = row.subrange(0, label.len() as int);
            assert(head[0] == own[0] && head[1] == own[1] && head[3] == own[3]);
        }
        assert(values_under(rows, label) =~= if label == own {
            values
        } else {
            Seq::empty()
        });
    } else {
        assert(values =~= Seq::empty());
    }
}

/// The values of a narinfo, by the labels of its lines.
pub struct Fields {
    pub store_path: Seq<Seq<char>>,
    pub url: Seq<Seq<char>>,
    pub compression: Seq<Seq<char>>,
    pub nar_hash: Seq<Seq<char>>,
    pub nar_size: Seq<Seq<char>>,
    pub references: Seq<Seq<char>>,
    pub deriver: Seq<Seq<char>>,
    pub signatures: Seq<Seq<char>>,
}

/// The lines that say these values.
pub open spec fn lines_with(fields: Fields) -> Seq<Seq<char>> {
    labelled("StorePath: "@, fields.store_path) + labelled("URL: "@, fields.url) + labelled(
        "Compression: "@,
        fields.compression,
    ) + labelled("NarHash: "@, fields.nar_hash) + labelled("NarSize: "@, fields.nar_size)
        + labelled("References: "@, fields.references) + labelled("Deriver: "@, fields.deriver)
        + labelled("Sig: "@, fields.signatures)
}

/// Whether a label is one of these lines' and can be told apart from the others.
spec fn told_apart(label: Seq<char>) -> bool {
    &&& label == "StorePath: "@ || apart(label, "StorePath: "@)
    &&& label == "URL: "@ || apart(label, "URL: "@)
    &&& label == "Compression: "@ || apart(label, "Compression: "@)
    &&& label == "NarHash: "@ || apart(label, "NarHash: "@)
    &&& label == "NarSize: "@ || apart(label, "NarSize: "@)
    &&& label == "References: "@ || apart(label, "References: "@)
    &&& label == "Deriver: "@ || apart(label, "Deriver: "@)
    &&& label == "Sig: "@ || apart(label, "Sig: "@)
}

spec fn only(wanted: bool, values: Seq<Seq<char>>) -> Seq<Seq<char>> {
    if wanted {
        values
    } else {
        Seq::empty()
    }
}

proof fn lemma_values_under_label(fields: Fields, label: Seq<char>)
    requires
        told_apart(label),
    ensures
        values_under(lines_with(fields), label) == only(
            label == "StorePath: "@,
            fields.store_path,
        ) + only(label == "URL: "@, fields.url) + only(
            label == "Compression: "@,
            fields.compression,
        ) + only(label == "NarHash: "@, fields.nar_hash) + only(
            label == "NarSize: "@,
            fields.nar_size,
        ) + only(label == "References: "@, fields.references) + only(
            label == "Deriver: "@,
            fields.deriver,
        ) + only(label == "Sig: "@, fields.signatures),
{
    let g1 = labelled("StorePath: "@, fields.store_path);
    let g2 = labelled("URL: "@, fields.url);
    let g3 = labelled("Compression: "@, fields.compression);
    let g4 = labelled("NarHash: "@, fields.nar_hash);
    let g5 = labelled("NarSize: "@, fields.nar_size);
    let g6 = labelled("References: "@, fields.references);
    let g7 = labelled("Deriver: "@, fields.deriver);
    let g8 = labelled("Sig: "@, fields.signatures);
    lemma_values_under_own_label(label, "StorePath: "@, fields.store_path);
    lemma_values_under_own_label(label, "URL: "@, fields.url);
    lemma_values_under_own_label(label, "Compression: "@, fields.compression);
    lemma_values_under_own_label(label, "NarHash: "@, fields.nar_hash);
    lemma_values_under_own_label(label, "NarSize: "@, fields.nar_size);
    lemma_values_under_own_label(label, "References: "@, fields.references);
    lemma_values_under_own_label(label, "Deriver: "@, fields.deriver);
    lemma_values_under_own_label(label, "Sig: "@, fields.signatures);
    lemma_values_of_two_runs(g1, g2, label);
    lemma_values_of_two_runs(g1 + g2, g3, label);
    lemma_values_of_two_runs(g1 + g2 + g3, g4, label);
    lemma_values_of_two_runs(g1 + g2 + g3 + g4, g5, label);
    lemma_values_of_two_runs(g1 + g2 + g3 + g4 + g5, g6, label);
    lemma_values_of_two_runs(g1 + g2 + g3 + g4 + g5 + g6, g7, label);
    lemma_values_of_two_runs(g1 + g2 + g3 + g4 + g5 + g6 + g7, g8, label);
}

proof fn lemma_labels_are_told_apart()
    ensures
        told_apart("StorePath: "@),
        told_apart("URL: "@),
        told_apart("Compression: "@),
        told_apart("NarHash: "@),
        told_apart("NarSize: "@),
        told_apart("References: "@),
        told_apart("Deriver: "@),
        told_apart("Sig: "@),
{
    reveal_strlit("StorePath: ");
    reveal_strlit("URL: ");
    reveal_strlit("Compression: ");
    reveal_strlit("NarHash: ");
    reveal_strlit("NarSize: ");
    reveal_strlit("References: ");
    reveal_strlit("Deriver: ");
    reveal_strlit("Sig: ");
}

/// Lines that say values under the labels of a narinfo give back those values.
pub proof fn law_labelled_lines_are_read_back(fields: Fields)
    ensures
        values_under(lines_with(fields), "StorePath: "@) == fields.store_path,
        values_under(lines_with(fields), "URL: "@) == fields.url,
        values_under(lines_with(fields), "Compression: "@) == fields.compression,
        values_under(lines_with(fields), "NarHash: "@) == fields.nar_hash,
        values_under(lines_with(fields), "NarSize: "@) == fields.nar_size,
        values_under(lines_with(fields), "References: "@) == fields.references,
        values_under(lines_with(fields), "Deriver: "@) == fields.deriver,
        values_under(lines_with(fields), "Sig: "@) == fields.signatures,
{
    lemma_labels_are_told_apart();
    lemma_labels_differ();
    lemma_values_under_label(fields, "StorePath: "@);
    lemma_values_under_label(fields, "URL: "@);
    lemma_values_under_label(fields, "Compression: "@);
    lemma_values_under_label(fields, "NarHash: "@);
    lemma_values_under_label(fields, "NarSize: "@);
    lemma_values_under_label(fields, "References: "@);
    lemma_values_under_label(fields, "Deriver: "@);
    lemma_values_under_label(fields, "Sig: "@);
}

proof fn lemma_labels_differ()
    ensures
        "StorePath: "@.len() == 11,
        "URL: "@.len() == 5,
        "Compression: "@.len() == 13,
        "NarHash: "@.len() == 9,
        "NarSize: "@.len() == 9,
        "References: "@.len() == 12,
        "Deriver: "@.len() == 9,
        "Sig: "@.len() == 5,
        "NarHash: "@[3] == 'H' && "NarSize: "@[3] == 'S' && "Deriver: "@[3] == 'i',
        "URL: "@[0] == 'U' && "Sig: "@[0] == 'S',
{
    reveal_strlit("StorePath: ");
    reveal_strlit("URL: ");
    reveal_strlit("Compression: ");
    reveal_strlit("NarHash: ");
    reveal_strlit("NarSize: ");
    reveal_strlit("References: ");
    reveal_strlit("Deriver: ");
    reveal_strlit("Sig: ");
}

proof fn lemma_one_labelled_line(label: Seq<char>, value: Seq<char>)
    ensures
        text_of_lines(labelled(label, seq![value])) == label + value + "\n"@,
{
    let ended = |line: Seq<char>| line + "\n"@;
    let rows = labelled(label, seq![value]).map_values(ended);
    assert(rows =~= seq![label + value + "\n"@]);
    rows.lemma_flatten_one_element();
}

proof fn lemma_no_labelled_line(label: Seq<char>)
    ensures
        text_of_lines(labelled(label, Seq::empty())) == Seq::<char>::empty(),
{
    let ended = |line: Seq<char>| line + "\n"@;
    assert(labelled(label, Seq::empty()).map_values(ended) =~= Seq::<Seq<char>>::empty());
}

proof fn lemma_labelled_lines(label: Seq<char>, values: Seq<Seq<char>>)
    ensures
        text_of_lines(labelled(label, values)) == values.map_values(
            |value: Seq<char>| label + value + "\n"@,
        ).flatten(),
{
    let ended = |line: Seq<char>| line + "\n"@;
    assert(labelled(label, values).map_values(ended) =~= values.map_values(
        |value: Seq<char>| label + value + "\n"@,
    ));
}

proof fn lemma_text_with_fields(fields: Fields)
    ensures
        text_of_lines(lines_with(fields)) == text_of_lines(
            labelled("StorePath: "@, fields.store_path),
        ) + text_of_lines(labelled("URL: "@, fields.url)) + text_of_lines(
            labelled("Compression: "@, fields.compression),
        ) + text_of_lines(labelled("NarHash: "@, fields.nar_hash)) + text_of_lines(
            labelled("NarSize: "@, fields.nar_size),
        ) + text_of_lines(labelled("References: "@, fields.references)) + text_of_lines(
            labelled("Deriver: "@, fields.deriver),
        ) + text_of_lines(labelled("Sig: "@, fields.signatures)),
{
    let g1 = labelled("StorePath: "@, fields.store_path);
    let g2 = labelled("URL: "@, fields.url);
    let g3 = labelled("Compression: "@, fields.compression);
    let g4 = labelled("NarHash: "@, fields.nar_hash);
    let g5 = labelled("NarSize: "@, fields.nar_size);
    let g6 = labelled("References: "@, fields.references);
    let g7 = labelled("Deriver: "@, fields.deriver);
    let g8 = labelled("Sig: "@, fields.signatures);
    lemma_text_of_two_runs(g1, g2);
    lemma_text_of_two_runs(g1 + g2, g3);
    lemma_text_of_two_runs(g1 + g2 + g3, g4);
    lemma_text_of_two_runs(g1 + g2 + g3 + g4, g5);
    lemma_text_of_two_runs(g1 + g2 + g3 + g4 + g5, g6);
    lemma_text_of_two_runs(g1 + g2 + g3 + g4 + g5 + g6, g7);
    lemma_text_of_two_runs(g1 + g2 + g3 + g4 + g5 + g6 + g7, g8);
}

/// The values that the narinfo of a store path says. The references line holds the names,
/// in order, with single spaces between them.
pub open spec fn fields_of(
    store_path: Seq<char>,
    hash_part: Seq<char>,
    hash: Seq<char>,
    info: PathInfoView,
    names: Seq<Seq<char>>,
    deriver_name: Seq<char>,
) -> Fields {
    Fields {
        store_path: seq![store_path],
        url: seq!["nar/"@ + hash_part + "-"@ + hash + ".nar"@],
        compression: seq!["none"@],
        nar_hash: seq![info.nar_hash],
        nar_size: seq![text::decimal(info.nar_size as nat)],
        references: if names.len() > 0 {
            seq![text::joined(names, " "@)]
        } else {
            Seq::empty()
        },
        deriver: if info.deriver is Some {
            seq![deriver_name]
        } else {
            Seq::empty()
        },
        signatures: match info.signatures {
            Some(signatures) => signatures,
            None => Seq::empty(),
        },
    }
}

proof fn lemma_narinfo_is_its_lines(
    store_path: Seq<char>,
    hash_part: Seq<char>,
    hash: Seq<char>,
    info: PathInfoView,
    directories: Seq<Option<Seq<char>>>,
    names: Seq<Seq<char>>,
    deriver_directory: Option<Seq<char>>,
    deriver_name: Seq<char>,
)
    requires
        info.nar_hash == "sha256:"@ + hash || info.nar_hash == hash && !"sha256:"@.is_prefix_of(
            hash,
        ),
        directories.len() == info.references.len(),
        names.len() == info.references.len(),
        forall|i: int, j: int|
            0 <= i < names.len() && 0 <= j < names[i].len() ==> #[trigger] names[i][j] != '/',
        forall|i: int|
            0 <= i < info.references.len() ==> #[trigger] info.references[i] == (
            match directories[i] {
                Some(directory) => directory + seq!['/'] + names[i],
                None => names[i],
            }),
        forall|j: int| 0 <= j < deriver_name.len() ==> #[trigger] deriver_name[j] != '/',
        info.deriver matches Some(deriver) ==> deriver == (match deriver_directory {
            Some(directory) => directory + seq!['/'] + deriver_name,
            None => deriver_name,
        }),
    ensures
        store::narinfo_text(store_path, hash_part, info) == text_of_lines(
            lines_with(fields_of(store_path, hash_part, hash, info, names, deriver_name)),
        ),
{
    let fields = fields_of(store_path, hash_part, hash, info, names, deriver_name);
    let url = "nar/"@ + hash_part + "-"@ + hash + ".nar"@;
    narinfo_laws::law_narinfo_says_each_field(
        store_path,
        hash_part,
        hash,
        info,
        directories,
        names,
        deriver_directory,
        deriver_name,
    );
    narinfo_laws::law_url_line_holds_the_whole_hash(hash_part, hash, info.nar_hash);
    assert(store::nar_url(hash_part, info.nar_hash) == url) by {
        assert(!"sha256:"@.is_prefix_of(Seq::<char>::empty())) by {
            reveal_strlit("sha256:");
        }
        narinfo_laws::law_advertised_address(
            hash_part,
            hash,
            if "sha256:"@.is_prefix_of(hash) {
                Seq::empty()
            } else {
                hash
            },
        );
    }
    lemma_text_with_fields(fields);
    lemma_one_labelled_line("StorePath: "@, store_path);
    lemma_one_labelled_line("URL: "@, url);
    lemma_one_labelled_line("Compression: "@, "none"@);
    assert("Compression: "@ + "none"@ + "\n"@ =~= "Compression: none\n"@) by {
        reveal_strlit("Compression: ");
        reveal_strlit("none");
        reveal_strlit("\n");
        reveal_strlit("Compression: none\n");
    }
    lemma_one_labelled_line("NarHash: "@, info.nar_hash);
    lemma_one_labelled_line("NarSize: "@, text::decimal(info.nar_size as nat));
    if names.len() > 0 {
        lemma_one_labelled_line("References: "@, text::joined(names, " "@));
        text_laws::law_joined_parts_in_a_row(names, " "@);
        assert("References: "@ =~= "References:"@ + " "@) by {
            reveal_strlit("References: ");
            reveal_strlit("References:");
            reveal_strlit(" ");
        }
        assert("References:"@ + " "@ + text::joined(names, " "@) + "\n"@ =~= "References:"@ + (
        " "@ + text::joined(names, " "@)) + "\n"@);
    } else {
        lemma_no_labelled_line("References: "@);
    }
    if info.deriver is Some {
        lemma_one_labelled_line("Deriver: "@, deriver_name);
    } else {
        lemma_no_labelled_line("Deriver: "@);
    }
    match info.signatures {
        Some(signatures) => {
            lemma_labelled_lines("Sig: "@, signatures);
        },
        None => {
            lemma_no_labelled_line("Sig: "@);
        },
    }
}

proof fn lemma_digits_on_one_line(n: nat)
    ensures
        on_one_line(text::decimal(n)),
    decreases n,
{
    reveal_strlit("0123456789");
    if n >= 10 {
        lemma_digits_on_one_line(n / 10);
    }
}

proof fn lemma_joined_on_one_line(parts: Seq<Seq<char>>)
    requires
        forall|i: int| 0 <= i < parts.len() ==> on_one_line(#[trigger] parts[i]),
    ensures
        on_one_line(text::joined(parts, " "@)),
    decreases parts.len(),
{
    reveal_strlit(" ");
    if parts.len() > 1 {
        assert forall|i: int| 0 <= i < parts.drop_last().len() implies on_one_line(
            #[trigger] parts.drop_last()[i],
        ) by {
            assert(parts.drop_last()[i] == parts[i]);
        }
        lemma_joined_on_one_line(parts.drop_last());
        assert(on_one_line(parts[parts.len() - 1]));
    }
}

proof fn lemma_labelled_on_one_line(label: Seq<char>, values: Seq<Seq<char>>)
    requires
        on_one_line(label),
        forall|i: int| 0 <= i < values.len() ==> on_one_line(#[trigger] values[i]),
    ensures
        forall|i: int|
            0 <= i < values.len() ==> on_one_line(#[trigger] labelled(label, values)[i]),
{
    assert forall|i: int| 0 <= i < values.len() implies on_one_line(
        #[trigger] labelled(label, values)[i],
    ) by {
        assert(on_one_line(values[i]));
    }
}

/// A narinfo can be read back. Where no field holds the end of a line, the lines of a
/// narinfo say, each under its own label and each exactly once: the store path, the
/// address with the hash part and the hash, the hash as it was reported, the size in
/// digits, the names of all the references with single spaces between them where there
/// are references, the name of the deriver where there is one, and each signature, in
/// order.
pub proof fn law_narinfo_is_read_back(
    store_path: Seq<char>,
    hash_part: Seq<char>,
    hash: Seq<char>,
    info: PathInfoView,
    directories: Seq<Option<Seq<char>>>,
    names: Seq<Seq<char>>,
    deriver_directory: Option<Seq<char>>,
    deriver_name: Seq<char>,
)
    requires
        info.nar_hash == "sha256:"@ + hash || info.nar_hash == hash && !"sha256:"@.is_prefix_of(
            hash,
        ),
        directories.len() == info.references.len(),
        names.len() == info.references.len(),
        forall|i: int, j: int|
            0 <= i < names.len() && 0 <= j < names[i].len() ==> #[trigger] names[i][j] != '/',
        forall|i: int|
            0 <= i < info.references.len() ==> #[trigger] info.references[i] == (
            match directories[i] {
                Some(directory) => directory + seq!['/'] + names[i],
                None => names[i],
            }),
        forall|j: int| 0 <= j < deriver_name.len() ==> #[trigger] deriver_name[j] != '/',
        info.deriver matches Some(deriver) ==> deriver == (match deriver_directory {
            Some(directory) => directory + seq!['/'] + deriver_name,
            None => deriver_name,
        }),
        on_one_line(store_path),
        on_one_line(hash_part),
        on_one_line(hash),
        on_one_line(deriver_name),
        forall|i: int| 0 <= i < names.len() ==> on_one_line(#[trigger] names[i]),
        info.signatures matches Some(signatures) ==> forall|i: int|
            0 <= i < signatures.len() ==> on_one_line(#[trigger] signatures[i]),
    ensures
        ({
            let lines = lines_of(store::narinfo_text(store_path, hash_part, info));
            let references = values_under(lines, "References: "@);
            &&& values_under(lines, "StorePath: "@) == seq![store_path]
            &&& values_under(lines, "URL: "@) == seq![
                "nar/"@ + hash_part + "-"@ + hash + ".nar"@,
            ]
            &&& values_under(lines, "Compression: "@) == seq!["none"@]
            &&& values_under(lines, "NarHash: "@) == seq![info.nar_hash]
            &&& values_under(lines, "NarSize: "@) == seq![text::decimal(info.nar_size as nat)]
            &&& names.len() == 0 ==> references.len() == 0
            &&& names.len() > 0 ==> references.len() == 1 && " "@ + references[0]
                == names.map_values(|name: Seq<char>| " "@ + name).flatten()
            &&& values_under(lines, "Deriver: "@) == (if info.deriver is Some {
                seq![deriver_name]
            } else {
                Seq::empty()
            })
            &&& values_under(lines, "Sig: "@) == (match info.signatures {
                Some(signatures) => signatures,
                None => Seq::empty(),
            })
        }),
{
    let fields = fields_of(store_path, hash_part, hash, info, names, deriver_name);
    lemma_narinfo_is_its_lines(
        store_path,
        hash_part,
        hash,
        info,
        directories,
        names,
        deriver_directory,
        deriver_name,
    );
    lemma_fields_on_one_line(store_path, hash_part, hash, info, names, deriver_name);
    lemma_lines_of_lines(lines_with(fields));
    law_labelled_lines_are_read_back(fields);
    if names.len() > 0 {
        text_laws::law_joined_parts_in_a_row(names, " "@);
    }
}

proof fn lemma_labels_on_one_line()
    ensures
        on_one_line("StorePath: "@),
        on_one_line("URL: "@),
        on_one_line("Compression: "@),
        on_one_line("NarHash: "@),
        on_one_line("NarSize: "@),
        on_one_line("References: "@),
        on_one_line("Deriver: "@),
        on_one_line("Sig: "@),
        on_one_line("none"@),
        on_one_line("nar/"@),
        on_one_line("-"@),
        on_one_line(".nar"@),
        on_one_line("sha256:"@),
{
    reveal_strlit("StorePath: ");
    reveal_strlit("URL: ");
    reveal_strlit("Compression: ");
    reveal_strlit("NarHash: ");
    reveal_strlit("NarSize: ");
    reveal_strlit("References: ");
    reveal_strlit("Deriver: ");
    reveal_strlit("Sig: ");
    reveal_strlit("none");
    reveal_strlit("nar/");
    reveal_strlit("-");
    reveal_strlit(".nar");
    reveal_strlit("sha256:");
}

proof fn lemma_two_on_one_line(a: Seq<char>, b: Seq<char>)
    requires
        on_one_line(a),
        on_one_line(b),
    ensures
        on_one_line(a + b),
{
}

proof fn lemma_fields_on_one_line(
    store_path: Seq<char>,
    hash_part: Seq<char>,
    hash: Seq<char>,
    info: PathInfoView,
    names: Seq<Seq<char>>,
    deriver_name: Seq<char>,
)
    requires
        info.nar_hash == "sha256:"@ + hash || info.nar_hash == hash,
        on_one_line(store_path),
        on_one_line(hash_part),
        on_one_line(hash),
        on_one_line(deriver_name),
        forall|i: int| 0 <= i < names.len() ==> on_one_line(#[trigger] names[i]),
        info.signatures matches Some(signatures) ==> forall|i: int|
            0 <= i < signatures.len() ==> on_one_line(#[trigger] signatures[i]),
    ensures
        ({
            let lines = lines_with(
                fields_of(store_path, hash_part, hash, info, names, deriver_name),
            );
            forall|i: int| 0 <= i < lines.len() ==> on_one_line(#[trigger] lines[i])
        }),
{
    let fields = fields_of(store_path, hash_part, hash, info, names, deriver_name);
    lemma_labels_on_one_line();
    lemma_two_on_one_line("nar/"@, hash_part);
    lemma_two_on_one_line("nar/"@ + hash_part, "-"@);
    lemma_two_on_one_line("nar/"@ + hash_part + "-"@, hash);
    lemma_two_on_one_line("nar/"@ + hash_part + "-"@ + hash, ".nar"@);
    lemma_two_on_one_line("sha256:"@, hash);
    lemma_digits_on_one_line(info.nar_size as nat);
    lemma_joined_on_one_line(names);
    let g1 = labelled("StorePath: "@, fields.store_path);
    let g2 = labelled("URL: "@, fields.url);
    let g3 = labelled("Compression: "@, fields.compression);
    let g4 = labelled("NarHash: "@, fields.nar_hash);
    let g5 = labelled("NarSize: "@, fields.nar_size);
    let g6 = labelled("References: "@, fields.references);
    let g7 = labelled("Deriver: "@, fields.deriver);
    let g8 = labelled("Sig: "@, fields.signatures);
    lemma_labelled_on_one_line("StorePath: "@, fields.store_path);
    lemma_labelled_on_one_line("URL: "@, fields.url);
    lemma_labelled_on_one_line("Compression: "@, fields.compression);
    lemma_labelled_on_one_line("NarHash: "@, fields.nar_hash);
    lemma_labelled_on_one_line("NarSize: "@, fields.nar_size);
    lemma_labelled_on_one_line("References: "@, fields.references);
    lemma_labelled_on_one_line("Deriver: "@, fields.deriver);
    lemma_labelled_on_one_line("Sig: "@, fields.signatures);
    lemma_two_runs_on_one_line(g1, g2);
    lemma_two_runs_on_one_line(g1 + g2, g3);
    lemma_two_runs_on_one_line(g1 + g2 + g3, g4);
    lemma_two_runs_on_one_line(g1 + g2 + g3 + g4, g5);
    lemma_two_runs_on_one_line(g1 + g2 + g3 + g4 + g5, g6);
    lemma_two_runs_on_one_line(g1 + g2 + g3 + g4 + g5 + g6, g7);
    lemma_two_runs_on_one_line(g1 + g2 + g3 + g4 + g5 + g6 + g7, g8);
}

proof fn lemma_two_runs_on_one_line(a: Seq<Seq<char>>, b: Seq<Seq<char>>)
    requires
        forall|i: int| 0 <= i < a.len() ==> on_one_line(#[trigger] a[i]),
        forall|i: int| 0 <= i < b.len() ==> on_one_line(#[trigger] b[i]),
    ensures
        forall|i: int| 0 <= i < (a + b).len() ==> on_one_line(#[trigger] (a + b)[i]),
{
    assert forall|i: int| 0 <= i < (a + b).len() implies on_one_line(#[trigger] (a + b)[i]) by {
        if i < a.len() {
            assert((a + b)[i] == a[i]);
        } else {
            assert((a + b)[i] == b[i - a.len()]);
        }
    }
}

} // verus!
