//! What a narinfo says of a store path, line by line.

use vstd::prelude::*;
use crate::path_info::PathInfoView;
use crate::reply::Status;
use crate::request_laws;
use crate::store;
use crate::text;
use crate::text_laws;

verus! {

/// The references line is there exactly where there are references, and holds the names
/// of all of them, in order, each after a single space. The name of a reference is what
/// follows its last slash.
pub proof fn law_references_line_names_them_all(
    references: Seq<Seq<char>>,
    directories: Seq<Option<Seq<char>>>,
    names: Seq<Seq<char>>,
)
    requires
        directories.len() == references.len(),
        names.len() == references.len(),
        forall|i: int, j: int|
            0 <= i < names.len() && 0 <= j < names[i].len() ==> #[trigger] names[i][j] != '/',
        forall|i: int|
            0 <= i < references.len() ==> #[trigger] references[i] == (match directories[i] {
                Some(directory) => directory + seq!['/'] + names[i],
                None => names[i],
            }),
    ensures
        references.len() == 0 ==> store::references_line(references) == Seq::<char>::empty(),
        references.len() > 0 ==> store::references_line(references) == "References:"@
            + names.map_values(|name: Seq<char>| " "@ + name).flatten() + "\n"@,
{
    let stripped = references.map_values(|r: Seq<char>| text::last_segment(r));
    assert forall|i: int| 0 <= i < references.len() implies stripped[i] == names[i] by {
        let directory = match directories[i] {
            Some(directory) => directory,
            None => Seq::empty(),
        };
        assert forall|j: int| 0 <= j < names[i].len() implies #[trigger] names[i][j] != '/' by {}
        text_laws::law_name_follows_the_last_slash(directory, names[i]);
        assert(references[i] == references[i]);
    }
    assert(stripped =~= names);
    if references.len() > 0 {
        text_laws::law_joined_parts_in_a_row(names, " "@);
        reveal_strlit("References:");
        reveal_strlit("References: ");
        reveal_strlit(" ");
        assert("References: "@ =~= "References:"@ + " "@);
        assert(store::references_line(references) =~= "References:"@ + (" "@ + text::joined(
            names,
            " "@,
        )) + "\n"@);
    }
}

/// The deriver line is there exactly where there is a deriver, and holds its name.
pub proof fn law_deriver_line_names_it(directory: Seq<char>, name: Seq<char>)
    requires
        forall|j: int| 0 <= j < name.len() ==> #[trigger] name[j] != '/',
    ensures
        store::deriver_line(None) == Seq::<char>::empty(),
        store::deriver_line(Some(name)) == "Deriver: "@ + name + "\n"@,
        store::deriver_line(Some(directory + seq!['/'] + name)) == "Deriver: "@ + name + "\n"@,
{
    text_laws::law_name_follows_the_last_slash(directory, name);
}

/// There is one signature line for each signature, in order, with all of it.
pub proof fn law_signature_lines_hold_them_all(signatures: Seq<Seq<char>>)
    ensures
        store::signature_lines(signatures) == signatures.map_values(
            |signature: Seq<char>| "Sig: "@ + signature + "\n"@,
        ).flatten(),
    decreases signatures.len(),
{
    let one = |signature: Seq<char>| "Sig: "@ + signature + "\n"@;
    let rows = signatures.map_values(one);
    if signatures.len() > 0 {
        law_signature_lines_hold_them_all(signatures.drop_last());
        text_laws::lemma_flatten_ends_with_last(rows);
        assert(rows.drop_last() =~= signatures.drop_last().map_values(one));
    } else {
        assert(rows =~= Seq::empty());
    }
}

/// The advertised address holds the whole hash part and the whole hash.
pub proof fn law_advertised_address(hash_part: Seq<char>, hash: Seq<char>, other: Seq<char>)
    requires
        !"sha256:"@.is_prefix_of(other),
    ensures
        store::nar_url(hash_part, "sha256:"@ + hash) == "nar/"@ + hash_part + "-"@ + hash
            + ".nar"@,
        store::nar_url(hash_part, other) == "nar/"@ + hash_part + "-"@ + other + ".nar"@,
{
    request_laws::law_short_hash_is_whole(hash, other);
}

/// The URL line holds the whole hash part and the whole hash, without `sha256:`.
pub proof fn law_url_line_holds_the_whole_hash(
    hash_part: Seq<char>,
    hash: Seq<char>,
    nar_hash: Seq<char>,
)
    requires
        nar_hash == "sha256:"@ + hash || nar_hash == hash && !"sha256:"@.is_prefix_of(hash),
    ensures
        store::line("URL: "@, store::nar_url(hash_part, nar_hash)) == "URL: nar/"@ + hash_part
            + "-"@ + hash + ".nar\n"@,
{
    assert(!"sha256:"@.is_prefix_of(Seq::<char>::empty())) by {
        reveal_strlit("sha256:");
    }
    law_advertised_address(
        hash_part,
        hash,
        if "sha256:"@.is_prefix_of(hash) {
            Seq::empty()
        } else {
            hash
        },
    );
    assert("URL: nar/"@ =~= "URL: "@ + "nar/"@) by {
        reveal_strlit("URL: ");
        reveal_strlit("nar/");
        reveal_strlit("URL: nar/");
    }
    assert(".nar\n"@ =~= ".nar"@ + "\n"@) by {
        reveal_strlit(".nar");
        reveal_strlit("\n");
        reveal_strlit(".nar\n");
    }
    assert("URL: "@ + ("nar/"@ + hash_part + "-"@ + hash + ".nar"@) + "\n"@ =~= ("URL: "@
        + "nar/"@) + hash_part + "-"@ + hash + (".nar"@ + "\n"@));
}

/// Each line of a narinfo depends on its own field alone. Whatever the references, the
/// deriver and the signatures, the first five lines hold the store path, the address
/// with the hash part and the hash, the hash as it was reported, and the size. After
/// them stand the names of the references where there are any, whatever else there is;
/// then the name of the deriver where there is one; then the signatures, each on a line.
pub proof fn law_narinfo_says_each_field(
    store_path: Seq<char>,
    hash_part: Seq<char>,
    hash: Seq<char>,
    info: PathInfoView,
    directories: Seq<Option<Seq<char>>>,
    names: Seq<Seq<char>>,
    deriver_directory: Option<Seq<char>>,
    deriver_name: Seq<char>,
)
    requires
        info.nar_hash == "sha256:"@ + hash || info.nar_hash == hash && !"sha256:"@.is_prefix_of(
            hash,
        ),
        directories.len() == info.references.len(),
        names.len() == info.references.len(),
        forall|i: int, j: int|
            0 <= i < names.len() && 0 <= j < names[i].len() ==> #[trigger] names[i][j] != '/',
        forall|i: int|
            0 <= i < info.references.len() ==> #[trigger] info.references[i] == (
            match directories[i] {
                Some(directory) => directory + seq!['/'] + names[i],
                None => names[i],
            }),
        forall|j: int| 0 <= j < deriver_name.len() ==> #[trigger] deriver_name[j] != '/',
        info.deriver matches Some(deriver) ==> deriver == (match deriver_directory {
            Some(directory) => directory + seq!['/'] + deriver_name,
            None => deriver_name,
        }),
    ensures
        store::narinfo_text(store_path, hash_part, info) == ("StorePath: "@ + store_path + "\n"@)
            + ("URL: nar/"@ + hash_part + "-"@ + hash + ".nar\n"@) + "Compression: none\n"@ + (
        "NarHash: "@ + info.nar_hash + "\n"@) + ("NarSize: "@ + text::decimal(
            info.nar_size as nat,
        ) + "\n"@) + (if info.references.len() > 0 {
            "References:"@ + names.map_values(|name: Seq<char>| " "@ + name).flatten() + "\n"@
        } else {
            Seq::empty()
        }) + (if info.deriver is Some {
            "Deriver: "@ + deriver_name + "\n"@
        } else {
            Seq::empty()
        }) + (match info.signatures {
            Some(signatures) => signatures.map_values(
                |signature: Seq<char>| "Sig: "@ + signature + "\n"@,
            ).flatten(),
            None => Seq::empty(),
        }),
{
    law_url_line_holds_the_whole_hash(hash_part, hash, info.nar_hash);
    law_references_line_names_them_all(info.references, directories, names);
    let directory = match deriver_directory {
        Some(directory) => directory,
        None => Seq::empty(),
    };
    law_deriver_line_names_it(directory, deriver_name);
    if let Some(signatures) = info.signatures {
        law_signature_lines_hold_them_all(signatures);
    }
}

/// The reply that describes a store path is its narinfo.
pub proof fn law_narinfo_reply_holds_the_narinfo(
    store_path: Seq<char>,
    hash_part: Seq<char>,
    info: PathInfoView,
)
    ensures
        ({
            let reply = store::narinfo_reply(store_path, hash_part, info);
            let body = store::narinfo_text(store_path, hash_part, info);
            &&& reply.status == Status::Success
            &&& reply.content_type == "text/x-nix-narinfo"@
            &&& reply.body == body
            &&& reply.content_length == vstd::utf8::encode_utf8(body).len()
        }),
{
}

} // verus!
