//! What holds of the store's side as a whole.

use vstd::prelude::*;
use crate::json::Json;
use crate::path_info;
use crate::path_info::PathInfoView;
use crate::reply;
use crate::reply::{OutcomeView, Status, StreamPlanView};
use crate::store;
use crate::store::StepView;
use crate::text;

verus! {

/// The step that ends a request, where its commands have these outcomes.
pub open spec fn served(
    path: Seq<char>,
    store_dir: Seq<char>,
    lookup: OutcomeView,
    report: OutcomeView,
) -> StepView {
    match store::handled(path, store_dir) {
        StepView::Run(_, finding_path) => match store::resumed(finding_path, lookup) {
            StepView::Run(_, finding_info) => store::resumed(finding_info, report),
            end => end,
        },
        end => end,
    }
}

/// An archive's path names a hash part and an expected hash exactly where it asks for
/// the two with a `-` between them, the first of its `-`.
pub proof fn law_nar_path_parts_at_first_dash(
    path: Seq<char>,
    hash_part: Seq<char>,
    expected_hash: Seq<char>,
)
    ensures
        store::nar_with_hash_asked(path) == Some((hash_part, expected_hash)) <==> {
            &&& store::nar_asked(path) == Some(hash_part + "-"@ + expected_hash)
            &&& !hash_part.contains('-')
        },
{
    reveal_strlit("-");
    if let Some(body) = store::nar_asked(path) {
        body.index_of_first_ensures('-');
        if let Some(i) = body.index_of_first('-') {
            assert(body =~= body.take(i) + "-"@ + body.skip(i + 1));
            assert(!body.take(i).contains('-'));
        }
        if body == hash_part + "-"@ + expected_hash && !hash_part.contains('-') {
            assert(body[hash_part.len() as int] == '-');
            let i = body.index_of_first('-')->0;
            if i < hash_part.len() {
                assert(hash_part[i] == body[i]);
            }
            assert(body.take(i) =~= hash_part);
            assert(body.skip(i + 1) =~= expected_hash);
        }
    }
}

/// An archive's path either names an expected hash or names none.
pub proof fn law_nar_paths_are_of_one_kind(path: Seq<char>)
    ensures
        store::nar_asked(path) is Some <==> (store::nar_with_hash_asked(path) is Some) != (
        store::nar_without_hash_asked(path) is Some),
        !(store::nar_with_hash_asked(path) is Some && store::nar_without_hash_asked(path) is Some),
{
    if let Some(body) = store::nar_asked(path) {
        body.index_of_first_ensures('-');
    }
}

/// The path that is made for an archive asks for it.
proof fn lemma_nar_path(body: Seq<char>)
    ensures
        store::nar_asked("/nar/"@ + body + ".nar"@) == Some(body),
        store::narinfo_asked("/nar/"@ + body + ".nar"@) is None,
{
    reveal_strlit("/nar/");
    reveal_strlit(".nar");
    reveal_strlit(".narinfo");
    let path = "/nar/"@ + body + ".nar"@;
    assert("/nar/"@ =~= path.subrange(0, 5));
    assert(".nar"@ =~= path.subrange(path.len() - 4, path.len() as int));
    assert(path.subrange(5, path.len() - 4) =~= body);
    assert(path[path.len() - 1] == 'r');
    if ".narinfo"@.is_suffix_of(path) {
        assert(path.subrange(path.len() - 8, path.len() as int)[7] == path[path.len() - 1]);
    }
}

/// A request for the narinfo of a hash part is understood as such. The hash part may
/// not begin with a slash: the slashes at the front of a path do not count.
pub proof fn law_narinfo_path_names_its_hash_part(hash_part: Seq<char>)
    requires
        hash_part.len() > 0 ==> hash_part[0] != '/',
    ensures
        store::narinfo_asked("/"@ + hash_part + ".narinfo"@) == Some(hash_part),
{
    reveal_strlit("/");
    reveal_strlit(".narinfo");
    let slash = |c: char| c == '/';
    let path = "/"@ + hash_part + ".narinfo"@;
    let rest = hash_part + ".narinfo"@;
    assert(".narinfo"@ =~= path.subrange(path.len() - 8, path.len() as int));
    assert(path.drop_first() =~= rest);
    assert(path.first() == '/');
    assert(rest.first() != '/');
    assert(text::drop_leading(path, slash) == text::drop_leading(rest, slash));
    assert(text::drop_leading(rest, slash) == rest);
    assert(rest.take(rest.len() - 8) =~= hash_part);
}

/// A request for a build log streams that log. A name that ends in `.narinfo` is a
/// request for a narinfo instead.
pub proof fn law_log_path_streams_its_log(store_name: Seq<char>, store_dir: Seq<char>)
    requires
        store_name.len() > 0,
        !".narinfo"@.is_suffix_of("/log/"@ + store_name),
    ensures
        store::handled("/log/"@ + store_name, store_dir) == StepView::Stream(
            store::log_planned(store_dir, store_name),
        ),
{
    reveal_strlit("/log/");
    reveal_strlit("/nar/");
    let path = "/log/"@ + store_name;
    assert("/log/"@ =~= path.subrange(0, 5));
    assert(path.skip(5) =~= store_name);
    assert(path[1] == 'l');
    if "/nar/"@.is_prefix_of(path) {
        assert(path.subrange(0, 5)[1] == path[1]);
    }
}

/// The address at which an archive is advertised is understood as a request for the
/// hash part with the hash of the archive.
pub proof fn law_advertised_address_is_understood(hash_part: Seq<char>, nar_hash: Seq<char>)
    requires
        !hash_part.contains('-'),
    ensures
        store::narinfo_asked("/"@ + store::nar_url(hash_part, nar_hash)) is None,
        store::nar_with_hash_asked("/"@ + store::nar_url(hash_part, nar_hash)) == Some(
            (hash_part, store::short_hash(nar_hash)),
        ),
{
    let url = store::nar_url(hash_part, nar_hash);
    let short = store::short_hash(nar_hash);
    let body = hash_part + "-"@ + short;
    assert("/"@ + url =~= "/nar/"@ + body + ".nar"@) by {
        reveal_strlit("/");
        reveal_strlit("nar/");
        reveal_strlit("/nar/");
        assert("/"@ + "nar/"@ =~= "/nar/"@);
    }
    lemma_nar_path(body);
    law_nar_path_parts_at_first_dash("/"@ + url, hash_part, short);
}

/// The archive that a narinfo advertises is the one that is served: where a request
/// for a narinfo is answered, the answer holds an address, and the request for that
/// address, as long as Nix says the same, streams the archive of the same store path
/// with the length that the narinfo gives.
///
/// A hash part that holds a `-` is left out: the address is parted at the first `-`.
pub proof fn law_advertised_archive_is_served(
    path: Seq<char>,
    hash_part: Seq<char>,
    store_dir: Seq<char>,
    lookup: OutcomeView,
    report: OutcomeView,
)
    requires
        store::narinfo_asked(path) == Some(hash_part),
        !hash_part.contains('-'),
        served(path, store_dir, lookup, report) is Answer,
    ensures
        ({
            let store_path = store::store_path_found(lookup)->Ok_0;
            let info = store::path_info_found(report, store_path)->Ok_0;
            let url = store::nar_url(hash_part, info.nar_hash);
            &&& served(path, store_dir, lookup, report) == StepView::Answer(
                store::narinfo_reply(store_path, hash_part, info),
            )
            &&& served("/"@ + url, store_dir, lookup, report) == StepView::Stream(
                StreamPlanView {
                    command: reply::nix_with(
                        seq![
                            "--extra-experimental-features"@,
                            "nix-command"@,
                            "store"@,
                            "dump-path"@,
                            "--"@,
                            store_path,
                        ],
                    ),
                    content_length: Some(info.nar_size),
                },
            )
        }),
{
    let store_path = store::store_path_found(lookup)->Ok_0;
    let info = store::path_info_found(report, store_path)->Ok_0;
    law_advertised_address_is_understood(hash_part, info.nar_hash);
}

/// An archive that is asked for with a hash is served only where Nix reports that
/// hash; where it reports another, nothing is found.
pub proof fn law_stale_archive_is_refused(
    path: Seq<char>,
    hash_part: Seq<char>,
    expected_hash: Seq<char>,
    store_dir: Seq<char>,
    lookup: OutcomeView,
    report: OutcomeView,
)
    requires
        store::narinfo_asked(path) is None,
        store::nar_with_hash_asked(path) == Some((hash_part, expected_hash)),
        store::store_path_found(lookup) is Ok,
        store::path_info_found(report, store::store_path_found(lookup)->Ok_0) is Ok,
    ensures
        ({
            let store_path = store::store_path_found(lookup)->Ok_0;
            let info = store::path_info_found(report, store_path)->Ok_0;
            &&& served(path, store_dir, lookup, report) is Stream <==> store::short_hash(
                info.nar_hash,
            ) == expected_hash
            &&& store::short_hash(info.nar_hash) != expected_hash ==> served(
                path,
                store_dir,
                lookup,
                report,
            ) == StepView::Fail(Status::NotFound)
        }),
{
}

/// A request is over once two commands have run for it, if not before.
pub proof fn law_requests_end_after_two_commands(
    path: Seq<char>,
    store_dir: Seq<char>,
    lookup: OutcomeView,
    report: OutcomeView,
)
    ensures
        !(served(path, store_dir, lookup, report) is Run),
{
}

/// A name that is left of a path holds no slash, is the path's own ending, and loses
/// nothing when it is stripped again.
pub proof fn law_stripped_name_has_no_slash(path: Seq<char>)
    ensures
        !text::last_segment(path).contains('/'),
        text::last_segment(path).is_suffix_of(path),
        text::last_segment(text::last_segment(path)) == text::last_segment(path),
{
    path.index_of_last_ensures('/');
    let name = text::last_segment(path);
    if let Some(i) = path.index_of_last('/') {
        if name.contains('/') {
            let j = choose|j: int| 0 <= j < name.len() && name[j] == '/';
            assert(path[i + 1 + j] == '/');
        }
        assert(name =~= path.subrange(path.len() - name.len(), path.len() as int));
    } else {
        assert(name =~= path.subrange(0, path.len() as int));
    }
    name.index_of_last_ensures('/');
}

/// A narinfo ends with the end of a line.
pub proof fn law_narinfo_ends_its_last_line(
    store_path: Seq<char>,
    hash_part: Seq<char>,
    info: PathInfoView,
)
    ensures
        store::narinfo_text(store_path, hash_part, info).len() > 0,
        store::narinfo_text(store_path, hash_part, info).last() == '\n',
{
    reveal_strlit("\n");
    if let Some(signatures) = info.signatures {
        if signatures.len() > 0 {
            assert(store::signature_lines(signatures).last() == '\n');
        }
    }
}

/// The store path that Nix prints is used without the white space around it, and is
/// never empty.
pub proof fn law_store_path_is_trimmed(output: Seq<char>)
    ensures
        store::store_path_printed(output) matches Ok(store_path) ==> {
            &&& store_path.len() > 0
            &&& !text::is_white_space(store_path.first())
            &&& !text::is_white_space(store_path.last())
        },
{
    let white = |c: char| text::is_white_space(c);
    text::lemma_drop_leading(output, white);
    text::lemma_drop_trailing(text::drop_leading(output, white), white);
}

/// Output that encodes a text in UTF-8 is read as that text.
pub proof fn law_utf8_output_is_read_as_text(output: Seq<char>)
    ensures
        store::store_path_found(
            OutcomeView::Finished { success: true, stdout: vstd::utf8::encode_utf8(output) },
        ) == store::store_path_printed(output),
{
    vstd::utf8::encode_utf8_valid_utf8(output);
    vstd::utf8::encode_utf8_decode_utf8(output);
}

/// Members of a report's entry that are not among the fields change nothing.
pub proof fn law_other_members_do_not_matter(
    members: Map<Seq<char>, Json>,
    key: Seq<char>,
    value: Json,
)
    requires
        key != "narHash"@,
        key != "narSize"@,
        key != "references"@,
        key != "deriver"@,
        key != "signatures"@,
    ensures
        path_info::info_of(Json::Object(members.insert(key, value))) == path_info::info_of(
            Json::Object(members),
        ),
{
}

/// A deriver, or signatures, of `null` count as missing.
pub proof fn law_null_counts_as_missing(members: Map<Seq<char>, Json>, key: Seq<char>)
    requires
        key == "deriver"@ || key == "signatures"@,
    ensures
        path_info::info_of(Json::Object(members.insert(key, Json::Null))) == path_info::info_of(
            Json::Object(members.remove(key)),
        ),
{
    reveal_strlit("narHash");
    reveal_strlit("narSize");
    reveal_strlit("references");
    reveal_strlit("deriver");
    reveal_strlit("signatures");
    assert("narHash"@[0] == 'n' && "narSize"@[0] == 'n' && "references"@[0] == 'r');
    assert("deriver"@[0] == 'd' && "signatures"@[0] == 's');
}

} // verus!
