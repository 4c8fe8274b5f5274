//! What a request asks for and what it sets going, by the characters of its path.

use vstd::prelude::*;
use crate::json;
use crate::json::Json;
use crate::path_info;
use crate::path_info::PathInfoView;
use crate::path_info_laws;
use crate::reply::{CommandLineView, OutcomeView, Status, StreamHeadView, StreamPlanView};
use crate::store;
use crate::store::{ServingView, StepView, WantedView};
use crate::text;
use crate::text_laws;

verus! {

/// A path asks for a narinfo exactly where it ends in `.narinfo`; the hash part is then
/// all that stands between the slashes at its front and that ending.
pub proof fn law_narinfo_path_is_understood(
    slashes: Seq<char>,
    hash_part: Seq<char>,
    path: Seq<char>,
)
    requires
        forall|i: int| 0 <= i < slashes.len() ==> #[trigger] slashes[i] == '/',
        hash_part.len() > 0 ==> hash_part[0] != '/',
    ensures
        store::narinfo_asked(slashes + hash_part + ".narinfo"@) == Some(hash_part),
        store::narinfo_asked(path) is Some <==> ".narinfo"@.is_suffix_of(path),
{
    reveal_strlit(".narinfo");
    let slash = |c: char| c == '/';
    let whole = slashes + hash_part + ".narinfo"@;
    let rest = hash_part + ".narinfo"@;
    assert(".narinfo"@ =~= whole.subrange(whole.len() - 8, whole.len() as int));
    assert(whole =~= slashes + rest);
    assert(rest[0] != '/');
    text_laws::law_drop_leading_parts_a_text(slashes, rest, slash);
    assert(rest.take(rest.len() - 8) =~= hash_part);
}

/// A path asks for an archive exactly where it is `/nar/`, what it asks for, and `.nar`.
pub proof fn law_nar_path_is_understood(path: Seq<char>, body: Seq<char>)
    ensures
        store::nar_asked(path) == Some(body) <==> path == "/nar/"@ + body + ".nar"@,
{
    reveal_strlit("/nar/");
    reveal_strlit(".nar");
    let made = "/nar/"@ + body + ".nar"@;
    assert(made.subrange(0, 5) =~= "/nar/"@);
    assert(made.subrange(made.len() - 4, made.len() as int) =~= ".nar"@);
    assert(made.subrange(5, made.len() - 4) =~= body);
    if "/nar/"@.is_prefix_of(path) && ".nar"@.is_suffix_of(path) {
        store::lemma_nar_ends_apart(path);
        let held = path.subrange(5, path.len() - 4);
        assert(path =~= path.subrange(0, 5) + held + path.subrange(
            path.len() - 4,
            path.len() as int,
        ));
    }
}

/// A path asks for an archive with a hash exactly where it is `/nar/`, a hash part
/// without a `-`, a `-`, the hash, and `.nar`.
pub proof fn law_nar_path_with_hash_is_understood(
    path: Seq<char>,
    hash_part: Seq<char>,
    expected_hash: Seq<char>,
)
    ensures
        store::nar_with_hash_asked(path) == Some((hash_part, expected_hash)) <==> {
            &&& path == "/nar/"@ + hash_part + "-"@ + expected_hash + ".nar"@
            &&& forall|i: int| 0 <= i < hash_part.len() ==> #[trigger] hash_part[i] != '-'
        },
{
    let body = hash_part + "-"@ + expected_hash;
    crate::store_laws::law_nar_path_parts_at_first_dash(path, hash_part, expected_hash);
    law_nar_path_is_understood(path, body);
    assert("/nar/"@ + body + ".nar"@ =~= "/nar/"@ + hash_part + "-"@ + expected_hash + ".nar"@);
    assert(hash_part.contains('-') <==> exists|i: int|
        0 <= i < hash_part.len() && hash_part[i] == '-');
}

/// A path asks for an archive without a hash exactly where it is `/nar/`, a hash part
/// without a `-`, and `.nar`.
pub proof fn law_nar_path_without_hash_is_understood(path: Seq<char>, hash_part: Seq<char>)
    ensures
        store::nar_without_hash_asked(path) == Some(hash_part) <==> {
            &&& path == "/nar/"@ + hash_part + ".nar"@
            &&& forall|i: int| 0 <= i < hash_part.len() ==> #[trigger] hash_part[i] != '-'
        },
{
    law_nar_path_is_understood(path, hash_part);
    if let Some(body) = store::nar_asked(path) {
        law_nar_path_is_understood(path, body);
    }
}

/// A path asks for a log exactly where it is `/log/` and a name that is not empty.
pub proof fn law_log_path_is_understood(path: Seq<char>, store_name: Seq<char>)
    ensures
        store::log_asked(path) == Some(store_name) <==> store_name.len() > 0 && path == "/log/"@
            + store_name,
{
    reveal_strlit("/log/");
    let made = "/log/"@ + store_name;
    assert(made.subrange(0, 5) =~= "/log/"@);
    assert(made.skip(5) =~= store_name);
    if "/log/"@.is_prefix_of(path) {
        assert(path =~= path.subrange(0, 5) + path.skip(5));
    }
}

/// The command that looks up the store path with a hash part.
pub proof fn law_lookup_command(hash_part: Seq<char>)
    ensures
        store::store_path_asked(hash_part) == (CommandLineView {
            program: "nix"@,
            args: seq!["store"@, "path-from-hash-part"@, hash_part],
        }),
{
}

/// The command that reports on a store path.
pub proof fn law_report_command(store_path: Seq<char>)
    ensures
        store::path_info_asked(store_path) == (CommandLineView {
            program: "nix"@,
            args: seq!["path-info"@, "--json"@, "--sigs"@, "--size"@, store_path],
        }),
{
}

/// A request for a narinfo looks up the store path with its whole hash part.
pub proof fn law_narinfo_request_looks_up_its_path(
    slashes: Seq<char>,
    hash_part: Seq<char>,
    store_dir: Seq<char>,
)
    requires
        forall|i: int| 0 <= i < slashes.len() ==> #[trigger] slashes[i] == '/',
        hash_part.len() > 0 ==> hash_part[0] != '/',
    ensures
        store::handled(slashes + hash_part + ".narinfo"@, store_dir) == StepView::Run(
            CommandLineView {
                program: "nix"@,
                args: seq!["store"@, "path-from-hash-part"@, hash_part],
            },
            ServingView::FindingPath { hash_part, wanted: WantedView::NarInfo },
        ),
{
    law_narinfo_path_is_understood(slashes, hash_part, slashes);
}

/// A request for an archive with a hash looks up the store path with its whole hash
/// part, and keeps the whole hash that is expected.
pub proof fn law_nar_request_with_hash_looks_up_its_path(
    hash_part: Seq<char>,
    expected_hash: Seq<char>,
    store_dir: Seq<char>,
)
    requires
        forall|i: int| 0 <= i < hash_part.len() ==> #[trigger] hash_part[i] != '-',
    ensures
        store::handled("/nar/"@ + hash_part + "-"@ + expected_hash + ".nar"@, store_dir)
            == StepView::Run(
            CommandLineView {
                program: "nix"@,
                args: seq!["store"@, "path-from-hash-part"@, hash_part],
            },
            ServingView::FindingPath {
                hash_part,
                wanted: WantedView::Nar { expected_hash: Some(expected_hash) },
            },
        ),
{
    let path = "/nar/"@ + hash_part + "-"@ + expected_hash + ".nar"@;
    law_nar_path_with_hash_is_understood(path, hash_part, expected_hash);
    let head = "/nar/"@ + hash_part + "-"@ + expected_hash;
    lemma_nar_is_no_narinfo(head);
}

/// What ends in `.nar` does not end in `.narinfo`.
proof fn lemma_nar_is_no_narinfo(head: Seq<char>)
    ensures
        store::narinfo_asked(head + ".nar"@) is None,
{
    reveal_strlit(".nar");
    reveal_strlit(".narinfo");
    let path = head + ".nar"@;
    assert(path[path.len() - 1] == 'r');
    if ".narinfo"@.is_suffix_of(path) {
        assert(path.subrange(path.len() - 8, path.len() as int)[7] == path[path.len() - 1]);
    }
}

/// A request for an archive without a hash looks up the store path with its whole hash
/// part, and expects no hash.
pub proof fn law_nar_request_without_hash_looks_up_its_path(
    hash_part: Seq<char>,
    store_dir: Seq<char>,
)
    requires
        forall|i: int| 0 <= i < hash_part.len() ==> #[trigger] hash_part[i] != '-',
    ensures
        store::handled("/nar/"@ + hash_part + ".nar"@, store_dir) == StepView::Run(
            CommandLineView {
                program: "nix"@,
                args: seq!["store"@, "path-from-hash-part"@, hash_part],
            },
            ServingView::FindingPath {
                hash_part,
                wanted: WantedView::Nar { expected_hash: None },
            },
        ),
{
    let path = "/nar/"@ + hash_part + ".nar"@;
    law_nar_path_without_hash_is_understood(path, hash_part);
    crate::store_laws::law_nar_paths_are_of_one_kind(path);
    lemma_nar_is_no_narinfo("/nar/"@ + hash_part);
}

/// A request for the log of a name that does not end in `.narinfo` streams the log of
/// the whole name in the store directory, of a length that is not known.
pub proof fn law_log_request_streams_the_log_of_its_name(
    store_name: Seq<char>,
    store_dir: Seq<char>,
)
    requires
        store_name.len() > 0,
        !".narinfo"@.is_suffix_of(store_name),
    ensures
        store::handled("/log/"@ + store_name, store_dir) == StepView::Stream(
            StreamPlanView {
                command: CommandLineView {
                    program: "nix"@,
                    args: seq![
                        "--extra-experimental-features"@,
                        "nix-command"@,
                        "log"@,
                        store_dir + "/"@ + store_name,
                    ],
                },
                content_length: None,
            },
        ),
{
    law_log_name_alone_decides(store_name);
    crate::store_laws::law_log_path_streams_its_log(store_name, store_dir);
}

/// The path of a log ends in `.narinfo` exactly where the name does.
pub proof fn law_log_name_alone_decides(store_name: Seq<char>)
    ensures
        ".narinfo"@.is_suffix_of("/log/"@ + store_name) <==> ".narinfo"@.is_suffix_of(store_name),
{
    reveal_strlit(".narinfo");
    reveal_strlit("/log/");
    let path = "/log/"@ + store_name;
    if store_name.len() >= 8 {
        assert(path.subrange(path.len() - 8, path.len() as int) =~= store_name.subrange(
            store_name.len() - 8,
            store_name.len() as int,
        ));
    } else if path.len() >= 8 {
        let tail = path.subrange(path.len() - 8, path.len() as int);
        assert(tail[7 - store_name.len()] == path[4]);
        assert(path[4] == '/');
    }
}

/// Nothing is found under a path of no kind.
pub proof fn law_other_paths_are_not_found(path: Seq<char>, store_dir: Seq<char>)
    requires
        !".narinfo"@.is_suffix_of(path),
        !("/nar/"@.is_prefix_of(path) && ".nar"@.is_suffix_of(path)),
        !("/log/"@.is_prefix_of(path) && path != "/log/"@),
    ensures
        store::handled(path, store_dir) == StepView::Fail(Status::NotFound),
{
    if let Some(name) = store::log_asked(path) {
        law_log_path_is_understood(path, name);
        reveal_strlit("/log/");
        assert(path[5] == name[0]);
    }
    if let Some(body) = store::nar_asked(path) {
        law_nar_path_is_understood(path, body);
    }
}

/// The store directory is the one that is configured, whole, and `/nix/store` where
/// none is.
pub proof fn law_store_directory(dir: Seq<char>)
    ensures
        store::store_dir_of(Some(dir)) == dir,
        store::store_dir_of(None) == "/nix/store"@,
{
}

/// The text that a command's output is read as: its UTF-8, and what the standard
/// library makes of it where it is none.
pub proof fn law_output_is_read_as_utf8(bytes: Seq<u8>, other: Seq<char>)
    ensures
        vstd::utf8::valid_utf8(bytes) ==> text::utf8_or(bytes, other) == vstd::utf8::decode_utf8(
            bytes,
        ),
        !vstd::utf8::valid_utf8(bytes) ==> text::utf8_or(bytes, other) == other,
{
}

/// A lookup that could not start is this server's failure, one that fails finds
/// nothing, and so does one that prints white space alone.
pub proof fn law_failed_lookup_ends_a_request(
    hash_part: Seq<char>,
    wanted: WantedView,
    stdout: Seq<u8>,
    blank: Seq<char>,
)
    requires
        forall|i: int| 0 <= i < blank.len() ==> text::is_white_space(#[trigger] blank[i]),
    ensures
        store::resumed(
            ServingView::FindingPath { hash_part, wanted },
            OutcomeView::NotStarted,
        ) == StepView::Fail(Status::InternalServerError),
        store::resumed(
            ServingView::FindingPath { hash_part, wanted },
            OutcomeView::Finished { success: false, stdout },
        ) == StepView::Fail(Status::NotFound),
        text::utf8_or(stdout, text::lossy_utf8(stdout)) == blank ==> store::resumed(
            ServingView::FindingPath { hash_part, wanted },
            OutcomeView::Finished { success: true, stdout },
        ) == StepView::Fail(Status::NotFound),
{
    let none = Seq::<char>::empty();
    text_laws::law_trimming_leaves_the_middle(blank, none, none);
    assert(blank + none + none =~= blank);
}

/// A lookup that prints a store path between white space has the report on that store
/// path asked for, all of it, and keeps what the request wants.
pub proof fn law_found_path_is_reported_on(
    hash_part: Seq<char>,
    wanted: WantedView,
    stdout: Seq<u8>,
    front: Seq<char>,
    store_path: Seq<char>,
    back: Seq<char>,
)
    requires
        text::utf8_or(stdout, text::lossy_utf8(stdout)) == front + store_path + back,
        forall|i: int| 0 <= i < front.len() ==> text::is_white_space(#[trigger] front[i]),
        forall|i: int| 0 <= i < back.len() ==> text::is_white_space(#[trigger] back[i]),
        store_path.len() > 0,
        !text::is_white_space(store_path[0]),
        !text::is_white_space(store_path[store_path.len() - 1]),
    ensures
        store::resumed(
            ServingView::FindingPath { hash_part, wanted },
            OutcomeView::Finished { success: true, stdout },
        ) == StepView::Run(
            CommandLineView {
                program: "nix"@,
                args: seq!["path-info"@, "--json"@, "--sigs"@, "--size"@, store_path],
            },
            ServingView::FindingInfo { hash_part, wanted, store_path },
        ),
{
    text_laws::law_trimming_leaves_the_middle(front, store_path, back);
}

/// A report that could not start, that fails, that is no JSON, that is no object, or
/// that says nothing readable of the store path is this server's failure.
pub proof fn law_failed_report_ends_a_request(
    hash_part: Seq<char>,
    wanted: WantedView,
    store_path: Seq<char>,
    stdout: Seq<u8>,
)
    ensures
        ({
            let waiting = ServingView::FindingInfo { hash_part, wanted, store_path };
            let failed = StepView::Fail(Status::InternalServerError);
            &&& store::resumed(waiting, OutcomeView::NotStarted) == failed
            &&& store::resumed(waiting, OutcomeView::Finished { success: false, stdout }) == failed
            &&& (match json::document(stdout) {
                Some(Json::Object(entries)) => !entries.contains_key(store_path)
                    || path_info::info_of(entries[store_path]) is None,
                _ => true,
            }) ==> store::resumed(waiting, OutcomeView::Finished { success: true, stdout })
                == failed
        }),
{
}

/// A report that says something readable of the store path ends a request for a narinfo
/// with the narinfo, and one for an archive with the archive or the refusal of it.
pub proof fn law_report_ends_a_request(
    hash_part: Seq<char>,
    store_path: Seq<char>,
    expected_hash: Option<Seq<char>>,
    stdout: Seq<u8>,
    entries: Map<Seq<char>, Json>,
    info: PathInfoView,
)
    requires
        json::document(stdout) == Some(Json::Object(entries)),
        entries.contains_key(store_path),
        path_info::info_of(entries[store_path]) == Some(info),
    ensures
        ({
            let outcome = OutcomeView::Finished { success: true, stdout };
            &&& store::resumed(
                ServingView::FindingInfo { hash_part, wanted: WantedView::NarInfo, store_path },
                outcome,
            ) matches StepView::Answer(reply)
            &&& reply.status == Status::Success
            &&& reply.content_type == "text/x-nix-narinfo"@
            &&& reply.body == store::narinfo_text(store_path, hash_part, info)
            &&& reply.content_length == vstd::utf8::encode_utf8(
                store::narinfo_text(store_path, hash_part, info),
            ).len()
        }),
        store::resumed(
            ServingView::FindingInfo {
                hash_part,
                wanted: WantedView::Nar { expected_hash },
                store_path,
            },
            OutcomeView::Finished { success: true, stdout },
        ) == (match store::nar_planned(store_path, expected_hash, info) {
            Ok(plan) => StepView::Stream(plan),
            Err(status) => StepView::Fail(status),
        }),
{
}

/// The store path that is printed between white space is found, all of it; white space
/// alone is none.
pub proof fn law_printed_store_path_is_found_whole(
    front: Seq<char>,
    store_path: Seq<char>,
    back: Seq<char>,
)
    requires
        forall|i: int| 0 <= i < front.len() ==> text::is_white_space(#[trigger] front[i]),
        forall|i: int| 0 <= i < back.len() ==> text::is_white_space(#[trigger] back[i]),
        store_path.len() > 0 ==> !text::is_white_space(store_path[0]),
        store_path.len() > 0 ==> !text::is_white_space(store_path[store_path.len() - 1]),
    ensures
        store_path.len() > 0 ==> store::store_path_printed(front + store_path + back) == Ok::<
            _,
            Status,
        >(store_path),
        store_path.len() == 0 ==> store::store_path_printed(front + store_path + back) == Err::<
            Seq<char>,
            Status,
        >(Status::NotFound),
{
    text_laws::law_trimming_leaves_the_middle(front, store_path, back);
}

/// What the outcome of a lookup gives: the store path that was printed where the command
/// succeeded, nothing where it failed, and this server's failure where it did not start.
pub proof fn law_lookup_gives_what_was_printed(stdout: Seq<u8>, printed: Seq<char>)
    requires
        vstd::utf8::valid_utf8(stdout) ==> printed == vstd::utf8::decode_utf8(stdout),
        !vstd::utf8::valid_utf8(stdout) ==> printed == text::lossy_utf8(stdout),
    ensures
        store::store_path_found(OutcomeView::Finished { success: true, stdout })
            == store::store_path_printed(printed),
        store::store_path_found(OutcomeView::Finished { success: false, stdout }) == Err::<
            Seq<char>,
            Status,
        >(Status::NotFound),
        store::store_path_found(OutcomeView::NotStarted) == Err::<Seq<char>, Status>(
            Status::InternalServerError,
        ),
{
}

/// What the outcome of a report gives: the entry under the store path where the command
/// succeeded, the output is a JSON object, it has that entry, and the entry is readable;
/// and this server's failure otherwise.
pub proof fn law_report_gives_its_entry(
    outcome: OutcomeView,
    store_path: Seq<char>,
    info: PathInfoView,
)
    ensures
        store::path_info_found(outcome, store_path) == Ok::<_, Status>(info) <==> {
            &&& outcome matches OutcomeView::Finished { success, stdout }
            &&& success
            &&& json::document(stdout) matches Some(Json::Object(entries))
            &&& entries.contains_key(store_path)
            &&& path_info::info_of(entries[store_path]) == Some(info)
        },
        store::path_info_found(outcome, store_path) is Err
            ==> store::path_info_found(outcome, store_path)->Err_0 == Status::InternalServerError,
{
}

/// A report that is at hand gives the entry under the store path, and this server's
/// failure where there is none that is readable.
pub proof fn law_report_at_hand_gives_its_entry(
    report: Json,
    store_path: Seq<char>,
    info: PathInfoView,
)
    ensures
        store::path_info_reported(Some(report), store_path) == Ok::<_, Status>(info) <==> {
            &&& report matches Json::Object(entries)
            &&& entries.contains_key(store_path)
            &&& path_info::info_of(entries[store_path]) == Some(info)
        },
        store::path_info_reported(Some(report), store_path) is Err
            ==> store::path_info_reported(Some(report), store_path)->Err_0
            == Status::InternalServerError,
{
}

/// A report is read from the entry's own members: the hash, the size, the references and
/// the rest that the narinfo is made of are those that Nix wrote under the store path,
/// each of them whole.
pub proof fn law_reported_fields_are_found_whole(
    stdout: Seq<u8>,
    entries: Map<Seq<char>, Json>,
    members: Map<Seq<char>, Json>,
    store_path: Seq<char>,
    nar_hash: Seq<char>,
    nar_size: u64,
    references: Seq<Seq<char>>,
    signatures: Seq<Seq<char>>,
)
    requires
        json::document(stdout) == Some(Json::Object(entries)),
        entries.contains_key(store_path) && entries[store_path] == Json::Object(members),
        members.contains_key("narHash"@) && members["narHash"@] == Json::Text(nar_hash),
        members.contains_key("narSize"@) && members["narSize"@] == Json::Count(nar_size),
        members.contains_key("references"@) && members["references"@] == Json::List(
            references.map_values(|text: Seq<char>| Json::Text(text)),
        ),
        !members.contains_key("deriver"@) || members["deriver"@] is Null || members["deriver"@]
            is Text,
        members.contains_key("signatures"@) && members["signatures"@] == Json::List(
            signatures.map_values(|text: Seq<char>| Json::Text(text)),
        ),
    ensures
        ({
            let found = store::path_info_found(
                OutcomeView::Finished { success: true, stdout },
                store_path,
            );
            &&& found is Ok
            &&& found->Ok_0.nar_hash == nar_hash
            &&& found->Ok_0.nar_size == nar_size
            &&& found->Ok_0.references == references
            &&& found->Ok_0.signatures == Some(signatures)
            &&& found->Ok_0.deriver == (if members.contains_key("deriver"@)
                && members["deriver"@] is Text {
                Some(members["deriver"@]->Text_0)
            } else {
                None
            })
        }),
{
    let info = PathInfoView {
        nar_hash,
        nar_size,
        references,
        deriver: if members.contains_key("deriver"@) && members["deriver"@] is Text {
            Some(members["deriver"@]->Text_0)
        } else {
            None
        },
        signatures: Some(signatures),
    };
    path_info_laws::law_entry_is_read_field_by_field(members, info);
}

/// The log of a name is the log of the whole name in the whole store directory.
pub proof fn law_log_command_names_the_whole_name(store_dir: Seq<char>, store_name: Seq<char>)
    ensures
        store::log_planned(store_dir, store_name) == (StreamPlanView {
            command: CommandLineView {
                program: "nix"@,
                args: seq![
                    "--extra-experimental-features"@,
                    "nix-command"@,
                    "log"@,
                    store_dir + "/"@ + store_name,
                ],
            },
            content_length: None,
        }),
{
}

/// What is delivered for a path info: the narinfo to one who wants it, and the archive,
/// or the refusal of it, to one who wants that.
pub proof fn law_what_is_wanted_is_delivered(
    hash_part: Seq<char>,
    expected_hash: Option<Seq<char>>,
    store_path: Seq<char>,
    info: PathInfoView,
)
    ensures
        ({
            &&& store::delivered(
                hash_part,
                WantedView::NarInfo,
                store_path,
                info,
            ) matches StepView::Answer(reply)
            &&& reply.body == store::narinfo_text(store_path, hash_part, info)
        }),
        match store::nar_planned(store_path, expected_hash, info) {
            Ok(plan) => store::delivered(
                hash_part,
                WantedView::Nar { expected_hash },
                store_path,
                info,
            ) == StepView::Stream(plan),
            Err(status) => store::delivered(
                hash_part,
                WantedView::Nar { expected_hash },
                store_path,
                info,
            ) == StepView::Fail(status),
        },
{
}

/// The short form of a hash is all that follows `sha256:`, and all of a hash that does
/// not begin so.
pub proof fn law_short_hash_is_whole(hash: Seq<char>, other: Seq<char>)
    requires
        !"sha256:"@.is_prefix_of(other),
    ensures
        store::short_hash("sha256:"@ + hash) == hash,
        store::short_hash(other) == other,
{
    reveal_strlit("sha256:");
    let whole = "sha256:"@ + hash;
    assert(whole.subrange(0, 7) =~= "sha256:"@);
    assert(whole.skip(7) =~= hash);
}

/// Where Nix reports a hash, with `sha256:` ahead of it or without, the archive is
/// streamed, all of its store path and with its size, exactly where that hash or none
/// is expected; where another is expected nothing is found.
pub proof fn law_archive_is_streamed_for_its_own_hash(
    store_path: Seq<char>,
    hash: Seq<char>,
    expected_hash: Option<Seq<char>>,
    info: PathInfoView,
)
    requires
        info.nar_hash == "sha256:"@ + hash || info.nar_hash == hash && !"sha256:"@.is_prefix_of(
            hash,
        ),
    ensures
        expected_hash is None || expected_hash->0 == hash ==> store::nar_planned(
            store_path,
            expected_hash,
            info,
        ) == Ok::<_, Status>(
            StreamPlanView {
                command: CommandLineView {
                    program: "nix"@,
                    args: seq![
                        "--extra-experimental-features"@,
                        "nix-command"@,
                        "store"@,
                        "dump-path"@,
                        "--"@,
                        store_path,
                    ],
                },
                content_length: Some(info.nar_size),
            },
        ),
        expected_hash is Some && expected_hash->0 != hash ==> store::nar_planned(
            store_path,
            expected_hash,
            info,
        ) == Err::<StreamPlanView, Status>(Status::NotFound),
{
    if info.nar_hash == "sha256:"@ + hash {
        reveal_strlit("sha256:");
        assert(!"sha256:"@.is_prefix_of(Seq::<char>::empty()));
        law_short_hash_is_whole(hash, Seq::empty());
    } else {
        law_short_hash_is_whole(hash, hash);
    }
}

/// From the request to the archive: where Nix finds a store path for the hash part and
/// reports `sha256:` and a hash of it, the request for an archive with an expected hash
/// is streamed exactly where the two hashes are the same, and not found otherwise.
pub proof fn law_request_for_archive_is_decided_by_its_hash(
    hash_part: Seq<char>,
    expected_hash: Seq<char>,
    hash: Seq<char>,
    store_dir: Seq<char>,
    lookup: OutcomeView,
    report: OutcomeView,
    info: PathInfoView,
)
    requires
        forall|i: int| 0 <= i < hash_part.len() ==> #[trigger] hash_part[i] != '-',
        store::store_path_found(lookup) is Ok,
        store::path_info_found(report, store::store_path_found(lookup)->Ok_0) == Ok::<_, Status>(
            info,
        ),
        info.nar_hash == "sha256:"@ + hash,
    ensures
        ({
            let path = "/nar/"@ + hash_part + "-"@ + expected_hash + ".nar"@;
            let end = crate::store_laws::served(path, store_dir, lookup, report);
            &&& end is Stream <==> expected_hash == hash
            &&& expected_hash != hash ==> end == StepView::Fail(Status::NotFound)
        }),
{
    let store_path = store::store_path_found(lookup)->Ok_0;
    law_nar_request_with_hash_looks_up_its_path(hash_part, expected_hash, store_dir);
    law_archive_is_streamed_for_its_own_hash(store_path, hash, Some(expected_hash), info);
}

/// A stream that can be read opens as plain text with the length that is known for it;
/// one that cannot is this server's failure.
pub proof fn law_stream_opens_with_its_length(content_length: Option<u64>)
    ensures
        store::stream_opened(true, content_length) == Ok::<_, Status>(
            StreamHeadView {
                status: Status::Success,
                content_type: "text/plain"@,
                content_length,
            },
        ),
        store::stream_opened(false, content_length) == Err::<StreamHeadView, Status>(
            Status::InternalServerError,
        ),
{
}

/// The description of the cache names the whole store directory.
pub proof fn law_cache_info_names_the_store(store_dir: Seq<char>)
    ensures
        ({
            let reply = store::cache_info_reply(store_dir);
            let body = "StoreDir: "@ + store_dir + "\nWantMassQuery: 1\nPriority: 30\n"@;
            &&& reply.status == Status::Success
            &&& reply.content_type == "text/plain"@
            &&& reply.body == body
            &&& reply.content_length == vstd::utf8::encode_utf8(body).len()
        }),
{
}

} // verus!
