//! The store's side of the mesh: which request asks for what, and what it gets.

use vstd::prelude::*;
use vstd::string::*;
use crate::json;
use crate::path_info::{PathInfo, PathInfoView};
use crate::reply::{
    CommandLine, CommandLineView, Outcome, OutcomeView, Reply, ReplyView, Status, StreamHead,
    StreamHeadView, StreamPlan, StreamPlanView,
};
use crate::text;

verus! {

// ---------------------------------------------------------------------------
// Paths
// ---------------------------------------------------------------------------

/// The hash part that a path ending in `.narinfo` asks for.
pub open spec fn narinfo_asked(path: Seq<char>) -> Option<Seq<char>> {
    if ".narinfo"@.is_suffix_of(path) {
        let rest = text::drop_leading(path, |c: char| c == '/');
        Some(rest.take(rest.len() - ".narinfo"@.len()))
    } else {
        None
    }
}

/// What stands between `/nar/` and `.nar` in a path that has both ends.
pub open spec fn nar_asked(path: Seq<char>) -> Option<Seq<char>> {
    if "/nar/"@.is_prefix_of(path) && ".nar"@.is_suffix_of(path) {
        Some(path.subrange("/nar/"@.len() as int, path.len() - ".nar"@.len()))
    } else {
        None
    }
}

/// The hash part and the expected hash that an archive's path names: what it asks
/// for, parted at the first `-`.
pub open spec fn nar_with_hash_asked(path: Seq<char>) -> Option<(Seq<char>, Seq<char>)> {
    match nar_asked(path) {
        Some(body) => match body.index_of_first('-') {
            Some(i) => Some((body.take(i), body.skip(i + 1))),
            None => None,
        },
        None => None,
    }
}

/// The hash part that an archive's path names where it names no expected hash.
pub open spec fn nar_without_hash_asked(path: Seq<char>) -> Option<Seq<char>> {
    match nar_asked(path) {
        Some(body) => if body.contains('-') {
            None
        } else {
            Some(body)
        },
        None => None,
    }
}

/// The store name whose build log a path asks for.
pub open spec fn log_asked(path: Seq<char>) -> Option<Seq<char>> {
    if "/log/"@.is_prefix_of(path) && path.len() > "/log/"@.len() {
        Some(path.skip("/log/"@.len() as int))
    } else {
        None
    }
}

/// The contents of a text that may be missing.
pub open spec fn shown(found: Option<String>) -> Option<Seq<char>> {
    match found {
        Some(s) => Some(s@),
        None => None,
    }
}

/// Dropping slashes from the front leaves an ending that begins with another
/// character.
proof fn lemma_ending_survives(s: Seq<char>, ending: Seq<char>)
    requires
        ending.len() > 0,
        ending[0] != '/',
        ending.is_suffix_of(s),
    ensures
        ending.is_suffix_of(text::drop_leading(s, |c: char| c == '/')),
    decreases s.len(),
{
    let slash = |c: char| c == '/';
    if slash(s.first()) {
        let rest = s.drop_first();
        if s.len() == ending.len() {
            assert(s.subrange(0, s.len() as int)[0] == s[0]);
            assert(ending[0] == s[0]);
        }
        assert(s.subrange(s.len() - ending.len(), s.len() as int) =~= rest.subrange(
            rest.len() - ending.len(),
            rest.len() as int,
        ));
        lemma_ending_survives(rest, ending);
    }
}

/// The two ends of an archive's path do not overlap.
pub proof fn lemma_nar_ends_apart(path: Seq<char>)
    requires
        "/nar/"@.is_prefix_of(path),
        ".nar"@.is_suffix_of(path),
    ensures
        "/nar/"@.len() == 5,
        ".nar"@.len() == 4,
        path.len() >= 9,
{
    reveal_strlit("/nar/");
    reveal_strlit(".nar");
    let head = path.subrange(0, 5);
    let tail = path.subrange(path.len() - 4, path.len() as int);
    assert(head[0] == path[0] && head[1] == path[1] && head[4] == path[4]);
    assert(head[2] == path[2] && head[3] == path[3]);
    assert(tail[0] == path[path.len() - 4]);
}

/// The hash part that a path ending in `.narinfo` asks for.
pub fn parse_narinfo(path: &str) -> (hash_part: Option<String>)
    ensures
        shown(hash_part) == narinfo_asked(path@),
{
    if !text::ends_with(path, ".narinfo") {
        return None;
    }
    proof {
        reveal_strlit(".narinfo");
        lemma_ending_survives(path@, ".narinfo"@);
    }
    let rest = text::trim_slashes(path);
    let end: usize = rest.as_str().unicode_len();
    Some(text::cut(rest.as_str(), 0, end - 8))
}

/// What stands between `/nar/` and `.nar` in a path that has both ends.
fn nar_body(path: &str) -> (body: Option<String>)
    ensures
        shown(body) == nar_asked(path@),
{
    if !text::starts_with(path, "/nar/") || !text::ends_with(path, ".nar") {
        return None;
    }
    proof {
        lemma_nar_ends_apart(path@);
    }
    let end: usize = path.unicode_len();
    Some(text::cut(path, 5, end - 4))
}

/// The hash part and the expected hash that an archive's path names.
pub fn parse_nar_with_hash(path: &str) -> (parts: Option<(String, String)>)
    ensures
        match parts {
            Some((hash_part, expected_hash)) => nar_with_hash_asked(path@) == Some(
                (hash_part@, expected_hash@),
            ),
            None => nar_with_hash_asked(path@) is None,
        },
{
    let body = match nar_body(path) {
        Some(body) => body,
        None => {
            return None;
        },
    };
    match text::find(body.as_str(), '-') {
        Some(i) => {
            let end: usize = body.as_str().unicode_len();
            Some((text::cut(body.as_str(), 0, i), text::cut(body.as_str(), i + 1, end)))
        },
        None => None,
    }
}

/// The hash part that an archive's path names where it names no expected hash.
pub fn parse_nar_without_hash(path: &str) -> (hash_part: Option<String>)
    ensures
        shown(hash_part) == nar_without_hash_asked(path@),
{
    match nar_body(path) {
        Some(body) => if text::has_char(body.as_str(), '-') {
            None
        } else {
            Some(body)
        },
        None => None,
    }
}

/// The store name whose build log a path asks for.
pub fn parse_log(path: &str) -> (store_name: Option<String>)
    ensures
        shown(store_name) == log_asked(path@),
{
    if !text::starts_with(path, "/log/") {
        return None;
    }
    proof {
        reveal_strlit("/log/");
    }
    let end: usize = path.unicode_len();
    if end == 5 {
        return None;
    }
    Some(text::cut(path, 5, end))
}

/// What follows the last `/` of a path.
pub fn strip_path(path: &str) -> (name: String)
    ensures
        name@ == text::last_segment(path@),
{
    proof {
        path@.index_of_last_ensures('/');
    }
    match text::find_last(path, '/') {
        Some(i) => {
            let end: usize = path.unicode_len();
            text::cut(path, i + 1, end)
        },
        None => path.to_owned(),
    }
}

// ---------------------------------------------------------------------------
// Asking Nix
// ---------------------------------------------------------------------------

/// The store directory: what the environment names, or else Nix's own.
pub open spec fn store_dir_of(configured: Option<Seq<char>>) -> Seq<char> {
    match configured {
        Some(dir) => dir,
        None => "/nix/store"@,
    }
}

/// The store directory: what the environment names, or else Nix's own.
pub fn store_dir(configured: Option<String>) -> (dir: String)
    ensures
        dir@ == store_dir_of(shown(configured)),
{
    match configured {
        Some(dir) => dir,
        None => "/nix/store".to_owned(),
    }
}

/// The command that prints the store path with this hash part.
pub open spec fn store_path_asked(hash_part: Seq<char>) -> CommandLineView {
    crate::reply::nix_with(seq!["store"@, "path-from-hash-part"@, hash_part])
}

/// The command that reports on a store path.
pub open spec fn path_info_asked(store_path: Seq<char>) -> CommandLineView {
    crate::reply::nix_with(seq!["path-info"@, "--json"@, "--sigs"@, "--size"@, store_path])
}

/// The store path that a command has printed as `output`: nothing is found where it
/// is blank.
pub open spec fn store_path_printed(output: Seq<char>) -> Result<Seq<char>, Status> {
    let store_path = text::trimmed(output);
    if store_path.len() == 0 {
        Err(Status::NotFound)
    } else {
        Ok(store_path)
    }
}

/// The store path that the command's outcome gives.
pub open spec fn store_path_found(outcome: OutcomeView) -> Result<Seq<char>, Status> {
    match outcome {
        OutcomeView::NotStarted => Err(Status::InternalServerError),
        OutcomeView::Finished { success, stdout } => if success {
            store_path_printed(text::utf8_or(stdout, text::lossy_utf8(stdout)))
        } else {
            Err(Status::NotFound)
        },
    }
}

/// The path info that a report, where there is one, gives for a store path.
pub open spec fn path_info_reported(
    report: Option<json::Json>,
    store_path: Seq<char>,
) -> Result<PathInfoView, Status> {
    match report {
        Some(report) => match crate::path_info::info_in(report, store_path) {
            Some(info) => Ok(info),
            None => Err(Status::InternalServerError),
        },
        None => Err(Status::InternalServerError),
    }
}

/// The path info that the command's outcome gives.
pub open spec fn path_info_found(outcome: OutcomeView, store_path: Seq<char>) -> Result<
    PathInfoView,
    Status,
> {
    match outcome {
        OutcomeView::Finished { success: true, stdout } => path_info_reported(
            json::document(stdout),
            store_path,
        ),
        _ => Err(Status::InternalServerError),
    }
}

/// The contents of a text, or the status that stands in its place.
pub open spec fn shown_result(found: Result<String, Status>) -> Result<Seq<char>, Status> {
    match found {
        Ok(s) => Ok(s@),
        Err(status) => Err(status),
    }
}

/// The contents of a path info, or the status that stands in its place.
pub open spec fn shown_info(found: Result<PathInfo, Status>) -> Result<PathInfoView, Status> {
    match found {
        Ok(info) => Ok(info@),
        Err(status) => Err(status),
    }
}

/// The command that prints the store path with this hash part.
pub fn store_path_command(hash_part: &str) -> (command: CommandLine)
    ensures
        command@ == store_path_asked(hash_part@),
{
    let args = ["store", "path-from-hash-part", hash_part];
    let command = CommandLine::nix(&args);
    assert(command@.args =~= seq!["store"@, "path-from-hash-part"@, hash_part@]);
    command
}

/// The command that reports on a store path.
pub fn path_info_command(store_path: &str) -> (command: CommandLine)
    ensures
        command@ == path_info_asked(store_path@),
{
    let args = ["path-info", "--json", "--sigs", "--size", store_path];
    let command = CommandLine::nix(&args);
    assert(command@.args =~= seq!["path-info"@, "--json"@, "--sigs"@, "--size"@, store_path@]);
    command
}

/// The store path that a command has printed as `output`.
pub fn printed_store_path(output: &str) -> (found: Result<String, Status>)
    ensures
        shown_result(found) == store_path_printed(output@),
{
    let store_path = text::trim(output);
    if store_path.as_str().is_empty() {
        return Err(Status::NotFound);
    }
    Ok(store_path)
}

/// The store path that the command's outcome gives.
pub fn query_store_path(outcome: &Outcome) -> (found: Result<String, Status>)
    ensures
        shown_result(found) == store_path_found(outcome@),
{
    match outcome {
        Outcome::NotStarted => Err(Status::InternalServerError),
        Outcome::Finished { success, stdout } => {
            if !*success {
                return Err(Status::NotFound);
            }
            printed_store_path(text::lossy_text(stdout.as_slice()).as_str())
        },
    }
}

/// The path info that a report gives for a store path.
pub fn reported_path_info(report: &serde_json::Value, store_path: &str) -> (found: Result<
    PathInfo,
    Status,
>)
    ensures
        shown_info(found) == path_info_reported(Some(json::contents(*report)), store_path@),
{
    match PathInfo::in_report(report, store_path) {
        Some(info) => Ok(info),
        None => Err(Status::InternalServerError),
    }
}

/// The path info that the command's outcome gives.
pub fn query_path_info(outcome: &Outcome, store_path: &str) -> (found: Result<PathInfo, Status>)
    ensures
        shown_info(found) == path_info_found(outcome@, store_path@),
{
    match outcome {
        Outcome::NotStarted => Err(Status::InternalServerError),
        Outcome::Finished { success, stdout } => {
            if !*success {
                return Err(Status::InternalServerError);
            }
            match json::parse(stdout.as_slice()) {
                Ok(report) => reported_path_info(&report, store_path),
                Err(_) => Err(Status::InternalServerError),
            }
        },
    }
}

// ---------------------------------------------------------------------------
// Replies
// ---------------------------------------------------------------------------

/// The text that describes this cache to a client.
pub open spec fn cache_info_text(store_dir: Seq<char>) -> Seq<char> {
    "StoreDir: "@ + store_dir + "\nWantMassQuery: 1\nPriority: 30\n"@
}

/// A hash without the name of its algorithm, where that is `sha256`.
pub open spec fn short_hash(nar_hash: Seq<char>) -> Seq<char> {
    if "sha256:"@.is_prefix_of(nar_hash) {
        nar_hash.skip("sha256:"@.len() as int)
    } else {
        nar_hash
    }
}

/// The address, relative to the cache, at which an archive is advertised.
pub open spec fn nar_url(hash_part: Seq<char>, nar_hash: Seq<char>) -> Seq<char> {
    "nar/"@ + hash_part + "-"@ + short_hash(nar_hash) + ".nar"@
}

/// One line of a narinfo.
pub open spec fn line(label: Seq<char>, value: Seq<char>) -> Seq<char> {
    label + value + "\n"@
}

/// The line of references, which is left out where there are none.
pub open spec fn references_line(references: Seq<Seq<char>>) -> Seq<char> {
    if references.len() == 0 {
        Seq::empty()
    } else {
        line(
            "References: "@,
            text::joined(references.map_values(|r: Seq<char>| text::last_segment(r)), " "@),
        )
    }
}

/// The line of the deriver, which is left out where there is none.
pub open spec fn deriver_line(deriver: Option<Seq<char>>) -> Seq<char> {
    match deriver {
        Some(deriver) => line("Deriver: "@, text::last_segment(deriver)),
        None => Seq::empty(),
    }
}

/// One line for each signature, in order.
pub open spec fn signature_lines(signatures: Seq<Seq<char>>) -> Seq<char>
    decreases signatures.len(),
{
    if signatures.len() == 0 {
        Seq::empty()
    } else {
        signature_lines(signatures.drop_last()) + line("Sig: "@, signatures.last())
    }
}

/// The narinfo of a store path.
pub open spec fn narinfo_text(
    store_path: Seq<char>,
    hash_part: Seq<char>,
    info: PathInfoView,
) -> Seq<char> {
    line("StorePath: "@, store_path) + line("URL: "@, nar_url(hash_part, info.nar_hash))
        + "Compression: none\n"@ + line("NarHash: "@, info.nar_hash) + line(
        "NarSize: "@,
        text::decimal(info.nar_size as nat),
    ) + references_line(info.references) + deriver_line(info.deriver) + match info.signatures {
        Some(signatures) => signature_lines(signatures),
        None => Seq::empty(),
    }
}

/// The reply that describes this cache to a client.
pub open spec fn cache_info_reply(store_dir: Seq<char>) -> ReplyView {
    crate::reply::reply_with("text/plain"@, cache_info_text(store_dir))
}

/// The reply that describes a store path.
pub open spec fn narinfo_reply(
    store_path: Seq<char>,
    hash_part: Seq<char>,
    info: PathInfoView,
) -> ReplyView {
    crate::reply::reply_with(
        "text/x-nix-narinfo"@,
        narinfo_text(store_path, hash_part, info),
    )
}

/// The archive of a store path: it is refused where another hash is expected.
pub open spec fn nar_planned(
    store_path: Seq<char>,
    expected_hash: Option<Seq<char>>,
    info: PathInfoView,
) -> Result<StreamPlanView, Status> {
    if expected_hash is Some && expected_hash->0 != short_hash(info.nar_hash) {
        Err(Status::NotFound)
    } else {
        Ok(
            StreamPlanView {
                command: crate::reply::nix_with(
                    seq![
                        "--extra-experimental-features"@,
                        "nix-command"@,
                        "store"@,
                        "dump-path"@,
                        "--"@,
                        store_path,
                    ],
                ),
                content_length: Some(info.nar_size),
            },
        )
    }
}

/// The build log of a store name.
pub open spec fn log_planned(store_dir: Seq<char>, store_name: Seq<char>) -> StreamPlanView {
    StreamPlanView {
        command: crate::reply::nix_with(
            seq![
                "--extra-experimental-features"@,
                "nix-command"@,
                "log"@,
                store_dir + "/"@ + store_name,
            ],
        ),
        content_length: None,
    }
}

/// What goes ahead of a command's output, once the command has started and its
/// output can be read.
pub open spec fn stream_opened(readable: bool, content_length: Option<u64>) -> Result<
    StreamHeadView,
    Status,
> {
    if readable {
        Ok(
            StreamHeadView {
                status: Status::Success,
                content_type: "text/plain"@,
                content_length,
            },
        )
    } else {
        Err(Status::InternalServerError)
    }
}

/// The contents of a plan, or the status that stands in its place.
pub open spec fn shown_plan(planned: Result<StreamPlan, Status>) -> Result<StreamPlanView, Status> {
    match planned {
        Ok(plan) => Ok(plan@),
        Err(status) => Err(status),
    }
}

/// The contents of a head, or the status that stands in its place.
pub open spec fn shown_head(opened: Result<StreamHead, Status>) -> Result<StreamHeadView, Status> {
    match opened {
        Ok(head) => Ok(head@),
        Err(status) => Err(status),
    }
}

/// The reply that describes this cache to a client.
pub fn nix_cache_info(store_dir: &str) -> (reply: Reply)
    ensures
        reply@ == cache_info_reply(store_dir@),
{
    let mut body = "StoreDir: ".to_owned();
    body.append(store_dir);
    body.append("\nWantMassQuery: 1\nPriority: 30\n");
    Reply::with_body("text/plain", body)
}

/// A hash without the name of its algorithm, where that is `sha256`.
pub fn strip_algorithm(nar_hash: &str) -> (short: String)
    ensures
        short@ == short_hash(nar_hash@),
{
    if text::starts_with(nar_hash, "sha256:") {
        proof {
            reveal_strlit("sha256:");
        }
        let end: usize = nar_hash.unicode_len();
        let short = text::cut(nar_hash, 7, end);
        assert(short@ =~= nar_hash@.skip(7));
        short
    } else {
        nar_hash.to_owned()
    }
}

/// Appends one line to a narinfo.
fn push_line(body: &mut String, label: &str, value: &str)
    ensures
        final(body)@ == old(body)@ + line(label@, value@),
{
    body.append(label);
    body.append(value);
    body.append("\n");
    assert(body@ =~= old(body)@ + line(label@, value@));
}

/// Appends the line of references.
fn push_references(body: &mut String, references: &Vec<String>)
    ensures
        final(body)@ == old(body)@ + references_line(text::texts(references@)),
{
    let ghost stripped = text::texts(references@).map_values(
        |r: Seq<char>| text::last_segment(r),
    );
    if references.len() == 0 {
        assert(body@ =~= old(body)@ + Seq::<char>::empty());
        return;
    }
    let mut names: Vec<String> = Vec::new();
    let mut i: usize = 0;
    while i < references.len()
        invariant
            i <= references@.len(),
            stripped == text::texts(references@).map_values(
                |r: Seq<char>| text::last_segment(r),
            ),
            text::texts(names@) == stripped.take(i as int),
        decreases references@.len() - i,
    {
        let ghost before = names@;
        names.push(strip_path(references[i].as_str()));
        assert(text::texts(names@) =~= text::texts(before).push(stripped[i as int]));
        i += 1;
    }
    assert(stripped.take(i as int) =~= stripped);
    push_line(body, "References: ", text::join(&names, " ").as_str());
}

/// Appends one line for each signature.
fn push_signatures(body: &mut String, signatures: &Vec<String>)
    ensures
        final(body)@ == old(body)@ + signature_lines(text::texts(signatures@)),
{
    let mut i: usize = 0;
    assert(body@ =~= old(body)@ + signature_lines(text::texts(signatures@).take(0)));
    while i < signatures.len()
        invariant
            i <= signatures@.len(),
            body@ == old(body)@ + signature_lines(text::texts(signatures@).take(i as int)),
        decreases signatures@.len() - i,
    {
        let ghost all = text::texts(signatures@);
        push_line(body, "Sig: ", signatures[i].as_str());
        assert(all.take(i + 1).drop_last() =~= all.take(i as int));
        assert(all.take(i + 1).last() == signatures@[i as int]@);
        assert(body@ =~= old(body)@ + signature_lines(all.take(i + 1)));
        i += 1;
    }
    assert(text::texts(signatures@).take(i as int) =~= text::texts(signatures@));
}

/// The reply that describes a store path.
pub fn narinfo(store_path: &str, hash_part: &str, info: &PathInfo) -> (reply: Reply)
    ensures
        reply@ == narinfo_reply(store_path@, hash_part@, info@),
{
    let mut url = "nar/".to_owned();
    url.append(hash_part);
    url.append("-");
    url.append(strip_algorithm(info.nar_hash.as_str()).as_str());
    url.append(".nar");
    let mut body = String::new();
    push_line(&mut body, "StorePath: ", store_path);
    push_line(&mut body, "URL: ", url.as_str());
    body.append("Compression: none\n");
    push_line(&mut body, "NarHash: ", info.nar_hash.as_str());
    push_line(&mut body, "NarSize: ", text::decimal_text(info.nar_size).as_str());
    push_references(&mut body, &info.references);
    match &info.deriver {
        Some(deriver) => {
            push_line(&mut body, "Deriver: ", strip_path(deriver.as_str()).as_str());
        },
        None => {},
    }
    match &info.signatures {
        Some(signatures) => {
            push_signatures(&mut body, signatures);
        },
        None => {},
    }
    assert(body@ =~= narinfo_text(store_path@, hash_part@, info@));
    Reply::with_body("text/x-nix-narinfo", body)
}

/// The archive of a store path: it is refused where another hash is expected.
pub fn nar_stream(store_path: &str, expected_hash: &Option<String>, info: &PathInfo) -> (planned:
    Result<StreamPlan, Status>)
    ensures
        shown_plan(planned) == nar_planned(store_path@, shown(*expected_hash), info@),
{
    match expected_hash {
        Some(expected) => {
            let actual = strip_algorithm(info.nar_hash.as_str());
            if actual != *expected {
                return Err(Status::NotFound);
            }
        },
        None => {},
    }
    let args = [
        "--extra-experimental-features",
        "nix-command",
        "store",
        "dump-path",
        "--",
        store_path,
    ];
    let command = CommandLine::nix(&args);
    assert(command@.args =~= seq![
        "--extra-experimental-features"@,
        "nix-command"@,
        "store"@,
        "dump-path"@,
        "--"@,
        store_path@,
    ]);
    Ok(StreamPlan { command, content_length: Some(info.nar_size) })
}

/// The build log of a store name.
pub fn log_stream(store_dir: &str, store_name: &str) -> (plan: StreamPlan)
    ensures
        plan@ == log_planned(store_dir@, store_name@),
{
    let mut store_path = store_dir.to_owned();
    store_path.append("/");
    store_path.append(store_name);
    let args = ["--extra-experimental-features", "nix-command", "log", store_path.as_str()];
    let command = CommandLine::nix(&args);
    assert(command@.args =~= seq![
        "--extra-experimental-features"@,
        "nix-command"@,
        "log"@,
        store_dir@ + "/"@ + store_name@,
    ]);
    StreamPlan { command, content_length: None }
}

/// What goes ahead of a command's output, once the command has started and its
/// output can be read.
pub fn stream_command(readable: bool, content_length: Option<u64>) -> (opened: Result<
    StreamHead,
    Status,
>)
    ensures
        shown_head(opened) == stream_opened(readable, content_length),
{
    if !readable {
        return Err(Status::InternalServerError);
    }
    Ok(
        StreamHead {
            status: Status::Success,
            content_type: "text/plain".to_owned(),
            content_length,
        },
    )
}

// ---------------------------------------------------------------------------
// Serving a request
// ---------------------------------------------------------------------------

/// What a request wants of the store path with its hash part.
#[derive(Debug)]
pub enum Wanted {
    NarInfo,
    Nar { expected_hash: Option<String> },
}

/// The contents of a [`Wanted`].
#[verifier::ext_equal]
pub enum WantedView {
    NarInfo,
    Nar { expected_hash: Option<Seq<char>> },
}

impl View for Wanted {
    type V = WantedView;

    open spec fn view(&self) -> WantedView {
        match self {
            Wanted::NarInfo => WantedView::NarInfo,
            Wanted::Nar { expected_hash } => WantedView::Nar {
                expected_hash: shown(*expected_hash),
            },
        }
    }
}

/// A request that waits for a command: the one that looks up the store path, or the
/// one that reports on it.
#[derive(Debug)]
pub enum Serving {
    FindingPath { hash_part: String, wanted: Wanted },
    FindingInfo { hash_part: String, wanted: Wanted, store_path: String },
}

/// The contents of a [`Serving`].
#[verifier::ext_equal]
pub enum ServingView {
    FindingPath { hash_part: Seq<char>, wanted: WantedView },
    FindingInfo { hash_part: Seq<char>, wanted: WantedView, store_path: Seq<char> },
}

impl View for Serving {
    type V = ServingView;

    open spec fn view(&self) -> ServingView {
        match self {
            Serving::FindingPath { hash_part, wanted } => ServingView::FindingPath {
                hash_part: hash_part@,
                wanted: wanted@,
            },
            Serving::FindingInfo { hash_part, wanted, store_path } => ServingView::FindingInfo {
                hash_part: hash_part@,
                wanted: wanted@,
                store_path: store_path@,
            },
        }
    }
}

/// What is to be done next for a request: run a command and come back with its
/// outcome, stream the output of a command, send a reply, or send a bare status.
#[derive(Debug)]
pub enum Step {
    Run(CommandLine, Serving),
    Stream(StreamPlan),
    Answer(Reply),
    Fail(Status),
}

/// The contents of a [`Step`].
#[verifier::ext_equal]
pub enum StepView {
    Run(CommandLineView, ServingView),
    Stream(StreamPlanView),
    Answer(ReplyView),
    Fail(Status),
}

impl View for Step {
    type V = StepView;

    open spec fn view(&self) -> StepView {
        match self {
            Step::Run(command, serving) => StepView::Run(command@, serving@),
            Step::Stream(plan) => StepView::Stream(plan@),
            Step::Answer(reply) => StepView::Answer(reply@),
            Step::Fail(status) => StepView::Fail(*status),
        }
    }
}

/// The first step for a request that names a hash part.
pub open spec fn lookup_started(hash_part: Seq<char>, wanted: WantedView) -> StepView {
    StepView::Run(
        store_path_asked(hash_part),
        ServingView::FindingPath { hash_part, wanted },
    )
}

/// The first step for a request. A path of more than one kind counts as the first
/// of them: narinfo, archive, log.
pub open spec fn handled(path: Seq<char>, store_dir: Seq<char>) -> StepView {
    if let Some(hash_part) = narinfo_asked(path) {
        lookup_started(hash_part, WantedView::NarInfo)
    } else if let Some((hash_part, expected_hash)) = nar_with_hash_asked(path) {
        lookup_started(hash_part, WantedView::Nar { expected_hash: Some(expected_hash) })
    } else if let Some(hash_part) = nar_without_hash_asked(path) {
        lookup_started(hash_part, WantedView::Nar { expected_hash: None })
    } else if let Some(store_name) = log_asked(path) {
        StepView::Stream(log_planned(store_dir, store_name))
    } else {
        StepView::Fail(Status::NotFound)
    }
}

/// The last step for a request, once the path info is known.
pub open spec fn delivered(
    hash_part: Seq<char>,
    wanted: WantedView,
    store_path: Seq<char>,
    info: PathInfoView,
) -> StepView {
    match wanted {
        WantedView::NarInfo => StepView::Answer(narinfo_reply(store_path, hash_part, info)),
        WantedView::Nar { expected_hash } => match nar_planned(store_path, expected_hash, info) {
            Ok(plan) => StepView::Stream(plan),
            Err(status) => StepView::Fail(status),
        },
    }
}

/// The step that follows the outcome of the command that a request waited for.
pub open spec fn resumed(serving: ServingView, outcome: OutcomeView) -> StepView {
    match serving {
        ServingView::FindingPath { hash_part, wanted } => match store_path_found(outcome) {
            Ok(store_path) => StepView::Run(
                path_info_asked(store_path),
                ServingView::FindingInfo { hash_part, wanted, store_path },
            ),
            Err(status) => StepView::Fail(status),
        },
        ServingView::FindingInfo { hash_part, wanted, store_path } => match path_info_found(
            outcome,
            store_path,
        ) {
            Ok(info) => delivered(hash_part, wanted, store_path, info),
            Err(status) => StepView::Fail(status),
        },
    }
}

/// The first step for a request that names a hash part.
fn start_lookup(hash_part: String, wanted: Wanted) -> (step: Step)
    ensures
        step@ == lookup_started(hash_part@, wanted@),
{
    Step::Run(
        store_path_command(hash_part.as_str()),
        Serving::FindingPath { hash_part, wanted },
    )
}

/// The first step for a request.
pub fn handler(path: &str, store_dir: &str) -> (step: Step)
    ensures
        step@ == handled(path@, store_dir@),
{
    if let Some(hash_part) = parse_narinfo(path) {
        return start_lookup(hash_part, Wanted::NarInfo);
    }
    if let Some((hash_part, expected_hash)) = parse_nar_with_hash(path) {
        return start_lookup(hash_part, Wanted::Nar { expected_hash: Some(expected_hash) });
    }
    if let Some(hash_part) = parse_nar_without_hash(path) {
        return start_lookup(hash_part, Wanted::Nar { expected_hash: None });
    }
    if let Some(store_name) = parse_log(path) {
        return Step::Stream(log_stream(store_dir, store_name.as_str()));
    }
    Step::Fail(Status::NotFound)
}

/// The last step for a request, once the path info is known.
pub fn deliver(hash_part: &str, wanted: &Wanted, store_path: &str, info: &PathInfo) -> (step: Step)
    ensures
        step@ == delivered(hash_part@, wanted@, store_path@, info@),
{
    match wanted {
        Wanted::NarInfo => Step::Answer(narinfo(store_path, hash_part, info)),
        Wanted::Nar { expected_hash } => match nar_stream(store_path, expected_hash, info) {
            Ok(plan) => Step::Stream(plan),
            Err(status) => Step::Fail(status),
        },
    }
}

impl Serving {
    /// The step that follows the outcome of the command that the request waited for.
    pub fn resume(self, outcome: &Outcome) -> (step: Step)
        ensures
            step@ == resumed(self@, outcome@),
    {
        match self {
            Serving::FindingPath { hash_part, wanted } => match query_store_path(outcome) {
                Ok(store_path) => Step::Run(
                    path_info_command(store_path.as_str()),
                    Serving::FindingInfo { hash_part, wanted, store_path },
                ),
                Err(status) => Step::Fail(status),
            },
            Serving::FindingInfo { hash_part, wanted, store_path } => match query_path_info(
                outcome,
                store_path.as_str(),
            ) {
                Ok(info) => deliver(hash_part.as_str(), &wanted, store_path.as_str(), &info),
                Err(status) => Step::Fail(status),
            },
        }
    }
}

} // verus!
