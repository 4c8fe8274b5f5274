use nix_store_mesh::path_info::PathInfo;
use nix_store_mesh::reply::{CommandLine, Outcome, Status};
use nix_store_mesh::store::{
    deliver, handler, log_stream, nar_stream, narinfo, nix_cache_info, parse_log,
    parse_nar_with_hash, parse_nar_without_hash, parse_narinfo, path_info_command,
    printed_store_path, query_path_info, query_store_path, reported_path_info, store_dir,
    store_path_command, stream_command, strip_algorithm, strip_path, Serving, Step, Wanted,
};

fn some(s: &str) -> Option<String> {
    Some(s.to_string())
}

fn finished(success: bool, stdout: &[u8]) -> Outcome {
    Outcome::Finished { success, stdout: stdout.to_vec() }
}

fn argv(command: &CommandLine) -> Vec<&str> {
    let mut all = vec![command.program.as_str()];
    for arg in &command.args {
        all.push(arg.as_str());
    }
    all
}

fn info() -> PathInfo {
    PathInfo {
        nar_hash: "sha256:1b2c".to_string(),
        nar_size: 226560,
        references: vec!["/nix/store/aaa-glibc".to_string(), "/nix/store/bbb-hello".to_string()],
        deriver: some("/nix/store/ccc-hello.drv"),
        signatures: Some(vec!["cache.nixos.org-1:sig".to_string(), "mine:other".to_string()]),
    }
}

const REPORT: &[u8] = br#"{
    "/nix/store/bbb-hello": {
        "narHash": "sha256:1b2c",
        "narSize": 226560,
        "references": ["/nix/store/aaa-glibc", "/nix/store/bbb-hello"],
        "deriver": "/nix/store/ccc-hello.drv",
        "signatures": ["cache.nixos.org-1:sig", "mine:other"],
        "registrationTime": 1700000000,
        "ultimate": false
    }
}"#;

#[test]
fn narinfo_paths() {
    assert_eq!(parse_narinfo("/abc.narinfo"), some("abc"));
    assert_eq!(parse_narinfo("///abc.narinfo"), some("abc"));
    assert_eq!(parse_narinfo("abc.narinfo"), some("abc"));
    assert_eq!(parse_narinfo("/.narinfo"), some(""));
    assert_eq!(parse_narinfo(".narinfo"), some(""));
    assert_eq!(parse_narinfo("/log/x.narinfo"), some("log/x"));
    assert_eq!(parse_narinfo("/a.narinfo.narinfo"), some("a.narinfo"));
    assert_eq!(parse_narinfo("/\u{e9}.narinfo"), some("\u{e9}"));
    assert_eq!(parse_narinfo("/abc.narinf"), None);
    assert_eq!(parse_narinfo("/narinfo"), None);
    assert_eq!(parse_narinfo(""), None);
}

#[test]
fn nar_paths_with_hash() {
    let pair = |a: &str, b: &str| Some((a.to_string(), b.to_string()));
    assert_eq!(parse_nar_with_hash("/nar/abc-def.nar"), pair("abc", "def"));
    assert_eq!(parse_nar_with_hash("/nar/abc-d-e.nar"), pair("abc", "d-e"));
    assert_eq!(parse_nar_with_hash("/nar/-.nar"), pair("", ""));
    assert_eq!(parse_nar_with_hash("/nar/\u{e9}-\u{4e2d}.nar"), pair("\u{e9}", "\u{4e2d}"));
    assert_eq!(parse_nar_with_hash("/nar/abc.nar"), None);
    assert_eq!(parse_nar_with_hash("/nar/.nar"), None);
    assert_eq!(parse_nar_with_hash("/nar/abc-def"), None);
    assert_eq!(parse_nar_with_hash("nar/abc-def.nar"), None);
    assert_eq!(parse_nar_with_hash("/nar/"), None);
    assert_eq!(parse_nar_with_hash("/nar.nar"), None);
}

#[test]
fn nar_paths_without_hash() {
    assert_eq!(parse_nar_without_hash("/nar/abc.nar"), some("abc"));
    assert_eq!(parse_nar_without_hash("/nar/.nar"), some(""));
    assert_eq!(parse_nar_without_hash("/nar/a/b.nar"), some("a/b"));
    assert_eq!(parse_nar_without_hash("/nar/abc-def.nar"), None);
    assert_eq!(parse_nar_without_hash("/nar/abc"), None);
    assert_eq!(parse_nar_without_hash("/narabc.nar"), None);
}

#[test]
fn nar_paths_are_of_one_kind() {
    for path in ["/nar/a.nar", "/nar/a-b.nar", "/nar/-.nar", "/nar/.nar"] {
        let with = parse_nar_with_hash(path).is_some();
        let without = parse_nar_without_hash(path).is_some();
        assert!(with != without);
    }
}

#[test]
fn log_paths() {
    assert_eq!(parse_log("/log/abc-hello.drv"), some("abc-hello.drv"));
    assert_eq!(parse_log("/log//x"), some("/x"));
    assert_eq!(parse_log("/log/"), None);
    assert_eq!(parse_log("/log"), None);
    assert_eq!(parse_log("/logs/x"), None);
}

#[test]
fn names_of_paths() {
    assert_eq!(strip_path("/nix/store/abc-hello"), "abc-hello");
    assert_eq!(strip_path("abc-hello"), "abc-hello");
    assert_eq!(strip_path("/nix/store/"), "");
    assert_eq!(strip_path(""), "");
    assert_eq!(strip_path(&strip_path("/a/b\u{e9}")), "b\u{e9}");
}

#[test]
fn hashes_without_algorithm() {
    assert_eq!(strip_algorithm("sha256:1b2c"), "1b2c");
    assert_eq!(strip_algorithm("sha256-1b2c="), "sha256-1b2c=");
    assert_eq!(strip_algorithm("sha256:"), "");
    assert_eq!(strip_algorithm("sha256:sha256:x"), "sha256:x");
}

#[test]
fn store_directories() {
    assert_eq!(store_dir(None), "/nix/store");
    assert_eq!(store_dir(some("/gnu/store")), "/gnu/store");
}

#[test]
fn commands_for_nix() {
    assert_eq!(argv(&store_path_command("abc")), vec!["nix", "store", "path-from-hash-part", "abc"]);
    assert_eq!(
        argv(&path_info_command("/nix/store/abc-x")),
        vec!["nix", "path-info", "--json", "--sigs", "--size", "/nix/store/abc-x"]
    );
}

#[test]
fn store_path_lookups() {
    assert_eq!(
        query_store_path(&finished(true, b"  /nix/store/abc-x\n")),
        Ok("/nix/store/abc-x".to_string())
    );
    assert_eq!(query_store_path(&finished(true, b" \n\t")), Err(Status::NotFound));
    assert_eq!(query_store_path(&finished(true, b"")), Err(Status::NotFound));
    assert_eq!(query_store_path(&finished(false, b"/nix/store/abc-x\n")), Err(Status::NotFound));
    assert_eq!(query_store_path(&Outcome::NotStarted), Err(Status::InternalServerError));
    // What is not UTF-8 is replaced.
    assert_eq!(query_store_path(&finished(true, b"/a\xff\n")), Ok("/a\u{fffd}".to_string()));
    assert_eq!(query_store_path(&finished(true, "/\u{e9}\n".as_bytes())), Ok("/\u{e9}".to_string()));
}

#[test]
fn printed_store_paths() {
    assert_eq!(printed_store_path("\u{3000}/x y\u{a0}\r\n"), Ok("/x y".to_string()));
    assert_eq!(printed_store_path("\u{2003}"), Err(Status::NotFound));
    assert_eq!(printed_store_path("\u{200b}"), Ok("\u{200b}".to_string()));
}

#[test]
fn path_info_of_a_report() {
    let found = query_path_info(&finished(true, REPORT), "/nix/store/bbb-hello").unwrap();
    assert_eq!(found.nar_hash, "sha256:1b2c");
    assert_eq!(found.nar_size, 226560);
    assert_eq!(found.references, vec!["/nix/store/aaa-glibc", "/nix/store/bbb-hello"]);
    assert_eq!(found.deriver, some("/nix/store/ccc-hello.drv"));
    assert_eq!(
        found.signatures,
        Some(vec!["cache.nixos.org-1:sig".to_string(), "mine:other".to_string()])
    );
}

#[test]
fn path_info_failures() {
    let failure = |outcome: Outcome| query_path_info(&outcome, "/p").err();
    let bad = Some(Status::InternalServerError);
    assert_eq!(failure(Outcome::NotStarted), bad);
    assert_eq!(failure(finished(false, REPORT)), bad);
    assert_eq!(failure(finished(true, b"")), bad);
    assert_eq!(failure(finished(true, b"{")), bad);
    assert_eq!(failure(finished(true, b"[]")), bad);
    assert_eq!(failure(finished(true, b"{}")), bad);
    assert_eq!(failure(finished(true, REPORT)), bad);
    assert_eq!(failure(finished(true, b"{\"/p\": null}")), bad);
    assert_eq!(failure(finished(true, b"{\"/p\": {}} x")), bad);
}

fn entry(json: &str) -> Option<PathInfo> {
    PathInfo::from_value(&serde_json::from_str(json).unwrap())
}

#[test]
fn optional_fields_of_path_info() {
    let least = entry(r#"{"narHash": "h", "narSize": 0, "references": []}"#).unwrap();
    assert_eq!(least.deriver, None);
    assert_eq!(least.signatures, None);
    assert!(least.references.is_empty());
    let nulls = entry(
        r#"{"narHash": "h", "narSize": 1, "references": [], "deriver": null, "signatures": null}"#,
    )
    .unwrap();
    assert_eq!(nulls.deriver, None);
    assert_eq!(nulls.signatures, None);
    let largest =
        entry(r#"{"narHash": "h", "narSize": 18446744073709551615, "references": [], "signatures": []}"#)
            .unwrap();
    assert_eq!(largest.nar_size, u64::MAX);
    assert_eq!(largest.signatures, Some(Vec::new()));
    let twice = entry(r#"{"narHash": "a", "narHash": "b", "narSize": 1, "references": []}"#).unwrap();
    assert_eq!(twice.nar_hash, "b");
}

#[test]
fn ill_typed_path_info() {
    assert!(entry(r#"{"narSize": 0, "references": []}"#).is_none());
    assert!(entry(r#"{"narHash": "h", "references": []}"#).is_none());
    assert!(entry(r#"{"narHash": "h", "narSize": 0}"#).is_none());
    assert!(entry(r#"{"narHash": 1, "narSize": 0, "references": []}"#).is_none());
    assert!(entry(r#"{"narHash": "h", "narSize": "0", "references": []}"#).is_none());
    assert!(entry(r#"{"narHash": "h", "narSize": -1, "references": []}"#).is_none());
    assert!(entry(r#"{"narHash": "h", "narSize": 1.0, "references": []}"#).is_none());
    assert!(entry(r#"{"narHash": "h", "narSize": 18446744073709551616, "references": []}"#).is_none());
    assert!(entry(r#"{"narHash": "h", "narSize": 0, "references": ["a", 1]}"#).is_none());
    assert!(entry(r#"{"narHash": "h", "narSize": 0, "references": null}"#).is_none());
    assert!(entry(r#"{"narHash": "h", "narSize": 0, "references": [], "deriver": 1}"#).is_none());
    assert!(entry(r#"{"narHash": "h", "narSize": 0, "references": [], "signatures": "s"}"#).is_none());
    assert!(entry(r#""narHash""#).is_none());
    assert!(entry("null").is_none());
    assert!(entry("7").is_none());
}

#[test]
fn path_info_as_a_list() {
    let four = entry(r#"["h", 5, ["r"], "d"]"#).unwrap();
    assert_eq!(four.nar_hash, "h");
    assert_eq!(four.nar_size, 5);
    assert_eq!(four.references, vec!["r"]);
    assert_eq!(four.deriver, some("d"));
    assert_eq!(four.signatures, None);
    let five = entry(r#"["h", 5, ["r"], null, ["s"]]"#).unwrap();
    assert_eq!(five.deriver, None);
    assert_eq!(five.signatures, Some(vec!["s".to_string()]));
    assert!(entry(r#"["h", 5, ["r"]]"#).is_none());
    assert!(entry(r#"["h", 5, ["r"], null, null, null]"#).is_none());
}

#[test]
fn path_info_under_its_own_path() {
    let report: serde_json::Value = serde_json::from_slice(REPORT).unwrap();
    assert_eq!(reported_path_info(&report, "/nix/store/bbb-hello").unwrap().nar_size, 226560);
    assert_eq!(
        reported_path_info(&report, "bbb-hello").err(),
        Some(Status::InternalServerError)
    );
}

#[test]
fn cache_info() {
    let reply = nix_cache_info("/nix/store");
    assert_eq!(reply.status, Status::Success);
    assert_eq!(reply.content_type, "text/plain");
    assert_eq!(reply.body, "StoreDir: /nix/store\nWantMassQuery: 1\nPriority: 30\n");
    assert_eq!(reply.content_length, 51);
    assert_eq!(nix_cache_info("/\u{e9}").content_length, 44);
}

#[test]
fn full_narinfo() {
    let reply = narinfo("/nix/store/bbb-hello", "bbb", &info());
    assert_eq!(reply.status, Status::Success);
    assert_eq!(reply.content_type, "text/x-nix-narinfo");
    assert_eq!(
        reply.body,
        "StorePath: /nix/store/bbb-hello\n\
         URL: nar/bbb-1b2c.nar\n\
         Compression: none\n\
         NarHash: sha256:1b2c\n\
         NarSize: 226560\n\
         References: aaa-glibc bbb-hello\n\
         Deriver: ccc-hello.drv\n\
         Sig: cache.nixos.org-1:sig\n\
         Sig: mine:other\n"
    );
    assert_eq!(reply.content_length, reply.body.len() as u64);
}

#[test]
fn least_narinfo() {
    let least = PathInfo {
        nar_hash: "sha256-x".to_string(),
        nar_size: 0,
        references: Vec::new(),
        deriver: None,
        signatures: None,
    };
    assert_eq!(
        narinfo("/s", "h", &least).body,
        "StorePath: /s\nURL: nar/h-sha256-x.nar\nCompression: none\nNarHash: sha256-x\nNarSize: 0\n"
    );
}

#[test]
fn archives() {
    let plan = nar_stream("/nix/store/bbb-hello", &some("1b2c"), &info()).unwrap();
    assert_eq!(
        argv(&plan.command),
        vec![
            "nix",
            "--extra-experimental-features",
            "nix-command",
            "store",
            "dump-path",
            "--",
            "/nix/store/bbb-hello"
        ]
    );
    assert_eq!(plan.content_length, Some(226560));
    assert!(nar_stream("/s", &None, &info()).is_ok());
    assert_eq!(nar_stream("/s", &some("1b2d"), &info()).err(), Some(Status::NotFound));
    assert_eq!(nar_stream("/s", &some("sha256:1b2c"), &info()).err(), Some(Status::NotFound));
}

#[test]
fn logs() {
    let plan = log_stream("/nix/store", "ccc-hello.drv");
    assert_eq!(
        argv(&plan.command),
        vec![
            "nix",
            "--extra-experimental-features",
            "nix-command",
            "log",
            "/nix/store/ccc-hello.drv"
        ]
    );
    assert_eq!(plan.content_length, None);
}

#[test]
fn stream_heads() {
    let head = stream_command(true, Some(7)).unwrap();
    assert_eq!(head.status, Status::Success);
    assert_eq!(head.content_type, "text/plain");
    assert_eq!(head.content_length, Some(7));
    assert_eq!(stream_command(true, None).unwrap().content_length, None);
    assert_eq!(stream_command(false, Some(7)).err(), Some(Status::InternalServerError));
}

fn lookup_of(step: Step) -> (String, Wanted) {
    match step {
        Step::Run(command, Serving::FindingPath { hash_part, wanted }) => {
            assert_eq!(argv(&command), argv(&store_path_command(&hash_part)));
            (hash_part, wanted)
        }
        other => panic!("{:?}", other),
    }
}

#[test]
fn requests_by_kind() {
    let (hash_part, wanted) = lookup_of(handler("/abc.narinfo", "/nix/store"));
    assert_eq!(hash_part, "abc");
    assert!(matches!(wanted, Wanted::NarInfo));
    let (hash_part, wanted) = lookup_of(handler("/nar/abc-def.nar", "/nix/store"));
    assert_eq!(hash_part, "abc");
    assert!(matches!(wanted, Wanted::Nar { expected_hash: Some(h) } if h == "def"));
    let (hash_part, wanted) = lookup_of(handler("/nar/abc.nar", "/nix/store"));
    assert_eq!(hash_part, "abc");
    assert!(matches!(wanted, Wanted::Nar { expected_hash: None }));
    match handler("/log/x", "/nix/store") {
        Step::Stream(plan) => assert_eq!(argv(&plan.command)[4], "/nix/store/x"),
        other => panic!("{:?}", other),
    }
    // A log whose name ends like a narinfo counts as a narinfo.
    assert_eq!(lookup_of(handler("/log/x.narinfo", "/nix/store")).0, "log/x");
    for path in ["/", "/abc", "/nar/abc", "/log/", ""] {
        assert!(matches!(handler(path, "/nix/store"), Step::Fail(Status::NotFound)));
    }
}

fn serve(path: &str, lookup: &Outcome, report: &Outcome) -> Step {
    let mut step = handler(path, "/nix/store");
    for outcome in [lookup, report] {
        step = match step {
            Step::Run(_, serving) => serving.resume(outcome),
            end => end,
        };
    }
    step
}

#[test]
fn advertised_archive_is_served() {
    let lookup = finished(true, b"/nix/store/bbb-hello\n");
    let report = finished(true, REPORT);
    let body = match serve("/bbb.narinfo", &lookup, &report) {
        Step::Answer(reply) => reply.body,
        other => panic!("{:?}", other),
    };
    let url = body.lines().find_map(|line| line.strip_prefix("URL: ")).unwrap();
    match serve(&format!("/{}", url), &lookup, &report) {
        Step::Stream(plan) => {
            assert_eq!(plan.content_length, Some(226560));
            assert_eq!(argv(&plan.command)[6], "/nix/store/bbb-hello");
        }
        other => panic!("{:?}", other),
    }
}

#[test]
fn dashed_hash_part_is_parted_at_its_dash() {
    let lookup = finished(true, b"/nix/store/bbb-hello\n");
    let report = finished(true, REPORT);
    assert!(matches!(serve("/b-c.narinfo", &lookup, &report), Step::Answer(_)));
    assert!(matches!(serve("/nar/b-c-1b2c.nar", &lookup, &report), Step::Fail(Status::NotFound)));
}

#[test]
fn failing_requests() {
    let lookup = finished(true, b"/nix/store/bbb-hello\n");
    let report = finished(true, REPORT);
    let fails = |path: &str, lookup: &Outcome, report: &Outcome| match serve(path, lookup, report) {
        Step::Fail(status) => status,
        other => panic!("{:?}", other),
    };
    assert_eq!(fails("/nar/bbb-0000.nar", &lookup, &report), Status::NotFound);
    assert_eq!(fails("/bbb.narinfo", &finished(false, b""), &report), Status::NotFound);
    assert_eq!(fails("/bbb.narinfo", &Outcome::NotStarted, &report), Status::InternalServerError);
    assert_eq!(fails("/bbb.narinfo", &lookup, &finished(false, b"")), Status::InternalServerError);
    assert_eq!(fails("/nar/bbb.nar", &lookup, &Outcome::NotStarted), Status::InternalServerError);
    assert!(matches!(serve("/nar/bbb.nar", &lookup, &report), Step::Stream(_)));
}

#[test]
fn second_command_reports_on_the_path_found() {
    match handler("/bbb.narinfo", "/nix/store") {
        Step::Run(_, serving) => match serving.resume(&finished(true, b"/nix/store/bbb-hello\n")) {
            Step::Run(command, Serving::FindingInfo { store_path, .. }) => {
                assert_eq!(argv(&command)[5], "/nix/store/bbb-hello");
                assert_eq!(store_path, "/nix/store/bbb-hello");
            }
            other => panic!("{:?}", other),
        },
        other => panic!("{:?}", other),
    }
}

#[test]
fn deliveries() {
    let wanted = Wanted::Nar { expected_hash: some("nope") };
    assert!(matches!(deliver("bbb", &wanted, "/s", &info()), Step::Fail(Status::NotFound)));
    assert!(matches!(deliver("bbb", &Wanted::NarInfo, "/s", &info()), Step::Answer(_)));
}

#[test]
fn status_numbers() {
    assert_eq!(Status::Success.code(), 200);
    assert_eq!(Status::NotFound.code(), 404);
    assert_eq!(Status::InternalServerError.code(), 500);
}
