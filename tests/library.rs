use arboria::download::{
    download_target, prepare_download, resolve_downloads_dir, write_failure_message,
};
use arboria::launch::{
    binding_supported, log_file_path, open_command, reveal_command, spawn_request, Platform,
    CREATE_NO_WINDOW,
};
use arboria::paths::{clean_path, containing_dir, join, layout_path, windows_prefix, LAYOUT_COUNT};
use arboria::resolve::{candidates, next_probe, Candidate, Probe, Resolver};
use arboria::startup::{Action, Event, Outcome, Startup};
use arboria::supervisor::ServerSlot;

fn roots(rs: &[&str]) -> Vec<String> {
    rs.iter().map(|r| r.to_string()).collect()
}

#[test]
fn join_inserts_one_separator() {
    let o = Platform::Other;
    assert_eq!(join("/opt/app", "server", o), "/opt/app/server");
    assert_eq!(join("/opt/app/", "server", o), "/opt/app/server");
    assert_eq!(join("/opt/app", "", o), "/opt/app/");
    assert_eq!(join("", "node.exe", o), "node.exe");
    assert_eq!(join("a\\b", "c", o), "a\\b/c");
}

#[test]
fn join_uses_backslash_on_windows() {
    let w = Platform::Windows;
    assert_eq!(join("C:\\Users\\u", "Downloads", w), "C:\\Users\\u\\Downloads");
    assert_eq!(join("C:\\app\\", "node.exe", w), "C:\\app\\node.exe");
    assert_eq!(join("C:\\app/", "node.exe", w), "C:\\app/node.exe");
    assert_eq!(join("C:", "x", w), "C:x");
    assert_eq!(join("C:\\app", "", w), "C:\\app\\");
}

#[test]
fn join_absolute_part_replaces_base() {
    assert_eq!(join("/home/u/Downloads", "/etc/x", Platform::Other), "/etc/x");
    assert_eq!(join("/home/u/Downloads", "/etc/x", Platform::MacOs), "/etc/x");
    assert_eq!(join("C:\\d", "D:\\x", Platform::Windows), "D:\\x");
    assert_eq!(join("C:\\d", "\\\\srv\\s\\x", Platform::Windows), "\\\\srv\\s\\x");
    assert_eq!(join("C:\\d", "\\x", Platform::Windows), "C:\\x");
    assert_eq!(join("rel", "\\x", Platform::Windows), "\\x");
}

#[test]
fn join_rooted_part_keeps_whole_prefix() {
    let w = Platform::Windows;
    assert_eq!(join("\\\\srv\\s\\Downloads", "\\x", w), "\\\\srv\\s\\x");
    assert_eq!(join("\\\\srv\\s\\u", "\\x", w), "\\\\srv\\s\\x");
    assert_eq!(join("\\\\?\\C:\\app", "\\x", w), "\\\\?\\C:\\x");
    assert_eq!(join("\\\\?\\UNC\\srv\\s\\d", "\\x", w), "\\\\?\\UNC\\srv\\s\\x");
    assert_eq!(join("\\\\.\\pipe\\d", "\\x", w), "\\\\.\\pipe\\x");
}

#[test]
fn join_onto_extended_length_base() {
    let w = Platform::Windows;
    assert_eq!(join("\\\\?\\C:\\app", "server", w), "\\\\?\\C:\\app\\server");
    assert_eq!(join("\\\\?\\C:\\app\\", "server", w), "\\\\?\\C:\\app\\server");
    assert_eq!(join("\\\\?\\C:\\a/", "x", w), "\\\\?\\C:\\a/\\x");
}

#[test]
fn windows_prefix_lengths() {
    assert_eq!(windows_prefix("C:\\x"), 2);
    assert_eq!(windows_prefix("\\\\srv\\s\\x"), 7);
    assert_eq!(windows_prefix("\\\\srv"), 0);
    assert_eq!(windows_prefix("\\\\?\\C:\\x"), 6);
    assert_eq!(windows_prefix("\\\\?\\UNC\\srv\\s\\x"), 13);
    assert_eq!(windows_prefix("\\\\?\\pipe\\x"), 8);
    assert_eq!(windows_prefix("\\\\.\\COM42"), 9);
    assert_eq!(windows_prefix("\\x"), 0);
    assert_eq!(windows_prefix("x"), 0);
}

#[test]
fn containing_dir_of_file_and_directory() {
    assert_eq!(containing_dir("/d/f.txt", false), "/d");
    assert_eq!(containing_dir("/d/f.txt", true), "/d/f.txt");
    assert_eq!(containing_dir("/d//e/f.txt/", false), "/d//e");
    assert_eq!(containing_dir("/f.txt", false), "/");
    assert_eq!(containing_dir("/", false), "/");
    assert_eq!(containing_dir("", false), "/");
    assert_eq!(containing_dir("f.txt", false), "");
    assert_eq!(containing_dir("a/b", false), "a");
}

#[test]
fn containing_dir_skips_dot_components() {
    assert_eq!(containing_dir("/a/.", false), "/");
    assert_eq!(containing_dir("a/./b.txt", false), "a");
    assert_eq!(containing_dir("./a", false), ".");
    assert_eq!(containing_dir(".", false), "");
    assert_eq!(containing_dir("/.", false), "/");
}

#[test]
fn clean_path_strips_extended_prefix() {
    assert_eq!(clean_path("\\\\?\\C:\\app\\node.exe"), "C:\\app\\node.exe");
    assert_eq!(clean_path("C:\\app\\node.exe"), "C:\\app\\node.exe");
    assert_eq!(clean_path("\\\\?"), "\\\\?");
    assert_eq!(clean_path(""), "");
}

#[test]
fn layouts_in_priority_order() {
    assert_eq!(LAYOUT_COUNT, 3);
    assert_eq!(layout_path("/r", 0, Platform::Other), "/r/resources/server");
    assert_eq!(layout_path("/r", 1, Platform::Other), "/r/server");
    assert_eq!(layout_path("/r", 2, Platform::Other), "/r");
    assert_eq!(layout_path("C:\\r", 0, Platform::Windows), "C:\\r\\resources\\server");
}

#[test]
fn candidates_root_major_layout_minor() {
    let cs = candidates(&roots(&["/r1", "/r2"]), "node.exe", "index.js", Platform::Other);
    let dirs: Vec<&str> = cs.iter().map(|c| c.working_dir.as_str()).collect();
    assert_eq!(
        dirs,
        vec!["/r1/resources/server", "/r1/server", "/r1", "/r2/resources/server", "/r2/server", "/r2"]
    );
    assert_eq!(cs[0].runtime, "/r1/resources/server/node.exe");
    assert_eq!(cs[0].script, "/r1/resources/server/index.js");
    assert_eq!(cs[5].runtime, "/r2/node.exe");
    assert_eq!(cs[5].script, "/r2/index.js");
}

#[test]
fn candidates_on_windows_use_backslash() {
    let cs = candidates(&roots(&["C:\\app"]), "node.exe", "index.js", Platform::Windows);
    let dirs: Vec<&str> = cs.iter().map(|c| c.working_dir.as_str()).collect();
    assert_eq!(dirs, vec!["C:\\app\\resources\\server", "C:\\app\\server", "C:\\app"]);
    assert_eq!(cs[0].runtime, "C:\\app\\resources\\server\\node.exe");
    assert_eq!(cs[2].runtime, "C:\\app\\node.exe");
    assert_eq!(cs[2].script, "C:\\app\\index.js");
    let cs = candidates(&roots(&["\\\\?\\C:\\app"]), "node.exe", "index.js", Platform::Windows);
    assert_eq!(cs[0].working_dir, "\\\\?\\C:\\app\\resources\\server");
    assert_eq!(cs[0].runtime, "\\\\?\\C:\\app\\resources\\server\\node.exe");
}

#[test]
fn candidates_of_no_roots_is_empty() {
    assert!(candidates(&Vec::new(), "node.exe", "index.js", Platform::Other).is_empty());
    assert_eq!(next_probe(0, &Vec::new()), Probe::Exhausted);
}

#[test]
fn nothing_exists_resolves_to_nothing() {
    assert_eq!(next_probe(6, &vec![false; 6]), Probe::Exhausted);
    assert_eq!(next_probe(6, &vec![false; 3]), Probe::Check(3));
}

#[test]
fn higher_priority_layout_wins() {
    // both the nested and the flat layout exist: the nested one is found
    // right after its own check and nothing after it is consulted
    assert_eq!(next_probe(3, &vec![]), Probe::Check(0));
    assert_eq!(next_probe(3, &vec![true]), Probe::Found(0));
    assert_eq!(next_probe(6, &vec![false, false, false, true]), Probe::Found(3));
    assert_eq!(next_probe(6, &vec![false, true, true]), Probe::Found(1));
}

#[test]
fn resolver_walks_candidates() {
    let mut r = Resolver::new(&roots(&["/a"]), "node.exe", "index.js", Platform::Other);
    assert_eq!(r.count(), 3);
    assert_eq!(r.step(), Probe::Check(0));
    r.report(false);
    assert_eq!(r.step(), Probe::Check(1));
    r.report(true);
    assert_eq!(r.probed(), 2);
    assert_eq!(r.step(), Probe::Found(1));
    let c: &Candidate = r.candidate(1);
    assert_eq!(c.runtime, "/a/server/node.exe");
    assert_eq!(c.script, "/a/server/index.js");
    assert_eq!(c.working_dir, "/a/server");
}

#[test]
fn spawn_request_uses_plain_paths() {
    let c = Candidate {
        working_dir: "\\\\?\\C:\\app".to_string(),
        runtime: "\\\\?\\C:\\app\\node.exe".to_string(),
        script: "\\\\?\\C:\\app\\index.js".to_string(),
    };
    let req = spawn_request(&c, Some("C:\\logs\\server_stdout.log".to_string()), Platform::Windows);
    assert_eq!(req.program, "C:\\app\\node.exe");
    assert_eq!(req.args, vec!["C:\\app\\index.js".to_string()]);
    assert_eq!(req.current_dir, "C:\\app");
    assert_eq!(req.log_file, Some("C:\\logs\\server_stdout.log".to_string()));
    assert_eq!(req.creation_flags, CREATE_NO_WINDOW);
    assert_eq!(CREATE_NO_WINDOW, 0x0800_0000);
    let req = spawn_request(&c, None, Platform::Other);
    assert_eq!(req.log_file, None);
    assert_eq!(req.creation_flags, 0);
}

#[test]
fn log_file_lives_in_log_dir() {
    assert_eq!(log_file_path("/var/log/app", Platform::Other), "/var/log/app/server_stdout.log");
    assert_eq!(log_file_path("C:\\logs", Platform::Windows), "C:\\logs\\server_stdout.log");
}

#[test]
fn binding_only_on_windows() {
    assert!(binding_supported(Platform::Windows));
    assert!(!binding_supported(Platform::MacOs));
    assert!(!binding_supported(Platform::Other));
}

#[test]
fn reveal_commands_per_platform() {
    let w = reveal_command(Platform::Windows, "C:\\d\\f.txt", "C:\\d");
    assert_eq!(w.program, "explorer");
    assert_eq!(w.args, vec!["/select,C:\\d\\f.txt".to_string()]);
    let m = reveal_command(Platform::MacOs, "/d/f.txt", "/d");
    assert_eq!(m.program, "open");
    assert_eq!(m.args, vec!["-R".to_string(), "/d/f.txt".to_string()]);
    let o = reveal_command(Platform::Other, "/d/f.txt", "/d");
    assert_eq!(o.program, "xdg-open");
    assert_eq!(o.args, vec!["/d".to_string()]);
}

#[test]
fn open_commands_per_platform() {
    let w = open_command(Platform::Windows, "C:\\f.txt");
    assert_eq!(w.program, "cmd");
    assert_eq!(w.args, vec!["/c", "start", "", "C:\\f.txt"]);
    let m = open_command(Platform::MacOs, "/f.txt");
    assert_eq!(m.program, "open");
    assert_eq!(m.args, vec!["/f.txt"]);
    let o = open_command(Platform::Other, "/f.txt");
    assert_eq!(o.program, "xdg-open");
    assert_eq!(o.args, vec!["/f.txt"]);
}

#[test]
fn slot_keeps_first_handle() {
    let mut slot: ServerSlot<u32> = ServerSlot::new();
    assert_eq!(slot.get(), None);
    assert_eq!(slot.store(4242), Ok(()));
    assert_eq!(slot.get(), Some(&4242));
    assert_eq!(slot.store(7), Err(7));
    assert_eq!(slot.get(), Some(&4242));
    assert_eq!(slot.store(8), Err(8));
    assert_eq!(slot.get(), Some(&4242));
}

fn checked_path(a: &Action) -> String {
    match a {
        Action::CheckExists(p) => p.clone(),
        other => panic!("expected a check, got {:?}", other),
    }
}

#[test]
fn startup_runs_server_without_log() {
    let mut s = Startup::new(&roots(&["/app"]), "node.exe", "index.js", "/logs", Platform::Other);
    assert_eq!(checked_path(&s.start()), "/app/resources/server/node.exe");
    assert_eq!(checked_path(&s.on_event(Event::Exists(false))), "/app/server/node.exe");
    assert_eq!(checked_path(&s.on_event(Event::Exists(true))), "/app/server/index.js");
    match s.on_event(Event::Exists(true)) {
        Action::OpenLog(p) => assert_eq!(p, "/logs/server_stdout.log"),
        other => panic!("expected OpenLog, got {:?}", other),
    }
    match s.on_event(Event::LogOpened(false)) {
        Action::Spawn(req) => {
            assert_eq!(req.program, "/app/server/node.exe");
            assert_eq!(req.args, vec!["/app/server/index.js".to_string()]);
            assert_eq!(req.current_dir, "/app/server");
            assert_eq!(req.log_file, None);
            assert_eq!(req.creation_flags, 0);
        }
        other => panic!("expected Spawn, got {:?}", other),
    }
    assert!(matches!(s.on_event(Event::Spawned(31)), Action::Store(31)));
    match s.on_event(Event::Stored) {
        Action::Finish(o) => {
            assert_eq!(o, Outcome::Running { pid: 31, log_captured: false, bound: false })
        }
        other => panic!("expected Finish, got {:?}", other),
    }
    assert!(matches!(s.on_event(Event::Stored), Action::Ignored));
}

#[test]
fn startup_binds_before_storing_on_windows() {
    let mut s = Startup::new(&roots(&["C:\\app"]), "node.exe", "index.js", "C:\\logs", Platform::Windows);
    assert_eq!(checked_path(&s.start()), "C:\\app\\resources\\server\\node.exe");
    assert_eq!(
        checked_path(&s.on_event(Event::Exists(true))),
        "C:\\app\\resources\\server\\index.js"
    );
    assert!(matches!(s.on_event(Event::Exists(true)), Action::OpenLog(_)));
    match s.on_event(Event::LogOpened(true)) {
        Action::Spawn(req) => {
            assert_eq!(req.log_file, Some("C:\\logs\\server_stdout.log".to_string()));
            assert_eq!(req.creation_flags, CREATE_NO_WINDOW);
        }
        other => panic!("expected Spawn, got {:?}", other),
    }
    assert!(matches!(s.on_event(Event::Stored), Action::Ignored));
    assert!(matches!(s.on_event(Event::Spawned(9)), Action::Bind(9)));
    assert!(matches!(s.on_event(Event::BindAttempted(false)), Action::Store(9)));
    match s.on_event(Event::Stored) {
        Action::Finish(o) => {
            assert_eq!(o, Outcome::Running { pid: 9, log_captured: true, bound: false })
        }
        other => panic!("expected Finish, got {:?}", other),
    }
}

#[test]
fn startup_without_any_runtime_finishes_quietly() {
    let mut s = Startup::new(&roots(&["/x"]), "node.exe", "index.js", "/logs", Platform::Other);
    s.start();
    s.on_event(Event::Exists(false));
    s.on_event(Event::Exists(false));
    match s.on_event(Event::Exists(false)) {
        Action::Finish(o) => assert_eq!(o, Outcome::NoServer),
        other => panic!("expected Finish, got {:?}", other),
    }
    assert!(matches!(s.on_event(Event::Exists(true)), Action::Ignored));
}

#[test]
fn startup_without_script_or_spawn_finishes_quietly() {
    let mut s = Startup::new(&roots(&["/x"]), "node.exe", "index.js", "/logs", Platform::MacOs);
    s.start();
    s.on_event(Event::Exists(true));
    match s.on_event(Event::Exists(false)) {
        Action::Finish(o) => assert_eq!(o, Outcome::ScriptMissing),
        other => panic!("expected Finish, got {:?}", other),
    }
    let mut s = Startup::new(&roots(&["/x"]), "node.exe", "index.js", "/logs", Platform::MacOs);
    s.start();
    s.on_event(Event::Exists(true));
    s.on_event(Event::Exists(true));
    s.on_event(Event::LogOpened(true));
    assert!(matches!(s.on_event(Event::Stored), Action::Ignored));
    match s.on_event(Event::SpawnRefused("permission denied".to_string())) {
        Action::Finish(o) => assert_eq!(o, Outcome::SpawnFailed("permission denied".to_string())),
        other => panic!("expected Finish, got {:?}", other),
    }
}

#[test]
fn startup_with_no_roots_finishes_at_once() {
    let mut s = Startup::new(&Vec::new(), "node.exe", "index.js", "/logs", Platform::Other);
    assert!(matches!(s.start(), Action::Finish(Outcome::NoServer)));
}

#[test]
fn save_download_decodes_payload() {
    let f = prepare_download("/home/u/Downloads", "a.txt", "aGVsbG8=", Platform::Other).unwrap();
    assert_eq!(f.path, "/home/u/Downloads/a.txt");
    assert_eq!(f.data, b"hello".to_vec());
}

#[test]
fn save_download_rejects_invalid_payload() {
    let e = prepare_download("/home/u/Downloads", "a.txt", "!!!", Platform::Other).unwrap_err();
    assert!(e.starts_with("Failed to decode base64: "));
    assert!(e.len() > "Failed to decode base64: ".len());
}

#[test]
fn save_download_on_windows_uses_backslash() {
    let f = prepare_download("C:\\Users\\u\\Downloads", "a.txt", "aGVsbG8=", Platform::Windows)
        .unwrap();
    assert_eq!(f.path, "C:\\Users\\u\\Downloads\\a.txt");
    assert_eq!(f.data, b"hello".to_vec());
}

#[test]
fn download_target_exact() {
    let f = download_target("/d", "b.bin", Ok(vec![1, 2, 3]), Platform::Other).unwrap();
    assert_eq!(f.path, "/d/b.bin");
    assert_eq!(f.data, vec![1, 2, 3]);
    let f = download_target("/home/u/Downloads", "/etc/x", Ok(vec![4]), Platform::Other).unwrap();
    assert_eq!(f.path, "/etc/x");
    let e = download_target("/d", "b.bin", Err("Invalid padding".to_string()), Platform::Other)
        .unwrap_err();
    assert_eq!(e, "Failed to decode base64: Invalid padding");
}

#[test]
fn downloads_dir_fallbacks() {
    assert_eq!(
        resolve_downloads_dir(
            Ok("/home/u/Downloads".to_string()),
            Err("unused".to_string()),
            Platform::Other
        ),
        Ok("/home/u/Downloads".to_string())
    );
    assert_eq!(
        resolve_downloads_dir(
            Err("no dir".to_string()),
            Ok("C:\\Users\\u".to_string()),
            Platform::Windows
        ),
        Ok("C:\\Users\\u\\Downloads".to_string())
    );
    assert_eq!(
        resolve_downloads_dir(Err("no dir".to_string()), Ok("/home/u".to_string()), Platform::Other),
        Ok("/home/u/Downloads".to_string())
    );
    assert_eq!(
        resolve_downloads_dir(
            Err("no dir".to_string()),
            Err("No fallback".to_string()),
            Platform::Other
        ),
        Err("Could not resolve downloads directory: No fallback".to_string())
    );
}

#[test]
fn write_failure_is_reported() {
    assert_eq!(
        write_failure_message("permission denied"),
        "Failed to write file to disk: permission denied"
    );
}
