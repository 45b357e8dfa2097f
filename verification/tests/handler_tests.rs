//! Server session behavior: sandbox containment, path resolution, display
//! paths, listings, and the per-command decisions.

use parfs::message::MessageKind;
use parfs::paths::join_components;
use parfs::server::handler::{
    classify_request, ConnectionHandler, DirEntry, DownDecision, MkdirDecision, RequestClass,
    UpDecision,
};

fn home() -> Vec<String> {
    vec![String::from("srv"), String::from("root")]
}

fn handler() -> ConnectionHandler {
    ConnectionHandler::new(home())
}

#[test]
fn new_session_starts_at_home() {
    let h = handler();
    assert_eq!(h.current_directory, home());
    assert!(!h.connection_dropped);
    assert_eq!(h.get_display_path(&h.current_directory), "~/");
}

#[test]
fn cd_into_subdirectory_updates_display() {
    let mut h = handler();
    let reply = h.cd(&String::from("subdir"), true);
    assert_eq!(reply.command, MessageKind::Success);
    assert_eq!(reply.arguments, "~/subdir/");
    assert_eq!(h.current_directory, vec![
        String::from("srv"),
        String::from("root"),
        String::from("subdir")
    ]);
}

#[test]
fn cd_escaping_the_sandbox_is_refused() {
    // A target resolving outside the home directory leaves the session
    // unchanged and is answered with an error.
    let mut h = handler();
    let before = h.current_directory.clone();
    let reply = h.cd(&String::from("../../.."), true);
    assert_eq!(reply.command, MessageKind::Error);
    assert_eq!(reply.arguments, "Invalid directory: ../../..");
    assert_eq!(h.current_directory, before);
}

#[test]
fn cd_one_level_above_home_is_refused() {
    let mut h = handler();
    let before = h.current_directory.clone();
    let reply = h.cd(&String::from(".."), true);
    assert_eq!(reply.command, MessageKind::Error);
    assert_eq!(h.current_directory, before);
}

#[test]
fn cd_to_missing_directory_is_refused() {
    let mut h = handler();
    let before = h.current_directory.clone();
    let reply = h.cd(&String::from("nowhere"), false);
    assert_eq!(reply.command, MessageKind::Error);
    assert_eq!(h.current_directory, before);
}

#[test]
fn cd_subdir_then_parent_restores_display_path() {
    let mut h = handler();
    let original = h.get_display_path(&h.current_directory);
    let enter = h.cd(&String::from("subdir"), true);
    assert_eq!(enter.command, MessageKind::Success);
    let back = h.cd(&String::from(".."), true);
    assert_eq!(back.command, MessageKind::Success);
    assert_eq!(back.arguments, original);
    assert_eq!(h.get_display_path(&h.current_directory), original);
}

#[test]
fn cd_strips_leading_separator() {
    let mut h = handler();
    let reply = h.cd(&String::from("/subdir"), true);
    assert_eq!(reply.command, MessageKind::Success);
    assert_eq!(reply.arguments, "~/subdir/");
}

#[test]
fn cd_ignores_dot_and_empty_components() {
    let mut h = handler();
    let reply = h.cd(&String::from("./a//b/."), true);
    assert_eq!(reply.command, MessageKind::Success);
    assert_eq!(reply.arguments, "~/a/b/");
}

#[test]
fn mkdir_creates_inside_the_sandbox() {
    let h = handler();
    match h.mkdir(&String::from("foo"), false) {
        MkdirDecision::Create(target) => {
            assert_eq!(target, vec![
                String::from("srv"),
                String::from("root"),
                String::from("foo")
            ]);
            assert_eq!(join_components(&target), "/srv/root/foo");
        },
        MkdirDecision::Reject(_) => panic!("a fresh name must be created"),
    }
}

#[test]
fn mkdir_of_existing_target_is_refused() {
    let h = handler();
    match h.mkdir(&String::from("foo"), true) {
        MkdirDecision::Create(_) => panic!("an existing target must be refused"),
        MkdirDecision::Reject(reply) => {
            assert_eq!(reply.command, MessageKind::Error);
            assert_eq!(reply.arguments, "Invalid directory: foo");
        },
    }
}

#[test]
fn listing_marks_directories_and_joins_lines() {
    let h = handler();
    let entries = vec![
        DirEntry { name: String::from("foo"), is_dir: true },
        DirEntry { name: String::from("notes.txt"), is_dir: false },
        DirEntry { name: String::from("bar"), is_dir: true },
    ];
    let reply = h.ls(&entries);
    assert_eq!(reply.command, MessageKind::Success);
    assert_eq!(reply.arguments, "foo/\nnotes.txt\nbar/");
}

#[test]
fn listing_after_mkdir_contains_the_new_directory() {
    // Scenario: `mkdir foo`, then `ls` shows `foo/`.
    let h = handler();
    match h.mkdir(&String::from("foo"), false) {
        MkdirDecision::Create(_) => {},
        MkdirDecision::Reject(_) => panic!("a fresh name must be created"),
    }
    let entries = vec![DirEntry { name: String::from("foo"), is_dir: true }];
    let reply = h.ls(&entries);
    assert!(reply.arguments.contains("foo/"));
}

#[test]
fn listing_is_idempotent() {
    // An unchanged directory lists identically on repeated calls.
    let h = handler();
    let entries = vec![
        DirEntry { name: String::from("a"), is_dir: false },
        DirEntry { name: String::from("b"), is_dir: true },
    ];
    let first = h.ls(&entries).arguments;
    let second = h.ls(&entries).arguments;
    assert_eq!(first, second);
}

#[test]
fn empty_listing_is_empty_text() {
    let h = handler();
    let reply = h.ls(&Vec::new());
    assert_eq!(reply.arguments, "");
}

#[test]
fn download_of_valid_file_names_its_canonical_path() {
    let h = handler();
    match h.down(&String::from("remote.txt"), true) {
        DownDecision::Send(ms) => {
            assert_eq!(ms.command, MessageKind::File);
            assert_eq!(ms.arguments, "");
            assert_eq!(ms.file_path, Some(String::from("/srv/root/remote.txt")));
        },
        DownDecision::Reject(_) => panic!("a sandboxed file must be sent"),
    }
}

#[test]
fn download_outside_the_sandbox_is_refused() {
    let h = handler();
    match h.down(&String::from("../../etc/passwd"), true) {
        DownDecision::Send(_) => panic!("an escaping path must be refused"),
        DownDecision::Reject(reply) => {
            assert_eq!(reply.command, MessageKind::Error);
            assert_eq!(reply.arguments, "Invalid path: ../../etc/passwd");
        },
    }
}

#[test]
fn download_of_missing_file_is_refused() {
    let h = handler();
    match h.down(&String::from("nothing.txt"), false) {
        DownDecision::Send(_) => panic!("a missing file must be refused"),
        DownDecision::Reject(reply) => assert_eq!(reply.command, MessageKind::Error),
    }
}

#[test]
fn upload_to_fresh_name_under_home_is_accepted() {
    let h = handler();
    match h.up(&String::from("new.bin"), false, true) {
        UpDecision::Receive(ready, path) => {
            assert_eq!(ready.command, MessageKind::Success);
            assert_eq!(ready.arguments, "");
            assert_eq!(path, "/srv/root/new.bin");
        },
        UpDecision::Reject(_) => panic!("a fresh sandboxed name must be accepted"),
    }
}

#[test]
fn upload_over_existing_file_is_accepted() {
    let h = handler();
    match h.up(&String::from("old.bin"), true, true) {
        UpDecision::Receive(_, path) => assert_eq!(path, "/srv/root/old.bin"),
        UpDecision::Reject(_) => panic!("an existing sandboxed file may be overwritten"),
    }
}

#[test]
fn upload_escaping_the_sandbox_is_refused() {
    let h = handler();
    match h.up(&String::from("../../evil.bin"), false, true) {
        UpDecision::Receive(_, _) => panic!("an escaping path must be refused"),
        UpDecision::Reject(reply) => {
            assert_eq!(reply.command, MessageKind::Error);
            assert_eq!(reply.arguments, "Invalid path: ../../evil.bin");
        },
    }
}

#[test]
fn upload_into_missing_parent_is_refused() {
    let h = handler();
    match h.up(&String::from("no_dir/new.bin"), false, false) {
        UpDecision::Receive(_, _) => panic!("a missing parent must be refused"),
        UpDecision::Reject(reply) => assert_eq!(reply.command, MessageKind::Error),
    }
}

#[test]
fn requests_dispatch_by_kind() {
    assert_eq!(classify_request(MessageKind::Mkdir), RequestClass::Mkdir);
    assert_eq!(classify_request(MessageKind::Cd), RequestClass::Cd);
    assert_eq!(classify_request(MessageKind::Ls), RequestClass::Ls);
    assert_eq!(classify_request(MessageKind::Down), RequestClass::Down);
    assert_eq!(classify_request(MessageKind::Up), RequestClass::Up);
    assert_eq!(classify_request(MessageKind::Login), RequestClass::Unsupported);
    assert_eq!(classify_request(MessageKind::File), RequestClass::Unsupported);
}

#[test]
fn generic_failure_reply_is_recoverable_error() {
    let h = handler();
    let reply = h.request_failure_reply();
    assert_eq!(reply.command, MessageKind::Error);
    assert_eq!(reply.arguments, "There was an error at the server. Please try again!");
}

#[test]
fn dropped_connection_is_recorded() {
    let mut h = handler();
    h.mark_dropped();
    assert!(h.connection_dropped);
}
