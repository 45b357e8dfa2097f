//! Client session behavior: command parsing, validation, request building,
//! and reply interpretation.

use parfs::client::connection::{needs_stream, parse_command, Connection};
use parfs::client::errors::ClientError;
use parfs::client::utilities::Command;
use parfs::errors::ClientError as RootError;
use parfs::message::MessageKind;

fn disconnected() -> Connection {
    Connection { connected: false, addr: String::new(), cwd: String::new() }
}

fn connected() -> Connection {
    Connection { connected: true, addr: String::from("127.0.0.1:12801"), cwd: String::from("~/") }
}

fn tokens(words: &[&str]) -> Vec<String> {
    words.iter().map(|w| String::from(*w)).collect()
}

#[test]
fn command_words_parse() {
    assert_eq!(parse_command(&String::from("connect")), Some(Command::Connect));
    assert_eq!(parse_command(&String::from("help")), Some(Command::Help));
    assert_eq!(parse_command(&String::from("login")), Some(Command::Login));
    assert_eq!(parse_command(&String::from("mkdir")), Some(Command::Mkdir));
    assert_eq!(parse_command(&String::from("cd")), Some(Command::Cd));
    assert_eq!(parse_command(&String::from("ls")), Some(Command::Ls));
    assert_eq!(parse_command(&String::from("up")), Some(Command::Up));
    assert_eq!(parse_command(&String::from("down")), Some(Command::Down));
    assert_eq!(parse_command(&String::from("status")), Some(Command::Status));
    assert_eq!(parse_command(&String::from("quit")), None);
}

#[test]
fn stream_requirements_per_command() {
    assert!(!needs_stream(Command::Connect));
    assert!(!needs_stream(Command::Help));
    assert!(!needs_stream(Command::Status));
    assert!(needs_stream(Command::Cd));
    assert!(needs_stream(Command::Ls));
    assert!(needs_stream(Command::Mkdir));
    assert!(needs_stream(Command::Up));
    assert!(needs_stream(Command::Down));
    assert!(needs_stream(Command::Login));
}

#[test]
fn connect_accepts_well_formed_addresses() {
    let c = disconnected();
    let r = c.connect_request(&tokens(&["connect", "127.0.0.1:12800"]));
    assert_eq!(r.unwrap(), "127.0.0.1:12800");
    assert!(c.connect_request(&tokens(&["connect", "1.2.3.4:1"])).is_ok());
    assert!(c.connect_request(&tokens(&["connect", "999.999.999.999:65535"])).is_ok());
}

#[test]
fn connect_rejects_malformed_addresses() {
    let c = disconnected();
    for bad in [
        "localhost:80",
        "1234.1.1.1:1",
        "1.2.3.4:123456",
        "1.2.3:80",
        "1.2.3.4",
        "1.2.3.4:",
        ":80",
        "1.2.3.4:80x",
        "x1.2.3.4:80",
    ] {
        match c.connect_request(&tokens(&["connect", bad])) {
            Err(ClientError::InvalidAddress(_)) => {},
            other => panic!("address {:?} must be invalid, got {:?}", bad, other),
        }
    }
}

#[test]
fn connect_rejects_wrong_argument_count() {
    let c = disconnected();
    match c.connect_request(&tokens(&["connect"])) {
        Err(ClientError::WrongArgumentNum(_)) => {},
        other => panic!("expected WrongArgumentNum, got {:?}", other),
    }
    match c.connect_request(&tokens(&["connect", "1.2.3.4:1", "extra"])) {
        Err(ClientError::WrongArgumentNum(_)) => {},
        other => panic!("expected WrongArgumentNum, got {:?}", other),
    }
}

#[test]
fn welcome_success_establishes_the_session() {
    let mut c = disconnected();
    let r = c.apply_welcome(
        MessageKind::Success,
        String::from("~/"),
        String::from("127.0.0.1:12801"),
    );
    assert!(r.is_ok());
    assert!(c.connected);
    assert_eq!(c.cwd, "~/");
    assert_eq!(c.addr, "127.0.0.1:12801");
}

#[test]
fn welcome_of_other_kind_is_a_message_error() {
    let mut c = disconnected();
    match c.apply_welcome(MessageKind::Error, String::from("no"), String::from("a")) {
        Err(ClientError::MessageError) => {},
        other => panic!("expected MessageError, got {:?}", other),
    }
    assert!(!c.connected);
}

#[test]
fn cd_request_builds_the_message() {
    let c = connected();
    let ms = c.cd_request(&tokens(&["cd", "subdir"])).unwrap();
    assert_eq!(ms.command, MessageKind::Cd);
    assert_eq!(ms.arguments, "subdir");
    assert_eq!(ms.file_path, None);
}

#[test]
fn cd_request_without_connection_fails() {
    let c = disconnected();
    match c.cd_request(&tokens(&["cd", "subdir"])) {
        Err(ClientError::ConnectionError) => {},
        other => panic!("expected ConnectionError, got {:?}", other),
    }
}

#[test]
fn cd_reply_updates_the_prompt_path() {
    let mut c = connected();
    assert!(c.apply_cd_reply(MessageKind::Success, String::from("~/subdir/")).is_ok());
    assert_eq!(c.cwd, "~/subdir/");
    // A server error leaves the prompt unchanged.
    assert!(c.apply_cd_reply(MessageKind::Error, String::from("Invalid directory: x")).is_ok());
    assert_eq!(c.cwd, "~/subdir/");
    match c.apply_cd_reply(MessageKind::File, String::new()) {
        Err(ClientError::MessageError) => {},
        other => panic!("expected MessageError, got {:?}", other),
    }
}

#[test]
fn ls_request_takes_no_arguments() {
    let c = connected();
    let ms = c.ls_request(&tokens(&["ls"])).unwrap();
    assert_eq!(ms.command, MessageKind::Ls);
    assert_eq!(ms.arguments, "");
    match c.ls_request(&tokens(&["ls", "x"])) {
        Err(ClientError::WrongArgumentNum(_)) => {},
        other => panic!("expected WrongArgumentNum, got {:?}", other),
    }
}

#[test]
fn mkdir_request_builds_the_message() {
    let c = connected();
    let ms = c.mkdir_request(&tokens(&["mkdir", "foo"])).unwrap();
    assert_eq!(ms.command, MessageKind::Mkdir);
    assert_eq!(ms.arguments, "foo");
}

#[test]
fn down_request_names_the_remote_file() {
    let c = connected();
    let ms = c.down_request(&tokens(&["down", "remote.txt", "dest/"])).unwrap();
    assert_eq!(ms.command, MessageKind::Down);
    assert_eq!(ms.arguments, "remote.txt");
}

#[test]
fn down_destination_lands_in_directories_under_remote_name() {
    let c = connected();
    let into_dir = c.down_destination(&String::from("dest"), true, &String::from("remote.txt"));
    assert_eq!(into_dir, "dest/remote.txt");
    let as_file = c.down_destination(&String::from("dest/out.txt"), false, &String::from("remote.txt"));
    assert_eq!(as_file, "dest/out.txt");
}

#[test]
fn down_destination_validation() {
    let c = connected();
    // Fine: exists as a plain file.
    assert!(c.validate_down_destination(&String::from("out.txt"), true, false, true).is_ok());
    // Fine: missing, but the parent is a directory.
    assert!(c.validate_down_destination(&String::from("dest/out.txt"), false, false, true).is_ok());
    // Refused: the location is a directory.
    match c.validate_down_destination(&String::from("dest"), true, true, true) {
        Err(ClientError::DestinationError(t)) => assert_eq!(t, "dest"),
        other => panic!("expected DestinationError, got {:?}", other),
    }
    // Refused: missing and no parent directory.
    match c.validate_down_destination(&String::from("no/where"), false, false, false) {
        Err(ClientError::DestinationError(_)) => {},
        other => panic!("expected DestinationError, got {:?}", other),
    }
}

#[test]
fn down_reply_interpretation() {
    let c = connected();
    assert!(c.interpret_down_reply(MessageKind::File, String::new()).is_ok());
    match c.interpret_down_reply(MessageKind::Error, String::from("Invalid path: x")) {
        Err(ClientError::DownloadError(t)) => assert_eq!(t, "Invalid path: x"),
        other => panic!("expected DownloadError, got {:?}", other),
    }
    match c.interpret_down_reply(MessageKind::Success, String::new()) {
        Err(ClientError::MessageError) => {},
        other => panic!("expected MessageError, got {:?}", other),
    }
}

#[test]
fn up_request_checks_the_local_file_first() {
    let c = connected();
    let ms = c.up_request(&tokens(&["up", "local.txt", "remote.txt"]), true).unwrap();
    assert_eq!(ms.command, MessageKind::Up);
    assert_eq!(ms.arguments, "remote.txt");
    match c.up_request(&tokens(&["up", "local.txt", "remote.txt"]), false) {
        Err(ClientError::FileError(t)) => assert_eq!(t, "local.txt"),
        other => panic!("expected FileError, got {:?}", other),
    }
    let d = disconnected();
    match d.up_request(&tokens(&["up", "local.txt", "remote.txt"]), true) {
        Err(ClientError::ConnectionError) => {},
        other => panic!("expected ConnectionError, got {:?}", other),
    }
}

#[test]
fn up_ready_reply_interpretation() {
    let c = connected();
    assert!(c.interpret_up_ready_reply(MessageKind::Success, String::new()).is_ok());
    match c.interpret_up_ready_reply(MessageKind::Error, String::from("Invalid path: x")) {
        Err(ClientError::UploadError(t)) => assert_eq!(t, "Invalid path: x"),
        other => panic!("expected UploadError, got {:?}", other),
    }
    match c.interpret_up_ready_reply(MessageKind::File, String::new()) {
        Err(ClientError::MessageError) => {},
        other => panic!("expected MessageError, got {:?}", other),
    }
}

#[test]
fn closing_replies_accept_success_and_error() {
    let c = connected();
    assert!(c.interpret_simple_reply(MessageKind::Success).is_ok());
    assert!(c.interpret_simple_reply(MessageKind::Error).is_ok());
    match c.interpret_simple_reply(MessageKind::File) {
        Err(ClientError::MessageError) => {},
        other => panic!("expected MessageError, got {:?}", other),
    }
}

#[test]
fn command_words_and_help_lines() {
    assert_eq!(Command::Connect.get_str(), "connect");
    assert_eq!(Command::Down.get_str(), "down");
    assert_eq!(
        Command::Cd.get_desc(),
        "Changes the current working directory. Usage: cd [path]"
    );
    let listed = Command::iterator();
    assert_eq!(listed.len(), 7);
    assert_eq!(listed[0], Command::Connect);
    assert_eq!(listed[6], Command::Down);
}

#[test]
fn error_texts_are_exact() {
    assert_eq!(
        RootError::ConnectionError.message(),
        "Error: Connection has not been successfully established."
    );
    assert_eq!(
        RootError::FileError(String::from("x.txt")).message(),
        "The passed file x.txt does not exist"
    );
    assert_eq!(
        ClientError::FileError(String::from("x.txt")).message(),
        "Error: Cannot access x.txt: no such file"
    );
    assert_eq!(
        ClientError::DestinationError(String::from("dest")).message(),
        "Invalid path: dest"
    );
    assert_eq!(
        ClientError::DownloadError(String::from("boom")).message(),
        "Error: boom"
    );
    assert_eq!(
        ClientError::WrongArgumentNum(String::from("Help:")).message(),
        "Error: Wrong number of arguments passed. \n Help:"
    );
}
