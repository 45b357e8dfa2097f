//! The client session: validating user commands, building the request
//! messages, and interpreting the server's replies.
//!
//! Each user command maps onto one wire-message exchange. The functions here
//! decide everything that does not touch a socket or the local filesystem:
//! which command a token names, whether the argument count is right, whether
//! the server address is well-formed, what request to send, and how a reply
//! changes the session. The caller performs the exchanges and reports the
//! facts the decisions need.

use vstd::prelude::*;

use crate::client::errors::ClientError;
use crate::client::message::sender::MessageSender;
use crate::client::utilities::Command;
use crate::message::MessageKind;
use vstd::string::StringExecFns;

verus! {

/// A decimal digit.
pub open spec fn is_digit(c: char) -> bool {
    '0' <= c && c <= '9'
}

/// Every character is a decimal digit.
pub open spec fn all_digits(s: Seq<char>) -> bool {
    forall|i: int| 0 <= i < s.len() ==> is_digit(#[trigger] s[i])
}

/// The length of the longest digit run heading the text.
pub open spec fn digit_prefix_len(s: Seq<char>) -> int
    decreases s.len(),
{
    if s.len() == 0 || !is_digit(s[0]) {
        0
    } else {
        1 + digit_prefix_len(s.drop_first())
    }
}

/// Whether one group of a dotted address heads the text: a run of `lo` to
/// `hi` digits followed by the separator `sep`.
pub open spec fn group_heads(s: Seq<char>, lo: int, hi: int, sep: char) -> bool {
    let l = digit_prefix_len(s);
    lo <= l <= hi && l < s.len() && s[l] == sep
}

/// The text after the leading group and its separator.
pub open spec fn after_group(s: Seq<char>) -> Seq<char> {
    s.skip(digit_prefix_len(s) + 1)
}

/// A well-formed socket address: four groups of one to three digits separated
/// by dots, a colon, and one to five digits for the port.
pub open spec fn spec_socket_addr(s: Seq<char>) -> bool {
    group_heads(s, 1, 3, '.') && {
        let s2 = after_group(s);
        group_heads(s2, 1, 3, '.') && {
            let s3 = after_group(s2);
            group_heads(s3, 1, 3, '.') && {
                let s4 = after_group(s3);
                group_heads(s4, 1, 3, ':') && {
                    let s5 = after_group(s4);
                    1 <= s5.len() <= 5 && all_digits(s5)
                }
            }
        }
    }
}

/// Whether a user-typed server address is well-formed.
///
/// Relies on the regex crate: `Regex::is_match` with the anchored pattern
/// `^[0-9]{1,3}\.[0-9]{1,3}\.[0-9]{1,3}\.[0-9]{1,3}:[0-9]{1,5}$`, which holds
/// of a text exactly when it is four one-to-three digit groups separated by
/// dots, then a colon and a one-to-five digit port.
#[verifier::external_body]
fn matches_socket_addr(addr: &str) -> (r: bool)
    ensures
        r == spec_socket_addr(addr@),
{
    let pattern = r"^[0-9]{1,3}\.[0-9]{1,3}\.[0-9]{1,3}\.[0-9]{1,3}:[0-9]{1,5}$";
    let re = regex::Regex::new(pattern).expect("the fixed address pattern compiles");
    re.is_match(addr)
}

/// Which command a token names.
pub open spec fn spec_parse_command(s: Seq<char>) -> Option<Command> {
    if s == "connect"@ {
        Some(Command::Connect)
    } else if s == "help"@ {
        Some(Command::Help)
    } else if s == "login"@ {
        Some(Command::Login)
    } else if s == "mkdir"@ {
        Some(Command::Mkdir)
    } else if s == "cd"@ {
        Some(Command::Cd)
    } else if s == "ls"@ {
        Some(Command::Ls)
    } else if s == "up"@ {
        Some(Command::Up)
    } else if s == "down"@ {
        Some(Command::Down)
    } else if s == "status"@ {
        Some(Command::Status)
    } else {
        None
    }
}

/// Parses the first token of a command line.
pub fn parse_command(token: &String) -> (r: Option<Command>)
    ensures
        r == spec_parse_command(token@),
{
    if *token == "connect".to_owned() {
        Some(Command::Connect)
    } else if *token == "help".to_owned() {
        Some(Command::Help)
    } else if *token == "login".to_owned() {
        Some(Command::Login)
    } else if *token == "mkdir".to_owned() {
        Some(Command::Mkdir)
    } else if *token == "cd".to_owned() {
        Some(Command::Cd)
    } else if *token == "ls".to_owned() {
        Some(Command::Ls)
    } else if *token == "up".to_owned() {
        Some(Command::Up)
    } else if *token == "down".to_owned() {
        Some(Command::Down)
    } else if *token == "status".to_owned() {
        Some(Command::Status)
    } else {
        None
    }
}

/// Whether a command needs the established connection before it can run.
pub open spec fn spec_needs_stream(c: Command) -> bool {
    match c {
        Command::Connect | Command::Help | Command::Status => false,
        _ => true,
    }
}

/// Whether this command needs the established connection.
pub fn needs_stream(c: Command) -> (r: bool)
    ensures
        r == spec_needs_stream(c),
{
    match c {
        Command::Connect | Command::Help | Command::Status => false,
        _ => true,
    }
}

/// The client's session state: whether a connection stands, the server's
/// address, and the working directory display the server last announced.
#[derive(Debug)]
pub struct Connection {
    pub connected: bool,
    pub addr: String,
    pub cwd: String,
}

impl Connection {
    /// Validates a `connect` command: exactly one address token, in the
    /// well-formed dotted form. Returns the address to dial.
    pub fn connect_request(&self, tokens: &Vec<String>) -> (r: Result<String, ClientError>)
        ensures
            r is Ok <==> tokens@.len() == 2 && spec_socket_addr(tokens@[1]@),
            r is Ok ==> r->Ok_0@ == tokens@[1]@,
            r is Err ==> (r->Err_0 is WrongArgumentNum <==> tokens@.len() != 2),
            r is Err && tokens@.len() == 2 ==> r->Err_0 is InvalidAddress,
    {
        let help: String =
            "Help:\n\tconnect [socket-addr]\n\t[socket-addr]: 'ip-addr:port' e.g. 127.0.0.1:12800".to_owned();
        if tokens.len() != 2 {
            return Err(ClientError::WrongArgumentNum(help));
        }
        if !matches_socket_addr(tokens[1].as_str()) {
            return Err(ClientError::InvalidAddress(help));
        }
        Ok(tokens[1].clone())
    }

    /// Applies the welcome message that ends the handshake: a `Success` reply
    /// stores the server's display path, the private-port address, and marks
    /// the session connected; anything else leaves the session unchanged and
    /// is the message error it is.
    pub fn apply_welcome(&mut self, kind: MessageKind, arguments: String, new_addr: String) -> (r:
        Result<(), ClientError>)
        ensures
            kind == MessageKind::Success ==> r is Ok && final(self).connected && final(self).cwd
                == arguments && final(self).addr == new_addr,
            kind != MessageKind::Success ==> r is Err && r->Err_0 is MessageError && *final(self)
                == *old(self),
    {
        match kind {
            MessageKind::Success => {
                self.cwd = arguments;
                self.addr = new_addr;
                self.connected = true;
                Ok(())
            },
            _ => Err(ClientError::MessageError),
        }
    }

    /// Validates a `cd` command and builds its request message.
    pub fn cd_request(&self, tokens: &Vec<String>) -> (r: Result<MessageSender, ClientError>)
        ensures
            r is Ok <==> tokens@.len() == 2 && self.connected,
            r is Ok ==> r->Ok_0.command == MessageKind::Cd && r->Ok_0.arguments@ == tokens@[1]@
                && r->Ok_0.file_path is None,
            r is Err ==> (r->Err_0 is WrongArgumentNum <==> tokens@.len() != 2),
            r is Err && tokens@.len() == 2 ==> r->Err_0 is ConnectionError,
    {
        let help: String = "Help:\n\tcd [file path]".to_owned();
        if tokens.len() != 2 {
            return Err(ClientError::WrongArgumentNum(help));
        }
        if !self.connected {
            return Err(ClientError::ConnectionError);
        }
        Ok(MessageSender::new(MessageKind::Cd, tokens[1].clone(), None))
    }

    /// Applies the server's reply to a `cd`: `Success` stores the new display
    /// path, the server's `Error` leaves the session unchanged (its text is
    /// shown to the user), anything else is the message error it is.
    pub fn apply_cd_reply(&mut self, kind: MessageKind, arguments: String) -> (r: Result<
        (),
        ClientError,
    >)
        ensures
            kind == MessageKind::Success ==> r is Ok && final(self).cwd == arguments
                && final(self).connected == old(self).connected
                && final(self).addr == old(self).addr,
            kind == MessageKind::Error ==> r is Ok && *final(self) == *old(self),
            kind != MessageKind::Success && kind != MessageKind::Error ==> r is Err
                && r->Err_0 is MessageError && *final(self) == *old(self),
    {
        match kind {
            MessageKind::Success => {
                self.cwd = arguments;
                Ok(())
            },
            MessageKind::Error => Ok(()),
            _ => Err(ClientError::MessageError),
        }
    }

    /// Validates an `ls` command and builds its request message.
    pub fn ls_request(&self, tokens: &Vec<String>) -> (r: Result<MessageSender, ClientError>)
        ensures
            r is Ok <==> tokens@.len() == 1 && self.connected,
            r is Ok ==> r->Ok_0.command == MessageKind::Ls && r->Ok_0.arguments@ == Seq::<
                char,
            >::empty() && r->Ok_0.file_path is None,
            r is Err ==> (r->Err_0 is WrongArgumentNum <==> tokens@.len() != 1),
            r is Err && tokens@.len() == 1 ==> r->Err_0 is ConnectionError,
    {
        let help: String = "Help:\n\tls".to_owned();
        if tokens.len() != 1 {
            return Err(ClientError::WrongArgumentNum(help));
        }
        if !self.connected {
            return Err(ClientError::ConnectionError);
        }
        Ok(MessageSender::new(MessageKind::Ls, String::new(), None))
    }

    /// Validates a `mkdir` command and builds its request message.
    pub fn mkdir_request(&self, tokens: &Vec<String>) -> (r: Result<MessageSender, ClientError>)
        ensures
            r is Ok <==> tokens@.len() == 2 && self.connected,
            r is Ok ==> r->Ok_0.command == MessageKind::Mkdir && r->Ok_0.arguments@ == tokens@[1]@
                && r->Ok_0.file_path is None,
            r is Err ==> (r->Err_0 is WrongArgumentNum <==> tokens@.len() != 2),
            r is Err && tokens@.len() == 2 ==> r->Err_0 is ConnectionError,
    {
        let help: String = "Help:\n\tmkdir".to_owned();
        if tokens.len() != 2 {
            return Err(ClientError::WrongArgumentNum(help));
        }
        if !self.connected {
            return Err(ClientError::ConnectionError);
        }
        Ok(MessageSender::new(MessageKind::Mkdir, tokens[1].clone(), None))
    }

    /// The local path a download lands in: an existing directory receives the
    /// file under its remote name, anything else names the file itself.
    pub fn down_destination(&self, dest: &String, dest_is_dir: bool, file_name: &String) -> (r:
        String)
        ensures
            dest_is_dir ==> r@ == dest@ + "/"@ + file_name@,
            !dest_is_dir ==> r@ == dest@,
    {
        if dest_is_dir {
            let mut r = dest.clone();
            r.append("/");
            r.append(file_name.as_str());
            r
        } else {
            dest.clone()
        }
    }

    /// Validates the local destination of a download before any round trip:
    /// it must not be a directory, and it must exist or have a directory as
    /// its parent.
    pub fn validate_down_destination(
        &self,
        dest_token: &String,
        loc_exists: bool,
        loc_is_dir: bool,
        parent_is_dir: bool,
    ) -> (r: Result<(), ClientError>)
        ensures
            r is Ok <==> !((!loc_exists && !parent_is_dir) || loc_is_dir),
            r is Err ==> (r->Err_0 matches ClientError::DestinationError(t) && t@ == dest_token@),
    {
        if (!loc_exists && !parent_is_dir) || loc_is_dir {
            Err(ClientError::DestinationError(dest_token.clone()))
        } else {
            Ok(())
        }
    }

    /// Validates a `down` command and builds its request message. The local
    /// destination is validated separately, before the request is sent.
    pub fn down_request(&self, tokens: &Vec<String>) -> (r: Result<MessageSender, ClientError>)
        ensures
            r is Ok <==> tokens@.len() == 3 && self.connected,
            r is Ok ==> r->Ok_0.command == MessageKind::Down && r->Ok_0.arguments@ == tokens@[1]@
                && r->Ok_0.file_path is None,
            r is Err ==> (r->Err_0 is WrongArgumentNum <==> tokens@.len() != 3),
            r is Err && tokens@.len() == 3 ==> r->Err_0 is ConnectionError,
    {
        let help: String =
            "Help:\n    \tdown [server-file] [local-dest]\n    \t[server-file]: 'quicksort.pdf'\n    \t[local-dest]: '/home/user/parfs-receive/'".to_owned();
        if tokens.len() != 3 {
            return Err(ClientError::WrongArgumentNum(help));
        }
        if !self.connected {
            return Err(ClientError::ConnectionError);
        }
        Ok(MessageSender::new(MessageKind::Down, tokens[1].clone(), None))
    }

    /// Interprets the server's first reply to a `down`: a `File` message
    /// means the payload follows, the server's `Error` is a download error
    /// carrying its text, anything else is the message error it is.
    pub fn interpret_down_reply(&self, kind: MessageKind, arguments: String) -> (r: Result<
        (),
        ClientError,
    >)
        ensures
            kind == MessageKind::File ==> r is Ok,
            kind == MessageKind::Error ==> (r matches Err(e)
                && e matches ClientError::DownloadError(t) && t == arguments),
            kind != MessageKind::File && kind != MessageKind::Error ==> (r matches Err(e)
                && e is MessageError),
    {
        match kind {
            MessageKind::File => Ok(()),
            MessageKind::Error => Err(ClientError::DownloadError(arguments)),
            _ => Err(ClientError::MessageError),
        }
    }

    /// Validates an `up` command and builds its request message.
    /// `local_is_file` reports whether the named local file exists as a file.
    pub fn up_request(&self, tokens: &Vec<String>, local_is_file: bool) -> (r: Result<
        MessageSender,
        ClientError,
    >)
        ensures
            r is Ok <==> self.connected && tokens@.len() == 3 && local_is_file,
            r is Ok ==> r->Ok_0.command == MessageKind::Up && r->Ok_0.arguments@ == tokens@[2]@
                && r->Ok_0.file_path is None,
            !self.connected ==> (r matches Err(e) && e is ConnectionError),
            self.connected && tokens@.len() != 3 ==> (r matches Err(e) && e is WrongArgumentNum),
            self.connected && tokens@.len() == 3 && !local_is_file ==> (r matches Err(e)
                && e matches ClientError::FileError(t) && t@ == tokens@[1]@),
    {
        let help: String =
            "Help:\n    \tup [local-file] [server-file]\n    \t[local-file]: 'quicksort.pdf'\n    \t[server-file]: 'quicksort.pdf'".to_owned();
        if !self.connected {
            return Err(ClientError::ConnectionError);
        }
        if tokens.len() != 3 {
            return Err(ClientError::WrongArgumentNum(help));
        }
        if !local_is_file {
            return Err(ClientError::FileError(tokens[1].clone()));
        }
        Ok(MessageSender::new(MessageKind::Up, tokens[2].clone(), None))
    }

    /// Interprets the server's ready-to-receive reply to an `up`: `Success`
    /// means the file may follow, the server's `Error` is an upload error
    /// carrying its text, anything else is the message error it is.
    pub fn interpret_up_ready_reply(&self, kind: MessageKind, arguments: String) -> (r: Result<
        (),
        ClientError,
    >)
        ensures
            kind == MessageKind::Success ==> r is Ok,
            kind == MessageKind::Error ==> (r matches Err(e)
                && e matches ClientError::UploadError(t) && t == arguments),
            kind != MessageKind::Success && kind != MessageKind::Error ==> (r matches Err(e)
                && e is MessageError),
    {
        match kind {
            MessageKind::Success => Ok(()),
            MessageKind::Error => Err(ClientError::UploadError(arguments)),
            _ => Err(ClientError::MessageError),
        }
    }

    /// Interprets a closing `Success`/`Error` reply (to `ls`, `mkdir`, or the
    /// upload confirmation): both end the exchange (an `Error`'s text is
    /// shown to the user), anything else is the message error it is.
    pub fn interpret_simple_reply(&self, kind: MessageKind) -> (r: Result<(), ClientError>)
        ensures
            kind == MessageKind::Success || kind == MessageKind::Error ==> r is Ok,
            kind != MessageKind::Success && kind != MessageKind::Error ==> (r matches Err(e)
                && e is MessageError),
    {
        match kind {
            MessageKind::Success => Ok(()),
            MessageKind::Error => Ok(()),
            _ => Err(ClientError::MessageError),
        }
    }
}

} // verus!
