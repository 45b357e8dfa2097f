//! The client's command vocabulary and its help texts.

use vstd::prelude::*;

verus! {

/// A user command the client understands.
#[derive(Debug, Clone, Copy, PartialEq, Eq, Structural)]
pub enum Command {
    Connect,
    Help,
    Login,
    Mkdir,
    Cd,
    Ls,
    Up,
    Down,
    Status,
}

/// The help line of a command.
pub open spec fn spec_desc(c: Command) -> Seq<char> {
    match c {
        Command::Connect => "Establishes a connection to a file server. Usage: connect [socket-addr]"@,
        Command::Login => "Logs in. Usage: (fill in)"@,
        Command::Mkdir => "Makes a folder in the current working directory. Usage: mkdir [name]"@,
        Command::Cd => "Changes the current working directory. Usage: cd [path]"@,
        Command::Ls => "Lists the files in the current working directory. Usage: ls"@,
        Command::Up => "Uploads a file from the local computer to the server. Usage: up [path-to-file]"@,
        Command::Down => "Downloads a file from the server to the local computer. Usage: (placeholder)"@,
        _ => "An error has occurred. Please contact your local system adminstrator."@,
    }
}

/// The word a command is typed as.
pub open spec fn spec_str(c: Command) -> Seq<char> {
    match c {
        Command::Connect => "connect"@,
        Command::Login => "login"@,
        Command::Mkdir => "mkdir"@,
        Command::Cd => "cd"@,
        Command::Ls => "ls"@,
        Command::Up => "up"@,
        Command::Down => "down"@,
        _ => "An error has occurred. Please contact your local system adminstrator."@,
    }
}

impl Command {
    /// The help line of this command.
    pub fn get_desc(&self) -> (r: String)
        ensures
            r@ == spec_desc(*self),
    {
        match self {
            Command::Connect => "Establishes a connection to a file server. Usage: connect [socket-addr]".to_owned(),
            Command::Login => "Logs in. Usage: (fill in)".to_owned(),
            Command::Mkdir => "Makes a folder in the current working directory. Usage: mkdir [name]".to_owned(),
            Command::Cd => "Changes the current working directory. Usage: cd [path]".to_owned(),
            Command::Ls => "Lists the files in the current working directory. Usage: ls".to_owned(),
            Command::Up => "Uploads a file from the local computer to the server. Usage: up [path-to-file]".to_owned(),
            Command::Down => "Downloads a file from the server to the local computer. Usage: (placeholder)".to_owned(),
            _ => "An error has occurred. Please contact your local system adminstrator.".to_owned(),
        }
    }

    /// The word this command is typed as.
    pub fn get_str(&self) -> (r: String)
        ensures
            r@ == spec_str(*self),
    {
        match self {
            Command::Connect => "connect".to_owned(),
            Command::Login => "login".to_owned(),
            Command::Mkdir => "mkdir".to_owned(),
            Command::Cd => "cd".to_owned(),
            Command::Ls => "ls".to_owned(),
            Command::Up => "up".to_owned(),
            Command::Down => "down".to_owned(),
            _ => "An error has occurred. Please contact your local system adminstrator.".to_owned(),
        }
    }

    /// The commands listed by `help`, in the order they are shown.
    pub fn iterator() -> (r: Vec<Command>)
        ensures
            r@ == seq![
                Command::Connect,
                Command::Login,
                Command::Mkdir,
                Command::Cd,
                Command::Ls,
                Command::Up,
                Command::Down,
            ],
    {
        let mut r: Vec<Command> = Vec::new();
        r.push(Command::Connect);
        r.push(Command::Login);
        r.push(Command::Mkdir);
        r.push(Command::Cd);
        r.push(Command::Ls);
        r.push(Command::Up);
        r.push(Command::Down);
        proof {
            assert(r@ =~= seq![
                Command::Connect,
                Command::Login,
                Command::Mkdir,
                Command::Cd,
                Command::Ls,
                Command::Up,
                Command::Down,
            ]);
        }
        r
    }
}

} // verus!
