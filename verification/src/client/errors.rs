//! Errors the client session reports to its user. These never travel on the
//! wire: each carries the text shown locally, built by [`ClientError::message`].

use vstd::prelude::*;

use vstd::string::StringExecFns;

verus! {

/// What went wrong while handling a user command.
#[derive(Debug)]
pub enum ClientError {
    InvalidCommand,
    InvalidAddress(String),
    ConnectionError,
    WrongArgumentNum(String),
    IOError(String),
    MessageError,
    DownloadError(String),
    WriteError(String),
    UploadError(String),
    FileError(String),
    DestinationError(String),
}

impl ClientError {
    /// The text shown to the user for this error.
    pub fn message(&self) -> (r: String)
        ensures
            r@ == match self {
                ClientError::ConnectionError => "Error: Connection has not been successfully established."@,
                ClientError::InvalidCommand => "Error: Command was invalid. Type 'help' for a list of commands."@,
                ClientError::InvalidAddress(help) => "Error: Socket address is invalid. \n "@
                    + help@,
                ClientError::WrongArgumentNum(help) => "Error: Wrong number of arguments passed. \n "@
                    + help@,
                ClientError::IOError(error) => "Error: There was an error processing the command. Please try again! \n "@
                    + error@,
                ClientError::MessageError => "Error: No valid message was receieved from server."@,
                ClientError::DownloadError(error) => "Error: "@ + error@,
                ClientError::WriteError(error) => "Error: There was an issue the file to the local machine. \n "@
                    + error@,
                ClientError::UploadError(error) => "Error: "@ + error@,
                ClientError::FileError(file) => "Error: Cannot access "@ + file@
                    + ": no such file"@,
                ClientError::DestinationError(error) => "Invalid path: "@ + error@,
            },
    {
        match self {
            ClientError::ConnectionError => "Error: Connection has not been successfully established.".to_owned(),
            ClientError::InvalidCommand => "Error: Command was invalid. Type 'help' for a list of commands.".to_owned(),
            ClientError::InvalidAddress(help) => {
                let mut s: String = "Error: Socket address is invalid. \n ".to_owned();
                s.append(help.as_str());
                s
            },
            ClientError::WrongArgumentNum(help) => {
                let mut s: String =
                    "Error: Wrong number of arguments passed. \n ".to_owned();
                s.append(help.as_str());
                s
            },
            ClientError::IOError(error) => {
                let mut s: String =
                    "Error: There was an error processing the command. Please try again! \n ".to_owned();
                s.append(error.as_str());
                s
            },
            ClientError::MessageError => "Error: No valid message was receieved from server.".to_owned(),
            ClientError::DownloadError(error) => {
                let mut s: String = "Error: ".to_owned();
                s.append(error.as_str());
                s
            },
            ClientError::WriteError(error) => {
                let mut s: String =
                    "Error: There was an issue the file to the local machine. \n ".to_owned();
                s.append(error.as_str());
                s
            },
            ClientError::UploadError(error) => {
                let mut s: String = "Error: ".to_owned();
                s.append(error.as_str());
                s
            },
            ClientError::FileError(file) => {
                let mut s: String = "Error: Cannot access ".to_owned();
                s.append(file.as_str());
                s.append(": no such file");
                s
            },
            ClientError::DestinationError(error) => {
                let mut s: String = "Invalid path: ".to_owned();
                s.append(error.as_str());
                s
            },
        }
    }
}

} // verus!
