use vstd::prelude::*;

verus! {

/// Every failure that a staging or relay operation can report.
///
/// Each variant carries the description that the caller sees.
#[derive(Debug)]
pub enum ErrorKind {
    /// The payload is not valid base64 text.
    Decode(String),
    /// The file name could escape the working directory or names no file.
    InvalidFilename(String),
    /// Creating the working directory or writing the file failed.
    Io(String),
    /// The request could not be sent or the connection failed.
    Transport(String),
    /// The response arrived but its body could not be read.
    BodyRead(String),
}

/// The text shown for a rejected file name.
pub open spec fn invalid_filename_message(name: Seq<char>) -> Seq<char> {
    "invalid file name: "@ + name
}

impl ErrorKind {
    /// The human-readable description of this failure.
    pub open spec fn message_view(&self) -> Seq<char> {
        match self {
            ErrorKind::Decode(m) => m@,
            ErrorKind::InvalidFilename(name) => invalid_filename_message(name@),
            ErrorKind::Io(m) => m@,
            ErrorKind::Transport(m) => m@,
            ErrorKind::BodyRead(m) => m@,
        }
    }

    /// Turns the failure into the string that crosses the command boundary.
    pub fn message(&self) -> (r: String)
        ensures
            r@ == self.message_view(),
    {
        match self {
            ErrorKind::Decode(m) => m.clone(),
            ErrorKind::InvalidFilename(name) => {
                let mut text = String::from_str("invalid file name: ");
                text.append(name.as_str());
                text
            },
            ErrorKind::Io(m) => m.clone(),
            ErrorKind::Transport(m) => m.clone(),
            ErrorKind::BodyRead(m) => m.clone(),
        }
    }
}

} // verus!
