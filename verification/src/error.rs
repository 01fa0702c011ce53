use vstd::prelude::*;
use vstd::string::*;

verus! {

/// The two kinds of error.
#[derive(Clone, Copy, Debug, PartialEq, Eq, Structural)]
pub enum ErrorKind {
    /// The request could not be made: no credential, or an input that cannot be encoded.
    Configuration,
    /// The request was made and the exchange failed below the application layer.
    Transport,
}

/// Why an operation produced no response.
#[derive(Clone, Copy, Debug, PartialEq, Eq, Structural)]
pub enum ClientError {
    /// The credential file does not exist.
    NotFound,
    /// The credential file exists and could not be read.
    ReadError,
    /// An input could not be encoded into a request.
    Encoding,
    /// No connection: name resolution, connect or TLS failed.
    Connect,
    /// The exchange took longer than the request's timeout.
    Timeout,
    /// The exchange broke off or the peer did not speak HTTP.
    Protocol,
}

impl ClientError {
    /// The kind of this error.
    pub open spec fn kind_of(self) -> ErrorKind {
        match self {
            ClientError::NotFound | ClientError::ReadError | ClientError::Encoding => {
                ErrorKind::Configuration
            },
            ClientError::Connect | ClientError::Timeout | ClientError::Protocol => {
                ErrorKind::Transport
            },
        }
    }

    /// What `describe` says of this error.
    pub open spec fn description(self) -> Seq<char> {
        match self {
            ClientError::NotFound => "configuration error: credential file not found"@,
            ClientError::ReadError => "configuration error: credential file unreadable"@,
            ClientError::Encoding => "configuration error: input cannot be encoded"@,
            ClientError::Connect => "transport error: connection failed"@,
            ClientError::Timeout => "transport error: timed out"@,
            ClientError::Protocol => "transport error: exchange broke off"@,
        }
    }

    /// The kind of this error.
    pub fn kind(&self) -> (kind: ErrorKind)
        ensures
            kind == self.kind_of(),
    {
        match self {
            ClientError::NotFound | ClientError::ReadError | ClientError::Encoding => {
                ErrorKind::Configuration
            },
            ClientError::Connect | ClientError::Timeout | ClientError::Protocol => {
                ErrorKind::Transport
            },
        }
    }

    /// A line of text that names the kind of this error and its cause.
    pub fn describe(&self) -> (text: String)
        ensures
            text@ == self.description(),
    {
        match self {
            ClientError::NotFound => String::from_str(
                "configuration error: credential file not found",
            ),
            ClientError::ReadError => String::from_str(
                "configuration error: credential file unreadable",
            ),
            ClientError::Encoding => String::from_str(
                "configuration error: input cannot be encoded",
            ),
            ClientError::Connect => String::from_str("transport error: connection failed"),
            ClientError::Timeout => String::from_str("transport error: timed out"),
            ClientError::Protocol => String::from_str("transport error: exchange broke off"),
        }
    }
}

} // verus!
