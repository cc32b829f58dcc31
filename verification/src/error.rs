//! The ways in which a connection attempt ends without a client.

use vstd::prelude::*;

verus! {

/// The kind of a failed connection attempt.
#[derive(Clone, Copy, Debug, PartialEq, Eq, Structural)]
pub enum ErrorKind {
    /// A certificate or macaroon file could not be read.
    ReadFile,
    /// The certificate source was read but is no PEM.
    ParseCert,
    /// The address names no endpoint.
    InvalidAddress,
    /// The TLS layer refused its configuration.
    TlsConfig,
    /// No connection to the node could be made.
    Connect,
}

/// What a connection error says, as a mathematical value.
pub enum ConnectFailure {
    ReadFile { file: Seq<char>, error: Seq<char> },
    ParseCert { file: Seq<char>, error: Seq<char> },
    InvalidAddress { address: Seq<char>, error: Seq<char> },
    TlsConfig { error: Seq<char> },
    Connect { address: Seq<char>, error: Seq<char> },
}

impl ConnectFailure {
    /// The step that failed.
    pub open spec fn kind(self) -> ErrorKind {
        match self {
            ConnectFailure::ReadFile { .. } => ErrorKind::ReadFile,
            ConnectFailure::ParseCert { .. } => ErrorKind::ParseCert,
            ConnectFailure::InvalidAddress { .. } => ErrorKind::InvalidAddress,
            ConnectFailure::TlsConfig { .. } => ErrorKind::TlsConfig,
            ConnectFailure::Connect { .. } => ErrorKind::Connect,
        }
    }

    /// The file or the address that the failure is about; empty for a
    /// failure of the TLS configuration, which is about neither.
    pub open spec fn subject(self) -> Seq<char> {
        match self {
            ConnectFailure::ReadFile { file, .. } => file,
            ConnectFailure::ParseCert { file, .. } => file,
            ConnectFailure::InvalidAddress { address, .. } => address,
            ConnectFailure::TlsConfig { .. } => Seq::empty(),
            ConnectFailure::Connect { address, .. } => address,
        }
    }

    /// The text of the underlying error.
    pub open spec fn cause(self) -> Seq<char> {
        match self {
            ConnectFailure::ReadFile { error, .. } => error,
            ConnectFailure::ParseCert { error, .. } => error,
            ConnectFailure::InvalidAddress { error, .. } => error,
            ConnectFailure::TlsConfig { error } => error,
            ConnectFailure::Connect { error, .. } => error,
        }
    }

    /// The line shown to a user.
    pub open spec fn message(self) -> Seq<char> {
        match self {
            ConnectFailure::ReadFile { file, .. } => "failed to read file "@ + file,
            ConnectFailure::ParseCert { file, .. } => "failed to parse certificate "@ + file,
            ConnectFailure::InvalidAddress { address, .. } => "invalid address "@ + address,
            ConnectFailure::TlsConfig { .. } => "failed to configure TLS"@,
            ConnectFailure::Connect { address, .. } => "failed to connect to "@ + address,
        }
    }
}

/// The variants of a connection error. A file is named by its path, an
/// underlying error by its text.
#[derive(Debug)]
pub enum LndInternalConnectError {
    ReadFile { file: String, error: String },
    ParseCert { file: String, error: String },
    InvalidAddress { address: String, error: String },
    TlsConfig(String),
    Connect { address: String, error: String },
}

impl View for LndInternalConnectError {
    type V = ConnectFailure;

    open spec fn view(&self) -> ConnectFailure {
        match self {
            LndInternalConnectError::ReadFile { file, error } => ConnectFailure::ReadFile {
                file: file@,
                error: error@,
            },
            LndInternalConnectError::ParseCert { file, error } => ConnectFailure::ParseCert {
                file: file@,
                error: error@,
            },
            LndInternalConnectError::InvalidAddress {
                address,
                error,
            } => ConnectFailure::InvalidAddress { address: address@, error: error@ },
            LndInternalConnectError::TlsConfig(error) => ConnectFailure::TlsConfig {
                error: error@,
            },
            LndInternalConnectError::Connect { address, error } => ConnectFailure::Connect {
                address: address@,
                error: error@,
            },
        }
    }
}

/// Error that could happen during connecting to LND.
///
/// Each error says which step failed, on which file or address, and why.
#[derive(Debug)]
pub struct LndConnectError {
    pub internal: LndInternalConnectError,
}

impl View for LndConnectError {
    type V = ConnectFailure;

    open spec fn view(&self) -> ConnectFailure {
        self.internal@
    }
}

impl From<LndInternalConnectError> for LndConnectError {
    fn from(value: LndInternalConnectError) -> (ret: Self) {
        LndConnectError { internal: value }
    }
}

impl vstd::std_specs::convert::FromSpecImpl<LndInternalConnectError> for LndConnectError {
    open spec fn obeys_from_spec() -> bool {
        true
    }

    open spec fn from_spec(value: LndInternalConnectError) -> Self {
        LndConnectError { internal: value }
    }
}

impl LndConnectError {
    /// The step that failed.
    pub fn kind(&self) -> (kind: ErrorKind)
        ensures
            kind == self@.kind(),
    {
        match &self.internal {
            LndInternalConnectError::ReadFile { .. } => ErrorKind::ReadFile,
            LndInternalConnectError::ParseCert { .. } => ErrorKind::ParseCert,
            LndInternalConnectError::InvalidAddress { .. } => ErrorKind::InvalidAddress,
            LndInternalConnectError::TlsConfig(_) => ErrorKind::TlsConfig,
            LndInternalConnectError::Connect { .. } => ErrorKind::Connect,
        }
    }

    /// The line shown to a user: what failed, and on which file or address.
    pub fn message(&self) -> (text: String)
        ensures
            text@ == self@.message(),
    {
        match &self.internal {
            LndInternalConnectError::ReadFile { file, .. } => String::from_str(
                "failed to read file ",
            ).concat(file.as_str()),
            LndInternalConnectError::ParseCert { file, .. } => String::from_str(
                "failed to parse certificate ",
            ).concat(file.as_str()),
            LndInternalConnectError::InvalidAddress { address, .. } => String::from_str(
                "invalid address ",
            ).concat(address.as_str()),
            LndInternalConnectError::TlsConfig(_) => String::from_str("failed to configure TLS"),
            LndInternalConnectError::Connect { address, .. } => String::from_str(
                "failed to connect to ",
            ).concat(address.as_str()),
        }
    }

    /// The text of the underlying error.
    pub fn source(&self) -> (cause: &String)
        ensures
            cause@ == self@.cause(),
    {
        match &self.internal {
            LndInternalConnectError::ReadFile { error, .. } => error,
            LndInternalConnectError::ParseCert { error, .. } => error,
            LndInternalConnectError::InvalidAddress { error, .. } => error,
            LndInternalConnectError::TlsConfig(error) => error,
            LndInternalConnectError::Connect { error, .. } => error,
        }
    }
}

/// What reading a file gave, as a mathematical value: its contents, or the
/// text of the error.
pub open spec fn read_view(read: Result<Vec<u8>, String>) -> Result<Seq<u8>, Seq<char>> {
    match read {
        Ok(contents) => Ok(contents@),
        Err(cause) => Err(cause@),
    }
}

} // verus!
