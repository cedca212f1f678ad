//! Failures of the library, the text shown for each, and the stable code a
//! front end keys its feedback on.

use vstd::prelude::*;
use crate::text::{decimal, joined, u16_text};

verus! {

/// A failure while building or stopping one proxy server.
#[derive(Debug)]
pub enum ProxyError {
    /// The listen address does not parse as a socket address.
    InvalidAddress(String),
    /// Key generation, signing or encoding of the certificate failed.
    CertificateError(String),
    /// The server task ended abnormally while being stopped.
    StopError(String),
    /// The outbound HTTP client could not be built.
    ClientError(String),
}

pub open spec fn proxy_error_message(e: ProxyError) -> Seq<char> {
    match e {
        ProxyError::InvalidAddress(s) => "Invalid address: "@ + s@,
        ProxyError::CertificateError(s) => "Failed to generate certificate: "@ + s@,
        ProxyError::StopError(s) => "Failed to stop proxy: "@ + s@,
        ProxyError::ClientError(s) => "Failed to build HTTP client: "@ + s@,
    }
}

impl ProxyError {
    /// The human-readable description of the failure.
    pub fn message(&self) -> (r: String)
        ensures
            r@ == proxy_error_message(*self),
    {
        match self {
            ProxyError::InvalidAddress(s) => joined("Invalid address: ", s.as_str()),
            ProxyError::CertificateError(s) => joined("Failed to generate certificate: ", s.as_str()),
            ProxyError::StopError(s) => joined("Failed to stop proxy: ", s.as_str()),
            ProxyError::ClientError(s) => joined("Failed to build HTTP client: ", s.as_str()),
        }
    }
}

/// A failure of one of the operations offered to the front end.
#[derive(Debug)]
pub enum CommandError {
    /// A configuration with a blank name cannot be stored.
    EmptyName,
    /// A configuration with listen port zero cannot be stored.
    InvalidPort,
    /// Nothing has been stored yet.
    NoConfigs,
    /// The stored configurations could not be read back; holds the cause.
    Corrupt(String),
    /// No stored configuration has this identifier.
    ConfigNotFound(String),
    /// An endpoint with this identifier is already running.
    AlreadyRunning(String),
    /// No endpoint with this identifier is running.
    NotRunning(String),
    /// The listen port cannot be bound.
    PortInUse(u16),
    /// The server could not be created.
    ServerFailed(ProxyError),
    /// The server could not be stopped cleanly.
    StopFailed(ProxyError),
    /// The configuration store failed; holds its description.
    Store(String),
}

pub open spec fn command_message(e: CommandError) -> Seq<char> {
    match e {
        CommandError::EmptyName => "Config name cannot be empty"@,
        CommandError::InvalidPort => "Invalid port number"@,
        CommandError::NoConfigs => "No configs found"@,
        CommandError::Corrupt(s) => "Failed to deserialize configs: "@ + s@,
        CommandError::ConfigNotFound(id) => "Config not found: "@ + id@,
        CommandError::AlreadyRunning(id) => "Proxy already running: "@ + id@,
        CommandError::NotRunning(id) => "Proxy not found: "@ + id@,
        CommandError::PortInUse(p) => "Port "@ + decimal(p as nat) + " is already in use"@,
        CommandError::ServerFailed(e) => "Failed to create proxy server: "@ + proxy_error_message(e),
        CommandError::StopFailed(e) => "Failed to stop proxy: "@ + proxy_error_message(e),
        CommandError::Store(s) => s@,
    }
}

impl CommandError {
    /// The human-readable description of the failure.
    pub fn message(&self) -> (r: String)
        ensures
            r@ == command_message(*self),
    {
        match self {
            CommandError::EmptyName => String::from_str("Config name cannot be empty"),
            CommandError::InvalidPort => String::from_str("Invalid port number"),
            CommandError::NoConfigs => String::from_str("No configs found"),
            CommandError::Corrupt(s) => joined("Failed to deserialize configs: ", s.as_str()),
            CommandError::ConfigNotFound(id) => joined("Config not found: ", id.as_str()),
            CommandError::AlreadyRunning(id) => joined("Proxy already running: ", id.as_str()),
            CommandError::NotRunning(id) => joined("Proxy not found: ", id.as_str()),
            CommandError::PortInUse(p) => {
                let mut r = String::from_str("Port ");
                let digits = u16_text(*p);
                r.append(digits.as_str());
                r.append(" is already in use");
                r
            },
            CommandError::ServerFailed(e) => {
                let inner = e.message();
                joined("Failed to create proxy server: ", inner.as_str())
            },
            CommandError::StopFailed(e) => {
                let inner = e.message();
                joined("Failed to stop proxy: ", inner.as_str())
            },
            CommandError::Store(s) => s.clone(),
        }
    }
}

/// The stable code attached to a reported failure, one for each kind.
#[derive(Debug, Clone, Copy, PartialEq, Eq, Structural)]
pub enum ErrorCode {
    InvalidConfig,
    NotFound,
    DeserializationError,
    AlreadyRunning,
    PortInUse,
    InvalidAddress,
    CertificateError,
    StopError,
    UnknownError,
}

pub open spec fn code_text(c: ErrorCode) -> Seq<char> {
    match c {
        ErrorCode::InvalidConfig => "INVALID_CONFIG"@,
        ErrorCode::NotFound => "NOT_FOUND"@,
        ErrorCode::DeserializationError => "DESERIALIZATION_ERROR"@,
        ErrorCode::AlreadyRunning => "ALREADY_RUNNING"@,
        ErrorCode::PortInUse => "PORT_IN_USE"@,
        ErrorCode::InvalidAddress => "INVALID_ADDRESS"@,
        ErrorCode::CertificateError => "CERTIFICATE_ERROR"@,
        ErrorCode::StopError => "STOP_ERROR"@,
        ErrorCode::UnknownError => "UNKNOWN_ERROR"@,
    }
}

impl ErrorCode {
    /// The code as the front end receives it.
    pub fn as_str(&self) -> (r: &'static str)
        ensures
            r@ == code_text(*self),
    {
        match self {
            ErrorCode::InvalidConfig => "INVALID_CONFIG",
            ErrorCode::NotFound => "NOT_FOUND",
            ErrorCode::DeserializationError => "DESERIALIZATION_ERROR",
            ErrorCode::AlreadyRunning => "ALREADY_RUNNING",
            ErrorCode::PortInUse => "PORT_IN_USE",
            ErrorCode::InvalidAddress => "INVALID_ADDRESS",
            ErrorCode::CertificateError => "CERTIFICATE_ERROR",
            ErrorCode::StopError => "STOP_ERROR",
            ErrorCode::UnknownError => "UNKNOWN_ERROR",
        }
    }
}

/// The code of a server failure.
pub open spec fn proxy_error_code(e: ProxyError) -> ErrorCode {
    match e {
        ProxyError::InvalidAddress(_) => ErrorCode::InvalidAddress,
        ProxyError::CertificateError(_) => ErrorCode::CertificateError,
        ProxyError::StopError(_) => ErrorCode::StopError,
        ProxyError::ClientError(_) => ErrorCode::UnknownError,
    }
}

/// The code of a command failure: by its kind, with store failures under
/// the generic code.
pub open spec fn command_code(e: CommandError) -> ErrorCode {
    match e {
        CommandError::EmptyName => ErrorCode::InvalidConfig,
        CommandError::InvalidPort => ErrorCode::InvalidConfig,
        CommandError::NoConfigs => ErrorCode::NotFound,
        CommandError::Corrupt(_) => ErrorCode::DeserializationError,
        CommandError::ConfigNotFound(_) => ErrorCode::NotFound,
        CommandError::AlreadyRunning(_) => ErrorCode::AlreadyRunning,
        CommandError::NotRunning(_) => ErrorCode::NotFound,
        CommandError::PortInUse(_) => ErrorCode::PortInUse,
        CommandError::ServerFailed(e) => proxy_error_code(e),
        CommandError::StopFailed(e) => proxy_error_code(e),
        CommandError::Store(_) => ErrorCode::UnknownError,
    }
}

impl ProxyError {
    /// The code of the failure.
    pub fn code(&self) -> (r: ErrorCode)
        ensures
            r == proxy_error_code(*self),
    {
        match self {
            ProxyError::InvalidAddress(_) => ErrorCode::InvalidAddress,
            ProxyError::CertificateError(_) => ErrorCode::CertificateError,
            ProxyError::StopError(_) => ErrorCode::StopError,
            ProxyError::ClientError(_) => ErrorCode::UnknownError,
        }
    }
}

impl CommandError {
    /// The code of the failure.
    pub fn code(&self) -> (r: ErrorCode)
        ensures
            r == command_code(*self),
    {
        match self {
            CommandError::EmptyName => ErrorCode::InvalidConfig,
            CommandError::InvalidPort => ErrorCode::InvalidConfig,
            CommandError::NoConfigs => ErrorCode::NotFound,
            CommandError::Corrupt(_) => ErrorCode::DeserializationError,
            CommandError::ConfigNotFound(_) => ErrorCode::NotFound,
            CommandError::AlreadyRunning(_) => ErrorCode::AlreadyRunning,
            CommandError::NotRunning(_) => ErrorCode::NotFound,
            CommandError::PortInUse(_) => ErrorCode::PortInUse,
            CommandError::ServerFailed(e) => e.code(),
            CommandError::StopFailed(e) => e.code(),
            CommandError::Store(_) => ErrorCode::UnknownError,
        }
    }
}

/// A failure as reported to the front end: its description and its code.
#[derive(Debug)]
pub struct ErrorResponse {
    pub error: String,
    pub code: ErrorCode,
}

impl ErrorResponse {
    /// The report of a command failure.
    pub fn from_error(e: &CommandError) -> (r: ErrorResponse)
        ensures
            r.error@ == command_message(*e),
            r.code == command_code(*e),
    {
        ErrorResponse { error: e.message(), code: e.code() }
    }
}

} // verus!
