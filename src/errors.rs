use vstd::prelude::*;
use vstd::string::StringExecFns;

verus! {

/// Error taxonomy of the gateway. Each variant carries a human-readable
/// message; failures of the transport or of outside libraries are wrapped
/// into the nearest domain variant with their message preserved.
#[derive(Debug, Clone)]
pub enum AppError {
    SSHConnectionFailed(String),
    SSHAuthenticationFailed(String),
    SessionNotFound(String),
    InvalidConfiguration(String),
    FileOperationFailed(String),
    WebSocketError(String),
    TransferError(String),
    PermissionDenied(String),
    ResourceExhausted(String),
    TimeoutError(String),
    ValidationError(String),
    InternalError(String),
    OperationFailed(String),
    NotFound(String),
    IOError(String),
    SSH2Error(String),
    SerializationError(String),
}

#[derive(Debug, Clone, Copy, PartialEq, Eq, Structural)]
pub enum ErrorSeverity {
    Low,
    Medium,
    High,
    Critical,
}

pub type AppResult<T> = Result<T, AppError>;

/// The wire code of each error kind.
pub open spec fn code_of(e: AppError) -> Seq<char> {
    match e {
        AppError::SSHConnectionFailed(_) => "CONNECTION_FAILED"@,
        AppError::SSHAuthenticationFailed(_) => "AUTH_FAILED"@,
        AppError::SessionNotFound(_) => "SESSION_NOT_FOUND"@,
        AppError::InvalidConfiguration(_) => "INVALID_CONFIG"@,
        AppError::FileOperationFailed(_) => "FILE_OPERATION_FAILED"@,
        AppError::WebSocketError(_) => "WEBSOCKET_ERROR"@,
        AppError::TransferError(_) => "TRANSFER_ERROR"@,
        AppError::PermissionDenied(_) => "PERMISSION_DENIED"@,
        AppError::ResourceExhausted(_) => "RESOURCE_EXHAUSTED"@,
        AppError::TimeoutError(_) => "TIMEOUT_ERROR"@,
        AppError::ValidationError(_) => "VALIDATION_ERROR"@,
        AppError::InternalError(_) => "INTERNAL_ERROR"@,
        AppError::OperationFailed(_) => "OPERATION_FAILED"@,
        AppError::NotFound(_) => "NOT_FOUND"@,
        AppError::IOError(_) => "IO_ERROR"@,
        AppError::SSH2Error(_) => "SSH2_ERROR"@,
        AppError::SerializationError(_) => "SERIALIZATION_ERROR"@,
    }
}

pub open spec fn severity_of(e: AppError) -> ErrorSeverity {
    match e {
        AppError::SSHConnectionFailed(_) | AppError::SSHAuthenticationFailed(_)
        | AppError::WebSocketError(_) | AppError::PermissionDenied(_) => ErrorSeverity::High,
        AppError::ValidationError(_) | AppError::NotFound(_)
        | AppError::SerializationError(_) => ErrorSeverity::Low,
        AppError::InternalError(_) => ErrorSeverity::Critical,
        _ => ErrorSeverity::Medium,
    }
}

pub open spec fn retryable(e: AppError) -> bool {
    match e {
        AppError::SSHConnectionFailed(_) | AppError::TimeoutError(_)
        | AppError::ResourceExhausted(_) | AppError::IOError(_) => true,
        _ => false,
    }
}

/// The leading words of each error kind's rendered text.
pub open spec fn prefix_of(e: AppError) -> Seq<char> {
    match e {
        AppError::SSHConnectionFailed(_) => "SSH connection failed: "@,
        AppError::SSHAuthenticationFailed(_) => "SSH authentication failed: "@,
        AppError::SessionNotFound(_) => "Session not found: "@,
        AppError::InvalidConfiguration(_) => "Invalid configuration: "@,
        AppError::FileOperationFailed(_) => "File operation failed: "@,
        AppError::WebSocketError(_) => "WebSocket error: "@,
        AppError::TransferError(_) => "Transfer error: "@,
        AppError::PermissionDenied(_) => "Permission denied: "@,
        AppError::ResourceExhausted(_) => "Resource exhausted: "@,
        AppError::TimeoutError(_) => "Timeout error: "@,
        AppError::ValidationError(_) => "Validation error: "@,
        AppError::InternalError(_) => "Internal server error: "@,
        AppError::OperationFailed(_) => "Operation failed: "@,
        AppError::NotFound(_) => "Not found: "@,
        AppError::IOError(_) => "IO error: "@,
        AppError::SSH2Error(_) => "SSH2 error: "@,
        AppError::SerializationError(_) => "Serialization error: "@,
    }
}

pub open spec fn message_of(e: AppError) -> Seq<char> {
    match e {
        AppError::SSHConnectionFailed(m) | AppError::SSHAuthenticationFailed(m)
        | AppError::SessionNotFound(m) | AppError::InvalidConfiguration(m)
        | AppError::FileOperationFailed(m) | AppError::WebSocketError(m)
        | AppError::TransferError(m) | AppError::PermissionDenied(m)
        | AppError::ResourceExhausted(m) | AppError::TimeoutError(m)
        | AppError::ValidationError(m) | AppError::InternalError(m)
        | AppError::OperationFailed(m) | AppError::NotFound(m) | AppError::IOError(m)
        | AppError::SSH2Error(m) | AppError::SerializationError(m) => m@,
    }
}

impl AppError {
    /// The human-readable text of the error: its kind's words, then its message.
    pub fn to_string(&self) -> (r: String)
        ensures
            r@ == prefix_of(*self) + message_of(*self),
    {
        let prefix = match self {
            AppError::SSHConnectionFailed(_) => "SSH connection failed: ",
            AppError::SSHAuthenticationFailed(_) => "SSH authentication failed: ",
            AppError::SessionNotFound(_) => "Session not found: ",
            AppError::InvalidConfiguration(_) => "Invalid configuration: ",
            AppError::FileOperationFailed(_) => "File operation failed: ",
            AppError::WebSocketError(_) => "WebSocket error: ",
            AppError::TransferError(_) => "Transfer error: ",
            AppError::PermissionDenied(_) => "Permission denied: ",
            AppError::ResourceExhausted(_) => "Resource exhausted: ",
            AppError::TimeoutError(_) => "Timeout error: ",
            AppError::ValidationError(_) => "Validation error: ",
            AppError::InternalError(_) => "Internal server error: ",
            AppError::OperationFailed(_) => "Operation failed: ",
            AppError::NotFound(_) => "Not found: ",
            AppError::IOError(_) => "IO error: ",
            AppError::SSH2Error(_) => "SSH2 error: ",
            AppError::SerializationError(_) => "Serialization error: ",
        };
        let mut out = String::from_str(prefix);
        out.append(self.message().as_str());
        out
    }

    pub fn error_code(&self) -> (r: &'static str)
        ensures
            r@ == code_of(*self),
    {
        proof {
            reveal_strlit("CONNECTION_FAILED");
        }
        match self {
            AppError::SSHConnectionFailed(_) => "CONNECTION_FAILED",
            AppError::SSHAuthenticationFailed(_) => "AUTH_FAILED",
            AppError::SessionNotFound(_) => "SESSION_NOT_FOUND",
            AppError::InvalidConfiguration(_) => "INVALID_CONFIG",
            AppError::FileOperationFailed(_) => "FILE_OPERATION_FAILED",
            AppError::WebSocketError(_) => "WEBSOCKET_ERROR",
            AppError::TransferError(_) => "TRANSFER_ERROR",
            AppError::PermissionDenied(_) => "PERMISSION_DENIED",
            AppError::ResourceExhausted(_) => "RESOURCE_EXHAUSTED",
            AppError::TimeoutError(_) => "TIMEOUT_ERROR",
            AppError::ValidationError(_) => "VALIDATION_ERROR",
            AppError::InternalError(_) => "INTERNAL_ERROR",
            AppError::OperationFailed(_) => "OPERATION_FAILED",
            AppError::NotFound(_) => "NOT_FOUND",
            AppError::IOError(_) => "IO_ERROR",
            AppError::SSH2Error(_) => "SSH2_ERROR",
            AppError::SerializationError(_) => "SERIALIZATION_ERROR",
        }
    }

    pub fn severity(&self) -> (r: ErrorSeverity)
        ensures
            r == severity_of(*self),
    {
        match self {
            AppError::SSHConnectionFailed(_) | AppError::SSHAuthenticationFailed(_) => ErrorSeverity::High,
            AppError::SessionNotFound(_) | AppError::InvalidConfiguration(_) => ErrorSeverity::Medium,
            AppError::FileOperationFailed(_) | AppError::TransferError(_) => ErrorSeverity::Medium,
            AppError::WebSocketError(_) => ErrorSeverity::High,
            AppError::PermissionDenied(_) => ErrorSeverity::High,
            AppError::ResourceExhausted(_) | AppError::TimeoutError(_) => ErrorSeverity::Medium,
            AppError::ValidationError(_) => ErrorSeverity::Low,
            AppError::InternalError(_) => ErrorSeverity::Critical,
            AppError::OperationFailed(_) => ErrorSeverity::Medium,
            AppError::NotFound(_) => ErrorSeverity::Low,
            AppError::IOError(_) | AppError::SSH2Error(_) => ErrorSeverity::Medium,
            AppError::SerializationError(_) => ErrorSeverity::Low,
        }
    }

    pub fn is_retryable(&self) -> (r: bool)
        ensures
            r == retryable(*self),
    {
        match self {
            AppError::SSHConnectionFailed(_) | AppError::TimeoutError(_)
            | AppError::ResourceExhausted(_) | AppError::IOError(_) => true,
            _ => false,
        }
    }

    /// The message carried by the error.
    pub fn message(&self) -> (r: &String)
        ensures
            r@ == message_of(*self),
    {
        match self {
            AppError::SSHConnectionFailed(m) | AppError::SSHAuthenticationFailed(m)
            | AppError::SessionNotFound(m) | AppError::InvalidConfiguration(m)
            | AppError::FileOperationFailed(m) | AppError::WebSocketError(m)
            | AppError::TransferError(m) | AppError::PermissionDenied(m)
            | AppError::ResourceExhausted(m) | AppError::TimeoutError(m)
            | AppError::ValidationError(m) | AppError::InternalError(m)
            | AppError::OperationFailed(m) | AppError::NotFound(m) | AppError::IOError(m)
            | AppError::SSH2Error(m) | AppError::SerializationError(m) => m,
        }
    }
}

} // verus!
