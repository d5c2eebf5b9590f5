use vstd::prelude::*;
use vstd::string::StringExecFns;
use crate::errors::{AppError, code_of, message_of, prefix_of};
use crate::session::{SSHConnectionConfig, DEFAULT_COLS, DEFAULT_ROWS};
use crate::text::{decimal_text, decimal_of};

verus! {

pub struct TerminalSize {
    pub cols: u16,
    pub rows: u16,
}

/// PTY settings for a new shell.
pub struct ShellConfig {
    pub term_type: String,
    pub cols: u16,
    pub rows: u16,
    pub env_vars: Vec<(String, String)>,
}

impl Default for ShellConfig {
    fn default() -> (r: Self)
        ensures
            r.term_type@ == "xterm-256color"@,
            r.cols == DEFAULT_COLS,
            r.rows == DEFAULT_ROWS,
            r.env_vars@.len() == 0,
    {
        ShellConfig { term_type: String::from_str("xterm-256color"), cols: DEFAULT_COLS, rows: DEFAULT_ROWS, env_vars: Vec::new() }
    }
}

pub struct SSHConnectData {
    pub config: SSHConnectionConfig,
    pub cols: Option<u16>,
    pub rows: Option<u16>,
}

pub struct TerminalInputData {
    pub session_id: String,
    pub input: String,
}

pub struct TerminalOutputEvent {
    pub session_id: String,
    pub data: String,
}

pub struct TerminalResizeData {
    pub session_id: String,
    pub cols: u16,
    pub rows: u16,
}

pub struct TerminalDataResponse {
    pub session_id: String,
    pub data: String,
    pub timestamp: Option<i64>,
    pub batched: Option<bool>,
}

pub struct SSHConnectedResponse {
    pub session_id: String,
    pub status: String,
}

pub struct SSHDisconnectedResponse {
    pub session_id: String,
}

pub struct SSHErrorResponse {
    pub session_id: Option<String>,
    pub message: String,
    pub code: Option<String>,
    pub details: Option<String>,
}

pub struct MobileOptimizationData {
    pub low_bandwidth: Option<bool>,
    pub batch_updates: Option<bool>,
    pub compression_enabled: Option<bool>,
}

/// Frames sent back to a client.
pub enum WebSocketResponse {
    TerminalData(TerminalDataResponse),
    SSHConnected(SSHConnectedResponse),
    SSHDisconnected(SSHDisconnectedResponse),
    SSHError(SSHErrorResponse),
    MobileOptimized { applied: MobileOptimizationData, timestamp: i64 },
}

/// A chunk of shell output for the client, stamped `now`, sent as produced.
pub fn terminal_data_response(session_id: String, data: String, now: i64) -> (r: WebSocketResponse)
    ensures
        r matches WebSocketResponse::TerminalData(d) && d.session_id@ == session_id@ && d.data@ == data@
            && d.timestamp == Some(now) && d.batched == Some(false),
{
    WebSocketResponse::TerminalData(TerminalDataResponse { session_id, data, timestamp: Some(now), batched: Some(false) })
}

pub fn connected_response(session_id: String) -> (r: WebSocketResponse)
    ensures
        r matches WebSocketResponse::SSHConnected(c) && c.session_id@ == session_id@ && c.status@ == "connected"@,
{
    WebSocketResponse::SSHConnected(SSHConnectedResponse { session_id, status: String::from_str("connected") })
}

pub fn disconnected_response(session_id: String) -> (r: WebSocketResponse)
    ensures
        r matches WebSocketResponse::SSHDisconnected(c) && c.session_id@ == session_id@,
{
    WebSocketResponse::SSHDisconnected(SSHDisconnectedResponse { session_id })
}

/// The error frame for a failure: its text, and its code from the taxonomy.
pub fn error_response(session_id: Option<String>, error: &AppError, details: Option<String>) -> (r: WebSocketResponse)
    ensures
        r matches WebSocketResponse::SSHError(e) && e.message@ == prefix_of(*error) + message_of(*error)
            && (e.code matches Some(c) && c@ == code_of(*error)) && e.session_id == session_id && e.details == details,
{
    let code = String::from_str(error.error_code());
    WebSocketResponse::SSHError(SSHErrorResponse { session_id, message: error.to_string(), code: Some(code), details })
}

/// The answer to a text frame over the size cap.
pub fn oversized_response(session_id: Option<String>, size: usize) -> (r: WebSocketResponse)
    ensures
        r matches WebSocketResponse::SSHError(e) && e.message@ == "Message too large"@
            && (e.code matches Some(c) && c@ == "MESSAGE_TOO_LARGE"@) && e.session_id == session_id
            && (e.details matches Some(d) && d@ == "Message size: "@ + decimal_of(size as nat) + " bytes, limit: 1MB"@),
{
    let mut details = String::from_str("Message size: ");
    let n = decimal_text(size as u64);
    details.append(n.as_str());
    details.append(" bytes, limit: 1MB");
    WebSocketResponse::SSHError(SSHErrorResponse {
        session_id,
        message: String::from_str("Message too large"),
        code: Some(String::from_str("MESSAGE_TOO_LARGE")),
        details: Some(details),
    })
}

pub struct FileTransferRequest {
    pub session_id: String,
    pub remote_path: String,
    pub local_path: Option<String>,
}

pub struct FileListRequest {
    pub session_id: String,
    pub path: String,
}

pub struct FileDownloadRequest {
    pub session_id: String,
    pub remote_path: String,
}

/// An upload whose content is base64 text.
pub struct FileUploadRequest {
    pub session_id: String,
    pub remote_path: String,
    pub content: String,
}

pub struct TransferUploadRequest {
    pub session_id: String,
    pub remote_path: String,
    pub content: String,
    pub name: String,
}

pub struct TransferDownloadRequest {
    pub session_id: String,
    pub remote_path: String,
    pub name: Option<String>,
}

pub struct AutocompleteRequest {
    pub session_id: String,
    pub input: String,
    pub cursor_position: usize,
}

pub struct CreateSessionRequest {
    pub config: SSHConnectionConfig,
}

pub struct ConnectRequest {
    pub session_id: String,
}

pub struct ConnectResponse {
    pub success: bool,
    pub error: Option<String>,
}

pub struct CreateShellRequest {
    pub session_id: String,
    pub cols: u16,
    pub rows: u16,
}

pub struct WriteToShellRequest {
    pub session_id: String,
    pub input: String,
}

pub struct ResizeShellRequest {
    pub session_id: String,
    pub cols: u16,
    pub rows: u16,
}

pub struct SftpListRequest {
    pub session_id: String,
    pub path: String,
}

pub struct SftpDownloadRequest {
    pub session_id: String,
    pub remote_path: String,
}

pub struct SftpUploadRequest {
    pub session_id: String,
    pub remote_path: String,
    pub contents: Vec<u8>,
}

/// The outcome of a command, as answered to the desktop host.
pub fn connect_response(outcome: &Result<(), AppError>) -> (r: ConnectResponse)
    ensures
        r.success == outcome is Ok,
        outcome is Ok ==> r.error is None,
        outcome matches Err(e) ==> (r.error matches Some(m) && m@ == prefix_of(*e) + message_of(*e)),
{
    match outcome {
        Ok(()) => ConnectResponse { success: true, error: None },
        Err(e) => ConnectResponse { success: false, error: Some(e.to_string()) },
    }
}

} // verus!
