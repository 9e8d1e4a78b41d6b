//! The ways in which an operation fails, and what is said of each.

use vstd::prelude::*;

verus! {

/// Why an operation failed.
///
/// No failure of this library carries a part of the data that it was found in.
#[derive(Debug, PartialEq, Eq)]
pub enum Error {
    IdentityChanged,
    EmptyStateHome,
    HomeUnset,
    ProfileInUse,
    ProfileBusy,
    InvalidProfileName,
    InvalidStoredName,
    ProfileMissing,
    CannotInspectDirectory,
    NotRealDirectory,
    WrongDirectoryMode,
    CannotCreateDirectory,
    WrongFileMode,
    CannotReadFile,
    FileTooLarge,
    InvalidRecord,
    CannotSaveState,
    UnrecordedSpawn,
    NoPendingSpawn,
    InvalidChildGroup,
    MissingChildGroup,
    UnmarkedSpawn,
    InterruptedSpawn,
    InvalidRecordedGroup,
    ChildMayBeRunning,
    ClockBeforeEpoch,
    OpaqueToken,
    InvalidToken,
    InvalidClaims,
    NoExpiry,
    TokenExpired,
    MissingInformation,
    NoUserIdentity,
    UnsupportedPlan,
    HelperStore,
    HelperProvider,
    InvalidAccount,
    LoginNotStarted,
    UnexpectedLoginUrl,
    InvalidCompletion,
    LoginNotLoaded,
    TooManyNotifications,
    LoginTimedOut,
    NotManaged,
    UnsupportedRefresh,
    WrongRefreshAccount,
    RefreshTimedOut,
    TokenNotRefreshed,
    StillSignedIn,
    CannotStartServer,
    MissingServerOutput,
    MissingServerInput,
    CannotEncode,
    MessageTooLarge,
    WriteTimedOut,
    WriteFailed,
    Disconnected,
    ReadFailed,
    FrameTooLarge,
    InvalidJson,
    TooManyBuffered,
    RequestFailed,
    InvalidResponse,
    RequestTimedOut,
    ShutdownTimedOut,
    ShutdownFailed,
    HandshakeTimedOut,
    HandshakeFailed,
    UiTimedOut,
    UiGoneBeforeInitialize,
    UiGoneBeforeInitialized,
    ExpectedInitialize,
    ExpectedInitialized,
    InitializationFailed,
    DuplicateUiRequest,
    TooManyUiRequests,
    TooManyServerRequests,
    DuplicateServerRequest,
    UnknownResponse,
    InvalidPrivateError,
    InvalidPrivateResponse,
    PrivateTimedOut,
    HostRefreshFailed,
    HostLogoutFailed,
    MissingId,
    InvalidId,
    MissingConfiguration,
    UnsupportedProvider,
    UnsupportedStore,
    UnsupportedOverride,
    UnsupportedBaseUrl,
    HostDisconnected,
    HostTimedOut,
    InvalidUiJson,
    InvalidUiMessage,
    UiReadFailed,
    UiTooLarge,
    UiWriteTimedOut,
    UiWriteFailed,
    Interrupted,
    LogoutInterrupted,
    LoginInterrupted,
    VerificationInterrupted,
    AuthenticationTimedOut,
    TerminalNotConnected,
    ConnectionTaskFailed,
    TerminalUnsuccessful,
    EmptyCodexPath,
    EmptyCodexHome,
    VersionTimedOut,
    CannotExecuteCodex,
    UnsupportedVersion,
    CannotResolveCodex,
    CodexNotFound,
    CannotObserveExit,
    CannotSignal,
    NotInteractive,
    NotForeground,
    CannotSaveTerminal,
    CannotStartTerminal,
    TerminalStopped,
    TerminalNotFinished,
    TerminalShutdownTimedOut,
    /// A failure of the system under the library, in the system's own words.
    Outside(String),
}

impl Error {
    /// What is said of a failure.
    pub open spec fn text(self) -> Seq<char> {
        match self {
            Error::IdentityChanged => "profile identity changed; logout and log in again explicitly"@,
            Error::EmptyStateHome => "CODUCK_HOME must not be empty"@,
            Error::HomeUnset => "HOME must be set and nonempty"@,
            Error::ProfileInUse => "profile is in use; close its running Coduck session first"@,
            Error::ProfileBusy => "profile credentials are busy; retry after the other operation finishes (older Coduck sessions must be closed once)"@,
            Error::InvalidProfileName => "profile name must match [a-z0-9][a-z0-9-]{0,47}"@,
            Error::InvalidStoredName => "invalid profile name in state directory"@,
            Error::ProfileMissing => "profile does not exist; use coduck login NAME first"@,
            Error::CannotInspectDirectory => "cannot inspect profile directory"@,
            Error::NotRealDirectory => "profile directory must be a real directory, not a symlink"@,
            Error::WrongDirectoryMode => "profile directory must have permissions 0700"@,
            Error::CannotCreateDirectory => "cannot create private profile directory"@,
            Error::WrongFileMode => "profile file must be regular with permissions 0600"@,
            Error::CannotReadFile => "cannot read private profile file"@,
            Error::FileTooLarge => "profile file exceeds size limit"@,
            Error::InvalidRecord => "invalid profile metadata or runtime record"@,
            Error::CannotSaveState => "cannot save private profile state"@,
            Error::UnrecordedSpawn => "an unrecorded spawn needs manual cleanup before continuing"@,
            Error::NoPendingSpawn => "no pending spawn to cancel"@,
            Error::InvalidChildGroup => "invalid child process group"@,
            Error::MissingChildGroup => "missing child process group"@,
            Error::UnmarkedSpawn => "child spawn was not marked before starting"@,
            Error::InterruptedSpawn => "an interrupted spawn has unknown child state; close leftover Codex processes, then manually remove this profile's runtime.json"@,
            Error::InvalidRecordedGroup => "invalid recorded process group; inspect runtime.json manually"@,
            Error::ChildMayBeRunning => "a previous Coduck child may still be running; close the leftover Codex process before retrying"@,
            Error::ClockBeforeEpoch => "second time provided was later than self"@,
            Error::OpaqueToken => "helper returned an opaque token; log in again"@,
            Error::InvalidToken => "helper returned an invalid token"@,
            Error::InvalidClaims => "helper returned invalid token claims"@,
            Error::NoExpiry => "helper token has no expiry"@,
            Error::TokenExpired => "helper token is expired or expiring; retry, then log in again if the problem persists"@,
            Error::MissingInformation => "helper response is missing required identity or login information"@,
            Error::NoUserIdentity => "helper token has no user identity"@,
            Error::UnsupportedPlan => "this ChatGPT plan is not supported by this Coduck version"@,
            Error::HelperStore => "auth helper must use the keyring credential store"@,
            Error::HelperProvider => "Coduck requires the default OpenAI provider and official ChatGPT backend"@,
            Error::InvalidAccount => "invalid helper account response"@,
            Error::LoginNotStarted => "helper did not start a managed ChatGPT login"@,
            Error::UnexpectedLoginUrl => "helper returned an unexpected login URL"@,
            Error::InvalidCompletion => "invalid helper login completion response"@,
            Error::LoginNotLoaded => "helper did not load the new ChatGPT login; retry coduck login"@,
            Error::TooManyNotifications => "too many unrelated notifications while waiting for login"@,
            Error::LoginTimedOut => "ChatGPT login timed out; retry coduck login"@,
            Error::NotManaged => "profile needs a managed ChatGPT login; run coduck login NAME"@,
            Error::UnsupportedRefresh => "unsupported authentication refresh reason"@,
            Error::WrongRefreshAccount => "refresh requested for a different account"@,
            Error::RefreshTimedOut => "profile authentication refresh timed out"@,
            Error::TokenNotRefreshed => "helper could not refresh the token; retry, then log in again if the problem persists"@,
            Error::StillSignedIn => "helper still has a local login; profile metadata was preserved"@,
            Error::CannotStartServer => "cannot start app-server"@,
            Error::MissingServerOutput => "missing app-server stdout"@,
            Error::MissingServerInput => "missing app-server stdin"@,
            Error::CannotEncode => "cannot encode RPC message"@,
            Error::MessageTooLarge => "RPC message exceeds size limit"@,
            Error::WriteTimedOut => "app-server write timed out"@,
            Error::WriteFailed => "app-server write failed"@,
            Error::Disconnected => "app-server disconnected"@,
            Error::ReadFailed => "app-server read failed"@,
            Error::FrameTooLarge => "app-server message exceeds size limit"@,
            Error::InvalidJson => "invalid app-server JSON"@,
            Error::TooManyBuffered => "too many buffered app-server messages"@,
            Error::RequestFailed => "app-server request failed"@,
            Error::InvalidResponse => "invalid app-server response"@,
            Error::RequestTimedOut => "app-server request timed out"@,
            Error::ShutdownTimedOut => "app-server shutdown timed out"@,
            Error::ShutdownFailed => "app-server shutdown failed"@,
            Error::HandshakeTimedOut => "UI handshake timed out"@,
            Error::HandshakeFailed => "UI handshake failed"@,
            Error::UiTimedOut => "UI initialization timed out"@,
            Error::UiGoneBeforeInitialize => "UI disconnected before initialization"@,
            Error::UiGoneBeforeInitialized => "UI disconnected before initialized"@,
            Error::ExpectedInitialize => "expected UI initialize request"@,
            Error::ExpectedInitialized => "expected UI initialized notification"@,
            Error::InitializationFailed => "coding session initialization failed"@,
            Error::DuplicateUiRequest => "duplicate UI request ID"@,
            Error::TooManyUiRequests => "too many pending UI requests"@,
            Error::TooManyServerRequests => "too many pending app-server requests"@,
            Error::DuplicateServerRequest => "duplicate app-server request ID"@,
            Error::UnknownResponse => "unknown app-server response ID"@,
            Error::InvalidPrivateError => "invalid private app-server error"@,
            Error::InvalidPrivateResponse => "invalid private app-server response"@,
            Error::PrivateTimedOut => "private app-server request timed out"@,
            Error::HostRefreshFailed => "host token refresh failed"@,
            Error::HostLogoutFailed => "host logout failed"@,
            Error::MissingId => "missing RPC request ID"@,
            Error::InvalidId => "invalid RPC request ID"@,
            Error::MissingConfiguration => "missing effective coding configuration"@,
            Error::UnsupportedProvider => "unsupported model_provider"@,
            Error::UnsupportedStore => "coding credential storage must be ephemeral"@,
            Error::UnsupportedOverride => "unsupported model_providers.openai override"@,
            Error::UnsupportedBaseUrl => "unsupported chatgpt_base_url"@,
            Error::HostDisconnected => "authentication host disconnected"@,
            Error::HostTimedOut => "authentication host timed out"@,
            Error::InvalidUiJson => "invalid UI JSON"@,
            Error::InvalidUiMessage => "invalid UI RPC message"@,
            Error::UiReadFailed => "UI WebSocket read failed"@,
            Error::UiTooLarge => "UI message exceeds size limit"@,
            Error::UiWriteTimedOut => "UI WebSocket write timed out"@,
            Error::UiWriteFailed => "UI WebSocket write failed"@,
            Error::Interrupted => "interrupted"@,
            Error::LogoutInterrupted => "interrupted; retry logout to confirm local credential removal"@,
            Error::LoginInterrupted => "login interrupted"@,
            Error::VerificationInterrupted => "login verification interrupted; retry coduck login"@,
            Error::AuthenticationTimedOut => "profile authentication timed out"@,
            Error::TerminalNotConnected => "Codex terminal did not connect"@,
            Error::ConnectionTaskFailed => "coding connection task failed"@,
            Error::TerminalUnsuccessful => "Codex terminal exited unsuccessfully"@,
            Error::EmptyCodexPath => "CODUCK_CODEX must not be empty"@,
            Error::EmptyCodexHome => "CODEX_HOME must not be empty"@,
            Error::VersionTimedOut => "Codex version check timed out"@,
            Error::CannotExecuteCodex => "cannot execute Codex; check CODUCK_CODEX or PATH"@,
            Error::UnsupportedVersion => "unsupported Codex version; Coduck requires codex-cli 0.154.0"@,
            Error::CannotResolveCodex => "cannot resolve installed Codex executable"@,
            Error::CodexNotFound => "Codex executable not found; install Codex 0.154.0 and set CODUCK_CODEX or PATH"@,
            Error::CannotObserveExit => "cannot observe child process exit"@,
            Error::CannotSignal => "cannot signal owned child process group"@,
            Error::NotInteractive => "coduck run requires an interactive terminal"@,
            Error::NotForeground => "run coduck in the foreground of your terminal"@,
            Error::CannotSaveTerminal => "cannot save terminal settings"@,
            Error::CannotStartTerminal => "cannot start Codex terminal"@,
            Error::TerminalStopped => "terminal already stopped"@,
            Error::TerminalNotFinished => "Codex terminal did not finish shutting down"@,
            Error::TerminalShutdownTimedOut => "terminal shutdown timed out"@,
            Error::Outside(words) => words@,
        }
    }

    /// Says what failed.
    pub fn message(&self) -> (message: String)
        ensures
            message@ == self.text(),
    {
        match self {
            Error::IdentityChanged => "profile identity changed; logout and log in again explicitly".to_owned(),
            Error::EmptyStateHome => "CODUCK_HOME must not be empty".to_owned(),
            Error::HomeUnset => "HOME must be set and nonempty".to_owned(),
            Error::ProfileInUse => "profile is in use; close its running Coduck session first".to_owned(),
            Error::ProfileBusy => "profile credentials are busy; retry after the other operation finishes (older Coduck sessions must be closed once)".to_owned(),
            Error::InvalidProfileName => "profile name must match [a-z0-9][a-z0-9-]{0,47}".to_owned(),
            Error::InvalidStoredName => "invalid profile name in state directory".to_owned(),
            Error::ProfileMissing => "profile does not exist; use coduck login NAME first".to_owned(),
            Error::CannotInspectDirectory => "cannot inspect profile directory".to_owned(),
            Error::NotRealDirectory => "profile directory must be a real directory, not a symlink".to_owned(),
            Error::WrongDirectoryMode => "profile directory must have permissions 0700".to_owned(),
            Error::CannotCreateDirectory => "cannot create private profile directory".to_owned(),
            Error::WrongFileMode => "profile file must be regular with permissions 0600".to_owned(),
            Error::CannotReadFile => "cannot read private profile file".to_owned(),
            Error::FileTooLarge => "profile file exceeds size limit".to_owned(),
            Error::InvalidRecord => "invalid profile metadata or runtime record".to_owned(),
            Error::CannotSaveState => "cannot save private profile state".to_owned(),
            Error::UnrecordedSpawn => "an unrecorded spawn needs manual cleanup before continuing".to_owned(),
            Error::NoPendingSpawn => "no pending spawn to cancel".to_owned(),
            Error::InvalidChildGroup => "invalid child process group".to_owned(),
            Error::MissingChildGroup => "missing child process group".to_owned(),
            Error::UnmarkedSpawn => "child spawn was not marked before starting".to_owned(),
            Error::InterruptedSpawn => "an interrupted spawn has unknown child state; close leftover Codex processes, then manually remove this profile's runtime.json".to_owned(),
            Error::InvalidRecordedGroup => "invalid recorded process group; inspect runtime.json manually".to_owned(),
            Error::ChildMayBeRunning => "a previous Coduck child may still be running; close the leftover Codex process before retrying".to_owned(),
            Error::ClockBeforeEpoch => "second time provided was later than self".to_owned(),
            Error::OpaqueToken => "helper returned an opaque token; log in again".to_owned(),
            Error::InvalidToken => "helper returned an invalid token".to_owned(),
            Error::InvalidClaims => "helper returned invalid token claims".to_owned(),
            Error::NoExpiry => "helper token has no expiry".to_owned(),
            Error::TokenExpired => "helper token is expired or expiring; retry, then log in again if the problem persists".to_owned(),
            Error::MissingInformation => "helper response is missing required identity or login information".to_owned(),
            Error::NoUserIdentity => "helper token has no user identity".to_owned(),
            Error::UnsupportedPlan => "this ChatGPT plan is not supported by this Coduck version".to_owned(),
            Error::HelperStore => "auth helper must use the keyring credential store".to_owned(),
            Error::HelperProvider => "Coduck requires the default OpenAI provider and official ChatGPT backend".to_owned(),
            Error::InvalidAccount => "invalid helper account response".to_owned(),
            Error::LoginNotStarted => "helper did not start a managed ChatGPT login".to_owned(),
            Error::UnexpectedLoginUrl => "helper returned an unexpected login URL".to_owned(),
            Error::InvalidCompletion => "invalid helper login completion response".to_owned(),
            Error::LoginNotLoaded => "helper did not load the new ChatGPT login; retry coduck login".to_owned(),
            Error::TooManyNotifications => "too many unrelated notifications while waiting for login".to_owned(),
            Error::LoginTimedOut => "ChatGPT login timed out; retry coduck login".to_owned(),
            Error::NotManaged => "profile needs a managed ChatGPT login; run coduck login NAME".to_owned(),
            Error::UnsupportedRefresh => "unsupported authentication refresh reason".to_owned(),
            Error::WrongRefreshAccount => "refresh requested for a different account".to_owned(),
            Error::RefreshTimedOut => "profile authentication refresh timed out".to_owned(),
            Error::TokenNotRefreshed => "helper could not refresh the token; retry, then log in again if the problem persists".to_owned(),
            Error::StillSignedIn => "helper still has a local login; profile metadata was preserved".to_owned(),
            Error::CannotStartServer => "cannot start app-server".to_owned(),
            Error::MissingServerOutput => "missing app-server stdout".to_owned(),
            Error::MissingServerInput => "missing app-server stdin".to_owned(),
            Error::CannotEncode => "cannot encode RPC message".to_owned(),
            Error::MessageTooLarge => "RPC message exceeds size limit".to_owned(),
            Error::WriteTimedOut => "app-server write timed out".to_owned(),
            Error::WriteFailed => "app-server write failed".to_owned(),
            Error::Disconnected => "app-server disconnected".to_owned(),
            Error::ReadFailed => "app-server read failed".to_owned(),
            Error::FrameTooLarge => "app-server message exceeds size limit".to_owned(),
            Error::InvalidJson => "invalid app-server JSON".to_owned(),
            Error::TooManyBuffered => "too many buffered app-server messages".to_owned(),
            Error::RequestFailed => "app-server request failed".to_owned(),
            Error::InvalidResponse => "invalid app-server response".to_owned(),
            Error::RequestTimedOut => "app-server request timed out".to_owned(),
            Error::ShutdownTimedOut => "app-server shutdown timed out".to_owned(),
            Error::ShutdownFailed => "app-server shutdown failed".to_owned(),
            Error::HandshakeTimedOut => "UI handshake timed out".to_owned(),
            Error::HandshakeFailed => "UI handshake failed".to_owned(),
            Error::UiTimedOut => "UI initialization timed out".to_owned(),
            Error::UiGoneBeforeInitialize => "UI disconnected before initialization".to_owned(),
            Error::UiGoneBeforeInitialized => "UI disconnected before initialized".to_owned(),
            Error::ExpectedInitialize => "expected UI initialize request".to_owned(),
            Error::ExpectedInitialized => "expected UI initialized notification".to_owned(),
            Error::InitializationFailed => "coding session initialization failed".to_owned(),
            Error::DuplicateUiRequest => "duplicate UI request ID".to_owned(),
            Error::TooManyUiRequests => "too many pending UI requests".to_owned(),
            Error::TooManyServerRequests => "too many pending app-server requests".to_owned(),
            Error::DuplicateServerRequest => "duplicate app-server request ID".to_owned(),
            Error::UnknownResponse => "unknown app-server response ID".to_owned(),
            Error::InvalidPrivateError => "invalid private app-server error".to_owned(),
            Error::InvalidPrivateResponse => "invalid private app-server response".to_owned(),
            Error::PrivateTimedOut => "private app-server request timed out".to_owned(),
            Error::HostRefreshFailed => "host token refresh failed".to_owned(),
            Error::HostLogoutFailed => "host logout failed".to_owned(),
            Error::MissingId => "missing RPC request ID".to_owned(),
            Error::InvalidId => "invalid RPC request ID".to_owned(),
            Error::MissingConfiguration => "missing effective coding configuration".to_owned(),
            Error::UnsupportedProvider => "unsupported model_provider".to_owned(),
            Error::UnsupportedStore => "coding credential storage must be ephemeral".to_owned(),
            Error::UnsupportedOverride => "unsupported model_providers.openai override".to_owned(),
            Error::UnsupportedBaseUrl => "unsupported chatgpt_base_url".to_owned(),
            Error::HostDisconnected => "authentication host disconnected".to_owned(),
            Error::HostTimedOut => "authentication host timed out".to_owned(),
            Error::InvalidUiJson => "invalid UI JSON".to_owned(),
            Error::InvalidUiMessage => "invalid UI RPC message".to_owned(),
            Error::UiReadFailed => "UI WebSocket read failed".to_owned(),
            Error::UiTooLarge => "UI message exceeds size limit".to_owned(),
            Error::UiWriteTimedOut => "UI WebSocket write timed out".to_owned(),
            Error::UiWriteFailed => "UI WebSocket write failed".to_owned(),
            Error::Interrupted => "interrupted".to_owned(),
            Error::LogoutInterrupted => "interrupted; retry logout to confirm local credential removal".to_owned(),
            Error::LoginInterrupted => "login interrupted".to_owned(),
            Error::VerificationInterrupted => "login verification interrupted; retry coduck login".to_owned(),
            Error::AuthenticationTimedOut => "profile authentication timed out".to_owned(),
            Error::TerminalNotConnected => "Codex terminal did not connect".to_owned(),
            Error::ConnectionTaskFailed => "coding connection task failed".to_owned(),
            Error::TerminalUnsuccessful => "Codex terminal exited unsuccessfully".to_owned(),
            Error::EmptyCodexPath => "CODUCK_CODEX must not be empty".to_owned(),
            Error::EmptyCodexHome => "CODEX_HOME must not be empty".to_owned(),
            Error::VersionTimedOut => "Codex version check timed out".to_owned(),
            Error::CannotExecuteCodex => "cannot execute Codex; check CODUCK_CODEX or PATH".to_owned(),
            Error::UnsupportedVersion => "unsupported Codex version; Coduck requires codex-cli 0.154.0".to_owned(),
            Error::CannotResolveCodex => "cannot resolve installed Codex executable".to_owned(),
            Error::CodexNotFound => "Codex executable not found; install Codex 0.154.0 and set CODUCK_CODEX or PATH".to_owned(),
            Error::CannotObserveExit => "cannot observe child process exit".to_owned(),
            Error::CannotSignal => "cannot signal owned child process group".to_owned(),
            Error::NotInteractive => "coduck run requires an interactive terminal".to_owned(),
            Error::NotForeground => "run coduck in the foreground of your terminal".to_owned(),
            Error::CannotSaveTerminal => "cannot save terminal settings".to_owned(),
            Error::CannotStartTerminal => "cannot start Codex terminal".to_owned(),
            Error::TerminalStopped => "terminal already stopped".to_owned(),
            Error::TerminalNotFinished => "Codex terminal did not finish shutting down".to_owned(),
            Error::TerminalShutdownTimedOut => "terminal shutdown timed out".to_owned(),
            Error::Outside(words) => words.clone(),
        }
    }
}

} // verus!
