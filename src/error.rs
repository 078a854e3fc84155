use vstd::prelude::*;
use crate::tunnel::TunnelState;

verus! {

/// Result of a tunnel operation.
pub type TunnelResult<T> = Result<T, Error>;

/// An error of the tunnel layer: a numeric code and a message.
#[derive(Debug)]
pub struct Error {
    pub code: i32,
    pub message: String,
}

impl View for Error {
    type V = (i32, Seq<char>);

    open spec fn view(&self) -> (i32, Seq<char>) {
        (self.code, self.message@)
    }
}

impl Error {
    pub fn build(code: i32, message: &str) -> (r: Error)
        ensures
            r@ == (code, message@),
    {
        Error { code, message: message.to_owned() }
    }
}

/// Conversion of a failure into an [`Error`].
pub trait ConvertToPluginError {
    /// The code and message the failure converts to.
    spec fn plugin_error(&self) -> (i32, Seq<char>);

    fn convert(&self) -> (r: Error)
        ensures
            r@ == self.plugin_error(),
    ;
}

/// The failures that the registry detects by itself, before any I/O.
#[derive(Debug, Clone, Copy, PartialEq, Eq, Structural)]
pub enum Fault {
    /// An added tunnel's local port is already registered.
    DuplicatePort,
    /// No tunnel is registered under the requested local port.
    NotFound,
    /// The tunnel is in the given state, which forbids the operation.
    InvalidState(TunnelState),
    /// The tunnel has neither a usable password nor a usable private key.
    NoCredential,
    /// The control message lacks the tunnel its operation needs.
    Malformed,
}

/// Code of every tunnel-lifecycle error.
pub const TUNNEL_ERROR_CODE: i32 = -2;

/// Code of an unknown or undecodable request.
pub const UNKNOWN_ERROR_CODE: i32 = 0;

/// The code and message each fault is reported with.
pub open spec fn fault_view(f: Fault) -> (i32, Seq<char>) {
    match f {
        Fault::DuplicatePort => (TUNNEL_ERROR_CODE, "DUPLICATE NODE!!!"@),
        Fault::NotFound => (TUNNEL_ERROR_CODE, "NODE DOES NOT EXISTS!!!"@),
        Fault::InvalidState(TunnelState::RUNNING) => (TUNNEL_ERROR_CODE, "NODE STATE IS RUNNING!!!"@),
        Fault::InvalidState(TunnelState::STOP) => (TUNNEL_ERROR_CODE, "NODE STATE IS STOP!!!"@),
        Fault::NoCredential => (TUNNEL_ERROR_CODE, "NO USABLE CREDENTIAL!!!"@),
        Fault::Malformed => (UNKNOWN_ERROR_CODE, "unknow error"@),
    }
}

impl ConvertToPluginError for Fault {
    open spec fn plugin_error(&self) -> (i32, Seq<char>) {
        fault_view(*self)
    }

    fn convert(&self) -> (r: Error) {
        match self {
            Fault::DuplicatePort => Error::build(TUNNEL_ERROR_CODE, "DUPLICATE NODE!!!"),
            Fault::NotFound => Error::build(TUNNEL_ERROR_CODE, "NODE DOES NOT EXISTS!!!"),
            Fault::InvalidState(TunnelState::RUNNING) => Error::build(
                TUNNEL_ERROR_CODE,
                "NODE STATE IS RUNNING!!!",
            ),
            Fault::InvalidState(TunnelState::STOP) => Error::build(
                TUNNEL_ERROR_CODE,
                "NODE STATE IS STOP!!!",
            ),
            Fault::NoCredential => Error::build(TUNNEL_ERROR_CODE, "NO USABLE CREDENTIAL!!!"),
            Fault::Malformed => Error::build(UNKNOWN_ERROR_CODE, "unknow error"),
        }
    }
}

/// An error as handed to the user interface.
#[derive(Debug)]
pub struct EventError {
    code: i32,
    message: String,
}

impl View for EventError {
    type V = (i32, Seq<char>);

    closed spec fn view(&self) -> (i32, Seq<char>) {
        (self.code, self.message@)
    }
}

impl EventError {
    pub fn build(code: i32, message: &str) -> (r: EventError)
        ensures
            r@ == (code, message@),
    {
        EventError { code, message: message.to_owned() }
    }

    /// The error reported when nothing more precise is known.
    pub fn unknow() -> (r: EventError)
        ensures
            r@ == (UNKNOWN_ERROR_CODE, "unknow error"@),
    {
        EventError { code: UNKNOWN_ERROR_CODE, message: "unknow error".to_owned() }
    }

    pub fn code(&self) -> (r: i32)
        ensures
            r == self@.0,
    {
        self.code
    }

    pub fn message(&self) -> (r: &str)
        ensures
            r@ == self@.1,
    {
        self.message.as_str()
    }
}

/// Conversion of a failure into an [`EventError`].
pub trait ConvertToEventError {
    /// The code and message the failure converts to.
    spec fn event_error(&self) -> (i32, Seq<char>);

    fn convert(&self) -> (r: EventError)
        ensures
            r@ == self.event_error(),
    ;
}

impl ConvertToEventError for Error {
    open spec fn event_error(&self) -> (i32, Seq<char>) {
        self@
    }

    fn convert(&self) -> (r: EventError) {
        EventError::build(self.code, self.message.as_str())
    }
}

} // verus!
