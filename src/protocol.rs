//! Messages exchanged with the emulator over its control socket.
//!
//! Every message travels inside a [`ControlPacket`], which tags it as a
//! request or a response, so that a reader can refuse a peer that answers in
//! the wrong direction.
use vstd::prelude::*;

verus! {

/// The envelope of every message on the control socket.
#[derive(Debug)]
pub enum ControlPacket {
    Req(Request),
    Res(Response),
}

/// A command sent to the emulator.
#[derive(Debug)]
pub enum Request {
    Status,
    Get { dev: String },
    Gpio(GpioCommand),
    Exit,
    Start(EmulatorArgs),
    Stop,
    Restart(EmulatorArgs),
}

/// The answer to a [`Request`]; each variant answers the request of the same name.
#[derive(Debug)]
pub enum Response {
    Status(Result<DutState, ErrorMessage>),
    Get(Result<DeviceEntry, ErrorMessage>),
    Gpio(Result<GpioResult, ErrorMessage>),
    Exit(Result<(), ErrorMessage>),
    Start(Result<(), ErrorMessage>),
    Stop(Result<(), ErrorMessage>),
    Restart(Result<(), ErrorMessage>),
}

/// A failure reported by the emulator as data inside a response.
#[derive(Debug)]
pub enum ErrorMessage {
    /// Runtime error.
    ERROR(String),
    /// Invalid argument.
    INVALID(String),
    /// The device is busy.
    BUSY,
}

#[derive(PartialEq, Eq, Structural, Clone, Copy, Debug)]
pub enum GpioValue {
    /// Logic high.
    Hi,
    /// Logic low.
    Lo,
    /// High impedance.
    Z,
    /// Undefined, a random value.
    X,
}

#[derive(PartialEq, Eq, Structural, Clone, Copy, Debug)]
pub enum GpioPullMode {
    PullUp,
    PullDown,
    PullNone,
}

#[derive(PartialEq, Eq, Structural, Clone, Copy, Debug)]
pub enum GpioMode {
    PushPull,
    OpenDrain,
    Input,
}

#[derive(Debug)]
pub enum GpioCommand {
    /// Drives the pin; on the wire this variant is named `Set`.
    SetValue { id: String, logic: bool },
    Get { id: String },
    SetMode { id: String, mode: GpioMode },
    SetPullMode { id: String, pull: GpioPullMode },
}

#[derive(PartialEq, Eq, Structural, Clone, Copy, Debug)]
pub enum GpioResult {
    Get { value: GpioValue },
    /// Answer to [`GpioCommand::SetValue`]; on the wire it is named `Set`.
    SetValue,
    SetMode,
    SetPullMode,
}

/// The power state of the device as the emulator reports it.
#[derive(PartialEq, Eq, Structural, Clone, Copy, Debug)]
pub enum DutState {
    /// Powered on.
    PowerOn,
    /// Powered off.
    PowerOff,
    /// Transient state, during a reset.
    Busy,
    /// A crash or a runtime error was detected.
    Error,
}

#[derive(PartialEq, Eq, Structural, Clone, Copy, Debug)]
pub enum InterfaceTyp {
    UnixDatagram,
    UnixStream,
    Fifo,
    Pty,
    RegularFile,
}

#[derive(Clone, Debug)]
pub struct DeviceEntry {
    pub id: String,
    pub filename: String,
    pub typ: InterfaceTyp,
}

/// How to run the emulator; the order of the arguments matters.
#[derive(Debug)]
pub struct EmulatorArgs {
    /// The emulator binary; on the wire this field is named `exec`.
    pub executable: String,
    pub args: Vec<(String, String)>,
}

/// Whether `response` is of the variant that answers `request`.
pub open spec fn answers(request: Request, response: Response) -> bool {
    match request {
        Request::Status => response is Status,
        Request::Get { .. } => response is Get,
        Request::Gpio(_) => response is Gpio,
        Request::Exit => response is Exit,
        Request::Start(_) => response is Start,
        Request::Stop => response is Stop,
        Request::Restart(_) => response is Restart,
    }
}

impl Response {
    /// Tells whether this response is of the variant that answers `request`.
    pub fn answers(&self, request: &Request) -> (r: bool)
        ensures
            r == answers(*request, *self),
    {
        match request {
            Request::Status => matches!(self, Response::Status(_)),
            Request::Get { .. } => matches!(self, Response::Get(_)),
            Request::Gpio(_) => matches!(self, Response::Gpio(_)),
            Request::Exit => matches!(self, Response::Exit(_)),
            Request::Start(_) => matches!(self, Response::Start(_)),
            Request::Stop => matches!(self, Response::Stop(_)),
            Request::Restart(_) => matches!(self, Response::Restart(_)),
        }
    }
}

} // verus!
