//! The emulator as a device: its states, its errors and its operations.
use vstd::prelude::*;
use crate::protocol::{DutState, ErrorMessage, GpioResult, GpioValue, Response};

verus! {

/// The state of the device under test.
#[derive(PartialEq, Eq, Structural, Clone, Copy, Debug)]
pub enum EmulatorState {
    DutPowerOn,
    DutPowerOff,
    DutBusy,
    DutError,
}

/// A failure of an emulator operation.
#[derive(Debug)]
pub enum EmulatorError {
    /// The device reported a runtime error.
    RuntimeError(String),
    /// The device reported an invalid argument.
    InvalidArgument(String),
    /// The device reported that it is busy.
    Busy,
    /// The answer broke the protocol: a response of the wrong kind, or bytes
    /// that are no packet. The device said nothing.
    Protocol(String),
    /// The control channel failed: no connection, or a read or a write failed.
    Connection(String),
}

/// The executable of an emulator and its arguments.
#[derive(Debug)]
pub struct EmulatorArguments {
    pub executable: String,
    pub arguments: Vec<(String, String)>,
}

/// The operations of an emulated device.
#[allow(non_snake_case)]
pub trait Emulator {
    fn Status(&self) -> Result<EmulatorState, EmulatorError>;

    fn Start(&self, args: EmulatorArguments) -> Result<(), EmulatorError>;

    fn Stop(&self) -> Result<(), EmulatorError>;

    fn Exit(&self) -> Result<(), EmulatorError>;

    fn Restart(&self, update: EmulatorArguments) -> Result<(), EmulatorError>;
}

/// The device state that the emulator reports as `s`.
pub open spec fn state_of(s: DutState) -> EmulatorState {
    match s {
        DutState::PowerOn => EmulatorState::DutPowerOn,
        DutState::PowerOff => EmulatorState::DutPowerOff,
        DutState::Busy => EmulatorState::DutBusy,
        DutState::Error => EmulatorState::DutError,
    }
}

/// The error that the emulator reports as `m`.
pub open spec fn error_of(m: ErrorMessage) -> EmulatorError {
    match m {
        ErrorMessage::ERROR(t) => EmulatorError::RuntimeError(t),
        ErrorMessage::INVALID(t) => EmulatorError::InvalidArgument(t),
        ErrorMessage::BUSY => EmulatorError::Busy,
    }
}

/// Maps a device state reported by the emulator onto the emulator state.
pub fn emulator_state(s: DutState) -> (r: EmulatorState)
    ensures
        r == state_of(s),
{
    match s {
        DutState::PowerOn => EmulatorState::DutPowerOn,
        DutState::PowerOff => EmulatorState::DutPowerOff,
        DutState::Busy => EmulatorState::DutBusy,
        DutState::Error => EmulatorState::DutError,
    }
}

/// Maps an error reported by the emulator onto an emulator error.
pub fn emulator_error(m: ErrorMessage) -> (r: EmulatorError)
    ensures
        r == error_of(m),
{
    match m {
        ErrorMessage::ERROR(t) => EmulatorError::RuntimeError(t),
        ErrorMessage::INVALID(t) => EmulatorError::InvalidArgument(t),
        ErrorMessage::BUSY => EmulatorError::Busy,
    }
}

/// Reads the answer to a status request: the reported state, the reported
/// error, or a protocol error where the answer is not a status at all.
pub fn status_from_response(response: Response) -> (r: Result<EmulatorState, EmulatorError>)
    ensures
        response matches Response::Status(Ok(s)) ==> r == Ok::<EmulatorState, EmulatorError>(
            state_of(s),
        ),
        response matches Response::Status(Err(m)) ==> r == Err::<EmulatorState, EmulatorError>(
            error_of(m),
        ),
        !(response is Status) ==> r is Err && r->Err_0 is Protocol,
{
    match response {
        Response::Status(Ok(s)) => Ok(emulator_state(s)),
        Response::Status(Err(m)) => Err(emulator_error(m)),
        _ => Err(EmulatorError::Protocol("expected a status response".to_owned())),
    }
}

/// Reads the answer to an exit, start, stop or restart request: its
/// reported error, if any, or a protocol error where the answer is of
/// another kind.
pub fn unit_from_response(response: Response) -> (r: Result<(), EmulatorError>)
    ensures
        response matches Response::Exit(Ok(_)) ==> r is Ok,
        response matches Response::Start(Ok(_)) ==> r is Ok,
        response matches Response::Stop(Ok(_)) ==> r is Ok,
        response matches Response::Restart(Ok(_)) ==> r is Ok,
        response matches Response::Exit(Err(m)) ==> r == Err::<(), EmulatorError>(error_of(m)),
        response matches Response::Start(Err(m)) ==> r == Err::<(), EmulatorError>(error_of(m)),
        response matches Response::Stop(Err(m)) ==> r == Err::<(), EmulatorError>(error_of(m)),
        response matches Response::Restart(Err(m)) ==> r == Err::<(), EmulatorError>(error_of(m)),
        (response is Status || response is Get || response is Gpio) ==> r is Err && r->Err_0 is Protocol,
{
    match response {
        Response::Exit(result) => unit_from_result(result),
        Response::Start(result) => unit_from_result(result),
        Response::Stop(result) => unit_from_result(result),
        Response::Restart(result) => unit_from_result(result),
        _ => Err(EmulatorError::Protocol("expected an exit, start, stop or restart response".to_owned())),
    }
}

/// Reads the answer to a GPIO read: the level reported, the reported error,
/// or a protocol error where the answer is no GPIO read result.
pub fn gpio_value_from_response(response: Response) -> (r: Result<GpioValue, EmulatorError>)
    ensures
        response matches Response::Gpio(Ok(GpioResult::Get { value })) ==> r == Ok::<
            GpioValue,
            EmulatorError,
        >(value),
        response matches Response::Gpio(Err(m)) ==> r == Err::<GpioValue, EmulatorError>(error_of(m)),
        !(response matches Response::Gpio(Ok(GpioResult::Get { .. }))) && !(response matches Response::Gpio(
            Err(_),
        )) ==> r is Err && r->Err_0 is Protocol,
{
    match response {
        Response::Gpio(Ok(GpioResult::Get { value })) => Ok(value),
        Response::Gpio(Err(m)) => Err(emulator_error(m)),
        _ => Err(EmulatorError::Protocol("expected the result of a GPIO read".to_owned())),
    }
}

/// Reads the answer to a GPIO write or mode change: success, the reported
/// error, or a protocol error where the answer is not the acknowledgement
/// of `expected`.
pub fn gpio_done_from_response(response: Response, expected: GpioResult) -> (r: Result<(), EmulatorError>)
    ensures
        response matches Response::Gpio(Ok(g)) ==> if g == expected && !(expected is Get) {
            r is Ok
        } else {
            r is Err && r->Err_0 is Protocol
        },
        response matches Response::Gpio(Err(m)) ==> r == Err::<(), EmulatorError>(error_of(m)),
        !(response is Gpio) ==> r is Err && r->Err_0 is Protocol,
{
    match response {
        Response::Gpio(Ok(g)) => {
            let is_get = match expected {
                GpioResult::Get { .. } => true,
                _ => false,
            };
            if g == expected && !is_get {
                Ok(())
            } else {
                Err(EmulatorError::Protocol("unexpected GPIO result".to_owned()))
            }
        },
        Response::Gpio(Err(m)) => Err(emulator_error(m)),
        _ => Err(EmulatorError::Protocol("expected a GPIO result".to_owned())),
    }
}

/// Reads the answer to a request that carries no result.
pub fn unit_from_result(result: Result<(), ErrorMessage>) -> (r: Result<(), EmulatorError>)
    ensures
        result is Ok ==> r is Ok,
        result matches Err(m) ==> r == Err::<(), EmulatorError>(error_of(m)),
{
    match result {
        Ok(()) => Ok(()),
        Err(m) => Err(emulator_error(m)),
    }
}

} // verus!
