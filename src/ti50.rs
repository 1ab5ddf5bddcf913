//! The transport that reaches a running emulator through its control
//! channel. Interface handles are built on first use and cached, so that
//! every caller asking for the same interface shares one handle.
use vstd::prelude::*;
use std::rc::Rc;
use crate::control::control_socket_path;
use crate::emulator::{
    error_of, state_of, status_from_response, EmulatorArguments, EmulatorError, EmulatorState,
};
use crate::protocol::{EmulatorArgs, GpioCommand, GpioMode, GpioPullMode, Request, Response};
use crate::transport::{
    cache_find, cache_index, cache_insert, cache_names_unique, Capabilities, TransportError,
    TransportInterfaceType,
};

verus! {

/// The baud rate of the emulated console.
pub const UART_BAUDRATE: u32 = 7200;

/// The console of the emulated device.
#[derive(Debug)]
pub struct Ti50Uart {
    pub instance_id: String,
}

impl Ti50Uart {
    pub fn open(ti: &Ti50) -> (r: Result<Ti50Uart, TransportError>)
        ensures
            r matches Ok(u) && u.instance_id == ti.instance_id,
    {
        Ok(Ti50Uart { instance_id: ti.instance_id.clone() })
    }

    pub fn get_baudrate(&self) -> (r: u32)
        ensures
            r == UART_BAUDRATE,
    {
        UART_BAUDRATE
    }

    /// Setting the baud rate of a virtual console has no effect.
    pub fn set_baudrate(&self, _baudrate: u32) -> (r: Result<(), TransportError>)
        ensures
            r is Ok,
    {
        Ok(())
    }
}

/// One GPIO pin of the emulated device.
#[derive(Debug)]
pub struct Ti50Gpio {
    pub instance_id: String,
    pub pin_id: String,
}

impl Ti50Gpio {
    pub fn open(ti: &Ti50, pin_id: &str) -> (r: Result<Ti50Gpio, TransportError>)
        ensures
            r matches Ok(g) && g.instance_id == ti.instance_id && g.pin_id@ == pin_id@,
    {
        Ok(Ti50Gpio { instance_id: ti.instance_id.clone(), pin_id: pin_id.to_owned() })
    }

    /// The request that reads the pin.
    pub fn read_request(&self) -> (r: Request)
        ensures
            r matches Request::Gpio(GpioCommand::Get { id }) && id@ == self.pin_id@,
    {
        Request::Gpio(GpioCommand::Get { id: self.pin_id.clone() })
    }

    /// The request that drives the pin to `value`.
    pub fn write_request(&self, value: bool) -> (r: Request)
        ensures
            r matches Request::Gpio(GpioCommand::SetValue { id, logic }) && id@ == self.pin_id@
                && logic == value,
    {
        Request::Gpio(GpioCommand::SetValue { id: self.pin_id.clone(), logic: value })
    }

    /// The request that sets the mode of the pin.
    pub fn set_mode_request(&self, mode: GpioMode) -> (r: Request)
        ensures
            r matches Request::Gpio(GpioCommand::SetMode { id, mode: m }) && id@ == self.pin_id@
                && m == mode,
    {
        Request::Gpio(GpioCommand::SetMode { id: self.pin_id.clone(), mode })
    }

    /// The request that sets the pull resistors of the pin.
    pub fn set_pull_mode_request(&self, pull: GpioPullMode) -> (r: Request)
        ensures
            r matches Request::Gpio(GpioCommand::SetPullMode { id, pull: p }) && id@ == self.pin_id@
                && p == pull,
    {
        Request::Gpio(GpioCommand::SetPullMode { id: self.pin_id.clone(), pull })
    }
}

/// The emulator control of the device.
#[derive(Debug)]
pub struct Ti50Emulator {
    pub instance_id: String,
}

impl Ti50Emulator {
    pub fn open(ti: &Ti50) -> (r: Result<Ti50Emulator, TransportError>)
        ensures
            r matches Ok(e) && e.instance_id == ti.instance_id,
    {
        Ok(Ti50Emulator { instance_id: ti.instance_id.clone() })
    }

    /// The request that asks for the device state.
    pub fn status_request(&self) -> (r: Request)
        ensures
            r is Status,
    {
        Request::Status
    }

    /// The request that starts the emulator with `args`.
    pub fn start_request(&self, args: EmulatorArguments) -> (r: Request)
        ensures
            r matches Request::Start(a) && a.executable == args.executable && a.args == args.arguments,
    {
        Request::Start(EmulatorArgs { executable: args.executable, args: args.arguments })
    }

    /// The request that restarts the emulator with `update`.
    pub fn restart_request(&self, update: EmulatorArguments) -> (r: Request)
        ensures
            r matches Request::Restart(a) && a.executable == update.executable && a.args
                == update.arguments,
    {
        Request::Restart(EmulatorArgs { executable: update.executable, args: update.arguments })
    }

    /// The request that stops the emulator.
    pub fn stop_request(&self) -> (r: Request)
        ensures
            r is Stop,
    {
        Request::Stop
    }

    /// The request that makes the emulator exit.
    pub fn exit_request(&self) -> (r: Request)
        ensures
            r is Exit,
    {
        Request::Exit
    }

    /// Reads the answer to [`Ti50Emulator::status_request`].
    pub fn status(&self, response: Response) -> (r: Result<EmulatorState, EmulatorError>)
        ensures
            response matches Response::Status(Ok(s)) ==> r == Ok::<EmulatorState, EmulatorError>(
                state_of(s),
            ),
            response matches Response::Status(Err(m)) ==> r == Err::<EmulatorState, EmulatorError>(
                error_of(m),
            ),
            !(response is Status) ==> r is Err && r->Err_0 is Protocol,
    {
        status_from_response(response)
    }
}

/// The transport to an emulator instance reached through its control channel.
#[derive(Debug)]
pub struct Ti50 {
    pub instance_id: String,
    /// Where the control channel of the instance listens.
    pub control_socket: String,
    pub uart: Option<Rc<Ti50Uart>>,
    pub gpio: Vec<(String, Rc<Ti50Gpio>)>,
    pub emu: Option<Rc<Ti50Emulator>>,
}

/// What `gpio_pin(name)` does: the state after it and its result.
pub open spec fn gpio_pin_spec(old: Ti50, name: Seq<char>, new: Ti50, r: Result<Rc<Ti50Gpio>, TransportError>) -> bool {
    &&& new.instance_id == old.instance_id
    &&& new.control_socket == old.control_socket
    &&& new.uart == old.uart
    &&& new.emu == old.emu
    &&& match cache_index(old.gpio@, name) {
        Some(i) => new.gpio == old.gpio && r == Ok::<Rc<Ti50Gpio>, TransportError>(old.gpio@[i].1),
        None => r matches Ok(h) && h.pin_id@ == name && h.instance_id == old.instance_id
            && new.gpio@.len() == old.gpio@.len() + 1
            && new.gpio@.subrange(0, old.gpio@.len() as int) == old.gpio@
            && new.gpio@.last().0@ == name && new.gpio@.last().1 == h,
    }
}

impl Ti50 {
    /// Each cached pin handle is for the pin it is cached under, on this instance.
    pub open spec fn wf(&self) -> bool {
        &&& cache_names_unique(self.gpio@)
        &&& forall|i: int|
            0 <= i < self.gpio@.len() ==> (#[trigger] self.gpio@[i]).1.pin_id@ == self.gpio@[i].0@
                && self.gpio@[i].1.instance_id == self.instance_id
    }

    /// A transport for the instance `instance_id`, with no interface opened yet.
    pub fn new(instance_id: Option<String>) -> (r: Result<Ti50, TransportError>)
        ensures
            instance_id is None ==> r is Err && r->Err_0 is MissingInstanceId,
            instance_id matches Some(id) ==> r matches Ok(t) && t.wf() && t.instance_id == id
                && t.control_socket@ == crate::control::control_socket_path_of(id@)
                && t.uart is None && t.gpio@.len() == 0 && t.emu is None,
    {
        match instance_id {
            Some(id) => {
                let control_socket = control_socket_path(id.as_str());
                Ok(Ti50 { instance_id: id, control_socket, uart: None, gpio: Vec::new(), emu: None })
            },
            None => Err(TransportError::MissingInstanceId),
        }
    }

    /// The console, GPIO and emulator control.
    pub fn capabilities(&self) -> (r: Capabilities)
        ensures
            r@ == set![
                TransportInterfaceType::Uart,
                TransportInterfaceType::Gpio,
                TransportInterfaceType::Emulator,
            ],
    {
        let r = Capabilities { uart: true, gpio: true, spi: false, i2c: false, emulator: true };
        assert(r@ =~= set![
            TransportInterfaceType::Uart,
            TransportInterfaceType::Gpio,
            TransportInterfaceType::Emulator,
        ]);
        r
    }

    /// The console; only instance `0` exists. It is built once and then shared.
    pub fn uart(&mut self, instance: &str) -> (r: Result<Rc<Ti50Uart>, TransportError>)
        requires
            old(self).wf(),
        ensures
            final(self).wf(),
            final(self).instance_id == old(self).instance_id,
            final(self).control_socket == old(self).control_socket,
            final(self).gpio == old(self).gpio,
            final(self).emu == old(self).emu,
            instance@ != "0"@ ==> *final(self) == *old(self),
            instance@ != "0"@ ==> (r matches Err(TransportError::InvalidInstance(kind, id)) && kind
                == TransportInterfaceType::Uart && id@ == instance@),
            instance@ == "0"@ ==> r is Ok && final(self).uart == Some(r->Ok_0),
            instance@ == "0"@ && old(self).uart is Some ==> *final(self) == *old(self) && r
                == Ok::<Rc<Ti50Uart>, TransportError>(old(self).uart->Some_0),
    {
        if instance.to_owned() != "0".to_owned() {
            return Err(TransportError::InvalidInstance(TransportInterfaceType::Uart, instance.to_owned()));
        }
        match &self.uart {
            Some(u) => Ok(Rc::clone(u)),
            None => {
                let u = Rc::new(Ti50Uart::open(self)?);
                self.uart = Some(Rc::clone(&u));
                Ok(u)
            },
        }
    }

    /// The GPIO pin `instance`, built on first use and then shared.
    pub fn gpio_pin(&mut self, instance: &str) -> (r: Result<Rc<Ti50Gpio>, TransportError>)
        requires
            old(self).wf(),
        ensures
            final(self).wf(),
            gpio_pin_spec(*old(self), instance@, *final(self), r),
            r matches Ok(h) && h.pin_id@ == instance@ && h.instance_id == old(self).instance_id,
    {
        match cache_find(&self.gpio, instance) {
            Some(i) => Ok(Rc::clone(&self.gpio[i].1)),
            None => {
                let g = Ti50Gpio::open(self, instance)?;
                let ghost before = self.gpio@;
                let h = cache_insert(&mut self.gpio, instance, g);
                proof {
                    assert forall|i: int| 0 <= i < self.gpio@.len() implies (#[trigger] self.gpio@[i]).1.pin_id@
                        == self.gpio@[i].0@ && self.gpio@[i].1.instance_id == self.instance_id by {
                        if i < before.len() {
                            assert(self.gpio@[i] == self.gpio@.subrange(0, before.len() as int)[i]);
                        }
                    }
                }
                Ok(h)
            },
        }
    }

    /// The emulator control, built once and then shared.
    pub fn emulator(&mut self) -> (r: Result<Rc<Ti50Emulator>, TransportError>)
        requires
            old(self).wf(),
        ensures
            final(self).wf(),
            final(self).instance_id == old(self).instance_id,
            final(self).control_socket == old(self).control_socket,
            final(self).gpio == old(self).gpio,
            final(self).uart == old(self).uart,
            r is Ok && final(self).emu == Some(r->Ok_0),
            old(self).emu is Some ==> *final(self) == *old(self) && r == Ok::<
                Rc<Ti50Emulator>,
                TransportError,
            >(old(self).emu->Some_0),
            old(self).emu is None ==> r->Ok_0.instance_id == old(self).instance_id,
    {
        match &self.emu {
            Some(e) => Ok(Rc::clone(e)),
            None => {
                let e = Rc::new(Ti50Emulator::open(self)?);
                self.emu = Some(Rc::clone(&e));
                Ok(e)
            },
        }
    }
}

/// Asking twice for the same GPIO pin yields the same cached handle, and the
/// second request changes nothing.
pub proof fn lemma_gpio_pin_cached(
    t0: Ti50,
    t1: Ti50,
    t2: Ti50,
    name: Seq<char>,
    r1: Result<Rc<Ti50Gpio>, TransportError>,
    r2: Result<Rc<Ti50Gpio>, TransportError>,
)
    requires
        t0.wf(),
        gpio_pin_spec(t0, name, t1, r1),
        gpio_pin_spec(t1, name, t2, r2),
    ensures
        r1 is Ok,
        r2 == r1,
        t2 == t1,
{
    match cache_index(t0.gpio@, name) {
        Some(i) => {},
        None => {
            let n = t0.gpio@.len() as int;
            assert(t1.gpio@[n].0@ == name);
            let j = cache_index(t1.gpio@, name);
            assert(j is Some);
            assert(t1.gpio@ == t0.gpio@.push(t1.gpio@[n]));
            let k = j->Some_0;
            if k != n {
                assert(t1.gpio@[k] == t0.gpio@[k]);
                assert(cache_index(t0.gpio@, name) is Some);
            }
        },
    }
}

/// Asking for two different pins yields a handle for each, and not the
/// same one.
pub proof fn lemma_gpio_pins_distinct(
    t0: Ti50,
    t1: Ti50,
    t2: Ti50,
    a: Seq<char>,
    b: Seq<char>,
    r1: Result<Rc<Ti50Gpio>, TransportError>,
    r2: Result<Rc<Ti50Gpio>, TransportError>,
)
    requires
        t0.wf(),
        t1.wf(),
        a != b,
        gpio_pin_spec(t0, a, t1, r1),
        gpio_pin_spec(t1, b, t2, r2),
    ensures
        r1 matches Ok(h1) && h1.pin_id@ == a,
        r2 matches Ok(h2) && h2.pin_id@ == b,
        r1 != r2,
{
    match cache_index(t0.gpio@, a) {
        Some(i) => {
            assert(t0.gpio@[i].0@ == a);
            assert(t0.gpio@[i].1.pin_id@ == t0.gpio@[i].0@);
        },
        None => {},
    }
    match cache_index(t1.gpio@, b) {
        Some(i) => {
            assert(t1.gpio@[i].0@ == b);
            assert(t1.gpio@[i].1.pin_id@ == t1.gpio@[i].0@);
        },
        None => {},
    }
}

} // verus!
