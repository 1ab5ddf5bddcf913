//! The transport backed by an emulator subprocess that this process
//! supervises. The transport owns the supervisor; interface handles are
//! looked up in per-kind caches and built on a miss, and a handle that
//! cannot be built leaves its cache as it was.
use vstd::prelude::*;
use std::rc::Rc;
use crate::protocol::{GpioMode, GpioPullMode};
use crate::supervisor::{EmuState, Supervisor, instance_name_of, join_path};
use crate::transport::{
    cache_find, cache_index, cache_insert, cache_names_unique, Capabilities, TransportError,
    TransportInterfaceType,
};

verus! {

/// The emulator control of a supervised instance.
#[derive(Debug)]
pub struct Ti50Emu {
    pub instance_name: String,
}

impl Ti50Emu {
    pub fn open(ti50: &Ti50Emulator) -> (r: Result<Ti50Emu, TransportError>)
        ensures
            r matches Ok(e) && e.instance_name == ti50.inner.instance_name,
    {
        Ok(Ti50Emu { instance_name: ti50.inner.instance_name.clone() })
    }
}

/// A GPIO pin of the supervised emulator; not implemented by this backend.
#[derive(Debug)]
pub struct Ti50GpioPin {}

impl Ti50GpioPin {
    pub fn open(_emulator: &Ti50Emulator, _pinname: &str) -> (r: Result<Ti50GpioPin, TransportError>)
        ensures
            r is Err && r->Err_0 is UnsupportedOperation,
    {
        Err(TransportError::UnsupportedOperation)
    }

    pub fn read(&self) -> (r: Result<bool, TransportError>)
        ensures
            r is Err && r->Err_0 is UnsupportedOperation,
    {
        Err(TransportError::UnsupportedOperation)
    }

    pub fn write(&self, _value: bool) -> (r: Result<(), TransportError>)
        ensures
            r is Err && r->Err_0 is UnsupportedOperation,
    {
        Err(TransportError::UnsupportedOperation)
    }

    pub fn set_mode(&self, _mode: GpioMode) -> (r: Result<(), TransportError>)
        ensures
            r is Err && r->Err_0 is UnsupportedOperation,
    {
        Err(TransportError::UnsupportedOperation)
    }

    pub fn set_pull_mode(&self, _mode: GpioPullMode) -> (r: Result<(), TransportError>)
        ensures
            r is Err && r->Err_0 is UnsupportedOperation,
    {
        Err(TransportError::UnsupportedOperation)
    }
}

/// An I2C bus of the supervised emulator; not implemented by this backend.
#[derive(Debug)]
pub struct Ti50I2c {}

impl Ti50I2c {
    pub fn open(_emulator: &Ti50Emulator, _instance: &str) -> (r: Result<Ti50I2c, TransportError>)
        ensures
            r is Err && r->Err_0 is UnsupportedOperation,
    {
        Err(TransportError::UnsupportedOperation)
    }

    pub fn run_transaction(&self, _addr: u8) -> (r: Result<(), TransportError>)
        ensures
            r is Err && r->Err_0 is UnsupportedOperation,
    {
        Err(TransportError::UnsupportedOperation)
    }
}

/// The clock polarity and phase of an SPI bus.
#[derive(PartialEq, Eq, Structural, Clone, Copy, Debug)]
pub enum TransferMode {
    Mode0,
    Mode1,
    Mode2,
    Mode3,
}

/// The bits per word of the emulated SPI bus.
pub const SPI_BITS_PER_WORD: u32 = 8;

/// An SPI bus of the supervised emulator; apart from the word size, not
/// implemented by this backend.
#[derive(Debug)]
pub struct Ti50Spi {}

impl Ti50Spi {
    pub fn open(_emulator: &Ti50Emulator, _instance: &str) -> (r: Result<Ti50Spi, TransportError>)
        ensures
            r is Err && r->Err_0 is UnsupportedOperation,
    {
        Err(TransportError::UnsupportedOperation)
    }

    pub fn get_transfer_mode(&self) -> (r: Result<TransferMode, TransportError>)
        ensures
            r is Err && r->Err_0 is UnsupportedOperation,
    {
        Err(TransportError::UnsupportedOperation)
    }

    pub fn set_transfer_mode(&self, _mode: TransferMode) -> (r: Result<(), TransportError>)
        ensures
            r is Err && r->Err_0 is UnsupportedOperation,
    {
        Err(TransportError::UnsupportedOperation)
    }

    pub fn get_bits_per_word(&self) -> (r: Result<u32, TransportError>)
        ensures
            r == Ok::<u32, TransportError>(SPI_BITS_PER_WORD),
    {
        Ok(SPI_BITS_PER_WORD)
    }

    pub fn set_bits_per_word(&self, _bits_per_word: u32) -> (r: Result<(), TransportError>)
        ensures
            r is Err && r->Err_0 is UnsupportedOperation,
    {
        Err(TransportError::UnsupportedOperation)
    }

    pub fn get_max_speed(&self) -> (r: Result<u32, TransportError>)
        ensures
            r is Err && r->Err_0 is UnsupportedOperation,
    {
        Err(TransportError::UnsupportedOperation)
    }

    pub fn set_max_speed(&self, _max_speed: u32) -> (r: Result<(), TransportError>)
        ensures
            r is Err && r->Err_0 is UnsupportedOperation,
    {
        Err(TransportError::UnsupportedOperation)
    }

    pub fn get_max_transfer_count(&self) -> (r: Result<usize, TransportError>)
        ensures
            r is Err && r->Err_0 is UnsupportedOperation,
    {
        Err(TransportError::UnsupportedOperation)
    }

    pub fn max_chunk_size(&self) -> (r: Result<usize, TransportError>)
        ensures
            r is Err && r->Err_0 is UnsupportedOperation,
    {
        Err(TransportError::UnsupportedOperation)
    }

    pub fn run_transaction(&self, _transaction: &mut Vec<u8>) -> (r: Result<(), TransportError>)
        ensures
            r is Err && r->Err_0 is UnsupportedOperation,
    {
        Err(TransportError::UnsupportedOperation)
    }
}

/// A console of the supervised emulator; not implemented by this backend.
#[derive(Debug)]
pub struct Ti50Uart {}

impl Ti50Uart {
    pub fn open(_emulator: &Ti50Emulator, _instance: &str) -> (r: Result<Ti50Uart, TransportError>)
        ensures
            r is Err && r->Err_0 is UnsupportedOperation,
    {
        Err(TransportError::UnsupportedOperation)
    }
}

/// What a cached accessor whose handles cannot be built does: a cached
/// handle is returned; otherwise the build fails with `UnsupportedOperation`
/// and the cache stays as it was.
pub open spec fn lookup_spec<H>(
    old: Seq<(String, Rc<H>)>,
    name: Seq<char>,
    new: Seq<(String, Rc<H>)>,
    r: Result<Rc<H>, TransportError>,
) -> bool {
    &&& new == old
    &&& match cache_index(old, name) {
        Some(i) => r == Ok::<Rc<H>, TransportError>(old[i].1),
        None => r is Err && r->Err_0 is UnsupportedOperation,
    }
}

/// The transport backed by a supervised emulator subprocess.
#[derive(Debug)]
pub struct Ti50Emulator {
    pub inner: Supervisor,
    pub emulator: Option<Rc<Ti50Emu>>,
    pub spi_map: Vec<(String, Rc<Ti50Spi>)>,
    pub gpio_map: Vec<(String, Rc<Ti50GpioPin>)>,
    pub i2c_map: Vec<(String, Rc<Ti50I2c>)>,
    pub uart_map: Vec<(String, Rc<Ti50Uart>)>,
}

impl Ti50Emulator {
    pub open spec fn wf(&self) -> bool {
        &&& self.inner.wf()
        &&& cache_names_unique(self.spi_map@)
        &&& cache_names_unique(self.gpio_map@)
        &&& cache_names_unique(self.i2c_map@)
        &&& cache_names_unique(self.uart_map@)
    }

    /// A transport for a new instance of `executable`, which lies in
    /// `executable_directory`; nothing runs yet and no interface is open.
    /// The instance is named from `instance_prefix`, the process id `pid`
    /// and the time since the epoch, `secs` and `nanos`.
    pub fn open(
        executable_directory: String,
        executable: String,
        instance_prefix: &str,
        pid: u32,
        secs: u64,
        nanos: u128,
    ) -> (r: Ti50Emulator)
        ensures
            r.wf(),
            r.inner.instance_name@ == instance_name_of(instance_prefix@, pid as nat, secs as nat, nanos as nat),
            r.inner.instance_directory@ == join_path("/tmp"@, r.inner.instance_name@),
            r.inner.resource_directory@ == join_path(r.inner.instance_directory@, "resources"@),
            r.inner.runtime_directory@ == join_path(r.inner.instance_directory@, "runtime"@),
            r.inner.executable_directory == executable_directory,
            r.inner.executable == executable,
            r.inner.current_args@.len() == 0,
            r.inner.state == EmuState::Off,
            r.inner.process is None,
            r.emulator is None,
            r.spi_map@.len() == 0,
            r.gpio_map@.len() == 0,
            r.i2c_map@.len() == 0,
            r.uart_map@.len() == 0,
    {
        Ti50Emulator {
            inner: Supervisor::new(executable_directory, executable, instance_prefix, pid, secs, nanos),
            emulator: None,
            spi_map: Vec::new(),
            gpio_map: Vec::new(),
            i2c_map: Vec::new(),
            uart_map: Vec::new(),
        }
    }

    /// Console, GPIO, SPI, I2C and emulator control.
    pub fn capabilities(&self) -> (r: Capabilities)
        ensures
            r@ == set![
                TransportInterfaceType::Uart,
                TransportInterfaceType::Gpio,
                TransportInterfaceType::Spi,
                TransportInterfaceType::I2c,
                TransportInterfaceType::Emulator,
            ],
    {
        let r = Capabilities { uart: true, gpio: true, spi: true, i2c: true, emulator: true };
        assert(r@ =~= set![
            TransportInterfaceType::Uart,
            TransportInterfaceType::Gpio,
            TransportInterfaceType::Spi,
            TransportInterfaceType::I2c,
            TransportInterfaceType::Emulator,
        ]);
        r
    }

    /// The SPI bus `instance`.
    pub fn spi(&mut self, instance: &str) -> (r: Result<Rc<Ti50Spi>, TransportError>)
        requires
            old(self).wf(),
        ensures
            final(self).wf(),
            final(self).inner == old(self).inner,
            final(self).emulator == old(self).emulator,
            final(self).gpio_map == old(self).gpio_map,
            final(self).i2c_map == old(self).i2c_map,
            final(self).uart_map == old(self).uart_map,
            lookup_spec(old(self).spi_map@, instance@, final(self).spi_map@, r),
    {
        match cache_find(&self.spi_map, instance) {
            Some(i) => Ok(Rc::clone(&self.spi_map[i].1)),
            None => {
                let s = Ti50Spi::open(self, instance)?;
                Ok(cache_insert(&mut self.spi_map, instance, s))
            },
        }
    }

    /// The I2C bus `instance`.
    pub fn i2c(&mut self, instance: &str) -> (r: Result<Rc<Ti50I2c>, TransportError>)
        requires
            old(self).wf(),
        ensures
            final(self).wf(),
            final(self).inner == old(self).inner,
            final(self).emulator == old(self).emulator,
            final(self).spi_map == old(self).spi_map,
            final(self).gpio_map == old(self).gpio_map,
            final(self).uart_map == old(self).uart_map,
            lookup_spec(old(self).i2c_map@, instance@, final(self).i2c_map@, r),
    {
        match cache_find(&self.i2c_map, instance) {
            Some(i) => Ok(Rc::clone(&self.i2c_map[i].1)),
            None => {
                let b = Ti50I2c::open(self, instance)?;
                Ok(cache_insert(&mut self.i2c_map, instance, b))
            },
        }
    }

    /// The console `instance`.
    pub fn uart(&mut self, instance: &str) -> (r: Result<Rc<Ti50Uart>, TransportError>)
        requires
            old(self).wf(),
        ensures
            final(self).wf(),
            final(self).inner == old(self).inner,
            final(self).emulator == old(self).emulator,
            final(self).spi_map == old(self).spi_map,
            final(self).gpio_map == old(self).gpio_map,
            final(self).i2c_map == old(self).i2c_map,
            lookup_spec(old(self).uart_map@, instance@, final(self).uart_map@, r),
    {
        match cache_find(&self.uart_map, instance) {
            Some(i) => Ok(Rc::clone(&self.uart_map[i].1)),
            None => {
                let u = Ti50Uart::open(self, instance)?;
                Ok(cache_insert(&mut self.uart_map, instance, u))
            },
        }
    }

    /// The GPIO pin `pinname`.
    pub fn gpio_pin(&mut self, pinname: &str) -> (r: Result<Rc<Ti50GpioPin>, TransportError>)
        requires
            old(self).wf(),
        ensures
            final(self).wf(),
            final(self).inner == old(self).inner,
            final(self).emulator == old(self).emulator,
            final(self).spi_map == old(self).spi_map,
            final(self).i2c_map == old(self).i2c_map,
            final(self).uart_map == old(self).uart_map,
            lookup_spec(old(self).gpio_map@, pinname@, final(self).gpio_map@, r),
    {
        match cache_find(&self.gpio_map, pinname) {
            Some(i) => Ok(Rc::clone(&self.gpio_map[i].1)),
            None => {
                let g = Ti50GpioPin::open(self, pinname)?;
                Ok(cache_insert(&mut self.gpio_map, pinname, g))
            },
        }
    }

    /// The emulator control, built once and then shared.
    pub fn emulator(&mut self) -> (r: Result<Rc<Ti50Emu>, TransportError>)
        requires
            old(self).wf(),
        ensures
            final(self).wf(),
            final(self).inner == old(self).inner,
            final(self).spi_map == old(self).spi_map,
            final(self).gpio_map == old(self).gpio_map,
            final(self).i2c_map == old(self).i2c_map,
            final(self).uart_map == old(self).uart_map,
            r is Ok && final(self).emulator == Some(r->Ok_0),
            old(self).emulator is Some ==> r == Ok::<Rc<Ti50Emu>, TransportError>(
                old(self).emulator->Some_0,
            ),
            old(self).emulator is None ==> r->Ok_0.instance_name == old(self).inner.instance_name,
    {
        match &self.emulator {
            Some(e) => Ok(Rc::clone(e)),
            None => {
                let e = Rc::new(Ti50Emu::open(self)?);
                self.emulator = Some(Rc::clone(&e));
                Ok(e)
            },
        }
    }
}

} // verus!
