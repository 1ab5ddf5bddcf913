use std::rc::Rc;
use ti50_control::backend::{create, BackendOpts};
use ti50_control::protocol::{GpioCommand, GpioMode, GpioPullMode, Request};
use ti50_control::supervisor::{
    AcceptEvent, EmuState, ExitProbe, Liveness, ReadinessWatch, StartupStep, StopStep,
    TerminationWatch,
};
use ti50_control::ti50::Ti50;
use ti50_control::ti50emulator::{Ti50Emulator, Ti50GpioPin, Ti50I2c, Ti50Spi, TransferMode};
use ti50_control::transport::{TransportError, TransportInterfaceType};

#[test]
fn missing_instance_id_is_refused() {
    assert!(matches!(Ti50::new(None), Err(TransportError::MissingInstanceId)));
    assert!(matches!(
        create(&BackendOpts { instance_id: None }),
        Err(TransportError::MissingInstanceId)
    ));
    let t = create(&BackendOpts { instance_id: Some("inst".to_string()) }).unwrap();
    assert_eq!(t.control_socket, "/tmp/inst/ctl.unix");
}

#[test]
fn gpio_pin_is_cached() {
    let mut t = Ti50::new(Some("inst".to_string())).unwrap();
    let a = t.gpio_pin("0").unwrap();
    let b = t.gpio_pin("0").unwrap();
    assert!(Rc::ptr_eq(&a, &b));
    assert_eq!(t.gpio.len(), 1);
    let c = t.gpio_pin("1").unwrap();
    assert!(!Rc::ptr_eq(&a, &c));
    assert_eq!(a.pin_id, "0");
    assert_eq!(c.pin_id, "1");
    assert_eq!(t.gpio.len(), 2);
    let d = t.gpio_pin("0").unwrap();
    assert!(Rc::ptr_eq(&a, &d));
}

#[test]
fn gpio_requests_name_the_pin() {
    let mut t = Ti50::new(Some("inst".to_string())).unwrap();
    let g = t.gpio_pin("7").unwrap();
    assert!(matches!(g.read_request(), Request::Gpio(GpioCommand::Get { id }) if id == "7"));
    assert!(matches!(
        g.write_request(true),
        Request::Gpio(GpioCommand::SetValue { id, logic: true }) if id == "7"
    ));
    assert!(matches!(
        g.set_mode_request(GpioMode::OpenDrain),
        Request::Gpio(GpioCommand::SetMode { id, mode: GpioMode::OpenDrain }) if id == "7"
    ));
    assert!(matches!(
        g.set_pull_mode_request(GpioPullMode::PullUp),
        Request::Gpio(GpioCommand::SetPullMode { id, pull: GpioPullMode::PullUp }) if id == "7"
    ));
}

#[test]
fn uart_only_instance_zero() {
    let mut t = Ti50::new(Some("inst".to_string())).unwrap();
    match t.uart("1") {
        Err(TransportError::InvalidInstance(TransportInterfaceType::Uart, id)) => assert_eq!(id, "1"),
        other => panic!("unexpected {:?}", other),
    }
    assert!(t.uart.is_none());
    let a = t.uart("0").unwrap();
    let b = t.uart("0").unwrap();
    assert!(Rc::ptr_eq(&a, &b));
    assert_eq!(a.get_baudrate(), 7200);
    assert!(a.set_baudrate(115200).is_ok());
}

#[test]
fn emulator_control_is_cached() {
    let mut t = Ti50::new(Some("inst".to_string())).unwrap();
    let a = t.emulator().unwrap();
    let b = t.emulator().unwrap();
    assert!(Rc::ptr_eq(&a, &b));
    assert!(matches!(a.status_request(), Request::Status));
}

#[test]
fn control_transport_capabilities() {
    let t = Ti50::new(Some("inst".to_string())).unwrap();
    let c = t.capabilities();
    assert!(c.contains(TransportInterfaceType::Uart));
    assert!(c.contains(TransportInterfaceType::Gpio));
    assert!(c.contains(TransportInterfaceType::Emulator));
    assert!(!c.contains(TransportInterfaceType::Spi));
    assert!(!c.contains(TransportInterfaceType::I2c));
    assert!(matches!(c.require(TransportInterfaceType::Spi), Err(TransportError::UnsupportedOperation)));
    assert!(c.require(TransportInterfaceType::Gpio).is_ok());
}

fn emulator_transport() -> Ti50Emulator {
    Ti50Emulator::open("/opt/emu".to_string(), "emu_bin".to_string(), "test", 1, 2, 3)
}

#[test]
fn unsupported_interfaces_leave_caches_empty() {
    let mut t = emulator_transport();
    assert!(matches!(t.gpio_pin("0"), Err(TransportError::UnsupportedOperation)));
    assert!(matches!(t.spi("0"), Err(TransportError::UnsupportedOperation)));
    assert!(matches!(t.i2c("0"), Err(TransportError::UnsupportedOperation)));
    assert!(matches!(t.uart("0"), Err(TransportError::UnsupportedOperation)));
    assert!(t.gpio_map.is_empty());
    assert!(t.spi_map.is_empty());
    assert!(t.i2c_map.is_empty());
    assert!(t.uart_map.is_empty());
}

#[test]
fn emulator_handle_is_shared() {
    let mut t = emulator_transport();
    let a = t.emulator().unwrap();
    let b = t.emulator().unwrap();
    assert!(Rc::ptr_eq(&a, &b));
    assert_eq!(a.instance_name, "test_1_2_3");
}

#[test]
fn start_and_stop_an_emulator() {
    let mut t = Ti50Emulator::open(
        "/tmp/dir".to_string(),
        "emu_bin".to_string(),
        "test",
        4242,
        1700000000,
        1700000000123456789,
    );
    t.inner.reconcile(ExitProbe::Running).unwrap();
    let plan = t.inner.begin_start(false, vec![]).unwrap();
    assert_eq!(plan.program, "/tmp/dir/emu_bin");
    assert!(plan.arguments.iter().any(|a| a.starts_with("--control_socket /tmp/test_4242_")));
    assert!(!plan.reset_runtime);
    let mut watch = ReadinessWatch::new();
    assert_eq!(watch.on_accept(&AcceptEvent::WouldBlock), StartupStep::Wait);
    let step = watch.on_accept(&AcceptEvent::Connected(b"READY".to_vec()));
    assert_eq!(step, StartupStep::Ready);
    t.inner.finish_start(Some(777), step).unwrap();
    assert_eq!(t.inner.state, EmuState::On);
    let caps = t.capabilities();
    assert!(caps.contains(TransportInterfaceType::Emulator));
    assert!(caps.contains(TransportInterfaceType::Uart));
    assert!(caps.contains(TransportInterfaceType::Gpio));
    t.inner.reconcile(ExitProbe::Running).unwrap();
    assert_eq!(t.inner.begin_stop().unwrap(), Some(777));
    let mut term = TerminationWatch::new();
    assert_eq!(term.on_probe(Liveness::Gone), StopStep::Stopped);
    t.inner.finish_stop(Ok(())).unwrap();
    assert_eq!(t.inner.state, EmuState::Off);
    assert!(t.inner.process.is_none());
}

#[test]
fn emulator_backend_interfaces_are_unsupported() {
    let spi = Ti50Spi {};
    assert_eq!(spi.get_bits_per_word().unwrap(), 8);
    assert!(matches!(spi.set_transfer_mode(TransferMode::Mode0), Err(TransportError::UnsupportedOperation)));
    assert!(matches!(spi.get_max_speed(), Err(TransportError::UnsupportedOperation)));
    let pin = Ti50GpioPin {};
    assert!(matches!(pin.read(), Err(TransportError::UnsupportedOperation)));
    assert!(matches!(pin.write(true), Err(TransportError::UnsupportedOperation)));
    let bus = Ti50I2c {};
    assert!(matches!(bus.run_transaction(0x50), Err(TransportError::UnsupportedOperation)));
}
