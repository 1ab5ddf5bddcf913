use ti50_control::control::{
    control_socket_path, find_terminator, frame_record, take_record, unpack_request,
    unpack_response, ControlInterfaceError,
};
use ti50_control::emulator::{
    gpio_done_from_response, gpio_value_from_response, status_from_response, unit_from_response,
    unit_from_result, EmulatorError, EmulatorState,
};
use ti50_control::protocol::{
    ControlPacket, DutState, EmulatorArgs, ErrorMessage, GpioCommand, GpioResult, GpioValue,
    Request, Response,
};

#[test]
fn socket_path_of_instance() {
    assert_eq!(control_socket_path("abc"), "/tmp/abc/ctl.unix");
}

#[test]
fn records_are_framed_and_split() {
    assert_eq!(frame_record(b"{}".to_vec()), b"{}\n".to_vec());
    assert_eq!(find_terminator(&b"ab\ncd\n".to_vec()), Some(2));
    assert_eq!(find_terminator(&b"abcd".to_vec()), None);
    assert_eq!(take_record(&b"ab\ncd\n".to_vec()), b"ab".to_vec());
    assert_eq!(take_record(&b"abcd".to_vec()), b"abcd".to_vec());
    assert_eq!(take_record(&b"\nabcd".to_vec()), Vec::<u8>::new());
}

fn all_requests() -> Vec<Request> {
    vec![
        Request::Status,
        Request::Get { dev: "uart0".to_string() },
        Request::Gpio(GpioCommand::Get { id: "0".to_string() }),
        Request::Exit,
        Request::Start(EmulatorArgs { executable: "emu".to_string(), args: vec![] }),
        Request::Stop,
        Request::Restart(EmulatorArgs {
            executable: "emu".to_string(),
            args: vec![("flash".to_string(), "f.bin".to_string())],
        }),
    ]
}

fn all_responses() -> Vec<Response> {
    vec![
        Response::Status(Ok(DutState::PowerOn)),
        Response::Get(Err(ErrorMessage::BUSY)),
        Response::Gpio(Ok(GpioResult::Get { value: GpioValue::Hi })),
        Response::Exit(Ok(())),
        Response::Start(Err(ErrorMessage::ERROR("boom".to_string()))),
        Response::Stop(Ok(())),
        Response::Restart(Err(ErrorMessage::INVALID("bad".to_string()))),
    ]
}

#[test]
fn response_of_matching_variant_is_accepted() {
    let requests = all_requests();
    for (i, resp) in all_responses().into_iter().enumerate() {
        let r = unpack_response(&requests[i], ControlPacket::Res(resp));
        assert!(r.is_ok());
    }
}

#[test]
fn response_of_other_variant_is_refused() {
    let requests = all_requests();
    for (i, req) in requests.iter().enumerate() {
        for (j, resp) in all_responses().into_iter().enumerate() {
            if i != j {
                let r = unpack_response(req, ControlPacket::Res(resp));
                assert!(matches!(r, Err(ControlInterfaceError::UnexpectedVariant)));
            }
        }
    }
}

#[test]
fn request_where_response_expected_is_refused() {
    for req in all_requests() {
        let r = unpack_response(&Request::Status, ControlPacket::Req(req));
        assert!(matches!(r, Err(ControlInterfaceError::InvalidPacketType(_))));
    }
}

#[test]
fn response_where_request_expected_is_refused() {
    for resp in all_responses() {
        let r = unpack_request(ControlPacket::Res(resp));
        assert!(matches!(r, Err(ControlInterfaceError::InvalidPacketType(_))));
    }
    for req in all_requests() {
        assert!(unpack_request(ControlPacket::Req(req)).is_ok());
    }
}

#[test]
fn status_responses_map_to_states_and_errors() {
    assert_eq!(
        status_from_response(Response::Status(Ok(DutState::PowerOn))).unwrap(),
        EmulatorState::DutPowerOn
    );
    assert_eq!(
        status_from_response(Response::Status(Ok(DutState::PowerOff))).unwrap(),
        EmulatorState::DutPowerOff
    );
    assert_eq!(
        status_from_response(Response::Status(Ok(DutState::Busy))).unwrap(),
        EmulatorState::DutBusy
    );
    assert_eq!(
        status_from_response(Response::Status(Ok(DutState::Error))).unwrap(),
        EmulatorState::DutError
    );
    match status_from_response(Response::Status(Err(ErrorMessage::ERROR("x".to_string())))) {
        Err(EmulatorError::RuntimeError(m)) => assert_eq!(m, "x"),
        other => panic!("unexpected {:?}", other),
    }
    match status_from_response(Response::Status(Err(ErrorMessage::INVALID("y".to_string())))) {
        Err(EmulatorError::InvalidArgument(m)) => assert_eq!(m, "y"),
        other => panic!("unexpected {:?}", other),
    }
    assert!(matches!(
        status_from_response(Response::Status(Err(ErrorMessage::BUSY))),
        Err(EmulatorError::Busy)
    ));
    assert!(matches!(
        status_from_response(Response::Stop(Ok(()))),
        Err(EmulatorError::Protocol(_))
    ));
}

#[test]
fn unit_responses_map_to_errors() {
    assert!(unit_from_response(Response::Start(Ok(()))).is_ok());
    assert!(matches!(
        unit_from_response(Response::Stop(Err(ErrorMessage::ERROR("e".to_string())))),
        Err(EmulatorError::RuntimeError(_))
    ));
    assert!(matches!(
        unit_from_response(Response::Status(Ok(DutState::Busy))),
        Err(EmulatorError::Protocol(_))
    ));
}

#[test]
fn gpio_responses() {
    assert_eq!(
        gpio_value_from_response(Response::Gpio(Ok(GpioResult::Get { value: GpioValue::Lo }))).unwrap(),
        GpioValue::Lo
    );
    assert!(matches!(
        gpio_value_from_response(Response::Gpio(Ok(GpioResult::SetValue))),
        Err(EmulatorError::Protocol(_))
    ));
    assert!(matches!(
        gpio_value_from_response(Response::Gpio(Err(ErrorMessage::BUSY))),
        Err(EmulatorError::Busy)
    ));
    assert!(gpio_done_from_response(Response::Gpio(Ok(GpioResult::SetMode)), GpioResult::SetMode).is_ok());
    assert!(matches!(
        gpio_done_from_response(Response::Gpio(Ok(GpioResult::SetMode)), GpioResult::SetValue),
        Err(EmulatorError::Protocol(_))
    ));
    assert!(matches!(
        gpio_done_from_response(Response::Exit(Ok(())), GpioResult::SetValue),
        Err(EmulatorError::Protocol(_))
    ));
}

#[test]
fn unit_results_map_to_errors() {
    assert!(unit_from_result(Ok(())).is_ok());
    assert!(matches!(unit_from_result(Err(ErrorMessage::BUSY)), Err(EmulatorError::Busy)));
}
