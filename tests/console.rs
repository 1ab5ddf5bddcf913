use ti50_control::console::{is_whitespace, parse_number};

#[test]
fn whitespace_bytes() {
    assert!(is_whitespace(b' '));
    assert!(is_whitespace(b'\n'));
    assert!(is_whitespace(b'\t'));
    assert!(!is_whitespace(b'\r'));
    assert!(!is_whitespace(b'a'));
}

#[test]
fn decimal_numbers() {
    assert_eq!(parse_number("0"), Some(0));
    assert_eq!(parse_number("10"), Some(10));
    assert_eq!(parse_number("+5"), Some(5));
    assert_eq!(parse_number("18446744073709551615"), Some(usize::MAX));
}

#[test]
fn hexadecimal_numbers() {
    assert_eq!(parse_number("0x1f"), Some(31));
    assert_eq!(parse_number("0xFF"), Some(255));
    assert_eq!(parse_number("0x+a"), Some(10));
}

#[test]
fn rejected_numbers() {
    assert_eq!(parse_number(""), None);
    assert_eq!(parse_number("0x"), None);
    assert_eq!(parse_number("+"), None);
    assert_eq!(parse_number("-1"), None);
    assert_eq!(parse_number("12a"), None);
    assert_eq!(parse_number("0xg"), None);
    assert_eq!(parse_number("18446744073709551616"), None);
    assert_eq!(parse_number("0x10000000000000000"), None);
}

use ti50_control::console::{mem_cmd, parse_cmd, ConsoleError, MemCommand};

fn words(v: &[&str]) -> Vec<String> {
    v.iter().map(|s| s.to_string()).collect()
}

#[test]
fn command_line_is_split_on_whitespace() {
    let line = b"  mem\tread 0x10   4 ".to_vec();
    assert_eq!(
        parse_cmd(&line, 16),
        vec![b"mem".to_vec(), b"read".to_vec(), b"0x10".to_vec(), b"4".to_vec()]
    );
    assert_eq!(parse_cmd(&line, 2), vec![b"mem".to_vec(), b"read".to_vec()]);
    assert_eq!(parse_cmd(&b"hello".to_vec(), 16), vec![b"hello".to_vec()]);
    assert!(parse_cmd(&b" \n\t ".to_vec(), 16).is_empty());
    assert!(parse_cmd(&Vec::new(), 16).is_empty());
}

#[test]
fn mem_read_aligns_the_address() {
    let plan = mem_cmd(&words(&["mem", "read", "0x1234", "8"]));
    assert!(plan.result.is_ok());
    match plan.action {
        MemCommand::Read { address, length } => {
            assert_eq!(address, 0x1230);
            assert_eq!(length, 8);
        }
        other => panic!("unexpected {:?}", other),
    }
    let plan = mem_cmd(&words(&["mem", "read", "zz", "8"]));
    assert!(matches!(plan.action, MemCommand::Ignored));
    assert!(plan.result.is_ok());
}

#[test]
fn mem_write_collects_byte_values() {
    let plan = mem_cmd(&words(&["mem", "write", "33", "1", "0xff"]));
    assert!(plan.result.is_ok());
    match plan.action {
        MemCommand::Write { address, values } => {
            assert_eq!(address, 32);
            assert_eq!(values, vec![1u8, 255u8]);
        }
        other => panic!("unexpected {:?}", other),
    }
    let plan = mem_cmd(&words(&["mem", "write", "q", "1"]));
    assert!(matches!(plan.action, MemCommand::Ignored));
    assert!(plan.result.is_ok());
}

#[test]
fn mem_write_stops_at_a_bad_value() {
    let plan = mem_cmd(&words(&["mem", "write", "0", "7", "256", "8"]));
    assert!(matches!(plan.result, Err(ConsoleError::InvalidValue)));
    match plan.action {
        MemCommand::Write { address, values } => {
            assert_eq!(address, 0);
            assert_eq!(values, vec![7u8]);
        }
        other => panic!("unexpected {:?}", other),
    }
    let plan = mem_cmd(&words(&["mem", "write", "0", "x"]));
    assert!(matches!(plan.result, Err(ConsoleError::InvalidValue)));
    assert!(matches!(plan.action, MemCommand::Write { ref values, .. } if values.is_empty()));
}

#[test]
fn mem_errors() {
    assert!(matches!(mem_cmd(&words(&[])).result, Err(ConsoleError::InvalidArgNumber)));
    assert!(matches!(mem_cmd(&words(&["mem"])).result, Err(ConsoleError::InvalidSubcomand)));
    assert!(matches!(mem_cmd(&words(&["mem", "peek", "1"])).result, Err(ConsoleError::InvalidSubcomand)));
    assert!(matches!(mem_cmd(&words(&["mem", "read", "1"])).result, Err(ConsoleError::InvalidSubcomand)));
}

use ti50_control::console::{find_command, EditAction, LineEditor};

#[test]
fn line_editor_collects_and_erases() {
    let mut e = LineEditor::new(8);
    assert_eq!(e.feed(b'm'), EditAction::Echo(b'm'));
    assert_eq!(e.feed(b'x'), EditAction::Echo(b'x'));
    assert_eq!(e.feed(0x08), EditAction::Redraw);
    assert_eq!(e.feed(b'e'), EditAction::Echo(b'e'));
    assert_eq!(e.feed(b'\n'), EditAction::Ignore);
    assert_eq!(e.feed(0x1b), EditAction::ShowEscape);
    assert_eq!(e.feed(0x01), EditAction::ShowCode(0x01));
    assert_eq!(e.feed(0x7f), EditAction::Redraw);
    assert_eq!(e.feed(0x7f), EditAction::Redraw);
    assert_eq!(e.feed(0x7f), EditAction::Ignore);
    assert_eq!(e.feed(b'h'), EditAction::Echo(b'h'));
    assert_eq!(e.feed(b'\r'), EditAction::Submit);
    assert_eq!(e.line, b"h".to_vec());
}

#[test]
fn line_editor_fills_up() {
    let mut e = LineEditor::new(2);
    e.feed(b'a');
    assert!(!e.is_full());
    e.feed(b'b');
    assert!(e.is_full());
    assert_eq!(e.line, b"ab".to_vec());
}

#[test]
fn commands_are_found_by_name() {
    let names = vec!["hello".to_string(), "mem".to_string(), "mem".to_string()];
    assert_eq!(find_command(&names, &"mem".to_string()), Some(1));
    assert_eq!(find_command(&names, &"hello".to_string()), Some(0));
    assert_eq!(find_command(&names, &"nope".to_string()), None);
}
