use ecfan::port::{
    close_outcome, read_outcome, write_outcome, ChannelError, EcAction, EcEvent, EcResult,
    PortCommunicator, EC_COMMAND, EC_DATA, MAX_POLLS,
};

/// Drives the pending handshake against a controller whose status reads
/// come from `status` and whose data address reads `data`; returns the
/// actions handed out and the result.
fn drive(
    c: &mut PortCommunicator,
    first: EcAction,
    status: &mut dyn FnMut() -> u8,
    data: u8,
) -> (Vec<EcAction>, EcResult) {
    let mut actions = Vec::new();
    let mut a = first;
    loop {
        actions.push(a);
        let e = match a {
            EcAction::ReadByte { address } if address == EC_COMMAND => EcEvent::ByteRead(status()),
            EcAction::ReadByte { .. } => EcEvent::ByteRead(data),
            EcAction::WriteByte { .. } => EcEvent::ByteWritten,
            EcAction::Pause => EcEvent::Paused,
            EcAction::Finished(r) => return (actions, r),
        };
        a = c.advance(e);
    }
}

fn writes(actions: &[EcAction]) -> Vec<(u8, u8)> {
    actions
        .iter()
        .filter_map(|a| match a {
            EcAction::WriteByte { address, value } => Some((*address, *value)),
            _ => None,
        })
        .collect()
}

#[test]
fn open_failure_is_access_denied() {
    assert!(matches!(PortCommunicator::new(-1), Err(ChannelError::AccessDenied)));
    let c = PortCommunicator::new(7).unwrap();
    assert_eq!(c.file, 7);
    assert!(c.open);
}

#[test]
fn byte_outcomes() {
    assert_eq!(read_outcome(false, 1, 5), Err(ChannelError::IoFailure));
    assert_eq!(read_outcome(true, -1, 5), Err(ChannelError::IoFailure));
    assert_eq!(read_outcome(true, 0, 5), Err(ChannelError::UnexpectedEnd));
    assert_eq!(read_outcome(true, 1, 7), Ok(7));
    assert_eq!(write_outcome(false, 1), Err(ChannelError::IoFailure));
    assert_eq!(write_outcome(true, -1), Err(ChannelError::IoFailure));
    assert_eq!(write_outcome(true, 1), Ok(()));
}

#[test]
fn write_handshake_sends_opcode_register_value() {
    let mut c = PortCommunicator::new(3).unwrap();
    let first = c.write_ec(0x2f, 55);
    let (actions, r) = drive(&mut c, first, &mut || 0x00, 0);
    assert_eq!(r, EcResult::Written);
    assert_eq!(writes(&actions), vec![(EC_COMMAND, 0x81), (EC_DATA, 0x2f), (EC_DATA, 55)]);
    assert_eq!(actions.len(), 7);
}

#[test]
fn write_handshake_waits_for_input_buffer() {
    let mut c = PortCommunicator::new(3).unwrap();
    let first = c.write_ec(0x10, 1);
    let mut busy = 3;
    let mut status = || {
        if busy > 0 {
            busy -= 1;
            0x02
        } else {
            0x00
        }
    };
    let (actions, r) = drive(&mut c, first, &mut status, 0);
    assert_eq!(r, EcResult::Written);
    assert_eq!(actions.iter().filter(|a| **a == EcAction::Pause).count(), 3);
}

#[test]
fn write_handshake_times_out_without_data_write() {
    let mut c = PortCommunicator::new(3).unwrap();
    let first = c.write_ec(0x2f, 55);
    let (actions, r) = drive(&mut c, first, &mut || 0x02, 0);
    assert_eq!(r, EcResult::Failed(ChannelError::Timeout));
    assert_eq!(actions.iter().filter(|a| **a == EcAction::Pause).count(), MAX_POLLS as usize);
    assert!(writes(&actions).is_empty());
}

#[test]
fn wait_gives_up_after_bound_even_if_ready_late() {
    let mut c = PortCommunicator::new(3).unwrap();
    let first = c.write_ec(0x2f, 55);
    let mut reads = 0u32;
    let mut status = || {
        reads += 1;
        if reads <= MAX_POLLS {
            0x02
        } else {
            0x00
        }
    };
    let (actions, r) = drive(&mut c, first, &mut status, 0);
    assert_eq!(r, EcResult::Failed(ChannelError::Timeout));
    assert!(writes(&actions).is_empty());
}

#[test]
fn read_handshake_returns_data() {
    let mut c = PortCommunicator::new(3).unwrap();
    let first = c.read_ec(0x2f);
    let (actions, r) = drive(&mut c, first, &mut || 0x01, 0x9a);
    assert_eq!(r, EcResult::Value(0x9a));
    assert_eq!(writes(&actions), vec![(EC_COMMAND, 0x80), (EC_DATA, 0x2f)]);
    assert_eq!(actions[actions.len() - 2], EcAction::ReadByte { address: EC_DATA });
}

#[test]
fn read_handshake_waits_for_output_buffer() {
    let mut c = PortCommunicator::new(3).unwrap();
    let first = c.read_ec(0x2f);
    let mut reads = 0;
    let mut status = || {
        reads += 1;
        if reads <= 2 {
            0x00
        } else if reads <= 5 {
            0x00
        } else {
            0x01
        }
    };
    let (actions, r) = drive(&mut c, first, &mut status, 0x11);
    assert_eq!(r, EcResult::Value(0x11));
    assert_eq!(actions.iter().filter(|a| **a == EcAction::Pause).count(), 3);
}

#[test]
fn failure_aborts_handshake() {
    let mut c = PortCommunicator::new(3).unwrap();
    assert_eq!(c.write_ec(0x2f, 55), EcAction::ReadByte { address: EC_COMMAND });
    assert_eq!(c.advance(EcEvent::ByteRead(0)), EcAction::WriteByte { address: EC_COMMAND, value: 0x81 });
    let r = c.advance(EcEvent::Failed(ChannelError::IoFailure));
    assert_eq!(r, EcAction::Finished(EcResult::Failed(ChannelError::IoFailure)));
    assert_eq!(c.advance(EcEvent::ByteWritten), r);
}

#[test]
fn mismatched_event_fails_handshake() {
    let mut c = PortCommunicator::new(3).unwrap();
    c.read_ec(1);
    let r = c.advance(EcEvent::ByteWritten);
    assert_eq!(r, EcAction::Finished(EcResult::Failed(ChannelError::IoFailure)));
}

#[test]
fn release_hands_out_handle_once() {
    let mut c = PortCommunicator::new(9).unwrap();
    assert_eq!(c.release(), Some(9));
    assert_eq!(c.release(), None);
    assert!(!c.open);
    assert_eq!(close_outcome(0), Ok(()));
    assert_eq!(close_outcome(-1), Err(ChannelError::IoFailure));
}
