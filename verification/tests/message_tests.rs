use candb::frame_id::{FrameFormat, FrameId, FrameIdError};
use candb::message::{Message, MessageCommand, MessageError, MessageId};
use candb::node::NodeId;
use candb::signal::SignalId;

#[test]
fn message_validation() {
    let cases = [
        (0x7FF, FrameFormat::StandardCan, 8, true),
        (0x800, FrameFormat::StandardCan, 8, false),
        (0x7FF, FrameFormat::StandardCan, 9, false),
        (0x800, FrameFormat::ExtendedCan, 8, true),
        (0x1FFF_FFFF, FrameFormat::ExtendedCan, 8, true),
        (0x800, FrameFormat::ExtendedCan, 9, false),
        (0x7FF, FrameFormat::StandardCanFd, 64, true),
        (0x800, FrameFormat::StandardCanFd, 64, false),
        (0x7FF, FrameFormat::StandardCanFd, 65, false),
        (0x1FFF_FFFF, FrameFormat::ExtendedCanFd, 64, true),
        (0x1FFF_FFFF, FrameFormat::ExtendedCanFd, 65, false),
        (0x7FF, FrameFormat::CANopen, 8, true),
        (0x800, FrameFormat::CANopen, 8, false),
        (0x7FF, FrameFormat::CANopen, 9, false),
        (0x12345, FrameFormat::J1939, 8, true),
        (0x12345, FrameFormat::J1939, 9, false),
    ];

    for (f_id, f_format, len, expected) in cases {
        let result = Message::new("Test message", f_id, f_format, len, None);

        assert_eq!(result.is_ok(), expected, "frame_id={f_id:#X}, length={len}");
    }
}

#[test]
fn frame_id_valid_updates() {
    let mut msg = Message::new("Test", 0x100, FrameFormat::StandardCan, 4, None).unwrap();

    let result = msg.apply_command(MessageCommand::SetFrameId(
        FrameId::try_from(0x200).unwrap(),
    ));

    assert!(result.is_ok());
    assert_eq!(msg.frame_id().get_id(), 0x200);
}

#[test]
fn frame_id_invalid_preserves() {
    let mut msg = Message::new("Test", 0x100, FrameFormat::StandardCan, 4, None).unwrap();

    let result = msg.apply_command(MessageCommand::SetFrameId(
        FrameId::try_from(0x800).unwrap(),
    ));

    assert!(result.is_err());
    assert_eq!(msg.frame_id().get_id(), 0x100);
}

#[test]
fn payload_valid_updates() {
    let mut msg = Message::new("Test", 0x100, FrameFormat::StandardCan, 4, None).unwrap();

    let result = msg.apply_command(MessageCommand::SetPayloadLength(8));

    assert!(result.is_ok());
    assert_eq!(msg.payload_length(), 8);
}

#[test]
fn payload_invalid_preserves() {
    let mut msg = Message::new("Test", 0x100, FrameFormat::StandardCan, 4, None).unwrap();

    let result = msg.apply_command(MessageCommand::SetPayloadLength(9));

    assert!(result.is_err());
    assert_eq!(msg.payload_length(), 4);
}

#[test]
fn frame_format_valid_updates() {
    let mut msg = Message::new("Test", 0x100, FrameFormat::StandardCan, 4, None).unwrap();

    let result = msg.apply_command(MessageCommand::SetFrameFormat(FrameFormat::ExtendedCan));

    assert!(result.is_ok());
    assert_eq!(msg.frame_format(), FrameFormat::ExtendedCan);
}

#[test]
fn frame_format_invalid_id_preserves() {
    let mut msg = Message::new("Test", 0x1000, FrameFormat::ExtendedCan, 4, None).unwrap();

    let result = msg.apply_command(MessageCommand::SetFrameFormat(FrameFormat::StandardCan));

    assert!(result.is_err());
    assert_eq!(msg.frame_format(), FrameFormat::ExtendedCan);
}

#[test]
fn frame_format_invalid_payload_preserves() {
    let mut msg = Message::new("Test", 0x100, FrameFormat::ExtendedCanFd, 32, None).unwrap();

    let result = msg.apply_command(MessageCommand::SetFrameFormat(FrameFormat::ExtendedCan));

    assert!(result.is_err());
    assert_eq!(msg.frame_format(), FrameFormat::ExtendedCanFd);
}

#[test]
fn rename_updates_name() {
    let mut msg = Message::new("Old", 0x100, FrameFormat::StandardCan, 4, None).unwrap();

    let result = msg.apply_command(MessageCommand::Rename(String::from("New")));

    assert!(result.is_ok());
    assert_eq!(msg.name(), "New");
}

#[test]
fn new_message_reports_each_error() {
    assert_eq!(
        Message::new("M", 0x2000_0000, FrameFormat::ExtendedCan, 8, None).err(),
        Some(MessageError::InvalidFrameId(FrameIdError::OutOfRange))
    );
    assert_eq!(
        Message::new("M", 0x800, FrameFormat::StandardCan, 8, None).err(),
        Some(MessageError::FrameTooLargeForFormat)
    );
    assert_eq!(
        Message::new("M", 0x7FF, FrameFormat::StandardCan, 9, None).err(),
        Some(MessageError::PayloadTooLong)
    );
    // The identifier is checked before the payload.
    assert_eq!(
        Message::new("M", 0x800, FrameFormat::StandardCan, 9, None).err(),
        Some(MessageError::FrameTooLargeForFormat)
    );
}

#[test]
fn new_message_keeps_its_fields() {
    let sender = NodeId::new(3);
    let msg = Message::new("Engine", 0x123, FrameFormat::StandardCanFd, 64, Some(sender)).unwrap();
    assert_eq!(msg.name(), "Engine");
    assert_eq!(msg.frame_id().get_id(), 0x123);
    assert_eq!(msg.frame_format(), FrameFormat::StandardCanFd);
    assert_eq!(msg.payload_length(), 64);
    assert_eq!(msg.sender(), Some(sender));
}

#[test]
fn frame_format_check_order_payload_first() {
    // Both the payload and the identifier are too large for a standard frame:
    // the payload is reported.
    let mut msg = Message::new("M", 0x1000, FrameFormat::ExtendedCanFd, 32, None).unwrap();
    let result = msg.apply_command(MessageCommand::SetFrameFormat(FrameFormat::StandardCan));
    assert_eq!(result, Err(MessageError::PayloadTooLong));
    let result = msg.apply_command(MessageCommand::SetFrameFormat(FrameFormat::ExtendedCan));
    assert_eq!(result, Err(MessageError::PayloadTooLong));
    let result = msg.apply_command(MessageCommand::SetFrameFormat(FrameFormat::StandardCanFd));
    assert_eq!(result, Err(MessageError::FrameTooLargeForFormat));
    assert_eq!(msg.frame_format(), FrameFormat::ExtendedCanFd);
}

#[test]
fn set_sender_and_payload_on_fd() {
    let mut msg = Message::new("M", 0x10, FrameFormat::StandardCanFd, 8, None).unwrap();
    assert!(msg.apply_command(MessageCommand::SetPayloadLength(64)).is_ok());
    assert_eq!(msg.payload_length(), 64);
    assert_eq!(
        msg.apply_command(MessageCommand::SetPayloadLength(65)),
        Err(MessageError::PayloadTooLong)
    );
    assert!(msg.apply_command(MessageCommand::SetSender(Some(NodeId::new(7)))).is_ok());
    assert_eq!(msg.sender(), Some(NodeId::new(7)));
    assert!(msg.apply_command(MessageCommand::SetSender(None)).is_ok());
    assert_eq!(msg.sender(), None);
}

#[test]
fn signal_ids_are_listed_once() {
    let mut msg = Message::new("M", 0x10, FrameFormat::StandardCan, 8, None).unwrap();
    let a = SignalId::new(1);
    let b = SignalId::from(2);
    assert!(msg.add_signal_id(a).is_ok());
    assert!(msg.add_signal_id(b).is_ok());
    assert_eq!(msg.add_signal_id(a), Err(MessageError::SignalAlreadyPresent(a)));
    assert!(msg.remove_signal_id(a).is_ok());
    assert_eq!(msg.remove_signal_id(a), Err(MessageError::NoSignalWithGivenId(a)));
    assert!(msg.add_signal_id(a).is_ok());
}

#[test]
fn message_id_from_number() {
    assert_eq!(MessageId::from(5), MessageId::new(5));
    assert_ne!(MessageId::from(5), MessageId::new(6));
}
