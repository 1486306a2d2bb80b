use rvhwfuzzer::risico::process_protocol::{DecodeStep, ProcessCommand};
use rvhwfuzzer::risico::repr::{Addr, Size};

#[test]
fn messages_to_bytes() {
    assert_eq!(ProcessCommand::Initialize.serialize(), vec![0, 0]);
    assert_eq!(ProcessCommand::Ack.serialize(), vec![0, 1]);
    assert_eq!(ProcessCommand::Size(Size::from(0x1000)).serialize(), vec![0, 2, 0, 0, 0x10, 0]);
    assert_eq!(ProcessCommand::Get(Addr::from(0x0102_0304)).serialize(), vec![0, 8, 1, 2, 3, 4]);
    assert_eq!(
        ProcessCommand::SetValue(Addr::from(4), 0xAABB_CCDD).serialize(),
        vec![0, 9, 0, 0, 0, 4, 0xAA, 0xBB, 0xCC, 0xDD]
    );
    assert_eq!(ProcessCommand::Result(7).serialize(), vec![0, 10, 0, 0, 0, 7]);
    assert_eq!(ProcessCommand::Error("hé".to_string()).serialize(), vec![1, 0, 0, 0, 0, 3, b'h', 0xC3, 0xA9]);
    assert_eq!(ProcessCommand::Error(String::new()).to_tag(), 256);
}

#[test]
fn bytes_to_messages() {
    assert!(matches!(ProcessCommand::deserialize(&[]), DecodeStep::NeedBytes(2)));
    assert!(matches!(ProcessCommand::deserialize(&[0, 1]), DecodeStep::Command(ProcessCommand::Ack)));
    assert!(matches!(ProcessCommand::deserialize(&[0, 10, 0]), DecodeStep::NeedBytes(6)));
    match ProcessCommand::deserialize(&[0, 10, 0, 0, 1, 0]) {
        DecodeStep::Command(ProcessCommand::Result(v)) => assert_eq!(v, 256),
        _ => panic!("expected a result"),
    }
    match ProcessCommand::deserialize(&[0, 9, 0, 0, 0, 4, 0xAA, 0xBB, 0xCC, 0xDD]) {
        DecodeStep::Command(ProcessCommand::SetValue(a, v)) => {
            assert_eq!(a.as_u32(), 4);
            assert_eq!(v, 0xAABB_CCDD);
        }
        _ => panic!("expected a set"),
    }
    assert!(matches!(ProcessCommand::deserialize(&[1, 0, 0, 0, 0, 3, b'h']), DecodeStep::NeedBytes(9)));
    match ProcessCommand::deserialize(&[1, 0, 0, 0, 0, 3, b'h', 0xC3, 0xA9]) {
        DecodeStep::Command(ProcessCommand::Error(s)) => assert_eq!(s, "hé"),
        _ => panic!("expected an error message"),
    }
    assert!(matches!(ProcessCommand::deserialize(&[0, 3]), DecodeStep::InvalidTag));
    let message = ProcessCommand::SetValue(Addr::from(0x10), 3).serialize();
    assert!(matches!(
        ProcessCommand::deserialize(&message),
        DecodeStep::Command(ProcessCommand::SetValue(_, 3))
    ));
}
