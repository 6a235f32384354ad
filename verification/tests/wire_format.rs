use wshowkeys::helper::{end_request, open_request};
use wshowkeys::wire::{Msg, MsgType};

fn msg(t: MsgType, path: &str) -> Msg {
    Msg { msg_type: t, fd: None, path: path.to_string() }
}

#[test]
fn encode_open_request() {
    let m = msg(MsgType::Open, "/dev/input/event3");
    let mut expected = vec![0u8];
    expected.extend_from_slice(b"/dev/input/event3");
    assert_eq!(m.to_bytes(), expected);
}

#[test]
fn encode_end_request_is_one_byte() {
    assert_eq!(msg(MsgType::End, "").to_bytes(), vec![1u8]);
}

#[test]
fn descriptor_is_not_encoded() {
    let with_fd = Msg { msg_type: MsgType::Open, fd: Some(7), path: "Test".to_string() };
    assert_eq!(with_fd.to_bytes(), vec![0u8, b'T', b'e', b's', b't']);
}

#[test]
fn encode_multibyte_path() {
    let m = msg(MsgType::Open, "é");
    assert_eq!(m.to_bytes(), vec![0u8, 0xC3, 0xA9]);
}

#[test]
fn decode_open() {
    let m = Msg::from_bytes(&vec![0u8, b'a', b'b']);
    assert_eq!(m.msg_type, MsgType::Open);
    assert_eq!(m.fd, None);
    assert_eq!(m.path, "ab");
}

#[test]
fn decode_any_nonzero_tag_ends() {
    assert_eq!(Msg::from_bytes(&vec![1u8]).msg_type, MsgType::End);
    assert_eq!(Msg::from_bytes(&vec![7u8, b'x']).msg_type, MsgType::End);
    assert_eq!(Msg::from_bytes(&vec![255u8]).path, "");
}

#[test]
fn decode_rejects_empty_packet() {
    assert!(Msg::decode(&vec![]).is_none());
}

#[test]
fn decode_rejects_invalid_utf8() {
    assert!(Msg::decode(&vec![0u8, 0xFF]).is_none());
    assert!(Msg::decode(&vec![0u8, 0xC3]).is_none());
}

#[test]
fn decode_accepts_multibyte_utf8() {
    let m = Msg::decode(&vec![0u8, 0xC3, 0xA9]).unwrap();
    assert_eq!(m.path, "é");
}

#[test]
fn round_trip_decode_of_encode() {
    for (t, p) in [(MsgType::Open, "/dev/input/event0"), (MsgType::End, ""), (MsgType::Open, "ünïcødé/✓")] {
        let m = msg(t, p);
        let back = Msg::from_bytes(&m.to_bytes());
        assert_eq!(back.msg_type, t);
        assert_eq!(back.path, p);
        assert_eq!(back.fd, None);
    }
}

#[test]
fn round_trip_encode_of_decode() {
    for bytes in [vec![0u8, b'/', b'x'], vec![1u8], vec![1u8, 0xE2, 0x9C, 0x93]] {
        assert_eq!(Msg::from_bytes(&bytes).to_bytes(), bytes);
    }
}

#[test]
fn requests_encode_as_expected() {
    assert_eq!(open_request("/dev/input/event1").to_bytes()[0], 0);
    assert_eq!(open_request("/dev/input/event1").path, "/dev/input/event1");
    assert_eq!(end_request().to_bytes(), vec![1u8]);
}
