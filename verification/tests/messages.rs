use idola::bb::{bb_welcome_keys, read_key_table};
use idola::message::bb::{Message, Serial, SerialError, Welcome};
use idola::message::patch::{HdrSerializer, Motd, MsgHeader, Redirect, Welcome as PatchWelcome};

#[test]
fn bb_message_roundtrip() {
    let m = Message::Unknown(0x60, 0x1234_5678, vec![1, 2, 3]);
    let bytes = m.serialize();
    assert_eq!(bytes, vec![11, 0, 0x60, 0, 0x78, 0x56, 0x34, 0x12, 1, 2, 3]);
    match Message::deserialize(&bytes) {
        Ok((Message::Unknown(t, f, body), n)) => {
            assert_eq!((t, f, body, n), (0x60, 0x1234_5678, vec![1, 2, 3], 11));
        },
        _ => panic!("expected the message back"),
    }
}

#[test]
fn bb_message_read_errors() {
    assert_eq!(Message::deserialize(&[1, 2, 3]).err(), Some(SerialError::UnexpectedEof));
    let short = [20u8, 0, 0x60, 0, 0, 0, 0, 0, 1, 2];
    assert_eq!(Message::deserialize(&short).err(), Some(SerialError::MissingBytes(12)));
}

#[test]
fn bb_message_reads_only_its_size() {
    let bytes = [9u8, 0, 0x61, 0, 1, 0, 0, 0, 0xAA, 0xBB, 0xCC];
    match Message::deserialize(&bytes) {
        Ok((Message::Unknown(t, f, body), n)) => {
            assert_eq!((t, f, body, n), (0x61, 1, vec![0xAA], 9));
        },
        _ => panic!("expected a message"),
    }
}

#[test]
fn bb_welcome_bytes() {
    let w = Welcome(vec![1; 48], vec![2; 48]);
    let bytes = w.serialize();
    let banner = b"Phantasy Star Online Blue Burst Game Server. Copyright 1999-2004 SONICTEAM.";
    assert_eq!(&bytes[..banner.len()], &banner[..]);
    assert_eq!(bytes.len(), banner.len() + 96);
    assert!(bytes[banner.len()..banner.len() + 48].iter().all(|&b| b == 1));
    assert!(bytes[banner.len() + 48..].iter().all(|&b| b == 2));
    let framed = Message::Welcome(0, Welcome(vec![1; 48], vec![2; 48])).serialize();
    assert_eq!(framed.len(), 8 + bytes.len());
    assert_eq!(framed[0] as usize + 256 * framed[1] as usize, 8 + bytes.len());
    assert_eq!((framed[2], framed[3]), (0x03, 0x00));
}

#[test]
fn patch_header_roundtrip() {
    let h = MsgHeader { len: 10, msg_type: 2, flags: 5 };
    let bytes = HdrSerializer::hdr_serialize(&h);
    assert_eq!(bytes, vec![14, 0, 2, 0]);
    assert_eq!(HdrSerializer::hdr_deserialize(&bytes), Ok(MsgHeader { len: 10, msg_type: 2, flags: 0 }));
    assert_eq!(HdrSerializer::hdr_deserialize(&[4, 0]), Err(SerialError::UnexpectedEof));
}

#[test]
fn patch_welcome_roundtrip() {
    let w = PatchWelcome { server_vector: 0x0102_0304, client_vector: 7 };
    let bytes = w.serialize();
    assert_eq!(bytes.len(), 72);
    assert_eq!(w.serial_len(), 72);
    assert_eq!(&bytes[..44], &b"Patch Server. Copyright SonicTeam, LTD. 2001"[..]);
    assert!(bytes[44..64].iter().all(|&b| b == 0));
    assert_eq!(&bytes[64..68], &[4, 3, 2, 1]);
    assert_eq!(PatchWelcome::deserialize(&bytes), Ok((w, 72)));
    assert_eq!(PatchWelcome::deserialize(&bytes[..10]), Err(SerialError::ShortRead(10)));
    assert_eq!(PatchWelcome::deserialize(&bytes[..70]), Err(SerialError::UnexpectedEof));
}

#[test]
fn redirect_roundtrip() {
    let r = Redirect { ip_addr: 0x7F00_0001, port: 11001 };
    let bytes = r.serialize();
    assert_eq!(bytes, vec![127, 0, 0, 1, 0x2A, 0xF9, 0, 0]);
    assert_eq!(r.serial_len(), 8);
    assert_eq!(Redirect::deserialize(&bytes), Ok((r, 8)));
    assert_eq!(Redirect::deserialize(&[127, 0, 0, 1, 0, 1, 1, 0]).err(), Some(SerialError::BadPadding));
    assert_eq!(Redirect::deserialize(&[1, 2]).err(), Some(SerialError::UnexpectedEof));
}

#[test]
fn motd_is_utf16le() {
    let m = Motd { message: "Hi".to_string() };
    assert_eq!(m.serialize(), vec![0x48, 0, 0x69, 0]);
    assert_eq!(m.serial_len(), 4);
    let m = Motd { message: "\u{1F600}é".to_string() };
    assert_eq!(m.serialize(), vec![0x3D, 0xD8, 0x00, 0xDE, 0xE9, 0x00]);
    assert_eq!(m.serial_len(), 6);
}

#[test]
fn key_table_reads_whole_words() {
    let data = [1u8, 0, 0, 0, 0x78, 0x56, 0x34, 0x12, 9];
    assert_eq!(read_key_table(&data), vec![1, 0x1234_5678]);
    assert_eq!(read_key_table(&[]), Vec::<u32>::new());
}

#[test]
fn welcome_keys_repeat_one_byte() {
    let (sk, ck) = bb_welcome_keys();
    assert_eq!(sk.len(), 48);
    assert_eq!(ck.len(), 48);
    assert!(sk.iter().all(|&b| b == sk[0]));
    assert!(ck.iter().all(|&b| b == ck[0]));
}
