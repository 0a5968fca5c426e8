use local::connect::addrs::Endpoint;
use local::connect::message::{
    put_text, query_bytes, reply_bytes, same_text, take_address, take_endpoint, take_text,
    ConnectionMessage, Message, ServerInfo,
};
use local::connect::wire::DecodeError;

/// What serde writes a socket address as (the index of the variant, the
/// octets, the port), built from std types that it writes in the same way:
/// `Ok` is its variant 0 and `Err` its variant 1.
type Wire = Option<Result<([u8; 4], u16), ([u8; 16], u16)>>;

fn std_addr(e: Option<Endpoint>) -> Wire {
    match e {
        None => None,
        Some(Endpoint::V4(octets, port)) => Some(Ok((octets, port))),
        Some(Endpoint::V6(octets, port)) => Some(Err((octets, port))),
    }
}

fn samples() -> Vec<ServerInfo> {
    let v6: [u8; 16] = [0x20, 0x01, 0x0d, 0xb8, 0, 0, 0, 0, 0, 0, 0, 0, 0, 0, 0, 1];
    vec![
        ServerInfo::new(String::from("ServerTest"), None, false),
        ServerInfo::new(String::new(), None, true),
        ServerInfo::new(String::from("küche ☕ 🦀"), Some(Endpoint::V4([192, 168, 1, 20], 7678)), true),
        ServerInfo::new(String::from("six"), Some(Endpoint::V6(v6, 65535)), false),
        ServerInfo::new("x".repeat(300), Some(Endpoint::V4([0, 0, 0, 0], 0)), false),
    ]
}

#[test]
fn server_info_round_trips() {
    for info in samples() {
        let bytes = info.encode();
        assert_eq!(ServerInfo::decode(&bytes), Ok(info.clone()));
        let again = ServerInfo::decode(&bytes).unwrap();
        assert_eq!(again.name(), info.name());
        assert_eq!(again.address(), info.address());
        assert_eq!(again.password_required(), info.password_required());
    }
}

#[test]
fn server_info_has_the_documented_bytes() {
    let info = ServerInfo::new(String::from("ServerTest"), None, false);
    let mut expected = vec![10u8, 0, 0, 0, 0, 0, 0, 0];
    expected.extend_from_slice(b"ServerTest");
    expected.push(0);
    expected.push(0);
    assert_eq!(info.encode(), expected);

    let info = ServerInfo::new(String::from("ab"), Some(Endpoint::V4([10, 1, 2, 3], 0x1dfe)), true);
    let expected =
        vec![2u8, 0, 0, 0, 0, 0, 0, 0, b'a', b'b', 1, 0, 0, 0, 0, 10, 1, 2, 3, 0xfe, 0x1d, 1];
    assert_eq!(info.encode(), expected);
}

#[test]
fn server_info_bytes_are_those_of_bincode() {
    for info in samples() {
        let mirror = (info.name().to_string(), std_addr(info.address()), info.password_required());
        assert_eq!(info.encode(), bincode::serialize(&mirror).unwrap());
        let back: (String, Wire, bool) =
            bincode::deserialize(&info.encode()).unwrap();
        assert_eq!(back, mirror);
    }
}

#[test]
fn messages_round_trip() {
    assert_eq!(Message::decode(&Message::server_list().encode()), Ok(Message::server_list()));
    for info in samples() {
        let message = Message::server_info(info.clone());
        let bytes = message.encode();
        assert_eq!(Message::decode(&bytes), Ok(Message::server_info(info.clone())));
        assert_eq!(bytes, reply_bytes(&info));
        assert_eq!(
            Message::decode(&bytes),
            Ok(Message::Connection(ConnectionMessage::ServerInfo(info)))
        );
    }
}

#[test]
fn query_is_eight_zero_bytes() {
    assert_eq!(query_bytes(), vec![0u8; 8]);
    assert_eq!(Message::server_list().encode(), vec![0u8; 8]);
    assert_eq!(query_bytes(), bincode::serialize(&(0u32, 0u32)).unwrap());
    assert_eq!(
        Message::decode(&[0u8; 8]),
        Ok(Message::Connection(ConnectionMessage::ServerList))
    );
}

#[test]
fn reply_bytes_are_those_of_bincode() {
    for info in samples() {
        let mirror = (info.name().to_string(), std_addr(info.address()), info.password_required());
        assert_eq!(reply_bytes(&info), bincode::serialize(&(0u32, 1u32, mirror)).unwrap());
    }
}

#[test]
fn bytes_after_a_message_are_ignored() {
    let info = ServerInfo::new(String::from("tail"), None, true);
    let mut bytes = Message::server_info(info.clone()).encode();
    bytes.extend_from_slice(&[0xde, 0xad, 0xbe, 0xef]);
    assert_eq!(Message::decode(&bytes), Ok(Message::server_info(info.clone())));
    let (message, rest) = Message::take(&bytes).unwrap();
    assert_eq!(message, Message::server_info(info.clone()));
    assert_eq!(rest, &[0xde, 0xad, 0xbe, 0xef]);
    let mut bytes = info.encode();
    bytes.push(77);
    assert_eq!(ServerInfo::decode(&bytes), Ok(info));
    let mut query = query_bytes();
    query.resize(1000, 0);
    assert_eq!(Message::decode(&query), Ok(Message::server_list()));
}

#[test]
fn a_reply_is_no_query_and_a_query_no_reply() {
    for info in samples() {
        let decoded = Message::decode(&reply_bytes(&info)).unwrap();
        assert_ne!(decoded, Message::server_list());
    }
    assert!(matches!(
        Message::decode(&query_bytes()),
        Ok(Message::Connection(ConnectionMessage::ServerList))
    ));
}

#[test]
fn truncated_messages_are_refused() {
    let info =
        ServerInfo::new(String::from("ServerTest"), Some(Endpoint::V4([1, 2, 3, 4], 5)), true);
    let bytes = Message::server_info(info).encode();
    for cut in 0..bytes.len() {
        assert_eq!(Message::decode(&bytes[..cut]), Err(DecodeError::Truncated), "cut at {}", cut);
    }
    assert!(Message::decode(&bytes).is_ok());
    assert_eq!(Message::decode(&[]), Err(DecodeError::Truncated));
    assert_eq!(ServerInfo::decode(&[]), Err(DecodeError::Truncated));
}

#[test]
fn unknown_variants_are_refused() {
    assert_eq!(Message::decode(&[1, 0, 0, 0, 0, 0, 0, 0]), Err(DecodeError::UnknownVariant));
    assert_eq!(Message::decode(&[0, 0, 0, 0, 2, 0, 0, 0]), Err(DecodeError::UnknownVariant));
    assert_eq!(Message::decode(&[0, 1, 0, 0, 0, 0, 0, 0]), Err(DecodeError::UnknownVariant));
    assert_eq!(
        take_endpoint(&[2, 0, 0, 0, 1, 2, 3, 4, 5, 6]),
        Err(DecodeError::UnknownVariant)
    );
    // A description alone is taken for a message of an unknown domain.
    let info = ServerInfo::new(String::from("ServerTest"), None, false);
    assert_eq!(Message::decode(&info.encode()), Err(DecodeError::UnknownVariant));
}

#[test]
fn bad_option_tag_is_refused() {
    let bytes = vec![1u8, 0, 0, 0, 0, 0, 0, 0, b'a', 2, 0];
    assert_eq!(ServerInfo::decode(&bytes), Err(DecodeError::InvalidOptionTag));
    assert_eq!(take_address(&[7]), Err(DecodeError::InvalidOptionTag));
    assert_eq!(take_address(&[0, 9]), Ok((None, &[9u8][..])));
    assert!(bincode::deserialize::<(String, Wire, bool)>(&bytes).is_err());
}

#[test]
fn bad_bool_is_refused() {
    let bytes = vec![1u8, 0, 0, 0, 0, 0, 0, 0, b'a', 0, 2];
    assert_eq!(ServerInfo::decode(&bytes), Err(DecodeError::InvalidBool));
    assert!(bincode::deserialize::<(String, Wire, bool)>(&bytes).is_err());
    let bytes = vec![1u8, 0, 0, 0, 0, 0, 0, 0, b'a', 0, 1];
    assert_eq!(ServerInfo::decode(&bytes), Ok(ServerInfo::new(String::from("a"), None, true)));
}

#[test]
fn bad_text_is_refused() {
    let bytes = vec![2u8, 0, 0, 0, 0, 0, 0, 0, 0xc3, 0x28, 0, 0];
    assert_eq!(ServerInfo::decode(&bytes), Err(DecodeError::InvalidText));
    assert!(bincode::deserialize::<(String, Wire, bool)>(&bytes).is_err());
    assert_eq!(take_text(&[1, 0, 0, 0, 0, 0, 0, 0, 0xff]), Err(DecodeError::InvalidText));
    // A lone continuation byte, an overlong form and a surrogate are no text.
    assert_eq!(take_text(&[1, 0, 0, 0, 0, 0, 0, 0, 0x80]), Err(DecodeError::InvalidText));
    assert_eq!(take_text(&[2, 0, 0, 0, 0, 0, 0, 0, 0xc0, 0xaf]), Err(DecodeError::InvalidText));
    assert_eq!(
        take_text(&[3, 0, 0, 0, 0, 0, 0, 0, 0xed, 0xa0, 0x80]),
        Err(DecodeError::InvalidText)
    );
    // Past the last scalar, a leading byte that std does not know, a
    // sequence cut short.
    assert_eq!(
        take_text(&[4, 0, 0, 0, 0, 0, 0, 0, 0xf4, 0x90, 0x80, 0x80]),
        Err(DecodeError::InvalidText)
    );
    assert_eq!(
        take_text(&[4, 0, 0, 0, 0, 0, 0, 0, 0xf5, 0x80, 0x80, 0x80]),
        Err(DecodeError::InvalidText)
    );
    assert_eq!(take_text(&[2, 0, 0, 0, 0, 0, 0, 0, 0xe2, 0x98]), Err(DecodeError::InvalidText));
    // The last scalar and the first of four bytes are text.
    assert_eq!(
        take_text(&[4, 0, 0, 0, 0, 0, 0, 0, 0xf4, 0x8f, 0xbf, 0xbf]),
        Ok((String::from("\u{10ffff}"), &[][..]))
    );
    assert_eq!(
        take_text(&[4, 0, 0, 0, 0, 0, 0, 0, 0xf0, 0x90, 0x80, 0x80]),
        Ok((String::from("\u{10000}"), &[][..]))
    );
}

#[test]
fn text_length_counts_utf8_bytes() {
    let mut out = Vec::new();
    put_text(&mut out, "é☕");
    assert_eq!(out, vec![5, 0, 0, 0, 0, 0, 0, 0, 0xc3, 0xa9, 0xe2, 0x98, 0x95]);
    assert_eq!(take_text(&out), Ok((String::from("é☕"), &[][..])));
    assert_eq!(out, bincode::serialize(&"é☕").unwrap());
    // A length that reaches past the end of the bytes.
    assert_eq!(take_text(&[6, 0, 0, 0, 0, 0, 0, 0, b'a']), Err(DecodeError::Truncated));
    assert_eq!(
        take_text(&[0xff, 0xff, 0xff, 0xff, 0xff, 0xff, 0xff, 0xff, b'a']),
        Err(DecodeError::Truncated)
    );
    assert_eq!(take_text(&[0, 0, 0, 0, 0, 0, 0, 0, b'a']), Ok((String::new(), &b"a"[..])));
}

#[test]
fn endpoints_have_the_documented_bytes() {
    let info = ServerInfo::new(String::new(), Some(Endpoint::V6([7; 16], 0x0102)), false);
    let mut expected = vec![0u8; 8];
    expected.push(1);
    expected.extend_from_slice(&[1, 0, 0, 0]);
    expected.extend_from_slice(&[7; 16]);
    expected.extend_from_slice(&[2, 1]);
    expected.push(0);
    assert_eq!(info.encode(), expected);
    assert_eq!(
        take_endpoint(&[0, 0, 0, 0, 127, 0, 0, 1, 0x90, 0x1f, 3]),
        Ok((Endpoint::V4([127, 0, 0, 1], 8080), &[3u8][..]))
    );
}

#[test]
fn same_text_compares_characters() {
    assert!(same_text("ServerTest", "ServerTest"));
    assert!(same_text("", ""));
    assert!(!same_text("ServerTest", "ServerTesT"));
    assert!(!same_text("Server", "ServerTest"));
    assert!(!same_text("é", "e"));
    assert!(same_text("☕🦀", "☕🦀"));
}

#[test]
fn clone_keeps_every_field() {
    for info in samples() {
        let copy = info.clone();
        assert_eq!(copy, info);
        assert_eq!(copy.encode(), info.encode());
    }
}

#[test]
fn messages_have_the_documented_lengths() {
    assert_eq!(query_bytes().len(), 8);
    let plain = ServerInfo::new(String::from("ServerTest"), None, false);
    assert_eq!(reply_bytes(&plain).len(), 18 + 10);
    let v4 = ServerInfo::new(String::from("é"), Some(Endpoint::V4([1, 2, 3, 4], 5)), false);
    assert_eq!(reply_bytes(&v4).len(), 18 + 2 + 10);
    let v6 = ServerInfo::new(String::new(), Some(Endpoint::V6([0; 16], 5)), true);
    assert_eq!(reply_bytes(&v6).len(), 18 + 22);
    // The longest name whose reply fits the smaller receive buffer, with
    // the longest address.
    let long = ServerInfo::new("n".repeat(960), Some(Endpoint::V6([0; 16], 5)), true);
    assert_eq!(reply_bytes(&long).len(), 1000);
}
