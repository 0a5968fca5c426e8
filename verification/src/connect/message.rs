//! The messages of the rendezvous and their wire format.
//!
//! A message is a tagged union with one domain, `Connection`, and two kinds
//! in it: the query `ServerList`, which carries nothing, and the reply
//! `ServerInfo`, which carries a server's description of itself. On the
//! wire every tag is a 32-bit variant index, a text is its length in bytes
//! as a 64-bit field followed by its UTF-8 bytes, an optional field starts
//! with a presence byte, and all integers are little-endian. Bytes after a
//! complete message are ignored.

use crate::connect::addrs::Endpoint;
use crate::connect::wire::{
    bool_bytes, lemma_bool_canonical, lemma_bool_round_trip, lemma_join3, lemma_octets16_canonical,
    lemma_octets16_round_trip, lemma_octets4_canonical, lemma_octets4_round_trip,
    lemma_run_canonical, lemma_run_round_trip, lemma_u16_canonical, lemma_u16_round_trip,
    lemma_u32_canonical, lemma_u32_round_trip, lemma_u64_canonical, lemma_u64_round_trip,
    parse_bool, parse_byte, parse_octets16, parse_octets4, parse_run, parse_u16, parse_u32,
    parse_u64, put_bool, put_run, put_u16, put_u32, put_u64, take_bool, take_byte, take_octets16,
    take_octets4, take_run, take_u16, take_u32, take_u64, u16_bytes, u32_bytes, u64_bytes,
    DecodeError, Parsed,
};
use vstd::prelude::*;
use vstd::slice::slice_to_vec;
use vstd::utf8::{
    decode_utf8, decode_utf8_encode_utf8, encode_utf8, encode_utf8_decode_utf8,
    encode_utf8_valid_utf8, valid_utf8,
};

verus! {

// ------------------------------------------------------------------- text

/// Whether the UTF-8 length of a text can be written in its length field.
pub open spec fn text_fits(s: Seq<char>) -> bool {
    encode_utf8(s).len() <= u64::MAX
}

/// A text on the wire: the number of its UTF-8 bytes, then those bytes.
pub open spec fn text_bytes(s: Seq<char>) -> Seq<u8> {
    u64_bytes(encode_utf8(s).len() as u64) + encode_utf8(s)
}

/// A text at the head of `b`, and what follows it.
pub open spec fn parse_text(b: Seq<u8>) -> Parsed<Seq<char>> {
    match parse_u64(b) {
        Err(e) => Err(e),
        Ok((len, after_len)) => match parse_run(after_len, len as nat) {
            Err(e) => Err(e),
            Ok((run, rest)) => if valid_utf8(run) {
                Ok((decode_utf8(run), rest))
            } else {
                Err(DecodeError::InvalidText)
            },
        },
    }
}

/// `String::from_utf8` of std: the text that the bytes spell in UTF-8, or
/// nothing where they are not UTF-8.
#[verifier::external_body]
fn text_from_utf8(bytes: Vec<u8>) -> (r: Option<String>)
    ensures
        r is Some <==> valid_utf8(bytes@),
        r matches Some(s) ==> s@ == decode_utf8(bytes@),
{
    String::from_utf8(bytes).ok()
}

/// Appends a text.
pub fn put_text(out: &mut Vec<u8>, s: &str)
    ensures
        final(out)@ == old(out)@ + text_bytes(s@),
        text_fits(s@),
{
    let utf8 = s.as_bytes();
    put_u64(out, utf8.len() as u64);
    put_run(out, utf8);
    assert(out@ =~= old(out)@ + text_bytes(s@));
}

/// Reads a text.
pub fn take_text<'a>(bytes: &'a [u8]) -> (r: Result<(String, &'a [u8]), DecodeError>)
    ensures
        match parse_text(bytes@) {
            Ok((s, rest)) => r matches Ok((t, tail)) && t@ == s && tail@ == rest,
            Err(e) => r matches Err(f) && f == e,
        },
{
    let (len, after_len) = match take_u64(bytes) {
        Ok(pair) => pair,
        Err(e) => { return Err(e); },
    };
    if len > after_len.len() as u64 {
        return Err(DecodeError::Truncated);
    }
    let (run, tail) = match take_run(after_len, len as usize) {
        Ok(pair) => pair,
        Err(e) => { return Err(e); },
    };
    match text_from_utf8(slice_to_vec(run)) {
        Some(text) => Ok((text, tail)),
        None => Err(DecodeError::InvalidText),
    }
}

/// Tells whether two texts hold the same characters.
pub fn same_text(a: &str, b: &str) -> (r: bool)
    ensures
        r == (a@ == b@),
{
    let x = a.as_bytes();
    let y = b.as_bytes();
    proof {
        encode_utf8_decode_utf8(a@);
        encode_utf8_decode_utf8(b@);
    }
    if x.len() != y.len() {
        return false;
    }
    let mut i: usize = 0;
    while i < x.len()
        invariant
            i <= x@.len(),
            x@.len() == y@.len(),
            x@ == encode_utf8(a@),
            y@ == encode_utf8(b@),
            x@.take(i as int) == y@.take(i as int),
        decreases x@.len() - i,
    {
        if x[i] != y[i] {
            return false;
        }
        i += 1;
        assert(x@.take(i as int) =~= x@.take(i - 1).push(x@[i - 1]));
        assert(y@.take(i as int) =~= y@.take(i - 1).push(y@[i - 1]));
    }
    assert(x@ =~= x@.take(x@.len() as int));
    assert(y@ =~= y@.take(y@.len() as int));
    true
}

/// A text that was written is read back, whatever follows it.
pub proof fn lemma_text_round_trip(s: Seq<char>, tail: Seq<u8>)
    requires
        text_fits(s),
    ensures
        parse_text(text_bytes(s) + tail) == Ok::<(Seq<char>, Seq<u8>), DecodeError>((s, tail)),
{
    let utf8 = encode_utf8(s);
    let len = utf8.len() as u64;
    assert(text_bytes(s) + tail =~= u64_bytes(len) + (utf8 + tail));
    lemma_u64_round_trip(len, utf8 + tail);
    lemma_run_round_trip(utf8, tail);
    encode_utf8_valid_utf8(s);
    encode_utf8_decode_utf8(s);
}

/// A byte string from which a text is read begins with that text as it is
/// written, and the text fits its length field.
pub proof fn lemma_text_canonical(b: Seq<u8>)
    requires
        parse_text(b) is Ok,
    ensures
        b == text_bytes(parse_text(b)->Ok_0.0) + parse_text(b)->Ok_0.1,
        text_fits(parse_text(b)->Ok_0.0),
{
    let (len, after_len) = parse_u64(b)->Ok_0;
    let (run, rest) = parse_run(after_len, len as nat)->Ok_0;
    lemma_u64_canonical(b);
    lemma_run_canonical(after_len, len as nat);
    decode_utf8_encode_utf8(run);
    assert(b =~= u64_bytes(len) + run + rest);
}

// --------------------------------------------------------------- endpoint

/// An endpoint on the wire: the index of its variant, the octets of its
/// address, its port.
pub open spec fn endpoint_bytes(e: Endpoint) -> Seq<u8> {
    match e {
        Endpoint::V4(octets, port) => u32_bytes(0) + octets@ + u16_bytes(port),
        Endpoint::V6(octets, port) => u32_bytes(1) + octets@ + u16_bytes(port),
    }
}

/// An IPv4 address and port at the head of `b`, after the variant index.
pub open spec fn parse_v4(b: Seq<u8>) -> Parsed<Endpoint> {
    match parse_octets4(b) {
        Err(e) => Err(e),
        Ok((octets, after_octets)) => match parse_u16(after_octets) {
            Err(e) => Err(e),
            Ok((port, rest)) => Ok((Endpoint::V4(octets, port), rest)),
        },
    }
}

/// An IPv6 address and port at the head of `b`, after the variant index.
pub open spec fn parse_v6(b: Seq<u8>) -> Parsed<Endpoint> {
    match parse_octets16(b) {
        Err(e) => Err(e),
        Ok((octets, after_octets)) => match parse_u16(after_octets) {
            Err(e) => Err(e),
            Ok((port, rest)) => Ok((Endpoint::V6(octets, port), rest)),
        },
    }
}

/// An endpoint at the head of `b`, and what follows it.
pub open spec fn parse_endpoint(b: Seq<u8>) -> Parsed<Endpoint> {
    match parse_u32(b) {
        Err(e) => Err(e),
        Ok((variant, rest)) => if variant == 0 {
            parse_v4(rest)
        } else if variant == 1 {
            parse_v6(rest)
        } else {
            Err(DecodeError::UnknownVariant)
        },
    }
}

/// Appends an endpoint.
pub fn put_endpoint(out: &mut Vec<u8>, e: &Endpoint)
    ensures
        final(out)@ == old(out)@ + endpoint_bytes(*e),
{
    match e {
        Endpoint::V4(octets, port) => {
            put_u32(out, 0);
            put_run(out, octets.as_slice());
            put_u16(out, *port);
        },
        Endpoint::V6(octets, port) => {
            put_u32(out, 1);
            put_run(out, octets.as_slice());
            put_u16(out, *port);
        },
    }
    assert(out@ =~= old(out)@ + endpoint_bytes(*e));
}

/// Reads an endpoint.
pub fn take_endpoint<'a>(bytes: &'a [u8]) -> (r: Result<(Endpoint, &'a [u8]), DecodeError>)
    ensures
        match parse_endpoint(bytes@) {
            Ok((e, rest)) => r matches Ok((f, tail)) && f == e && tail@ == rest,
            Err(e) => r matches Err(f) && f == e,
        },
{
    let (variant, rest) = match take_u32(bytes) {
        Ok(pair) => pair,
        Err(e) => { return Err(e); },
    };
    if variant == 0 {
        let (octets, after_octets) = match take_octets4(rest) {
            Ok(pair) => pair,
            Err(e) => { return Err(e); },
        };
        let (port, tail) = match take_u16(after_octets) {
            Ok(pair) => pair,
            Err(e) => { return Err(e); },
        };
        Ok((Endpoint::V4(octets, port), tail))
    } else if variant == 1 {
        let (octets, after_octets) = match take_octets16(rest) {
            Ok(pair) => pair,
            Err(e) => { return Err(e); },
        };
        let (port, tail) = match take_u16(after_octets) {
            Ok(pair) => pair,
            Err(e) => { return Err(e); },
        };
        Ok((Endpoint::V6(octets, port), tail))
    } else {
        Err(DecodeError::UnknownVariant)
    }
}

/// An endpoint that was written is read back, whatever follows it.
pub proof fn lemma_endpoint_round_trip(e: Endpoint, tail: Seq<u8>)
    ensures
        parse_endpoint(endpoint_bytes(e) + tail) == Ok::<(Endpoint, Seq<u8>), DecodeError>(
            (e, tail),
        ),
{
    match e {
        Endpoint::V4(octets, port) => {
            let after_variant = octets@ + (u16_bytes(port) + tail);
            assert(endpoint_bytes(e) + tail =~= u32_bytes(0) + after_variant);
            lemma_u32_round_trip(0, after_variant);
            lemma_octets4_round_trip(octets, u16_bytes(port) + tail);
            lemma_u16_round_trip(port, tail);
        },
        Endpoint::V6(octets, port) => {
            let after_variant = octets@ + (u16_bytes(port) + tail);
            assert(endpoint_bytes(e) + tail =~= u32_bytes(1) + after_variant);
            lemma_u32_round_trip(1, after_variant);
            lemma_octets16_round_trip(octets, u16_bytes(port) + tail);
            lemma_u16_round_trip(port, tail);
        },
    }
}

/// A byte string from which an endpoint is read begins with that endpoint
/// as it is written.
pub proof fn lemma_endpoint_canonical(b: Seq<u8>)
    requires
        parse_endpoint(b) is Ok,
    ensures
        b == endpoint_bytes(parse_endpoint(b)->Ok_0.0) + parse_endpoint(b)->Ok_0.1,
{
    let (variant, after_variant) = parse_u32(b)->Ok_0;
    lemma_u32_canonical(b);
    if variant == 0 {
        let (octets, after_octets) = parse_octets4(after_variant)->Ok_0;
        let (port, rest) = parse_u16(after_octets)->Ok_0;
        lemma_octets4_canonical(after_variant);
        lemma_u16_canonical(after_octets);
        assert(b =~= u32_bytes(0) + octets@ + u16_bytes(port) + rest);
    } else {
        let (octets, after_octets) = parse_octets16(after_variant)->Ok_0;
        let (port, rest) = parse_u16(after_octets)->Ok_0;
        lemma_octets16_canonical(after_variant);
        lemma_u16_canonical(after_octets);
        assert(b =~= u32_bytes(1) + octets@ + u16_bytes(port) + rest);
    }
}

// ------------------------------------------------------- optional address

/// An optional endpoint on the wire: a zero byte where there is none, a
/// one byte and the endpoint where there is one.
pub open spec fn address_bytes(a: Option<Endpoint>) -> Seq<u8> {
    match a {
        None => seq![0u8],
        Some(e) => seq![1u8] + endpoint_bytes(e),
    }
}

/// An optional endpoint at the head of `b`, and what follows it.
pub open spec fn parse_address(b: Seq<u8>) -> Parsed<Option<Endpoint>> {
    match parse_byte(b) {
        Err(e) => Err(e),
        Ok((tag, rest)) => if tag == 0 {
            Ok((None, rest))
        } else if tag == 1 {
            match parse_endpoint(rest) {
                Err(e) => Err(e),
                Ok((e, rest)) => Ok((Some(e), rest)),
            }
        } else {
            Err(DecodeError::InvalidOptionTag)
        },
    }
}

/// Appends an optional endpoint.
pub fn put_address(out: &mut Vec<u8>, a: &Option<Endpoint>)
    ensures
        final(out)@ == old(out)@ + address_bytes(*a),
{
    match a {
        None => {
            out.push(0u8);
        },
        Some(e) => {
            out.push(1u8);
            put_endpoint(out, e);
        },
    }
    assert(out@ =~= old(out)@ + address_bytes(*a));
}

/// Reads an optional endpoint.
pub fn take_address<'a>(bytes: &'a [u8]) -> (r: Result<
    (Option<Endpoint>, &'a [u8]),
    DecodeError,
>)
    ensures
        match parse_address(bytes@) {
            Ok((a, rest)) => r matches Ok((c, tail)) && c == a && tail@ == rest,
            Err(e) => r matches Err(f) && f == e,
        },
{
    let (tag, rest) = match take_byte(bytes) {
        Ok(pair) => pair,
        Err(e) => { return Err(e); },
    };
    if tag == 0 {
        Ok((None, rest))
    } else if tag == 1 {
        match take_endpoint(rest) {
            Ok((e, tail)) => Ok((Some(e), tail)),
            Err(e) => Err(e),
        }
    } else {
        Err(DecodeError::InvalidOptionTag)
    }
}

/// An optional endpoint that was written is read back, whatever follows.
pub proof fn lemma_address_round_trip(a: Option<Endpoint>, tail: Seq<u8>)
    ensures
        parse_address(address_bytes(a) + tail) == Ok::<(Option<Endpoint>, Seq<u8>), DecodeError>(
            (a, tail),
        ),
{
    let b = address_bytes(a) + tail;
    match a {
        None => {
            assert(b.skip(1) =~= tail);
        },
        Some(e) => {
            assert(b.skip(1) =~= endpoint_bytes(e) + tail);
            lemma_endpoint_round_trip(e, tail);
        },
    }
}

/// A byte string from which an optional endpoint is read begins with it as
/// it is written.
pub proof fn lemma_address_canonical(b: Seq<u8>)
    requires
        parse_address(b) is Ok,
    ensures
        b == address_bytes(parse_address(b)->Ok_0.0) + parse_address(b)->Ok_0.1,
{
    if b[0] == 0 {
        assert(b =~= seq![0u8] + b.skip(1));
    } else {
        lemma_endpoint_canonical(b.skip(1));
        let (e, rest) = parse_endpoint(b.skip(1))->Ok_0;
        assert(b =~= seq![1u8] + b.skip(1));
        lemma_join3(seq![1u8], endpoint_bytes(e), rest);
    }
}


// ------------------------------------------------------------ server info

/// What a server says of itself in reply to a query.
#[derive(Debug, PartialEq, Eq)]
pub struct ServerInfo {
    name: String,
    address: Option<Endpoint>,
    password_required: bool,
}

/// A server's description as a mathematical value.
pub struct ServerInfoView {
    /// The server's name.
    pub name: Seq<char>,
    /// Where the server can be reached, where it says so.
    pub address: Option<Endpoint>,
    /// Whether the server asks for a password.
    pub password_required: bool,
}

impl ServerInfoView {
    /// Whether the description can be written: its name fits the length
    /// field of a text. Every `ServerInfo` of the program is such.
    pub open spec fn wf(self) -> bool {
        text_fits(self.name)
    }
}

impl View for ServerInfo {
    type V = ServerInfoView;

    closed spec fn view(&self) -> ServerInfoView {
        ServerInfoView {
            name: self.name@,
            address: self.address,
            password_required: self.password_required,
        }
    }
}

/// A description on the wire: its name, its optional address, its flag.
pub open spec fn info_bytes(i: ServerInfoView) -> Seq<u8> {
    text_bytes(i.name) + address_bytes(i.address) + bool_bytes(i.password_required)
}

/// A description at the head of `b`, and what follows it.
pub open spec fn parse_info(b: Seq<u8>) -> Parsed<ServerInfoView> {
    match parse_text(b) {
        Err(e) => Err(e),
        Ok((name, after_name)) => match parse_address(after_name) {
            Err(e) => Err(e),
            Ok((address, after_address)) => match parse_bool(after_address) {
                Err(e) => Err(e),
                Ok((password_required, rest)) => Ok(
                    (ServerInfoView { name, address, password_required }, rest),
                ),
            },
        },
    }
}

/// What decoding `b` as a description gives: the description at its head,
/// whatever follows it, or the reason why there is none.
pub open spec fn decoded_info(b: Seq<u8>) -> Result<ServerInfoView, DecodeError> {
    match parse_info(b) {
        Ok((i, _)) => Ok(i),
        Err(e) => Err(e),
    }
}

impl ServerInfo {
    /// Every description of the program can be written.
    #[verifier::type_invariant]
    pub open spec fn inv(self) -> bool {
        self@.wf()
    }

    /// A description with the given name, address and password flag.
    pub fn new(name: String, address: Option<Endpoint>, password_required: bool) -> (r: Self)
        ensures
            r@ == (ServerInfoView { name: name@, address, password_required }),
            r@.wf(),
    {
        // The UTF-8 bytes of a `String` are counted by a `usize`: their
        // number fits the length field.
        let utf8_len = name.as_str().as_bytes().len();
        assert(text_fits(name@));
        ServerInfo { name, address, password_required }
    }

    /// The server's name.
    pub fn name(&self) -> (r: &str)
        ensures
            r@ == self@.name,
    {
        self.name.as_str()
    }

    /// Where the server can be reached, where it says so.
    pub fn address(&self) -> (r: Option<Endpoint>)
        ensures
            r == self@.address,
    {
        self.address
    }

    /// Whether the server asks for a password.
    pub fn password_required(&self) -> (r: bool)
        ensures
            r == self@.password_required,
    {
        self.password_required
    }

    /// Writes the description at the end of `out`.
    pub fn put(&self, out: &mut Vec<u8>)
        ensures
            final(out)@ == old(out)@ + info_bytes(self@),
            self@.wf(),
    {
        put_text(out, self.name.as_str());
        put_address(out, &self.address);
        put_bool(out, self.password_required);
        assert(out@ =~= old(out)@ + info_bytes(self@));
    }

    /// Reads a description off the head of `bytes`.
    pub fn take<'a>(bytes: &'a [u8]) -> (r: Result<(ServerInfo, &'a [u8]), DecodeError>)
        ensures
            match parse_info(bytes@) {
                Ok((i, rest)) => r matches Ok((info, tail)) && info@ == i && tail@ == rest,
                Err(e) => r matches Err(f) && f == e,
            },
    {
        let (name, after_name) = match take_text(bytes) {
            Ok(pair) => pair,
            Err(e) => { return Err(e); },
        };
        let (address, after_address) = match take_address(after_name) {
            Ok(pair) => pair,
            Err(e) => { return Err(e); },
        };
        let (password_required, tail) = match take_bool(after_address) {
            Ok(pair) => pair,
            Err(e) => { return Err(e); },
        };
        proof {
            lemma_text_canonical(bytes@);
        }
        Ok((ServerInfo { name, address, password_required }, tail))
    }

    /// The bytes of the description. Whoever decodes them reads the same
    /// description.
    pub fn encode(&self) -> (bytes: Vec<u8>)
        ensures
            bytes@ == info_bytes(self@),
            decoded_info(bytes@) == Ok::<ServerInfoView, DecodeError>(self@),
            self@.wf(),
    {
        let mut out = Vec::new();
        self.put(&mut out);
        assert(out@ =~= info_bytes(self@));
        proof {
            lemma_info_encode_decode(self@);
        }
        out
    }

    /// The description that `bytes` begin with. Bytes after it are ignored;
    /// bytes that do not begin with a description give the reason.
    pub fn decode(bytes: &[u8]) -> (r: Result<ServerInfo, DecodeError>)
        ensures
            match decoded_info(bytes@) {
                Ok(i) => r matches Ok(info) && info@ == i,
                Err(e) => r matches Err(f) && f == e,
            },
    {
        match ServerInfo::take(bytes) {
            Ok((info, _)) => Ok(info),
            Err(e) => Err(e),
        }
    }
}

impl Clone for ServerInfo {
    /// A copy that describes the same server.
    fn clone(&self) -> (r: Self)
        ensures
            r == *self,
    {
        proof {
            use_type_invariant(self);
        }
        ServerInfo {
            name: self.name.clone(),
            address: self.address,
            password_required: self.password_required,
        }
    }
}

/// A description that was written is read back, whatever follows it.
pub proof fn lemma_info_round_trip(i: ServerInfoView, tail: Seq<u8>)
    requires
        i.wf(),
    ensures
        parse_info(info_bytes(i) + tail) == Ok::<(ServerInfoView, Seq<u8>), DecodeError>(
            (i, tail),
        ),
        decoded_info(info_bytes(i) + tail) == Ok::<ServerInfoView, DecodeError>(i),
{
    let name = text_bytes(i.name);
    let address = address_bytes(i.address);
    let flag = bool_bytes(i.password_required);
    lemma_join3(name + address, flag, tail);
    lemma_join3(name, address, flag + tail);
    lemma_text_round_trip(i.name, address + (flag + tail));
    lemma_address_round_trip(i.address, flag + tail);
    lemma_bool_round_trip(i.password_required, tail);
}

/// Encoding a description and decoding the bytes gives the description.
pub proof fn lemma_info_encode_decode(i: ServerInfoView)
    requires
        i.wf(),
    ensures
        decoded_info(info_bytes(i)) == Ok::<ServerInfoView, DecodeError>(i),
{
    lemma_info_round_trip(i, Seq::empty());
    assert(info_bytes(i) + Seq::<u8>::empty() =~= info_bytes(i));
}

/// A byte string from which a description is read begins with that
/// description as it is written: no two byte strings that differ before
/// the ignored tail decode to the same description.
pub proof fn lemma_info_canonical(b: Seq<u8>)
    requires
        parse_info(b) is Ok,
    ensures
        b == info_bytes(parse_info(b)->Ok_0.0) + parse_info(b)->Ok_0.1,
        parse_info(b)->Ok_0.0.wf(),
{
    let (name, after_name) = parse_text(b)->Ok_0;
    let (address, after_address) = parse_address(after_name)->Ok_0;
    let (password_required, rest) = parse_bool(after_address)->Ok_0;
    lemma_text_canonical(b);
    lemma_address_canonical(after_name);
    lemma_bool_canonical(after_address);
    assert(b =~= text_bytes(name) + address_bytes(address) + bool_bytes(password_required) + rest);
}


// ---------------------------------------------------------------- messages

/// What travels in the `Connection` domain.
#[derive(Debug, PartialEq, Eq)]
pub enum ConnectionMessage {
    /// The query: any server that hears it is asked to describe itself.
    ServerList,
    /// The reply: a server's description of itself.
    ServerInfo(ServerInfo),
}

/// A datagram of the rendezvous.
#[derive(Debug, PartialEq, Eq)]
pub enum Message {
    /// A message about finding and reaching a server.
    Connection(ConnectionMessage),
}

/// A `ConnectionMessage` as a mathematical value.
pub enum ConnectionMessageView {
    /// The query.
    ServerList,
    /// The reply, with the description it carries.
    ServerInfo(ServerInfoView),
}

/// A `Message` as a mathematical value.
pub enum MessageView {
    /// A message of the `Connection` domain.
    Connection(ConnectionMessageView),
}

impl View for ConnectionMessage {
    type V = ConnectionMessageView;

    open spec fn view(&self) -> ConnectionMessageView {
        match self {
            ConnectionMessage::ServerList => ConnectionMessageView::ServerList,
            ConnectionMessage::ServerInfo(info) => ConnectionMessageView::ServerInfo(info@),
        }
    }
}

impl View for Message {
    type V = MessageView;

    open spec fn view(&self) -> MessageView {
        match self {
            Message::Connection(inner) => MessageView::Connection(inner@),
        }
    }
}

impl MessageView {
    /// Whether the message can be written: a description in it is
    /// well-formed. Every `Message` of the program is such.
    pub open spec fn wf(self) -> bool {
        match self {
            MessageView::Connection(ConnectionMessageView::ServerList) => true,
            MessageView::Connection(ConnectionMessageView::ServerInfo(i)) => i.wf(),
        }
    }
}

/// The query as a mathematical value.
pub open spec fn query() -> MessageView {
    MessageView::Connection(ConnectionMessageView::ServerList)
}

/// The reply that carries `i`, as a mathematical value.
pub open spec fn reply(i: ServerInfoView) -> MessageView {
    MessageView::Connection(ConnectionMessageView::ServerInfo(i))
}

/// A `ConnectionMessage` on the wire: the index of its kind, then what the
/// kind carries.
pub open spec fn connection_bytes(c: ConnectionMessageView) -> Seq<u8> {
    match c {
        ConnectionMessageView::ServerList => u32_bytes(0),
        ConnectionMessageView::ServerInfo(i) => u32_bytes(1) + info_bytes(i),
    }
}

/// A message on the wire: the index of its domain, then the message of
/// that domain.
pub open spec fn message_bytes(m: MessageView) -> Seq<u8> {
    match m {
        MessageView::Connection(c) => u32_bytes(0) + connection_bytes(c),
    }
}

/// A `ConnectionMessage` at the head of `b`, and what follows it.
pub open spec fn parse_connection(b: Seq<u8>) -> Parsed<ConnectionMessageView> {
    match parse_u32(b) {
        Err(e) => Err(e),
        Ok((kind, rest)) => if kind == 0 {
            Ok((ConnectionMessageView::ServerList, rest))
        } else if kind == 1 {
            match parse_info(rest) {
                Err(e) => Err(e),
                Ok((i, rest)) => Ok((ConnectionMessageView::ServerInfo(i), rest)),
            }
        } else {
            Err(DecodeError::UnknownVariant)
        },
    }
}

/// A message at the head of `b`, and what follows it.
pub open spec fn parse_message(b: Seq<u8>) -> Parsed<MessageView> {
    match parse_u32(b) {
        Err(e) => Err(e),
        Ok((domain, rest)) => if domain == 0 {
            match parse_connection(rest) {
                Err(e) => Err(e),
                Ok((c, rest)) => Ok((MessageView::Connection(c), rest)),
            }
        } else {
            Err(DecodeError::UnknownVariant)
        },
    }
}

/// What decoding `b` gives: the message at its head, whatever follows it,
/// or the reason why there is none.
pub open spec fn decoded(b: Seq<u8>) -> Result<MessageView, DecodeError> {
    match parse_message(b) {
        Ok((m, _)) => Ok(m),
        Err(e) => Err(e),
    }
}

impl ConnectionMessage {
    /// Writes the message at the end of `out`.
    pub fn put(&self, out: &mut Vec<u8>)
        ensures
            final(out)@ == old(out)@ + connection_bytes(self@),
            MessageView::Connection(self@).wf(),
    {
        match self {
            ConnectionMessage::ServerList => {
                put_u32(out, 0);
            },
            ConnectionMessage::ServerInfo(info) => {
                put_u32(out, 1);
                info.put(out);
                proof {
                    lemma_join3(old(out)@, u32_bytes(1), info_bytes(info@));
                }
            },
        }
    }

    /// Reads a message off the head of `bytes`.
    pub fn take<'a>(bytes: &'a [u8]) -> (r: Result<(ConnectionMessage, &'a [u8]), DecodeError>)
        ensures
            match parse_connection(bytes@) {
                Ok((c, rest)) => r matches Ok((m, tail)) && m@ == c && tail@ == rest,
                Err(e) => r matches Err(f) && f == e,
            },
    {
        let (kind, rest) = match take_u32(bytes) {
            Ok(pair) => pair,
            Err(e) => { return Err(e); },
        };
        if kind == 0 {
            Ok((ConnectionMessage::ServerList, rest))
        } else if kind == 1 {
            match ServerInfo::take(rest) {
                Ok((info, tail)) => Ok((ConnectionMessage::ServerInfo(info), tail)),
                Err(e) => Err(e),
            }
        } else {
            Err(DecodeError::UnknownVariant)
        }
    }
}

impl Message {
    /// The query.
    pub fn server_list() -> (m: Message)
        ensures
            m@ == query(),
    {
        Message::Connection(ConnectionMessage::ServerList)
    }

    /// The reply that carries `info`.
    pub fn server_info(info: ServerInfo) -> (m: Message)
        ensures
            m@ == reply(info@),
    {
        Message::Connection(ConnectionMessage::ServerInfo(info))
    }

    /// Writes the message at the end of `out`.
    pub fn put(&self, out: &mut Vec<u8>)
        ensures
            final(out)@ == old(out)@ + message_bytes(self@),
            self@.wf(),
    {
        match self {
            Message::Connection(inner) => {
                put_u32(out, 0);
                inner.put(out);
                proof {
                    lemma_join3(old(out)@, u32_bytes(0), connection_bytes(inner@));
                }
            },
        }
    }

    /// Reads a message off the head of `bytes`.
    pub fn take<'a>(bytes: &'a [u8]) -> (r: Result<(Message, &'a [u8]), DecodeError>)
        ensures
            match parse_message(bytes@) {
                Ok((m, rest)) => r matches Ok((x, tail)) && x@ == m && tail@ == rest,
                Err(e) => r matches Err(f) && f == e,
            },
    {
        let (domain, rest) = match take_u32(bytes) {
            Ok(pair) => pair,
            Err(e) => { return Err(e); },
        };
        if domain == 0 {
            match ConnectionMessage::take(rest) {
                Ok((inner, tail)) => Ok((Message::Connection(inner), tail)),
                Err(e) => Err(e),
            }
        } else {
            Err(DecodeError::UnknownVariant)
        }
    }

    /// The bytes of the message. Whoever decodes them reads the same
    /// message.
    pub fn encode(&self) -> (bytes: Vec<u8>)
        ensures
            bytes@ == message_bytes(self@),
            decoded(bytes@) == Ok::<MessageView, DecodeError>(self@),
    {
        let mut out = Vec::new();
        self.put(&mut out);
        assert(out@ =~= message_bytes(self@));
        proof {
            lemma_message_encode_decode(self@);
        }
        out
    }

    /// The message that `bytes` begin with. Bytes after it are ignored;
    /// bytes that do not begin with a message give the reason.
    pub fn decode(bytes: &[u8]) -> (r: Result<Message, DecodeError>)
        ensures
            match decoded(bytes@) {
                Ok(m) => r matches Ok(x) && x@ == m,
                Err(e) => r matches Err(f) && f == e,
            },
    {
        match Message::take(bytes) {
            Ok((message, _)) => Ok(message),
            Err(e) => Err(e),
        }
    }
}

/// A message that was written is read back, whatever follows it.
pub proof fn lemma_message_round_trip(m: MessageView, tail: Seq<u8>)
    requires
        m.wf(),
    ensures
        parse_message(message_bytes(m) + tail) == Ok::<(MessageView, Seq<u8>), DecodeError>(
            (m, tail),
        ),
        decoded(message_bytes(m) + tail) == Ok::<MessageView, DecodeError>(m),
{
    match m {
        MessageView::Connection(ConnectionMessageView::ServerList) => {
            lemma_join3(u32_bytes(0), u32_bytes(0), tail);
            lemma_u32_round_trip(0, u32_bytes(0) + tail);
            lemma_u32_round_trip(0, tail);
        },
        MessageView::Connection(ConnectionMessageView::ServerInfo(i)) => {
            lemma_join3(u32_bytes(0), u32_bytes(1) + info_bytes(i), tail);
            lemma_join3(u32_bytes(1), info_bytes(i), tail);
            lemma_u32_round_trip(0, u32_bytes(1) + (info_bytes(i) + tail));
            lemma_u32_round_trip(1, info_bytes(i) + tail);
            lemma_info_round_trip(i, tail);
        },
    }
}

/// Encoding a message and decoding the bytes gives the message.
pub proof fn lemma_message_encode_decode(m: MessageView)
    requires
        m.wf(),
    ensures
        decoded(message_bytes(m)) == Ok::<MessageView, DecodeError>(m),
{
    lemma_message_round_trip(m, Seq::empty());
    assert(message_bytes(m) + Seq::<u8>::empty() =~= message_bytes(m));
}

/// A byte string from which a message is read begins with that message as
/// it is written.
pub proof fn lemma_message_canonical(b: Seq<u8>)
    requires
        parse_message(b) is Ok,
    ensures
        b == message_bytes(parse_message(b)->Ok_0.0) + parse_message(b)->Ok_0.1,
        parse_message(b)->Ok_0.0.wf(),
{
    let (domain, after_domain) = parse_u32(b)->Ok_0;
    let (kind, after_kind) = parse_u32(after_domain)->Ok_0;
    lemma_u32_canonical(b);
    lemma_u32_canonical(after_domain);
    if kind == 0 {
        lemma_join3(u32_bytes(0), u32_bytes(0), after_kind);
    } else {
        let (i, rest) = parse_info(after_kind)->Ok_0;
        lemma_info_canonical(after_kind);
        lemma_join3(u32_bytes(1), info_bytes(i), rest);
        lemma_join3(u32_bytes(0), u32_bytes(1) + info_bytes(i), rest);
    }
}

/// How long a message is on the wire. The query takes 8 bytes. A reply
/// takes 8 bytes of tags, 8 of length and the UTF-8 bytes of the name, 1
/// byte of presence and, where there is an address, 4 of variant, its 4 or
/// 16 octets and 2 of port, and 1 byte of flag.
pub proof fn lemma_message_length(m: MessageView)
    ensures
        m == query() ==> message_bytes(m).len() == 8,
        m matches MessageView::Connection(ConnectionMessageView::ServerInfo(i))
            ==> message_bytes(m).len() == 18 + encode_utf8(i.name).len() + match i.address {
            None => 0nat,
            Some(Endpoint::V4(_, _)) => 10nat,
            Some(Endpoint::V6(_, _)) => 22nat,
        },
{
    lemma_u32_round_trip(0, Seq::empty());
    lemma_u32_round_trip(1, Seq::empty());
    match m {
        MessageView::Connection(ConnectionMessageView::ServerList) => {},
        MessageView::Connection(ConnectionMessageView::ServerInfo(i)) => {
            lemma_u64_round_trip(encode_utf8(i.name).len() as u64, Seq::empty());
            match i.address {
                None => {},
                Some(Endpoint::V4(octets, port)) => {
                    lemma_u16_round_trip(port, Seq::empty());
                },
                Some(Endpoint::V6(octets, port)) => {
                    lemma_u16_round_trip(port, Seq::empty());
                },
            }
        },
    }
}

/// Decoding succeeds on the byte strings that begin with a message as it is
/// written, and on no others.
pub proof fn lemma_decodes_what_is_written(b: Seq<u8>)
    ensures
        decoded(b) is Ok <==> exists|m: MessageView, tail: Seq<u8>|
            m.wf() && b == #[trigger] (message_bytes(m) + tail),
{
    if decoded(b) is Ok {
        lemma_message_canonical(b);
        let (m, tail) = parse_message(b)->Ok_0;
        assert(m.wf() && b == message_bytes(m) + tail);
    }
    if exists|m: MessageView, tail: Seq<u8>| m.wf() && b == #[trigger] (message_bytes(m) + tail) {
        let (m, tail) = choose|m: MessageView, tail: Seq<u8>|
            m.wf() && b == #[trigger] (message_bytes(m) + tail);
        lemma_message_round_trip(m, tail);
    }
}

/// Decoding tells the kinds apart: byte strings that begin with the bytes
/// of two messages begin with the same message. So no reply is taken for a
/// query, no query for a reply, and no description for another.
pub proof fn lemma_messages_unambiguous(m1: MessageView, t1: Seq<u8>, m2: MessageView, t2: Seq<u8>)
    requires
        m1.wf(),
        m2.wf(),
        message_bytes(m1) + t1 == message_bytes(m2) + t2,
    ensures
        m1 == m2,
        t1 == t2,
{
    lemma_message_round_trip(m1, t1);
    lemma_message_round_trip(m2, t2);
}

/// The query on the wire is eight zero bytes.
pub proof fn lemma_query_bytes()
    ensures
        message_bytes(query()) == seq![0u8, 0u8, 0u8, 0u8, 0u8, 0u8, 0u8, 0u8],
{
    reveal(u32_bytes);
    assert(message_bytes(query()) =~= seq![0u8, 0u8, 0u8, 0u8, 0u8, 0u8, 0u8, 0u8]);
}


// --------------------------------------------------------------- datagrams

/// Bytes to send, and where to send them.
#[derive(Debug, PartialEq, Eq)]
pub struct Datagram {
    /// The bytes of one message.
    pub payload: Vec<u8>,
    /// The endpoint to send them to.
    pub destination: Endpoint,
}

/// A `Datagram` as a mathematical value.
pub struct DatagramView {
    /// The bytes of one message.
    pub payload: Seq<u8>,
    /// The endpoint to send them to.
    pub destination: Endpoint,
}

impl View for Datagram {
    type V = DatagramView;

    open spec fn view(&self) -> DatagramView {
        DatagramView { payload: self.payload@, destination: self.destination }
    }
}

/// The bytes of the query. They never change: a sender encodes them once
/// and sends the same bytes every time.
pub fn query_bytes() -> (bytes: Vec<u8>)
    ensures
        bytes@ == message_bytes(query()),
        decoded(bytes@) == Ok::<MessageView, DecodeError>(query()),
{
    let mut out = Vec::new();
    put_u32(&mut out, 0);
    put_u32(&mut out, 0);
    assert(out@ =~= message_bytes(query()));
    proof {
        lemma_message_encode_decode(query());
    }
    out
}

/// The bytes of the reply that carries `info`.
pub fn reply_bytes(info: &ServerInfo) -> (bytes: Vec<u8>)
    ensures
        bytes@ == message_bytes(reply(info@)),
        decoded(bytes@) == Ok::<MessageView, DecodeError>(reply(info@)),
        info@.wf(),
{
    let mut out = Vec::new();
    put_u32(&mut out, 0);
    put_u32(&mut out, 1);
    info.put(&mut out);
    assert(out@ =~= message_bytes(reply(info@)));
    proof {
        lemma_message_encode_decode(reply(info@));
    }
    out
}

} // verus!
