//! The leaves of the wire format: fixed-width little-endian integers, single
//! flag bytes, and runs of raw bytes.
//!
//! Every field is described three times: the bytes that a value is written
//! as (`*_bytes`), what reading a field off the head of a byte string gives
//! (`parse_*`), and the executable writer and reader (`put_*`, `take_*`).
//! The lemmas at the end of each section tie the first two together.

use vstd::prelude::*;

verus! {

/// Why a byte string is not a message.
#[derive(Clone, Copy, Debug, PartialEq, Eq, Structural)]
pub enum DecodeError {
    /// The bytes end before the field does.
    Truncated,
    /// A variant index names no variant.
    UnknownVariant,
    /// The presence tag of an optional field is neither 0 nor 1.
    InvalidOptionTag,
    /// A boolean is neither 0 nor 1.
    InvalidBool,
    /// The bytes of a text field are not UTF-8.
    InvalidText,
}

/// What reading one field gives: its value and the bytes after it.
pub type Parsed<T> = Result<(T, Seq<u8>), DecodeError>;

/// What an executable reader hands back: the value and the rest of the input.
pub type Taken<'a, T> = Result<(T, &'a [u8]), DecodeError>;

/// The reader's result `r` is what the format says of its input.
pub open spec fn reads<T>(r: Taken<'_, T>, p: Parsed<T>) -> bool {
    match p {
        Ok((v, rest)) => r matches Ok((w, tail)) && w == v && tail@ == rest,
        Err(e) => r matches Err(f) && f == e,
    }
}

/// Joining byte strings does not depend on how the joins are grouped.
pub proof fn lemma_join3(a: Seq<u8>, b: Seq<u8>, c: Seq<u8>)
    ensures
        (a + b) + c == a + (b + c),
{
    assert((a + b) + c =~= a + (b + c));
}

// ---------------------------------------------------------------- one byte

/// The byte at the head of `b`, and what follows it.
pub open spec fn parse_byte(b: Seq<u8>) -> Parsed<u8> {
    if b.len() < 1 {
        Err(DecodeError::Truncated)
    } else {
        Ok((b[0], b.skip(1)))
    }
}

/// Reads one byte.
pub fn take_byte<'a>(bytes: &'a [u8]) -> (r: Taken<'a, u8>)
    ensures
        reads(r, parse_byte(bytes@)),
{
    if bytes.len() < 1 {
        return Err(DecodeError::Truncated);
    }
    let tail = &bytes[1..bytes.len()];
    assert(tail@ =~= bytes@.skip(1));
    Ok((bytes[0], tail))
}

// ------------------------------------------------------------ 16-bit field

/// The two bytes of a 16-bit field, least significant first.
#[verifier::opaque]
pub open spec fn u16_bytes(v: u16) -> Seq<u8> {
    seq![(v % 256) as u8, (v / 256) as u8]
}

/// The value that two little-endian bytes stand for.
#[verifier::opaque]
pub open spec fn u16_value(b: Seq<u8>) -> u16
    recommends
        b.len() >= 2,
{
    (b[0] as int + b[1] as int * 256) as u16
}

/// A 16-bit field at the head of `b`, and what follows it.
pub open spec fn parse_u16(b: Seq<u8>) -> Parsed<u16> {
    if b.len() < 2 {
        Err(DecodeError::Truncated)
    } else {
        Ok((u16_value(b), b.skip(2)))
    }
}

/// Appends a 16-bit field.
pub fn put_u16(out: &mut Vec<u8>, v: u16)
    ensures
        final(out)@ == old(out)@ + u16_bytes(v),
{
    proof {
        reveal(u16_bytes);
    }
    out.push((v % 256) as u8);
    out.push((v / 256) as u8);
    assert(out@ =~= old(out)@ + u16_bytes(v));
}

/// Reads a 16-bit field.
pub fn take_u16<'a>(bytes: &'a [u8]) -> (r: Taken<'a, u16>)
    ensures
        reads(r, parse_u16(bytes@)),
{
    proof {
        reveal(u16_value);
    }
    if bytes.len() < 2 {
        return Err(DecodeError::Truncated);
    }
    let v: u16 = bytes[0] as u16 + bytes[1] as u16 * 256;
    let tail = &bytes[2..bytes.len()];
    assert(tail@ =~= bytes@.skip(2));
    Ok((v, tail))
}

/// A 16-bit field that was written is read back, whatever follows it.
pub proof fn lemma_u16_round_trip(v: u16, tail: Seq<u8>)
    ensures
        u16_bytes(v).len() == 2,
        parse_u16(u16_bytes(v) + tail) == Ok::<(u16, Seq<u8>), DecodeError>((v, tail)),
{
    reveal(u16_bytes);
    reveal(u16_value);
    assert((u16_bytes(v) + tail).skip(2) =~= tail);
}

/// A byte string from which a 16-bit field is read begins with that field
/// as it is written.
pub proof fn lemma_u16_canonical(b: Seq<u8>)
    requires
        parse_u16(b) is Ok,
    ensures
        b == u16_bytes(parse_u16(b)->Ok_0.0) + parse_u16(b)->Ok_0.1,
{
    reveal(u16_bytes);
    reveal(u16_value);
    assert(b =~= u16_bytes(u16_value(b)) + b.skip(2));
}

// ------------------------------------------------------------ 32-bit field

/// The four bytes of a 32-bit field, least significant first.
#[verifier::opaque]
pub open spec fn u32_bytes(v: u32) -> Seq<u8> {
    seq![
        (v % 256) as u8,
        (v / 256 % 256) as u8,
        (v / 65536 % 256) as u8,
        (v / 16777216) as u8,
    ]
}

/// The value that four little-endian bytes stand for.
#[verifier::opaque]
pub open spec fn u32_value(b: Seq<u8>) -> u32
    recommends
        b.len() >= 4,
{
    (b[0] as int + b[1] as int * 256 + b[2] as int * 65536 + b[3] as int * 16777216) as u32
}

/// A 32-bit field at the head of `b`, and what follows it.
pub open spec fn parse_u32(b: Seq<u8>) -> Parsed<u32> {
    if b.len() < 4 {
        Err(DecodeError::Truncated)
    } else {
        Ok((u32_value(b), b.skip(4)))
    }
}

/// Appends a 32-bit field.
pub fn put_u32(out: &mut Vec<u8>, v: u32)
    ensures
        final(out)@ == old(out)@ + u32_bytes(v),
{
    proof {
        reveal(u32_bytes);
    }
    out.push((v % 256) as u8);
    out.push((v / 256 % 256) as u8);
    out.push((v / 65536 % 256) as u8);
    out.push((v / 16777216) as u8);
    assert(out@ =~= old(out)@ + u32_bytes(v));
}

/// Reads a 32-bit field.
pub fn take_u32<'a>(bytes: &'a [u8]) -> (r: Taken<'a, u32>)
    ensures
        reads(r, parse_u32(bytes@)),
{
    proof {
        reveal(u32_value);
    }
    if bytes.len() < 4 {
        return Err(DecodeError::Truncated);
    }
    let v: u32 = bytes[0] as u32 + bytes[1] as u32 * 256 + bytes[2] as u32 * 65536
        + bytes[3] as u32 * 16777216;
    let tail = &bytes[4..bytes.len()];
    assert(tail@ =~= bytes@.skip(4));
    Ok((v, tail))
}

/// A 32-bit value is the sum of its four base-256 digits, each weighted by
/// its position.
proof fn lemma_u32_digits(v: u32)
    ensures
        v == v % 256 + (v / 256 % 256) * 256 + (v / 65536 % 256) * 65536 + (v / 16777216)
            * 16777216,
        v / 16777216 < 256,
{
    let a = v / 256;
    let b = a / 256;
    let c = b / 256;
    assert(v == a * 256 + v % 256);
    assert(a == b * 256 + a % 256);
    assert(b == c * 256 + b % 256);
    assert(b == v / 65536);
    assert(c == v / 16777216);
}

/// The base-256 digits of a weighted sum of four bytes are those bytes.
proof fn lemma_u32_positions(b0: u8, b1: u8, b2: u8, b3: u8)
    ensures
        ({
            let v = b0 as int + b1 as int * 256 + b2 as int * 65536 + b3 as int * 16777216;
            &&& 0 <= v <= u32::MAX
            &&& v % 256 == b0
            &&& v / 256 % 256 == b1
            &&& v / 65536 % 256 == b2
            &&& v / 16777216 == b3
        }),
{
    let v = b0 as int + b1 as int * 256 + b2 as int * 65536 + b3 as int * 16777216;
    let a = b1 as int + b2 as int * 256 + b3 as int * 65536;
    let b = b2 as int + b3 as int * 256;
    assert(v == a * 256 + b0);
    assert(v / 256 == a && v % 256 == b0);
    assert(a == b * 256 + b1);
    assert(a / 256 == b && a % 256 == b1);
    assert(b / 256 == b3 && b % 256 == b2);
    assert(v / 65536 == b);
    assert(v / 16777216 == b3);
}

/// A 32-bit field that was written is read back, whatever follows it.
pub proof fn lemma_u32_round_trip(v: u32, tail: Seq<u8>)
    ensures
        u32_bytes(v).len() == 4,
        parse_u32(u32_bytes(v) + tail) == Ok::<(u32, Seq<u8>), DecodeError>((v, tail)),
{
    reveal(u32_bytes);
    reveal(u32_value);
    lemma_u32_digits(v);
    assert((u32_bytes(v) + tail).skip(4) =~= tail);
}

/// A byte string from which a 32-bit field is read begins with that field
/// as it is written.
pub proof fn lemma_u32_canonical(b: Seq<u8>)
    requires
        parse_u32(b) is Ok,
    ensures
        b == u32_bytes(parse_u32(b)->Ok_0.0) + parse_u32(b)->Ok_0.1,
{
    reveal(u32_bytes);
    reveal(u32_value);
    lemma_u32_positions(b[0], b[1], b[2], b[3]);
    assert(b =~= u32_bytes(u32_value(b)) + b.skip(4));
}

// ------------------------------------------------------------ 64-bit field

/// Two to the power 32: what the high half of a 64-bit field counts.
pub const HALF: u64 = 0x1_0000_0000;

/// The eight bytes of a 64-bit field, least significant first: its low
/// half, then its high half.
pub open spec fn u64_bytes(v: u64) -> Seq<u8> {
    u32_bytes((v % HALF) as u32) + u32_bytes((v / HALF) as u32)
}

/// The value that eight little-endian bytes stand for.
pub open spec fn u64_value(b: Seq<u8>) -> u64
    recommends
        b.len() >= 8,
{
    (u32_value(b) as int + u32_value(b.skip(4)) as int * HALF) as u64
}

/// A 64-bit field at the head of `b`, and what follows it.
pub open spec fn parse_u64(b: Seq<u8>) -> Parsed<u64> {
    if b.len() < 8 {
        Err(DecodeError::Truncated)
    } else {
        Ok((u64_value(b), b.skip(8)))
    }
}

/// Appends a 64-bit field.
pub fn put_u64(out: &mut Vec<u8>, v: u64)
    ensures
        final(out)@ == old(out)@ + u64_bytes(v),
{
    put_u32(out, (v % HALF) as u32);
    put_u32(out, (v / HALF) as u32);
    assert(out@ =~= old(out)@ + u64_bytes(v));
}

/// Reads a 64-bit field.
pub fn take_u64<'a>(bytes: &'a [u8]) -> (r: Taken<'a, u64>)
    ensures
        reads(r, parse_u64(bytes@)),
{
    if bytes.len() < 8 {
        return Err(DecodeError::Truncated);
    }
    let (low, after_low) = match take_u32(bytes) {
        Ok(pair) => pair,
        Err(e) => { return Err(e); },
    };
    let (high, tail) = match take_u32(after_low) {
        Ok(pair) => pair,
        Err(e) => { return Err(e); },
    };
    assert(tail@ =~= bytes@.skip(8));
    Ok((low as u64 + high as u64 * HALF, tail))
}

/// A 64-bit field that was written is read back, whatever follows it.
pub proof fn lemma_u64_round_trip(v: u64, tail: Seq<u8>)
    ensures
        u64_bytes(v).len() == 8,
        parse_u64(u64_bytes(v) + tail) == Ok::<(u64, Seq<u8>), DecodeError>((v, tail)),
{
    let low = (v % HALF) as u32;
    let high = (v / HALF) as u32;
    let b = u64_bytes(v) + tail;
    assert(b =~= u32_bytes(low) + (u32_bytes(high) + tail));
    lemma_u32_round_trip(low, u32_bytes(high) + tail);
    lemma_u32_round_trip(high, tail);
    assert(b.skip(4) =~= u32_bytes(high) + tail);
    assert(b.skip(8) =~= tail);
}

/// A byte string from which a 64-bit field is read begins with that field
/// as it is written.
pub proof fn lemma_u64_canonical(b: Seq<u8>)
    requires
        parse_u64(b) is Ok,
    ensures
        b == u64_bytes(parse_u64(b)->Ok_0.0) + parse_u64(b)->Ok_0.1,
{
    let low = u32_value(b);
    let high = u32_value(b.skip(4));
    let v = u64_value(b);
    assert(v % HALF == low && v / HALF == high);
    lemma_u32_canonical(b);
    lemma_u32_canonical(b.skip(4));
    assert(b.skip(4).skip(4) =~= b.skip(8));
    assert(b =~= u32_bytes(low) + u32_bytes(high) + b.skip(8));
}

// ----------------------------------------------------------------- boolean

/// The single byte of a boolean.
pub open spec fn bool_bytes(v: bool) -> Seq<u8> {
    seq![if v { 1u8 } else { 0u8 }]
}

/// A boolean at the head of `b`, and what follows it.
pub open spec fn parse_bool(b: Seq<u8>) -> Parsed<bool> {
    if b.len() < 1 {
        Err(DecodeError::Truncated)
    } else if b[0] == 0 {
        Ok((false, b.skip(1)))
    } else if b[0] == 1 {
        Ok((true, b.skip(1)))
    } else {
        Err(DecodeError::InvalidBool)
    }
}

/// Appends a boolean.
pub fn put_bool(out: &mut Vec<u8>, v: bool)
    ensures
        final(out)@ == old(out)@ + bool_bytes(v),
{
    out.push(if v { 1u8 } else { 0u8 });
    assert(out@ =~= old(out)@ + bool_bytes(v));
}

/// Reads a boolean.
pub fn take_bool<'a>(bytes: &'a [u8]) -> (r: Taken<'a, bool>)
    ensures
        reads(r, parse_bool(bytes@)),
{
    let (byte, tail) = match take_byte(bytes) {
        Ok(pair) => pair,
        Err(e) => { return Err(e); },
    };
    if byte == 0 {
        Ok((false, tail))
    } else if byte == 1 {
        Ok((true, tail))
    } else {
        Err(DecodeError::InvalidBool)
    }
}

/// A boolean that was written is read back, whatever follows it.
pub proof fn lemma_bool_round_trip(v: bool, tail: Seq<u8>)
    ensures
        parse_bool(bool_bytes(v) + tail) == Ok::<(bool, Seq<u8>), DecodeError>((v, tail)),
{
    assert((bool_bytes(v) + tail).skip(1) =~= tail);
}

/// A byte string from which a boolean is read begins with that boolean as
/// it is written.
pub proof fn lemma_bool_canonical(b: Seq<u8>)
    requires
        parse_bool(b) is Ok,
    ensures
        b == bool_bytes(parse_bool(b)->Ok_0.0) + parse_bool(b)->Ok_0.1,
{
    assert(b =~= bool_bytes(parse_bool(b)->Ok_0.0) + b.skip(1));
}

// --------------------------------------------------------------- raw bytes

/// The first `n` bytes of `b`, and what follows them.
pub open spec fn parse_run(b: Seq<u8>, n: nat) -> Parsed<Seq<u8>> {
    if b.len() < n {
        Err(DecodeError::Truncated)
    } else {
        Ok((b.take(n as int), b.skip(n as int)))
    }
}

/// Appends the bytes of `run` as they are.
pub fn put_run(out: &mut Vec<u8>, run: &[u8])
    ensures
        final(out)@ == old(out)@ + run@,
{
    let mut i: usize = 0;
    while i < run.len()
        invariant
            i <= run@.len(),
            out@ == old(out)@ + run@.take(i as int),
        decreases run@.len() - i,
    {
        out.push(run[i]);
        i += 1;
        assert(out@ =~= old(out)@ + run@.take(i as int));
    }
    assert(run@.take(run@.len() as int) =~= run@);
}

/// Splits `n` bytes off the head of `bytes`.
pub fn take_run<'a>(bytes: &'a [u8], n: usize) -> (r: Result<(&'a [u8], &'a [u8]), DecodeError>)
    ensures
        match parse_run(bytes@, n as nat) {
            Ok((run, rest)) => r matches Ok((head, tail)) && head@ == run && tail@ == rest,
            Err(e) => r matches Err(f) && f == e,
        },
{
    if bytes.len() < n {
        return Err(DecodeError::Truncated);
    }
    let head = &bytes[0..n];
    let tail = &bytes[n..bytes.len()];
    assert(head@ =~= bytes@.take(n as int));
    assert(tail@ =~= bytes@.skip(n as int));
    Ok((head, tail))
}

/// A run that was written is read back, whatever follows it.
pub proof fn lemma_run_round_trip(run: Seq<u8>, tail: Seq<u8>)
    ensures
        parse_run(run + tail, run.len()) == Ok::<(Seq<u8>, Seq<u8>), DecodeError>((run, tail)),
{
    assert((run + tail).take(run.len() as int) =~= run);
    assert((run + tail).skip(run.len() as int) =~= tail);
}

/// A byte string from which a run is read is that run and what follows.
pub proof fn lemma_run_canonical(b: Seq<u8>, n: nat)
    requires
        parse_run(b, n) is Ok,
    ensures
        b == parse_run(b, n)->Ok_0.0 + parse_run(b, n)->Ok_0.1,
        parse_run(b, n)->Ok_0.0.len() == n,
{
    assert(b =~= b.take(n as int) + b.skip(n as int));
}


// ------------------------------------------------------ address octets

/// The array of the first four bytes of `b`.
pub open spec fn octets4(b: Seq<u8>) -> [u8; 4]
    recommends
        b.len() >= 4,
{
    [b[0], b[1], b[2], b[3]]
}

/// The array of the first sixteen bytes of `b`.
pub open spec fn octets16(b: Seq<u8>) -> [u8; 16]
    recommends
        b.len() >= 16,
{
    [
        b[0],
        b[1],
        b[2],
        b[3],
        b[4],
        b[5],
        b[6],
        b[7],
        b[8],
        b[9],
        b[10],
        b[11],
        b[12],
        b[13],
        b[14],
        b[15],
    ]
}

/// Four address octets at the head of `b`, and what follows them.
pub open spec fn parse_octets4(b: Seq<u8>) -> Parsed<[u8; 4]> {
    if b.len() < 4 {
        Err(DecodeError::Truncated)
    } else {
        Ok((octets4(b), b.skip(4)))
    }
}

/// Sixteen address octets at the head of `b`, and what follows them.
pub open spec fn parse_octets16(b: Seq<u8>) -> Parsed<[u8; 16]> {
    if b.len() < 16 {
        Err(DecodeError::Truncated)
    } else {
        Ok((octets16(b), b.skip(16)))
    }
}

/// Reads four address octets.
pub fn take_octets4<'a>(bytes: &'a [u8]) -> (r: Taken<'a, [u8; 4]>)
    ensures
        reads(r, parse_octets4(bytes@)),
{
    if bytes.len() < 4 {
        return Err(DecodeError::Truncated);
    }
    let octets = [bytes[0], bytes[1], bytes[2], bytes[3]];
    let tail = &bytes[4..bytes.len()];
    assert(octets@ =~= octets4(bytes@)@);
    assert(tail@ =~= bytes@.skip(4));
    Ok((octets, tail))
}

/// Reads sixteen address octets.
pub fn take_octets16<'a>(bytes: &'a [u8]) -> (r: Taken<'a, [u8; 16]>)
    ensures
        reads(r, parse_octets16(bytes@)),
{
    if bytes.len() < 16 {
        return Err(DecodeError::Truncated);
    }
    let octets = [
        bytes[0],
        bytes[1],
        bytes[2],
        bytes[3],
        bytes[4],
        bytes[5],
        bytes[6],
        bytes[7],
        bytes[8],
        bytes[9],
        bytes[10],
        bytes[11],
        bytes[12],
        bytes[13],
        bytes[14],
        bytes[15],
    ];
    let tail = &bytes[16..bytes.len()];
    assert(octets@ =~= octets16(bytes@)@);
    assert(tail@ =~= bytes@.skip(16));
    Ok((octets, tail))
}

/// Four octets that were written are read back, whatever follows them.
pub proof fn lemma_octets4_round_trip(octets: [u8; 4], tail: Seq<u8>)
    ensures
        parse_octets4(octets@ + tail) == Ok::<([u8; 4], Seq<u8>), DecodeError>((octets, tail)),
{
    assert(octets4(octets@ + tail) =~= octets);
    assert((octets@ + tail).skip(4) =~= tail);
}

/// Sixteen octets that were written are read back, whatever follows them.
pub proof fn lemma_octets16_round_trip(octets: [u8; 16], tail: Seq<u8>)
    ensures
        parse_octets16(octets@ + tail) == Ok::<([u8; 16], Seq<u8>), DecodeError>((octets, tail)),
{
    assert(octets16(octets@ + tail) =~= octets);
    assert((octets@ + tail).skip(16) =~= tail);
}

/// A byte string from which four octets are read begins with them.
pub proof fn lemma_octets4_canonical(b: Seq<u8>)
    requires
        parse_octets4(b) is Ok,
    ensures
        b == parse_octets4(b)->Ok_0.0@ + parse_octets4(b)->Ok_0.1,
{
    assert(b =~= octets4(b)@ + b.skip(4));
}

/// A byte string from which sixteen octets are read begins with them.
pub proof fn lemma_octets16_canonical(b: Seq<u8>)
    requires
        parse_octets16(b) is Ok,
    ensures
        b == parse_octets16(b)->Ok_0.0@ + parse_octets16(b)->Ok_0.1,
{
    assert(b =~= octets16(b)@ + b.skip(16));
}

} // verus!
