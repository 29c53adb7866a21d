use vstd::prelude::*;

verus! {

/// Errors that framing a payload, or reading a frame off the wire, can give.
#[derive(Debug, PartialEq)]
pub enum WireError {
    /// A payload too long for the 32-bit length field of a binary frame; its length.
    PayloadTooLarge(usize),
    /// A binary frame is malformed; what is wrong with it.
    BinaryDecode(String),
    /// A binary frame announces a format version this library does not know.
    UnsupportedVersion(u8),
}

/// Wire format for bottle serialization.
#[derive(Debug, Clone, Copy, PartialEq, Eq, Structural)]
pub enum WireFormat {
    /// JSON: human-readable, debuggable, CF Workers friendly.
    Json,
    /// Framed binary: magic bytes, a version byte, the payload length as a
    /// big-endian `u32`, then the JSON payload.
    BinaryV1,
}

/// Protocol version byte for the binary format.
pub const BINARY_VERSION: u8 = 1;

/// Length of the binary frame header: magic bytes, version, payload length.
pub const HEADER_LEN: usize = 9;

/// Magic bytes identifying a fleet-bottle binary frame.
pub open spec fn magic() -> Seq<u8> {
    seq![0xF1u8, 0xB0u8, 0x71u8, 0x1Eu8]
}

/// The four big-endian bytes of `n`, for `n < 2^32`.
pub open spec fn be_u32_bytes(n: nat) -> Seq<u8> {
    seq![
        (n / 0x100_0000) as u8,
        (n / 0x1_0000 % 0x100) as u8,
        (n / 0x100 % 0x100) as u8,
        (n % 0x100) as u8,
    ]
}

/// The number that four big-endian bytes spell.
pub open spec fn be_u32_value(b0: u8, b1: u8, b2: u8, b3: u8) -> nat {
    (b0 as nat) * 0x100_0000 + (b1 as nat) * 0x1_0000 + (b2 as nat) * 0x100 + (b3 as nat)
}

/// The longest payload a binary V1 frame can announce: `u32::MAX` bytes.
pub const MAX_FRAME_PAYLOAD: usize = 0xFFFF_FFFF;

/// Whether a payload can be sent in this wire format: anything as JSON,
/// at most [`MAX_FRAME_PAYLOAD`] bytes in a binary frame.
pub open spec fn fits_format(json: Seq<u8>, format: WireFormat) -> bool {
    format == WireFormat::BinaryV1 ==> json.len() <= MAX_FRAME_PAYLOAD
}

/// The binary V1 frame around a JSON payload of at most
/// [`MAX_FRAME_PAYLOAD`] bytes: magic bytes, version byte, payload length as
/// a big-endian `u32`, payload.
pub open spec fn frame_v1(json: Seq<u8>) -> Seq<u8> {
    magic() + seq![BINARY_VERSION] + be_u32_bytes(json.len()) + json
}

/// The bytes that `encode` produces from a JSON payload.
pub open spec fn encode_spec(json: Seq<u8>, format: WireFormat) -> Seq<u8> {
    match format {
        WireFormat::Json => json,
        WireFormat::BinaryV1 => frame_v1(json),
    }
}

/// Whether bytes start with the magic bytes and the binary version byte.
pub open spec fn has_binary_marker(data: Seq<u8>) -> bool {
    &&& data.len() >= 5
    &&& data.take(4) == magic()
    &&& data[4] == BINARY_VERSION
}

/// The payload length that a binary header announces.
pub open spec fn declared_len(data: Seq<u8>) -> nat
    recommends
        data.len() >= HEADER_LEN,
{
    be_u32_value(data[5], data[6], data[7], data[8])
}

/// Why a binary frame is refused.
#[derive(Debug, Clone, Copy, PartialEq, Eq, Structural)]
pub enum DecodeFailure {
    /// Fewer bytes than a header.
    TooShort,
    /// The first four bytes are not the magic bytes.
    BadMagic,
    /// The version byte is not [`BINARY_VERSION`].
    UnsupportedVersion(u8),
    /// Fewer payload bytes than the header announces.
    Truncated,
}

/// What decoding a binary V1 frame gives: the announced number of payload
/// bytes after the header (bytes past them are ignored), or why the frame
/// is refused.
pub open spec fn decode_binary_v1_spec(data: Seq<u8>) -> Result<Seq<u8>, DecodeFailure> {
    if data.len() < HEADER_LEN {
        Err(DecodeFailure::TooShort)
    } else if data.take(4) != magic() {
        Err(DecodeFailure::BadMagic)
    } else if data[4] != BINARY_VERSION {
        Err(DecodeFailure::UnsupportedVersion(data[4]))
    } else if data.len() < HEADER_LEN + declared_len(data) {
        Err(DecodeFailure::Truncated)
    } else {
        Ok(data.subrange(HEADER_LEN as int, HEADER_LEN + declared_len(data)))
    }
}

/// What decoding gives: bytes carrying the binary marker are read as a
/// binary V1 frame; any other bytes are the JSON payload itself.
pub open spec fn decode_spec(data: Seq<u8>) -> Result<Seq<u8>, DecodeFailure> {
    if has_binary_marker(data) {
        decode_binary_v1_spec(data)
    } else {
        Ok(data)
    }
}

/// Whether a wire error reports this failure, with the message text for
/// malformed frames.
pub open spec fn reports(e: WireError, f: DecodeFailure) -> bool {
    match f {
        DecodeFailure::TooShort => e matches WireError::BinaryDecode(m) && m@ == "frame too short"@,
        DecodeFailure::BadMagic => e matches WireError::BinaryDecode(m) && m@ == "bad magic bytes"@,
        DecodeFailure::UnsupportedVersion(v) => e == WireError::UnsupportedVersion(v),
        DecodeFailure::Truncated => e matches WireError::BinaryDecode(m) && m@
            == "frame truncated — not enough data"@,
    }
}

/// Whether an outcome of decoding matches the specified one.
pub open spec fn outcome_matches<B: View<V = Seq<u8>>>(
    r: Result<B, WireError>,
    s: Result<Seq<u8>, DecodeFailure>,
) -> bool {
    match s {
        Ok(body) => r matches Ok(b) && b@ == body,
        Err(f) => r matches Err(e) && reports(e, f),
    }
}

/// Frames a JSON payload in the given wire format: JSON is sent as is;
/// binary V1 puts the magic bytes, the version byte and the payload length
/// (as a big-endian `u32`) before it. A payload longer than a `u32` can
/// count is refused for binary V1.
pub fn encode(json: Vec<u8>, format: WireFormat) -> (r: Result<Vec<u8>, WireError>)
    requires
        format == WireFormat::BinaryV1 ==> json@.len() + HEADER_LEN <= usize::MAX,
    ensures
        r is Ok <==> fits_format(json@, format),
        r matches Ok(out) ==> out@ == encode_spec(json@, format),
        r matches Err(e) ==> e == WireError::PayloadTooLarge(json@.len() as usize),
{
    match format {
        WireFormat::Json => Ok(json),
        WireFormat::BinaryV1 => {
            if json.len() > MAX_FRAME_PAYLOAD {
                return Err(WireError::PayloadTooLarge(json.len()));
            }
            let mut json = json;
            let ghost j = json@;
            let len: usize = json.len();
            let mut out: Vec<u8> = Vec::new();
            out.push(0xF1);
            out.push(0xB0);
            out.push(0x71);
            out.push(0x1E);
            out.push(BINARY_VERSION);
            out.push((len / 0x100_0000) as u8);
            out.push((len / 0x1_0000 % 0x100) as u8);
            out.push((len / 0x100 % 0x100) as u8);
            out.push((len % 0x100) as u8);
            let ghost header = out@;
            out.append(&mut json);
            assert(header =~= magic() + seq![BINARY_VERSION] + be_u32_bytes(j.len()));
            Ok(out)
        },
    }
}

/// The first four bytes are the magic bytes exactly when each of them is.
proof fn lemma_magic_prefix(data: Seq<u8>)
    requires
        data.len() >= 4,
    ensures
        (data.take(4) == magic()) <==> (data[0] == 0xF1 && data[1] == 0xB0 && data[2] == 0x71
            && data[3] == 0x1E),
{
    if data.take(4) == magic() {
        assert(data[0] == data.take(4)[0]);
        assert(data[1] == data.take(4)[1]);
        assert(data[2] == data.take(4)[2]);
        assert(data[3] == data.take(4)[3]);
    }
    if data[0] == 0xF1 && data[1] == 0xB0 && data[2] == 0x71 && data[3] == 0x1E {
        assert(data.take(4) =~= magic());
    }
}

/// Whether the first five bytes are the magic bytes and the binary version.
fn starts_with_marker(data: &[u8]) -> (r: bool)
    ensures
        r == has_binary_marker(data@),
{
    if data.len() >= 5 {
        proof {
            lemma_magic_prefix(data@);
        }
        data[0] == 0xF1 && data[1] == 0xB0 && data[2] == 0x71 && data[3] == 0x1E && data[4]
            == BINARY_VERSION
    } else {
        false
    }
}

/// Decode a binary V1 frame: check its header and return its JSON payload.
fn decode_binary_v1(data: &[u8]) -> (r: Result<&[u8], WireError>)
    ensures
        outcome_matches(r, decode_binary_v1_spec(data@)),
{
    if data.len() < HEADER_LEN {
        return Err(WireError::BinaryDecode("frame too short".to_owned()));
    }
    proof {
        lemma_magic_prefix(data@);
    }
    if !(data[0] == 0xF1 && data[1] == 0xB0 && data[2] == 0x71 && data[3] == 0x1E) {
        return Err(WireError::BinaryDecode("bad magic bytes".to_owned()));
    }
    let version = data[4];
    if version != BINARY_VERSION {
        return Err(WireError::UnsupportedVersion(version));
    }
    let len: u64 = (data[5] as u64) * 0x100_0000 + (data[6] as u64) * 0x1_0000 + (data[7] as u64)
        * 0x100 + (data[8] as u64);
    let available: u64 = (data.len() - HEADER_LEN) as u64;
    if available < len {
        return Err(WireError::BinaryDecode("frame truncated — not enough data".to_owned()));
    }
    let end: usize = HEADER_LEN + (len as usize);
    Ok(&data[HEADER_LEN..end])
}

/// Reads the JSON payload out of raw bytes, detecting the format: bytes
/// that start with the magic bytes and the binary version byte are a binary
/// V1 frame; anything else is taken as JSON.
pub fn decode(data: &[u8]) -> (r: Result<&[u8], WireError>)
    ensures
        outcome_matches(r, decode_spec(data@)),
{
    if starts_with_marker(data) {
        decode_binary_v1(data)
    } else {
        Ok(data)
    }
}

/// The big-endian bytes of a number below 2^32 spell that number.
proof fn lemma_be_u32_roundtrip(n: nat)
    requires
        n < 0x1_0000_0000,
    ensures
        ({
            let b = be_u32_bytes(n);
            be_u32_value(b[0], b[1], b[2], b[3]) == n
        }),
{
    let b = be_u32_bytes(n);
    assert(b[0] == n / 0x100_0000);
    assert(b[1] == n / 0x1_0000 % 0x100);
    assert(b[2] == n / 0x100 % 0x100);
    assert(b[3] == n % 0x100);
    assert((n / 0x100_0000) * 0x100_0000 + (n / 0x1_0000 % 0x100) * 0x1_0000 + (n / 0x100 % 0x100)
        * 0x100 + n % 0x100 == n) by (nonlinear_arith)
        requires
            n < 0x1_0000_0000,
    ;
}

/// A binary V1 frame is 9 bytes longer than its payload, carries the binary
/// marker, and decodes back to that payload.
pub proof fn lemma_binary_roundtrip(json: Seq<u8>)
    requires
        fits_format(json, WireFormat::BinaryV1),
    ensures
        encode_spec(json, WireFormat::BinaryV1).len() == json.len() + HEADER_LEN,
        has_binary_marker(encode_spec(json, WireFormat::BinaryV1)),
        decode_spec(encode_spec(json, WireFormat::BinaryV1)) == Ok::<Seq<u8>, DecodeFailure>(json),
{
    let f = encode_spec(json, WireFormat::BinaryV1);
    assert(f.take(4) =~= magic());
    lemma_be_u32_roundtrip(json.len());
    assert(f[5] == be_u32_bytes(json.len())[0]);
    assert(f[6] == be_u32_bytes(json.len())[1]);
    assert(f[7] == be_u32_bytes(json.len())[2]);
    assert(f[8] == be_u32_bytes(json.len())[3]);
    assert(f.subrange(HEADER_LEN as int, HEADER_LEN + json.len()) =~= json);
}

/// A JSON payload sent as is decodes back to itself, unless it happens to
/// begin with the binary marker.
pub proof fn lemma_json_roundtrip(json: Seq<u8>)
    requires
        !has_binary_marker(json),
    ensures
        decode_spec(encode_spec(json, WireFormat::Json)) == Ok::<Seq<u8>, DecodeFailure>(json),
{
}

/// JSON text that opens with `{` never carries the binary marker.
pub proof fn lemma_json_object_not_binary(json: Seq<u8>)
    requires
        json.len() > 0,
        json[0] == 0x7B,
    ensures
        !has_binary_marker(json),
{
    if json.len() >= 5 && json.take(4) == magic() {
        assert(json.take(4)[0] == json[0]);
    }
}

/// Every proper prefix of a binary V1 frame that still carries the binary
/// marker is refused: as too short while it lacks a full header, as
/// truncated afterwards.
pub proof fn lemma_truncated_frame_refused(json: Seq<u8>, n: int)
    requires
        fits_format(json, WireFormat::BinaryV1),
        5 <= n < json.len() + HEADER_LEN,
    ensures
        ({
            let cut = encode_spec(json, WireFormat::BinaryV1).take(n);
            &&& has_binary_marker(cut)
            &&& n < HEADER_LEN ==> decode_spec(cut) == Err::<Seq<u8>, DecodeFailure>(
                DecodeFailure::TooShort,
            )
            &&& n >= HEADER_LEN ==> decode_spec(cut) == Err::<Seq<u8>, DecodeFailure>(
                DecodeFailure::Truncated,
            )
        }),
{
    let f = encode_spec(json, WireFormat::BinaryV1);
    let cut = f.take(n);
    lemma_binary_roundtrip(json);
    assert(cut.take(4) =~= f.take(4));
    assert(cut[4] == f[4]);
    if n >= HEADER_LEN {
        assert(cut[5] == f[5] && cut[6] == f[6] && cut[7] == f[7] && cut[8] == f[8]);
        assert(declared_len(cut) == json.len());
    }
}

} // verus!
