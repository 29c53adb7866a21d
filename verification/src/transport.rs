use vstd::prelude::*;

use crate::protocol::{
    decode, decode_spec, encode, encode_spec, fits_format, has_binary_marker, lemma_binary_roundtrip,
    outcome_matches, DecodeFailure, WireError, WireFormat, HEADER_LEN,
};

verus! {

/// The byte contents of a list of frames.
pub open spec fn frame_bytes(frames: Seq<Vec<u8>>) -> Seq<Seq<u8>> {
    frames.map_values(|f: Vec<u8>| f@)
}

/// A queue of encoded frames held in memory (for testing and stdio-style
/// use): frames go in at the back and are all taken out, front first.
pub struct MemoryTransport {
    wire_format: WireFormat,
    buffer: Vec<Vec<u8>>,
}

impl MemoryTransport {
    /// The wire format that frames are encoded with.
    pub closed spec fn format(self) -> WireFormat {
        self.wire_format
    }

    /// The frames waiting to be received, oldest first.
    pub closed spec fn frames(self) -> Seq<Seq<u8>> {
        frame_bytes(self.buffer@)
    }

    /// An empty queue that encodes with `wire_format`.
    pub fn new(wire_format: WireFormat) -> (t: MemoryTransport)
        ensures
            t.format() == wire_format,
            t.frames() == Seq::<Seq<u8>>::empty(),
    {
        let t = MemoryTransport { wire_format, buffer: Vec::new() };
        assert(t.frames() =~= Seq::<Seq<u8>>::empty());
        t
    }

    /// The wire format that frames are encoded with.
    pub fn wire_format(&self) -> (f: WireFormat)
        ensures
            f == self.format(),
    {
        self.wire_format
    }

    /// Puts raw bytes at the back of the queue, as they are.
    pub fn inject_raw(&mut self, data: Vec<u8>)
        ensures
            final(self).format() == old(self).format(),
            final(self).frames() == old(self).frames().push(data@),
    {
        let ghost before = self.buffer@;
        self.buffer.push(data);
        assert(frame_bytes(self.buffer@) =~= frame_bytes(before).push(data@));
    }

    /// Encodes a JSON payload with this queue's wire format and puts the
    /// frame at the back of the queue; a payload too long for a binary frame
    /// is refused and the queue left as it was.
    pub fn inject(&mut self, json: Vec<u8>) -> (r: Result<(), WireError>)
        requires
            old(self).format() == WireFormat::BinaryV1 ==> json@.len() + HEADER_LEN <= usize::MAX,
        ensures
            final(self).format() == old(self).format(),
            r is Ok <==> fits_format(json@, old(self).format()),
            r is Ok ==> final(self).frames() == old(self).frames().push(
                encode_spec(json@, old(self).format()),
            ),
            r matches Err(e) ==> e == WireError::PayloadTooLarge(json@.len() as usize)
                && final(self).frames() == old(self).frames(),
    {
        let frame = encode(json, self.wire_format)?;
        self.inject_raw(frame);
        Ok(())
    }

    /// Takes every waiting frame out of the queue, oldest first, and reads
    /// the JSON payload of each.
    pub fn receive(&mut self) -> (r: Vec<Result<Vec<u8>, WireError>>)
        ensures
            final(self).format() == old(self).format(),
            final(self).frames() == Seq::<Seq<u8>>::empty(),
            r@.len() == old(self).frames().len(),
            forall|i: int|
                0 <= i < r@.len() ==> outcome_matches(
                    #[trigger] r@[i],
                    decode_spec(old(self).frames()[i]),
                ),
    {
        let mut frames: Vec<Vec<u8>> = Vec::new();
        std::mem::swap(&mut frames, &mut self.buffer);
        assert(frame_bytes(self.buffer@) =~= Seq::<Seq<u8>>::empty());
        let mut out: Vec<Result<Vec<u8>, WireError>> = Vec::new();
        let mut i: usize = 0;
        while i < frames.len()
            invariant
                i <= frames@.len(),
                out@.len() == i,
                forall|k: int|
                    0 <= k < i ==> outcome_matches(
                        #[trigger] out@[k],
                        decode_spec(frames@[k]@),
                    ),
            decreases frames@.len() - i,
        {
            let outcome = match decode(frames[i].as_slice()) {
                Ok(body) => Ok(copy_bytes(body)),
                Err(e) => Err(e),
            };
            out.push(outcome);
            i = i + 1;
        }
        out
    }
}

/// A copy of the bytes.
fn copy_bytes(s: &[u8]) -> (v: Vec<u8>)
    ensures
        v@ == s@,
{
    let mut v: Vec<u8> = Vec::new();
    let mut i: usize = 0;
    while i < s.len()
        invariant
            i <= s@.len(),
            v@ == s@.take(i as int),
        decreases s@.len() - i,
    {
        v.push(s[i]);
        i = i + 1;
        assert(v@ =~= s@.take(i as int));
    }
    assert(s@.take(s@.len() as int) =~= s@);
    v
}

/// Whether a payload goes through a queue of this wire format unchanged:
/// short enough for a binary frame's length field, and, sent as plain JSON, not starting with the
/// binary marker.
pub open spec fn carries_intact(json: Seq<u8>, format: WireFormat) -> bool {
    match format {
        WireFormat::Json => !has_binary_marker(json),
        WireFormat::BinaryV1 => fits_format(json, format),
    }
}

/// Payloads injected into a queue come out of it in the order they went in,
/// each read back as it was sent.
pub proof fn lemma_queue_delivers_in_order(jsons: Seq<Seq<u8>>, format: WireFormat)
    requires
        forall|i: int| 0 <= i < jsons.len() ==> carries_intact(#[trigger] jsons[i], format),
    ensures
        jsons.map_values(|j: Seq<u8>| decode_spec(encode_spec(j, format))) == jsons.map_values(
            |j: Seq<u8>| Ok::<Seq<u8>, DecodeFailure>(j),
        ),
{
    assert forall|i: int| 0 <= i < jsons.len() implies decode_spec(
        encode_spec(#[trigger] jsons[i], format),
    ) == Ok::<Seq<u8>, DecodeFailure>(jsons[i]) by {
        if format == WireFormat::BinaryV1 {
            lemma_binary_roundtrip(jsons[i]);
        }
    }
    assert(jsons.map_values(|j: Seq<u8>| decode_spec(encode_spec(j, format))) =~= jsons.map_values(
        |j: Seq<u8>| Ok::<Seq<u8>, DecodeFailure>(j),
    ));
}

} // verus!
