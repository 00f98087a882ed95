//! Length-prefixed frames: a varint length followed by exactly that many
//! payload bytes. The reader takes the prefix one byte at a time, so that the
//! code that owns the transport only has to read and hand bytes over.

use vstd::prelude::*;
use vstd::slice::{slice_subrange, slice_to_vec};
use crate::varint::{
    continuation_run, decode_length, decoded_length, encode_length, lemma_continuation_run,
    lemma_decode_encoded, lemma_varint_bytes_shape, lemma_varint_bytes_len_u64, varint_bytes,
    word_modulus,
};

verus! {

/// Why a frame could not be read.
#[derive(Clone, Copy, Debug, PartialEq, Eq, Structural)]
pub enum FrameError {
    /// The length prefix is longer than ten bytes or is not a valid varint.
    InvalidVarint,
    /// The bytes ran out inside the prefix or inside the payload.
    TransportClosed,
}

/// What the prefix reader says after each byte.
#[derive(Clone, Copy, Debug, PartialEq, Eq, Structural)]
pub enum PrefixStep {
    /// The byte had its top bit set: the prefix goes on.
    NeedMore,
    /// The prefix is complete and the payload has this many bytes.
    Complete(u64),
    /// The prefix is rejected.
    Invalid,
}

/// A frame taken from the front of a buffer.
#[derive(Debug)]
pub struct Frame {
    /// The payload bytes.
    pub payload: Vec<u8>,
    /// How many bytes of the buffer the frame took, prefix included.
    pub consumed: usize,
}

/// The bytes on the wire for `payload`.
pub open spec fn frame_bytes(payload: Seq<u8>) -> Seq<u8> {
    varint_bytes(payload.len()) + payload
}

/// The reader's answer once `bytes` have been fed to it. A byte with the top
/// bit clear ends the prefix, which is then decoded; otherwise the prefix
/// goes on unless more than ten bytes have been taken.
pub open spec fn prefix_step(bytes: Seq<u8>) -> PrefixStep
    recommends
        bytes.len() > 0,
{
    if bytes.last() < 128 {
        match decoded_length(bytes) {
            Some(n) => PrefixStep::Complete(n),
            None => PrefixStep::Invalid,
        }
    } else if bytes.len() > 10 {
        PrefixStep::Invalid
    } else {
        PrefixStep::NeedMore
    }
}

/// The frame at the front of `input`: its payload and the number of bytes it
/// takes, or the reason why there is none.
pub open spec fn parse_frame(input: Seq<u8>) -> Result<(Seq<u8>, nat), FrameError> {
    let run = continuation_run(input);
    if run >= 10 {
        if input.len() >= 11 {
            Err(FrameError::InvalidVarint)
        } else {
            Err(FrameError::TransportClosed)
        }
    } else if run >= input.len() {
        Err(FrameError::TransportClosed)
    } else {
        match decoded_length(input) {
            None => Err(FrameError::InvalidVarint),
            Some(n) => {
                let start = run + 1;
                if input.len() - start < n {
                    Err(FrameError::TransportClosed)
                } else {
                    Ok((input.subrange(start as int, start + n), (start + n) as nat))
                }
            },
        }
    }
}

/// Reads a length prefix byte by byte.
pub struct LengthPrefixReader {
    buf: Vec<u8>,
}

impl View for LengthPrefixReader {
    type V = Seq<u8>;

    closed spec fn view(&self) -> Seq<u8> {
        self.buf@
    }
}

impl LengthPrefixReader {
    /// A reader that has taken no byte yet.
    pub fn new() -> (reader: Self)
        ensures
            reader@ == Seq::<u8>::empty(),
    {
        LengthPrefixReader { buf: Vec::new() }
    }

    /// Takes the next byte of the prefix. While the answer is `NeedMore` the
    /// byte is kept; after any other answer the reader is empty again and
    /// ready for the next frame.
    pub fn push(&mut self, byte: u8) -> (step: PrefixStep)
        ensures
            step == prefix_step(old(self)@.push(byte)),
            step == PrefixStep::NeedMore ==> final(self)@ == old(self)@.push(byte),
            step != PrefixStep::NeedMore ==> final(self)@ == Seq::<u8>::empty(),
    {
        self.buf.push(byte);
        if byte < 128 {
            let decoded = decode_length(self.buf.as_slice());
            self.buf.clear();
            match decoded {
                Some(n) => PrefixStep::Complete(n),
                None => PrefixStep::Invalid,
            }
        } else if self.buf.len() > 10 {
            self.buf.clear();
            PrefixStep::Invalid
        } else {
            PrefixStep::NeedMore
        }
    }
}

/// The frame for `data`: the varint of its length, then the bytes. Read
/// back, the frame gives `data` again and nothing is left over.
pub fn encode_frame(data: &[u8]) -> (out: Vec<u8>)
    ensures
        out@ == frame_bytes(data@),
        parse_frame(out@) == Ok::<(Seq<u8>, nat), FrameError>((data@, out@.len())),
{
    let mut out = encode_length(data.len());
    let ghost prefix = out@;
    let mut i: usize = 0;
    while i < data.len()
        invariant
            i <= data.len(),
            out@ == prefix + data@.take(i as int),
        decreases data.len() - i,
    {
        out.push(data[i]);
        i += 1;
        assert(out@ =~= prefix + data@.take(i as int));
    }
    assert(data@.take(data.len() as int) =~= data@);
    proof {
        lemma_frame_round_trip(data@);
    }
    out
}

/// As long as the first `i` bytes all have the top bit set, the run is at
/// least `i` long.
proof fn lemma_run_at_least(bytes: Seq<u8>, i: nat)
    requires
        i <= bytes.len(),
        forall|j: int| 0 <= j < i ==> bytes[j] >= 128,
    ensures
        continuation_run(bytes) >= i,
    decreases i,
{
    if i > 0 {
        let rest = bytes.drop_first();
        assert forall|j: int| 0 <= j < i - 1 implies rest[j] >= 128 by {
            assert(rest[j] == bytes[j + 1]);
        }
        lemma_run_at_least(rest, (i - 1) as nat);
    }
}

/// Decoding looks at the prefix only: cutting the input right after the
/// terminator changes nothing.
proof fn lemma_decoded_prefix(input: Seq<u8>, i: nat)
    requires
        i < input.len(),
        forall|j: int| 0 <= j < i ==> input[j] >= 128,
        input[i as int] < 128,
    ensures
        continuation_run(input) == i,
        decoded_length(input.take(i + 1 as int)) == decoded_length(input),
{
    let head = input.take(i + 1 as int);
    lemma_continuation_run(input, i);
    lemma_continuation_run(head, i);
    assert(head.take(i + 1 as int) =~= input.take(i + 1 as int));
}

/// Takes one frame from the front of `input`.
pub fn decode_frame(input: &[u8]) -> (res: Result<Frame, FrameError>)
    ensures
        match res {
            Ok(frame) => parse_frame(input@) == Ok::<(Seq<u8>, nat), FrameError>(
                (frame.payload@, frame.consumed as nat),
            ),
            Err(e) => parse_frame(input@) == Err::<(Seq<u8>, nat), FrameError>(e),
        },
{
    let mut reader = LengthPrefixReader::new();
    let mut i: usize = 0;
    loop
        invariant
            i <= input.len(),
            i <= 10,
            reader@ == input@.take(i as int),
            forall|j: int| 0 <= j < i ==> input@[j] >= 128,
        decreases 11 - i,
    {
        if i >= input.len() {
            proof {
                lemma_continuation_run(input@, i as nat);
            }
            return Err(FrameError::TransportClosed);
        }
        let byte = input[i];
        let step = reader.push(byte);
        assert(input@.take(i as int).push(byte) =~= input@.take(i + 1));
        match step {
            PrefixStep::NeedMore => {
                i += 1;
            },
            PrefixStep::Invalid => {
                proof {
                    if byte < 128 {
                        lemma_decoded_prefix(input@, i as nat);
                    } else {
                        lemma_run_at_least(input@, (i + 1) as nat);
                    }
                }
                return Err(FrameError::InvalidVarint);
            },
            PrefixStep::Complete(n) => {
                proof {
                    lemma_decoded_prefix(input@, i as nat);
                }
                let start: usize = i + 1;
                let remaining: usize = input.len() - start;
                if (remaining as u64) < n {
                    return Err(FrameError::TransportClosed);
                }
                let end: usize = start + (n as usize);
                let payload = slice_to_vec(slice_subrange(input, start, end));
                return Ok(Frame { payload, consumed: end });
            },
        }
    }
}

/// Reading back what `encode_frame` wrote gives the payload again, and takes
/// the whole frame: no byte more, no byte less.
pub proof fn lemma_frame_round_trip(payload: Seq<u8>)
    requires
        payload.len() < word_modulus(),
    ensures
        parse_frame(frame_bytes(payload)) == Ok::<(Seq<u8>, nat), FrameError>(
            (payload, frame_bytes(payload).len()),
        ),
{
    let n = payload.len();
    let prefix = varint_bytes(n);
    let wire = frame_bytes(payload);
    lemma_varint_bytes_shape(n);
    lemma_varint_bytes_len_u64(n);
    lemma_decode_encoded(n, payload);
    let run: int = prefix.len() - 1;
        assert(wire.take(run + 1) =~= prefix);
    assert(prefix.take(run + 1) =~= prefix);
    assert(wire[run] == prefix[run]);
    assert(decoded_length(wire) == Some(n as u64));
    assert(wire.subrange(run + 1, run + 1 + n) =~= payload);
}

/// A frame that is followed by more bytes is still read back as itself:
/// frames can be laid end to end.
pub proof fn lemma_frame_round_trip_followed(payload: Seq<u8>, rest: Seq<u8>)
    requires
        payload.len() < word_modulus(),
    ensures
        parse_frame(frame_bytes(payload) + rest) == Ok::<(Seq<u8>, nat), FrameError>(
            (payload, frame_bytes(payload).len()),
        ),
{
    let n = payload.len();
    let prefix = varint_bytes(n);
    let wire = frame_bytes(payload) + rest;
    lemma_varint_bytes_shape(n);
    lemma_varint_bytes_len_u64(n);
    assert(wire =~= prefix + (payload + rest));
    lemma_decode_encoded(n, payload + rest);
    let run: int = prefix.len() - 1;
    assert(wire.take(run + 1) =~= prefix);
    assert(prefix.take(run + 1) =~= prefix);
    assert(wire[run] == prefix[run]);
    assert(decoded_length(wire) == Some(n as u64));
    assert(wire.subrange(run + 1, run + 1 + n) =~= payload);
}

/// A prefix that has not ended within its first ten bytes is rejected as
/// soon as an eleventh byte is there, whatever that byte and the rest are.
pub proof fn lemma_long_prefix_rejected(input: Seq<u8>)
    requires
        input.len() >= 11,
        forall|j: int| 0 <= j < 10 ==> input[j] >= 128,
    ensures
        parse_frame(input) == Err::<(Seq<u8>, nat), FrameError>(FrameError::InvalidVarint),
{
    lemma_run_at_least(input, 10);
}

/// The reader itself gives up on such a prefix: fed ten bytes with the top
/// bit set, it answers `Invalid` to the eleventh, whatever it is.
pub proof fn lemma_reader_rejects_eleventh(taken: Seq<u8>, byte: u8)
    requires
        taken.len() == 10,
        forall|j: int| 0 <= j < 10 ==> taken[j] >= 128,
    ensures
        prefix_step(taken.push(byte)) == PrefixStep::Invalid,
{
    let bytes = taken.push(byte);
    assert forall|j: int| 0 <= j < 10 implies bytes[j] >= 128 by {
        assert(bytes[j] == taken[j]);
    }
    lemma_run_at_least(bytes, 10);
}

} // verus!
