//! Frames: a payload behind its length, four bytes with the most significant first.
use vstd::prelude::*;
use crate::error::{ensure, reports, unless, CultNetError};
use crate::text::{append_bytes, copy_bytes};

verus! {

pub const FRAME_HEADER_BYTES: usize = 4;

/// The header for a payload of the given length.
pub open spec fn frame_header(length: nat) -> Seq<u8> {
    seq![
        (length / 0x100_0000 % 0x100) as u8,
        (length / 0x1_0000 % 0x100) as u8,
        (length / 0x100 % 0x100) as u8,
        (length % 0x100) as u8,
    ]
}

/// The length that the header at the start of the bytes gives.
pub open spec fn framed_length(bytes: Seq<u8>) -> nat {
    (bytes[0] * 0x100_0000 + bytes[1] * 0x1_0000 + bytes[2] * 0x100 + bytes[3]) as nat
}

/// The payload in a frame.
pub open spec fn framed(payload: Seq<u8>) -> Seq<u8> {
    frame_header(payload.len()) + payload
}

/// A whole frame is at the start of the bytes.
pub open spec fn frame_is_complete(bytes: Seq<u8>) -> bool {
    bytes.len() >= FRAME_HEADER_BYTES && bytes.len() >= FRAME_HEADER_BYTES + framed_length(bytes)
}

/// The payload of the frame at the start of the bytes, if the frame is there whole.
pub open spec fn first_payload(bytes: Seq<u8>) -> Option<Seq<u8>> {
    if frame_is_complete(bytes) {
        Some(bytes.subrange(FRAME_HEADER_BYTES as int, FRAME_HEADER_BYTES + framed_length(bytes)))
    } else {
        None
    }
}

/// The payloads of the whole frames at the start of the bytes.
pub open spec fn complete_payloads(bytes: Seq<u8>) -> Seq<Seq<u8>>
    decreases bytes.len(),
{
    if frame_is_complete(bytes) {
        let end = FRAME_HEADER_BYTES + framed_length(bytes);
        seq![bytes.subrange(FRAME_HEADER_BYTES as int, end as int)] + complete_payloads(bytes.skip(end as int))
    } else {
        Seq::empty()
    }
}

/// What is left of the bytes behind those frames.
pub open spec fn incomplete_rest(bytes: Seq<u8>) -> Seq<u8>
    decreases bytes.len(),
{
    if frame_is_complete(bytes) {
        incomplete_rest(bytes.skip((FRAME_HEADER_BYTES + framed_length(bytes)) as int))
    } else {
        bytes
    }
}

/// The contents of a sequence of byte vectors.
pub open spec fn byte_views(payloads: Seq<Vec<u8>>) -> Seq<Seq<u8>> {
    payloads.map_values(|payload: Vec<u8>| payload@)
}

pub fn encode_frame(payload: &[u8]) -> (outcome: Result<Vec<u8>, CultNetError>)
    ensures
        reports(
            outcome,
            unless(payload@.len() <= u32::MAX, "CultNet frame payload is too large"@),
        ),
        outcome matches Ok(frame) ==> frame@ == framed(payload@),
{
    let length: u64 = payload.len() as u64;
    ensure(length <= 0xffff_ffff, "CultNet frame payload is too large")?;
    let mut frame: Vec<u8> = Vec::new();
    frame.push((length / 0x100_0000 % 0x100) as u8);
    frame.push((length / 0x1_0000 % 0x100) as u8);
    frame.push((length / 0x100 % 0x100) as u8);
    frame.push((length % 0x100) as u8);
    assert(frame@ =~= frame_header(payload@.len()));
    append_bytes(&mut frame, payload);
    Ok(frame)
}

/// The payload of the frame at the start of the bytes, if the frame is there whole.
pub fn read_frame(bytes: &[u8]) -> (payload: Option<Vec<u8>>)
    ensures
        match payload {
            Some(found) => first_payload(bytes@) == Some(found@),
            None => first_payload(bytes@) is None,
        },
{
    if bytes.len() < FRAME_HEADER_BYTES {
        return None;
    }
    let header: [u8; 4] = [bytes[0], bytes[1], bytes[2], bytes[3]];
    let length: u64 = decode_frame_header(header) as u64;
    assert(framed_length(header@) == framed_length(bytes@));
    if ((bytes.len() - FRAME_HEADER_BYTES) as u64) < length {
        return None;
    }
    let end: usize = FRAME_HEADER_BYTES + length as usize;
    Some(copy_bytes(vstd::slice::slice_subrange(bytes, FRAME_HEADER_BYTES, end)))
}

/// The payload length that a header gives.
pub fn decode_frame_header(header: [u8; 4]) -> (length: u32)
    ensures
        length == framed_length(header@),
{
    header[0] as u32 * 0x100_0000 + header[1] as u32 * 0x1_0000 + header[2] as u32 * 0x100 + header[3] as u32
}

/// Cuts a stream of bytes, pushed in chunks of any size, into frames.
#[derive(Clone, Debug)]
pub struct LengthPrefixedMessageFramer {
    buffer: Vec<u8>,
}

impl LengthPrefixedMessageFramer {
    /// The bytes that are waiting for the rest of their frame.
    pub closed spec fn pending(self) -> Seq<u8> {
        self.buffer@
    }

    pub fn new() -> (framer: Self)
        ensures
            framer.pending() == Seq::<u8>::empty(),
    {
        LengthPrefixedMessageFramer { buffer: Vec::new() }
    }

    /// Takes the chunk in, and gives the payloads of the frames that are now complete.
    pub fn push(&mut self, chunk: &[u8]) -> (frames: Vec<Vec<u8>>)
        ensures
            byte_views(frames@) == complete_payloads(old(self).pending() + chunk@),
            final(self).pending() == incomplete_rest(old(self).pending() + chunk@),
    {
        append_bytes(&mut self.buffer, chunk);
        let ghost all = old(self).pending() + chunk@;
        let mut frames: Vec<Vec<u8>> = Vec::new();
        let mut start: usize = 0;
        assert(all.skip(0) =~= all);
        assert(byte_views(frames@) + complete_payloads(all) =~= complete_payloads(all));
        while self.buffer.len() - start >= FRAME_HEADER_BYTES && (self.buffer.len() - start
            - FRAME_HEADER_BYTES) as u64 >= decode_frame_header(
            [
                self.buffer[start],
                self.buffer[start + 1],
                self.buffer[start + 2],
                self.buffer[start + 3],
            ],
        ) as u64
            invariant
                self.buffer@ == all,
                start <= all.len(),
                byte_views(frames@) + complete_payloads(all.skip(start as int)) == complete_payloads(all),
                incomplete_rest(all.skip(start as int)) == incomplete_rest(all),
            decreases all.len() - start,
        {
            let ghost rest = all.skip(start as int);
            let header = [
                self.buffer[start],
                self.buffer[start + 1],
                self.buffer[start + 2],
                self.buffer[start + 3],
            ];
            assert(framed_length(header@) == framed_length(rest));
            let length: usize = decode_frame_header(header) as usize;
            let end: usize = start + FRAME_HEADER_BYTES + length;
            let payload = copy_bytes(
                vstd::slice::slice_subrange(self.buffer.as_slice(), start + FRAME_HEADER_BYTES, end),
            );
            assert(payload@ =~= rest.subrange(FRAME_HEADER_BYTES as int, FRAME_HEADER_BYTES + length));
            assert(rest.skip(FRAME_HEADER_BYTES + length) =~= all.skip(end as int));
            let ghost sofar = byte_views(frames@);
            frames.push(payload);
            assert(byte_views(frames@) =~= sofar.push(payload@));
            assert(sofar.push(payload@) + complete_payloads(all.skip(end as int)) =~= sofar
                + complete_payloads(rest));
            start = end;
        }
        proof {
            let rest = all.skip(start as int);
            if rest.len() >= FRAME_HEADER_BYTES {
                assert(framed_length(
                    seq![rest[0], rest[1], rest[2], rest[3]],
                ) == framed_length(rest));
            }
            assert(!frame_is_complete(rest));
            assert(byte_views(frames@) + Seq::<Seq<u8>>::empty() =~= byte_views(frames@));
        }
        let rest = copy_bytes(
            vstd::slice::slice_subrange(self.buffer.as_slice(), start, self.buffer.len()),
        );
        assert(rest@ =~= all.skip(start as int));
        self.buffer = rest;
        frames
    }
}

impl Default for LengthPrefixedMessageFramer {
    fn default() -> (framer: Self)
        ensures
            framer.pending() == Seq::<u8>::empty(),
    {
        Self::new()
    }
}

/// The header of a frame gives back the length of its payload.
pub proof fn a_header_gives_back_the_length(payload: Seq<u8>, rest: Seq<u8>)
    requires
        payload.len() <= u32::MAX,
    ensures
        framed_length(frame_header(payload.len())) == payload.len(),
        framed_length(framed(payload) + rest) == payload.len(),
{
    let length = payload.len();
    assert(length == length / 0x100_0000 % 0x100 * 0x100_0000 + length / 0x1_0000 % 0x100 * 0x1_0000 + length
        / 0x100 % 0x100 * 0x100 + length % 0x100);
}

/// The frame at the start of the bytes holds the payload that it was made of, whatever
/// follows; bytes that end before the frame does hold none.
pub proof fn the_first_frame_gives_back_its_payload(payload: Seq<u8>, rest: Seq<u8>, end: int)
    requires
        payload.len() <= u32::MAX,
        0 <= end < FRAME_HEADER_BYTES + payload.len(),
    ensures
        first_payload(framed(payload) + rest) == Some(payload),
        first_payload(framed(payload).take(end)) is None,
{
    a_header_gives_back_the_length(payload, rest);
    let bytes = framed(payload) + rest;
    assert(bytes.subrange(FRAME_HEADER_BYTES as int, FRAME_HEADER_BYTES + payload.len()) =~= payload);
    let short = framed(payload).take(end);
    if end >= FRAME_HEADER_BYTES {
        assert(framed_length(short) == framed_length(bytes));
    }
}

/// A frame followed by anything gives its payload, and then what follows gives the
/// rest.
pub proof fn a_frame_gives_back_its_payload(payload: Seq<u8>, rest: Seq<u8>)
    requires
        payload.len() <= u32::MAX,
    ensures
        complete_payloads(framed(payload) + rest) == seq![payload] + complete_payloads(rest),
        incomplete_rest(framed(payload) + rest) == incomplete_rest(rest),
{
    a_header_gives_back_the_length(payload, rest);
    let bytes = framed(payload) + rest;
    let end = FRAME_HEADER_BYTES + payload.len();
    assert(bytes.subrange(FRAME_HEADER_BYTES as int, end as int) =~= payload);
    assert(bytes.skip(end as int) =~= rest);
}

/// How a stream is cut into chunks does not matter: pushing one chunk and then another
/// gives the frames, and leaves the rest, that pushing both at once does.
pub proof fn chunks_do_not_matter(first: Seq<u8>, second: Seq<u8>)
    ensures
        complete_payloads(first + second) == complete_payloads(first) + complete_payloads(
            incomplete_rest(first) + second,
        ),
        incomplete_rest(first + second) == incomplete_rest(incomplete_rest(first) + second),
    decreases first.len(),
{
    let whole = first + second;
    if frame_is_complete(first) {
        let end = (FRAME_HEADER_BYTES + framed_length(first)) as int;
        assert(framed_length(whole) == framed_length(first));
        assert(whole.subrange(FRAME_HEADER_BYTES as int, end) =~= first.subrange(
            FRAME_HEADER_BYTES as int,
            end,
        ));
        assert(whole.skip(end) =~= first.skip(end) + second);
        chunks_do_not_matter(first.skip(end), second);
        let head = seq![first.subrange(FRAME_HEADER_BYTES as int, end)];
        assert(complete_payloads(whole) =~= head + complete_payloads(first.skip(end) + second));
        assert(complete_payloads(first) + complete_payloads(incomplete_rest(first) + second) =~= head + (
        complete_payloads(first.skip(end)) + complete_payloads(incomplete_rest(first) + second)));
    } else {
        assert(Seq::<Seq<u8>>::empty() + complete_payloads(whole) =~= complete_payloads(whole));
    }
}

/// What is left over never holds a whole frame.
pub proof fn the_rest_is_incomplete(bytes: Seq<u8>)
    ensures
        !frame_is_complete(incomplete_rest(bytes)),
    decreases bytes.len(),
{
    if frame_is_complete(bytes) {
        the_rest_is_incomplete(bytes.skip((FRAME_HEADER_BYTES + framed_length(bytes)) as int));
    }
}

}
