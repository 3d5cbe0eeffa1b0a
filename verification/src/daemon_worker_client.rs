//! The private framed channel to a session worker, and the state of a client of
//! that channel.
//!
//! A frame is an 8-byte prefix of two big-endian lengths, a JSON routing header
//! and a payload.

use vstd::prelude::*;
use vstd::slice::{slice_subrange, slice_to_vec};

use crate::daemon_worker_protocol;
use crate::daemon_worker_protocol::{DaemonPeerTransportTicket, is_daemon_worker_frame_header};
use crate::json;
use crate::json::{Json, JsonV, parse_json, print_json};
use crate::protocol;
use crate::protocol::{
    ClientErrorV, DaemonClientError, DaemonCommand, DaemonHello, DaemonResponse,
    DaemonSocketClosedError,
};
use crate::text;
use crate::text::{cat2, cat3, cat4, decimal, same};

verus! {

const FRAME_PREFIX_BYTES: usize = 8;

pub const DEFAULT_PRIVATE_FRAME_MAX_HEADER_BYTES: usize = 1_048_576;

pub const DEFAULT_PRIVATE_FRAME_MAX_PAYLOAD_BYTES: usize = 1_073_741_824;

/// One frame of the channel.
#[derive(Debug, PartialEq)]
pub struct PrivateFrame {
    pub header: Json,
    pub payload: Vec<u8>,
}

/// What one frame says.
pub struct FrameV {
    pub header: JsonV,
    pub payload: Seq<u8>,
}

impl View for PrivateFrame {
    type V = FrameV;

    open spec fn view(&self) -> FrameV {
        FrameV { header: self.header@, payload: self.payload@ }
    }
}

/// What a list of frames says.
pub open spec fn frames_view(frames: Seq<PrivateFrame>) -> Seq<FrameV> {
    Seq::new(frames.len(), |i: int| frames[i]@)
}

/// Four bytes of a number, most significant first.
pub open spec fn be_bytes(n: nat) -> Seq<u8> {
    seq![
        ((n / 16777216) % 256) as u8,
        ((n / 65536) % 256) as u8,
        ((n / 256) % 256) as u8,
        (n % 256) as u8,
    ]
}

/// The number in the four bytes at `at`, most significant first.
pub open spec fn be_value(bytes: Seq<u8>, at: int) -> nat {
    (bytes[at] as nat) * 16777216 + (bytes[at + 1] as nat) * 65536 + (bytes[at + 2] as nat) * 256 + (
    bytes[at + 3] as nat)
}

/// The bytes of a frame with this header text and payload.
pub open spec fn frame_bytes(header: Seq<u8>, payload: Seq<u8>) -> Seq<u8> {
    be_bytes(header.len()) + be_bytes(payload.len()) + header + payload
}

/// The bytes of a header document.
pub open spec fn header_bytes(header: JsonV) -> Seq<u8> {
    vstd::utf8::encode_utf8(json::printed_json(header))
}

/// Why a frame with these lengths is refused.
pub open spec fn length_error(header: nat, payload: nat) -> Option<Seq<char>> {
    if header > DEFAULT_PRIVATE_FRAME_MAX_HEADER_BYTES {
        Some("Invalid private frame "@ + "header length"@ + ": "@ + text::decimal_digits(header))
    } else if payload > DEFAULT_PRIVATE_FRAME_MAX_PAYLOAD_BYTES {
        Some("Invalid private frame "@ + "payload length"@ + ": "@ + text::decimal_digits(payload))
    } else if header == 0 {
        Some("Private frame header cannot be empty"@)
    } else {
        None
    }
}

/// What stands at the beginning of a byte stream.
pub enum FrameStep {
    /// No complete frame yet.
    Incomplete,
    /// Something that is no frame.
    Invalid(Seq<char>),
    /// A frame of this many bytes.
    Complete(FrameV, nat),
}

/// Reads what stands at the beginning of a byte stream.
pub open spec fn frame_step(bytes: Seq<u8>) -> FrameStep {
    if bytes.len() < 8 {
        FrameStep::Incomplete
    } else {
        let header = be_value(bytes, 0);
        let payload = be_value(bytes, 4);
        match length_error(header, payload) {
            Some(error) => FrameStep::Invalid(error),
            None => if bytes.len() < 8 + header + payload {
                FrameStep::Incomplete
            } else {
                match json::parsed_json(bytes.subrange(8, 8 + header as int)) {
                    Err(error) => FrameStep::Invalid("Invalid private frame header JSON: "@ + error),
                    Ok(value) => if daemon_worker_protocol::is_frame_header(value) {
                        FrameStep::Complete(
                            FrameV {
                                header: value,
                                payload: bytes.subrange(
                                    8 + header as int,
                                    8 + header as int + payload as int,
                                ),
                            },
                            8 + header + payload,
                        )
                    } else {
                        FrameStep::Invalid("Invalid private frame routing header"@)
                    },
                }
            },
        }
    }
}

/// The frames of a byte stream, the bytes left over, and the error that ended
/// the reading.
#[verifier::ext_equal]
pub struct Decoded {
    pub frames: Seq<FrameV>,
    pub rest: Seq<u8>,
    pub error: Option<Seq<char>>,
}

/// Reads all complete frames of a byte stream.
pub open spec fn decode_all(bytes: Seq<u8>) -> Decoded
    decreases bytes.len(),
{
    match frame_step(bytes) {
        FrameStep::Incomplete => Decoded { frames: Seq::empty(), rest: bytes, error: None },
        FrameStep::Invalid(error) => Decoded {
            frames: Seq::empty(),
            rest: bytes,
            error: Some(error),
        },
        FrameStep::Complete(frame, length) => if 0 < length <= bytes.len() {
            let tail = decode_all(bytes.skip(length as int));
            Decoded { frames: seq![frame] + tail.frames, rest: tail.rest, error: tail.error }
        } else {
            Decoded { frames: Seq::empty(), rest: bytes, error: None }
        },
    }
}

proof fn be_round_trip(n: nat)
    requires
        n < 4294967296,
    ensures
        be_bytes(n).len() == 4,
        be_value(be_bytes(n), 0) == n,
{
    let a = n / 16777216;
    assert(a < 256 && (n / 16777216) % 256 == a);
    assert(n / 65536 == a * 256 + (n / 65536) % 256);
    assert(n / 256 == (n / 65536) * 256 + (n / 256) % 256);
    assert(n == (n / 256) * 256 + n % 256);
}

fn push_be(out: &mut Vec<u8>, n: u32)
    ensures
        final(out)@ == old(out)@ + be_bytes(n as nat),
{
    out.push((n / 16777216) as u8);
    out.push(((n / 65536) % 256) as u8);
    out.push(((n / 256) % 256) as u8);
    out.push((n % 256) as u8);
    assert(out@ =~= old(out)@ + be_bytes(n as nat));
}

fn read_be(bytes: &Vec<u8>, at: usize) -> (r: usize)
    requires
        at + 4 <= bytes.len(),
    ensures
        r == be_value(bytes@, at as int),
        r < 4294967296,
{
    let value: u32 = (bytes[at] as u32) * 16777216 + (bytes[at + 1] as u32) * 65536 + (bytes[at
        + 2] as u32) * 256 + bytes[at + 3] as u32;
    value as usize
}

fn assert_frame_length(name: &str, value: usize, maximum: usize) -> (r: Result<(), String>)
    ensures
        match r {
            Ok(_) => value <= maximum,
            Err(error) => value > maximum && error@ == "Invalid private frame "@ + name@ + ": "@
                + text::decimal_digits(value as nat),
        },
{
    if value > maximum {
        let digits = decimal(value as u64);
        return Err(cat4("Invalid private frame ", name, ": ", &digits));
    }
    Ok(())
}

fn check_lengths(header: usize, payload: usize) -> (r: Result<(), String>)
    ensures
        match r {
            Ok(_) => length_error(header as nat, payload as nat) is None,
            Err(error) => length_error(header as nat, payload as nat) == Some(error@),
        },
{
    if let Err(error) = assert_frame_length(
        "header length",
        header,
        DEFAULT_PRIVATE_FRAME_MAX_HEADER_BYTES,
    ) {
        return Err(error);
    }
    if let Err(error) = assert_frame_length(
        "payload length",
        payload,
        DEFAULT_PRIVATE_FRAME_MAX_PAYLOAD_BYTES,
    ) {
        return Err(error);
    }
    if header == 0 {
        return Err("Private frame header cannot be empty".to_owned());
    }
    Ok(())
}

/// The frame made of a header text and a payload.
pub fn encode_frame(header: &[u8], payload: &[u8]) -> (r: Result<Vec<u8>, String>)
    ensures
        match r {
            Ok(bytes) => length_error(header@.len(), payload@.len()) is None && bytes@
                == frame_bytes(header@, payload@),
            Err(error) => length_error(header@.len(), payload@.len()) == Some(error@),
        },
{
    if let Err(error) = check_lengths(header.len(), payload.len()) {
        return Err(error);
    }
    let mut frame: Vec<u8> = Vec::new();
    push_be(&mut frame, header.len() as u32);
    push_be(&mut frame, payload.len() as u32);
    let mut head = slice_to_vec(header);
    frame.append(&mut head);
    let mut body = slice_to_vec(payload);
    frame.append(&mut body);
    assert(frame@ =~= frame_bytes(header@, payload@));
    Ok(frame)
}

/// The frame that carries `payload` under `header`. Where `serde_json` can hold
/// the header, the header text is what it prints.
pub fn encode_private_frame(header: &Json, payload: &[u8]) -> (r: Result<Vec<u8>, String>)
    ensures
        json::holdable(header@) ==> match r {
            Ok(bytes) => length_error(header_bytes(json::held(header@)).len(), payload@.len())
                is None && bytes@ == frame_bytes(header_bytes(json::held(header@)), payload@),
            Err(error) => length_error(header_bytes(json::held(header@)).len(), payload@.len())
                == Some(error@),
        },
        json::sound(header@) ==> match r {
            Ok(bytes) => length_error(header_bytes(header@).len(), payload@.len()) is None && bytes@
                == frame_bytes(header_bytes(header@), payload@),
            Err(error) => length_error(header_bytes(header@).len(), payload@.len()) == Some(error@),
        },
        json::reads_back(header@) && r is Ok ==> json::parses_to(
            header_bytes(header@),
            header@,
        ),
{
    let header_text = print_json(header);
    encode_frame(header_text.as_str().as_bytes(), payload)
}

/// Collects the bytes of a channel and hands out its frames.
pub struct PrivateFrameDecoder {
    pub buffered: Vec<u8>,
}

impl PrivateFrameDecoder {
    pub fn new() -> (r: Self)
        ensures
            r.buffered@ == Seq::<u8>::empty(),
    {
        PrivateFrameDecoder { buffered: Vec::new() }
    }

    /// How many bytes wait for the rest of their frame.
    pub fn buffered_bytes(&self) -> (r: usize)
        ensures
            r == self.buffered@.len(),
    {
        self.buffered.len()
    }

    /// Takes the next bytes of the channel and returns the frames that are now
    /// complete. An error leaves all bytes in the buffer.
    #[verifier::rlimit(60)]
    #[verifier::spinoff_prover]
    pub fn push(&mut self, chunk: &[u8]) -> (r: Result<Vec<PrivateFrame>, String>)
        ensures
            match r {
                Ok(frames) => {
                    let decoded = decode_all(old(self).buffered@ + chunk@);
                    decoded.error is None && frames_view(frames@) == decoded.frames
                        && final(self).buffered@ == decoded.rest
                },
                Err(error) => {
                    decode_all(old(self).buffered@ + chunk@).error == Some(error@)
                        && final(self).buffered@ == old(self).buffered@ + chunk@
                },
            },
    {
        let mut more = slice_to_vec(chunk);
        self.buffered.append(&mut more);
        let ghost all = self.buffered@;
        assert(all =~= old(self).buffered@ + chunk@);
        let mut frames: Vec<PrivateFrame> = Vec::new();
        let mut offset: usize = 0;
        assert(all.skip(0) =~= all);
        assert(frames_view(frames@) + decode_all(all).frames =~= decode_all(all).frames);
        while self.buffered.len() - offset >= FRAME_PREFIX_BYTES
            invariant_except_break
                offset <= self.buffered.len(),
                self.buffered@ == all,
                all == old(self).buffered@ + chunk@,
                decode_all(all).frames == frames_view(frames@) + decode_all(
                    all.skip(offset as int),
                ).frames,
                decode_all(all).rest == decode_all(all.skip(offset as int)).rest,
                decode_all(all).error == decode_all(all.skip(offset as int)).error,
            ensures
                offset <= self.buffered.len(),
                self.buffered@ == all,
                decode_all(all).frames == frames_view(frames@),
                decode_all(all).rest == all.skip(offset as int),
                decode_all(all).error is None,
            decreases self.buffered.len() - offset,
        {
            let ghost rest = all.skip(offset as int);
            let header_length: usize = read_be(&self.buffered, offset);
            let payload_length: usize = read_be(&self.buffered, offset + 4);
            assert(header_length == be_value(rest, 0));
            assert(payload_length == be_value(rest, 4));
            if let Err(error) = check_lengths(header_length, payload_length) {
                return Err(error);
            }
            let frame_length: usize = FRAME_PREFIX_BYTES + header_length + payload_length;
            if self.buffered.len() - offset < frame_length {
                assert(frame_step(rest) is Incomplete);
                assert(frames_view(frames@) + decode_all(rest).frames =~= frames_view(frames@));
                break;
            }
            let header_start: usize = offset + FRAME_PREFIX_BYTES;
            let payload_start: usize = header_start + header_length;
            let header_part = slice_subrange(&self.buffered, header_start, payload_start);
            assert(header_part@ =~= rest.subrange(8, 8 + header_length));
            let decoded = match parse_json(header_part) {
                Ok(decoded) => decoded,
                Err(error) => return Err(cat2("Invalid private frame header JSON: ", &error)),
            };
            if !is_daemon_worker_frame_header(&decoded) {
                return Err("Invalid private frame routing header".to_owned());
            }
            let payload_part = slice_subrange(
                &self.buffered,
                payload_start,
                payload_start + payload_length,
            );
            let payload = slice_to_vec(payload_part);
            assert(payload@ =~= rest.subrange(
                8 + header_length,
                8 + header_length + payload_length,
            ));
            let ghost before = frames_view(frames@);
            let frame = PrivateFrame { header: decoded, payload };
            let ghost shown = frame@;
            frames.push(frame);
            offset += frame_length;
            proof {
                assert(frame_step(rest) == FrameStep::Complete(shown, frame_length as nat));
                assert(rest.skip(frame_length as int) =~= all.skip(offset as int));
                let tail = decode_all(all.skip(offset as int));
                assert(frames_view(frames@) =~= before + seq![shown]);
                assert(before + (seq![shown] + tail.frames) =~= frames_view(frames@) + tail.frames);
            }
            if self.buffered.len() - offset < FRAME_PREFIX_BYTES {
                let ghost tail = all.skip(offset as int);
                assert(frame_step(tail) is Incomplete);
                assert(frames_view(frames@) + decode_all(tail).frames =~= frames_view(frames@));
                break;
            }
        }
        if offset > 0 {
            let left = slice_subrange(&self.buffered, offset, self.buffered.len());
            let left = slice_to_vec(left);
            self.buffered = left;
        }
        assert(self.buffered@ =~= all.skip(offset as int));
        Ok(frames)
    }

    /// Reports a channel that ended inside a frame.
    pub fn finish(&self) -> (r: Result<(), String>)
        ensures
            match r {
                Ok(_) => self.buffered@.len() == 0,
                Err(error) => self.buffered@.len() > 0 && error@
                    == "Private frame channel ended with "@ + text::decimal_digits(
                    self.buffered@.len(),
                ) + " incomplete bytes"@,
            },
    {
        if self.buffered.len() > 0 {
            let digits = decimal(self.buffered.len() as u64);
            return Err(cat3("Private frame channel ended with ", &digits, " incomplete bytes"));
        }
        Ok(())
    }
}

/// A frame can be sent: its header is a routing header that reads back as itself
/// and its lengths are within bounds.
pub open spec fn sendable(frame: FrameV) -> bool {
    &&& daemon_worker_protocol::is_frame_header(frame.header)
    &&& json::parses_to(header_bytes(frame.header), frame.header)
    &&& length_error(header_bytes(frame.header).len(), frame.payload.len()) is None
}

/// The bytes that send these frames one after the other.
pub open spec fn stream_of(frames: Seq<FrameV>) -> Seq<u8>
    decreases frames.len(),
{
    if frames.len() == 0 {
        Seq::empty()
    } else {
        frame_bytes(header_bytes(frames[0].header), frames[0].payload) + stream_of(
            frames.drop_first(),
        )
    }
}

/// A frame that was encoded is the first thing read from a stream that begins
/// with its bytes; what follows it is read next.
pub proof fn encoded_frame_is_read_back(frame: FrameV, tail: Seq<u8>)
    requires
        sendable(frame),
    ensures
        ({
            let sent = frame_bytes(header_bytes(frame.header), frame.payload);
            let decoded = decode_all(sent + tail);
            &&& decoded.frames == seq![frame] + decode_all(tail).frames
            &&& decoded.rest == decode_all(tail).rest
            &&& decoded.error == decode_all(tail).error
        }),
{
    let head = header_bytes(frame.header);
    let sent = frame_bytes(head, frame.payload);
    let bytes = sent + tail;
    be_round_trip(head.len());
    be_round_trip(frame.payload.len());
    assert(forall|i: int| 0 <= i < 4 ==> bytes[i] == be_bytes(head.len())[i]);
    assert(bytes.subrange(4, 8) =~= be_bytes(frame.payload.len()));
    assert(forall|i: int| 4 <= i < 8 ==> bytes[i] == bytes.subrange(4, 8)[i - 4]);
    assert(be_value(bytes, 0) == head.len());
    assert(be_value(bytes, 4) == frame.payload.len());
    assert(bytes.subrange(8, 8 + head.len() as int) =~= head);
    assert(bytes.subrange(
        8 + head.len() as int,
        8 + head.len() as int + frame.payload.len() as int,
    ) =~= frame.payload);
    let length = 8 + head.len() + frame.payload.len();
    assert(frame_step(bytes) == FrameStep::Complete(frame, length));
    assert(bytes.skip(length as int) =~= tail);
}

/// Frames that were encoded one after the other are read back as they were sent,
/// with nothing left over.
pub proof fn sent_frames_are_read_back(frames: Seq<FrameV>)
    requires
        forall|i: int| 0 <= i < frames.len() ==> sendable(#[trigger] frames[i]),
    ensures
        decode_all(stream_of(frames)) == (Decoded {
            frames,
            rest: Seq::empty(),
            error: None,
        }),
    decreases frames.len(),
{
    if frames.len() == 0 {
        assert(decode_all(stream_of(frames)).frames =~= frames);
    } else {
        let rest = frames.drop_first();
        assert forall|i: int| 0 <= i < rest.len() implies sendable(#[trigger] rest[i]) by {
            assert(rest[i] == frames[i + 1]);
        }
        sent_frames_are_read_back(rest);
        encoded_frame_is_read_back(frames[0], stream_of(rest));
        assert(seq![frames[0]] + rest =~= frames);
        assert(decode_all(stream_of(frames)).frames =~= frames);
    }
}

/// Reading a stream in two parts gives the frames that reading it at once gives:
/// the bytes left over from the first part are read again in front of the second.
pub proof fn chunks_do_not_matter(first: Seq<u8>, second: Seq<u8>)
    requires
        decode_all(first).error is None,
    ensures
        ({
            let whole = decode_all(first + second);
            let next = decode_all(decode_all(first).rest + second);
            &&& whole.frames == decode_all(first).frames + next.frames
            &&& whole.rest == next.rest
            &&& whole.error == next.error
        }),
    decreases first.len(),
{
    match frame_step(first) {
        FrameStep::Incomplete => {
            let next = decode_all(first + second);
            assert(decode_all(first).frames + next.frames =~= next.frames);
        },
        FrameStep::Invalid(_) => {},
        FrameStep::Complete(frame, length) => {
            let bytes = first + second;
            assert(be_value(bytes, 0) == be_value(first, 0));
            assert(be_value(bytes, 4) == be_value(first, 4));
            let header = be_value(first, 0) as int;
            let payload = be_value(first, 4) as int;
            assert(bytes.subrange(8, 8 + header) =~= first.subrange(8, 8 + header));
            assert(bytes.subrange(8 + header, 8 + header + payload) =~= first.subrange(
                8 + header,
                8 + header + payload,
            ));
            assert(frame_step(bytes) == FrameStep::Complete(frame, length));
            let rest = first.skip(length as int);
            assert(bytes.skip(length as int) =~= rest + second);
            chunks_do_not_matter(rest, second);
            let next = decode_all(decode_all(first).rest + second);
            assert(seq![frame] + (decode_all(rest).frames + next.frames) =~= decode_all(
                first,
            ).frames + next.frames);
        },
    }
}

/// The bytes of all chunks in order.
pub open spec fn chunk_bytes(chunks: Seq<Seq<u8>>) -> Seq<u8>
    decreases chunks.len(),
{
    if chunks.len() == 0 {
        Seq::empty()
    } else {
        chunk_bytes(chunks.drop_last()) + chunks.last()
    }
}

/// What a decoder has handed out, and what it still holds, after it was given
/// the chunks in order; an error stays.
pub open spec fn fed(chunks: Seq<Seq<u8>>) -> Decoded
    decreases chunks.len(),
{
    if chunks.len() == 0 {
        Decoded { frames: Seq::empty(), rest: Seq::empty(), error: None }
    } else {
        let before = fed(chunks.drop_last());
        if before.error is Some {
            before
        } else {
            let next = decode_all(before.rest + chunks.last());
            Decoded { frames: before.frames + next.frames, rest: next.rest, error: next.error }
        }
    }
}

proof fn prefix_error_stays(first: Seq<u8>, second: Seq<u8>)
    requires
        decode_all(first).error is Some,
    ensures
        decode_all(first + second).error is Some,
    decreases first.len(),
{
    let bytes = first + second;
    match frame_step(first) {
        FrameStep::Incomplete => {},
        FrameStep::Invalid(error) => {
            assert(be_value(bytes, 0) == be_value(first, 0));
            assert(be_value(bytes, 4) == be_value(first, 4));
            let header = be_value(first, 0) as int;
            assert(length_error(be_value(first, 0), be_value(first, 4)) is None ==> bytes.subrange(
                8,
                8 + header,
            ) =~= first.subrange(8, 8 + header));
            assert(frame_step(bytes) == FrameStep::Invalid(error));
        },
        FrameStep::Complete(frame, length) => {
            assert(be_value(bytes, 0) == be_value(first, 0));
            assert(be_value(bytes, 4) == be_value(first, 4));
            let header = be_value(first, 0) as int;
            let payload = be_value(first, 4) as int;
            assert(bytes.subrange(8, 8 + header) =~= first.subrange(8, 8 + header));
            assert(bytes.subrange(8 + header, 8 + header + payload) =~= first.subrange(
                8 + header,
                8 + header + payload,
            ));
            assert(frame_step(bytes) == FrameStep::Complete(frame, length));
            assert(bytes.skip(length as int) =~= first.skip(length as int) + second);
            prefix_error_stays(first.skip(length as int), second);
        },
    }
}

/// However a stream is cut into chunks, a decoder that is given them in order
/// hands out the frames of the whole stream and keeps the same bytes back, as
/// long as the stream holds no invalid frame.
pub proof fn any_chunking_gives_the_frames(chunks: Seq<Seq<u8>>)
    requires
        decode_all(chunk_bytes(chunks)).error is None,
    ensures
        fed(chunks) == decode_all(chunk_bytes(chunks)),
    decreases chunks.len(),
{
    if chunks.len() == 0 {
        assert(fed(chunks).frames =~= decode_all(chunk_bytes(chunks)).frames);
    } else {
        let before = chunk_bytes(chunks.drop_last());
        if decode_all(before).error is Some {
            prefix_error_stays(before, chunks.last());
        }
        any_chunking_gives_the_frames(chunks.drop_last());
        chunks_do_not_matter(before, chunks.last());
    }
}


/// The worker refused the supervisor's or the peer's authentication.
#[derive(Debug, Clone, PartialEq, Eq)]
pub struct DaemonWorkerAuthenticationError {
    pub message: String,
}

/// A probe timed out; the worker counts as live but slow, never as dead.
#[derive(Debug, Clone, PartialEq, Eq)]
pub struct DaemonWorkerProbeTimeoutError {
    pub message: String,
}

/// The state of one client of a worker socket.
pub struct DaemonWorkerClient {
    pub socket_path: String,
    pub connected: bool,
    pub direct_peer: bool,
    pub direct_closing_reason: Option<String>,
    pub hello_message: Option<DaemonHello>,
    /// The requests that wait for their answer, oldest first.
    pub pending: Vec<String>,
    pub request_id: u64,
}

/// A request that is ready to be written.
pub struct WorkerRequest {
    pub id: String,
    pub frame: Vec<u8>,
}

/// What has to be done after a frame was received.
pub struct FrameOutcome {
    /// The request that is answered, and with what.
    pub settled: Option<(String, Result<DaemonResponse, String>)>,
    /// The waiters for the hello are told about it.
    pub hello: bool,
    /// The frame goes to the frame listeners.
    pub forwarded: bool,
    /// The message goes to the message listeners.
    pub message: Option<Json>,
    /// The connection is closed with this error.
    pub close: Option<DaemonClientError>,
}

/// The list without the first entry that holds `id`.
pub open spec fn without_id(ids: Seq<Seq<char>>, id: Seq<char>) -> Seq<Seq<char>>
    decreases ids.len(),
{
    if ids.len() == 0 {
        ids
    } else if ids[0] == id {
        ids.drop_first()
    } else {
        seq![ids[0]] + without_id(ids.drop_first(), id)
    }
}

/// The id of the `n`th request.
pub open spec fn request_name(n: nat) -> Seq<char> {
    "worker_"@ + text::decimal_digits(n)
}

/// Different request numbers give different ids.
pub proof fn request_names_differ(a: nat, b: nat)
    requires
        a != b,
    ensures
        request_name(a) != request_name(b),
{
    text::decimal_digits_differ(a, b);
    let head = "worker_"@;
    if request_name(a) == request_name(b) {
        assert(request_name(a).skip(head.len() as int) =~= text::decimal_digits(a));
        assert(request_name(b).skip(head.len() as int) =~= text::decimal_digits(b));
    }
}

/// The routing header of a request.
pub open spec fn request_header(id: Seq<char>, command_type: Seq<char>) -> JsonV {
    JsonV::Obj(
        seq![
            ("kind"@, JsonV::Str("command"@)),
            ("requestId"@, JsonV::Str(id)),
            ("commandType"@, JsonV::Str(command_type)),
        ],
    )
}

/// The payload of a request: the command on a line of its own.
pub open spec fn request_payload(command: JsonV) -> Seq<u8> {
    vstd::utf8::encode_utf8(json::printed_json(json::held(command)) + "\n"@)
}

proof fn request_header_is_sound(id: Seq<char>, command_type: Seq<char>)
    ensures
        json::sound(request_header(id, command_type)),
{
    reveal_strlit("kind");
    reveal_strlit("requestId");
    reveal_strlit("commandType");
    let pairs = request_header(id, command_type)->Obj_0;
    assert(pairs[0].0.len() != pairs[1].0.len());
    assert(pairs[0].0.len() != pairs[2].0.len());
    assert(pairs[1].0.len() != pairs[2].0.len());
    assert(json::distinct_keys(pairs));
    assert forall|i: int| 0 <= i < pairs.len() implies json::sound((#[trigger] pairs[i]).1) by {
        assert(pairs[i].1 is Str);
    }
}

/// How the payload of an answer is read.
pub enum AnswerReading {
    Response(protocol::ResponseV),
    NoResponse,
    Unreadable(Seq<char>),
}

/// Reads the payload of an answer.
pub open spec fn read_answer(payload: Seq<u8>) -> AnswerReading {
    match json::parsed_json(payload) {
        Err(error) => AnswerReading::Unreadable(error),
        Ok(value) => if protocol::is_response(value) {
            AnswerReading::Response(protocol::response_of(value))
        } else {
            AnswerReading::NoResponse
        },
    }
}

/// The message that a direct worker's frame carries, or why the frame ends the
/// connection.
pub open spec fn direct_message(header: JsonV, payload: Seq<u8>) -> Result<JsonV, Seq<char>> {
    match header.str_at("payloadEncoding"@) {
        Some(encoding) if encoding != "jsonl"@ => Err(
            "Direct worker sent an unsupported payload encoding: "@ + encoding,
        ),
        _ => match json::parsed_json(payload) {
            Err(error) => Err(error),
            Ok(message) => if message.str_at("type"@) is None {
                Err("Direct worker sent an invalid outbound payload"@)
            } else {
                Ok(message)
            },
        },
    }
}

/// The error with which a connection is closed: a direct peer's closing reason
/// and socket are told beside the cause.
pub open spec fn close_error(
    direct_peer: bool,
    path: Seq<char>,
    reason: Option<Seq<char>>,
    cause: ClientErrorV,
) -> ClientErrorV {
    if direct_peer {
        ClientErrorV::SocketClosed(path, reason, Some(protocol::client_error_text(cause)))
    } else {
        cause
    }
}

/// The frame is not for this side of the channel.
pub open spec fn ignored(header: JsonV) -> bool {
    header.str_at("kind"@) != Some("outbound"@)
}

/// The kind of message that a frame carries.
pub open spec fn outbound_type(header: JsonV) -> Seq<char> {
    header.str_at("outboundType"@).unwrap_or(Seq::empty())
}

/// The request that a frame answers, where it is still waiting.
pub open spec fn answered(header: JsonV, pending: Seq<String>) -> Option<Seq<char>> {
    match header.str_at("requestId"@) {
        Some(id) if outbound_type(header) == "response"@ && text::holds_text(pending, id) => Some(
            id,
        ),
        _ => None,
    }
}

/// The answer ends the handling of its frame: it was understood, or it is no
/// JSON at all.
pub open spec fn answer_ends(header: JsonV, pending: Seq<String>, payload: Seq<u8>) -> bool {
    answered(header, pending) is Some && !(read_answer(payload) is NoResponse)
}

impl DaemonWorkerClient {
    /// A client that is not connected.
    pub fn new(socket_path: &str) -> (r: Self)
        ensures
            r.socket_path@ == socket_path@,
            !r.connected,
            !r.direct_peer,
            r.direct_closing_reason is None,
            r.hello_message is None,
            r.pending@.len() == 0,
            r.request_id == 0,
    {
        DaemonWorkerClient {
            socket_path: socket_path.to_owned(),
            connected: false,
            direct_peer: false,
            direct_closing_reason: None,
            hello_message: None,
            pending: Vec::new(),
            request_id: 0,
        }
    }

    /// The hello the worker sent.
    pub fn hello(&self) -> (r: Option<&DaemonHello>)
        ensures
            match r {
                Some(hello) => self.hello_message == Some(*hello),
                None => self.hello_message is None,
            },
    {
        self.hello_message.as_ref()
    }

    pub fn is_connected(&self) -> (r: bool)
        ensures
            r == self.connected,
    {
        self.connected
    }

    /// Whether the worker said hello and advertised the capability.
    pub fn supports_server_capability(&self, capability: &str) -> (r: bool)
        ensures
            r == match self.hello_message {
                Some(hello) => text::holds_text(hello.server_capabilities@, capability@),
                None => false,
            },
    {
        match &self.hello_message {
            Some(hello) => hello.supports(capability),
            None => false,
        }
    }

    /// Prepares a command for the wire: gives it the next request id and frames
    /// it. A request that cannot be framed uses up its id and waits for nothing.
    pub fn begin_request(&mut self, command: &DaemonCommand) -> (r: Result<WorkerRequest, String>)
        requires
            old(self).request_id < u64::MAX,
        ensures
            final(self).socket_path == old(self).socket_path,
            final(self).connected == old(self).connected,
            final(self).direct_peer == old(self).direct_peer,
            final(self).direct_closing_reason == old(self).direct_closing_reason,
            final(self).hello_message == old(self).hello_message,
            final(self).request_id == old(self).request_id + (if old(self).connected {
                1int
            } else {
                0
            }),
            ({
                let id = request_name((old(self).request_id + 1) as nat);
                let value = protocol::command_value(
                    Some(id),
                    command.type_@,
                    json::members(command.body@),
                );
                let header = header_bytes(request_header(id, command.type_@));
                let payload = request_payload(value);
                match r {
                    Ok(request) => {
                        &&& old(self).connected
                        &&& request.id@ == id
                        &&& text::texts(final(self).pending@) == text::texts(
                            old(self).pending@,
                        ).push(id)
                        &&& json::holdable(value) ==> length_error(header.len(), payload.len())
                            is None && request.frame@ == frame_bytes(header, payload)
                    },
                    Err(error) => {
                        &&& final(self).pending == old(self).pending
                        &&& !old(self).connected ==> error@
                            == "Daemon worker client is not connected"@
                        &&& old(self).connected && json::holdable(value) ==> length_error(
                            header.len(),
                            payload.len(),
                        ) == Some(error@)
                    },
                }
            }),
            !old(self).connected ==> r is Err,
    {
        broadcast use {json::object_view, json::array_view};

        if !self.connected {
            return Err("Daemon worker client is not connected".to_owned());
        }
        self.request_id = self.request_id + 1;
        let digits = decimal(self.request_id);
        let id = cat2("worker_", &digits);
        let value = command.to_value(Some(&id));
        let mut payload = print_json(&value);
        payload.append("\n");
        let mut pairs: Vec<(String, Json)> = Vec::new();
        pairs.push(("kind".to_owned(), Json::Str("command".to_owned())));
        pairs.push(("requestId".to_owned(), Json::Str(id.clone())));
        pairs.push(("commandType".to_owned(), Json::Str(command.type_.clone())));
        let header = Json::Object(pairs);
        assert(header@->Obj_0 =~= request_header(id@, command.type_@)->Obj_0);
        proof {
            request_header_is_sound(id@, command.type_@);
        }
        match encode_private_frame(&header, payload.as_str().as_bytes()) {
            Ok(frame) => {
                let ghost before = self.pending@;
                self.pending.push(id.clone());
                assert(text::texts(self.pending@) =~= text::texts(before).push(id@));
                Ok(WorkerRequest { id, frame })
            },
            Err(error) => Err(error),
        }
    }

    /// Takes a request off the waiting list; tells whether it was on it.
    pub fn take_pending(&mut self, id: &str) -> (r: bool)
        ensures
            r == text::holds_text(old(self).pending@, id@),
            !r ==> *final(self) == *old(self),
            text::texts(final(self).pending@) == without_id(text::texts(old(self).pending@), id@),
            final(self).socket_path == old(self).socket_path,
            final(self).connected == old(self).connected,
            final(self).direct_peer == old(self).direct_peer,
            final(self).direct_closing_reason == old(self).direct_closing_reason,
            final(self).hello_message == old(self).hello_message,
            final(self).request_id == old(self).request_id,
    {
        let ghost before = text::texts(self.pending@);
        let mut i: usize = 0;
        assert(before.skip(0) =~= before);
        assert(before.take(0) + without_id(before, id@) =~= without_id(before, id@));
        while i < self.pending.len()
            invariant
                *self == *old(self),
                i <= self.pending.len(),
                before == text::texts(self.pending@),
                forall|j: int| 0 <= j < i ==> (#[trigger] self.pending@[j])@ != id@,
                without_id(before, id@) == before.take(i as int) + without_id(
                    before.skip(i as int),
                    id@,
                ),
            decreases self.pending.len() - i,
        {
            proof {
                assert(before.skip(i as int)[0] == before[i as int]);
                assert(before.skip(i as int).drop_first() =~= before.skip(i + 1));
            }
            if same(&self.pending[i], id) {
                self.pending.remove(i);
                assert(text::texts(self.pending@) =~= before.take(i as int) + before.skip(i + 1));
                assert(old(self).pending@[i as int]@ == id@);
                return true;
            }
            assert(before.take(i as int) + (seq![before[i as int]] + without_id(
                before.skip(i + 1),
                id@,
            )) =~= before.take(i + 1) + without_id(before.skip(i + 1), id@));
            i += 1;
        }
        assert(before.skip(i as int) =~= Seq::<Seq<char>>::empty());
        assert(before.take(i as int) + Seq::<Seq<char>>::empty() =~= before);
        false
    }

    /// The error with which this connection is closed because of `cause`.
    pub fn direct_close_error(&self, cause: DaemonClientError) -> (r: DaemonClientError)
        ensures
            r@ == close_error(
                self.direct_peer,
                self.socket_path@,
                json::opt_view(self.direct_closing_reason),
                cause@,
            ),
    {
        if self.direct_peer {
            let text = cause.message();
            DaemonClientError::SocketClosed(
                DaemonSocketClosedError {
                    socket_path: self.socket_path.clone(),
                    daemon_closing_reason: self.direct_closing_reason.clone(),
                    cause: Some(text),
                },
            )
        } else {
            cause
        }
    }

    /// Handles a frame from the worker: answers settle their request, a hello is
    /// remembered, and a direct peer's messages are passed on. A frame of a
    /// direct peer that cannot be read closes the connection.
    pub fn handle_frame(&mut self, frame: &PrivateFrame) -> (r: FrameOutcome)
        ensures
            final(self).socket_path == old(self).socket_path,
            final(self).connected == old(self).connected,
            final(self).direct_peer == old(self).direct_peer,
            final(self).request_id == old(self).request_id,
            text::texts(final(self).pending@) == match answered(
                frame.header@,
                old(self).pending@,
            ) {
                Some(id) if !ignored(frame.header@) => without_id(
                    text::texts(old(self).pending@),
                    id,
                ),
                _ => text::texts(old(self).pending@),
            },
            ignored(frame.header@) ==> !r.forwarded && !r.hello && r.settled is None && r.message
                is None && r.close is None,
            !ignored(frame.header@) ==> {
                &&& r.forwarded == !answer_ends(
                    frame.header@,
                    old(self).pending@,
                    frame.payload@,
                )
                &&& match r.settled {
                    Some((id, result)) => answered(frame.header@, old(self).pending@) == Some(id@)
                        && match result {
                        Ok(response) => read_answer(frame.payload@) == AnswerReading::Response(
                            response@,
                        ),
                        Err(error) => read_answer(frame.payload@) matches AnswerReading::Unreadable(
                            why,
                        ) && error@ == "Invalid daemon worker response: "@ + why,
                    },
                    None => !answer_ends(frame.header@, old(self).pending@, frame.payload@),
                }
                &&& r.hello == (r.forwarded && outbound_type(frame.header@) == "daemon_hello"@
                    && json::parsed_json(frame.payload@) is Ok && protocol::is_hello(
                    json::parsed_json(frame.payload@)->Ok_0,
                ))
            },
            r.hello ==> final(self).hello_message is Some && protocol::hello_of(
                final(self).hello_message->0,
                json::parsed_json(frame.payload@)->Ok_0,
            ),
            !r.hello ==> final(self).hello_message == old(self).hello_message,
            ({
                let direct = r.forwarded && old(self).direct_peer && outbound_type(frame.header@)
                    != "daemon_hello"@ && outbound_type(frame.header@) != "response"@;
                match direct_message(frame.header@, frame.payload@) {
                    Ok(message) => {
                        &&& r.close is None
                        &&& json::opt_json(r.message) == if direct {
                            Some(message)
                        } else {
                            None
                        }
                        &&& json::opt_view(final(self).direct_closing_reason) == if direct
                            && message.str_at("type"@) == Some("daemon_closing"@)
                            && message.str_at("reason"@) is Some {
                            message.str_at("reason"@)
                        } else {
                            json::opt_view(old(self).direct_closing_reason)
                        }
                    },
                    Err(error) => {
                        &&& r.message is None
                        &&& final(self).direct_closing_reason == old(self).direct_closing_reason
                        &&& match r.close {
                            Some(close) => direct && close@ == close_error(
                                true,
                                old(self).socket_path@,
                                json::opt_view(old(self).direct_closing_reason),
                                ClientErrorV::Message(error),
                            ),
                            None => !direct,
                        }
                    },
                }
            }),
    {
        let mut outcome = FrameOutcome {
            settled: None,
            hello: false,
            forwarded: false,
            message: None,
            close: None,
        };
        if !frame.header.str_is("kind", "outbound") {
            return outcome;
        }
        let response: bool = frame.header.str_is("outboundType", "response");
        let hello: bool = frame.header.str_is("outboundType", "daemon_hello");
        proof {
            reveal_strlit("response");
            reveal_strlit("daemon_hello");
            assert("response"@[0] != "daemon_hello"@[0]);
            assert("response"@.len() == 8 && "daemon_hello"@.len() == 12);
            assert(response == (outbound_type(frame.header@) == "response"@));
            assert(hello == (outbound_type(frame.header@) == "daemon_hello"@));
        }
        if response {
            if let Some(id) = frame.header.str_at("requestId") {
                if self.take_pending(id) {
                    match parse_json(&frame.payload) {
                        Ok(value) => {
                            if let Some(answer) = DaemonResponse::from_value(&value) {
                                outcome.settled = Some((id.to_owned(), Ok(answer)));
                                return outcome;
                            }
                        },
                        Err(error) => {
                            let text = cat2("Invalid daemon worker response: ", &error);
                            outcome.settled = Some((id.to_owned(), Err(text)));
                            return outcome;
                        },
                    }
                }
            }
        }
        if hello {
            if let Ok(value) = parse_json(&frame.payload) {
                if let Some(message) = DaemonHello::from_value(&value) {
                    self.hello_message = Some(message);
                    outcome.hello = true;
                }
            }
        }
        outcome.forwarded = true;
        if self.direct_peer && !hello && !response {
            match read_direct_message(frame) {
                Ok(message) => {
                    if message.str_is("type", "daemon_closing") {
                        if let Some(reason) = message.str_at("reason") {
                            self.direct_closing_reason = Some(reason.to_owned());
                        }
                    }
                    outcome.message = Some(message);
                },
                Err(error) => {
                    outcome.close = Some(
                        self.direct_close_error(DaemonClientError::Message(error)),
                    );
                },
            }
        }
        outcome
    }

    /// Ends the connection. Returns the requests that are told about it; nothing
    /// where the connection had ended before.
    pub fn close_with_error(&mut self) -> (r: Option<Vec<String>>)
        ensures
            match r {
                Some(rejected) => {
                    &&& old(self).connected
                    &&& rejected == old(self).pending
                    &&& final(self).pending@.len() == 0
                    &&& !final(self).connected
                    &&& !final(self).direct_peer
                    &&& final(self).direct_closing_reason is None
                },
                None => !old(self).connected && *final(self) == *old(self),
            },
            final(self).hello_message == old(self).hello_message,
            final(self).socket_path == old(self).socket_path,
            final(self).request_id == old(self).request_id,
    {
        if !self.connected {
            return None;
        }
        let rejected = self.close();
        Some(rejected)
    }

    /// Closes the client. Returns the requests that are told about it.
    pub fn close(&mut self) -> (r: Vec<String>)
        ensures
            r == old(self).pending,
            final(self).pending@.len() == 0,
            !final(self).connected,
            !final(self).direct_peer,
            final(self).direct_closing_reason is None,
            final(self).hello_message == old(self).hello_message,
            final(self).socket_path == old(self).socket_path,
            final(self).request_id == old(self).request_id,
    {
        let mut rejected: Vec<String> = Vec::new();
        std::mem::swap(&mut rejected, &mut self.pending);
        self.connected = false;
        self.direct_peer = false;
        self.direct_closing_reason = None;
        rejected
    }
}

fn read_direct_message(frame: &PrivateFrame) -> (r: Result<Json, String>)
    ensures
        match (r, direct_message(frame.header@, frame.payload@)) {
            (Ok(message), Ok(expected)) => message@ == expected,
            (Err(error), Err(expected)) => error@ == expected,
            _ => false,
        },
{
    if let Some(encoding) = frame.header.str_at("payloadEncoding") {
        if !same(encoding, "jsonl") {
            return Err(cat2("Direct worker sent an unsupported payload encoding: ", encoding));
        }
    }
    match parse_json(&frame.payload) {
        Ok(message) => if message.str_at("type").is_none() {
            Err("Direct worker sent an invalid outbound payload".to_owned())
        } else {
            Ok(message)
        },
        Err(error) => Err(error),
    }
}

/// The command with which the supervisor authenticates at a worker.
pub fn worker_auth_command(token: &str, owner: &Vec<(String, Json)>) -> (r: DaemonCommand)
    ensures
        r.id is None,
        r.type_@ == "worker_auth"@,
        json::members(r.body@) == daemon_worker_protocol::put_all(
            seq![("token"@, JsonV::Str(token@))],
            json::members(owner@),
        ),
{
    let mut command = DaemonCommand::new("worker_auth");
    command.set_text("token", token);
    let mut i: usize = 0;
    assert(json::members(command.body@) =~= seq![("token"@, JsonV::Str(token@))]);
    assert(json::members(owner@).take(0) =~= Seq::empty());
    while i < owner.len()
        invariant
            i <= owner.len(),
            command.id is None,
            command.type_@ == "worker_auth"@,
            json::members(command.body@) == daemon_worker_protocol::put_all(
                seq![("token"@, JsonV::Str(token@))],
                json::members(owner@).take(i as int),
            ),
        decreases owner.len() - i,
    {
        let ghost next = json::members(owner@).take(i + 1);
        assert(next.drop_last() =~= json::members(owner@).take(i as int));
        command.set(&owner[i].0, owner[i].1.clone());
        i += 1;
    }
    assert(json::members(owner@).take(i as int) =~= json::members(owner@));
    command
}

/// The command with which a client authenticates at a worker that it talks to
/// directly.
pub fn peer_auth_command(ticket: &DaemonPeerTransportTicket) -> (r: DaemonCommand)
    ensures
        r.id is None,
        r.type_@ == "peer_auth"@,
        json::members(r.body@) == seq![
            ("grantId"@, JsonV::Str(ticket.grant_id@)),
            ("token"@, JsonV::Str(ticket.token@)),
            ("workerInstanceId"@, JsonV::Str(ticket.worker_instance_id@)),
            ("purpose"@, JsonV::Str(ticket.purpose@)),
        ],
{
    let mut command = DaemonCommand::new("peer_auth");
    json::add_text(&mut command.body, "grantId", &ticket.grant_id);
    json::add_text(&mut command.body, "token", &ticket.token);
    json::add_text(&mut command.body, "workerInstanceId", &ticket.worker_instance_id);
    json::add_text(&mut command.body, "purpose", &ticket.purpose);
    assert(json::members(command.body@) =~= seq![
        ("grantId"@, JsonV::Str(ticket.grant_id@)),
        ("token"@, JsonV::Str(ticket.token@)),
        ("workerInstanceId"@, JsonV::Str(ticket.worker_instance_id@)),
        ("purpose"@, JsonV::Str(ticket.purpose@)),
    ]);
    command
}

impl DaemonWorkerClient {
    /// Takes the answer to a direct authentication: from then on the worker is a
    /// direct peer, unless it refused.
    pub fn peer_authenticated(&mut self, response: DaemonResponse) -> (r: Result<(), String>)
        ensures
            match r {
                Ok(_) => response.success && *final(self) == (DaemonWorkerClient {
                    direct_peer: true,
                    ..*old(self)
                }),
                Err(error) => !response.success && *final(self) == *old(self) && error@
                    == json::opt_view(response.error).unwrap_or(Seq::empty()),
            },
    {
        match authentication_result(response) {
            Ok(_) => {
                self.direct_peer = true;
                Ok(())
            },
            Err(error) => Err(error),
        }
    }
}

/// What comes of an authentication: a refusal is an error with the worker's text.
pub fn authentication_result(response: DaemonResponse) -> (r: Result<DaemonResponse, String>)
    ensures
        match r {
            Ok(accepted) => response.success && accepted == response,
            Err(error) => !response.success && error@ == json::opt_view(response.error).unwrap_or(
                Seq::empty(),
            ),
        },
{
    if response.success {
        Ok(response)
    } else {
        match response.error {
            Some(error) => Err(error),
            None => Err(String::new()),
        }
    }
}

} // verus!
