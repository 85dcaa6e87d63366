//! Wire framing of the relay transport: a one-byte tag followed by a payload
//! that the tag determines.
//!
//! A video frame is the tag, the width and the height as little-endian 32-bit
//! integers, then four bytes per pixel. Producers hold pixels as blue, green,
//! red, alpha; the wire carries red, green, blue, alpha, so the codec exchanges
//! the first and third byte of every pixel on the way out and on the way in.
//! A control message is the tag followed by the UTF-8 text of a JSON document;
//! its end is the end of the transport message.

use vstd::prelude::*;
use vstd::string::*;
use vstd::utf8::*;

verus! {

/// Tag byte of a video frame.
pub const TAG_VIDEO: u8 = 0;

/// Tag byte of a control message.
pub const TAG_CONTROL: u8 = 1;

/// Length of a video frame's header: the tag, the width and the height.
pub const VIDEO_HEADER_LEN: usize = 9;

/// One application-level message on the relay connection.
#[derive(Debug, PartialEq, Eq)]
pub enum RelayFrame {
    /// A picture of `width` by `height` pixels, four bytes each, in the
    /// producer's channel order.
    VideoFrame { width: u32, height: u32, pixels: Vec<u8> },
    /// The text of a JSON document.
    ControlMessage { json: String },
}

/// What a [`RelayFrame`] holds, as mathematical values.
pub enum FrameContent {
    Video { width: u32, height: u32, pixels: Seq<u8> },
    Control { json: Seq<char> },
}

impl View for RelayFrame {
    type V = FrameContent;

    open spec fn view(&self) -> FrameContent {
        match *self {
            RelayFrame::VideoFrame { width, height, pixels } => FrameContent::Video {
                width,
                height,
                pixels: pixels@,
            },
            RelayFrame::ControlMessage { json } => FrameContent::Control { json: json@ },
        }
    }
}

/// Why a message could not be read as a frame.
#[derive(Debug, Clone, Copy, PartialEq, Eq)]
pub enum DecodeError {
    /// The message has no tag byte.
    Empty,
    /// The tag byte names no known frame kind.
    UnknownTag { tag: u8 },
    /// A video frame ends before its height is complete.
    TruncatedHeader,
    /// A video frame's payload is not `width * height * 4` bytes long.
    PixelCountMismatch,
    /// A control message's payload is not UTF-8.
    InvalidText,
}

/// The pixel buffer with the first and third byte of every complete four-byte
/// pixel exchanged. Bytes after the last complete pixel stay where they are.
pub open spec fn swap_red_blue(pixels: Seq<u8>) -> Seq<u8> {
    Seq::new(
        pixels.len(),
        |i: int|
            if i < (pixels.len() / 4) * 4 {
                if i % 4 == 0 {
                    pixels[i + 2]
                } else if i % 4 == 2 {
                    pixels[i - 2]
                } else {
                    pixels[i]
                }
            } else {
                pixels[i]
            },
    )
}

/// The four bytes of `value`, least significant first.
pub open spec fn le_bytes(value: u32) -> Seq<u8> {
    seq![
        (value & 0xff) as u8,
        ((value >> 8) & 0xff) as u8,
        ((value >> 16) & 0xff) as u8,
        ((value >> 24) & 0xff) as u8,
    ]
}

/// The integer whose little-endian bytes are the first four of `bytes`.
pub open spec fn le_value(bytes: Seq<u8>) -> u32 {
    (bytes[0] as u32) | ((bytes[1] as u32) << 8) | ((bytes[2] as u32) << 16) | ((bytes[3] as u32)
        << 24)
}

/// A video frame is valid when it has four bytes for each of its pixels; every
/// control message is valid.
pub open spec fn frame_is_valid(frame: FrameContent) -> bool {
    match frame {
        FrameContent::Video { width, height, pixels } => pixels.len() == width * height * 4,
        FrameContent::Control { json } => true,
    }
}

/// The bytes that stand for `frame` on the wire.
pub open spec fn spec_encode(frame: FrameContent) -> Seq<u8> {
    match frame {
        FrameContent::Video { width, height, pixels } => seq![TAG_VIDEO] + le_bytes(width)
            + le_bytes(height) + swap_red_blue(pixels),
        FrameContent::Control { json } => seq![TAG_CONTROL] + encode_utf8(json),
    }
}

/// The frame that `bytes` stand for, or the reason why they stand for none.
pub open spec fn spec_decode(bytes: Seq<u8>) -> Result<FrameContent, DecodeError> {
    if bytes.len() == 0 {
        Err(DecodeError::Empty)
    } else if bytes[0] == TAG_VIDEO {
        if bytes.len() < VIDEO_HEADER_LEN {
            Err(DecodeError::TruncatedHeader)
        } else {
            let width = le_value(bytes.subrange(1, 5));
            let height = le_value(bytes.subrange(5, 9));
            let payload = bytes.subrange(9, bytes.len() as int);
            if payload.len() == width * height * 4 {
                Ok(FrameContent::Video { width, height, pixels: swap_red_blue(payload) })
            } else {
                Err(DecodeError::PixelCountMismatch)
            }
        }
    } else if bytes[0] == TAG_CONTROL {
        let payload = bytes.subrange(1, bytes.len() as int);
        if valid_utf8(payload) {
            Ok(FrameContent::Control { json: decode_utf8(payload) })
        } else {
            Err(DecodeError::InvalidText)
        }
    } else {
        Err(DecodeError::UnknownTag { tag: bytes[0] })
    }
}

/// Exchanging red and blue twice gives the buffer back.
pub proof fn lemma_swap_red_blue_involution(pixels: Seq<u8>)
    ensures
        swap_red_blue(swap_red_blue(pixels)) == pixels,
{
    assert(swap_red_blue(swap_red_blue(pixels)) =~= pixels);
}

/// Reading the little-endian bytes of an integer gives the integer back.
pub proof fn lemma_le_round_trip(value: u32)
    ensures
        le_bytes(value).len() == 4,
        le_value(le_bytes(value)) == value,
{
    assert(((value & 0xff) as u8 as u32) | ((((value >> 8) & 0xff) as u8 as u32) << 8) | ((((value
        >> 16) & 0xff) as u8 as u32) << 16) | ((((value >> 24) & 0xff) as u8 as u32) << 24)
        == value) by (bit_vector);
}

/// Decoding what was encoded gives the frame back: `decode(encode(f)) == f`
/// for every valid frame `f`.
pub proof fn lemma_decode_encode(frame: FrameContent)
    requires
        frame_is_valid(frame),
    ensures
        spec_decode(spec_encode(frame)) == Ok::<FrameContent, DecodeError>(frame),
{
    let bytes = spec_encode(frame);
    match frame {
        FrameContent::Video { width, height, pixels } => {
            lemma_le_round_trip(width);
            lemma_le_round_trip(height);
            lemma_swap_red_blue_involution(pixels);
            assert(bytes.subrange(1, 5) =~= le_bytes(width));
            assert(bytes.subrange(5, 9) =~= le_bytes(height));
            assert(bytes.subrange(9, bytes.len() as int) =~= swap_red_blue(pixels));
        },
        FrameContent::Control { json } => {
            encode_utf8_valid_utf8(json);
            encode_utf8_decode_utf8(json);
            assert(bytes.subrange(1, bytes.len() as int) =~= encode_utf8(json));
        },
    }
}

/// The payload of an encoded video frame, with red and blue exchanged once
/// more by hand, is the producer's buffer.
pub proof fn lemma_encoded_payload_restores(width: u32, height: u32, pixels: Seq<u8>)
    ensures
        ({
            let bytes = spec_encode(FrameContent::Video { width, height, pixels });
            swap_red_blue(bytes.subrange(VIDEO_HEADER_LEN as int, bytes.len() as int)) == pixels
        }),
{
    let bytes = spec_encode(FrameContent::Video { width, height, pixels });
    lemma_swap_red_blue_involution(pixels);
    assert(bytes.subrange(9, bytes.len() as int) =~= swap_red_blue(pixels));
}

/// Exchanges the first and third byte of every complete pixel, in place.
pub fn swap_red_blue_in_place(pixels: &mut Vec<u8>)
    ensures
        final(pixels)@ == swap_red_blue(old(pixels)@),
{
    let ghost before = pixels@;
    let count: usize = pixels.len() / 4;
    let mut k: usize = 0;
    while k < count
        invariant
            count == before.len() / 4,
            4 * count <= before.len() <= usize::MAX,
            k <= count,
            pixels@.len() == before.len(),
            forall|j: int| 0 <= j < 4 * k ==> pixels@[j] == swap_red_blue(before)[j],
            forall|j: int| 4 * k <= j < before.len() ==> pixels@[j] == before[j],
        decreases count - k,
    {
        let at: usize = 4 * k;
        let blue: u8 = pixels[at];
        let red: u8 = pixels[at + 2];
        pixels.set(at, red);
        pixels.set(at + 2, blue);
        k = k + 1;
    }
    assert(pixels@ =~= swap_red_blue(before));
}

/// Appends `source` to `out`.
pub fn append_bytes(out: &mut Vec<u8>, source: &[u8])
    ensures
        final(out)@ == old(out)@ + source@,
{
    let ghost before = out@;
    let mut i: usize = 0;
    while i < source.len()
        invariant
            i <= source.len(),
            out@ == before + source@.subrange(0, i as int),
        decreases source.len() - i,
    {
        out.push(source[i]);
        i = i + 1;
        assert(out@ =~= before + source@.subrange(0, i as int));
    }
    assert(source@.subrange(0, source.len() as int) =~= source@);
}

/// Appends the little-endian bytes of `value` to `out`.
pub fn append_le(out: &mut Vec<u8>, value: u32)
    ensures
        final(out)@ == old(out)@ + le_bytes(value),
{
    let ghost before = out@;
    out.push((value & 0xff) as u8);
    out.push(((value >> 8) & 0xff) as u8);
    out.push(((value >> 16) & 0xff) as u8);
    out.push(((value >> 24) & 0xff) as u8);
    assert(out@ =~= before + le_bytes(value));
}

/// Reads a little-endian integer from the four bytes of `bytes` that begin at
/// `at`.
pub fn read_le(bytes: &[u8], at: usize) -> (value: u32)
    requires
        at + 4 <= bytes@.len(),
    ensures
        value == le_value(bytes@.subrange(at as int, at + 4)),
{
    let b0: u32 = bytes[at] as u32;
    let b1: u32 = bytes[at + 1] as u32;
    let b2: u32 = bytes[at + 2] as u32;
    let b3: u32 = bytes[at + 3] as u32;
    b0 | (b1 << 8) | (b2 << 16) | (b3 << 24)
}

/// The bytes of `bytes` from `from` on, as a vector of their own.
pub fn tail_of(bytes: &[u8], from: usize) -> (tail: Vec<u8>)
    requires
        from <= bytes@.len(),
    ensures
        tail@ == bytes@.subrange(from as int, bytes@.len() as int),
{
    let mut tail: Vec<u8> = Vec::new();
    let mut i: usize = from;
    while i < bytes.len()
        invariant
            from <= i <= bytes@.len(),
            tail@ == bytes@.subrange(from as int, i as int),
        decreases bytes.len() - i,
    {
        tail.push(bytes[i]);
        i = i + 1;
        assert(tail@ =~= bytes@.subrange(from as int, i as int));
    }
    tail
}

/// `String::from_utf8` of std: the text that `bytes` encode, where they are
/// well-formed UTF-8, and nothing where they are not.
#[verifier::external_body]
fn text_of_utf8(bytes: Vec<u8>) -> (text: Option<String>)
    ensures
        text is Some <==> valid_utf8(bytes@),
        text matches Some(t) ==> t@ == decode_utf8(bytes@),
{
    String::from_utf8(bytes).ok()
}

/// Writes `frame` as the bytes of one transport message.
pub fn encode(frame: &RelayFrame) -> (bytes: Vec<u8>)
    ensures
        bytes@ == spec_encode(frame@),
{
    let mut out: Vec<u8> = Vec::new();
    match frame {
        RelayFrame::VideoFrame { width, height, pixels } => {
            out.push(TAG_VIDEO);
            append_le(&mut out, *width);
            append_le(&mut out, *height);
            let mut wire = tail_of(pixels.as_slice(), 0);
            assert(wire@ =~= pixels@);
            swap_red_blue_in_place(&mut wire);
            append_bytes(&mut out, wire.as_slice());
            assert(out@ =~= spec_encode(frame@));
        },
        RelayFrame::ControlMessage { json } => {
            out.push(TAG_CONTROL);
            append_bytes(&mut out, json.as_str().as_bytes());
            assert(out@ =~= spec_encode(frame@));
        },
    }
    out
}

/// Reads one transport message as a frame. The tag byte alone decides how the
/// rest is read; a message that its tag does not fit is refused with the
/// reason, and nothing else happens.
pub fn decode(bytes: &[u8]) -> (frame: Result<RelayFrame, DecodeError>)
    ensures
        match frame {
            Ok(f) => spec_decode(bytes@) == Ok::<FrameContent, DecodeError>(f@),
            Err(e) => spec_decode(bytes@) == Err::<FrameContent, DecodeError>(e),
        },
{
    if bytes.len() == 0 {
        return Err(DecodeError::Empty);
    }
    let tag: u8 = bytes[0];
    if tag == TAG_VIDEO {
        if bytes.len() < VIDEO_HEADER_LEN {
            return Err(DecodeError::TruncatedHeader);
        }
        let width: u32 = read_le(bytes, 1);
        let height: u32 = read_le(bytes, 5);
        let payload_len: usize = bytes.len() - VIDEO_HEADER_LEN;
        assert(width * height <= 0xffff_ffff * 0xffff_ffff) by (nonlinear_arith)
            requires
                width <= 0xffff_ffff,
                height <= 0xffff_ffff,
        ;
        let pixel_count: u64 = (width as u64) * (height as u64);
        if payload_len % 4 == 0 && (payload_len / 4) as u64 == pixel_count {
            let mut pixels = tail_of(bytes, VIDEO_HEADER_LEN);
            swap_red_blue_in_place(&mut pixels);
            Ok(RelayFrame::VideoFrame { width, height, pixels })
        } else {
            Err(DecodeError::PixelCountMismatch)
        }
    } else if tag == TAG_CONTROL {
        let payload = tail_of(bytes, 1);
        match text_of_utf8(payload) {
            Some(json) => Ok(RelayFrame::ControlMessage { json }),
            None => Err(DecodeError::InvalidText),
        }
    } else {
        Err(DecodeError::UnknownTag { tag })
    }
}

} // verus!
