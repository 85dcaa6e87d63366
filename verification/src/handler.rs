//! The handler through which the session engine reaches the front-end: what
//! the engine produces (pictures, cursor shapes and positions) is framed here
//! for the outbound queue.
//!
//! The handler owns the producing end of the queue, `V`. It frames and says
//! where the frame goes; pushing it is the caller's part.

use crate::codec::{
    append_bytes, append_le, spec_encode, swap_red_blue, swap_red_blue_in_place, FrameContent,
    TAG_CONTROL, TAG_VIDEO,
};
use crate::json::{json_object_text, members_view, write_object, JsonMember, JsonScalar, JsonValue};
use vstd::prelude::*;
use vstd::string::*;

verus! {

/// The producing side of the bridge.
pub struct ElectronUiHandler<V, I> {
    video_sender: Option<V>,
    input_sender: I,
}

/// A frame for the outbound queue, and the queue's producing end.
pub struct Outbound<'a, V> {
    pub sender: &'a V,
    pub frame: Vec<u8>,
}

/// How a connection to the remote side came about.
#[derive(Debug, Clone, Copy, PartialEq, Eq)]
pub enum ConnectionMode {
    /// Peer to peer.
    Direct,
    /// Through a relay server.
    Relay,
}

/// What `sodiumoxide::base64::encode` makes of `bytes` in the variant
/// `Original`.
pub uninterp spec fn base64_encoded(bytes: Seq<u8>) -> Seq<char>;

/// `sodiumoxide::base64::encode` with `Variant::Original`: the Base64 text of
/// `bytes` by RFC 4648, section 4, with padding. The result depends on `bytes`
/// alone.
#[verifier::external_body]
fn base64_text(bytes: &[u8]) -> (text: String)
    ensures
        text@ == base64_encoded(bytes@),
{
    sodiumoxide::base64::encode(bytes, sodiumoxide::base64::Variant::Original)
}

/// The members of the message that announces a cursor shape.
pub open spec fn cursor_data_members(
    id: u64,
    hotx: i32,
    hoty: i32,
    width: i32,
    height: i32,
    data: Seq<char>,
) -> Seq<(Seq<char>, JsonValue)> {
    seq![
        ("type"@, JsonValue::Text("cursor_data"@)),
        (
            "id"@,
            if id <= i64::MAX {
                JsonValue::Integer(id as i64)
            } else {
                JsonValue::Large(id)
            },
        ),
        ("hotx"@, JsonValue::Integer(hotx as i64)),
        ("hoty"@, JsonValue::Integer(hoty as i64)),
        ("width"@, JsonValue::Integer(width as i64)),
        ("height"@, JsonValue::Integer(height as i64)),
        ("data"@, JsonValue::Text(data)),
    ]
}

/// The members of the message that announces a cursor position.
pub open spec fn cursor_position_members(x: i32, y: i32) -> Seq<(Seq<char>, JsonValue)> {
    seq![
        ("type"@, JsonValue::Text("cursor_position"@)),
        ("x"@, JsonValue::Integer(x as i64)),
        ("y"@, JsonValue::Integer(y as i64)),
    ]
}

/// The lines that report an established connection.
pub open spec fn connection_report(is_secured: bool, direct: bool, stream_type: Seq<char>) -> Seq<
    Seq<char>,
> {
    seq![
        "Connection Established:"@,
        "  - Secured: "@ + bool_text(is_secured),
        "  - Direct (P2P): "@ + bool_text(direct),
        "  - Stream Type: '"@ + stream_type + "'"@,
        if direct {
            "  => Mode: Direct Connection"@
        } else {
            "  => Mode: Relay Connection"@
        },
    ]
}

/// `true` or `false`, written out.
pub open spec fn bool_text(value: bool) -> Seq<char> {
    if value {
        "true"@
    } else {
        "false"@
    }
}

/// A member with an integer value.
fn integer_member(key: &str, value: i64) -> (member: JsonMember)
    ensures
        member@ == (key@, JsonValue::Integer(value)),
{
    JsonMember { key: key.to_owned(), value: JsonScalar::Integer(value) }
}

/// A member with a string value.
fn text_member_of(key: &str, value: &str) -> (member: JsonMember)
    ensures
        member@ == (key@, JsonValue::Text(value@)),
{
    JsonMember { key: key.to_owned(), value: JsonScalar::Text(value.to_owned()) }
}

/// Frames the text of a JSON document as a control message.
pub fn control_frame(json: &str) -> (frame: Vec<u8>)
    ensures
        frame@ == spec_encode(FrameContent::Control { json: json@ }),
{
    let mut frame: Vec<u8> = Vec::new();
    frame.push(TAG_CONTROL);
    append_bytes(&mut frame, json.as_bytes());
    assert(frame@ =~= spec_encode(FrameContent::Control { json: json@ }));
    frame
}

/// The control message that announces a cursor shape: the hot spot, the size
/// and the picture, which travels as Base64 text.
pub fn cursor_data_frame(
    id: u64,
    hotx: i32,
    hoty: i32,
    width: i32,
    height: i32,
    colors: &[u8],
) -> (frame: Vec<u8>)
    ensures
        frame@ == spec_encode(
            FrameContent::Control {
                json: json_object_text(
                    cursor_data_members(id, hotx, hoty, width, height, base64_encoded(colors@)),
                ),
            },
        ),
{
    let data = base64_text(colors);
    let mut members: Vec<JsonMember> = Vec::new();
    members.push(text_member_of("type", "cursor_data"));
    if id <= 0x7fff_ffff_ffff_ffff {
        members.push(integer_member("id", id as i64));
    } else {
        members.push(JsonMember { key: "id".to_owned(), value: JsonScalar::Large(id) });
    }
    members.push(integer_member("hotx", hotx as i64));
    members.push(integer_member("hoty", hoty as i64));
    members.push(integer_member("width", width as i64));
    members.push(integer_member("height", height as i64));
    members.push(text_member_of("data", data.as_str()));
    assert(members_view(members@) =~= cursor_data_members(
        id,
        hotx,
        hoty,
        width,
        height,
        base64_encoded(colors@),
    ));
    let json = write_object(&members);
    control_frame(json.as_str())
}

/// The control message that announces a cursor position.
pub fn cursor_position_frame(x: i32, y: i32) -> (frame: Vec<u8>)
    ensures
        frame@ == spec_encode(
            FrameContent::Control { json: json_object_text(cursor_position_members(x, y)) },
        ),
{
    let mut members: Vec<JsonMember> = Vec::new();
    members.push(text_member_of("type", "cursor_position"));
    members.push(integer_member("x", x as i64));
    members.push(integer_member("y", y as i64));
    assert(members_view(members@) =~= cursor_position_members(x, y));
    let json = write_object(&members);
    control_frame(json.as_str())
}

/// Frames a picture of the producer. The producer's buffer holds blue, green,
/// red, alpha; its first and third byte of every pixel are exchanged in place,
/// and the frame carries the buffer as it then is.
pub fn video_frame(width: u32, height: u32, raw: &mut Vec<u8>) -> (frame: Vec<u8>)
    ensures
        final(raw)@ == swap_red_blue(old(raw)@),
        frame@ == spec_encode(FrameContent::Video { width, height, pixels: old(raw)@ }),
{
    swap_red_blue_in_place(raw);
    let mut frame: Vec<u8> = Vec::new();
    frame.push(TAG_VIDEO);
    append_le(&mut frame, width);
    append_le(&mut frame, height);
    append_bytes(&mut frame, raw.as_slice());
    assert(frame@ =~= spec_encode(FrameContent::Video { width, height, pixels: old(raw)@ }));
    frame
}

/// `true` or `false`, written out.
fn text_of_bool(value: bool) -> (text: &'static str)
    ensures
        text@ == bool_text(value),
{
    if value {
        "true"
    } else {
        "false"
    }
}

impl<V, I> ElectronUiHandler<V, I> {
    /// The producing end of the outbound queue, if the handler has one.
    pub closed spec fn video_sender(&self) -> Option<V> {
        self.video_sender
    }

    /// The binding through which input reaches the session engine.
    pub closed spec fn input_sender(&self) -> I {
        self.input_sender
    }

    /// A handler that feeds the queue behind `video_sender`.
    pub fn new(video_sender: V, input_sender: I) -> (handler: Self)
        ensures
            handler.video_sender() == Some(video_sender),
            handler.input_sender() == input_sender,
    {
        ElectronUiHandler { video_sender: Some(video_sender), input_sender }
    }

    /// A handler without a queue: what the engine produces through it is
    /// framed and then dropped.
    pub fn detached(input_sender: I) -> (handler: Self)
        ensures
            handler.video_sender() is None,
            handler.input_sender() == input_sender,
    {
        ElectronUiHandler { video_sender: None, input_sender }
    }

    /// The binding through which input reaches the session engine.
    pub fn input(&self) -> (input: &I)
        ensures
            *input == self.input_sender(),
    {
        &self.input_sender
    }

    /// Pairs a frame with the queue's producing end, where there is one.
    fn outbound(&self, frame: Vec<u8>) -> (out: Option<Outbound<'_, V>>)
        ensures
            match out {
                Some(o) => self.video_sender() == Some(*o.sender) && o.frame == frame,
                None => self.video_sender() is None,
            },
    {
        match &self.video_sender {
            Some(sender) => Some(Outbound { sender, frame }),
            None => None,
        }
    }

    /// Takes a picture of display `display` from the engine: exchanges red and
    /// blue in the engine's buffer and frames it. The frame goes to the queue
    /// where the handler has one.
    pub fn on_rgba(
        &self,
        display: usize,
        width: u32,
        height: u32,
        raw: &mut Vec<u8>,
    ) -> (out: Option<Outbound<'_, V>>)
        ensures
            final(raw)@ == swap_red_blue(old(raw)@),
            match out {
                Some(o) => self.video_sender() == Some(*o.sender) && o.frame@ == spec_encode(
                    FrameContent::Video { width, height, pixels: old(raw)@ },
                ),
                None => self.video_sender() is None,
            },
    {
        let frame = video_frame(width, height, raw);
        self.outbound(frame)
    }

    /// Takes a cursor shape from the engine and frames the message that
    /// announces it.
    pub fn set_cursor_data(
        &self,
        id: u64,
        hotx: i32,
        hoty: i32,
        width: i32,
        height: i32,
        colors: &[u8],
    ) -> (out: Option<Outbound<'_, V>>)
        ensures
            match out {
                Some(o) => self.video_sender() == Some(*o.sender) && o.frame@ == spec_encode(
                    FrameContent::Control {
                        json: json_object_text(
                            cursor_data_members(
                                id,
                                hotx,
                                hoty,
                                width,
                                height,
                                base64_encoded(colors@),
                            ),
                        ),
                    },
                ),
                None => self.video_sender() is None,
            },
    {
        if self.video_sender.is_none() {
            return None;
        }
        let frame = cursor_data_frame(id, hotx, hoty, width, height, colors);
        self.outbound(frame)
    }

    /// Takes a cursor position from the engine and frames the message that
    /// announces it.
    pub fn set_cursor_position(&self, x: i32, y: i32) -> (out: Option<Outbound<'_, V>>)
        ensures
            match out {
                Some(o) => self.video_sender() == Some(*o.sender) && o.frame@ == spec_encode(
                    FrameContent::Control { json: json_object_text(cursor_position_members(x, y)) },
                ),
                None => self.video_sender() is None,
            },
    {
        if self.video_sender.is_none() {
            return None;
        }
        let frame = cursor_position_frame(x, y);
        self.outbound(frame)
    }

    /// Takes note of how the connection to the remote side came about, and
    /// gives the lines that report it.
    pub fn set_connection_type(
        &self,
        is_secured: bool,
        direct: bool,
        stream_type: &str,
    ) -> (report: (ConnectionMode, Vec<String>))
        ensures
            report.0 == if direct {
                ConnectionMode::Direct
            } else {
                ConnectionMode::Relay
            },
            report.1.deep_view() == connection_report(is_secured, direct, stream_type@),
    {
        let mut lines: Vec<String> = Vec::new();
        lines.push("Connection Established:".to_owned());
        lines.push(String::from_str("  - Secured: ").concat(text_of_bool(is_secured)));
        lines.push(String::from_str("  - Direct (P2P): ").concat(text_of_bool(direct)));
        lines.push(String::from_str("  - Stream Type: '").concat(stream_type).concat("'"));
        let mode = if direct {
            lines.push("  => Mode: Direct Connection".to_owned());
            ConnectionMode::Direct
        } else {
            lines.push("  => Mode: Relay Connection".to_owned());
            ConnectionMode::Relay
        };
        assert(lines.deep_view() =~= connection_report(is_secured, direct, stream_type@));
        (mode, lines)
    }
}

} // verus!
