use sdfdesk_bridge::codec::{decode, RelayFrame};
use sdfdesk_bridge::handler::{
    control_frame, cursor_data_frame, cursor_position_frame, video_frame, ConnectionMode,
    ElectronUiHandler,
};
use sdfdesk_bridge::json::{find_i32, find_member, find_text, JsonMember, JsonScalar};
use sdfdesk_bridge::text::{parse_i32, parse_integer, parse_u32, str_equals, INTEGER_LIMIT};

fn json_of(frame: &[u8]) -> String {
    match decode(frame) {
        Ok(RelayFrame::ControlMessage { json }) => json,
        other => panic!("not a control message: {:?}", other),
    }
}

#[test]
fn cursor_position_message_names_its_type_and_coordinates() {
    let frame = cursor_position_frame(12, -7);
    assert_eq!(frame[0], 1);
    assert_eq!(json_of(&frame), r#"{"type":"cursor_position","x":12,"y":-7}"#);
}

#[test]
fn cursor_data_message_carries_the_picture_as_base64() {
    let frame = cursor_data_frame(42, 1, 2, 16, 32, b"foobar");
    assert_eq!(frame[0], 1);
    assert_eq!(
        json_of(&frame),
        r#"{"data":"Zm9vYmFy","height":32,"hotx":1,"hoty":2,"id":42,"type":"cursor_data","width":16}"#
    );
}

#[test]
fn cursor_data_message_pads_the_base64_text() {
    assert!(json_of(&cursor_data_frame(0, 0, 0, 0, 0, b"f")).contains(r#""data":"Zg==""#));
    assert!(json_of(&cursor_data_frame(0, 0, 0, 0, 0, b"fo")).contains(r#""data":"Zm8=""#));
    assert!(json_of(&cursor_data_frame(0, 0, 0, 0, 0, b"")).contains(r#""data":"""#));
    assert!(json_of(&cursor_data_frame(0, 0, 0, 0, 0, &[0xfb, 0xff])).contains(r#""data":"+/8=""#));
}

#[test]
fn cursor_data_message_keeps_a_large_id() {
    let json = json_of(&cursor_data_frame(u64::MAX, -1, -2, 3, 4, &[]));
    assert!(json.contains(r#""id":18446744073709551615"#));
    assert!(json.contains(r#""hotx":-1"#));
    let json = json_of(&cursor_data_frame(i64::MAX as u64, 0, 0, 0, 0, &[]));
    assert!(json.contains(r#""id":9223372036854775807"#));
}

#[test]
fn control_frame_is_tag_and_text() {
    assert_eq!(control_frame("{}"), vec![1, b'{', b'}']);
    assert_eq!(control_frame(""), vec![1]);
}

#[test]
fn video_frame_swaps_the_buffer_in_place() {
    let mut raw = vec![1, 2, 3, 4, 5, 6, 7, 8];
    let frame = video_frame(2, 1, &mut raw);
    assert_eq!(raw, vec![3, 2, 1, 4, 7, 6, 5, 8]);
    assert_eq!(frame, vec![0, 2, 0, 0, 0, 1, 0, 0, 0, 3, 2, 1, 4, 7, 6, 5, 8]);
    assert_eq!(
        decode(&frame),
        Ok(RelayFrame::VideoFrame { width: 2, height: 1, pixels: vec![1, 2, 3, 4, 5, 6, 7, 8] })
    );
}

#[test]
fn handler_frames_for_its_queue() {
    let handler = ElectronUiHandler::new(5u8, "binding");
    assert_eq!(*handler.input(), "binding");
    let mut raw = vec![9, 8, 7, 6];
    let out = handler.on_rgba(0, 1, 1, &mut raw).expect("the handler has a queue");
    assert_eq!(*out.sender, 5u8);
    assert_eq!(out.frame, vec![0, 1, 0, 0, 0, 1, 0, 0, 0, 7, 8, 9, 6]);
    assert_eq!(raw, vec![7, 8, 9, 6]);
    let out = handler.set_cursor_position(3, 4).expect("the handler has a queue");
    assert_eq!(out.frame, cursor_position_frame(3, 4));
    let out = handler.set_cursor_data(1, 2, 3, 4, 5, b"abc").expect("the handler has a queue");
    assert_eq!(out.frame, cursor_data_frame(1, 2, 3, 4, 5, b"abc"));
}

#[test]
fn handler_without_a_queue_sends_nothing() {
    let handler: ElectronUiHandler<u8, ()> = ElectronUiHandler::detached(());
    let mut raw = vec![9, 8, 7, 6];
    assert!(handler.on_rgba(0, 1, 1, &mut raw).is_none());
    assert_eq!(raw, vec![7, 8, 9, 6]);
    assert!(handler.set_cursor_position(3, 4).is_none());
    assert!(handler.set_cursor_data(1, 2, 3, 4, 5, b"abc").is_none());
}

#[test]
fn connection_report_tells_direct_from_relay() {
    let handler = ElectronUiHandler::new((), ());
    let (mode, lines) = handler.set_connection_type(true, true, "video");
    assert_eq!(mode, ConnectionMode::Direct);
    assert_eq!(
        lines,
        vec![
            "Connection Established:".to_string(),
            "  - Secured: true".to_string(),
            "  - Direct (P2P): true".to_string(),
            "  - Stream Type: 'video'".to_string(),
            "  => Mode: Direct Connection".to_string(),
        ]
    );
    let (mode, lines) = handler.set_connection_type(false, false, "");
    assert_eq!(mode, ConnectionMode::Relay);
    assert_eq!(
        lines,
        vec![
            "Connection Established:".to_string(),
            "  - Secured: false".to_string(),
            "  - Direct (P2P): false".to_string(),
            "  - Stream Type: ''".to_string(),
            "  => Mode: Relay Connection".to_string(),
        ]
    );
}

#[test]
fn members_are_found_by_their_first_key() {
    let members = vec![
        JsonMember { key: "a".to_string(), value: JsonScalar::Integer(1) },
        JsonMember { key: "b".to_string(), value: JsonScalar::Text("x".to_string()) },
        JsonMember { key: "a".to_string(), value: JsonScalar::Integer(2) },
        JsonMember { key: "big".to_string(), value: JsonScalar::Integer(1 << 40) },
        JsonMember { key: "low".to_string(), value: JsonScalar::Integer(i32::MIN as i64) },
        JsonMember { key: "o".to_string(), value: JsonScalar::Other },
    ];
    assert_eq!(find_member(&members, "a"), Some(&JsonScalar::Integer(1)));
    assert_eq!(find_member(&members, "o"), Some(&JsonScalar::Other));
    assert_eq!(find_member(&members, "c"), None);
    assert_eq!(find_member(&members, ""), None);
    assert_eq!(find_i32(&members, "a"), Some(1));
    assert_eq!(find_i32(&members, "b"), None);
    assert_eq!(find_i32(&members, "big"), None);
    assert_eq!(find_i32(&members, "low"), Some(i32::MIN));
    assert_eq!(find_text(&members, "b"), Some("x"));
    assert_eq!(find_text(&members, "a"), None);
    assert_eq!(find_text(&members, "none"), None);
}

#[test]
fn strings_are_equal_when_their_characters_are() {
    assert!(str_equals("", ""));
    assert!(str_equals("abc", "abc"));
    assert!(str_equals("é→", "é→"));
    assert!(!str_equals("abc", "abd"));
    assert!(!str_equals("abc", "ab"));
    assert!(!str_equals("", "a"));
    assert!(!str_equals("e", "é"));
}

#[test]
fn integers_are_read_with_an_optional_sign() {
    assert_eq!(parse_integer("0"), Some(0));
    assert_eq!(parse_integer("42"), Some(42));
    assert_eq!(parse_integer("+42"), Some(42));
    assert_eq!(parse_integer("-42"), Some(-42));
    assert_eq!(parse_integer("-0"), Some(0));
    assert_eq!(parse_integer("007"), Some(7));
    assert_eq!(parse_integer("4294967296"), Some(INTEGER_LIMIT));
    assert_eq!(parse_integer("-4294967296"), Some(-INTEGER_LIMIT));
    assert_eq!(parse_integer("4294967297"), None);
    assert_eq!(parse_integer("000000000000000000000000000012"), Some(12));
    assert_eq!(parse_integer("99999999999999999999999999"), None);
    assert_eq!(parse_integer(""), None);
    assert_eq!(parse_integer("+"), None);
    assert_eq!(parse_integer("-"), None);
    assert_eq!(parse_integer("+-1"), None);
    assert_eq!(parse_integer("1 "), None);
    assert_eq!(parse_integer(" 1"), None);
    assert_eq!(parse_integer("1a"), None);
    assert_eq!(parse_integer("١٢"), None);
    assert_eq!(parse_integer("1é"), None);
}

#[test]
fn thirty_two_bit_integers_keep_to_their_range() {
    assert_eq!(parse_i32("2147483647"), Some(i32::MAX));
    assert_eq!(parse_i32("-2147483648"), Some(i32::MIN));
    assert_eq!(parse_i32("2147483648"), None);
    assert_eq!(parse_i32("-2147483649"), None);
    assert_eq!(parse_i32("+5"), Some(5));
    assert_eq!(parse_i32("x"), None);
    assert_eq!(parse_u32("4294967295"), Some(u32::MAX));
    assert_eq!(parse_u32("4294967296"), None);
    assert_eq!(parse_u32("+0"), Some(0));
    assert_eq!(parse_u32("-0"), None);
    assert_eq!(parse_u32("-1"), None);
    assert_eq!(parse_u32(""), None);
    for text in ["0", "12", "+12", "-12", "-0", "99999999999", "", "+", "1x"] {
        assert_eq!(parse_i32(text), text.parse::<i32>().ok());
        assert_eq!(parse_u32(text), text.parse::<u32>().ok());
    }
}
