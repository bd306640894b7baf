use plugin_base::codec::{
    cstr_to_string, get_code_msg_from_ret, make_return_code_msg, str_to_cstr, str_to_cstr_ret, PluginReturn,
};
use plugin_base::desc::{UiButton, UiCheckbox, UiType, CONFIG_VALUE_TRUE};
use plugin_base::handler::{ConfigToUi, MsgFromUi, MsgListenEvent, MsgToConfig, MsgToUi, CONFIG_TYPE_SHARED};
use plugin_base::plog::{log_record, LOG_LEVEL_DEBUG, LOG_LEVEL_ERROR, LOG_LEVEL_INFO, LOG_LEVEL_TRACE, LOG_LEVEL_WARN};
use plugin_base::template::PluginPeerMsg;
use plugin_base::template_desc::{get_desc, get_desc_string};

#[test]
fn test_event_ui_to_string() {
    let msg = MsgToConfig::new_string(
        CONFIG_TYPE_SHARED.to_owned(),
        "msg key".to_owned(),
        CONFIG_VALUE_TRUE.to_owned(),
        None,
    );
    println!("msg to ui: {}", msg);
    assert_eq!(msg, r#"{"type":"shared","key":"msg key","value":"1"}"#);
    let msg = MsgToUi::new_msg_msgbox("custom-nocancel", "Plugin title", "Failed unknown", "");
    println!("msg to msgbox: {}", msg.to_json());
    assert_eq!(
        msg.to_json(),
        r#"{"t":"MsgBox","c":{"type":"custom-nocancel","title":"Plugin title","text":"Failed unknown","link":""}}"#
    );
}

#[test]
fn test_ui_to_string() {
    let ui = UiType::Button(UiButton {
        key: "key".to_string(),
        text: "text".to_string(),
        icon: "icon".to_string(),
        tooltip: "tooltip".to_string(),
        action: "action".to_string(),
    });
    println!("ui button: {}", ui.to_json());
    assert_eq!(
        ui.to_json(),
        r#"{"t":"Button","c":{"key":"key","text":"text","icon":"icon","tooltip":"tooltip","action":"action"}}"#
    );
    let ui = UiType::Checkbox(UiCheckbox {
        key: "key".to_string(),
        text: "text".to_string(),
        tooltip: "tooltip".to_string(),
        action: "action".to_string(),
    });
    println!("ui checkbox: {}", ui.to_json());
    assert_eq!(
        ui.to_json(),
        r#"{"t":"Checkbox","c":{"key":"key","text":"text","tooltip":"tooltip","action":"action"}}"#
    );
}

#[test]
fn test_log_default() {
    for (level, msg) in [
        (LOG_LEVEL_TRACE, "trace"),
        (LOG_LEVEL_DEBUG, "debug"),
        (LOG_LEVEL_INFO, "info"),
        (LOG_LEVEL_WARN, "warn"),
        (LOG_LEVEL_ERROR, "error"),
    ] {
        let (l, m) = log_record(level, msg);
        let mut expected = msg.as_bytes().to_vec();
        expected.push(0);
        assert_eq!(l, expected);
        assert_eq!(m, expected);
    }
}

#[test]
fn config_message_with_ui_channel() {
    let msg = MsgToConfig::new_string(
        "peer".to_owned(),
        "peer-opt".to_owned(),
        "0".to_owned(),
        Some(ConfigToUi { channel: 260, location: "here".to_owned() }),
    );
    assert_eq!(
        msg,
        r#"{"type":"peer","key":"peer-opt","value":"0","ui":{"channel":260,"location":"here"}}"#
    );
}

#[test]
fn json_strings_are_escaped() {
    let s = PluginPeerMsg::new_string("a\"b\\c\n".to_owned());
    assert_eq!(s, r#"{"f1":"a\"b\\c\n"}"#);
}

#[test]
fn ui_message_parses_and_rejects() {
    let m = MsgFromUi::from_json(
        r#"{"id":"i","name":"n","location":"l","key":"k","value":"v","action":"a","extra":3}"#,
    )
    .unwrap();
    assert_eq!((m.id.as_str(), m.location.as_str(), m.value.as_str()), ("i", "l", "v"));
    assert!(MsgFromUi::from_json(r#"{"id":"i","name":"n"}"#).is_none());
    assert!(MsgFromUi::from_json("{not json}").is_none());
    assert!(MsgFromUi::from_json(
        r#"{"id":1,"name":"n","location":"l","key":"k","value":"v","action":"a"}"#
    )
    .is_none());
    let e = MsgListenEvent::from_json(r#"{"event":"on_conn_client"}"#).unwrap();
    assert_eq!(e.event, "on_conn_client");
}

#[test]
fn return_round_trip_examples() {
    assert!(make_return_code_msg(0, "anything").is_none());
    let b = make_return_code_msg(10301, "bad").unwrap();
    assert_eq!(b, vec![0x3d, 0x28, 0, 0, b'b', b'a', b'd', 0]);
    assert_eq!(get_code_msg_from_ret(&b), (10301, "bad".to_owned()));
    for (code, msg) in [(-1, ""), (i32::MIN, "x"), (i32::MAX, "héllo ✓"), (7, "")] {
        let r = PluginReturn::new(code, msg);
        let enc = r.encode().unwrap();
        let back = PluginReturn::decode(Some(&enc));
        assert_eq!((back.code, back.msg.as_str()), (code, msg));
    }
}

#[test]
fn success_has_no_buffer() {
    let r = PluginReturn::new(0, "ignored");
    assert!(r.is_success());
    assert_eq!(r.msg, "");
    assert!(r.encode().is_none());
    let back = PluginReturn::decode(None);
    assert_eq!(back.get_code_msg(), (0, String::new()));
}

#[test]
fn decode_stops_at_terminator_and_drops_bad_utf8() {
    let b = [1u8, 0, 0, 0, b'o', b'k', 0, b'x'];
    assert_eq!(get_code_msg_from_ret(&b), (1, "ok".to_owned()));
    let b = [2u8, 0, 0, 0, 0xff, 0xfe, 0];
    assert_eq!(get_code_msg_from_ret(&b), (2, String::new()));
    assert_eq!(cstr_to_string(b"abc\0def"), Some("abc".to_owned()));
    assert_eq!(cstr_to_string(&[0xc3, 0x28, 0]), None);
    assert_eq!(str_to_cstr_ret("hi"), vec![b'h', b'i', 0]);
    assert_eq!(str_to_cstr("hi"), vec![b'h', b'i']);
}

#[test]
fn template_descriptor_json() {
    let d = get_desc();
    assert_eq!(d.id, "TemplateTestIdRust");
    let s = get_desc_string();
    assert!(s.starts_with(r#"{"id":"TemplateTestIdRust","name":"RustDesk Plugin Template","version":"v0.1.0","description":"","#));
    assert!(s.contains(r#""location":{"ui":{"host|main|settings|plugin":{"t":"Checkbox","c":{"key":"allow-opt","text":"Allow option","tooltip":"","action":""}},"client|remote|toolbar|display":{"t":"Checkbox","#));
    assert!(s.ends_with(r#""config":{"shared":[{"key":"allow-opt","default":"0","description":"Allow option"}],"peer":[{"key":"peer-opt","default":"0","description":"Trigger option on peer side"}]}}"#));
}
