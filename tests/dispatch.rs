use plugin_base::call::{plugin_call, resume_call, CallOutcome, CallStep};
use plugin_base::errno::{
    ERR_CALL_INVALID_ARGS, ERR_CALL_INVALID_METHOD, ERR_CALL_INVALID_PEER, ERR_CALL_NOT_SUPPORTED_METHOD,
    ERR_PEER_ID_MISMATCH, ERR_PEER_ON_FAILED, ERR_PLUGIN_MSG_GET_LOCAL_PEER_ID, ERR_PLUGIN_MSG_INIT,
    ERR_PLUGIN_MSG_INIT_INVALID,
};
use plugin_base::init::{clear, init, reset, HostInitData, PluginState};
use plugin_base::peer::MsgPeer;
use plugin_base::template::{HandlerTemplate, PluginPeerMsg};
use plugin_base::template_desc::get_desc;

type State = PluginState<HandlerTemplate, u32>;

fn host(version: &str) -> Option<HostInitData<u32>> {
    Some(HostInitData { version: Some(version.as_bytes().to_vec()), cbs: 7 })
}

fn ready() -> State {
    let mut s = State::new();
    let r = init(&mut s, HandlerTemplate, get_desc(), host("1.0"));
    assert_eq!(r.code, 0);
    s
}

fn done(step: CallStep) -> CallOutcome {
    match step {
        CallStep::Done(o) => o,
        CallStep::NeedLocalPeerId(_) => panic!("call waits for the local peer id"),
    }
}

fn cstr(s: &str) -> Vec<u8> {
    let mut v = s.as_bytes().to_vec();
    v.push(0);
    v
}

fn peer_args(id: &str, method: &str, content: &str) -> Vec<u8> {
    let mut d = get_desc();
    d.id = id.to_owned();
    MsgPeer::new_string(&d, method.to_owned(), content.to_owned()).into_bytes()
}

#[test]
fn happy_path_outbound_peer_call() {
    let s = ready();
    let args = peer_args("TemplateTestIdRust", "on", r#"{"f1":"local"}"#);
    let o = done(plugin_call(&s, Some(b"handle_peer\0"), Some(b"peer123\0"), &args, true));
    assert_eq!(o.ret.code, 0);
    assert_eq!(o.ret.msg, "");
    assert!(o.ret.encode().is_none());
    assert!(o.out.is_none());
    assert_eq!(o.calls.len(), 1);
    assert_eq!(o.calls[0].peer, cstr("peer123"));
    assert_eq!(o.calls[0].target, cstr("peer"));
    assert_eq!(o.calls[0].id, cstr("TemplateTestIdRust"));
    let expected = r#"{"id":"TemplateTestIdRust","name":"RustDesk Plugin Template","method":"notify_on","content":""}"#;
    assert_eq!(o.calls[0].content, cstr(expected));
}

#[test]
fn inbound_notify_forwards_config_then_ui() {
    let s = ready();
    let args = peer_args("TemplateTestIdRust", "notify_on", "");
    let o = done(plugin_call(&s, Some(b"handle_peer\0"), Some(b"peer123\0"), &args, false));
    assert_eq!((o.ret.code, o.ret.msg.as_str()), (0, ""));
    assert!(o.out.is_none());
    assert_eq!(o.calls.len(), 2);
    assert_eq!(o.calls[0].peer, cstr("peer123"));
    assert_eq!(o.calls[0].target, cstr("config"));
    assert_eq!(o.calls[0].id, cstr("TemplateTestIdRust"));
    assert_eq!(
        o.calls[0].content,
        br#"{"type":"peer","key":"peer-opt","value":"1","ui":{"channel":4,"location":"client|remote|toolbar|display"}}"#.to_vec()
    );
    assert_eq!(o.calls[1].target, cstr("ui"));
    let mut ui = vec![4u8, 0u8];
    ui.extend_from_slice(
        br#"{"t":"MsgBox","c":{"type":"custom-nocancel","title":"Plugin title","text":"on","link":""}}"#,
    );
    assert_eq!(o.calls[1].content, ui);
}

#[test]
fn inbound_notify_failure_reports_code() {
    let s = ready();
    let args = peer_args("TemplateTestIdRust", "notify_on", "denied");
    let o = done(plugin_call(&s, Some(b"handle_peer\0"), Some(b"peer123\0"), &args, false));
    assert_eq!((o.ret.code, o.ret.msg.as_str()), (ERR_PEER_ON_FAILED, "Failed to turn on denied"));
    assert_eq!(o.calls.len(), 2);
    assert_eq!(o.ret.encode().unwrap()[..4], ERR_PEER_ON_FAILED.to_le_bytes());
}

#[test]
fn bad_json_is_invalid_args() {
    let s = ready();
    let o = done(plugin_call(&s, Some(b"handle_ui\0"), Some(b"peer123\0"), b"{not json}\0", false));
    assert_eq!(o.ret.code, ERR_CALL_INVALID_ARGS);
    assert_eq!(o.ret.msg, "Failed to parse {not json}");
    assert!(o.calls.is_empty());
}

#[test]
fn unknown_method_is_named() {
    let s = ready();
    let o = done(plugin_call(&s, Some(b"handle_unknown\0"), Some(b"peer123\0"), b"", false));
    assert_eq!(o.ret.code, ERR_CALL_NOT_SUPPORTED_METHOD);
    assert!(o.ret.msg.contains("handle_unknown"));
    assert!(o.calls.is_empty());
}

#[test]
fn peer_id_mismatch_is_not_invalid_args() {
    let mut s = State::new();
    let mut d = get_desc();
    d.id = "this-plugin".to_owned();
    assert_eq!(init(&mut s, HandlerTemplate, d, host("1.0")).code, 0);
    let args = peer_args("other-plugin", "on", r#"{"f1":"x"}"#);
    for want_out in [true, false] {
        let o = done(plugin_call(&s, Some(b"handle_peer\0"), Some(b"peer123\0"), &args, want_out));
        assert_eq!(o.ret.code, ERR_PEER_ID_MISMATCH);
        assert_eq!(o.ret.msg, "Id mismatch other-plugin");
        assert!(o.calls.is_empty());
        assert!(o.out.is_none());
    }
}

#[test]
fn calls_before_init_or_after_clear_fail() {
    let s = State::new();
    let args = peer_args("TemplateTestIdRust", "on", r#"{"f1":"x"}"#);
    let o = done(plugin_call(&s, Some(b"handle_peer\0"), Some(b"peer123\0"), &args, true));
    assert_eq!(o.ret.code, ERR_PLUGIN_MSG_INIT);
    assert!(o.calls.is_empty() && o.out.is_none());
    let mut s = ready();
    assert_eq!(clear(&mut s).code, 0);
    let o = done(plugin_call(&s, Some(b"handle_ui\0"), Some(b"peer123\0"), b"{}\0", false));
    assert_eq!(o.ret.code, ERR_PLUGIN_MSG_INIT);
    assert!(o.calls.is_empty());
}

#[test]
fn missing_handler_or_desc_is_not_initialized() {
    let mut s = ready();
    s.handler = None;
    let o = done(plugin_call(&s, Some(b"handle_ui\0"), Some(b"p\0"), b"{}\0", false));
    assert_eq!((o.ret.code, o.ret.msg.as_str()), (ERR_PLUGIN_MSG_INIT, "Plugin handler must be set before calling any other functions"));
    let mut s = ready();
    s.desc = None;
    let o = done(plugin_call(&s, Some(b"handle_ui\0"), Some(b"p\0"), b"{}\0", false));
    assert_eq!((o.ret.code, o.ret.msg.as_str()), (ERR_PLUGIN_MSG_INIT, "Plugin desc must be set before calling any other functions"));
}

#[test]
fn clear_twice_succeeds() {
    let mut s = ready();
    assert_eq!(clear(&mut s).code, 0);
    assert!(s.init_data.is_none());
    let r = clear(&mut s);
    assert_eq!((r.code, r.msg.as_str()), (0, ""));
    assert!(s.init_data.is_none());
    assert!(s.handler.is_some() && s.desc.is_some());
}

#[test]
fn init_and_reset_reject_missing_data() {
    let mut s = State::new();
    let r = init(&mut s, HandlerTemplate, get_desc(), None);
    assert_eq!((r.code, r.msg.as_str()), (ERR_PLUGIN_MSG_INIT_INVALID, "Invalid InitData, null pointer"));
    assert!(s.init_data.is_none() && s.handler.is_none());
    let r = init(&mut s, HandlerTemplate, get_desc(), Some(HostInitData { version: None, cbs: 1 }));
    assert_eq!(r.code, ERR_PLUGIN_MSG_INIT_INVALID);
    let mut s = ready();
    assert_eq!(reset(&mut s, None).code, ERR_PLUGIN_MSG_INIT_INVALID);
    assert_eq!(s.init_data.as_ref().unwrap().version, b"1.0".to_vec());
    assert_eq!(reset(&mut s, host("2.0")).code, 0);
    let d = s.init_data.as_ref().unwrap();
    assert_eq!((d.version.as_slice(), d.cbs), (&b"2.0"[..], 7));
}

#[test]
fn null_method_and_bad_peer() {
    let s = ready();
    let o = done(plugin_call(&s, None, Some(b"p\0"), b"", false));
    assert_eq!((o.ret.code, o.ret.msg.as_str()), (ERR_CALL_INVALID_METHOD, "method is null"));
    let o = done(plugin_call(&s, Some(b"handle_ui\0"), Some(&[0xff, 0]), b"", false));
    assert_eq!(o.ret.code, ERR_CALL_INVALID_PEER);
    let o = done(plugin_call(&s, Some(b"handle_ui\0"), None, b"", false));
    assert_eq!(o.ret.code, ERR_CALL_INVALID_PEER);
}

fn ui_args(id: &str, value: &str) -> Vec<u8> {
    cstr(&format!(
        r#"{{"id":"{}","name":"n","location":"client|remote|toolbar|display","key":"peer-opt","value":"{}","action":""}}"#,
        id, value
    ))
}

#[test]
fn ui_event_sends_peer_request() {
    let s = ready();
    let step = plugin_call(&s, Some(b"handle_ui\0"), Some(b"peer123\0"), &ui_args("TemplateTestIdRust", "1"), false);
    let pending = match step {
        CallStep::NeedLocalPeerId(p) => p,
        CallStep::Done(_) => panic!("expected to wait for the local peer id"),
    };
    let o = resume_call(&s, pending, Some(b"local-id\0"));
    assert_eq!((o.ret.code, o.ret.msg.as_str()), (0, ""));
    assert_eq!(o.calls.len(), 1);
    assert_eq!(o.calls[0].target, cstr("peer"));
    let content = PluginPeerMsg::new_string("local-id".to_owned());
    assert_eq!(content, r#"{"f1":"local-id"}"#);
    let expected = MsgPeer::new_string(&get_desc(), "on".to_owned(), content);
    assert_eq!(o.calls[0].content, expected.into_bytes());
}

#[test]
fn ui_event_with_wrong_id_is_invalid_args() {
    let s = ready();
    let o = done(plugin_call(&s, Some(b"handle_ui\0"), Some(b"peer123\0"), &ui_args("other", "1"), false));
    assert_eq!((o.ret.code, o.ret.msg.as_str()), (ERR_CALL_INVALID_ARGS, "id mismatch"));
}

#[test]
fn bad_local_peer_id_fails() {
    let s = ready();
    for local in [Some(&[0xffu8, 0][..]), None] {
        let step = plugin_call(&s, Some(b"handle_ui\0"), Some(b"peer123\0"), &ui_args("TemplateTestIdRust", "0"), false);
        let pending = match step {
            CallStep::NeedLocalPeerId(p) => p,
            CallStep::Done(_) => panic!("expected to wait for the local peer id"),
        };
        let o = resume_call(&s, pending, local);
        assert_eq!((o.ret.code, o.ret.msg.as_str()), (ERR_PLUGIN_MSG_GET_LOCAL_PEER_ID, "parse local peer id"));
        assert!(o.calls.is_empty());
    }
}

#[test]
fn listen_event_reaches_handler() {
    let s = ready();
    let step = plugin_call(&s, Some(b"handle_listen_event\0"), Some(b"peer123\0"), b"{\"event\":\"bogus\"}\0", false);
    let pending = match step {
        CallStep::NeedLocalPeerId(p) => p,
        CallStep::Done(_) => panic!("expected to wait for the local peer id"),
    };
    let o = resume_call(&s, pending, Some(b"me\0"));
    assert_eq!((o.ret.code, o.ret.msg.as_str()), (ERR_CALL_INVALID_ARGS, "Invalid event bogus"));
    let o = done(plugin_call(&s, Some(b"handle_listen_event\0"), Some(b"peer123\0"), b"[]\0", false));
    assert_eq!((o.ret.code, o.ret.msg.as_str()), (ERR_CALL_INVALID_ARGS, "Failed to parse args"));
}
