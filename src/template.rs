//! A demonstration handler: a checkbox in the remote toolbar asks the peer's
//! plugin to turn an option on or off, and a checkbox in the host's settings
//! stores a shared option.
use vstd::prelude::*;
use vstd::string::StringExecFns;
use crate::desc::{Desc, CONFIG_VALUE_FALSE, CONFIG_VALUE_TRUE};
use crate::errno::{ERR_CALL_INVALID_ARGS, ERR_PEER_OFF_FAILED, ERR_PEER_ON_FAILED};
use crate::handler::{
    bare_ret,
    config_json,
    msgbox_json,
    ConfigToUi,
    Handler,
    HandlerRet,
    HandlerRetView,
    MsgFromUi,
    MsgFromUiView,
    MsgListenEvent,
    MsgToConfig,
    MsgToUi,
    Msgs,
    MsgsView,
    CONFIG_TYPE_PEER,
    CONFIG_TYPE_SHARED,
    MSG_TO_UI_FLUTTER_CHANNEL_MAIN,
    MSG_TO_UI_FLUTTER_CHANNEL_REMOTE,
};
use crate::json::{find_member, json_quote, json_string, object_text, parse_json_object};
use crate::peer::{peer_envelope_text, MsgPeer, MsgPeerView};
use crate::template_desc::{UI_CLIENT_REMOTE_KEY, UI_CLIENT_REMOTE_LOCATION, UI_HOST_MAIN_KEY, UI_HOST_MAIN_LOCATION};

verus! {

pub const MSG_PEER_METHOD_TURN_ON: &'static str = "on";
pub const MSG_PEER_METHOD_TURN_OFF: &'static str = "off";
pub const MSG_PEER_METHOD_NOTIFY_TURN_ON: &'static str = "notify_on";
pub const MSG_PEER_METHOD_NOTIFY_TURN_OFF: &'static str = "notify_off";

/// The content of an "on" or "off" envelope: the id of the peer that asks.
pub struct PluginPeerMsg {
    pub f1: String,
}

/// The JSON text of a `PluginPeerMsg`.
pub open spec fn plugin_peer_json(f1: Seq<char>) -> Seq<char> {
    "{\"f1\":"@ + json_string(f1) + "}"@
}

impl PluginPeerMsg {
    pub fn new_string(f1: String) -> (r: String)
        ensures
            r@ == plugin_peer_json(f1@),
    {
        let mut s = String::from_str("{\"f1\":");
        s.append(json_quote(f1.as_str()).as_str());
        s.append("}");
        s
    }

    /// Reads the content of an "on" or "off" envelope.
    pub fn from_json(s: &str) -> (r: Option<PluginPeerMsg>)
        ensures
            r is Some <==> object_text(s@, "f1"@) is Some,
            r matches Some(m) ==> object_text(s@, "f1"@) == Some(m.f1@),
    {
        let members = match parse_json_object(s) {
            Some(m) => m,
            None => return None,
        };
        match find_member(&members, "f1") {
            Some(f1) => Some(PluginPeerMsg { f1 }),
            None => None,
        }
    }
}

/// Whether `v` is one of the two values of a checkbox.
pub open spec fn is_check_value(v: Seq<char>) -> bool {
    v == CONFIG_VALUE_TRUE@ || v == CONFIG_VALUE_FALSE@
}

/// A result with the given code and message and the given messages.
pub open spec fn ret_with(code: i32, msg: Seq<char>, to_ui: Seq<Seq<char>>, to_config: Seq<Seq<char>>, to_peer: Seq<Seq<char>>) -> HandlerRetView {
    HandlerRetView { code, msg, msgs: MsgsView { to_ui, to_config, to_peer } }
}

/// The result for a UI event: a change of the remote toolbar's checkbox asks
/// the peer to turn the option on or off; a change of the settings checkbox
/// stores the shared option; anything else is left at the default result.
pub open spec fn template_ui_event(d: &Desc, local_peer_id: Seq<char>, m: MsgFromUiView) -> HandlerRetView {
    if m.location == UI_CLIENT_REMOTE_LOCATION@ && m.key == UI_CLIENT_REMOTE_KEY@ && is_check_value(m.value) {
        let method = if m.value == CONFIG_VALUE_FALSE@ {
            MSG_PEER_METHOD_TURN_OFF@
        } else {
            MSG_PEER_METHOD_TURN_ON@
        };
        ret_with(0, Seq::empty(), Seq::empty(), Seq::empty(), seq![peer_envelope_text(d, method, plugin_peer_json(local_peer_id))])
    } else if m.location == UI_HOST_MAIN_LOCATION@ && m.key == UI_HOST_MAIN_KEY@ && is_check_value(m.value) {
        ret_with(
            0,
            Seq::empty(),
            Seq::empty(),
            seq![config_json(CONFIG_TYPE_SHARED@, UI_HOST_MAIN_KEY@, m.value, Some((MSG_TO_UI_FLUTTER_CHANNEL_MAIN, UI_HOST_MAIN_LOCATION@)))],
            Seq::empty(),
        )
    } else {
        bare_ret(ERR_CALL_INVALID_ARGS, "Default return msg"@)
    }
}

/// The result for an outbound peer envelope: "on" and "off" carry a
/// `PluginPeerMsg` and are answered by a peer message "notify_on" or
/// "notify_off" with empty content. No response buffer is produced.
pub open spec fn template_client_event(d: &Desc, m: MsgPeerView) -> (HandlerRetView, Option<Seq<u8>>) {
    if m.method == MSG_PEER_METHOD_TURN_ON@ || m.method == MSG_PEER_METHOD_TURN_OFF@ {
        if object_text(m.content, "f1"@) is None {
            (bare_ret(ERR_CALL_INVALID_ARGS, "Failed to parse msg content "@ + m.content), None)
        } else {
            let reply = if m.method == MSG_PEER_METHOD_TURN_ON@ {
                MSG_PEER_METHOD_NOTIFY_TURN_ON@
            } else {
                MSG_PEER_METHOD_NOTIFY_TURN_OFF@
            };
            (ret_with(0, Seq::empty(), Seq::empty(), Seq::empty(), seq![peer_envelope_text(d, reply, Seq::empty())]), None)
        }
    } else {
        (bare_ret(ERR_CALL_INVALID_ARGS, "Invalid method "@ + m.method), None)
    }
}

/// The configuration change that records the peer option's value.
pub open spec fn peer_option_config(v: Seq<char>) -> Seq<char> {
    config_json(CONFIG_TYPE_PEER@, UI_CLIENT_REMOTE_KEY@, v, Some((MSG_TO_UI_FLUTTER_CHANNEL_REMOTE, UI_CLIENT_REMOTE_LOCATION@)))
}

/// The message box that tells the user how the peer answered.
pub open spec fn notice_json(text: Seq<char>) -> Seq<char> {
    msgbox_json("custom-nocancel"@, "Plugin title"@, text, Seq::empty())
}

/// The result for an inbound peer envelope: the peer's answer to "on" or
/// "off". Empty content means it succeeded; the option is stored and the
/// user told either way.
pub open spec fn template_server_event(m: MsgPeerView) -> HandlerRetView {
    if m.method == MSG_PEER_METHOD_NOTIFY_TURN_ON@ {
        if m.content.len() == 0 {
            ret_with(0, "success"@, seq![notice_json("on"@)], seq![peer_option_config(CONFIG_VALUE_TRUE@)], Seq::empty())
        } else {
            ret_with(
                ERR_PEER_ON_FAILED,
                "Failed to turn on "@ + m.content,
                seq![notice_json("Failed to turn on"@)],
                seq![peer_option_config(CONFIG_VALUE_FALSE@)],
                Seq::empty(),
            )
        }
    } else if m.method == MSG_PEER_METHOD_NOTIFY_TURN_OFF@ {
        if m.content.len() == 0 {
            ret_with(0, "success"@, seq![notice_json("off"@)], seq![peer_option_config(CONFIG_VALUE_FALSE@)], Seq::empty())
        } else {
            ret_with(
                ERR_PEER_OFF_FAILED,
                "Failed to turn off "@ + m.content,
                seq![notice_json("Failed to turn off"@)],
                seq![peer_option_config(CONFIG_VALUE_TRUE@)],
                Seq::empty(),
            )
        }
    } else {
        bare_ret(ERR_CALL_INVALID_ARGS, "Invalid method "@ + m.method)
    }
}

/// The result for a listen event: the connection events it knows keep the
/// default result; any other event is reported as invalid.
pub open spec fn template_listen_event(event: Seq<char>) -> HandlerRetView {
    if event == crate::handler::EVENT_ON_CONN_CLIENT@ || event == crate::handler::EVENT_ON_CONN_CLOSE_SERVER@ {
        bare_ret(ERR_CALL_INVALID_ARGS, "Default return msg"@)
    } else {
        bare_ret(ERR_CALL_INVALID_ARGS, "Invalid event "@ + event)
    }
}

fn text_eq(a: &String, b: &str) -> (r: bool)
    ensures
        r == (a@ == b@),
{
    *a == b.to_owned()
}

/// `prefix` followed by `rest`.
fn joined(prefix: &str, rest: &str) -> (r: String)
    ensures
        r@ == prefix@ + rest@,
{
    let mut s = String::from_str(prefix);
    s.append(rest);
    s
}

pub struct HandlerTemplate;

impl HandlerTemplate {
    /// The configuration change that records the peer option's value.
    pub fn make_msg_to_config(v: &str) -> (r: String)
        ensures
            r@ == peer_option_config(v@),
    {
        MsgToConfig::new_string(
            CONFIG_TYPE_PEER.to_owned(),
            UI_CLIENT_REMOTE_KEY.to_owned(),
            v.to_owned(),
            Some(ConfigToUi { channel: MSG_TO_UI_FLUTTER_CHANNEL_REMOTE, location: UI_CLIENT_REMOTE_LOCATION.to_owned() }),
        )
    }

    /// The message box that tells the user how the peer answered.
    pub fn make_msg_to_msgbox(msg: &str) -> (r: MsgToUi)
        ensures
            r.json() == notice_json(msg@),
    {
        proof {
            reveal_strlit("");
            assert(""@ =~= Seq::<char>::empty());
        }
        MsgToUi::new_msg_msgbox("custom-nocancel", "Plugin title", msg, "")
    }

    fn ret_of(code: i32, msg: String, to_ui: Vec<MsgToUi>, to_config: Vec<String>, to_peer: Vec<String>) -> (r: HandlerRet)
        ensures
            r.code == code && r.msg@ == msg@ && r.msgs.to_ui@ == to_ui@ && r.msgs.to_config@ == to_config@
                && r.msgs.to_peer@ == to_peer@,
    {
        HandlerRet { code, msg, msgs: Msgs { to_ui, to_config, to_peer } }
    }
}

impl Handler for HandlerTemplate {
    open spec fn ui_event(&self, d: &Desc, local_peer_id: Seq<char>, msg: MsgFromUiView) -> HandlerRetView {
        template_ui_event(d, local_peer_id, msg)
    }

    open spec fn client_event(&self, d: &Desc, msg: MsgPeerView) -> (HandlerRetView, Option<Seq<u8>>) {
        template_client_event(d, msg)
    }

    open spec fn server_event(&self, d: &Desc, msg: MsgPeerView) -> HandlerRetView {
        template_server_event(msg)
    }

    open spec fn listen_event(
        &self,
        d: &Desc,
        local_peer_id: Seq<char>,
        remote_peer_id: Seq<char>,
        event: Seq<char>,
    ) -> HandlerRetView {
        template_listen_event(event)
    }

    fn handle_ui_event(&self, d: &Desc, local_peer_id: String, msg_ui: MsgFromUi) -> (r: HandlerRet) {
        let checked = text_eq(&msg_ui.value, CONFIG_VALUE_TRUE) || text_eq(&msg_ui.value, CONFIG_VALUE_FALSE);
        if text_eq(&msg_ui.location, UI_CLIENT_REMOTE_LOCATION) && text_eq(&msg_ui.key, UI_CLIENT_REMOTE_KEY)
            && checked {
            let turn_on_off = if text_eq(&msg_ui.value, CONFIG_VALUE_FALSE) {
                MSG_PEER_METHOD_TURN_OFF
            } else {
                MSG_PEER_METHOD_TURN_ON
            };
            let content = PluginPeerMsg::new_string(local_peer_id);
            let mut to_peer: Vec<String> = Vec::new();
            to_peer.push(MsgPeer::new_string(d, turn_on_off.to_owned(), content));
            let r = HandlerTemplate::ret_of(0, String::new(), Vec::new(), Vec::new(), to_peer);
            assert(r@.msgs.to_ui =~= Seq::<Seq<char>>::empty());
            assert(r@.msgs.to_config =~= Seq::<Seq<char>>::empty());
            assert(r@.msgs.to_peer =~= seq![peer_envelope_text(d, turn_on_off@, plugin_peer_json(local_peer_id@))]);
            r
        } else if text_eq(&msg_ui.location, UI_HOST_MAIN_LOCATION) && text_eq(&msg_ui.key, UI_HOST_MAIN_KEY)
            && checked {
            let mut to_config: Vec<String> = Vec::new();
            to_config.push(
                MsgToConfig::new_string(
                    CONFIG_TYPE_SHARED.to_owned(),
                    UI_HOST_MAIN_KEY.to_owned(),
                    msg_ui.value,
                    Some(ConfigToUi { channel: MSG_TO_UI_FLUTTER_CHANNEL_MAIN, location: UI_HOST_MAIN_LOCATION.to_owned() }),
                ),
            );
            let r = HandlerTemplate::ret_of(0, String::new(), Vec::new(), to_config, Vec::new());
            assert(r@.msgs.to_ui =~= Seq::<Seq<char>>::empty());
            assert(r@.msgs.to_peer =~= Seq::<Seq<char>>::empty());
            assert(r@.msgs.to_config =~= seq![
                config_json(CONFIG_TYPE_SHARED@, UI_HOST_MAIN_KEY@, msg_ui@.value, Some((MSG_TO_UI_FLUTTER_CHANNEL_MAIN, UI_HOST_MAIN_LOCATION@))),
            ]);
            r
        } else {
            HandlerRet::default()
        }
    }

    fn handle_client_event(&self, d: &Desc, msg_peer: MsgPeer) -> (r: (HandlerRet, Option<Vec<u8>>)) {
        let on = text_eq(&msg_peer.method, MSG_PEER_METHOD_TURN_ON);
        if on || text_eq(&msg_peer.method, MSG_PEER_METHOD_TURN_OFF) {
            match PluginPeerMsg::from_json(msg_peer.content.as_str()) {
                None => {
                    let msg = joined("Failed to parse msg content ", msg_peer.content.as_str());
                    (HandlerRet::bare(ERR_CALL_INVALID_ARGS, msg.as_str()), None)
                },
                Some(_args) => {
                    let reply = if on {
                        MSG_PEER_METHOD_NOTIFY_TURN_ON
                    } else {
                        MSG_PEER_METHOD_NOTIFY_TURN_OFF
                    };
                    let mut to_peer: Vec<String> = Vec::new();
                    to_peer.push(MsgPeer::new_string(d, reply.to_owned(), String::new()));
                    let r = HandlerTemplate::ret_of(0, String::new(), Vec::new(), Vec::new(), to_peer);
                    assert(r@.msgs.to_ui =~= Seq::<Seq<char>>::empty());
                    assert(r@.msgs.to_config =~= Seq::<Seq<char>>::empty());
                    assert(r@.msgs.to_peer =~= seq![peer_envelope_text(d, reply@, Seq::empty())]);
                    (r, None)
                },
            }
        } else {
            let msg = joined("Invalid method ", msg_peer.method.as_str());
            (HandlerRet::bare(ERR_CALL_INVALID_ARGS, msg.as_str()), None)
        }
    }

    fn handle_server_event(&self, d: &Desc, msg_peer: MsgPeer) -> (r: HandlerRet) {
        let notify_on = text_eq(&msg_peer.method, MSG_PEER_METHOD_NOTIFY_TURN_ON);
        if notify_on || text_eq(&msg_peer.method, MSG_PEER_METHOD_NOTIFY_TURN_OFF) {
            let succeeded = msg_peer.content.as_str().is_empty();
            // The option ends up on when an "on" succeeded or an "off" failed.
            let option_on = notify_on == succeeded;
            let value = if option_on {
                CONFIG_VALUE_TRUE
            } else {
                CONFIG_VALUE_FALSE
            };
            let mut to_config: Vec<String> = Vec::new();
            to_config.push(HandlerTemplate::make_msg_to_config(value));
            let (code, msg, notice) = if succeeded {
                (0i32, "success".to_owned(), if notify_on { "on" } else { "off" })
            } else if notify_on {
                (ERR_PEER_ON_FAILED, joined("Failed to turn on ", msg_peer.content.as_str()), "Failed to turn on")
            } else {
                (ERR_PEER_OFF_FAILED, joined("Failed to turn off ", msg_peer.content.as_str()), "Failed to turn off")
            };
            let mut to_ui: Vec<MsgToUi> = Vec::new();
            to_ui.push(HandlerTemplate::make_msg_to_msgbox(notice));
            let r = HandlerTemplate::ret_of(code, msg, to_ui, to_config, Vec::new());
            assert(r@.msgs.to_ui =~= seq![notice_json(notice@)]);
            assert(r@.msgs.to_config =~= seq![peer_option_config(value@)]);
            assert(r@.msgs.to_peer =~= Seq::<Seq<char>>::empty());
            r
        } else {
            let msg = joined("Invalid method ", msg_peer.method.as_str());
            HandlerRet::bare(ERR_CALL_INVALID_ARGS, msg.as_str())
        }
    }

    fn handle_listen_event(
        &self,
        d: &Desc,
        local_peer_id: String,
        remote_peer_id: &str,
        event: MsgListenEvent,
    ) -> (r: HandlerRet) {
        if text_eq(&event.event, crate::handler::EVENT_ON_CONN_CLIENT) || text_eq(
            &event.event,
            crate::handler::EVENT_ON_CONN_CLOSE_SERVER,
        ) {
            HandlerRet::default()
        } else {
            let msg = joined("Invalid event ", event.event.as_str());
            HandlerRet::bare(ERR_CALL_INVALID_ARGS, msg.as_str())
        }
    }
}

} // verus!
