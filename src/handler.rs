//! The messages a handler exchanges with the host, the result of one handler
//! invocation, and the handler interface itself.
use vstd::prelude::*;
use vstd::string::StringExecFns;
use crate::codec::{cstr_text, cstr_to_string};
use crate::desc::Desc;
use crate::errno::ERR_CALL_INVALID_ARGS;
use crate::peer::{MsgPeer, MsgPeerView};
use crate::json::{find_member, json_quote, json_string, object_text, parse_json_object};

verus! {

pub const MSG_TO_UI_FLUTTER_CHANNEL_MAIN: u16 = 1;
pub const MSG_TO_UI_FLUTTER_CHANNEL_CM: u16 = 2;
pub const MSG_TO_UI_FLUTTER_CHANNEL_REMOTE: u16 = 4;
pub const MSG_TO_UI_FLUTTER_CHANNEL_TRANSFER: u16 = 8;
pub const MSG_TO_UI_FLUTTER_CHANNEL_FORWARD: u16 = 16;

pub const METHOD_HANDLE_UI: &'static str = "handle_ui";
pub const METHOD_HANDLE_PEER: &'static str = "handle_peer";
pub const METHOD_HANDLE_LISTEN_EVENT: &'static str = "handle_listen_event";
pub const EVENT_ON_CONN_CLIENT: &'static str = "on_conn_client";
pub const EVENT_ON_CONN_SERVER: &'static str = "on_conn_server";
pub const EVENT_ON_CONN_CLOSE_CLIENT: &'static str = "on_conn_close_client";
pub const EVENT_ON_CONN_CLOSE_SERVER: &'static str = "on_conn_close_server";
pub const MSG_TO_PEER_TARGET: &'static str = "peer";
pub const MSG_TO_UI_TARGET: &'static str = "ui";
pub const MSG_TO_CONFIG_TARGET: &'static str = "config";
pub const MSG_TO_EXT_SUPPORT_TARGET: &'static str = "ext-support";
pub const CONFIG_TYPE_SHARED: &'static str = "shared";
pub const CONFIG_TYPE_PEER: &'static str = "peer";

/// The text of a decimal digit.
pub open spec fn digit_text(d: nat) -> Seq<char> {
    if d == 0 {
        "0"@
    } else if d == 1 {
        "1"@
    } else if d == 2 {
        "2"@
    } else if d == 3 {
        "3"@
    } else if d == 4 {
        "4"@
    } else if d == 5 {
        "5"@
    } else if d == 6 {
        "6"@
    } else if d == 7 {
        "7"@
    } else if d == 8 {
        "8"@
    } else {
        "9"@
    }
}

/// The decimal text of `n`, without leading zeros.
pub open spec fn decimal_text(n: nat) -> Seq<char>
    decreases n,
{
    if n < 10 {
        digit_text(n)
    } else {
        decimal_text(n / 10) + digit_text(n % 10)
    }
}

fn digit_str(d: u16) -> (r: &'static str)
    requires
        d < 10,
    ensures
        r@ == digit_text(d as nat),
{
    if d == 0 {
        "0"
    } else if d == 1 {
        "1"
    } else if d == 2 {
        "2"
    } else if d == 3 {
        "3"
    } else if d == 4 {
        "4"
    } else if d == 5 {
        "5"
    } else if d == 6 {
        "6"
    } else if d == 7 {
        "7"
    } else if d == 8 {
        "8"
    } else {
        "9"
    }
}

/// Appends the decimal text of `n` to `out`.
pub fn append_decimal(out: &mut String, n: u16)
    ensures
        final(out)@ == old(out)@ + decimal_text(n as nat),
    decreases n,
{
    if n >= 10 {
        append_decimal(out, n / 10);
    }
    out.append(digit_str(n % 10));
    assert(final(out)@ =~= old(out)@ + decimal_text(n as nat));
}

/// Appends `"name":` and the JSON string literal of `value` to `out`, where
/// `name_colon` is the already quoted member name with its colon.
fn append_member(out: &mut String, name_colon: &str, value: &str)
    ensures
        final(out)@ == old(out)@ + name_colon@ + json_string(value@),
{
    out.append(name_colon);
    let q = json_quote(value);
    out.append(q.as_str());
    assert(final(out)@ =~= old(out)@ + name_colon@ + json_string(value@));
}

/// A message box for the host's UI.
pub struct MsgToUiMsgBox {
    pub msgbox_type: String,
    pub title: String,
    pub text: String,
    pub link: String,
}

/// A message for the host's UI.
pub enum MsgToUi {
    MsgBox(MsgToUiMsgBox),
}

/// The JSON text of a message box for the UI.
pub open spec fn msgbox_json(t: Seq<char>, title: Seq<char>, text: Seq<char>, link: Seq<char>) -> Seq<
    char,
> {
    "{\"t\":\"MsgBox\",\"c\":{\"type\":"@ + json_string(t) + ",\"title\":"@ + json_string(title)
        + ",\"text\":"@ + json_string(text) + ",\"link\":"@ + json_string(link) + "}}"@
}

impl MsgToUi {
    /// The JSON text that the host receives for this message.
    pub open spec fn json(&self) -> Seq<char> {
        match self {
            MsgToUi::MsgBox(b) => msgbox_json(b.msgbox_type@, b.title@, b.text@, b.link@),
        }
    }

    pub fn new_msg_msgbox(msgbox_type: &str, title: &str, text: &str, link: &str) -> (r: MsgToUi)
        ensures
            r matches MsgToUi::MsgBox(b) && b.msgbox_type@ == msgbox_type@ && b.title@ == title@
                && b.text@ == text@ && b.link@ == link@,
            r.json() == msgbox_json(msgbox_type@, title@, text@, link@),
    {
        MsgToUi::MsgBox(
            MsgToUiMsgBox {
                msgbox_type: msgbox_type.to_owned(),
                title: title.to_owned(),
                text: text.to_owned(),
                link: link.to_owned(),
            },
        )
    }

    /// The JSON text of this message.
    pub fn to_json(&self) -> (r: String)
        ensures
            r@ == self.json(),
    {
        match self {
            MsgToUi::MsgBox(b) => {
                let mut out = String::new();
                append_member(&mut out, "{\"t\":\"MsgBox\",\"c\":{\"type\":", b.msgbox_type.as_str());
                append_member(&mut out, ",\"title\":", b.title.as_str());
                append_member(&mut out, ",\"text\":", b.text.as_str());
                append_member(&mut out, ",\"link\":", b.link.as_str());
                out.append("}}");
                assert(out@ =~= self.json());
                out
            },
        }
    }
}

/// Where a configuration change is also shown in the UI.
pub struct ConfigToUi {
    pub channel: u16,
    pub location: String,
}

/// A configuration change for the host to store.
pub struct MsgToConfig {
    pub config_type: String,
    pub key: String,
    pub value: String,
    pub ui: Option<ConfigToUi>,
}

/// The JSON text of a configuration change; the `ui` member is left out when
/// there is none.
pub open spec fn config_json(t: Seq<char>, key: Seq<char>, value: Seq<char>, ui: Option<(u16, Seq<char>)>) -> Seq<char> {
    "{\"type\":"@ + json_string(t) + ",\"key\":"@ + json_string(key) + ",\"value\":"@ + json_string(value)
        + match ui {
        Some((channel, location)) => ",\"ui\":{\"channel\":"@ + decimal_text(channel as nat)
            + ",\"location\":"@ + json_string(location) + "}"@,
        None => Seq::empty(),
    } + "}"@
}

/// The channel and location of an optional `ConfigToUi`.
pub open spec fn config_ui_view(ui: Option<ConfigToUi>) -> Option<(u16, Seq<char>)> {
    match ui {
        Some(u) => Some((u.channel, u.location@)),
        None => None,
    }
}

impl MsgToConfig {
    pub fn new(config_type: String, key: String, value: String, ui: Option<ConfigToUi>) -> (r: MsgToConfig)
        ensures
            r.config_type@ == config_type@,
            r.key@ == key@,
            r.value@ == value@,
            config_ui_view(r.ui) == config_ui_view(ui),
    {
        MsgToConfig { config_type, key, value, ui }
    }

    /// The JSON text of a configuration change.
    pub fn new_string(config_type: String, key: String, value: String, ui: Option<ConfigToUi>) -> (r: String)
        ensures
            r@ == config_json(config_type@, key@, value@, config_ui_view(ui)),
    {
        let m = MsgToConfig::new(config_type, key, value, ui);
        let mut out = String::new();
        append_member(&mut out, "{\"type\":", m.config_type.as_str());
        append_member(&mut out, ",\"key\":", m.key.as_str());
        append_member(&mut out, ",\"value\":", m.value.as_str());
        match &m.ui {
            Some(u) => {
                out.append(",\"ui\":{\"channel\":");
                append_decimal(&mut out, u.channel);
                append_member(&mut out, ",\"location\":", u.location.as_str());
                out.append("}");
            },
            None => {},
        }
        out.append("}");
        assert(out@ =~= config_json(config_type@, key@, value@, config_ui_view(ui)));
        out
    }
}

/// A message for the host's extension support.
pub struct MsgToExtSupport {
    pub ext_type: String,
    pub data: Vec<u8>,
}

/// The messages a handler asks to have sent, in order, per channel.
pub struct Msgs {
    pub to_ui: Vec<MsgToUi>,
    pub to_config: Vec<String>,
    pub to_peer: Vec<String>,
}

/// The messages of a `Msgs`: the JSON text of each UI message, and the
/// configuration and peer messages.
pub struct MsgsView {
    pub to_ui: Seq<Seq<char>>,
    pub to_config: Seq<Seq<char>>,
    pub to_peer: Seq<Seq<char>>,
}

impl View for Msgs {
    type V = MsgsView;

    open spec fn view(&self) -> MsgsView {
        MsgsView {
            to_ui: self.to_ui@.map_values(|m: MsgToUi| m.json()),
            to_config: self.to_config.deep_view(),
            to_peer: self.to_peer.deep_view(),
        }
    }
}

/// No messages at all.
pub open spec fn no_msgs() -> MsgsView {
    MsgsView { to_ui: Seq::empty(), to_config: Seq::empty(), to_peer: Seq::empty() }
}

impl Msgs {
    pub fn new() -> (r: Msgs)
        ensures
            r@ == no_msgs(),
    {
        let r = Msgs { to_ui: Vec::new(), to_config: Vec::new(), to_peer: Vec::new() };
        assert(r@.to_ui =~= Seq::<Seq<char>>::empty());
        assert(r@.to_config =~= Seq::<Seq<char>>::empty());
        assert(r@.to_peer =~= Seq::<Seq<char>>::empty());
        r
    }
}

/// A UI event: which widget of which location changed, and how.
pub struct MsgFromUi {
    pub id: String,
    pub name: String,
    pub location: String,
    pub key: String,
    pub value: String,
    pub action: String,
}

/// The fields of a UI event.
pub struct MsgFromUiView {
    pub id: Seq<char>,
    pub name: Seq<char>,
    pub location: Seq<char>,
    pub key: Seq<char>,
    pub value: Seq<char>,
    pub action: Seq<char>,
}

impl View for MsgFromUi {
    type V = MsgFromUiView;

    open spec fn view(&self) -> MsgFromUiView {
        MsgFromUiView {
            id: self.id@,
            name: self.name@,
            location: self.location@,
            key: self.key@,
            value: self.value@,
            action: self.action@,
        }
    }
}

/// The UI event that the JSON text `s` holds: an object with a string member
/// for each field.
pub open spec fn ui_msg_of_json(s: Seq<char>) -> Option<MsgFromUiView> {
    match (
        object_text(s, "id"@),
        object_text(s, "name"@),
        object_text(s, "location"@),
        object_text(s, "key"@),
        object_text(s, "value"@),
        object_text(s, "action"@),
    ) {
        (Some(id), Some(name), Some(location), Some(key), Some(value), Some(action)) => Some(
            MsgFromUiView { id, name, location, key, value, action },
        ),
        _ => None,
    }
}

impl MsgFromUi {
    /// Reads a UI event from its JSON text.
    pub fn from_json(s: &str) -> (r: Option<MsgFromUi>)
        ensures
            r is Some <==> ui_msg_of_json(s@) is Some,
            r matches Some(m) ==> ui_msg_of_json(s@) == Some(m@),
    {
        let members = match parse_json_object(s) {
            Some(m) => m,
            None => return None,
        };
        let id = find_member(&members, "id");
        let name = find_member(&members, "name");
        let location = find_member(&members, "location");
        let key = find_member(&members, "key");
        let value = find_member(&members, "value");
        let action = find_member(&members, "action");
        match (id, name, location, key, value, action) {
            (Some(id), Some(name), Some(location), Some(key), Some(value), Some(action)) => Some(
                MsgFromUi { id, name, location, key, value, action },
            ),
            _ => None,
        }
    }
}

/// A named lifecycle notification, such as a connection being set up.
pub struct MsgListenEvent {
    pub event: String,
}

/// The event name that the JSON text `s` holds.
pub open spec fn listen_event_of_json(s: Seq<char>) -> Option<Seq<char>> {
    object_text(s, "event"@)
}

/// The listen event in a null-terminated buffer from the host.
pub open spec fn listen_event_of_cstr(b: Seq<u8>) -> Option<Seq<char>> {
    match cstr_text(b) {
        Some(s) => listen_event_of_json(s),
        None => None,
    }
}

impl MsgListenEvent {
    /// Reads a listen event from a null-terminated buffer of the host.
    pub fn from_cstr(cstr: &[u8]) -> (r: Option<MsgListenEvent>)
        ensures
            r is Some <==> listen_event_of_cstr(cstr@) is Some,
            r matches Some(m) ==> listen_event_of_cstr(cstr@) == Some(m.event@),
    {
        match cstr_to_string(cstr) {
            Some(s) => MsgListenEvent::from_json(s.as_str()),
            None => None,
        }
    }

    /// Reads a listen event from its JSON text.
    pub fn from_json(s: &str) -> (r: Option<MsgListenEvent>)
        ensures
            r is Some <==> listen_event_of_json(s@) is Some,
            r matches Some(m) ==> listen_event_of_json(s@) == Some(m.event@),
    {
        let members = match parse_json_object(s) {
            Some(m) => m,
            None => return None,
        };
        match find_member(&members, "event") {
            Some(event) => Some(MsgListenEvent { event }),
            None => None,
        }
    }
}

/// The result of one handler invocation: a code (0 on success), a message, and
/// the messages to send.
pub struct HandlerRet {
    pub code: i32,
    pub msg: String,
    pub msgs: Msgs,
}

pub struct HandlerRetView {
    pub code: i32,
    pub msg: Seq<char>,
    pub msgs: MsgsView,
}

impl View for HandlerRet {
    type V = HandlerRetView;

    open spec fn view(&self) -> HandlerRetView {
        HandlerRetView { code: self.code, msg: self.msg@, msgs: self.msgs@ }
    }
}

/// A result with the given code and message and nothing to send.
pub open spec fn bare_ret(code: i32, msg: Seq<char>) -> HandlerRetView {
    HandlerRetView { code, msg, msgs: no_msgs() }
}

impl HandlerRet {
    /// A result with the given code and message and nothing to send.
    pub fn bare(code: i32, msg: &str) -> (r: HandlerRet)
        ensures
            r@ == bare_ret(code, msg@),
    {
        HandlerRet { code, msg: msg.to_owned(), msgs: Msgs::new() }
    }

}

impl Default for HandlerRet {
    /// The result a handler starts from: invalid arguments, nothing to send.
    fn default() -> (r: HandlerRet)
        ensures
            r@ == bare_ret(ERR_CALL_INVALID_ARGS, "Default return msg"@),
    {
        HandlerRet::bare(ERR_CALL_INVALID_ARGS, "Default return msg")
    }
}

/// The bytes of an optional buffer.
pub open spec fn opt_bytes(b: Option<Vec<u8>>) -> Option<Seq<u8>> {
    match b {
        Some(v) => Some(v@),
        None => None,
    }
}

/// The plugin's business logic: one operation per kind of request. Each
/// operation's result is described by the matching spec function, so that
/// what the dispatcher returns can be stated for any implementation.
pub trait Handler {
    spec fn ui_event(&self, d: &Desc, local_peer_id: Seq<char>, msg: MsgFromUiView) -> HandlerRetView;

    /// The result and the response envelope, if any, for an outbound call.
    spec fn client_event(&self, d: &Desc, msg: MsgPeerView) -> (HandlerRetView, Option<Seq<u8>>);

    spec fn server_event(&self, d: &Desc, msg: MsgPeerView) -> HandlerRetView;

    spec fn listen_event(
        &self,
        d: &Desc,
        local_peer_id: Seq<char>,
        remote_peer_id: Seq<char>,
        event: Seq<char>,
    ) -> HandlerRetView;

    /// Handles an event of one of the plugin's widgets in the host's UI.
    fn handle_ui_event(&self, d: &Desc, local_peer_id: String, msg_ui: MsgFromUi) -> (r: HandlerRet)
        ensures
            r@ == self.ui_event(d, local_peer_id@, msg_ui@),
    ;

    /// Handles a peer envelope on the side that expects a response, which it
    /// may return as bytes.
    fn handle_client_event(&self, d: &Desc, msg_peer: MsgPeer) -> (r: (HandlerRet, Option<Vec<u8>>))
        ensures
            (r.0@, opt_bytes(r.1)) == self.client_event(d, msg_peer@),
    ;

    /// Handles a peer envelope on the side that sends no response.
    fn handle_server_event(&self, d: &Desc, msg_peer: MsgPeer) -> (r: HandlerRet)
        ensures
            r@ == self.server_event(d, msg_peer@),
    ;

    /// Handles a lifecycle notification about the connection to a peer.
    fn handle_listen_event(
        &self,
        d: &Desc,
        local_peer_id: String,
        remote_peer_id: &str,
        event: MsgListenEvent,
    ) -> (r: HandlerRet)
        ensures
            r@ == self.listen_event(d, local_peer_id@, remote_peer_id@, event.event@),
    ;
}

} // verus!
