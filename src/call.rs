//! The dispatcher: checks that a call may proceed, decodes the envelope that
//! its method expects, invokes the handler, and turns the handler's result
//! into the messages to send through the host and the result to return.
//!
//! A call that needs the local peer id (the UI and listen-event methods)
//! stops at `CallStep::NeedLocalPeerId`; the caller asks the host for the id
//! and finishes the call with `resume_call`. The messages to send come back
//! as `MsgCall`s, in order, for the caller to hand to the host's send-message
//! callback; their delivery does not change the call's result.
use vstd::prelude::*;
use vstd::string::{StringExecFns, StringSliceAdditionalSpecFns};
use vstd::utf8::encode_utf8;
use crate::codec::{cstr_bytes, cstr_bytes_from, cstr_text, cstr_to_string, return_of, str_to_cstr_ret, PluginReturn};
use crate::desc::Desc;
use crate::errno::{
    ERR_CALL_INVALID_ARGS,
    ERR_CALL_INVALID_METHOD,
    ERR_CALL_INVALID_PEER,
    ERR_CALL_NOT_SUPPORTED_METHOD,
    ERR_PEER_ID_MISMATCH,
    ERR_PLUGIN_MSG_GET_LOCAL_PEER_ID,
    ERR_PLUGIN_MSG_INIT,
};
use crate::handler::{
    listen_event_of_cstr,
    opt_bytes,
    ui_msg_of_json,
    Handler,
    HandlerRet,
    HandlerRetView,
    MsgFromUi,
    MsgFromUiView,
    MsgListenEvent,
    MsgToUi,
    MsgsView,
    MSG_TO_CONFIG_TARGET,
    MSG_TO_PEER_TARGET,
    MSG_TO_UI_FLUTTER_CHANNEL_REMOTE,
    MSG_TO_UI_TARGET,
    METHOD_HANDLE_LISTEN_EVENT,
    METHOD_HANDLE_PEER,
    METHOD_HANDLE_UI,
};
use crate::init::PluginState;
use crate::peer::{peer_msg_of_cstr, MsgPeer};

verus! {

/// One call of the host's send-message callback: the peer, the channel
/// (`peer`, `ui` or `config`) and the plugin id, each null-terminated, and the
/// content.
pub struct MsgCall {
    pub peer: Vec<u8>,
    pub target: Vec<u8>,
    pub id: Vec<u8>,
    pub content: Vec<u8>,
}

pub struct MsgCallView {
    pub peer: Seq<u8>,
    pub target: Seq<u8>,
    pub id: Seq<u8>,
    pub content: Seq<u8>,
}

impl View for MsgCall {
    type V = MsgCallView;

    open spec fn view(&self) -> MsgCallView {
        MsgCallView { peer: self.peer@, target: self.target@, id: self.id@, content: self.content@ }
    }
}

/// The UTF-8 bytes of `s` with a terminating zero byte.
pub open spec fn cstr_of(s: Seq<char>) -> Seq<u8> {
    encode_utf8(s) + seq![0u8]
}

pub open spec fn msg_call_view(peer: Seq<char>, target: Seq<char>, id: Seq<char>, content: Seq<u8>) -> MsgCallView {
    MsgCallView { peer: cstr_of(peer), target: cstr_of(target), id: cstr_of(id), content }
}

/// What a UI message is sent as: a two-byte little-endian mask of the UI
/// channels that receive it, then its JSON text.
pub open spec fn ui_content(json: Seq<char>) -> Seq<u8> {
    seq![(MSG_TO_UI_FLUTTER_CHANNEL_REMOTE % 256) as u8, (MSG_TO_UI_FLUTTER_CHANNEL_REMOTE / 256) as u8]
        + encode_utf8(json)
}

/// One call per text message, in order, on the given channel.
pub open spec fn text_calls(peer: Seq<char>, target: Seq<char>, id: Seq<char>, msgs: Seq<Seq<char>>) -> Seq<
    MsgCallView,
> {
    Seq::new(msgs.len(), |k: int| msg_call_view(peer, target, id, encode_utf8(msgs[k])))
}

/// One call per UI message, in order.
pub open spec fn ui_calls(peer: Seq<char>, id: Seq<char>, msgs: Seq<Seq<char>>) -> Seq<MsgCallView> {
    Seq::new(msgs.len(), |k: int| msg_call_view(peer, MSG_TO_UI_TARGET@, id, ui_content(msgs[k])))
}

/// The calls that forward a handler's messages: configuration first, then
/// peer, then UI, each in order.
pub open spec fn sent_calls(id: Seq<char>, peer: Seq<char>, m: MsgsView) -> Seq<MsgCallView> {
    text_calls(peer, MSG_TO_CONFIG_TARGET@, id, m.to_config) + text_calls(peer, MSG_TO_PEER_TARGET@, id, m.to_peer)
        + ui_calls(peer, id, m.to_ui)
}

proof fn lemma_no_msgs_no_calls(id: Seq<char>, peer: Seq<char>)
    ensures
        sent_calls(id, peer, crate::handler::no_msgs()) == Seq::<MsgCallView>::empty(),
{
    assert(sent_calls(id, peer, crate::handler::no_msgs()) =~= Seq::<MsgCallView>::empty());
}

pub open spec fn calls_view(v: Seq<MsgCall>) -> Seq<MsgCallView> {
    v.map_values(|c: MsgCall| c@)
}

/// The frame of one send-message call.
pub fn call_msg_cb(peer: String, target: &str, id: String, content: &[u8]) -> (r: MsgCall)
    ensures
        r@ == msg_call_view(peer@, target@, id@, content@),
{
    let mut c: Vec<u8> = Vec::new();
    c.extend_from_slice(content);
    assert(c@ =~= content@);
    MsgCall {
        peer: str_to_cstr_ret(peer.as_str()),
        target: str_to_cstr_ret(target),
        id: str_to_cstr_ret(id.as_str()),
        content: c,
    }
}

fn push_text_calls(calls: &mut Vec<MsgCall>, peer: &String, target: &str, id: &str, msgs: &Vec<String>)
    ensures
        calls_view(final(calls)@) == calls_view(old(calls)@) + text_calls(peer@, target@, id@, msgs.deep_view()),
{
    let ghost start = calls_view(calls@);
    let mut i: usize = 0;
    while i < msgs.len()
        invariant
            i <= msgs@.len(),
            calls_view(calls@) =~= start + text_calls(peer@, target@, id@, msgs.deep_view().subrange(0, i as int)),
        decreases msgs@.len() - i,
    {
        let c = call_msg_cb(peer.clone(), target, id.to_owned(), msgs[i].as_str().as_bytes());
        let ghost prev = calls@;
        let ghost cv = c@;
        assert(cv == msg_call_view(peer@, target@, id@, encode_utf8(msgs.deep_view()[i as int])));
        calls.push(c);
        assert(calls_view(calls@) =~= calls_view(prev).push(cv));
        assert(text_calls(peer@, target@, id@, msgs.deep_view().subrange(0, i + 1)) =~= text_calls(
            peer@,
            target@,
            id@,
            msgs.deep_view().subrange(0, i as int),
        ).push(cv));
        i = i + 1;
    }
    assert(msgs.deep_view().subrange(0, i as int) =~= msgs.deep_view());
}

fn push_ui_calls(calls: &mut Vec<MsgCall>, peer: &String, id: &str, msgs: &Vec<MsgToUi>)
    ensures
        calls_view(final(calls)@) == calls_view(old(calls)@) + ui_calls(
            peer@,
            id@,
            msgs@.map_values(|m: MsgToUi| m.json()),
        ),
{
    let ghost start = calls_view(calls@);
    let ghost jsons = msgs@.map_values(|m: MsgToUi| m.json());
    let mut i: usize = 0;
    while i < msgs.len()
        invariant
            i <= msgs@.len(),
            jsons == msgs@.map_values(|m: MsgToUi| m.json()),
            calls_view(calls@) =~= start + ui_calls(peer@, id@, jsons.subrange(0, i as int)),
        decreases msgs@.len() - i,
    {
        let ch = MSG_TO_UI_FLUTTER_CHANNEL_REMOTE;
        let mut content: Vec<u8> = Vec::new();
        content.push((ch % 256) as u8);
        content.push((ch / 256) as u8);
        let json = msgs[i].to_json();
        content.extend_from_slice(json.as_str().as_bytes());
        assert(content@ =~= ui_content(jsons[i as int]));
        let c = call_msg_cb(peer.clone(), MSG_TO_UI_TARGET, id.to_owned(), content.as_slice());
        let ghost prev = calls@;
        let ghost cv = c@;
        calls.push(c);
        assert(calls_view(calls@) =~= calls_view(prev).push(cv));
        assert(ui_calls(peer@, id@, jsons.subrange(0, i + 1)) =~= ui_calls(peer@, id@, jsons.subrange(0, i as int)).push(
            cv,
        ));
        i = i + 1;
    }
    assert(jsons.subrange(0, i as int) =~= jsons);
}

/// The outcome of a call: the result to return, the send-message calls to
/// make, and the response envelope for the caller's output buffer, if any.
pub struct CallOutcome {
    pub ret: PluginReturn,
    pub calls: Vec<MsgCall>,
    pub out: Option<Vec<u8>>,
}

pub struct CallOutcomeView {
    pub ret: (i32, Seq<char>),
    pub calls: Seq<MsgCallView>,
    pub out: Option<Seq<u8>>,
}

impl View for CallOutcome {
    type V = CallOutcomeView;

    open spec fn view(&self) -> CallOutcomeView {
        CallOutcomeView { ret: self.ret@, calls: calls_view(self.calls@), out: opt_bytes(self.out) }
    }
}

/// A call that failed before any handler ran: nothing to send, no response.
pub open spec fn fail_outcome(code: i32, msg: Seq<char>) -> CallOutcomeView {
    CallOutcomeView { ret: (code, msg), calls: Seq::empty(), out: None }
}

/// The outcome for a handler's result.
pub open spec fn handled_outcome(id: Seq<char>, peer: Seq<char>, r: HandlerRetView, out: Option<Seq<u8>>) -> CallOutcomeView {
    CallOutcomeView { ret: return_of(r.code, r.msg), calls: sent_calls(id, peer, r.msgs), out }
}

impl CallOutcome {
    fn failure(code: i32, msg: String) -> (r: CallOutcome)
        ensures
            r@ == fail_outcome(code, msg@),
    {
        let r = CallOutcome { ret: PluginReturn { code, msg }, calls: Vec::new(), out: None };
        assert(calls_view(r.calls@) =~= Seq::<MsgCallView>::empty());
        r
    }
}

/// Forwards the handler's messages and reports its code and message: a
/// success carries no message.
pub fn process_return(plugin_id: &str, peer: String, ret: HandlerRet, out: Option<Vec<u8>>) -> (r: CallOutcome)
    ensures
        r@ == handled_outcome(plugin_id@, peer@, ret@, opt_bytes(out)),
{
    let mut calls: Vec<MsgCall> = Vec::new();
    assert(calls_view(calls@) =~= Seq::<MsgCallView>::empty());
    push_text_calls(&mut calls, &peer, MSG_TO_CONFIG_TARGET, plugin_id, &ret.msgs.to_config);
    push_text_calls(&mut calls, &peer, MSG_TO_PEER_TARGET, plugin_id, &ret.msgs.to_peer);
    push_ui_calls(&mut calls, &peer, plugin_id, &ret.msgs.to_ui);
    let r = CallOutcome { ret: PluginReturn::new(ret.code, ret.msg.as_str()), calls, out };
    assert(r@.calls =~= sent_calls(plugin_id@, peer@, ret@.msgs));
    r
}

/// Why a call cannot proceed yet, checked in this order: no session, no
/// handler, no descriptor.
pub open spec fn readiness_error<H, C>(s: &PluginState<H, C>) -> Option<(i32, Seq<char>)> {
    if s.init_data is None {
        Some((ERR_PLUGIN_MSG_INIT, "Plugin must be initialized before calling any other functions"@))
    } else if s.handler is None {
        Some((ERR_PLUGIN_MSG_INIT, "Plugin handler must be set before calling any other functions"@))
    } else if s.desc is None {
        Some((ERR_PLUGIN_MSG_INIT, "Plugin desc must be set before calling any other functions"@))
    } else {
        None
    }
}

fn check_ready<H, C>(state: &PluginState<H, C>) -> (r: Option<CallOutcome>)
    ensures
        r is None <==> readiness_error(state) is None,
        r matches Some(o) ==> readiness_error(state) matches Some((c, m)) && o@ == fail_outcome(c, m),
{
    if state.init_data.is_none() {
        Some(CallOutcome::failure(ERR_PLUGIN_MSG_INIT, "Plugin must be initialized before calling any other functions".to_owned()))
    } else if state.handler.is_none() {
        Some(CallOutcome::failure(ERR_PLUGIN_MSG_INIT, "Plugin handler must be set before calling any other functions".to_owned()))
    } else if state.desc.is_none() {
        Some(CallOutcome::failure(ERR_PLUGIN_MSG_INIT, "Plugin desc must be set before calling any other functions".to_owned()))
    } else {
        None
    }
}

/// The method a call names.
pub enum Route {
    Ui,
    Peer,
    ListenEvent,
    Unsupported,
}

/// The route for a method name given as a null-terminated buffer: an exact
/// match of its bytes against one of the known names.
pub open spec fn route_of(method: Seq<u8>) -> Route {
    let name = cstr_bytes_from(method, 0);
    if name == METHOD_HANDLE_UI.spec_bytes() {
        Route::Ui
    } else if name == METHOD_HANDLE_PEER.spec_bytes() {
        Route::Peer
    } else if name == METHOD_HANDLE_LISTEN_EVENT.spec_bytes() {
        Route::ListenEvent
    } else {
        Route::Unsupported
    }
}

/// Whether `method` is exactly the bytes of `target`.
pub fn is_method(method: &[u8], target: &str) -> (r: bool)
    ensures
        r == (method@ == target.spec_bytes()),
{
    let t = target.as_bytes();
    if method.len() != t.len() {
        return false;
    }
    let mut i: usize = 0;
    while i < t.len()
        invariant
            i <= t@.len(),
            method@.len() == t@.len(),
            t@ == target.spec_bytes(),
            forall|k: int| 0 <= k < i ==> method@[k] == t@[k],
        decreases t@.len() - i,
    {
        if method[i] != t[i] {
            return false;
        }
        i = i + 1;
    }
    assert(method@ =~= t@);
    true
}

/// The message for a method that is not supported, with its name where that
/// name is UTF-8.
pub open spec fn unsupported_msg(method: Seq<u8>) -> Seq<char> {
    match cstr_text(method) {
        Some(t) => "Unsupported call of '"@ + t + "'"@,
        None => "Unsupported call of a method whose name is not UTF-8"@,
    }
}

fn unsupported_method_msg(method: &[u8]) -> (r: String)
    ensures
        r@ == unsupported_msg(method@),
{
    match cstr_to_string(method) {
        Some(t) => {
            let mut s = String::from_str("Unsupported call of '");
            s.append(t.as_str());
            s.append("'");
            s
        },
        None => "Unsupported call of a method whose name is not UTF-8".to_owned(),
    }
}

/// The text of an optional null-terminated buffer.
pub open spec fn opt_cstr_text(b: Option<Seq<u8>>) -> Option<Seq<char>> {
    match b {
        Some(v) => cstr_text(v),
        None => None,
    }
}

pub open spec fn opt_slice(b: Option<&[u8]>) -> Option<Seq<u8>> {
    match b {
        Some(v) => Some(v@),
        None => None,
    }
}

/// What a call that waits for the local peer id does once it has it.
pub enum PendingKind {
    Ui(MsgFromUi),
    ListenEvent(MsgListenEvent),
}

/// A call that waits for the local peer id: the remote peer id and the
/// decoded envelope.
pub struct PendingCall {
    pub peer: String,
    pub kind: PendingKind,
}

pub enum PendingKindView {
    Ui(MsgFromUiView),
    ListenEvent(Seq<char>),
}

pub struct PendingCallView {
    pub peer: Seq<char>,
    pub kind: PendingKindView,
}

impl View for PendingCall {
    type V = PendingCallView;

    open spec fn view(&self) -> PendingCallView {
        PendingCallView {
            peer: self.peer@,
            kind: match self.kind {
                PendingKind::Ui(m) => PendingKindView::Ui(m@),
                PendingKind::ListenEvent(e) => PendingKindView::ListenEvent(e.event@),
            },
        }
    }
}

/// Where a call stands after its first step.
pub enum CallStep {
    Done(CallOutcome),
    NeedLocalPeerId(PendingCall),
}

pub enum CallStepView {
    Done(CallOutcomeView),
    NeedLocalPeerId(PendingCallView),
}

impl View for CallStep {
    type V = CallStepView;

    open spec fn view(&self) -> CallStepView {
        match self {
            CallStep::Done(o) => CallStepView::Done(o@),
            CallStep::NeedLocalPeerId(p) => CallStepView::NeedLocalPeerId(p@),
        }
    }
}

/// The UI method once the call is known to be ready: decode the event, check
/// that it is meant for this plugin, then wait for the local peer id.
pub open spec fn ui_step(d: &Desc, peer: Seq<char>, args: Seq<u8>) -> CallStepView {
    match cstr_text(args) {
        None => CallStepView::Done(fail_outcome(ERR_CALL_INVALID_ARGS, "Failed to parse args"@)),
        Some(content) => match ui_msg_of_json(content) {
            None => CallStepView::Done(fail_outcome(ERR_CALL_INVALID_ARGS, "Failed to parse "@ + content)),
            Some(m) => if m.id != d.id@ {
                CallStepView::Done(fail_outcome(ERR_CALL_INVALID_ARGS, "id mismatch"@))
            } else {
                CallStepView::NeedLocalPeerId(PendingCallView { peer, kind: PendingKindView::Ui(m) })
            },
        },
    }
}

/// The peer method once the call is known to be ready: decode the envelope,
/// check its id, then run the client operation when the caller takes a
/// response and the server operation otherwise.
pub open spec fn peer_step<H: Handler>(h: &H, d: &Desc, peer: Seq<char>, args: Seq<u8>, want_out: bool) -> CallStepView {
    match peer_msg_of_cstr(args) {
        None => CallStepView::Done(fail_outcome(ERR_CALL_INVALID_ARGS, "Failed to parse args"@)),
        Some(m) => if m.id != d.id@ {
            CallStepView::Done(fail_outcome(ERR_PEER_ID_MISMATCH, "Id mismatch "@ + m.id))
        } else if want_out {
            CallStepView::Done(handled_outcome(d.id@, peer, h.client_event(d, m).0, h.client_event(d, m).1))
        } else {
            CallStepView::Done(handled_outcome(d.id@, peer, h.server_event(d, m), None))
        },
    }
}

/// The listen-event method once the call is known to be ready: decode the
/// event, then wait for the local peer id.
pub open spec fn listen_step(peer: Seq<char>, args: Seq<u8>) -> CallStepView {
    match listen_event_of_cstr(args) {
        None => CallStepView::Done(fail_outcome(ERR_CALL_INVALID_ARGS, "Failed to parse args"@)),
        Some(e) => CallStepView::NeedLocalPeerId(PendingCallView { peer, kind: PendingKindView::ListenEvent(e) }),
    }
}

/// The first step of a call: the checks, in order, then the method's own
/// step. The method and peer are null-terminated buffers, absent when the
/// host passed none.
pub open spec fn call_step<H: Handler, C>(
    s: &PluginState<H, C>,
    method: Option<Seq<u8>>,
    peer: Option<Seq<u8>>,
    args: Seq<u8>,
    want_out: bool,
) -> CallStepView {
    match readiness_error(s) {
        Some((c, m)) => CallStepView::Done(fail_outcome(c, m)),
        None => match method {
            None => CallStepView::Done(fail_outcome(ERR_CALL_INVALID_METHOD, "method is null"@)),
            Some(mb) => match opt_cstr_text(peer) {
                None => CallStepView::Done(fail_outcome(ERR_CALL_INVALID_PEER, "parse remote peer id"@)),
                Some(p) => match route_of(mb) {
                    Route::Ui => ui_step(&s.desc->0, p, args),
                    Route::Peer => peer_step(&s.handler->0, &s.desc->0, p, args, want_out),
                    Route::ListenEvent => listen_step(p, args),
                    Route::Unsupported => CallStepView::Done(
                        fail_outcome(ERR_CALL_NOT_SUPPORTED_METHOD, unsupported_msg(mb)),
                    ),
                },
            },
        },
    }
}

fn handle_msg_ui(d: &Desc, peer: String, args: &[u8]) -> (r: CallStep)
    ensures
        r@ == ui_step(d, peer@, args@),
{
    let content = match cstr_to_string(args) {
        Some(c) => c,
        None => return CallStep::Done(CallOutcome::failure(ERR_CALL_INVALID_ARGS, "Failed to parse args".to_owned())),
    };
    let msg_ui = match MsgFromUi::from_json(content.as_str()) {
        Some(m) => m,
        None => {
            let mut s = String::from_str("Failed to parse ");
            s.append(content.as_str());
            return CallStep::Done(CallOutcome::failure(ERR_CALL_INVALID_ARGS, s));
        },
    };
    if msg_ui.id != d.id {
        return CallStep::Done(CallOutcome::failure(ERR_CALL_INVALID_ARGS, "id mismatch".to_owned()));
    }
    CallStep::NeedLocalPeerId(PendingCall { peer, kind: PendingKind::Ui(msg_ui) })
}

fn handle_msg_peer<H: Handler>(h: &H, d: &Desc, peer: String, args: &[u8], want_out: bool) -> (r: CallStep)
    ensures
        r@ == peer_step(h, d, peer@, args@, want_out),
{
    let msg_peer = match MsgPeer::from_c_str(args) {
        Some(m) => m,
        None => return CallStep::Done(CallOutcome::failure(ERR_CALL_INVALID_ARGS, "Failed to parse args".to_owned())),
    };
    if msg_peer.id != d.id {
        let mut s = String::from_str("Id mismatch ");
        s.append(msg_peer.id.as_str());
        return CallStep::Done(CallOutcome::failure(ERR_PEER_ID_MISMATCH, s));
    }
    if want_out {
        let (ret, out) = h.handle_client_event(d, msg_peer);
        CallStep::Done(process_return(d.id.as_str(), peer, ret, out))
    } else {
        let ret = h.handle_server_event(d, msg_peer);
        CallStep::Done(process_return(d.id.as_str(), peer, ret, None))
    }
}

fn handle_msg_listen(peer: String, args: &[u8]) -> (r: CallStep)
    ensures
        r@ == listen_step(peer@, args@),
{
    match MsgListenEvent::from_cstr(args) {
        Some(e) => CallStep::NeedLocalPeerId(PendingCall { peer, kind: PendingKind::ListenEvent(e) }),
        None => CallStep::Done(CallOutcome::failure(ERR_CALL_INVALID_ARGS, "Failed to parse args".to_owned())),
    }
}

/// Starts a call of `method` from peer `peer` with arguments `args`.
/// `want_out` says whether the caller takes a response envelope, which makes
/// a peer call an outbound one.
pub fn plugin_call<H: Handler, C>(
    state: &PluginState<H, C>,
    method: Option<&[u8]>,
    peer: Option<&[u8]>,
    args: &[u8],
    want_out: bool,
) -> (r: CallStep)
    ensures
        r@ == call_step(state, opt_slice(method), opt_slice(peer), args@, want_out),
{
    match check_ready(state) {
        Some(o) => return CallStep::Done(o),
        None => {},
    }
    let method = match method {
        Some(m) => m,
        None => return CallStep::Done(CallOutcome::failure(ERR_CALL_INVALID_METHOD, "method is null".to_owned())),
    };
    let peer = match peer {
        Some(p) => cstr_to_string(p),
        None => None,
    };
    let peer = match peer {
        Some(p) => p,
        None => return CallStep::Done(CallOutcome::failure(ERR_CALL_INVALID_PEER, "parse remote peer id".to_owned())),
    };
    let h = state.handler.as_ref().unwrap();
    let d = state.desc.as_ref().unwrap();
    let name = cstr_bytes(method, 0);
    if is_method(name.as_slice(), METHOD_HANDLE_UI) {
        handle_msg_ui(d, peer, args)
    } else if is_method(name.as_slice(), METHOD_HANDLE_PEER) {
        handle_msg_peer(h, d, peer, args, want_out)
    } else if is_method(name.as_slice(), METHOD_HANDLE_LISTEN_EVENT) {
        handle_msg_listen(peer, args)
    } else {
        CallStep::Done(CallOutcome::failure(ERR_CALL_NOT_SUPPORTED_METHOD, unsupported_method_msg(method)))
    }
}

/// The local peer id from the host's buffer, or the failure to report when
/// there is none or it is not UTF-8.
pub fn get_local_peer_id(id: Option<&[u8]>) -> (r: Result<String, HandlerRet>)
    ensures
        r matches Ok(s) ==> opt_cstr_text(opt_slice(id)) == Some(s@),
        r is Err <==> opt_cstr_text(opt_slice(id)) is None,
        r matches Err(e) ==> e@ == crate::handler::bare_ret(ERR_PLUGIN_MSG_GET_LOCAL_PEER_ID, "parse local peer id"@),
{
    let text = match id {
        Some(b) => cstr_to_string(b),
        None => None,
    };
    match text {
        Some(s) => Ok(s),
        None => Err(HandlerRet::bare(ERR_PLUGIN_MSG_GET_LOCAL_PEER_ID, "parse local peer id")),
    }
}

/// The end of a call that waited for the local peer id, given the host's
/// answer (absent when it returned none).
pub open spec fn resume_outcome<H: Handler, C>(s: &PluginState<H, C>, pending: PendingCallView, local_id: Option<
    Seq<u8>,
>) -> CallOutcomeView {
    match readiness_error(s) {
        Some((c, m)) => fail_outcome(c, m),
        None => {
            let h = s.handler->0;
            let d = s.desc->0;
            match opt_cstr_text(local_id) {
                None => fail_outcome(ERR_PLUGIN_MSG_GET_LOCAL_PEER_ID, "parse local peer id"@),
                Some(l) => match pending.kind {
                    PendingKindView::Ui(m) => handled_outcome(d.id@, pending.peer, h.ui_event(&d, l, m), None),
                    PendingKindView::ListenEvent(e) => handled_outcome(
                        d.id@,
                        pending.peer,
                        h.listen_event(&d, l, pending.peer, e),
                        None,
                    ),
                },
            }
        },
    }
}

/// Finishes a call that waited for the local peer id.
pub fn resume_call<H: Handler, C>(state: &PluginState<H, C>, pending: PendingCall, local_id: Option<&[u8]>) -> (r:
    CallOutcome)
    ensures
        r@ == resume_outcome(state, pending@, opt_slice(local_id)),
{
    match check_ready(state) {
        Some(o) => return o,
        None => {},
    }
    let h = state.handler.as_ref().unwrap();
    let d = state.desc.as_ref().unwrap();
    let local = match get_local_peer_id(local_id) {
        Ok(l) => l,
        Err(e) => {
            proof {
                lemma_no_msgs_no_calls(d.id@, pending.peer@);
            }
            return process_return(d.id.as_str(), pending.peer, e, None);
        },
    };
    let peer = pending.peer;
    match pending.kind {
        PendingKind::Ui(m) => {
            let ret = h.handle_ui_event(d, local, m);
            process_return(d.id.as_str(), peer, ret, None)
        },
        PendingKind::ListenEvent(e) => {
            let ret = h.handle_listen_event(d, local, peer.as_str(), e);
            process_return(d.id.as_str(), peer, ret, None)
        },
    }
}

/// While no session is stored, every call fails with the not-initialized code
/// before any handler runs: nothing is sent and no response is produced. A
/// call that was waiting for the local peer id fails the same way.
pub proof fn lemma_uninitialized_call_fails<H: Handler, C>(
    s: &PluginState<H, C>,
    method: Option<Seq<u8>>,
    peer: Option<Seq<u8>>,
    args: Seq<u8>,
    want_out: bool,
    pending: PendingCallView,
    local_id: Option<Seq<u8>>,
)
    requires
        !s.is_initialized(),
    ensures
        call_step(s, method, peer, args, want_out) == CallStepView::Done(
            fail_outcome(ERR_PLUGIN_MSG_INIT, "Plugin must be initialized before calling any other functions"@),
        ),
        resume_outcome(s, pending, local_id) == fail_outcome(
            ERR_PLUGIN_MSG_INIT,
            "Plugin must be initialized before calling any other functions"@,
        ),
{
}

/// A peer envelope whose id is not the descriptor's id is rejected with the
/// id-mismatch code, on the outbound and the inbound path alike, before any
/// handler runs: nothing is sent and no response is produced.
pub proof fn lemma_peer_id_mismatch_rejected<H: Handler, C>(
    s: &PluginState<H, C>,
    method: Seq<u8>,
    peer: Option<Seq<u8>>,
    args: Seq<u8>,
    want_out: bool,
)
    requires
        readiness_error(s) is None,
        route_of(method) is Peer,
        opt_cstr_text(peer) is Some,
        peer_msg_of_cstr(args) matches Some(m) && s.desc matches Some(d) && m.id != d.id@,
    ensures
        call_step(s, Some(method), peer, args, want_out) matches CallStepView::Done(o) && o.ret.0
            == ERR_PEER_ID_MISMATCH && o.calls.len() == 0 && o.out is None,
{
}

} // verus!
