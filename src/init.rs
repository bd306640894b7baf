//! The plugin's state: the session negotiated with the host, which `init`,
//! `reset` and `clear` manage, and the descriptor and handler registered at
//! start-up.
//!
//! `C` is the table of host callbacks; the library stores it and hands it back
//! without calling it.
use vstd::prelude::*;
use crate::codec::PluginReturn;
use crate::desc::Desc;
use crate::errno::ERR_PLUGIN_MSG_INIT_INVALID;

verus! {

/// The session data as the host hands it over: a version string, which may
/// be missing, and the callback table.
pub struct HostInitData<C> {
    pub version: Option<Vec<u8>>,
    pub cbs: C,
}

/// The stored session: the plugin's own copy of the version bytes, and the
/// callback table.
pub struct InitData<C> {
    pub version: Vec<u8>,
    pub cbs: C,
}

/// Everything a call consults: the session (absent while uninitialized), the
/// handler and the descriptor.
pub struct PluginState<H, C> {
    pub init_data: Option<InitData<C>>,
    pub handler: Option<H>,
    pub desc: Option<Desc>,
}

/// The session to store for the host's data, or `None` when the data or its
/// version is missing.
pub open spec fn session_of<C>(info: Option<HostInitData<C>>) -> Option<(Seq<u8>, C)> {
    match info {
        Some(i) => match i.version {
            Some(v) => Some((v@, i.cbs)),
            None => None,
        },
        None => None,
    }
}

/// The stored session as its version bytes and callback table.
pub open spec fn stored_session<C>(d: Option<InitData<C>>) -> Option<(Seq<u8>, C)> {
    match d {
        Some(i) => Some((i.version@, i.cbs)),
        None => None,
    }
}

/// The result of `init` or `reset` when the host's data is missing.
pub open spec fn invalid_init_return() -> (i32, Seq<char>) {
    (ERR_PLUGIN_MSG_INIT_INVALID, "Invalid InitData, null pointer"@)
}

/// The state after `clear`: no session, the rest as it was.
pub open spec fn cleared<H, C>(s: PluginState<H, C>) -> PluginState<H, C> {
    PluginState { init_data: None, handler: s.handler, desc: s.desc }
}

impl<H, C> PluginState<H, C> {
    /// A state with no session, handler or descriptor.
    pub fn new() -> (r: PluginState<H, C>)
        ensures
            r.init_data is None,
            r.handler is None,
            r.desc is None,
    {
        PluginState { init_data: None, handler: None, desc: None }
    }

    pub open spec fn is_initialized(&self) -> bool {
        self.init_data is Some
    }
}

/// The stored session, if any.
pub fn get_init_data<H, C>(state: &PluginState<H, C>) -> (r: &Option<InitData<C>>)
    ensures
        r == &state.init_data,
{
    &state.init_data
}

/// The registered handler, if any.
pub fn get_handler<H, C>(state: &PluginState<H, C>) -> (r: &Option<H>)
    ensures
        r == &state.handler,
{
    &state.handler
}

/// The registered descriptor, if any.
pub fn get_desc<H, C>(state: &PluginState<H, C>) -> (r: &Option<Desc>)
    ensures
        r == &state.desc,
{
    &state.desc
}

/// Stores a copy of the host's session data, or reports that it is missing
/// and leaves the session as it was.
fn set_init_data<H, C>(state: &mut PluginState<H, C>, info: Option<HostInitData<C>>) -> (r: PluginReturn)
    ensures
        session_of(info) is None ==> r@ == invalid_init_return() && *final(state) == *old(state),
        session_of(info) is Some ==> r@ == (0i32, Seq::<char>::empty()) && stored_session(final(state).init_data)
            == session_of(info) && final(state).handler == old(state).handler && final(state).desc == old(
            state,
        ).desc,
{
    match info {
        Some(i) => match i.version {
            Some(v) => {
                state.init_data = Some(InitData { version: v, cbs: i.cbs });
                PluginReturn::success()
            },
            None => PluginReturn::new(ERR_PLUGIN_MSG_INIT_INVALID, "Invalid InitData, null pointer"),
        },
        None => PluginReturn::new(ERR_PLUGIN_MSG_INIT_INVALID, "Invalid InitData, null pointer"),
    }
}

/// Registers the handler.
pub fn set_handler<H, C>(state: &mut PluginState<H, C>, handler: H)
    ensures
        final(state).handler == Some(handler),
        final(state).init_data == old(state).init_data,
        final(state).desc == old(state).desc,
{
    state.handler = Some(handler);
}

/// Registers the descriptor.
pub fn set_desc<H, C>(state: &mut PluginState<H, C>, desc: Desc)
    ensures
        final(state).desc == Some(desc),
        final(state).init_data == old(state).init_data,
        final(state).handler == old(state).handler,
{
    state.desc = Some(desc);
}

/// Starts a session: stores the host's data and registers the handler and the
/// descriptor. Fails, changing nothing, when the data or its version is
/// missing.
pub fn init<H, C>(state: &mut PluginState<H, C>, handler: H, desc: Desc, info: Option<HostInitData<C>>) -> (r:
    PluginReturn)
    ensures
        session_of(info) is None ==> r@ == invalid_init_return() && *final(state) == *old(state),
        session_of(info) is Some ==> r@ == (0i32, Seq::<char>::empty()) && stored_session(final(state).init_data)
            == session_of(info) && final(state).handler == Some(handler) && final(state).desc == Some(desc),
{
    let ret = set_init_data(state, info);
    if !ret.is_success() {
        return ret;
    }
    set_handler(state, handler);
    set_desc(state, desc);
    PluginReturn::success()
}

/// Replaces the session with the host's new data, keeping the handler and the
/// descriptor. Fails, changing nothing, when the data or its version is
/// missing.
pub fn reset<H, C>(state: &mut PluginState<H, C>, info: Option<HostInitData<C>>) -> (r: PluginReturn)
    ensures
        session_of(info) is None ==> r@ == invalid_init_return() && *final(state) == *old(state),
        session_of(info) is Some ==> r@ == (0i32, Seq::<char>::empty()) && stored_session(final(state).init_data)
            == session_of(info) && final(state).handler == old(state).handler && final(state).desc == old(
            state,
        ).desc,
{
    set_init_data(state, info)
}

/// Ends the session. Always succeeds.
pub fn clear<H, C>(state: &mut PluginState<H, C>) -> (r: PluginReturn)
    ensures
        r@ == (0i32, Seq::<char>::empty()),
        *final(state) == cleared(*old(state)),
{
    state.init_data = None;
    PluginReturn::success()
}

/// Clearing twice in a row leaves the same state as clearing once, with no
/// session; each clear reports success.
pub proof fn lemma_clear_idempotent<H, C>(s: PluginState<H, C>)
    ensures
        cleared(cleared(s)) == cleared(s),
        !cleared(s).is_initialized(),
        !cleared(cleared(s)).is_initialized(),
{
}

} // verus!
