//! The client's configuration and its lifecycle.
//!
//! The transport engine holds one client for the whole process. It has to
//! be initialised before anything else is asked of it; after that its
//! proxy and its impersonation profile can be replaced at any time, and
//! the last replacement counts. This module decides which call may be
//! made and keeps what this side knows of the engine's client. The calls
//! themselves are made by the caller, who brings back the engine's reply.

use vstd::prelude::*;

use crate::client::impersonate::ImpersonationConfig;
use crate::error::go_error::{GoError, GoErrorModel};
use crate::error::{ErrorModel, ErrorType};
use crate::ffi::{
    outcome_of, GoResultFfi, GoResultHttpResponseFfi, HttpRequestFfi, HttpRequestModel,
    ImpersonationConfigFfi, ImpersonationConfigModel,
};
use crate::headers::{
    flatten_entries, header_entries, ValueText, MAX_HEADER_CAPACITY, MIN_FULL_HEADER_NAMES,
};
use crate::request::{body_bytes, method_code_of, Request};
use crate::response::{decode_reply, Response};

pub mod codec;
pub mod impersonate;
pub mod shuffle;

pub use crate::ffi::ClientConfigFfi as ClientConfig;

verus! {

/// The impersonation profile that is in force: one of the engine's own,
/// by its number, or one that the caller sent.
#[derive(Debug, Clone, Copy, PartialEq, Eq)]
pub enum Profile {
    Template(u8),
    Custom,
}

/// A call that is to be made to the engine, with the record it takes.
#[derive(Debug, Clone, PartialEq, Eq)]
pub enum BoundaryCall {
    InitClient(ClientConfig),
    SetProxy(String),
    UpdateImpersonationConfig(ImpersonationConfigFfi),
}

/// The view of a [`BoundaryCall`].
pub ghost enum BoundaryCallModel {
    InitClient { proxy: Seq<char>, template: u8 },
    SetProxy { proxy: Seq<char> },
    UpdateImpersonationConfig { config: ImpersonationConfigModel },
}

impl View for BoundaryCall {
    type V = BoundaryCallModel;

    open spec fn view(&self) -> BoundaryCallModel {
        match *self {
            BoundaryCall::InitClient(config) => BoundaryCallModel::InitClient {
                proxy: config.proxy@,
                template: config.impersonation_template,
            },
            BoundaryCall::SetProxy(proxy) => BoundaryCallModel::SetProxy { proxy: proxy@ },
            BoundaryCall::UpdateImpersonationConfig(config) =>
                BoundaryCallModel::UpdateImpersonationConfig { config: config.deep_view() },
        }
    }
}

/// What this side knows of the engine's client: nothing before the first
/// successful initialisation, then the proxy and the profile in force.
#[derive(Debug)]
pub struct ClientState {
    active: Option<(String, Profile)>,
}

/// The view of a [`ClientState`].
pub ghost enum ClientStateModel {
    Uninitialized,
    Configured { proxy: Seq<char>, profile: Profile },
}

/// The state after the engine answered a call: a failed call changes
/// nothing. A successful initialisation configures the client with the
/// proxy and the template that were sent. A successful update of a
/// configured client replaces the proxy, or puts a profile of the
/// caller's in force. An update of a client that this side has not
/// initialised is not taken down, whatever the engine answered.
pub open spec fn next_state(
    state: ClientStateModel,
    call: BoundaryCallModel,
    succeeded: bool,
) -> ClientStateModel {
    if !succeeded {
        state
    } else {
        match (call, state) {
            (BoundaryCallModel::InitClient { proxy, template }, _) => ClientStateModel::Configured {
                proxy,
                profile: Profile::Template(template),
            },
            (
                BoundaryCallModel::SetProxy { proxy },
                ClientStateModel::Configured { profile, .. },
            ) => ClientStateModel::Configured { proxy, profile },
            (
                BoundaryCallModel::UpdateImpersonationConfig { .. },
                ClientStateModel::Configured { proxy, .. },
            ) => ClientStateModel::Configured { proxy, profile: Profile::Custom },
            (_, ClientStateModel::Uninitialized) => ClientStateModel::Uninitialized,
        }
    }
}

impl View for ClientState {
    type V = ClientStateModel;

    closed spec fn view(&self) -> ClientStateModel {
        match self.active {
            Some((proxy, profile)) => ClientStateModel::Configured { proxy: proxy@, profile },
            None => ClientStateModel::Uninitialized,
        }
    }
}

impl ClientState {
    /// The state of a process that has not initialised its client.
    pub fn new() -> (state: Self)
        ensures
            state@ == ClientStateModel::Uninitialized,
    {
        ClientState { active: None }
    }

    /// Whether the client was initialised.
    pub fn is_configured(&self) -> (configured: bool)
        ensures
            configured == (self@ is Configured),
    {
        self.active.is_some()
    }

    /// The profile in force, once the client was initialised.
    pub fn profile(&self) -> (profile: Option<Profile>)
        ensures
            match profile {
                Some(p) => self@ matches ClientStateModel::Configured { profile, .. } && profile == p,
                None => self@ is Uninitialized,
            },
    {
        match &self.active {
            Some((_, profile)) => Some(*profile),
            None => None,
        }
    }

    /// The proxy in force, once the client was initialised.
    pub fn proxy(&self) -> (proxy: Option<&str>)
        ensures
            match proxy {
                Some(p) => self@ matches ClientStateModel::Configured { proxy, .. } && proxy == p@,
                None => self@ is Uninitialized,
            },
    {
        match &self.active {
            Some((proxy, _)) => Some(proxy.as_str()),
            None => None,
        }
    }

    /// Refuses with `ClientNotInitialized` unless the client was
    /// initialised. Every call but the initialisation is guarded so.
    pub fn guard(&self) -> (r: Result<(), ErrorType>)
        ensures
            r is Ok <==> self@ is Configured,
            r matches Err(e) ==> e@ == ErrorModel::Engine(GoErrorModel::ClientNotInitialized),
    {
        if self.active.is_some() {
            Ok(())
        } else {
            Err(ErrorType::GoError(GoError::ClientNotInitialized))
        }
    }

    /// Takes the engine's reply to a call. The reply's code decides the
    /// result, as for every call; the state moves as [`next_state`] says,
    /// so that nothing is taken to be in force before the engine said so.
    pub fn complete(&mut self, call: BoundaryCall, reply: GoResultFfi) -> (r: Result<(), ErrorType>)
        ensures
            r is Ok <==> reply.code == 0,
            r matches Err(e) ==> Some(e@) == outcome_of(reply.code, reply.message@),
            final(self)@ == next_state(old(self)@, call@, reply.code == 0),
    {
        match reply.into_result() {
            Ok(()) => {},
            Err(e) => {
                return Err(e);
            },
        }
        match call {
            BoundaryCall::InitClient(config) => {
                self.active = Some((config.proxy, Profile::Template(config.impersonation_template)));
            },
            BoundaryCall::SetProxy(proxy) => {
                let profile = match &self.active {
                    Some((_, profile)) => Some(*profile),
                    None => None,
                };
                match profile {
                    Some(profile) => {
                        self.active = Some((proxy, profile));
                    },
                    None => {},
                }
            },
            BoundaryCall::UpdateImpersonationConfig(_) => {
                match self.active.take() {
                    Some((proxy, _)) => {
                        self.active = Some((proxy, Profile::Custom));
                    },
                    None => {},
                }
            },
        }
        Ok(())
    }
}

/// The call that initialises the engine's client. It is the first call to
/// make, and may be made again.
#[inline]
pub fn init_client(config: ClientConfig) -> (call: BoundaryCall)
    ensures
        call == BoundaryCall::InitClient(config),
{
    BoundaryCall::InitClient(config)
}

/// The call that replaces the proxy; refused with `ClientNotInitialized`
/// before the client was initialised.
#[inline]
pub fn set_proxy(state: &ClientState, proxy: String) -> (r: Result<BoundaryCall, ErrorType>)
    ensures
        match r {
            Ok(call) => state@ is Configured && call == BoundaryCall::SetProxy(proxy),
            Err(e) => state@ is Uninitialized && e@ == ErrorModel::Engine(
                GoErrorModel::ClientNotInitialized,
            ),
        },
{
    match state.guard() {
        Ok(()) => Ok(BoundaryCall::SetProxy(proxy)),
        Err(e) => Err(e),
    }
}

/// The call that puts a profile of the caller's in force, with the
/// profile in its flat form; refused with `ClientNotInitialized` before
/// the client was initialised.
#[inline]
pub fn update_impersonation_config(state: &ClientState, config: ImpersonationConfig) -> (r: Result<
    BoundaryCall,
    ErrorType,
>)
    ensures
        match r {
            Ok(call) => state@ is Configured && call@
                == (BoundaryCallModel::UpdateImpersonationConfig { config: config.encoded() }),
            Err(e) => state@ is Uninitialized && e@ == ErrorModel::Engine(
                GoErrorModel::ClientNotInitialized,
            ),
        },
{
    match state.guard() {
        Ok(()) => Ok(BoundaryCall::UpdateImpersonationConfig(ImpersonationConfigFfi::from(config))),
        Err(e) => Err(e),
    }
}

/// The record of the call that sends a request. A verb that the engine
/// does not know is refused first, with `UnsupportedHttpMethod`; then the
/// call is refused with `ClientNotInitialized` before the client was
/// initialised. Either way nothing is sent.
pub fn send(state: &ClientState, request: Request) -> (r: Result<HttpRequestFfi, ErrorType>)
    ensures
        match r {
            Ok(flat) => {
                &&& method_code_of(request.method.spec_name()) is Some
                &&& state@ is Configured
                &&& flat@ == (HttpRequestModel {
                    url: request.uri@,
                    method: method_code_of(request.method.spec_name())->0,
                    body: body_bytes(request.body),
                    headers: flatten_entries(header_entries(request.headers), ValueText::Utf8),
                })
            },
            Err(e) => if method_code_of(request.method.spec_name()) is None {
                e@ == ErrorModel::UnsupportedHttpMethod
            } else {
                state@ is Uninitialized && e@ == ErrorModel::Engine(
                    GoErrorModel::ClientNotInitialized,
                )
            },
        },
{
    let flat = match request.into_ffi() {
        Ok(flat) => flat,
        Err(e) => {
            return Err(e);
        },
    };
    match state.guard() {
        Ok(()) => Ok(flat),
        Err(e) => Err(e),
    }
}

/// What the engine's answer to a sent request becomes: on a code other
/// than zero the error that code and message stand for; on code zero the
/// response that the payload stands for, or none where it stands for none
/// (see [`Response::decode`]).
///
/// So an answer with code zero, a pair that names a version, a code from
/// 100 to 999 and fewer than [`MIN_FULL_HEADER_NAMES`] header records with
/// names and values in order always gives a response, with that version
/// and that code as its status.
pub fn receive(answer: GoResultHttpResponseFfi) -> (r: Result<Option<Response>, ErrorType>)
    ensures
        r is Ok <==> answer.code == 0,
        r matches Err(e) ==> Some(e@) == outcome_of(answer.code, answer.message@),
        r matches Ok(Some(response)) ==> decode_reply(answer.data@) == Some(response@),
        r matches Ok(None) ==> decode_reply(answer.data@) is None || decode_reply(
            answer.data@,
        )->0.headers.len() >= MIN_FULL_HEADER_NAMES || answer.data.headers.len()
            > MAX_HEADER_CAPACITY,
        answer.code == 0 && decode_reply(answer.data@) is None ==> r matches Ok(None),
        answer.code == 0 && answer.data.headers.len() < MIN_FULL_HEADER_NAMES && decode_reply(
            answer.data@,
        ) is Some ==> r matches Ok(Some(_)),
{
    match answer.into_result() {
        Ok(reply) => Ok(Response::decode(reply)),
        Err(e) => Err(e),
    }
}

// === Laws ===

/// An update that the engine accepted twice in a row leaves the state
/// that it left the first time, and of two accepted updates of the same
/// kind the later one counts.
pub proof fn lemma_updates_last_write_wins(
    state: ClientStateModel,
    first: BoundaryCallModel,
    second: BoundaryCallModel,
)
    ensures
        next_state(next_state(state, first, true), first, true) == next_state(state, first, true),
        (first is InitClient && second is InitClient) || (first is SetProxy && second is SetProxy)
            || (first is UpdateImpersonationConfig && second is UpdateImpersonationConfig)
            ==> next_state(next_state(state, first, true), second, true) == next_state(
            state,
            second,
            true,
        ),
{
}

/// Only a successful initialisation leads out of the uninitialised state,
/// and nothing leads back into it.
pub proof fn lemma_lifecycle(state: ClientStateModel, call: BoundaryCallModel, succeeded: bool)
    ensures
        state is Uninitialized ==> (next_state(state, call, succeeded) is Configured <==> succeeded
            && call is InitClient),
        state is Configured ==> next_state(state, call, succeeded) is Configured,
{
}

} // verus!
