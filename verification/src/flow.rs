//! The protocol's state machine: one process run of the authentication
//! flow, as a pure transition function.
//!
//! The runner (outside the library) performs one outside action per state —
//! check the jar, send a request, write the store file — and hands the
//! outcome back as an event. `step` decides what the flow does with it.
//! The transitions are strictly sequential: a cached session goes straight
//! to whoami, a fresh flow runs login, confirm, claim and save in that
//! order, and each step's output is threaded into the next through the
//! state. Any failed step simply has no event: the runner aborts the run.

use crate::session::{AuthResponse, UserData, VerifyResponse};
use vstd::prelude::*;

verus! {

/// Where one run of the flow stands, with the value the next step needs.
#[derive(Debug)]
pub enum FlowState {
    /// Nothing looked at yet: the jar must be checked first.
    Start,
    /// No cached session was found: the login step is next.
    NeedsEmail,
    /// Login issued this pending-session identifier: the one-time code must
    /// be confirmed against it.
    AwaitCode { pending: String },
    /// The broker minted this bearer credential: it buys the session cookie.
    ReadyToClaim { id_token: String },
    /// Claim succeeded and returned this informational text; the refreshed
    /// jar must be persisted before anything else.
    ReadyToSave { claimed: String },
    /// A session is in place — restored from the jar (`cached`) or freshly
    /// claimed and saved — and whoami confirms it.
    ReadyToWhoami { cached: bool },
    /// Whoami answered: the run is over, with the identity it reported.
    Finished { email: Option<String> },
}

/// The outcome of the one outside action a state calls for.
#[derive(Debug)]
pub enum FlowEvent {
    /// The jar was checked: whether a session cookie was found, and its value.
    SessionChecked { found: bool, token: String },
    /// The login response decoded.
    LoggedIn { resp: AuthResponse },
    /// The confirm response decoded.
    Confirmed { resp: VerifyResponse },
    /// The claim response's plain-text body.
    Claimed { body: String },
    /// The jar was written to the store file.
    Saved,
    /// The whoami response decoded.
    Identified { user: UserData },
}

/// The transition relation: the state after `e` happens in `s`, or `None`
/// when `e` is not the event `s` is waiting for.
pub open spec fn step_spec(s: FlowState, e: FlowEvent) -> Option<FlowState> {
    match (s, e) {
        (FlowState::Start, FlowEvent::SessionChecked { found, .. }) => {
            if found {
                Some(FlowState::ReadyToWhoami { cached: true })
            } else {
                Some(FlowState::NeedsEmail)
            }
        },
        (FlowState::NeedsEmail, FlowEvent::LoggedIn { resp }) => {
            Some(FlowState::AwaitCode { pending: resp.session })
        },
        (FlowState::AwaitCode { .. }, FlowEvent::Confirmed { resp }) => {
            Some(FlowState::ReadyToClaim { id_token: resp.id_token })
        },
        (FlowState::ReadyToClaim { .. }, FlowEvent::Claimed { body }) => {
            Some(FlowState::ReadyToSave { claimed: body })
        },
        (FlowState::ReadyToSave { .. }, FlowEvent::Saved) => {
            Some(FlowState::ReadyToWhoami { cached: false })
        },
        (FlowState::ReadyToWhoami { .. }, FlowEvent::Identified { user }) => {
            Some(FlowState::Finished { email: user.email })
        },
        _ => None,
    }
}

/// Advances the flow by one event.
pub fn step(s: FlowState, e: FlowEvent) -> (r: Option<FlowState>)
    ensures
        r == step_spec(s, e),
{
    match (s, e) {
        (FlowState::Start, FlowEvent::SessionChecked { found, token: _ }) => {
            if found {
                Some(FlowState::ReadyToWhoami { cached: true })
            } else {
                Some(FlowState::NeedsEmail)
            }
        },
        (FlowState::NeedsEmail, FlowEvent::LoggedIn { resp }) => {
            Some(FlowState::AwaitCode { pending: resp.session })
        },
        (FlowState::AwaitCode { pending: _ }, FlowEvent::Confirmed { resp }) => {
            Some(FlowState::ReadyToClaim { id_token: resp.id_token })
        },
        (FlowState::ReadyToClaim { id_token: _ }, FlowEvent::Claimed { body }) => {
            Some(FlowState::ReadyToSave { claimed: body })
        },
        (FlowState::ReadyToSave { claimed: _ }, FlowEvent::Saved) => {
            Some(FlowState::ReadyToWhoami { cached: false })
        },
        (FlowState::ReadyToWhoami { cached: _ }, FlowEvent::Identified { user }) => {
            Some(FlowState::Finished { email: user.email })
        },
        _ => None,
    }
}

/// A found session short-circuits: checking the jar in `Start` and finding
/// a cookie goes straight to whoami, and from there no event but the
/// whoami answer is accepted — login, confirm, claim and save cannot run.
pub proof fn lemma_cached_session_short_circuits(token: String)
    ensures
        step_spec(
            FlowState::Start,
            FlowEvent::SessionChecked { found: true, token },
        ) == Some(FlowState::ReadyToWhoami { cached: true }),
        forall|cached: bool, e: FlowEvent|
            #[trigger] step_spec(FlowState::ReadyToWhoami { cached }, e) is Some
                ==> e is Identified,
{
}

/// The steps only run in protocol order: each of the later events is
/// accepted in exactly one state, the one its predecessor produced.
pub proof fn lemma_strict_order(s: FlowState, e: FlowEvent)
    ensures
        step_spec(s, e) is Some && e is SessionChecked ==> s is Start,
        step_spec(s, e) is Some && e is LoggedIn ==> s is NeedsEmail,
        step_spec(s, e) is Some && e is Confirmed ==> s is AwaitCode,
        step_spec(s, e) is Some && e is Claimed ==> s is ReadyToClaim,
        step_spec(s, e) is Some && e is Saved ==> s is ReadyToSave,
        step_spec(s, e) is Some && e is Identified ==> s is ReadyToWhoami,
{
}

/// A fresh flow threads each remote call's output into the next step: the
/// pending session the login returned is what the confirm step holds, the
/// bearer credential the broker minted is what the claim step spends, and
/// only after the save does whoami end the run with the reported identity.
pub proof fn lemma_fresh_flow_threads(
    token: String,
    a: AuthResponse,
    v: VerifyResponse,
    body: String,
    user: UserData,
)
    ensures
        step_spec(
            FlowState::Start,
            FlowEvent::SessionChecked { found: false, token },
        ) == Some(FlowState::NeedsEmail),
        step_spec(FlowState::NeedsEmail, FlowEvent::LoggedIn { resp: a }) == Some(
            FlowState::AwaitCode { pending: a.session },
        ),
        step_spec(
            FlowState::AwaitCode { pending: a.session },
            FlowEvent::Confirmed { resp: v },
        ) == Some(FlowState::ReadyToClaim { id_token: v.id_token }),
        step_spec(
            FlowState::ReadyToClaim { id_token: v.id_token },
            FlowEvent::Claimed { body },
        ) == Some(FlowState::ReadyToSave { claimed: body }),
        step_spec(FlowState::ReadyToSave { claimed: body }, FlowEvent::Saved) == Some(
            FlowState::ReadyToWhoami { cached: false },
        ),
        step_spec(
            FlowState::ReadyToWhoami { cached: false },
            FlowEvent::Identified { user },
        ) == Some(FlowState::Finished { email: user.email }),
{
}

/// A finished flow is terminal: no further event is accepted.
pub proof fn lemma_finished_is_terminal(email: Option<String>, e: FlowEvent)
    ensures
        step_spec(FlowState::Finished { email }, e) is None,
{
}

} // verus!
