use vstd::prelude::*;
use crate::endpoint::Endpoint;
use crate::error::PatliteError;

verus! {

/// How far the activation of an endpoint has come.
#[derive(Clone, Copy, Debug, PartialEq, Eq, Structural)]
pub enum SetupState {
    /// Nothing has been asked of the device yet.
    Start,
    /// The configuration is active.
    ConfigurationSet,
    /// The interface is claimed.
    InterfaceClaimed,
    /// The alternate setting is selected: frames can be sent.
    Ready,
    /// The last step failed with the interface claimed: it has to be given
    /// back.
    Releasing,
    /// The activation failed, and nothing is held.
    Failed,
}

/// What to ask of the device next.
#[derive(Clone, Copy, Debug, PartialEq, Eq, Structural)]
pub enum SetupAction {
    SetActiveConfiguration { config: u8 },
    ClaimInterface { iface: u8 },
    SetAlternateSetting { iface: u8, setting: u8 },
    ReleaseInterface { iface: u8 },
    /// The activation is over.
    Stop,
}

/// The request that belongs to a state: configuration, claim and alternate
/// setting in that order, and the release of the interface after a failure
/// that left it claimed.
pub open spec fn action_in(state: SetupState, endpoint: Endpoint) -> SetupAction {
    match state {
        SetupState::Start => SetupAction::SetActiveConfiguration { config: endpoint.config },
        SetupState::ConfigurationSet => SetupAction::ClaimInterface { iface: endpoint.iface },
        SetupState::InterfaceClaimed => SetupAction::SetAlternateSetting {
            iface: endpoint.iface,
            setting: endpoint.setting,
        },
        SetupState::Releasing => SetupAction::ReleaseInterface { iface: endpoint.iface },
        SetupState::Ready => SetupAction::Stop,
        SetupState::Failed => SetupAction::Stop,
    }
}

/// The state that follows `state` once its request has succeeded or failed.
/// A failure ends the activation; nothing is tried a second time.
pub open spec fn state_after(state: SetupState, succeeded: bool) -> SetupState {
    match state {
        SetupState::Start => if succeeded {
            SetupState::ConfigurationSet
        } else {
            SetupState::Failed
        },
        SetupState::ConfigurationSet => if succeeded {
            SetupState::InterfaceClaimed
        } else {
            SetupState::Failed
        },
        SetupState::InterfaceClaimed => if succeeded {
            SetupState::Ready
        } else {
            SetupState::Releasing
        },
        SetupState::Releasing => SetupState::Failed,
        SetupState::Ready => SetupState::Ready,
        SetupState::Failed => SetupState::Failed,
    }
}

/// Whether the interface is claimed in `state`.
pub open spec fn holds_interface(state: SetupState) -> bool {
    state == SetupState::InterfaceClaimed || state == SetupState::Ready || state
        == SetupState::Releasing
}

/// The state reached from `state` when the requests end as `outcomes` say, one
/// after the other.
pub open spec fn state_after_all(state: SetupState, outcomes: Seq<bool>) -> SetupState
    decreases outcomes.len(),
{
    if outcomes.len() == 0 {
        state
    } else {
        state_after_all(state_after(state, outcomes[0]), outcomes.drop_first())
    }
}

/// The request to make of the device in `state` to activate `endpoint`.
pub fn configure_endpoint(state: SetupState, endpoint: &Endpoint) -> (action: SetupAction)
    ensures
        action == action_in(state, *endpoint),
{
    match state {
        SetupState::Start => SetupAction::SetActiveConfiguration { config: endpoint.config },
        SetupState::ConfigurationSet => SetupAction::ClaimInterface { iface: endpoint.iface },
        SetupState::InterfaceClaimed => SetupAction::SetAlternateSetting {
            iface: endpoint.iface,
            setting: endpoint.setting,
        },
        SetupState::Releasing => SetupAction::ReleaseInterface { iface: endpoint.iface },
        SetupState::Ready => SetupAction::Stop,
        SetupState::Failed => SetupAction::Stop,
    }
}

/// The state that follows `state` once its request has succeeded or failed.
pub fn advance(state: SetupState, succeeded: bool) -> (next: SetupState)
    ensures
        next == state_after(state, succeeded),
{
    match state {
        SetupState::Start => if succeeded {
            SetupState::ConfigurationSet
        } else {
            SetupState::Failed
        },
        SetupState::ConfigurationSet => if succeeded {
            SetupState::InterfaceClaimed
        } else {
            SetupState::Failed
        },
        SetupState::InterfaceClaimed => if succeeded {
            SetupState::Ready
        } else {
            SetupState::Releasing
        },
        SetupState::Releasing => SetupState::Failed,
        SetupState::Ready => SetupState::Ready,
        SetupState::Failed => SetupState::Failed,
    }
}

/// How the activation ended: nothing while it is under way, success once the
/// endpoint is ready, and a configuration failure once it has failed.
pub fn setup_result(state: SetupState) -> (result: Option<Result<(), PatliteError>>)
    ensures
        state == SetupState::Ready ==> result == Some(Ok::<(), PatliteError>(())),
        state == SetupState::Failed ==> result == Some(
            Err::<(), PatliteError>(PatliteError::ConfigurationFailed),
        ),
        state != SetupState::Ready && state != SetupState::Failed ==> result.is_none(),
{
    match state {
        SetupState::Ready => Some(Ok(())),
        SetupState::Failed => Some(Err(PatliteError::ConfigurationFailed)),
        _ => None,
    }
}

/// The interface to give back when the device is left in `state`: the
/// endpoint's, wherever it is claimed, and none elsewhere.
pub fn interface_to_release(state: SetupState, endpoint: &Endpoint) -> (iface: Option<u8>)
    ensures
        holds_interface(state) ==> iface == Some(endpoint.iface),
        !holds_interface(state) ==> iface.is_none(),
{
    match state {
        SetupState::InterfaceClaimed => Some(endpoint.iface),
        SetupState::Ready => Some(endpoint.iface),
        SetupState::Releasing => Some(endpoint.iface),
        _ => None,
    }
}

/// Once the activation has ended, no further outcome changes its state.
pub proof fn lemma_ended_stays(state: SetupState, outcomes: Seq<bool>)
    requires
        state == SetupState::Ready || state == SetupState::Failed,
    ensures
        state_after_all(state, outcomes) == state,
    decreases outcomes.len(),
{
    if outcomes.len() > 0 {
        lemma_ended_stays(state, outcomes.drop_first());
    }
}

/// Three successes in a row make the endpoint ready.
pub proof fn lemma_three_successes_ready()
    ensures
        state_after_all(SetupState::Start, seq![true, true, true]) == SetupState::Ready,
{
    let all = seq![true, true, true];
    let two = all.drop_first();
    let one = two.drop_first();
    let none = one.drop_first();
    assert(none.len() == 0);
    assert(state_after_all(SetupState::Ready, none) == SetupState::Ready);
    assert(state_after_all(SetupState::InterfaceClaimed, one) == SetupState::Ready);
    assert(state_after_all(SetupState::ConfigurationSet, two) == SetupState::Ready);
}

/// The endpoint is ready only when configuration, claim and alternate
/// setting have all succeeded, and after four requests at most the
/// activation has ended, whatever their outcomes.
pub proof fn lemma_setup_ends(outcomes: Seq<bool>)
    ensures
        state_after_all(SetupState::Start, outcomes) == SetupState::Ready ==> outcomes.len() >= 3
            && outcomes[0] && outcomes[1] && outcomes[2],
        outcomes.len() >= 3 && outcomes[0] && outcomes[1] && outcomes[2] ==> state_after_all(
            SetupState::Start,
            outcomes,
        ) == SetupState::Ready,
        outcomes.len() >= 4 ==> state_after_all(SetupState::Start, outcomes) == SetupState::Ready
            || state_after_all(SetupState::Start, outcomes) == SetupState::Failed,
{
    let s0 = SetupState::Start;
    if outcomes.len() >= 1 {
        let o1 = outcomes.drop_first();
        let s1 = state_after(s0, outcomes[0]);
        assert(state_after_all(s0, outcomes) == state_after_all(s1, o1));
        lemma_ended_stays(SetupState::Failed, o1);
        if o1.len() >= 1 {
            let o2 = o1.drop_first();
            let s2 = state_after(s1, o1[0]);
            assert(o1[0] == outcomes[1]);
            assert(state_after_all(s1, o1) == state_after_all(s2, o2));
            lemma_ended_stays(SetupState::Failed, o2);
            if o2.len() >= 1 {
                let o3 = o2.drop_first();
                let s3 = state_after(s2, o2[0]);
                assert(o2[0] == outcomes[2]);
                assert(state_after_all(s2, o2) == state_after_all(s3, o3));
                lemma_ended_stays(SetupState::Failed, o3);
                lemma_ended_stays(SetupState::Ready, o3);
                if o3.len() >= 1 {
                    let o4 = o3.drop_first();
                    let s4 = state_after(s3, o3[0]);
                    assert(state_after_all(s3, o3) == state_after_all(s4, o4));
                    lemma_ended_stays(SetupState::Failed, o4);
                    lemma_ended_stays(SetupState::Ready, o4);
                }
            }
        }
    }
}

/// A claimed interface is never dropped silently: the only request after
/// which it is no longer held is the one that releases it.
pub proof fn lemma_release_before_failure(state: SetupState, succeeded: bool, endpoint: Endpoint)
    requires
        holds_interface(state),
        !holds_interface(state_after(state, succeeded)),
    ensures
        action_in(state, endpoint) == (SetupAction::ReleaseInterface { iface: endpoint.iface }),
        state_after(state, succeeded) == SetupState::Failed,
{
}

} // verus!
