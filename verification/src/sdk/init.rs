//! What happens when the SDK starts.
use crate::models::config::{all_parsers, parser_values};
use crate::models::error::{SdkError, SdkFault};
use crate::models::types::{Config, ExternalInputParser, Network, UpdateUserSettingsRequest};
use vstd::prelude::*;
use vstd::string::*;

verus! {

broadcast use vstd::string::group_string_axioms;

/// Whether a network can be used without an API key, as local tests do.
pub open spec fn needs_no_api_key(network: Network) -> bool {
    network == Network::Regtest || network == Network::Local
}

/// What the SDK starts with.
#[derive(Debug)]
pub struct StartPlan {
    /// The parsers to try on inputs that are not recognized
    pub external_input_parsers: Vec<ExternalInputParser>,
    /// What to run in the background, in this order
    pub tasks: Vec<StartupTask>,
}

/// What runs in the background once the SDK has started.
#[derive(Clone, Copy, Debug, PartialEq, Eq, Structural)]
pub enum StartupTask {
    InitializePrivateMode,
    PeriodicSync,
    RecoverLightningAddress,
}

/// The tasks of a configuration. Without a domain there is no Lightning address
/// to recover.
pub open spec fn startup_tasks(config: Config) -> Seq<StartupTask> {
    if config.lnurl_domain is Some {
        seq![
            StartupTask::InitializePrivateMode,
            StartupTask::PeriodicSync,
            StartupTask::RecoverLightningAddress,
        ]
    } else {
        seq![StartupTask::InitializePrivateMode, StartupTask::PeriodicSync]
    }
}

/// The API key that has to be validated before the SDK starts, if any.
pub fn api_key_to_validate(config: &Config) -> (res: Result<Option<&String>, SdkError>)
    ensures
        if needs_no_api_key(config.network) {
            res matches Ok(None)
        } else {
            match config.api_key {
                Some(k) => res matches Ok(Some(key)) && *key == k,
                None => res matches Err(e) && e@ == SdkFault::Generic("Missing Breez API key"@),
            }
        },
{
    match config.network {
        Network::Regtest | Network::Local => Ok(None),
        Network::Mainnet => match &config.api_key {
            Some(k) => Ok(Some(k)),
            None => Err(SdkError::Generic("Missing Breez API key".to_string())),
        },
    }
}

/// What the SDK starts with, where it may start. What validating the API key gave
/// is `validation`, which a network that needs no key does not look at.
pub fn init_and_start(config: &Config, validation: Result<(), SdkError>) -> (res: Result<
    StartPlan,
    SdkError,
>)
    ensures
        if !needs_no_api_key(config.network) && config.api_key is None {
            res matches Err(e) && e@ == SdkFault::Generic("Missing Breez API key"@)
        } else if !needs_no_api_key(config.network) && validation is Err {
            res matches Err(e) && e == validation->Err_0
        } else {
            &&& res matches Ok(plan)
            &&& parser_values(plan.external_input_parsers@) == all_parsers(*config)
            &&& plan.tasks@ == startup_tasks(*config)
        },
{
    match api_key_to_validate(config) {
        Err(e) => {
            return Err(e);
        },
        Ok(Some(_)) => {
            if let Err(e) = validation {
                return Err(e);
            }
        },
        Ok(None) => {},
    }
    let external_input_parsers = config.get_all_external_input_parsers();
    let mut tasks: Vec<StartupTask> = Vec::new();
    tasks.push(StartupTask::InitializePrivateMode);
    tasks.push(StartupTask::PeriodicSync);
    if config.lnurl_domain.is_some() {
        tasks.push(StartupTask::RecoverLightningAddress);
    }
    assert(tasks@ =~= startup_tasks(*config));
    Ok(StartPlan { external_input_parsers, tasks })
}

/// What setting up the private mode waits for.
#[derive(Clone, Copy, Debug, PartialEq, Eq, Structural)]
pub enum PrivateModeState {
    /// Whether it was set up before is being looked up
    Fetching,
    /// The private mode is being enabled
    Enabling,
    /// That it is set up is being stored
    Saving,
    /// It is set up, and is not looked at again
    Initialized,
    /// Something failed, and another attempt starts over
    Failed,
}

/// What has come back.
#[derive(Clone, Copy, Debug, PartialEq, Eq, Structural)]
pub enum PrivateModeEvent {
    /// Whether it was set up before
    Fetched(bool),
    /// What was asked for is done
    Done,
    /// What was asked for has failed
    Error,
}

/// The next state. The private mode is enabled only where the configuration asks
/// for it, and that it is set up is stored only once it is.
pub open spec fn next_private_mode_state(
    private_enabled_default: bool,
    state: PrivateModeState,
    event: PrivateModeEvent,
) -> PrivateModeState {
    match (state, event) {
        (PrivateModeState::Initialized, _) => PrivateModeState::Initialized,
        (_, PrivateModeEvent::Error) => PrivateModeState::Failed,
        (PrivateModeState::Fetching, PrivateModeEvent::Fetched(true)) => {
            PrivateModeState::Initialized
        },
        (PrivateModeState::Fetching, PrivateModeEvent::Fetched(false)) => {
            if private_enabled_default {
                PrivateModeState::Enabling
            } else {
                PrivateModeState::Saving
            }
        },
        (PrivateModeState::Enabling, PrivateModeEvent::Done) => PrivateModeState::Saving,
        (PrivateModeState::Saving, PrivateModeEvent::Done) => PrivateModeState::Initialized,
        _ => state,
    }
}

pub fn ensure_spark_private_mode_initialized(
    private_enabled_default: bool,
    state: PrivateModeState,
    event: PrivateModeEvent,
) -> (res: PrivateModeState)
    ensures
        res == next_private_mode_state(private_enabled_default, state, event),
{
    match (state, event) {
        (PrivateModeState::Initialized, _) => PrivateModeState::Initialized,
        (_, PrivateModeEvent::Error) => PrivateModeState::Failed,
        (PrivateModeState::Fetching, PrivateModeEvent::Fetched(true)) => {
            PrivateModeState::Initialized
        },
        (PrivateModeState::Fetching, PrivateModeEvent::Fetched(false)) => {
            if private_enabled_default {
                PrivateModeState::Enabling
            } else {
                PrivateModeState::Saving
            }
        },
        (PrivateModeState::Enabling, PrivateModeEvent::Done) => PrivateModeState::Saving,
        (PrivateModeState::Saving, PrivateModeEvent::Done) => PrivateModeState::Initialized,
        _ => state,
    }
}

/// The settings that enable the private mode and leave the rest as it is.
pub fn private_mode_settings() -> (res: UpdateUserSettingsRequest)
    ensures
        res.spark_private_mode_enabled == Some(true),
        res.stable_balance_active_label is None,
{
    UpdateUserSettingsRequest {
        spark_private_mode_enabled: Some(true),
        stable_balance_active_label: None,
    }
}

/// The state after a series of events.
pub open spec fn private_mode_after(
    private_enabled_default: bool,
    events: Seq<PrivateModeEvent>,
) -> PrivateModeState
    decreases events.len(),
{
    if events.len() == 0 {
        PrivateModeState::Fetching
    } else {
        next_private_mode_state(
            private_enabled_default,
            private_mode_after(private_enabled_default, events.drop_last()),
            events.last(),
        )
    }
}

/// Once set up it stays so, whatever comes back; and without the configuration
/// asking for it, the private mode is never enabled.
pub proof fn private_mode_is_settled(
    private_enabled_default: bool,
    events: Seq<PrivateModeEvent>,
    event: PrivateModeEvent,
)
    ensures
        private_mode_after(private_enabled_default, events) == PrivateModeState::Initialized
            ==> private_mode_after(private_enabled_default, events.push(event))
            == PrivateModeState::Initialized,
        !private_enabled_default ==> private_mode_after(private_enabled_default, events)
            != PrivateModeState::Enabling,
    decreases events.len(),
{
    assert(events.push(event).drop_last() =~= events);
    if events.len() > 0 {
        private_mode_is_settled(private_enabled_default, events.drop_last(), event);
    }
}

/// Whether enabling the private mode has succeeded among the events.
pub open spec fn was_enabled(events: Seq<PrivateModeEvent>) -> bool {
    exists|k: int|
        0 <= k < events.len() && #[trigger] events[k] == PrivateModeEvent::Done
            && private_mode_after(true, events.take(k)) == PrivateModeState::Enabling
}

/// Where the configuration asks for the private mode, that it is set up is stored
/// only once it has been enabled.
pub proof fn private_mode_is_enabled_first(events: Seq<PrivateModeEvent>)
    requires
        private_mode_after(true, events) == PrivateModeState::Saving,
    ensures
        was_enabled(events),
    decreases events.len(),
{
    let before = events.drop_last();
    let last = events.len() - 1;
    if private_mode_after(true, before) == PrivateModeState::Saving {
        private_mode_is_enabled_first(before);
        let k = choose|k: int|
            0 <= k < before.len() && #[trigger] before[k] == PrivateModeEvent::Done
                && private_mode_after(true, before.take(k)) == PrivateModeState::Enabling;
        assert(events.take(k) =~= before.take(k));
        assert(events[k] == PrivateModeEvent::Done);
    } else {
        assert(events.take(last) =~= before);
        assert(events[last] == PrivateModeEvent::Done);
    }
}

/// The private mode is set up first, then the wallet is synced; a Lightning address is
/// recovered last, and only where there is a domain.
pub proof fn tasks_start_in_order(config: Config)
    ensures
        startup_tasks(config)[0] == StartupTask::InitializePrivateMode,
        startup_tasks(config)[1] == StartupTask::PeriodicSync,
        config.lnurl_domain is None <==> startup_tasks(config).len() == 2,
        config.lnurl_domain is Some ==> startup_tasks(config).len() == 3 && startup_tasks(config)[2]
            == StartupTask::RecoverLightningAddress,
        needs_no_api_key(config.network) <==> config.network != Network::Mainnet,
{
}

/// How the private mode is set up, step by step: where it was set up before nothing is
/// done; otherwise it is enabled, if the configuration asks for it, and then stored. Any
/// failure ends the attempt, and no other event does.
pub proof fn private_mode_goes_step_by_step(
    enabled: bool,
    state: PrivateModeState,
    event: PrivateModeEvent,
)
    ensures
        next_private_mode_state(
            enabled,
            PrivateModeState::Fetching,
            PrivateModeEvent::Fetched(true),
        ) == PrivateModeState::Initialized,
        next_private_mode_state(
            true,
            PrivateModeState::Fetching,
            PrivateModeEvent::Fetched(false),
        ) == PrivateModeState::Enabling,
        next_private_mode_state(
            false,
            PrivateModeState::Fetching,
            PrivateModeEvent::Fetched(false),
        ) == PrivateModeState::Saving,
        next_private_mode_state(enabled, PrivateModeState::Enabling, PrivateModeEvent::Done)
            == PrivateModeState::Saving,
        next_private_mode_state(enabled, PrivateModeState::Saving, PrivateModeEvent::Done)
            == PrivateModeState::Initialized,
        state != PrivateModeState::Initialized && state != PrivateModeState::Failed ==> (
        next_private_mode_state(enabled, state, event) == PrivateModeState::Failed <==> event
            == PrivateModeEvent::Error),
        next_private_mode_state(enabled, PrivateModeState::Initialized, event)
            == PrivateModeState::Initialized,
{
}

} // verus!
