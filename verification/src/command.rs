//! The host's commands as the plugin core sees them, and what it answers.
//!
//! The core does not talk to the host. It is handed a [`Command`] and answers
//! with the list of actions to perform, in order; whoever embeds the core
//! performs them.

use crate::error::Error;
use crate::param::ParamIdx;
use vstd::prelude::*;

verus! {

/// The text of the dialog that describes the plugin.
pub const ABOUT_MESSAGE: &'static str = "Golobulus: The adder plods where it ought not.";

/// The name under which the plugin registers with the host.
pub const PLUGIN_NAME: &'static str = "Golobulus";

/// How long the host waits between two idle notifications, in milliseconds.
pub const IDLE_INTERVAL_MS: u32 = 1800;

/// A command of the host, reduced to what the core decides on.
#[derive(Clone, Copy, Debug, PartialEq, Eq, Structural)]
pub enum Command {
    About,
    GlobalSetup,
    /// A draw or interaction event of the custom user interface.
    Event,
    UpdateParamsUi,
    UserChangedParam { param: ParamIdx },
    SmartPreRender,
    SmartRender,
    /// The effect was applied: a new instance begins.
    SequenceSetup,
    /// An instance was read back from storage, or copied.
    SequenceResetup,
    /// Any command that the core has no answer to.
    Other,
}

/// What the plugin as a whole asks of its host.
#[derive(Clone, Copy, Debug, PartialEq, Eq, Structural)]
pub enum GlobalAction {
    /// Show [`ABOUT_MESSAGE`].
    ShowAbout,
    InitLogging,
    SetUpEnvironment,
    /// Register under [`PLUGIN_NAME`]; the identifier that the host returns
    /// is stored with `GlobalPlugin::set_plugin_id`.
    RegisterPlugin,
    /// Have the idle bridge called on the main thread at this interval.
    RegisterIdleTask { interval_ms: u32 },
}

/// What one instance asks of its host and of the script engine.
#[derive(Debug, PartialEq, Eq)]
pub enum InstanceAction {
    /// Show [`ABOUT_MESSAGE`].
    ShowAbout,
    DrawUi,
    UpdateParamDefaultsAndLabels,
    UpdateInputVisibilities,
    HandleParamInteraction(ParamIdx),
    SmartPreRender,
    SmartRender,
    /// Point the script engine at this environment.
    SetVenvPath(String),
    /// Resolve the script's imports against this directory.
    SetScriptParentDirectory(String),
    /// Load this script source, synchronously.
    LoadScript(String),
}

impl InstanceAction {
    /// The error that the command fails with if this action fails. Only the
    /// loading of a script is answered by the core; every other failure is
    /// the host's own and is passed on as it is.
    pub open spec fn spec_failure(self) -> Option<Error> {
        match self {
            InstanceAction::LoadScript(_) => Some(Error::ScriptLoadError),
            _ => None,
        }
    }

    /// See [`InstanceAction::spec_failure`].
    pub fn failure(&self) -> (error: Option<Error>)
        ensures
            error == self.spec_failure(),
    {
        match self {
            InstanceAction::LoadScript(_) => Some(Error::ScriptLoadError),
            _ => None,
        }
    }
}

/// The answer of the plugin as a whole to a command: the about dialog, the
/// four steps of global setup in their order, and nothing for the rest.
/// Global setup is answered once: a plugin that is registered with the host
/// has no steps left to take.
pub open spec fn global_plan(command: Command, registered: bool) -> Seq<GlobalAction> {
    match command {
        Command::About => seq![GlobalAction::ShowAbout],
        Command::GlobalSetup => if registered {
            Seq::empty()
        } else {
            seq![
                GlobalAction::InitLogging,
                GlobalAction::SetUpEnvironment,
                GlobalAction::RegisterPlugin,
                GlobalAction::RegisterIdleTask { interval_ms: IDLE_INTERVAL_MS },
            ]
        },
        _ => Seq::empty(),
    }
}

/// The answer of an instance to a command that does not depend on its state.
/// Setup and resetup depend on it and are answered by the instance.
pub open spec fn stateless_plan(command: Command) -> Seq<InstanceAction> {
    match command {
        Command::About => seq![InstanceAction::ShowAbout],
        Command::Event => seq![InstanceAction::DrawUi],
        Command::UpdateParamsUi => seq![
            InstanceAction::UpdateParamDefaultsAndLabels,
            InstanceAction::UpdateInputVisibilities,
        ],
        Command::UserChangedParam { param } => seq![InstanceAction::HandleParamInteraction(param)],
        Command::SmartPreRender => seq![InstanceAction::SmartPreRender],
        Command::SmartRender => seq![InstanceAction::SmartRender],
        _ => Seq::empty(),
    }
}

/// Computes [`global_plan`].
pub fn plan_global(command: Command, registered: bool) -> (plan: Vec<GlobalAction>)
    ensures
        plan@ == global_plan(command, registered),
{
    let mut plan: Vec<GlobalAction> = Vec::new();
    match command {
        Command::About => {
            plan.push(GlobalAction::ShowAbout);
        },
        Command::GlobalSetup => {
            if !registered {
                plan.push(GlobalAction::InitLogging);
                plan.push(GlobalAction::SetUpEnvironment);
                plan.push(GlobalAction::RegisterPlugin);
                plan.push(GlobalAction::RegisterIdleTask { interval_ms: IDLE_INTERVAL_MS });
            }
        },
        _ => {},
    }
    plan
}

/// Computes [`stateless_plan`].
pub fn plan_stateless(command: Command) -> (plan: Vec<InstanceAction>)
    ensures
        plan@ == stateless_plan(command),
{
    let mut plan: Vec<InstanceAction> = Vec::new();
    match command {
        Command::About => {
            plan.push(InstanceAction::ShowAbout);
        },
        Command::Event => {
            plan.push(InstanceAction::DrawUi);
        },
        Command::UpdateParamsUi => {
            plan.push(InstanceAction::UpdateParamDefaultsAndLabels);
            plan.push(InstanceAction::UpdateInputVisibilities);
        },
        Command::UserChangedParam { param } => {
            plan.push(InstanceAction::HandleParamInteraction(param));
        },
        Command::SmartPreRender => {
            plan.push(InstanceAction::SmartPreRender);
        },
        Command::SmartRender => {
            plan.push(InstanceAction::SmartRender);
        },
        _ => {},
    }
    plan
}

} // verus!
