use golob_plugin::command::{
    plan_global, plan_stateless, Command, GlobalAction, InstanceAction, ABOUT_MESSAGE,
    IDLE_INTERVAL_MS, PLUGIN_NAME,
};
use golob_plugin::error::Error;
use golob_plugin::instance::Instance;
use golob_plugin::job::JobId;
use golob_plugin::param::ParamIdx;
use golob_plugin::plugin::GlobalPlugin;

fn scripted() -> Instance {
    Instance {
        id: 9,
        src: Some(String::from("print(1)")),
        venv_path: Some(String::from("/venvs/golob")),
        last_known_path: Some(String::from("/scripts/effects/glow.py")),
        active_job: Some(JobId { raw: 4 }),
    }
}

#[test]
fn the_about_dialog_names_the_plugin() {
    assert_eq!(ABOUT_MESSAGE, "Golobulus: The adder plods where it ought not.");
    assert_eq!(PLUGIN_NAME, "Golobulus");
    assert_eq!(plan_global(Command::About, false), vec![GlobalAction::ShowAbout]);
    assert_eq!(plan_global(Command::About, true), vec![GlobalAction::ShowAbout]);
    assert_eq!(plan_stateless(Command::About), vec![InstanceAction::ShowAbout]);
}

#[test]
fn global_setup_registers_the_plugin_and_then_the_idle_task() {
    let mut plugin = GlobalPlugin::new();
    assert_eq!(
        plugin.handle_command(Command::GlobalSetup),
        vec![
            GlobalAction::InitLogging,
            GlobalAction::SetUpEnvironment,
            GlobalAction::RegisterPlugin,
            GlobalAction::RegisterIdleTask { interval_ms: 1800 },
        ]
    );
    assert_eq!(IDLE_INTERVAL_MS, 1800);
}

#[test]
fn global_setup_is_answered_once() {
    let mut plugin = GlobalPlugin::new();
    assert_eq!(plugin.handle_command(Command::GlobalSetup).len(), 4);
    assert_eq!(plugin.handle_command(Command::GlobalSetup).len(), 4);
    assert!(plugin.set_plugin_id(11));
    assert!(plugin.handle_command(Command::GlobalSetup).is_empty());
    assert!(plan_global(Command::GlobalSetup, true).is_empty());
}

#[test]
fn the_plugin_has_no_answer_to_other_commands() {
    let mut plugin = GlobalPlugin::new();
    for command in [
        Command::Event,
        Command::UpdateParamsUi,
        Command::UserChangedParam { param: ParamIdx::LoadButton },
        Command::SmartPreRender,
        Command::SmartRender,
        Command::SequenceSetup,
        Command::SequenceResetup,
        Command::Other,
    ] {
        assert!(plugin.handle_command(command).is_empty());
    }
    assert_eq!(plugin.handle_command(Command::About), vec![GlobalAction::ShowAbout]);
}

#[test]
fn the_plugin_id_is_set_once() {
    let mut plugin = GlobalPlugin::new();
    assert_eq!(plugin.plugin_id(), None);
    assert!(plugin.set_plugin_id(42));
    assert_eq!(plugin.plugin_id(), Some(42));
    assert!(!plugin.set_plugin_id(43));
    assert_eq!(plugin.plugin_id(), Some(42));
}

#[test]
fn an_instance_answers_the_commands_that_need_no_state() {
    let mut instance = scripted();
    assert_eq!(instance.handle_command(Command::About), vec![InstanceAction::ShowAbout]);
    assert_eq!(instance.handle_command(Command::Event), vec![InstanceAction::DrawUi]);
    assert_eq!(
        instance.handle_command(Command::UpdateParamsUi),
        vec![InstanceAction::UpdateParamDefaultsAndLabels, InstanceAction::UpdateInputVisibilities]
    );
    assert_eq!(
        instance.handle_command(Command::UserChangedParam { param: ParamIdx::Dynamic(2) }),
        vec![InstanceAction::HandleParamInteraction(ParamIdx::Dynamic(2))]
    );
    assert_eq!(
        instance.handle_command(Command::SmartPreRender),
        vec![InstanceAction::SmartPreRender]
    );
    assert_eq!(instance.handle_command(Command::SmartRender), vec![InstanceAction::SmartRender]);
    assert!(instance.handle_command(Command::GlobalSetup).is_empty());
    assert!(instance.handle_command(Command::Other).is_empty());
    assert_eq!(instance, scripted());
}

#[test]
fn setup_loads_the_script_and_changes_only_the_id() {
    let mut instance = scripted();
    let plan = instance.handle_command(Command::SequenceSetup);
    assert_eq!(plan, vec![InstanceAction::LoadScript(String::from("print(1)"))]);
    instance.id = 9;
    assert_eq!(instance, scripted());
}

#[test]
fn setup_without_a_script_loads_nothing() {
    let mut instance = Instance::default();
    assert!(instance.handle_command(Command::SequenceSetup).is_empty());
    assert_eq!(instance.load_plan(), Vec::new());
}

#[test]
fn resetup_sets_the_environment_then_the_directory_then_loads() {
    let mut instance = scripted();
    let plan = instance.handle_command(Command::SequenceResetup);
    assert_eq!(
        plan,
        vec![
            InstanceAction::SetVenvPath(String::from("/venvs/golob")),
            InstanceAction::SetScriptParentDirectory(String::from("/scripts/effects")),
            InstanceAction::LoadScript(String::from("print(1)")),
        ]
    );
}

#[test]
fn resetup_forgets_the_job_of_before_the_reload() {
    let mut instance = scripted();
    instance.handle_command(Command::SequenceResetup);
    assert_eq!(instance.active_job, None);
    instance.active_job = Some(JobId { raw: 4 });
    assert_eq!(instance, scripted());
}

#[test]
fn resetup_of_an_empty_instance_does_nothing() {
    let mut instance = Instance::default();
    assert!(instance.handle_command(Command::SequenceResetup).is_empty());
    assert_eq!(instance, Instance::default());
}

#[test]
fn resetup_without_a_directory_skips_it() {
    let mut instance = scripted();
    instance.last_known_path = Some(String::new());
    assert_eq!(
        instance.handle_command(Command::SequenceResetup),
        vec![
            InstanceAction::SetVenvPath(String::from("/venvs/golob")),
            InstanceAction::LoadScript(String::from("print(1)")),
        ]
    );
    instance.last_known_path = None;
    instance.venv_path = None;
    assert_eq!(
        instance.handle_command(Command::SequenceResetup),
        vec![InstanceAction::LoadScript(String::from("print(1)"))]
    );
}

#[test]
fn the_resetup_plan_takes_the_directory_as_given() {
    let instance = scripted();
    assert_eq!(
        instance.resetup_plan(Some(String::from("elsewhere"))),
        vec![
            InstanceAction::SetVenvPath(String::from("/venvs/golob")),
            InstanceAction::SetScriptParentDirectory(String::from("elsewhere")),
            InstanceAction::LoadScript(String::from("print(1)")),
        ]
    );
    assert_eq!(
        instance.resetup_plan(None),
        vec![
            InstanceAction::SetVenvPath(String::from("/venvs/golob")),
            InstanceAction::LoadScript(String::from("print(1)")),
        ]
    );
}

#[test]
fn only_a_failed_load_is_a_script_load_error() {
    assert_eq!(
        InstanceAction::LoadScript(String::from("x")).failure(),
        Some(Error::ScriptLoadError)
    );
    assert_eq!(InstanceAction::SetVenvPath(String::from("x")).failure(), None);
    assert_eq!(InstanceAction::DrawUi.failure(), None);
}
