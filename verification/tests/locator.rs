use odin_zed::debug::{
    BuildTaskDefinition, BuildTaskDefinitionTemplatePayload, DebugRequest, DebugScenario,
    LaunchRequest, TaskTemplate,
};
use odin_zed::extension::OdinExtension;
use odin_zed::platform::Os;

fn task(command: &str, args: &[&str]) -> TaskTemplate {
    TaskTemplate {
        label: "task".to_string(),
        command: command.to_string(),
        args: args.iter().map(|arg| arg.to_string()).collect(),
        env: vec![("K".to_string(), "V".to_string())],
        cwd: Some("/work".to_string()),
    }
}

fn locate(task: TaskTemplate, label: &str, platform: Os) -> Option<DebugScenario> {
    OdinExtension::new().dap_locator_create_scenario(
        "odin".to_string(),
        task,
        label.to_string(),
        "OdinCodeLLDB".to_string(),
        platform,
    )
}

fn template(scenario: DebugScenario) -> TaskTemplate {
    match scenario.build {
        Some(BuildTaskDefinition::Template(payload)) => payload.template,
        other => panic!("{:?}", other),
    }
}

#[test]
fn run_task_is_located() {
    let scenario = locate(task("odin", &["run", "."]), "run: game", Os::Linux);
    let mut built = task("odin", &["build", ".", "-out:debug_build", "-debug"]);
    built.label = "odin debug build".to_string();
    assert_eq!(
        scenario,
        Some(DebugScenario {
            label: "game".to_string(),
            adapter: "OdinCodeLLDB".to_string(),
            build: Some(BuildTaskDefinition::Template(
                BuildTaskDefinitionTemplatePayload {
                    locator_name: Some("odin".to_string()),
                    template: built,
                }
            )),
            config: "{}".to_string(),
            tcp_connection: None,
        })
    );
}

#[test]
fn test_task_is_located() {
    let scenario = locate(task("odin", &["test", "."]), "test: game", Os::Windows).unwrap();
    assert_eq!(scenario.label, "test game");
    let built = template(scenario);
    assert_eq!(built.label, "odin debug test");
    assert_eq!(
        built.args,
        vec!["build", ".", "-out:debug_build.exe", "-debug", "-build-mode:test"]
    );
}

#[test]
fn debug_flag_is_given_once() {
    let built = template(locate(task("odin", &["run", "-debug", "."]), "x", Os::Mac).unwrap());
    assert_eq!(built.args, vec!["build", "-debug", ".", "-out:debug_build"]);
}

#[test]
fn labels_of_scenarios() {
    let label = |verb: &str, label: &str| {
        locate(task("odin", &[verb]), label, Os::Linux).unwrap().label
    };
    assert_eq!(label("run", "run: a"), "a");
    assert_eq!(label("run", "test: a"), "test: a");
    assert_eq!(label("run", "a run: b"), "a run: b");
    assert_eq!(label("test", "test: é"), "test é");
    assert_eq!(label("test", "run: a"), "run: a");
    assert_eq!(label("run", "run: "), "");
}

#[test]
fn other_tasks_are_not_located() {
    assert_eq!(locate(task("cargo", &["run"]), "x", Os::Linux), None);
    assert_eq!(locate(task("odin", &["build"]), "x", Os::Linux), None);
    assert_eq!(locate(task("odin", &["runs"]), "x", Os::Linux), None);
    assert_eq!(locate(task("odin", &[".", "run"]), "x", Os::Linux), None);
    assert_eq!(locate(task("odin", &[]), "x", Os::Linux), None);
}

#[test]
fn built_program_is_located() {
    let built = template(locate(task("odin", &["run", "."]), "x", Os::Linux).unwrap());
    assert_eq!(
        OdinExtension::new().run_dap_locator(built, Os::Linux),
        Ok(DebugRequest::Launch(LaunchRequest {
            program: "/work/debug_build".to_string(),
            cwd: Some("/work".to_string()),
            args: vec![],
            envs: vec![("K".to_string(), "V".to_string())],
        }))
    );
    let built = template(locate(task("odin", &["test", "."]), "x", Os::Windows).unwrap());
    match OdinExtension::new().run_dap_locator(built, Os::Windows) {
        Ok(DebugRequest::Launch(launch)) => {
            assert_eq!(launch.program, "/work\\debug_build.exe")
        }
        other => panic!("{:?}", other),
    }
}

#[test]
fn first_output_name_counts() {
    let built = template(locate(task("odin", &["run", "-out:mine"]), "x", Os::Linux).unwrap());
    assert_eq!(built.args, vec!["build", "-out:mine", "-out:debug_build", "-debug"]);
    match OdinExtension::new().run_dap_locator(built, Os::Linux) {
        Ok(DebugRequest::Launch(launch)) => assert_eq!(launch.program, "/work/mine"),
        other => panic!("{:?}", other),
    }
}

#[test]
fn build_tasks_that_are_refused() {
    let run = |task| OdinExtension::new().run_dap_locator(task, Os::Linux);
    let not_odin = Err("Not an Odin build or test task".to_string());
    assert_eq!(run(task("cargo", &["build", "-out:x"])), not_odin);
    assert_eq!(run(task("odin", &["run", "-out:x"])), not_odin);
    assert_eq!(run(task("odin", &[])), not_odin);
    assert_eq!(
        run(task("odin", &["build", "out:x", "x-out:"])),
        Err("Failed to extract output binary name from build task".to_string())
    );
    let mut without_cwd = task("odin", &["build", "-out:x"]);
    without_cwd.cwd = None;
    assert_eq!(run(without_cwd), Err("No cwd in build task".to_string()));
    match run(task("odin", &["test", "-out:x"])) {
        Ok(DebugRequest::Launch(launch)) => assert_eq!(launch.program, "/work/x"),
        other => panic!("{:?}", other),
    }
}
