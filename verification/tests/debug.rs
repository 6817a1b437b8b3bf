use odin_zed::adapter::{DapReply, DapStep, DebugAdapterBinary, DebugTaskDefinition};
use odin_zed::debug::{
    AttachRequest, DebugConfig, DebugRequest, DebugScenario, LaunchRequest,
    StartDebuggingRequestArguments, StartDebuggingRequestArgumentsRequest, TcpArguments,
    TcpArgumentsTemplate, ODIN_CODELLDB_ADAPTER_NAME,
};
use odin_zed::extension::OdinExtension;
use serde_json::Value;

const SCRIPT: &str = "def __lldb_init_module(debugger, _): pass\n";

fn command() -> String {
    OdinExtension::odin_formatter_command(SCRIPT)
}

fn json(text: &str) -> Value {
    serde_json::from_str(text).unwrap()
}

fn object(text: &str) -> serde_json::Map<String, Value> {
    json(text).as_object().unwrap().clone()
}

fn merged(text: &str) -> Value {
    let mut map = object(text);
    OdinExtension::merge_init_command(&mut map, SCRIPT);
    Value::Object(map)
}

fn texts(texts: &[&str]) -> Value {
    Value::from(texts.to_vec())
}

fn launch() -> LaunchRequest {
    LaunchRequest {
        program: "/work/game".to_string(),
        cwd: None,
        args: vec![],
        envs: vec![],
    }
}

fn config(request: DebugRequest) -> DebugConfig {
    DebugConfig {
        label: "Debug".to_string(),
        adapter: "OdinCodeLLDB".to_string(),
        request,
        stop_on_entry: None,
    }
}

fn entries(config: &DebugConfig) -> Value {
    Value::Object(OdinExtension::debug_config_map(config, SCRIPT))
}

#[test]
fn command_is_added_where_there_is_none() {
    let merged = merged("{\"a\": 1}");
    assert_eq!(merged["initCommands"], texts(&[&command()]));
    assert_eq!(merged["a"], Value::from(1));
    assert_eq!(merged.as_object().unwrap().len(), 2);
}

#[test]
fn command_comes_first() {
    let merged = merged("{\"initCommands\": [\"settings show\", 3]}");
    let commands = merged["initCommands"].as_array().unwrap();
    assert_eq!(commands.len(), 3);
    assert_eq!(commands[0], Value::from(command()));
    assert_eq!(commands[1], Value::from("settings show"));
    assert_eq!(commands[2], Value::from(3));
}

#[test]
fn command_is_added_once() {
    let mut map = object("{\"initCommands\": [\"settings show\"]}");
    OdinExtension::merge_init_command(&mut map, SCRIPT);
    let once = map.clone();
    OdinExtension::merge_init_command(&mut map, SCRIPT);
    assert_eq!(map, once);
}

#[test]
fn what_is_no_list_is_left_alone() {
    assert_eq!(
        merged("{\"initCommands\": \"settings show\"}"),
        json("{\"initCommands\": \"settings show\"}")
    );
    assert_eq!(merged("{\"initCommands\": null}"), json("{\"initCommands\": null}"));
    assert_eq!(
        merged("{\"initCommands\": []}")["initCommands"],
        texts(&[&command()])
    );
}

#[test]
fn launch_entries() {
    let entries = entries(&config(DebugRequest::Launch(launch())));
    assert_eq!(entries["request"], Value::from("launch"));
    assert_eq!(entries["program"], Value::from("/work/game"));
    assert_eq!(entries["initCommands"], texts(&[&command()]));
    assert_eq!(entries.as_object().unwrap().len(), 3);
}

#[test]
fn launch_entries_with_everything() {
    let mut config = config(DebugRequest::Launch(LaunchRequest {
        program: "game".to_string(),
        cwd: Some("/work".to_string()),
        args: vec!["-x".to_string(), "y \"z\"".to_string()],
        envs: vec![
            ("A".to_string(), "1".to_string()),
            ("B".to_string(), "".to_string()),
        ],
    }));
    config.stop_on_entry = Some(false);
    let entries = entries(&config);
    assert_eq!(entries["cwd"], Value::from("/work"));
    assert_eq!(entries["args"], texts(&["-x", "y \"z\""]));
    assert_eq!(entries["env"], json("[[\"A\", \"1\"], [\"B\", \"\"]]"));
    assert_eq!(entries["stopOnEntry"], Value::from(false));
    assert_eq!(entries.as_object().unwrap().len(), 7);
}

#[test]
fn attach_entries() {
    let with_id = entries(&config(DebugRequest::Attach(AttachRequest {
        process_id: Some(4294967295),
    })));
    assert_eq!(with_id["request"], Value::from("attach"));
    assert_eq!(with_id["pid"], Value::from(4294967295u32));
    let without = entries(&config(DebugRequest::Attach(AttachRequest {
        process_id: None,
    })));
    assert_eq!(without["pid"], Value::Null);
    assert_eq!(without.as_object().unwrap().len(), 3);
}

#[test]
fn scenario_of_a_session() {
    let mut config = config(DebugRequest::Launch(launch()));
    config.stop_on_entry = Some(true);
    let scenario = OdinExtension::new().dap_config_to_scenario(config, SCRIPT).unwrap();
    let expected = format!(
        "{{\"initCommands\":[\"{}\"],\"program\":\"/work/game\",\"request\":\"launch\",\"stopOnEntry\":true}}",
        command()
    );
    assert_eq!(
        scenario,
        DebugScenario {
            label: "Debug".to_string(),
            adapter: "OdinCodeLLDB".to_string(),
            build: None,
            config: expected,
            tcp_connection: None,
        }
    );
}

#[test]
fn scenario_reads_back() {
    let make = || {
        let mut launch = launch();
        launch.args = vec!["a\nb\u{7f}\u{1F600}".to_string()];
        config(DebugRequest::Launch(launch))
    };
    let scenario = OdinExtension::new().dap_config_to_scenario(make(), SCRIPT).unwrap();
    assert_eq!(json(&scenario.config), entries(&make()));
}

#[test]
fn scenario_that_cannot_be_written() {
    assert_eq!(
        OdinExtension::written_scenario(
            config(DebugRequest::Launch(launch())),
            Err("no".to_string())
        ),
        Err("Failed to serialize debug config: no".to_string())
    );
}

#[test]
fn kinds_of_sessions() {
    let kind = |text: &str| OdinExtension::new().dap_request_kind(&json(text));
    assert_eq!(
        kind("{\"request\": \"launch\"}"),
        Ok(StartDebuggingRequestArgumentsRequest::Launch)
    );
    assert_eq!(
        kind("{\"request\": \"attach\"}"),
        Ok(StartDebuggingRequestArgumentsRequest::Attach)
    );
    assert_eq!(
        kind("{\"request\": \"Launch\"}"),
        Err("Unsupported debug request kind: Launch".to_string())
    );
    let missing = Err("Debug config is missing a string `request` field".to_string());
    assert_eq!(kind("{}"), missing);
    assert_eq!(kind("{\"request\": 1}"), missing);
    assert_eq!(kind("[\"request\"]"), missing);
    assert_eq!(kind("null"), missing);
}

fn definition(config: &str) -> DebugTaskDefinition {
    DebugTaskDefinition {
        label: "Session".to_string(),
        adapter: ODIN_CODELLDB_ADAPTER_NAME.to_string(),
        config: config.to_string(),
        tcp_connection: None,
    }
}

fn requested(adapter_name: &str, config: DebugTaskDefinition) -> DapStep {
    OdinExtension::new().get_dap_binary(
        DapStep::Requested {
            adapter_name: adapter_name.to_string(),
            config,
        },
        DapReply::Begin,
        SCRIPT,
    )
}

fn found(config: DebugTaskDefinition) -> DapStep {
    OdinExtension::new().get_dap_binary(
        DapStep::FindAdapter { config },
        DapReply::Adapter {
            command: Ok("/bin/codelldb".to_string()),
            root_path: "/work".to_string(),
        },
        SCRIPT,
    )
}

fn failed(config: &str) -> String {
    match found(definition(config)) {
        DapStep::Finished(Err(error)) => error,
        other => panic!("{:?}", other),
    }
}

fn binary(config: &str) -> DebugAdapterBinary {
    match found(definition(config)) {
        DapStep::Finished(Ok(binary)) => binary,
        other => panic!("{:?}", other),
    }
}

#[test]
fn only_one_adapter_is_known() {
    assert_eq!(
        requested("CodeLLDB", definition("{}")),
        DapStep::Finished(Err("Unsupported Odin debug adapter: CodeLLDB".to_string()))
    );
    assert_eq!(
        requested("OdinCodeLLDB", definition("{}")),
        DapStep::FindAdapter {
            config: definition("{}")
        }
    );
}

#[test]
fn adapter_that_is_not_found() {
    assert_eq!(
        OdinExtension::new().get_dap_binary(
            DapStep::FindAdapter {
                config: definition("{}")
            },
            DapReply::Adapter {
                command: Err("nowhere".to_string()),
                root_path: "/work".to_string(),
            },
            SCRIPT,
        ),
        DapStep::Finished(Err("nowhere".to_string()))
    );
}

#[test]
fn configurations_that_are_refused() {
    assert_eq!(
        failed("{"),
        "Failed to parse CodeLLDB config: EOF while parsing an object at line 1 column 1"
    );
    assert_eq!(failed("[]"), "CodeLLDB config must be a JSON object");
    assert_eq!(
        failed("{}"),
        "Debug config is missing a string `request` field"
    );
    assert_eq!(
        failed("{\"request\": \"x\"}"),
        "Unsupported debug request kind: x"
    );
}

#[test]
fn adapter_starts_with_completed_configuration() {
    let binary = binary("{\"request\": \"launch\", \"program\": \"p\"}");
    let expected = format!(
        "{{\"cwd\":\"/work\",\"initCommands\":[\"{}\"],\"name\":\"Session\",\"program\":\"p\",\"request\":\"launch\"}}",
        command()
    );
    assert_eq!(
        binary,
        DebugAdapterBinary {
            command: Some("/bin/codelldb".to_string()),
            arguments: vec![],
            envs: vec![],
            cwd: Some("/work".to_string()),
            connection: None,
            request_args: StartDebuggingRequestArguments {
                configuration: expected,
                request: StartDebuggingRequestArgumentsRequest::Launch,
            },
        }
    );
}

#[test]
fn given_entries_are_kept() {
    let binary =
        binary("{\"request\": \"attach\", \"name\": \"n\", \"cwd\": 5, \"x\": 1.5, \"initCommands\": 0}");
    assert_eq!(
        json(&binary.request_args.configuration),
        json("{\"request\": \"attach\", \"name\": \"n\", \"cwd\": 5, \"x\": 1.5, \"initCommands\": 0}")
    );
    assert_eq!(
        binary.request_args.request,
        StartDebuggingRequestArgumentsRequest::Attach
    );
}

#[test]
fn deep_configuration_reads_back() {
    let nested = |depth: usize| {
        format!(
            "{{\"request\": \"launch\", \"initCommands\": [{}1{}]}}",
            "[".repeat(depth),
            "]".repeat(depth)
        )
    };
    let configuration = binary(&nested(125)).request_args.configuration;
    let read = json(&configuration);
    assert_eq!(read["initCommands"][0], Value::from(command()));
    assert_eq!(read["initCommands"][1], json(&nested(125))["initCommands"][0]);
    assert_eq!(read.to_string(), configuration);
    assert_eq!(
        failed(&nested(126)),
        "Failed to parse CodeLLDB config: recursion limit exceeded at line 1 column 165"
    );
}

#[test]
fn session_reaches_the_adapter() {
    let scenario = OdinExtension::new()
        .dap_config_to_scenario(config(DebugRequest::Launch(launch())), SCRIPT)
        .unwrap();
    let binary = binary(&scenario.config);
    let mut expected = OdinExtension::debug_config_map(
        &config(DebugRequest::Launch(launch())),
        SCRIPT,
    );
    expected.insert("name".to_string(), Value::from("Session"));
    expected.insert("cwd".to_string(), Value::from("/work"));
    assert_eq!(
        json(&binary.request_args.configuration),
        Value::Object(expected)
    );
}

#[test]
fn connection_is_resolved() {
    let template = TcpArgumentsTemplate {
        port: None,
        host: Some(1),
        timeout: None,
    };
    let connection = TcpArguments {
        port: 7000,
        host: 1,
        timeout: None,
    };
    let make = || {
        let mut definition = definition("{\"request\": \"launch\"}");
        definition.tcp_connection = Some(template);
        found(definition)
    };
    let extension = OdinExtension::new();
    match extension.get_dap_binary(make(), DapReply::Tcp(Ok(connection)), SCRIPT) {
        DapStep::Finished(Ok(binary)) => {
            assert_eq!(binary.connection, Some(connection));
            assert_eq!(binary.command, Some("/bin/codelldb".to_string()));
        }
        other => panic!("{:?}", other),
    }
    assert_eq!(
        extension.get_dap_binary(make(), DapReply::Tcp(Err("busy".to_string())), SCRIPT),
        DapStep::Finished(Err("busy".to_string()))
    );
    assert_eq!(extension.get_dap_binary(make(), DapReply::Begin, SCRIPT), make());
}

#[test]
fn adapter_starts_once_arguments_are_known() {
    let arguments = || StartDebuggingRequestArguments {
        configuration: "{}".to_string(),
        request: StartDebuggingRequestArgumentsRequest::Attach,
    };
    assert_eq!(
        OdinExtension::adapter_started(
            "c".to_string(),
            "r".to_string(),
            Ok(arguments()),
            None
        ),
        DapStep::Finished(Ok(DebugAdapterBinary {
            command: Some("c".to_string()),
            arguments: vec![],
            envs: vec![],
            cwd: Some("r".to_string()),
            connection: None,
            request_args: arguments(),
        }))
    );
    assert_eq!(
        OdinExtension::adapter_started(
            "c".to_string(),
            "r".to_string(),
            Err("no".to_string()),
            None
        ),
        DapStep::Finished(Err("no".to_string()))
    );
}

#[test]
fn ended_start_stays_ended() {
    assert_eq!(
        OdinExtension::new().get_dap_binary(
            DapStep::Finished(Err("no".to_string())),
            DapReply::Begin,
            SCRIPT
        ),
        DapStep::Finished(Err("no".to_string()))
    );
}

#[test]
fn arguments_that_cannot_be_written() {
    assert_eq!(
        OdinExtension::written_arguments(
            Err("no".to_string()),
            StartDebuggingRequestArgumentsRequest::Launch
        ),
        Err("Failed to serialize CodeLLDB config: no".to_string())
    );
}

#[test]
fn configuration_that_was_read() {
    let (value, kind) = OdinExtension::new()
        .configure_adapter(
            Ok(json("{\"request\": \"attach\"}")),
            "Session",
            "/work",
            SCRIPT,
        )
        .unwrap();
    assert_eq!(kind, StartDebuggingRequestArgumentsRequest::Attach);
    assert_eq!(value["name"], Value::from("Session"));
    assert_eq!(value["cwd"], Value::from("/work"));
    assert_eq!(value["initCommands"], texts(&[&command()]));
    assert_eq!(
        OdinExtension::new()
            .configure_adapter(Err("bad".to_string()), "Session", "/work", SCRIPT)
            .unwrap_err(),
        "Failed to parse CodeLLDB config: bad"
    );
}
