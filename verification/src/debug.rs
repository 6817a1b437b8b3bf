//! Debug sessions: from what a user asks to debug to what the debug adapter is started with.
use crate::extension::OdinExtension;
use crate::formatter::formatter_command;
use crate::json::{
    array_value, as_array_mut, as_text, bool_value, entries_of, get_entry_mut, get_field,
    holds_no_float, insert_entry, json_of, json_text, jsons_of, nests_within, new_object,
    no_entries, number_value, object_value, reads_as, text_value, texts_json, texts_value,
    write_json, Json,
};
use crate::text::{error_view, result_view, same_text};
use vstd::prelude::*;
use vstd::string::*;

verus! {

/// The debug adapter that this extension provides.
pub const ODIN_CODELLDB_ADAPTER_NAME: &'static str = "OdinCodeLLDB";

/// A program to start under the debugger.
#[derive(Debug, PartialEq, Eq)]
pub struct LaunchRequest {
    pub program: String,
    pub cwd: Option<String>,
    pub args: Vec<String>,
    pub envs: Vec<(String, String)>,
}

/// A running process to attach the debugger to.
#[derive(Debug, PartialEq, Eq)]
pub struct AttachRequest {
    pub process_id: Option<u32>,
}

/// What to debug.
#[derive(Debug, PartialEq, Eq)]
pub enum DebugRequest {
    Launch(LaunchRequest),
    Attach(AttachRequest),
}

/// A debug session as the user describes it, whatever the debug adapter.
#[derive(Debug, PartialEq, Eq)]
pub struct DebugConfig {
    pub label: String,
    pub adapter: String,
    pub request: DebugRequest,
    pub stop_on_entry: Option<bool>,
}

/// A TCP connection to a debug adapter, where something may be left open.
#[derive(Clone, Copy, Debug, PartialEq, Eq)]
pub struct TcpArgumentsTemplate {
    pub port: Option<u16>,
    pub host: Option<u32>,
    pub timeout: Option<u64>,
}

/// A TCP connection to a debug adapter.
#[derive(Clone, Copy, Debug, PartialEq, Eq)]
pub struct TcpArguments {
    pub port: u16,
    pub host: u32,
    pub timeout: Option<u64>,
}

/// A task: a command with its arguments and environment.
#[derive(Debug, PartialEq, Eq)]
pub struct TaskTemplate {
    pub label: String,
    pub command: String,
    pub args: Vec<String>,
    pub env: Vec<(String, String)>,
    pub cwd: Option<String>,
}

/// A task over texts.
pub struct TaskTemplateView {
    pub label: Seq<char>,
    pub command: Seq<char>,
    pub args: Seq<Seq<char>>,
    pub env: Seq<(Seq<char>, Seq<char>)>,
    pub cwd: Option<Seq<char>>,
}

impl View for TaskTemplate {
    type V = TaskTemplateView;

    open spec fn view(&self) -> TaskTemplateView {
        TaskTemplateView {
            label: self.label@,
            command: self.command@,
            args: self.args.deep_view(),
            env: self.env.deep_view(),
            cwd: self.cwd.deep_view(),
        }
    }
}

/// A task that builds what is to be debugged, and the locator that finds what it built.
#[derive(Debug, PartialEq, Eq)]
pub struct BuildTaskDefinitionTemplatePayload<T = String, K = TaskTemplate> {
    pub locator_name: Option<T>,
    pub template: K,
}

/// The build step of a debug scenario.
#[derive(Debug, PartialEq, Eq)]
pub enum BuildTaskDefinition<T = String, K = TaskTemplate> {
    ByName(T),
    Template(BuildTaskDefinitionTemplatePayload<T, K>),
}

/// A debug session as a debug adapter understands it.
#[derive(Debug, PartialEq, Eq)]
pub struct DebugScenario<T = String, K = TaskTemplate> {
    pub label: T,
    pub adapter: T,
    pub build: Option<BuildTaskDefinition<T, K>>,
    /// The adapter's configuration, as JSON text.
    pub config: T,
    pub tcp_connection: Option<TcpArgumentsTemplate>,
}

impl View for DebugScenario {
    type V = DebugScenario<Seq<char>, TaskTemplateView>;

    open spec fn view(&self) -> DebugScenario<Seq<char>, TaskTemplateView> {
        DebugScenario {
            label: self.label@,
            adapter: self.adapter@,
            build: match self.build {
                None => None,
                Some(BuildTaskDefinition::ByName(name)) => Some(BuildTaskDefinition::ByName(name@)),
                Some(BuildTaskDefinition::Template(payload)) => Some(
                    BuildTaskDefinition::Template(
                        BuildTaskDefinitionTemplatePayload {
                            locator_name: payload.locator_name.deep_view(),
                            template: payload.template@,
                        },
                    ),
                ),
            },
            config: self.config@,
            tcp_connection: self.tcp_connection,
        }
    }
}

/// Whether a debug session starts a program or attaches to one.
#[derive(Clone, Copy, Debug, PartialEq, Eq, Structural)]
pub enum StartDebuggingRequestArgumentsRequest {
    Launch,
    Attach,
}

/// What a debug session is started with.
#[derive(Debug, PartialEq, Eq)]
pub struct StartDebuggingRequestArguments<T = String> {
    /// The adapter's configuration, as JSON text.
    pub configuration: T,
    pub request: StartDebuggingRequestArgumentsRequest,
}

impl View for StartDebuggingRequestArguments {
    type V = StartDebuggingRequestArguments<Seq<char>>;

    open spec fn view(&self) -> StartDebuggingRequestArguments<Seq<char>> {
        StartDebuggingRequestArguments { configuration: self.configuration@, request: self.request }
    }
}

/// The JSON array of the environment variables: a pair of texts for each.
pub open spec fn envs_json(envs: Seq<(Seq<char>, Seq<char>)>) -> Seq<Json> {
    envs.map_values(
        |variable: (Seq<char>, Seq<char>)|
            Json::Array(texts_json(seq![variable.0, variable.1])),
    )
}

/// The adapter's configuration entries for what is to be debugged.
pub open spec fn request_entries(request: DebugRequest) -> Map<Seq<char>, Json> {
    match request {
        DebugRequest::Launch(launch) => {
            let entries = no_entries().insert("request"@, Json::Text("launch"@)).insert(
                "program"@,
                Json::Text(launch.program@),
            );
            let entries = match launch.cwd {
                Some(cwd) => entries.insert("cwd"@, Json::Text(cwd@)),
                None => entries,
            };
            let entries = if launch.args@.len() > 0 {
                entries.insert("args"@, Json::Array(texts_json(launch.args.deep_view())))
            } else {
                entries
            };
            if launch.envs@.len() > 0 {
                entries.insert("env"@, Json::Array(envs_json(launch.envs.deep_view())))
            } else {
                entries
            }
        },
        DebugRequest::Attach(attach) => no_entries().insert(
            "request"@,
            Json::Text("attach"@),
        ).insert(
            "pid"@,
            match attach.process_id {
                Some(id) => Json::Integer(id as int),
                None => Json::Null,
            },
        ),
    }
}

/// The entries with `command` among the commands that LLDB runs first. It comes before those that
/// are there, unless it is one of them. What is no list of commands is left alone.
pub open spec fn with_init_command(
    entries: Map<Seq<char>, Json>,
    command: Seq<char>,
) -> Map<Seq<char>, Json> {
    if !entries.contains_key("initCommands"@) {
        entries.insert("initCommands"@, Json::Array(seq![Json::Text(command)]))
    } else {
        match entries["initCommands"@] {
            Json::Array(commands) => if commands.contains(Json::Text(command)) {
                entries
            } else {
                entries.insert(
                    "initCommands"@,
                    Json::Array(seq![Json::Text(command)] + commands),
                )
            },
            _ => entries,
        }
    }
}

/// The configuration entries of a debug session that the user describes with `config`.
pub open spec fn debug_entries(config: DebugConfig, command: Seq<char>) -> Map<Seq<char>, Json> {
    let entries = request_entries(config.request);
    let entries = match config.stop_on_entry {
        Some(stop) => entries.insert("stopOnEntry"@, Json::Bool(stop)),
        None => entries,
    };
    with_init_command(entries, command)
}

/// The kind of debug session that a configuration asks for, or why that cannot be told.
pub open spec fn request_kind(config: Json) -> Result<
    StartDebuggingRequestArgumentsRequest,
    Seq<char>,
> {
    match config {
        Json::Object(entries) => if entries.contains_key("request"@)
            && entries["request"@] is Text {
            let request = entries["request"@]->Text_0;
            if request == "launch"@ {
                Ok(StartDebuggingRequestArgumentsRequest::Launch)
            } else if request == "attach"@ {
                Ok(StartDebuggingRequestArgumentsRequest::Attach)
            } else {
                Err("Unsupported debug request kind: "@ + request)
            }
        } else {
            Err("Debug config is missing a string `request` field"@)
        },
        _ => Err("Debug config is missing a string `request` field"@),
    }
}

impl OdinExtension {
    /// Puts the formatter command among the commands that LLDB runs first.
    pub fn merge_init_command(
        config_map: &mut serde_json::Map<String, serde_json::Value>,
        odin_script: &str,
    )
        ensures
            entries_of(*final(config_map)) == with_init_command(
                entries_of(*old(config_map)),
                formatter_command(odin_script@),
            ),
    {
        let formatter_command = Self::odin_formatter_command(odin_script);
        let ghost command = formatter_command@;
        let ghost before = entries_of(*config_map);
        match get_entry_mut(config_map, "initCommands") {
            Some(value) => {
                match as_array_mut(value) {
                    Some(commands) => {
                        let ghost listed = commands@;
                        let already_present = Self::has_command(commands, &formatter_command);
                        if !already_present {
                            commands.insert(0, text_value(formatter_command));
                            assert(jsons_of(commands@) =~= seq![Json::Text(command)] + jsons_of(
                                listed,
                            ));
                        }
                    },
                    None => {},
                }
            },
            None => {
                let mut commands: Vec<String> = Vec::new();
                commands.push(formatter_command);
                insert_entry(config_map, "initCommands", texts_value(&commands));
                assert(texts_json(commands.deep_view()) =~= seq![Json::Text(command)]);
            },
        }
        assert(entries_of(*config_map) =~= with_init_command(before, command));
    }

    /// Tells whether a command is among those listed.
    fn has_command(commands: &Vec<serde_json::Value>, command: &String) -> (found: bool)
        ensures
            found == jsons_of(commands@).contains(Json::Text(command@)),
    {
        let mut i: usize = 0;
        while i < commands.len()
            invariant
                i <= commands@.len(),
                forall|j: int| 0 <= j < i ==> #[trigger] jsons_of(commands@)[j] != Json::Text(command@),
            decreases commands@.len() - i,
        {
            assert(jsons_of(commands@)[i as int] == json_of(commands@[i as int]));
            match as_text(&commands[i]) {
                Some(text) => {
                    if same_text(text, command.as_str()) {
                        return true;
                    }
                },
                None => {},
            }
            i += 1;
        }
        false
    }
}

/// The JSON array of the environment variables.
fn envs_value(envs: &Vec<(String, String)>) -> (value: serde_json::Value)
    ensures
        json_of(value) == Json::Array(envs_json(envs.deep_view())),
{
    let mut items: Vec<serde_json::Value> = Vec::new();
    let mut i: usize = 0;
    while i < envs.len()
        invariant
            i <= envs@.len(),
            items@.len() == i,
            forall|j: int|
                0 <= j < i ==> json_of(#[trigger] items@[j]) == envs_json(envs.deep_view())[j],
        decreases envs@.len() - i,
    {
        let mut pair: Vec<String> = Vec::new();
        pair.push(envs[i].0.clone());
        pair.push(envs[i].1.clone());
        assert(pair.deep_view() =~= seq![envs.deep_view()[i as int].0, envs.deep_view()[i as int].1]);
        items.push(texts_value(&pair));
        i += 1;
    }
    assert(jsons_of(items@) =~= envs_json(envs.deep_view()));
    array_value(items)
}

/// The outcome of a scenario whose configuration came out as `written`.
pub open spec fn scenario_outcome(
    config: DebugConfig,
    written: Result<Seq<char>, Seq<char>>,
) -> Result<DebugScenario<Seq<char>, TaskTemplateView>, Seq<char>> {
    match written {
        Ok(text) => Ok(
            DebugScenario {
                label: config.label@,
                adapter: config.adapter@,
                build: None,
                config: text,
                tcp_connection: None,
            },
        ),
        Err(error) => Err("Failed to serialize debug config: "@ + error),
    }
}

/// A scenario or an error, over texts.
pub open spec fn scenario_view(scenario: Result<DebugScenario, String>) -> Result<
    DebugScenario<Seq<char>, TaskTemplateView>,
    Seq<char>,
> {
    match scenario {
        Ok(scenario) => Ok(scenario@),
        Err(error) => Err(error@),
    }
}

/// The configuration of a session holds no floating-point number, and is nested a few levels deep.
proof fn lemma_debug_entries_read_back(config: DebugConfig, command: Seq<char>)
    ensures
        holds_no_float(Json::Object(debug_entries(config, command))),
        nests_within(Json::Object(debug_entries(config, command)), 127),
{
    reveal_with_fuel(holds_no_float, 5);
    reveal_with_fuel(nests_within, 5);
    let entries = debug_entries(config, command);
    assert forall|key: Seq<char>| #[trigger] entries.contains_key(key) implies holds_no_float(
        entries[key],
    ) && nests_within(entries[key], 126) by {
        match config.request {
            DebugRequest::Launch(launch) => {
                let args = Json::Array(texts_json(launch.args.deep_view()));
                let envs = Json::Array(envs_json(launch.envs.deep_view()));
                assert(holds_no_float(args) && nests_within(args, 126));
                assert(holds_no_float(envs) && nests_within(envs, 126));
            },
            DebugRequest::Attach(_) => {},
        }
        lemma_keys_differ();
    }
}

/// The keys of a configuration are different texts.
pub(crate) proof fn lemma_keys_differ()
    ensures
        "initCommands"@ != "request"@,
        "initCommands"@ != "program"@,
        "initCommands"@ != "cwd"@,
        "initCommands"@ != "args"@,
        "initCommands"@ != "env"@,
        "initCommands"@ != "pid"@,
        "initCommands"@ != "stopOnEntry"@,
        "initCommands"@ != "name"@,
        "request"@ != "program"@,
        "request"@ != "cwd"@,
        "request"@ != "args"@,
        "request"@ != "env"@,
        "request"@ != "pid"@,
        "request"@ != "stopOnEntry"@,
        "request"@ != "name"@,
        "name"@ != "program"@,
        "name"@ != "cwd"@,
        "name"@ != "args"@,
        "name"@ != "env"@,
        "name"@ != "pid"@,
        "name"@ != "stopOnEntry"@,
        "launch"@ != "attach"@,
{
    reveal_strlit("initCommands");
    reveal_strlit("request");
    reveal_strlit("program");
    reveal_strlit("cwd");
    reveal_strlit("args");
    reveal_strlit("env");
    reveal_strlit("pid");
    reveal_strlit("stopOnEntry");
    reveal_strlit("name");
    reveal_strlit("launch");
    reveal_strlit("attach");
    assert("initCommands"@.len() == 12);
    assert("request"@[2] != "program"@[2]);
    assert("name"@[0] != "args"@[0]);
    assert("launch"@[0] != "attach"@[0]);
}

impl OdinExtension {
    /// The adapter's configuration of a debug session that the user describes with `config`.
    pub fn debug_config_map(
        config: &DebugConfig,
        odin_script: &str,
    ) -> (config_map: serde_json::Map<String, serde_json::Value>)
        ensures
            entries_of(config_map) == debug_entries(*config, formatter_command(odin_script@)),
    {
        let mut config_map = new_object();
        match &config.request {
            DebugRequest::Launch(launch) => {
                insert_entry(&mut config_map, "request", text_value("launch".to_owned()));
                insert_entry(&mut config_map, "program", text_value(launch.program.clone()));
                if let Some(cwd) = &launch.cwd {
                    insert_entry(&mut config_map, "cwd", text_value(cwd.clone()));
                }
                if !launch.args.is_empty() {
                    insert_entry(&mut config_map, "args", texts_value(&launch.args));
                }
                if !launch.envs.is_empty() {
                    insert_entry(&mut config_map, "env", envs_value(&launch.envs));
                }
            },
            DebugRequest::Attach(attach) => {
                insert_entry(&mut config_map, "request", text_value("attach".to_owned()));
                insert_entry(&mut config_map, "pid", number_value(attach.process_id));
            },
        }
        if let Some(stop_on_entry) = config.stop_on_entry {
            insert_entry(&mut config_map, "stopOnEntry", bool_value(stop_on_entry));
        }
        Self::merge_init_command(&mut config_map, odin_script);
        config_map
    }

    /// The scenario of `config` once its configuration has been written as text.
    pub fn written_scenario(config: DebugConfig, written: Result<String, String>) -> (scenario:
        Result<DebugScenario, String>)
        ensures
            scenario_view(scenario) == scenario_outcome(config, result_view(written)),
    {
        match written {
            Ok(text) => Ok(
                DebugScenario {
                    label: config.label,
                    adapter: config.adapter,
                    build: None,
                    config: text,
                    tcp_connection: None,
                },
            ),
            Err(error) => Err("Failed to serialize debug config: ".to_owned().concat(&error)),
        }
    }

    /// Turns a debug session as the user describes it into one that the debug adapter
    /// understands, with the formatters for Odin types registered.
    pub fn dap_config_to_scenario(&self, config: DebugConfig, odin_script: &str) -> (scenario:
        Result<DebugScenario, String>)
        ensures
            scenario is Ok,
            scenario_view(scenario) == scenario_outcome(
                config,
                Ok(
                    json_text(
                        Json::Object(debug_entries(config, formatter_command(odin_script@))),
                    ),
                ),
            ),
            reads_as(
                scenario->Ok_0.config@,
                Json::Object(debug_entries(config, formatter_command(odin_script@))),
            ),
    {
        let config_map = Self::debug_config_map(&config, odin_script);
        proof {
            lemma_debug_entries_read_back(config, formatter_command(odin_script@));
        }
        let config_value = object_value(config_map);
        Self::written_scenario(config, write_json(&config_value))
    }

    /// The kind of debug session that a configuration asks for.
    pub fn request_kind_from_config(&self, config: &serde_json::Value) -> (kind: Result<
        StartDebuggingRequestArgumentsRequest,
        String,
    >)
        ensures
            error_view(kind) == request_kind(json_of(*config)),
    {
        proof {
            lemma_keys_differ();
        }
        let field = get_field(config, "request");
        let request = match field {
            Some(field) => as_text(field),
            None => None,
        };
        match request {
            None => Err("Debug config is missing a string `request` field".to_owned()),
            Some(request) => if same_text(request, "launch") {
                Ok(StartDebuggingRequestArgumentsRequest::Launch)
            } else if same_text(request, "attach") {
                Ok(StartDebuggingRequestArgumentsRequest::Attach)
            } else {
                Err("Unsupported debug request kind: ".to_owned().concat(request))
            },
        }
    }

    /// The kind of debug session that a configuration asks for.
    pub fn dap_request_kind(&self, config: &serde_json::Value) -> (kind: Result<
        StartDebuggingRequestArgumentsRequest,
        String,
    >)
        ensures
            error_view(kind) == request_kind(json_of(*config)),
    {
        self.request_kind_from_config(config)
    }
}

/// Putting the same command among the first ones a second time changes nothing.
pub proof fn law_init_command_once(entries: Map<Seq<char>, Json>, command: Seq<char>)
    ensures
        with_init_command(with_init_command(entries, command), command) == with_init_command(
            entries,
            command,
        ),
{
    if !entries.contains_key("initCommands"@) || entries["initCommands"@] is Array {
        law_init_command_registered(entries, command);
    }
}

/// The command is among the first ones afterwards, unless something that is no list stands there.
pub proof fn law_init_command_registered(entries: Map<Seq<char>, Json>, command: Seq<char>)
    requires
        entries.contains_key("initCommands"@) ==> entries["initCommands"@] is Array,
    ensures
        with_init_command(entries, command).contains_key("initCommands"@),
        with_init_command(entries, command)["initCommands"@] is Array,
        with_init_command(entries, command)["initCommands"@]->Array_0.contains(
            Json::Text(command),
        ),
{
    let commands = with_init_command(entries, command)["initCommands"@]->Array_0;
    if !entries.contains_key("initCommands"@) || !entries["initCommands"@]->Array_0.contains(
        Json::Text(command),
    ) {
        assert(commands[0] == Json::Text(command));
    }
}

/// Every other entry stays as it was, and so do, in their order, the commands that were listed.
pub proof fn law_init_command_keeps_the_rest(entries: Map<Seq<char>, Json>, command: Seq<char>)
    ensures
        with_init_command(entries, command).remove("initCommands"@) == entries.remove(
            "initCommands"@,
        ),
        entries.contains_key("initCommands"@) ==> match entries["initCommands"@] {
            Json::Array(listed) => {
                let commands = with_init_command(entries, command)["initCommands"@]->Array_0;
                commands.skip(commands.len() - listed.len()) == listed
            },
            other => with_init_command(entries, command)["initCommands"@] == other,
        },
{
    assert(with_init_command(entries, command).remove("initCommands"@) =~= entries.remove(
        "initCommands"@,
    ));
    if entries.contains_key("initCommands"@) {
        if let Json::Array(listed) = entries["initCommands"@] {
            let commands = with_init_command(entries, command)["initCommands"@]->Array_0;
            assert(commands.skip(commands.len() - listed.len()) =~= listed);
        }
    }
}

/// The kind of session that the user asks for.
pub open spec fn asked_kind(request: DebugRequest) -> StartDebuggingRequestArgumentsRequest {
    match request {
        DebugRequest::Launch(_) => StartDebuggingRequestArgumentsRequest::Launch,
        DebugRequest::Attach(_) => StartDebuggingRequestArgumentsRequest::Attach,
    }
}

/// The configuration made from what the user asks for says which kind of session that is, and
/// registers the command.
pub proof fn law_session_config(config: DebugConfig, command: Seq<char>)
    ensures
        request_kind(Json::Object(debug_entries(config, command))) == Ok::<
            StartDebuggingRequestArgumentsRequest,
            Seq<char>,
        >(asked_kind(config.request)),
        with_init_command(debug_entries(config, command), command) == debug_entries(
            config,
            command,
        ),
        debug_entries(config, command)["initCommands"@] == Json::Array(
            seq![Json::Text(command)],
        ),
{
    lemma_keys_differ();
    assert(seq![Json::Text(command)][0] == Json::Text(command));
}

/// The value under the key is the array of those texts, in that order.
pub open spec fn lists_texts(
    entries: Map<Seq<char>, Json>,
    key: Seq<char>,
    texts: Seq<Seq<char>>,
) -> bool {
    &&& entries.contains_key(key)
    &&& entries[key] is Array
    &&& entries[key]->Array_0.len() == texts.len()
    &&& forall|i: int|
        0 <= i < texts.len() ==> #[trigger] entries[key]->Array_0[i] == Json::Text(texts[i])
}

/// The value under the key is the array of those variables, in that order, each as the array of
/// its name and its value.
pub open spec fn lists_variables(
    entries: Map<Seq<char>, Json>,
    key: Seq<char>,
    variables: Seq<(Seq<char>, Seq<char>)>,
) -> bool {
    &&& entries.contains_key(key)
    &&& entries[key] is Array
    &&& entries[key]->Array_0.len() == variables.len()
    &&& forall|i: int|
        #![trigger entries[key]->Array_0[i]]
        0 <= i < variables.len() ==> {
            &&& entries[key]->Array_0[i] is Array
            &&& entries[key]->Array_0[i]->Array_0.len() == 2
            &&& entries[key]->Array_0[i]->Array_0[0] == Json::Text(variables[i].0)
            &&& entries[key]->Array_0[i]->Array_0[1] == Json::Text(variables[i].1)
        }
}

/// The keys that come from what is to be debugged are different texts.
proof fn lemma_request_keys_differ()
    ensures
        "program"@ != "cwd"@,
        "program"@ != "args"@,
        "program"@ != "env"@,
        "program"@ != "pid"@,
        "program"@ != "stopOnEntry"@,
        "cwd"@ != "args"@,
        "cwd"@ != "env"@,
        "cwd"@ != "pid"@,
        "cwd"@ != "stopOnEntry"@,
        "args"@ != "env"@,
        "args"@ != "pid"@,
        "args"@ != "stopOnEntry"@,
        "env"@ != "pid"@,
        "env"@ != "stopOnEntry"@,
        "pid"@ != "stopOnEntry"@,
{
    reveal_strlit("program");
    reveal_strlit("cwd");
    reveal_strlit("args");
    reveal_strlit("env");
    reveal_strlit("pid");
    reveal_strlit("stopOnEntry");
    assert("program"@.len() == 7 && "args"@.len() == 4 && "stopOnEntry"@.len() == 11);
    assert("cwd"@.len() == 3 && "env"@.len() == 3 && "pid"@.len() == 3);
    assert("cwd"@[0] == 'c' && "env"@[0] == 'e' && "pid"@[0] == 'p');
}

/// The configuration of a program to start says what the user asked for, and nothing else: the
/// program; the working directory, if one was given; the arguments, all of them and in order, if
/// there is at least one; likewise the environment; whether to stop on entry, if that was said; and
/// the command as the only one to run first.
pub proof fn law_launch_configuration(
    config: DebugConfig,
    launch: LaunchRequest,
    command: Seq<char>,
)
    requires
        config.request == DebugRequest::Launch(launch),
    ensures
        ({
            let entries = debug_entries(config, command);
            &&& entries.contains_key("request"@)
            &&& entries["request"@] == Json::Text("launch"@)
            &&& entries.contains_key("program"@)
            &&& entries["program"@] == Json::Text(launch.program@)
            &&& entries.contains_key("cwd"@) <==> launch.cwd is Some
            &&& launch.cwd matches Some(cwd) ==> entries["cwd"@] == Json::Text(cwd@)
            &&& entries.contains_key("args"@) <==> launch.args.deep_view().len() >= 1
            &&& launch.args.deep_view().len() >= 1 ==> lists_texts(
                entries,
                "args"@,
                launch.args.deep_view(),
            )
            &&& entries.contains_key("env"@) <==> launch.envs.deep_view().len() >= 1
            &&& launch.envs.deep_view().len() >= 1 ==> lists_variables(
                entries,
                "env"@,
                launch.envs.deep_view(),
            )
            &&& entries.contains_key("stopOnEntry"@) <==> config.stop_on_entry is Some
            &&& config.stop_on_entry matches Some(stop) ==> entries["stopOnEntry"@] == Json::Bool(
                stop,
            )
            &&& lists_texts(entries, "initCommands"@, seq![command])
            &&& forall|key: Seq<char>| #[trigger]
                entries.contains_key(key) ==> key == "request"@ || key == "program"@ || key
                    == "cwd"@ || key == "args"@ || key == "env"@ || key == "stopOnEntry"@ || key
                    == "initCommands"@
        }),
{
    lemma_keys_differ();
    lemma_request_keys_differ();
    let entries = debug_entries(config, command);
    if launch.args.deep_view().len() >= 1 {
        assert(entries["args"@]->Array_0 =~= texts_json(launch.args.deep_view()));
    }
    if launch.envs.deep_view().len() >= 1 {
        assert(entries["env"@]->Array_0 =~= envs_json(launch.envs.deep_view()));
        assert forall|i: int|
            #![trigger entries["env"@]->Array_0[i]]
            0 <= i < launch.envs.deep_view().len() implies {
            &&& entries["env"@]->Array_0[i] is Array
            &&& entries["env"@]->Array_0[i]->Array_0.len() == 2
            &&& entries["env"@]->Array_0[i]->Array_0[0] == Json::Text(
                launch.envs.deep_view()[i].0,
            )
            &&& entries["env"@]->Array_0[i]->Array_0[1] == Json::Text(
                launch.envs.deep_view()[i].1,
            )
        } by {
            let variable = launch.envs.deep_view()[i];
            assert(entries["env"@]->Array_0[i] == Json::Array(
                texts_json(seq![variable.0, variable.1]),
            ));
            assert(seq![variable.0, variable.1][0] == variable.0);
            assert(seq![variable.0, variable.1][1] == variable.1);
        }
    }
    assert(seq![Json::Text(command)][0] == Json::Text(command));
    assert(seq![command][0] == command);
}

/// The configuration for a running process says what the user asked for, and nothing else: the
/// number of the process, or null where none was given; whether to stop on entry, if that was
/// said; and the command as the only one to run first.
pub proof fn law_attach_configuration(
    config: DebugConfig,
    attach: AttachRequest,
    command: Seq<char>,
)
    requires
        config.request == DebugRequest::Attach(attach),
    ensures
        ({
            let entries = debug_entries(config, command);
            &&& entries.contains_key("request"@)
            &&& entries["request"@] == Json::Text("attach"@)
            &&& entries.contains_key("pid"@)
            &&& entries["pid"@] == Json::Null <==> attach.process_id is None
            &&& attach.process_id matches Some(id) ==> entries["pid"@] == Json::Integer(id as int)
            &&& entries.contains_key("stopOnEntry"@) <==> config.stop_on_entry is Some
            &&& config.stop_on_entry matches Some(stop) ==> entries["stopOnEntry"@] == Json::Bool(
                stop,
            )
            &&& lists_texts(entries, "initCommands"@, seq![command])
            &&& forall|key: Seq<char>| #[trigger]
                entries.contains_key(key) ==> key == "request"@ || key == "pid"@ || key
                    == "stopOnEntry"@ || key == "initCommands"@
        }),
{
    lemma_keys_differ();
    lemma_request_keys_differ();
    assert(seq![Json::Text(command)][0] == Json::Text(command));
    assert(seq![command][0] == command);
}

/// What a configuration says can be told from it: two launch requests with the same configuration
/// ask for the same program with the same arguments, environment and working directory, stopped on
/// entry alike.
pub proof fn law_launch_requests_are_told_apart(
    a: DebugConfig,
    a_launch: LaunchRequest,
    b: DebugConfig,
    b_launch: LaunchRequest,
    command: Seq<char>,
)
    requires
        a.request == DebugRequest::Launch(a_launch),
        b.request == DebugRequest::Launch(b_launch),
        debug_entries(a, command) == debug_entries(b, command),
    ensures
        a_launch.program@ == b_launch.program@,
        a_launch.cwd.deep_view() == b_launch.cwd.deep_view(),
        a_launch.args.deep_view() == b_launch.args.deep_view(),
        a_launch.envs.deep_view() == b_launch.envs.deep_view(),
        a.stop_on_entry == b.stop_on_entry,
{
    law_launch_configuration(a, a_launch, command);
    law_launch_configuration(b, b_launch, command);
    let entries = debug_entries(a, command);
    let a_args = a_launch.args.deep_view();
    let b_args = b_launch.args.deep_view();
    assert(a_args =~= b_args) by {
        if a_args.len() >= 1 {
            assert forall|i: int| 0 <= i < a_args.len() implies a_args[i] == b_args[i] by {
                assert(entries["args"@]->Array_0[i] == Json::Text(a_args[i]));
            }
        }
    }
    let a_envs = a_launch.envs.deep_view();
    let b_envs = b_launch.envs.deep_view();
    assert(a_envs =~= b_envs) by {
        if a_envs.len() >= 1 {
            assert forall|i: int| 0 <= i < a_envs.len() implies a_envs[i] == b_envs[i] by {
                let pair = entries["env"@]->Array_0[i]->Array_0;
                assert(pair[0] == Json::Text(a_envs[i].0) && pair[1] == Json::Text(a_envs[i].1));
                assert(pair[0] == Json::Text(b_envs[i].0) && pair[1] == Json::Text(b_envs[i].1));
            }
        }
    }
    assert(a.stop_on_entry == b.stop_on_entry) by {
        if a.stop_on_entry is Some {
            assert(entries["stopOnEntry"@] == Json::Bool(a.stop_on_entry->0));
        }
    }
}

/// Two requests to attach with the same configuration ask for the same process, stopped on entry
/// alike.
pub proof fn law_attach_requests_are_told_apart(
    a: DebugConfig,
    a_attach: AttachRequest,
    b: DebugConfig,
    b_attach: AttachRequest,
    command: Seq<char>,
)
    requires
        a.request == DebugRequest::Attach(a_attach),
        b.request == DebugRequest::Attach(b_attach),
        debug_entries(a, command) == debug_entries(b, command),
    ensures
        a_attach.process_id == b_attach.process_id,
        a.stop_on_entry == b.stop_on_entry,
{
    law_attach_configuration(a, a_attach, command);
    law_attach_configuration(b, b_attach, command);
    let entries = debug_entries(a, command);
    assert(a_attach.process_id == b_attach.process_id) by {
        if a_attach.process_id is Some {
            assert(entries["pid"@] == Json::Integer(a_attach.process_id->0 as int));
        }
    }
    assert(a.stop_on_entry == b.stop_on_entry) by {
        if a.stop_on_entry is Some {
            assert(entries["stopOnEntry"@] == Json::Bool(a.stop_on_entry->0));
        }
    }
}

/// The scenario is for the session and the adapter that the user named, without a build step and
/// without a connection, and carries the configuration as it was written. A configuration that
/// could not be written makes none, and the message says why.
pub proof fn law_scenario_keeps_session(config: DebugConfig, text: Seq<char>, error: Seq<char>)
    ensures
        scenario_outcome(config, Ok(text)) matches Ok(scenario) && {
            &&& scenario.label == config.label@
            &&& scenario.adapter == config.adapter@
            &&& scenario.config == text
            &&& scenario.build is None
            &&& scenario.tcp_connection is None
        },
        scenario_outcome(config, Err(error)) == Err::<
            DebugScenario<Seq<char>, TaskTemplateView>,
            Seq<char>,
        >("Failed to serialize debug config: "@ + error),
{
}

/// The kind of a session is what stands under `request`, if that is one of the two texts; any other
/// text is named in the message, and anything else is said to be missing.
pub proof fn law_kind_is_what_request_says(config: Json)
    ensures
        ({
            let asks = config is Object && config->Object_0.contains_key("request"@);
            let request = config->Object_0["request"@];
            &&& (request_kind(config) matches Ok(kind) && kind
                == StartDebuggingRequestArgumentsRequest::Launch) <==> asks && request
                == Json::Text("launch"@)
            &&& (request_kind(config) matches Ok(kind) && kind
                == StartDebuggingRequestArgumentsRequest::Attach) <==> asks && request
                == Json::Text("attach"@)
            &&& request_kind(config) matches Err(message) ==> message == if asks
                && request is Text {
                "Unsupported debug request kind: "@ + request->Text_0
            } else {
                "Debug config is missing a string `request` field"@
            }
        }),
{
    lemma_keys_differ();
}

/// What the commands to run first become: the command alone where there were none; the command and
/// then those that were there, where it was not among them; and else what they were.
pub proof fn law_init_command_comes_first(entries: Map<Seq<char>, Json>, command: Seq<char>)
    ensures
        ({
            let merged = with_init_command(entries, command);
            let listed = entries["initCommands"@]->Array_0;
            let given = entries.contains_key("initCommands"@);
            &&& merged.contains_key("initCommands"@)
            &&& !given ==> lists_texts(merged, "initCommands"@, seq![command])
            &&& given && !(entries["initCommands"@] is Array) ==> merged == entries
            &&& given && entries["initCommands"@] is Array ==> {
                let commands = merged["initCommands"@]->Array_0;
                &&& merged["initCommands"@] is Array
                &&& (exists|i: int| 0 <= i < listed.len() && #[trigger] listed[i] == Json::Text(
                    command,
                )) ==> commands == listed
                &&& (forall|i: int| 0 <= i < listed.len() ==> #[trigger] listed[i] != Json::Text(
                    command,
                )) ==> {
                    &&& commands.len() == listed.len() + 1
                    &&& commands[0] == Json::Text(command)
                    &&& commands.skip(1) == listed
                }
            }
        }),
{
    let merged = with_init_command(entries, command);
    assert(seq![Json::Text(command)][0] == Json::Text(command));
    assert(seq![command][0] == command);
    if entries.contains_key("initCommands"@) && entries["initCommands"@] is Array {
        let listed = entries["initCommands"@]->Array_0;
        let commands = merged["initCommands"@]->Array_0;
        if !listed.contains(Json::Text(command)) {
            assert(commands.skip(1) =~= listed);
        } else {
            let i = listed.index_of(Json::Text(command));
            assert(listed[i] == Json::Text(command));
        }
    }
}

} // verus!
