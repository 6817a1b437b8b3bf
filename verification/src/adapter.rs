//! The debug adapter's start: which binary runs, and with which configuration.
use crate::debug::{
    asked_kind, debug_entries, law_init_command_registered, law_session_config, lemma_keys_differ,
    request_kind, with_init_command, DebugConfig, StartDebuggingRequestArguments,
    StartDebuggingRequestArgumentsRequest, TcpArguments, TcpArgumentsTemplate,
    ODIN_CODELLDB_ADAPTER_NAME,
};
use crate::extension::OdinExtension;
use crate::formatter::formatter_command;
use crate::json::{
    as_object_mut, holds_no_float, insert_if_absent, json_of, json_text, nests_within, outcome_of,
    parsed_json, read_json, reads_as, text_value, with_default, write_json, Json,
};
use crate::text::{result_view, same_text};
use vstd::prelude::*;
use vstd::string::*;

verus! {

/// A debug session to start.
#[derive(Debug, PartialEq, Eq)]
pub struct DebugTaskDefinition<T = String> {
    pub label: T,
    pub adapter: T,
    /// The adapter's configuration, as JSON text.
    pub config: T,
    pub tcp_connection: Option<TcpArgumentsTemplate>,
}

impl View for DebugTaskDefinition {
    type V = DebugTaskDefinition<Seq<char>>;

    open spec fn view(&self) -> DebugTaskDefinition<Seq<char>> {
        DebugTaskDefinition {
            label: self.label@,
            adapter: self.adapter@,
            config: self.config@,
            tcp_connection: self.tcp_connection,
        }
    }
}

/// How to start a debug adapter, and a session with it.
#[derive(Debug, PartialEq, Eq)]
pub struct DebugAdapterBinary {
    pub command: Option<String>,
    pub arguments: Vec<String>,
    pub envs: Vec<(String, String)>,
    pub cwd: Option<String>,
    pub connection: Option<TcpArguments>,
    pub request_args: StartDebuggingRequestArguments,
}

/// How to start a debug adapter, over texts.
pub struct DebugAdapterBinaryView {
    pub command: Option<Seq<char>>,
    pub arguments: Seq<Seq<char>>,
    pub envs: Seq<(Seq<char>, Seq<char>)>,
    pub cwd: Option<Seq<char>>,
    pub connection: Option<TcpArguments>,
    pub request_args: StartDebuggingRequestArguments<Seq<char>>,
}

impl View for DebugAdapterBinary {
    type V = DebugAdapterBinaryView;

    open spec fn view(&self) -> DebugAdapterBinaryView {
        DebugAdapterBinaryView {
            command: self.command.deep_view(),
            arguments: self.arguments.deep_view(),
            envs: self.envs.deep_view(),
            cwd: self.cwd.deep_view(),
            connection: self.connection,
            request_args: self.request_args@,
        }
    }
}

/// Where the start of a debug adapter stands: what has to be done next, or how it ended.
#[derive(Debug, PartialEq, Eq)]
pub enum DapStep<T = String, B = DebugAdapterBinary> {
    /// A session is asked for with the adapter of this name.
    Requested { adapter_name: T, config: DebugTaskDefinition<T> },
    /// The adapter's binary has to be found.
    FindAdapter { config: DebugTaskDefinition<T> },
    /// What the connection leaves open has to be filled in.
    ResolveTcp { template: TcpArgumentsTemplate, binary: B },
    /// The adapter can be started, or not.
    Finished(Result<B, T>),
}

impl View for DapStep {
    type V = DapStep<Seq<char>, DebugAdapterBinaryView>;

    open spec fn view(&self) -> DapStep<Seq<char>, DebugAdapterBinaryView> {
        match self {
            DapStep::Requested { adapter_name, config } => DapStep::Requested {
                adapter_name: adapter_name@,
                config: config@,
            },
            DapStep::FindAdapter { config } => DapStep::FindAdapter { config: config@ },
            DapStep::ResolveTcp { template, binary } => DapStep::ResolveTcp {
                template: *template,
                binary: binary@,
            },
            DapStep::Finished(Ok(binary)) => DapStep::Finished(Ok(binary@)),
            DapStep::Finished(Err(error)) => DapStep::Finished(Err(error@)),
        }
    }
}

/// What came out of a step.
#[derive(Debug, PartialEq, Eq)]
pub enum DapReply {
    /// To `Requested`: go on.
    Begin,
    /// To `FindAdapter`: the binary, or why there is none, and the root of the worktree.
    Adapter { command: Result<String, String>, root_path: String },
    /// To `ResolveTcp`: the connection, or why there is none.
    Tcp(Result<TcpArguments, String>),
}

/// The configuration entries that the adapter gets: those of the session, with a name, a working
/// directory and the formatter command where they lack one.
pub open spec fn adapter_entries(
    entries: Map<Seq<char>, Json>,
    label: Seq<char>,
    root_path: Seq<char>,
    command: Seq<char>,
) -> Map<Seq<char>, Json> {
    with_init_command(
        with_default(
            with_default(entries, "name"@, Json::Text(label)),
            "cwd"@,
            Json::Text(root_path),
        ),
        command,
    )
}

/// What the adapter gets of a configuration that was read as `read`: the completed configuration
/// and the kind of session, or what is wrong with it.
pub open spec fn configured(
    read: Result<Json, Seq<char>>,
    label: Seq<char>,
    root_path: Seq<char>,
    command: Seq<char>,
) -> Result<(Json, StartDebuggingRequestArgumentsRequest), Seq<char>> {
    match read {
        Err(message) => Err("Failed to parse CodeLLDB config: "@ + message),
        Ok(Json::Object(entries)) => {
            let config = Json::Object(adapter_entries(entries, label, root_path, command));
            match request_kind(config) {
                Ok(kind) => Ok((config, kind)),
                Err(error) => Err(error),
            }
        },
        Ok(_) => Err("CodeLLDB config must be a JSON object"@),
    }
}

/// The session's arguments once its configuration came out as `written`.
pub open spec fn written_arguments(
    written: Result<Seq<char>, Seq<char>>,
    request: StartDebuggingRequestArgumentsRequest,
) -> Result<StartDebuggingRequestArguments<Seq<char>>, Seq<char>> {
    match written {
        Ok(configuration) => Ok(StartDebuggingRequestArguments { configuration, request }),
        Err(error) => Err("Failed to serialize CodeLLDB config: "@ + error),
    }
}

/// The session's arguments for the configuration text `config`.
pub open spec fn request_arguments(
    config: Seq<char>,
    label: Seq<char>,
    root_path: Seq<char>,
    command: Seq<char>,
) -> Result<StartDebuggingRequestArguments<Seq<char>>, Seq<char>> {
    match configured(parsed_json(config), label, root_path, command) {
        Ok((config, kind)) => written_arguments(Ok(json_text(config)), kind),
        Err(error) => Err(error),
    }
}

/// What the adapter gets for the configuration text `config` reads back as the completed
/// configuration, unless that holds a floating-point number.
pub open spec fn configuration_reads_back(
    config: Seq<char>,
    label: Seq<char>,
    root_path: Seq<char>,
    command: Seq<char>,
) -> bool {
    match configured(parsed_json(config), label, root_path, command) {
        Ok((completed, _)) => holds_no_float(completed) ==> reads_as(
            json_text(completed),
            completed,
        ),
        Err(_) => true,
    }
}

/// The step that follows once the session's arguments are known.
pub open spec fn adapter_started(
    command: Seq<char>,
    root_path: Seq<char>,
    arguments: Result<StartDebuggingRequestArguments<Seq<char>>, Seq<char>>,
    tcp_connection: Option<TcpArgumentsTemplate>,
) -> DapStep<Seq<char>, DebugAdapterBinaryView> {
    match arguments {
        Err(error) => DapStep::Finished(Err(error)),
        Ok(request_args) => {
            let binary = DebugAdapterBinaryView {
                command: Some(command),
                arguments: seq![],
                envs: seq![],
                cwd: Some(root_path),
                connection: None,
                request_args,
            };
            match tcp_connection {
                Some(template) => DapStep::ResolveTcp { template, binary },
                None => DapStep::Finished(Ok(binary)),
            }
        },
    }
}

/// The step that follows `step` when `reply` came out of it. A reply to another step changes
/// nothing.
pub open spec fn dap_next(
    step: DapStep<Seq<char>, DebugAdapterBinaryView>,
    reply: DapReply,
    odin_script: Seq<char>,
) -> DapStep<Seq<char>, DebugAdapterBinaryView> {
    match (step, reply) {
        (DapStep::Requested { adapter_name, config }, DapReply::Begin) => if adapter_name
            == ODIN_CODELLDB_ADAPTER_NAME@ {
            DapStep::FindAdapter { config }
        } else {
            DapStep::Finished(Err("Unsupported Odin debug adapter: "@ + adapter_name))
        },
        (
            DapStep::FindAdapter { config },
            DapReply::Adapter { command: Ok(command), root_path },
        ) => adapter_started(
            command@,
            root_path@,
            request_arguments(
                config.config,
                config.label,
                root_path@,
                formatter_command(odin_script),
            ),
            config.tcp_connection,
        ),
        (
            DapStep::FindAdapter { config },
            DapReply::Adapter { command: Err(error), root_path },
        ) => DapStep::Finished(Err(error@)),
        (DapStep::ResolveTcp { template, binary }, DapReply::Tcp(Ok(connection))) =>
            DapStep::Finished(
            Ok(DebugAdapterBinaryView { connection: Some(connection), ..binary }),
        ),
        (DapStep::ResolveTcp { template, binary }, DapReply::Tcp(Err(error))) =>
            DapStep::Finished(Err(error@)),
        _ => step,
    }
}

/// The completed configuration and the kind of session, over JSON.
pub open spec fn configured_view(
    configured: Result<(serde_json::Value, StartDebuggingRequestArgumentsRequest), String>,
) -> Result<(Json, StartDebuggingRequestArgumentsRequest), Seq<char>> {
    match configured {
        Ok((config, kind)) => Ok((json_of(config), kind)),
        Err(error) => Err(error@),
    }
}

/// The session's arguments or an error, over texts.
pub open spec fn arguments_view(
    arguments: Result<StartDebuggingRequestArguments, String>,
) -> Result<StartDebuggingRequestArguments<Seq<char>>, Seq<char>> {
    match arguments {
        Ok(arguments) => Ok(arguments@),
        Err(error) => Err(error@),
    }
}

impl OdinExtension {
    /// Completes a configuration that was read as `read`.
    pub fn configure_adapter(
        &self,
        read: Result<serde_json::Value, String>,
        label: &str,
        root_path: &str,
        odin_script: &str,
    ) -> (result: Result<(serde_json::Value, StartDebuggingRequestArgumentsRequest), String>)
        ensures
            configured_view(result) == configured(
                outcome_of(read),
                label@,
                root_path@,
                formatter_command(odin_script@),
            ),
    {
        let mut config_value = match read {
            Ok(value) => value,
            Err(message) => {
                return Err("Failed to parse CodeLLDB config: ".to_owned().concat(&message));
            },
        };
        match as_object_mut(&mut config_value) {
            Some(config_map) => {
                insert_if_absent(config_map, "name", text_value(label.to_owned()));
                insert_if_absent(config_map, "cwd", text_value(root_path.to_owned()));
                Self::merge_init_command(config_map, odin_script);
            },
            None => {
                return Err("CodeLLDB config must be a JSON object".to_owned());
            },
        }
        match self.request_kind_from_config(&config_value) {
            Ok(request) => Ok((config_value, request)),
            Err(error) => Err(error),
        }
    }

    /// The session's arguments once its configuration has been written as text.
    pub fn written_arguments(
        written: Result<String, String>,
        request: StartDebuggingRequestArgumentsRequest,
    ) -> (arguments: Result<StartDebuggingRequestArguments, String>)
        ensures
            arguments_view(arguments) == written_arguments(result_view(written), request),
    {
        match written {
            Ok(configuration) => Ok(StartDebuggingRequestArguments { configuration, request }),
            Err(error) => Err("Failed to serialize CodeLLDB config: ".to_owned().concat(&error)),
        }
    }

    /// The session's arguments for the configuration text `config`.
    pub fn adapter_arguments(
        &self,
        config: &str,
        label: &str,
        root_path: &str,
        odin_script: &str,
    ) -> (arguments: Result<StartDebuggingRequestArguments, String>)
        ensures
            arguments_view(arguments) == request_arguments(
                config@,
                label@,
                root_path@,
                formatter_command(odin_script@),
            ),
            configuration_reads_back(
                config@,
                label@,
                root_path@,
                formatter_command(odin_script@),
            ),
    {
        let read = read_json(config);
        proof {
            if let Ok(Json::Object(entries)) = outcome_of(read) {
                lemma_completed_nests(
                    entries,
                    label@,
                    root_path@,
                    formatter_command(odin_script@),
                );
            }
        }
        match self.configure_adapter(read, label, root_path, odin_script) {
            Ok((config_value, request)) => Self::written_arguments(
                write_json(&config_value),
                request,
            ),
            Err(error) => Err(error),
        }
    }

    /// The step that follows once the session's arguments are known.
    pub fn adapter_started(
        command: String,
        root_path: String,
        arguments: Result<StartDebuggingRequestArguments, String>,
        tcp_connection: Option<TcpArgumentsTemplate>,
    ) -> (next: DapStep)
        ensures
            next@ == adapter_started(
                command@,
                root_path@,
                arguments_view(arguments),
                tcp_connection,
            ),
    {
        match arguments {
            Err(error) => DapStep::Finished(Err(error)),
            Ok(request_args) => {
                let binary = DebugAdapterBinary {
                    command: Some(command),
                    arguments: Vec::new(),
                    envs: Vec::new(),
                    cwd: Some(root_path),
                    connection: None,
                    request_args,
                };
                assert(binary.arguments.deep_view() =~= seq![]);
                assert(binary.envs.deep_view() =~= seq![]);
                match tcp_connection {
                    Some(template) => DapStep::ResolveTcp { template, binary },
                    None => DapStep::Finished(Ok(binary)),
                }
            },
        }
    }

    /// Goes on with the start of a debug adapter from `step`, which `reply` came out of.
    pub fn get_dap_binary(&self, step: DapStep, reply: DapReply, odin_script: &str) -> (next:
        DapStep)
        ensures
            next@ == dap_next(step@, reply, odin_script@),
            match (step@, reply) {
                (
                    DapStep::FindAdapter { config },
                    DapReply::Adapter { command: Ok(_), root_path },
                ) => configuration_reads_back(
                    config.config,
                    config.label,
                    root_path@,
                    formatter_command(odin_script@),
                ),
                _ => true,
            },
    {
        match (step, reply) {
            (DapStep::Requested { adapter_name, config }, DapReply::Begin) => {
                if same_text(adapter_name.as_str(), ODIN_CODELLDB_ADAPTER_NAME) {
                    DapStep::FindAdapter { config }
                } else {
                    DapStep::Finished(
                        Err("Unsupported Odin debug adapter: ".to_owned().concat(&adapter_name)),
                    )
                }
            },
            (DapStep::FindAdapter { config }, DapReply::Adapter { command, root_path }) => {
                let command = match command {
                    Ok(command) => command,
                    Err(error) => {
                        return DapStep::Finished(Err(error));
                    },
                };
                let arguments = self.adapter_arguments(
                    &config.config,
                    &config.label,
                    &root_path,
                    odin_script,
                );
                Self::adapter_started(command, root_path, arguments, config.tcp_connection)
            },
            (DapStep::ResolveTcp { template: _, binary }, DapReply::Tcp(connection)) => {
                match connection {
                    Ok(connection) => DapStep::Finished(
                        Ok(DebugAdapterBinary { connection: Some(connection), ..binary }),
                    ),
                    Err(error) => DapStep::Finished(Err(error)),
                }
            },
            (step, _) => step,
        }
    }
}

/// Completing a configuration nests it no deeper than it may be to be read.
proof fn lemma_completed_nests(
    entries: Map<Seq<char>, Json>,
    label: Seq<char>,
    root_path: Seq<char>,
    command: Seq<char>,
)
    requires
        nests_within(Json::Object(entries), 127),
    ensures
        nests_within(Json::Object(adapter_entries(entries, label, root_path, command)), 127),
{
    lemma_keys_differ();
    let completed = adapter_entries(entries, label, root_path, command);
    let given = Json::Object(entries);
    assert forall|key: Seq<char>| #[trigger] completed.contains_key(key) implies nests_within(
        completed[key],
        126,
    ) by {
        if entries.contains_key(key) {
            assert(given->Object_0.contains_key(key));
            assert(nests_within(entries[key], 126));
        }
        if completed[key] is Array {
            let items = completed[key]->Array_0;
            assert forall|i: int| 0 <= i < items.len() implies nests_within(
                #[trigger] items[i],
                125,
            ) by {
                if entries.contains_key(key) && entries[key] != completed[key] {
                    if i > 0 {
                        assert(entries[key]->Array_0[i - 1] == items[i]);
                    }
                } else if entries.contains_key(key) {
                    assert(entries[key]->Array_0[i] == items[i]);
                }
            }
        }
    }
}

/// Completing a configuration brings no floating-point number into it, and takes none out of it.
pub proof fn law_completion_adds_no_float(
    entries: Map<Seq<char>, Json>,
    label: Seq<char>,
    root_path: Seq<char>,
    command: Seq<char>,
)
    ensures
        holds_no_float(Json::Object(adapter_entries(entries, label, root_path, command)))
            == holds_no_float(Json::Object(entries)),
{
    lemma_keys_differ();
    let completed = adapter_entries(entries, label, root_path, command);
    let given = Json::Object(entries);
    let whole = Json::Object(completed);
    if holds_no_float(given) {
        assert forall|key: Seq<char>| #[trigger]
            completed.contains_key(key) implies holds_no_float(completed[key]) by {
            if entries.contains_key(key) {
                assert(given->Object_0.contains_key(key));
                assert(holds_no_float(entries[key]));
            }
            if completed[key] is Array {
                let items = completed[key]->Array_0;
                assert forall|i: int| 0 <= i < items.len() implies holds_no_float(
                    #[trigger] items[i],
                ) by {
                    if entries.contains_key(key) && entries[key] != completed[key] {
                        if i > 0 {
                            assert(entries[key]->Array_0[i - 1] == items[i]);
                        }
                    } else if entries.contains_key(key) {
                        assert(entries[key]->Array_0[i] == items[i]);
                    }
                }
            }
        }
    }
    if holds_no_float(whole) {
        assert forall|key: Seq<char>| #[trigger]
            entries.contains_key(key) implies holds_no_float(entries[key]) by {
            assert(whole->Object_0.contains_key(key));
            assert(holds_no_float(completed[key]));
            if entries[key] != completed[key] {
                let items = entries[key]->Array_0;
                assert forall|i: int| 0 <= i < items.len() implies holds_no_float(
                    #[trigger] items[i],
                ) by {
                    assert(completed[key]->Array_0[i + 1] == items[i]);
                }
            }
        }
    }
}

/// A session that the user describes reaches the adapter as described: where the configuration
/// text is the one of `config`, the adapter gets its entries, completed by a name and a working
/// directory, and the kind of session that was asked for.
pub proof fn law_session_reaches_adapter(
    config: DebugConfig,
    text: Seq<char>,
    label: Seq<char>,
    root_path: Seq<char>,
    command: Seq<char>,
)
    requires
        reads_as(text, Json::Object(debug_entries(config, command))),
    ensures
        ({
            let entries = with_default(
                debug_entries(config, command).insert("name"@, Json::Text(label)),
                "cwd"@,
                Json::Text(root_path),
            );
            request_arguments(text, label, root_path, command) == Ok::<
                StartDebuggingRequestArguments<Seq<char>>,
                Seq<char>,
            >(
                StartDebuggingRequestArguments {
                    configuration: json_text(Json::Object(entries)),
                    request: asked_kind(config.request),
                },
            )
        }),
{
    law_session_config(config, command);
    lemma_keys_differ();
    assert(seq![Json::Text(command)][0] == Json::Text(command));
}

/// Whatever the configuration, the adapter gets one that names the session and a working
/// directory, with every entry but the first commands as it was. The formatter command is among
/// those, unless something that is no list stands there.
pub proof fn law_adapter_entries_complete(
    entries: Map<Seq<char>, Json>,
    label: Seq<char>,
    root_path: Seq<char>,
    command: Seq<char>,
)
    ensures
        ({
            let completed = adapter_entries(entries, label, root_path, command);
            &&& completed.contains_key("name"@)
            &&& completed.contains_key("cwd"@)
            &&& completed.contains_key("initCommands"@)
            &&& forall|key: Seq<char>|
                entries.contains_key(key) && key != "initCommands"@
                    ==> #[trigger] completed.contains_key(key) && completed[key] == entries[key]
            &&& (entries.contains_key("initCommands"@) ==> entries["initCommands"@] is Array) ==> {
                &&& completed["initCommands"@] is Array
                &&& completed["initCommands"@]->Array_0.contains(Json::Text(command))
            }
        }),
{
    lemma_keys_differ();
    let named = with_default(
        with_default(entries, "name"@, Json::Text(label)),
        "cwd"@,
        Json::Text(root_path),
    );
    if entries.contains_key("initCommands"@) ==> entries["initCommands"@] is Array {
        law_init_command_registered(named, command);
    }
}

/// Once the start has ended, no reply changes how.
pub proof fn law_finished_start_stays(
    outcome: Result<DebugAdapterBinaryView, Seq<char>>,
    reply: DapReply,
    odin_script: Seq<char>,
)
    ensures
        dap_next(DapStep::Finished(outcome), reply, odin_script) == DapStep::<
            Seq<char>,
            DebugAdapterBinaryView,
        >::Finished(outcome),
{
}

/// The name and the working directory that the adapter gets are those of the configuration, and
/// where it has none, the label of the session and the root of the worktree. The commands to run
/// first are those that the configuration itself would get. No other entry comes in.
pub proof fn law_completion_adds_what_is_missing(
    entries: Map<Seq<char>, Json>,
    label: Seq<char>,
    root_path: Seq<char>,
    command: Seq<char>,
    key: Seq<char>,
)
    ensures
        ({
            let completed = adapter_entries(entries, label, root_path, command);
            &&& completed["name"@] == if entries.contains_key("name"@) {
                entries["name"@]
            } else {
                Json::Text(label)
            }
            &&& completed["cwd"@] == if entries.contains_key("cwd"@) {
                entries["cwd"@]
            } else {
                Json::Text(root_path)
            }
            &&& completed["initCommands"@] == with_init_command(entries, command)["initCommands"@]
            &&& completed.contains_key(key) <==> entries.contains_key(key) || key == "name"@ || key
                == "cwd"@ || key == "initCommands"@
        }),
{
    lemma_keys_differ();
}

/// A configuration is refused, with a message that says why, if it cannot be read, if it is no
/// object, or if it does not say which kind of session it asks for. Any other is completed, and its
/// kind is the one that it asks for.
pub proof fn law_configuration_is_completed_or_refused(
    value: Json,
    message: Seq<char>,
    label: Seq<char>,
    root_path: Seq<char>,
    command: Seq<char>,
)
    ensures
        configured(Err(message), label, root_path, command) == Err::<
            (Json, StartDebuggingRequestArgumentsRequest),
            Seq<char>,
        >("Failed to parse CodeLLDB config: "@ + message),
        !(value is Object) ==> configured(Ok(value), label, root_path, command) == Err::<
            (Json, StartDebuggingRequestArgumentsRequest),
            Seq<char>,
        >("CodeLLDB config must be a JSON object"@),
        value is Object ==> {
            let entries = value->Object_0;
            let asks = entries.contains_key("request"@);
            let request = entries["request"@];
            match configured(Ok(value), label, root_path, command) {
                Ok((completed, StartDebuggingRequestArgumentsRequest::Launch)) => {
                    &&& asks && request == Json::Text("launch"@)
                    &&& completed == Json::Object(
                        adapter_entries(entries, label, root_path, command),
                    )
                },
                Ok((completed, StartDebuggingRequestArgumentsRequest::Attach)) => {
                    &&& asks && request == Json::Text("attach"@)
                    &&& completed == Json::Object(
                        adapter_entries(entries, label, root_path, command),
                    )
                },
                Err(error) => if asks && request is Text {
                    &&& request != Json::Text("launch"@)
                    &&& request != Json::Text("attach"@)
                    &&& error == "Unsupported debug request kind: "@ + request->Text_0
                } else {
                    error == "Debug config is missing a string `request` field"@
                },
            }
        },
{
    lemma_keys_differ();
}

/// The session's arguments are the configuration as it was written and the kind of session; where
/// it could not be written, the message says why.
pub proof fn law_arguments_carry_configuration(
    text: Seq<char>,
    error: Seq<char>,
    kind: StartDebuggingRequestArgumentsRequest,
)
    ensures
        written_arguments(Ok(text), kind) matches Ok(arguments) && arguments.configuration == text
            && arguments.request == kind,
        written_arguments(Err(error), kind) == Err::<
            StartDebuggingRequestArguments<Seq<char>>,
            Seq<char>,
        >("Failed to serialize CodeLLDB config: "@ + error),
{
}

/// The start goes on exactly for the adapter `OdinCodeLLDB`, with the session as it was asked for;
/// for any other it ends, and the message names it.
pub proof fn law_only_own_adapter_starts(
    adapter_name: Seq<char>,
    config: DebugTaskDefinition<Seq<char>>,
    odin_script: Seq<char>,
)
    ensures
        ({
            let next = dap_next(
                DapStep::Requested { adapter_name, config },
                DapReply::Begin,
                odin_script,
            );
            match next {
                DapStep::FindAdapter { config: kept } => adapter_name == "OdinCodeLLDB"@ && kept
                    == config,
                DapStep::Finished(Err(error)) => adapter_name != "OdinCodeLLDB"@ && error
                    == "Unsupported Odin debug adapter: "@ + adapter_name,
                _ => false,
            }
        }),
{
}

/// Once the adapter was found, it is started at that path, in the root of the worktree, without
/// arguments and environment, with the completed configuration and the kind of session that it
/// asks for; where the session has a connection, what that leaves open is filled in first.
pub proof fn law_found_adapter_starts(
    config: DebugTaskDefinition<Seq<char>>,
    entries: Map<Seq<char>, Json>,
    command: String,
    root_path: String,
    odin_script: Seq<char>,
)
    requires
        reads_as(config.config, Json::Object(entries)),
        entries.contains_key("request"@),
        entries["request"@] == Json::Text("launch"@) || entries["request"@] == Json::Text(
            "attach"@,
        ),
    ensures
        ({
            let next = dap_next(
                DapStep::FindAdapter { config },
                DapReply::Adapter { command: Ok(command), root_path },
                odin_script,
            );
            let binary = match next {
                DapStep::ResolveTcp { template, binary } => binary,
                _ => next->Finished_0->Ok_0,
            };
            &&& match config.tcp_connection {
                Some(given) => next matches DapStep::ResolveTcp { template, .. } && template
                    == given,
                None => next matches DapStep::Finished(outcome) && outcome is Ok,
            }
            &&& binary.command == Some(command@)
            &&& binary.arguments.len() == 0
            &&& binary.envs.len() == 0
            &&& binary.cwd == Some(root_path@)
            &&& binary.connection is None
            &&& binary.request_args.configuration == json_text(
                Json::Object(
                    adapter_entries(
                        entries,
                        config.label,
                        root_path@,
                        formatter_command(odin_script),
                    ),
                ),
            )
            &&& binary.request_args.request == StartDebuggingRequestArgumentsRequest::Launch
                <==> entries["request"@] == Json::Text("launch"@)
        }),
{
    lemma_keys_differ();
}

/// Nothing is started where the adapter was not found, where its configuration is refused, or where
/// the connection could not be filled in: the start ends with the message that was given for it.
pub proof fn law_failed_start_says_why(
    config: DebugTaskDefinition<Seq<char>>,
    command: String,
    error: String,
    root_path: String,
    template: TcpArgumentsTemplate,
    binary: DebugAdapterBinaryView,
    odin_script: Seq<char>,
)
    ensures
        dap_next(
            DapStep::FindAdapter { config },
            DapReply::Adapter { command: Err(error), root_path },
            odin_script,
        ) == DapStep::<Seq<char>, DebugAdapterBinaryView>::Finished(Err(error@)),
        configured(
            parsed_json(config.config),
            config.label,
            root_path@,
            formatter_command(odin_script),
        ) matches Err(message) ==> dap_next(
            DapStep::FindAdapter { config },
            DapReply::Adapter { command: Ok(command), root_path },
            odin_script,
        ) == DapStep::<Seq<char>, DebugAdapterBinaryView>::Finished(Err(message)),
        dap_next(
            DapStep::ResolveTcp { template, binary },
            DapReply::Tcp(Err(error)),
            odin_script,
        ) == DapStep::<Seq<char>, DebugAdapterBinaryView>::Finished(Err(error@)),
{
}

/// The connection that was filled in is used, and nothing else changes with it.
pub proof fn law_connection_is_used(
    template: TcpArgumentsTemplate,
    binary: DebugAdapterBinaryView,
    connection: TcpArguments,
    odin_script: Seq<char>,
)
    ensures
        dap_next(
            DapStep::ResolveTcp { template, binary },
            DapReply::Tcp(Ok(connection)),
            odin_script,
        ) matches DapStep::Finished(Ok(started)) && {
            &&& started.connection == Some(connection)
            &&& started.command == binary.command
            &&& started.arguments == binary.arguments
            &&& started.envs == binary.envs
            &&& started.cwd == binary.cwd
            &&& started.request_args == binary.request_args
        },
{
}

/// A reply that a step does not wait for changes nothing.
pub proof fn law_start_waits_for_its_reply(
    step: DapStep<Seq<char>, DebugAdapterBinaryView>,
    reply: DapReply,
    odin_script: Seq<char>,
)
    requires
        match step {
            DapStep::Requested { .. } => !(reply is Begin),
            DapStep::FindAdapter { .. } => !(reply is Adapter),
            DapStep::ResolveTcp { .. } => !(reply is Tcp),
            DapStep::Finished(_) => true,
        },
    ensures
        dap_next(step, reply, odin_script) == step,
{
}

} // verus!
