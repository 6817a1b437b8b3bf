//! What the user's settings say of the language server.
use crate::extension::OdinExtension;
use crate::json::{json_of, null_value, Json};
use vstd::prelude::*;

verus! {

/// The settings of a language server's binary.
#[derive(Debug)]
pub struct CommandSettings {
    /// The path of the binary.
    pub path: Option<String>,
}

/// The settings of a language server.
#[derive(Debug)]
pub struct LspSettings {
    pub binary: Option<CommandSettings>,
    /// What the server is initialised with.
    pub initialization_options: Option<serde_json::Value>,
    /// The server's configuration.
    pub settings: Option<serde_json::Value>,
}

/// The path of the binary that the settings give, if they do.
pub open spec fn configured_path(settings: Option<LspSettings>) -> Option<Seq<char>> {
    match settings {
        Some(LspSettings { binary: Some(CommandSettings { path: Some(path) }), .. }) => Some(path@),
        _ => None,
    }
}

/// A command to start, with its arguments and environment.
#[derive(Debug, PartialEq, Eq)]
pub struct Command {
    pub command: String,
    pub args: Vec<String>,
    pub env: Vec<(String, String)>,
}

/// The command starts the binary at the path that was found, and that alone; where none was found,
/// there is no command, for the same reason.
pub open spec fn starts_alone(
    command: Result<Command, String>,
    path: Result<String, String>,
) -> bool {
    match command {
        Ok(command) => {
            &&& path is Ok
            &&& command.command@ == path->Ok_0@
            &&& command.args@.len() == 0
            &&& command.env@.len() == 0
        },
        Err(error) => path is Err && error@ == path->Err_0@,
    }
}

/// What the settings say that the server is initialised with.
pub open spec fn initialization_options(settings: Option<LspSettings>) -> Option<
    serde_json::Value,
> {
    match settings {
        Some(settings) => settings.initialization_options,
        None => None,
    }
}

/// What the settings say of the server's configuration; null if they say nothing.
pub open spec fn workspace_configuration(settings: Option<LspSettings>) -> Json {
    match settings {
        Some(LspSettings { settings: Some(value), .. }) => json_of(value),
        _ => Json::Null,
    }
}

impl LspSettings {
    /// The path of the binary that the settings give, if they do.
    pub fn configured_path(settings: Option<LspSettings>) -> (path: Option<String>)
        ensures
            path.deep_view() == configured_path(settings),
    {
        match settings {
            Some(settings) => match settings.binary {
                Some(binary) => binary.path,
                None => None,
            },
            None => None,
        }
    }
}

impl OdinExtension {
    /// The command that starts the language server at the path that was found: the path alone,
    /// without arguments.
    pub fn language_server_command(&self, path: Result<String, String>) -> (command: Result<
        Command,
        String,
    >)
        ensures
            starts_alone(command, path),
    {
        match path {
            Ok(path) => Ok(Command { command: path, args: Vec::new(), env: Vec::new() }),
            Err(error) => Err(error),
        }
    }

    /// What the language server is initialised with: what the settings say, if they say it.
    pub fn language_server_initialization_options(
        &self,
        settings: Option<LspSettings>,
    ) -> (options: Option<serde_json::Value>)
        ensures
            options == initialization_options(settings),
    {
        match settings {
            Some(settings) => settings.initialization_options,
            None => None,
        }
    }

    /// The language server's configuration: what the settings say, and null if they say nothing.
    pub fn language_server_workspace_configuration(
        &self,
        settings: Option<LspSettings>,
    ) -> (configuration: Option<serde_json::Value>)
        ensures
            configuration matches Some(value) && json_of(value) == workspace_configuration(
                settings,
            ),
    {
        match settings {
            Some(settings) => match settings.settings {
                Some(value) => Some(value),
                None => Some(null_value()),
            },
            None => Some(null_value()),
        }
    }
}

/// The path that the settings give for the binary is the one that counts, whatever it is and
/// whatever else the settings say; there is none exactly where they give none.
pub proof fn law_configured_path(
    settings: Option<LspSettings>,
    path: String,
    initialization_options: Option<serde_json::Value>,
    workspace: Option<serde_json::Value>,
)
    ensures
        configured_path(
            Some(
                LspSettings {
                    binary: Some(CommandSettings { path: Some(path) }),
                    initialization_options,
                    settings: workspace,
                },
            ),
        ) == Some(path@),
        configured_path(settings) is None <==> settings is None || settings->0.binary is None
            || settings->0.binary->0.path is None,
{
}

/// The options and the configuration that the settings give reach the server as they are, whatever
/// else the settings say; where they are not given, there are no options, and the configuration is
/// null.
pub proof fn law_settings_reach_server(
    binary: Option<CommandSettings>,
    options: Option<serde_json::Value>,
    given: Option<serde_json::Value>,
)
    ensures
        ({
            let settings = Some(
                LspSettings { binary, initialization_options: options, settings: given },
            );
            &&& initialization_options(settings) == options
            &&& given is Some ==> workspace_configuration(settings) == json_of(given->0)
            &&& given is None ==> workspace_configuration(settings) == Json::Null
        }),
        initialization_options(None) is None,
        workspace_configuration(None) == Json::Null,
{
}

/// There is a command exactly where a path was found. It is that path, whatever it is, without
/// arguments and environment; and where none was found, the error is the one of the search.
pub proof fn law_command_is_path_alone(
    command: Result<Command, String>,
    path: Result<String, String>,
)
    requires
        starts_alone(command, path),
    ensures
        command is Ok <==> path is Ok,
        command matches Ok(started) ==> {
            &&& started.command@ == path->Ok_0@
            &&& started.args.deep_view() == Seq::<Seq<char>>::empty()
            &&& started.env.deep_view() == Seq::<(Seq<char>, Seq<char>)>::empty()
        },
        command matches Err(error) ==> error@ == path->Err_0@,
{
}

} // verus!
