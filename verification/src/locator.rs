//! The locator: from a task that runs or tests an Odin package to one that builds it for the
//! debugger, and from there to the program that was built.
use crate::debug::{
    BuildTaskDefinition, BuildTaskDefinitionTemplatePayload, DebugRequest, DebugScenario,
    LaunchRequest, TaskTemplate, TaskTemplateView,
};
use crate::extension::OdinExtension;
use crate::json::{new_object, object_value, write_json};
use crate::platform::{exe_suffix, path_separator, Os};
use crate::text::{occurs_at, same_text, strip_prefix};
use vstd::prelude::*;
use vstd::string::*;

verus! {

/// The task runs an Odin package.
pub open spec fn is_run_task(task: TaskTemplateView) -> bool {
    task.command == "odin"@ && task.args.len() > 0 && task.args[0] == "run"@
}

/// The task tests an Odin package.
pub open spec fn is_test_task(task: TaskTemplateView) -> bool {
    task.command == "odin"@ && task.args.len() > 0 && task.args[0] == "test"@
}

/// The name of the program that is built for the debugger.
pub open spec fn debug_build_name(platform: Os) -> Seq<char> {
    "debug_build"@ + exe_suffix(platform)
}

/// The arguments of the task that builds for the debugger what the given arguments run or test:
/// it builds, to a known place, with debug information, and tests in test mode.
pub open spec fn debug_build_args(args: Seq<Seq<char>>, is_test: bool, platform: Os) -> Seq<
    Seq<char>,
> {
    let built = args.update(0, "build"@).push("-out:"@ + debug_build_name(platform));
    let debugged = if args.contains("-debug"@) {
        built
    } else {
        built.push("-debug"@)
    };
    if is_test {
        debugged.push("-build-mode:test"@)
    } else {
        debugged
    }
}

/// The text without the prefix, or the whole text if it does not begin with it.
pub open spec fn without_prefix(text: Seq<char>, prefix: Seq<char>) -> Seq<char> {
    if occurs_at(text, prefix, 0) {
        text.skip(prefix.len() as int)
    } else {
        text
    }
}

/// The label of the debug scenario for a task with that label.
pub open spec fn scenario_label(label: Seq<char>, is_test: bool) -> Seq<char> {
    if is_test {
        if occurs_at(label, "test: "@, 0) {
            "test "@ + without_prefix(label, "test: "@)
        } else {
            label
        }
    } else {
        without_prefix(label, "run: "@)
    }
}

/// The task that builds for the debugger what the given task runs or tests.
pub open spec fn debug_build_task(task: TaskTemplateView, platform: Os) -> TaskTemplateView {
    TaskTemplateView {
        label: if is_test_task(task) {
            "odin debug test"@
        } else {
            "odin debug build"@
        },
        args: debug_build_args(task.args, is_test_task(task), platform),
        ..task
    }
}

/// The debug scenario for a task: there is one if it runs or tests an Odin package.
pub open spec fn located_scenario(
    locator_name: Seq<char>,
    task: TaskTemplateView,
    label: Seq<char>,
    adapter: Seq<char>,
    platform: Os,
) -> Option<DebugScenario<Seq<char>, TaskTemplateView>> {
    if is_run_task(task) || is_test_task(task) {
        Some(
            DebugScenario {
                label: scenario_label(label, is_test_task(task)),
                adapter,
                build: Some(
                    BuildTaskDefinition::Template(
                        BuildTaskDefinitionTemplatePayload {
                            locator_name: Some(locator_name),
                            template: debug_build_task(task, platform),
                        },
                    ),
                ),
                config: "{}"@,
                tcp_connection: None,
            },
        )
    } else {
        None
    }
}

/// A scenario, if there is one, over texts.
pub open spec fn found_scenario_view(scenario: Option<DebugScenario>) -> Option<
    DebugScenario<Seq<char>, TaskTemplateView>,
> {
    match scenario {
        Some(scenario) => Some(scenario@),
        None => None,
    }
}

/// The place that the first of the arguments to name one has the program built at.
pub open spec fn output_name(args: Seq<Seq<char>>) -> Option<Seq<char>>
    decreases args.len(),
{
    if args.len() == 0 {
        None
    } else if occurs_at(args[0], "-out:"@, 0) {
        Some(args[0].skip("-out:"@.len() as int))
    } else {
        output_name(args.skip(1))
    }
}

/// The task is one that the locator reads: it builds or tests with Odin.
pub open spec fn is_build_task(task: TaskTemplateView) -> bool {
    task.command == "odin"@ && task.args.len() > 0 && (task.args[0] == "build"@ || task.args[0]
        == "test"@)
}

/// The path of the program that a build task built, or why it is not known.
pub open spec fn built_program(task: TaskTemplateView, platform: Os) -> Result<
    Seq<char>,
    Seq<char>,
> {
    if !is_build_task(task) {
        Err("Not an Odin build or test task"@)
    } else {
        match (output_name(task.args), task.cwd) {
            (None, _) => Err("Failed to extract output binary name from build task"@),
            (Some(_), None) => Err("No cwd in build task"@),
            (Some(name), Some(cwd)) => Ok(cwd + path_separator(platform) + name),
        }
    }
}

/// What the locator answers for a build task: a request to launch the program that was built, in
/// the working directory and the environment of the task and without arguments, or why there is
/// none.
pub open spec fn launches_built_program(
    request: Result<DebugRequest, String>,
    task: TaskTemplateView,
    platform: Os,
) -> bool {
    match request {
        Ok(DebugRequest::Launch(launch)) => {
            &&& built_program(task, platform) == Ok::<Seq<char>, Seq<char>>(launch.program@)
            &&& launch.cwd.deep_view() == task.cwd
            &&& launch.args@.len() == 0
            &&& launch.envs.deep_view() == task.env
        },
        Ok(DebugRequest::Attach(_)) => false,
        Err(error) => built_program(task, platform) == Err::<Seq<char>, Seq<char>>(error@),
    }
}

/// Tells whether the arguments begin with `first`.
fn begins_with(args: &Vec<String>, first: &str) -> (found: bool)
    ensures
        found == (args@.len() > 0 && args.deep_view()[0] == first@),
{
    args.len() > 0 && same_text(args[0].as_str(), first)
}

/// Tells whether an argument is among others.
fn has_argument(args: &Vec<String>, wanted: &str) -> (found: bool)
    ensures
        found == args.deep_view().contains(wanted@),
{
    let mut i: usize = 0;
    while i < args.len()
        invariant
            i <= args@.len(),
            forall|j: int| 0 <= j < i ==> #[trigger] args.deep_view()[j] != wanted@,
        decreases args@.len() - i,
    {
        assert(args.deep_view()[i as int] == args@[i as int]@);
        if same_text(args[i].as_str(), wanted) {
            return true;
        }
        i += 1;
    }
    false
}

/// The place that the first of the arguments to name one has the program built at.
fn find_output_name(args: &Vec<String>) -> (name: Option<String>)
    ensures
        name.deep_view() == output_name(args.deep_view()),
{
    let mut i: usize = 0;
    assert(args.deep_view().skip(0) =~= args.deep_view());
    while i < args.len()
        invariant
            i <= args@.len(),
            output_name(args.deep_view()) == output_name(args.deep_view().skip(i as int)),
        decreases args@.len() - i,
    {
        if let Some(name) = strip_prefix(args[i].as_str(), "-out:") {
            return Some(name.to_owned());
        }
        assert(args.deep_view().skip(i as int).skip(1) =~= args.deep_view().skip(i + 1));
        i += 1;
    }
    None
}

impl OdinExtension {
    /// The label of the debug scenario for a task with that label.
    fn scenario_label(resolved_label: String, is_test: bool) -> (label: String)
        ensures
            label@ == scenario_label(resolved_label@, is_test),
    {
        if is_test {
            match strip_prefix(resolved_label.as_str(), "test: ") {
                Some(suffix) => "test ".to_owned().concat(suffix),
                None => resolved_label.clone(),
            }
        } else {
            match strip_prefix(resolved_label.as_str(), "run: ") {
                Some(suffix) => suffix.to_owned(),
                None => resolved_label.clone(),
            }
        }
    }

    /// Makes a debug scenario of a task that runs or tests an Odin package: the package is built
    /// for the debugger first. Its configuration is left empty.
    pub fn dap_locator_create_scenario(
        &self,
        locator_name: String,
        build_task: TaskTemplate,
        resolved_label: String,
        debug_adapter_name: String,
        platform: Os,
    ) -> (scenario: Option<DebugScenario>)
        ensures
            found_scenario_view(scenario) == located_scenario(
                locator_name@,
                build_task@,
                resolved_label@,
                debug_adapter_name@,
                platform,
            ),
    {
        proof {
            reveal_strlit("run");
            reveal_strlit("test");
        }
        let is_odin = same_text(build_task.command.as_str(), "odin");
        let is_run = is_odin && begins_with(&build_task.args, "run");
        let is_test = is_odin && begins_with(&build_task.args, "test");
        if !is_run && !is_test {
            return None;
        }
        let debug_given = has_argument(&build_task.args, "-debug");
        let ghost args = build_task.args.deep_view();
        let mut build_args = build_task.args;
        build_args.set(0, "build".to_owned());
        let out_name = "debug_build".to_owned().concat(Self::exe_suffix(platform));
        build_args.push("-out:".to_owned().concat(&out_name));
        if !debug_given {
            build_args.push("-debug".to_owned());
        }
        if is_test {
            build_args.push("-build-mode:test".to_owned());
        }
        assert(build_args.deep_view() =~= debug_build_args(args, is_test, platform));
        let build_template = TaskTemplate {
            label: if is_test {
                "odin debug test".to_owned()
            } else {
                "odin debug build".to_owned()
            },
            command: build_task.command,
            args: build_args,
            env: build_task.env,
            cwd: build_task.cwd,
        };
        let config = match write_json(&object_value(new_object())) {
            Ok(config) => config,
            Err(_) => {
                return None;
            },
        };
        let label = Self::scenario_label(resolved_label, is_test);
        Some(
            DebugScenario {
                adapter: debug_adapter_name,
                label,
                config,
                tcp_connection: None,
                build: Some(
                    BuildTaskDefinition::Template(
                        BuildTaskDefinitionTemplatePayload {
                            template: build_template,
                            locator_name: Some(locator_name),
                        },
                    ),
                ),
            },
        )
    }

    /// Finds the program that a build task built, as a request to launch it.
    pub fn run_dap_locator(&self, build_task: TaskTemplate, platform: Os) -> (request: Result<
        DebugRequest,
        String,
    >)
        ensures
            launches_built_program(request, build_task@, platform),
    {
        if !same_text(build_task.command.as_str(), "odin") || build_task.args.is_empty() || !(
        begins_with(&build_task.args, "build") || begins_with(&build_task.args, "test")) {
            return Err("Not an Odin build or test task".to_owned());
        }
        let output_name = match find_output_name(&build_task.args) {
            Some(name) => name,
            None => {
                return Err("Failed to extract output binary name from build task".to_owned());
            },
        };
        let program = match &build_task.cwd {
            Some(cwd) => cwd.clone().concat(Self::path_separator(platform)).concat(&output_name),
            None => {
                return Err("No cwd in build task".to_owned());
            },
        };
        Ok(
            DebugRequest::Launch(
                LaunchRequest {
                    program,
                    cwd: build_task.cwd,
                    args: Vec::new(),
                    envs: build_task.env,
                },
            ),
        )
    }
}

/// The first of two lists that names a place decides.
proof fn lemma_output_name_concat(a: Seq<Seq<char>>, b: Seq<Seq<char>>)
    ensures
        output_name(a + b) == if output_name(a) is Some {
            output_name(a)
        } else {
            output_name(b)
        },
    decreases a.len(),
{
    if a.len() == 0 {
        assert(a + b =~= b);
    } else {
        assert((a + b).skip(1) =~= a.skip(1) + b);
        lemma_output_name_concat(a.skip(1), b);
    }
}

/// What the build task of a located scenario builds is what the locator finds afterwards: the
/// program at the place that the task's own arguments name, and else the one built for the
/// debugger, in the task's working directory. It is not found only if the task has none.
pub proof fn law_built_program_is_located(task: TaskTemplateView, platform: Os)
    requires
        is_run_task(task) || is_test_task(task),
    ensures
        built_program(debug_build_task(task, platform), platform) == match task.cwd {
            Some(cwd) => Ok::<Seq<char>, Seq<char>>(
                cwd + path_separator(platform) + match output_name(task.args) {
                    Some(name) => name,
                    None => debug_build_name(platform),
                },
            ),
            None => Err("No cwd in build task"@),
        },
{
    reveal_strlit("run");
    reveal_strlit("test");
    reveal_strlit("build");
    reveal_strlit("-out:");
    let args = task.args;
    let build = debug_build_task(task, platform).args;
    let out = "-out:"@ + debug_build_name(platform);
    let changed = args.update(0, "build"@);
    let tail = build.skip(args.len() as int);
    assert(build =~= changed + tail);
    lemma_output_name_concat(changed, tail);
    // The first argument names no place, neither before nor after the change.
    assert(changed.skip(1) =~= args.skip(1));
    assert(args[0][0] != "-out:"@[0] && "build"@[0] != "-out:"@[0]);
    assert(!occurs_at(args[0], "-out:"@, 0)) by {
        if occurs_at(args[0], "-out:"@, 0) {
            assert(args[0].subrange(0, 5)[0] == "-out:"@[0]);
        }
    }
    assert(!occurs_at("build"@, "-out:"@, 0)) by {
        if occurs_at("build"@, "-out:"@, 0) {
            assert("build"@.subrange(0, 5)[0] == "-out:"@[0]);
        }
    }
    assert(output_name(changed) == output_name(args));
    // What was added names the place of the program for the debugger first.
    assert(tail[0] == out);
    assert(out.subrange(0, 5) =~= "-out:"@);
    assert(out.skip(5) =~= debug_build_name(platform));
}

/// The build task keeps every argument of the task but the first, in place, and always builds
/// with debug information.
pub proof fn law_build_keeps_arguments(task: TaskTemplateView, platform: Os)
    requires
        is_run_task(task) || is_test_task(task),
    ensures
        ({
            let build = debug_build_task(task, platform);
            &&& build.args.len() > task.args.len()
            &&& build.args[0] == "build"@
            &&& build.args.subrange(1, task.args.len() as int) == task.args.skip(1)
            &&& build.args.contains("-debug"@)
            &&& build.args.contains("-out:"@ + debug_build_name(platform))
            &&& is_test_task(task) ==> build.args.contains("-build-mode:test"@)
            &&& build.command == task.command
            &&& build.env == task.env
            &&& build.cwd == task.cwd
        }),
{
    reveal_strlit("run");
    reveal_strlit("test");
    reveal_strlit("-debug");
    let args = task.args;
    let build = debug_build_task(task, platform).args;
    assert(build.subrange(1, args.len() as int) =~= args.skip(1));
    assert(build[args.len() as int] == "-out:"@ + debug_build_name(platform));
    if args.contains("-debug"@) {
        let i = args.index_of("-debug"@);
        assert(args[i] == "-debug"@);
        assert(i != 0);
        assert(build[i] == "-debug"@);
    } else {
        assert(build[(args.len() + 1) as int] == "-debug"@);
    }
    if is_test_task(task) {
        assert(build.last() == "-build-mode:test"@);
    }
}

/// There is a scenario exactly for a task of the command `odin` whose first argument is `run` or
/// `test`.
pub proof fn law_scenario_for_run_and_test(
    locator_name: Seq<char>,
    task: TaskTemplateView,
    label: Seq<char>,
    adapter: Seq<char>,
    platform: Os,
)
    ensures
        located_scenario(locator_name, task, label, adapter, platform) is Some <==> {
            &&& task.command == "odin"@
            &&& task.args.len() > 0
            &&& task.args[0] == "run"@ || task.args[0] == "test"@
        },
{
}

/// What the scenario of a run or test task says beside the build: the adapter and the locator that
/// were given, no connection, and a configuration that is left empty.
pub proof fn law_scenario_names_adapter_and_locator(
    locator_name: Seq<char>,
    task: TaskTemplateView,
    label: Seq<char>,
    adapter: Seq<char>,
    platform: Os,
)
    ensures
        located_scenario(locator_name, task, label, adapter, platform) matches Some(scenario) ==> {
            &&& scenario.adapter == adapter
            &&& scenario.config == "{}"@
            &&& scenario.tcp_connection is None
            &&& scenario.build matches Some(BuildTaskDefinition::Template(payload))
            &&& payload.locator_name == Some(locator_name)
            &&& payload.template.command == task.command
            &&& payload.template.env == task.env
            &&& payload.template.cwd == task.cwd
            &&& payload.template.label == "odin debug test"@ <==> task.args[0] == "test"@
            &&& payload.template.label == "odin debug build"@ <==> task.args[0] == "run"@
        },
{
    reveal_strlit("run");
    reveal_strlit("test");
    reveal_strlit("odin debug test");
    reveal_strlit("odin debug build");
    assert("run"@.len() != "test"@.len());
    assert("odin debug test"@.len() != "odin debug build"@.len());
}

/// The arguments of the build task, in the scenario of a task.
pub open spec fn build_arguments(
    scenario: Option<DebugScenario<Seq<char>, TaskTemplateView>>,
) -> Seq<Seq<char>> {
    scenario->0.build->0->Template_0.template.args
}

/// The build task takes the arguments of the task behind `build` in place of the first, and then
/// nothing but the place to build at, `-debug` if that is not among them yet, and
/// `-build-mode:test` for a test.
pub proof fn law_build_arguments(
    locator_name: Seq<char>,
    task: TaskTemplateView,
    label: Seq<char>,
    adapter: Seq<char>,
    platform: Os,
)
    requires
        located_scenario(locator_name, task, label, adapter, platform) is Some,
    ensures
        ({
            let built = build_arguments(
                located_scenario(locator_name, task, label, adapter, platform),
            );
            let n = task.args.len() as int;
            let out = match platform {
                Os::Windows => "-out:debug_build.exe"@,
                Os::Mac | Os::Linux => "-out:debug_build"@,
            };
            &&& built.len() >= n + 1
            &&& built[0] == "build"@
            &&& forall|i: int| 1 <= i < n ==> #[trigger] built[i] == task.args[i]
            &&& match (task.args.contains("-debug"@), task.args[0] == "test"@) {
                (true, false) => built.skip(n) == seq![out],
                (false, false) => built.skip(n) == seq![out, "-debug"@],
                (true, true) => built.skip(n) == seq![out, "-build-mode:test"@],
                (false, true) => built.skip(n) == seq![out, "-debug"@, "-build-mode:test"@],
            }
        }),
{
    reveal_strlit("run");
    reveal_strlit("test");
    reveal_strlit("debug_build");
    reveal_strlit(".exe");
    reveal_strlit("");
    reveal_strlit("-out:");
    reveal_strlit("-out:debug_build");
    reveal_strlit("-out:debug_build.exe");
    assert("run"@.len() != "test"@.len());
    assert("-out:"@ + ("debug_build"@ + ".exe"@) =~= "-out:debug_build.exe"@);
    assert("-out:"@ + ("debug_build"@ + ""@) =~= "-out:debug_build"@);
    let built = build_arguments(located_scenario(locator_name, task, label, adapter, platform));
    let n = task.args.len() as int;
    let out = match platform {
        Os::Windows => "-out:debug_build.exe"@,
        Os::Mac | Os::Linux => "-out:debug_build"@,
    };
    assert(built[n] == out);
    if task.args.contains("-debug"@) {
        if task.args[0] == "test"@ {
            assert(built.skip(n) =~= seq![out, "-build-mode:test"@]);
        } else {
            assert(built.skip(n) =~= seq![out]);
        }
    } else {
        if task.args[0] == "test"@ {
            assert(built.skip(n) =~= seq![out, "-debug"@, "-build-mode:test"@]);
        } else {
            assert(built.skip(n) =~= seq![out, "-debug"@]);
        }
    }
}

/// How often a text is among others.
pub open spec fn occurrences(texts: Seq<Seq<char>>, text: Seq<char>) -> nat
    decreases texts.len(),
{
    if texts.len() == 0 {
        0
    } else if texts[0] == text {
        1 + occurrences(texts.skip(1), text)
    } else {
        occurrences(texts.skip(1), text)
    }
}

/// A text is among two lists as often as in the one and in the other.
proof fn lemma_occurrences_concat(a: Seq<Seq<char>>, b: Seq<Seq<char>>, text: Seq<char>)
    ensures
        occurrences(a + b, text) == occurrences(a, text) + occurrences(b, text),
    decreases a.len(),
{
    if a.len() == 0 {
        assert(a + b =~= b);
    } else {
        assert((a + b).skip(1) =~= a.skip(1) + b);
        lemma_occurrences_concat(a.skip(1), b, text);
    }
}

/// A text is among others exactly if it is there at least once.
proof fn lemma_occurrences_contains(texts: Seq<Seq<char>>, text: Seq<char>)
    ensures
        texts.contains(text) <==> occurrences(texts, text) > 0,
    decreases texts.len(),
{
    if texts.len() > 0 {
        let rest = texts.skip(1);
        lemma_occurrences_contains(rest, text);
        if texts.contains(text) && texts[0] != text {
            let i = texts.index_of(text);
            assert(rest[i - 1] == text);
        }
        if rest.contains(text) {
            let i = rest.index_of(text);
            assert(texts[i + 1] == text);
        }
    }
}

/// How often a text is among a single one.
proof fn lemma_occurrences_single(single: Seq<char>, text: Seq<char>)
    ensures
        occurrences(seq![single], text) == if single == text {
            1nat
        } else {
            0nat
        },
{
    reveal_with_fuel(occurrences, 2);
    assert(seq![single][0] == single);
    assert(seq![single].skip(1).len() == 0);
}

/// Debug information is asked for once, or as often as the task asks for it, whether it runs or
/// tests.
pub proof fn law_debug_flag_is_not_repeated(
    locator_name: Seq<char>,
    task: TaskTemplateView,
    label: Seq<char>,
    adapter: Seq<char>,
    platform: Os,
)
    requires
        located_scenario(locator_name, task, label, adapter, platform) is Some,
    ensures
        ({
            let built = build_arguments(
                located_scenario(locator_name, task, label, adapter, platform),
            );
            let given = occurrences(task.args, "-debug"@);
            occurrences(built, "-debug"@) == if given > 0 {
                given
            } else {
                1
            }
        }),
{
    reveal_strlit("run");
    reveal_strlit("test");
    reveal_strlit("build");
    reveal_strlit("-debug");
    reveal_strlit("-build-mode:test");
    reveal_strlit("-out:debug_build");
    reveal_strlit("-out:debug_build.exe");
    assert("-debug"@.len() == 6 && "build"@.len() == 5 && "run"@.len() == 3 && "test"@.len() == 4);
    assert("-build-mode:test"@.len() == 16 && "-out:debug_build"@.len() == 16);
    assert("-out:debug_build.exe"@.len() == 20);
    law_build_arguments(locator_name, task, label, adapter, platform);
    let built = build_arguments(located_scenario(locator_name, task, label, adapter, platform));
    let n = task.args.len() as int;
    let tail = built.skip(n);
    let kept = task.args.skip(1);
    assert(task.args =~= seq![task.args[0]] + kept);
    assert(built =~= seq!["build"@] + kept + tail);
    lemma_occurrences_concat(seq![task.args[0]], kept, "-debug"@);
    lemma_occurrences_concat(seq!["build"@] + kept, tail, "-debug"@);
    lemma_occurrences_concat(seq!["build"@], kept, "-debug"@);
    lemma_occurrences_single(task.args[0], "-debug"@);
    lemma_occurrences_single("build"@, "-debug"@);
    lemma_occurrences_contains(task.args, "-debug"@);
    let out = tail[0];
    lemma_occurrences_single(out, "-debug"@);
    lemma_occurrences_single("-debug"@, "-debug"@);
    lemma_occurrences_single("-build-mode:test"@, "-debug"@);
    lemma_occurrences_concat(seq![out], seq!["-debug"@], "-debug"@);
    lemma_occurrences_concat(seq![out], seq!["-build-mode:test"@], "-debug"@);
    lemma_occurrences_concat(
        seq![out] + seq!["-debug"@],
        seq!["-build-mode:test"@],
        "-debug"@,
    );
    assert(seq![out] + seq!["-debug"@] =~= seq![out, "-debug"@]);
    assert(seq![out] + seq!["-build-mode:test"@] =~= seq![out, "-build-mode:test"@]);
    assert(seq![out, "-debug"@] + seq!["-build-mode:test"@] =~= seq![
        out,
        "-debug"@,
        "-build-mode:test"@,
    ]);
}

/// A package is built for a test as it is built for a run, but in test mode.
pub proof fn law_test_build_is_run_build_in_test_mode(
    locator_name: Seq<char>,
    task: TaskTemplateView,
    label: Seq<char>,
    adapter: Seq<char>,
    platform: Os,
)
    requires
        task.command == "odin"@,
        task.args.len() > 0,
    ensures
        ({
            let run = TaskTemplateView { args: task.args.update(0, "run"@), ..task };
            let test = TaskTemplateView { args: task.args.update(0, "test"@), ..task };
            build_arguments(located_scenario(locator_name, test, label, adapter, platform))
                == build_arguments(
                located_scenario(locator_name, run, label, adapter, platform),
            ).push("-build-mode:test"@)
        }),
{
    reveal_strlit("run");
    reveal_strlit("test");
    reveal_strlit("-debug");
    assert("-debug"@.len() == 6 && "run"@.len() == 3 && "test"@.len() == 4);
    let run = TaskTemplateView { args: task.args.update(0, "run"@), ..task };
    let test = TaskTemplateView { args: task.args.update(0, "test"@), ..task };
    law_build_arguments(locator_name, run, label, adapter, platform);
    law_build_arguments(locator_name, test, label, adapter, platform);
    assert(run.args.contains("-debug"@) == test.args.contains("-debug"@)) by {
        if run.args.contains("-debug"@) {
            let i = run.args.index_of("-debug"@);
            assert(run.args[i] == "-debug"@);
            assert(test.args[i] == "-debug"@);
        }
        if test.args.contains("-debug"@) {
            let i = test.args.index_of("-debug"@);
            assert(test.args[i] == "-debug"@);
            assert(run.args[i] == "-debug"@);
        }
    }
    let n = task.args.len() as int;
    let run_built = build_arguments(located_scenario(locator_name, run, label, adapter, platform));
    let test_built = build_arguments(
        located_scenario(locator_name, test, label, adapter, platform),
    );
    assert(run_built =~= run_built.take(n) + run_built.skip(n));
    assert(test_built =~= test_built.take(n) + test_built.skip(n));
    assert(run_built.take(n) =~= test_built.take(n)) by {
        assert forall|i: int| 1 <= i < n implies run.args[i] == #[trigger] test.args[i] by {}
    }
    assert(test_built.skip(n) =~= run_built.skip(n).push("-build-mode:test"@));
    assert(test_built =~= run_built.push("-build-mode:test"@));
}

/// The scenario of a run task is called as the task without `run: `, that of a test task as the
/// task with `test ` for `test: `; a label that begins otherwise stays as it is.
pub proof fn law_scenario_label(
    locator_name: Seq<char>,
    task: TaskTemplateView,
    rest: Seq<char>,
    label: Seq<char>,
    adapter: Seq<char>,
    platform: Os,
)
    requires
        task.command == "odin"@,
        task.args.len() > 0,
    ensures
        task.args[0] == "run"@ ==> {
            &&& located_scenario(locator_name, task, "run: "@ + rest, adapter, platform)->0.label
                == rest
            &&& !"run: "@.is_prefix_of(label) ==> located_scenario(
                locator_name,
                task,
                label,
                adapter,
                platform,
            )->0.label == label
        },
        task.args[0] == "test"@ ==> {
            &&& located_scenario(locator_name, task, "test: "@ + rest, adapter, platform)->0.label
                == "test "@ + rest
            &&& !"test: "@.is_prefix_of(label) ==> located_scenario(
                locator_name,
                task,
                label,
                adapter,
                platform,
            )->0.label == label
        },
{
    reveal_strlit("run");
    reveal_strlit("test");
    assert("run"@.len() != "test"@.len());
    assert(("run: "@ + rest).subrange(0, "run: "@.len() as int) =~= "run: "@);
    assert(("run: "@ + rest).skip("run: "@.len() as int) =~= rest);
    assert(("test: "@ + rest).subrange(0, "test: "@.len() as int) =~= "test: "@);
    assert(("test: "@ + rest).skip("test: "@.len() as int) =~= rest);
}

/// The place of the program is read from the first argument that begins with `-out:`; it is all
/// that follows there.
pub proof fn law_output_name(args: Seq<Seq<char>>)
    ensures
        match output_name(args) {
            Some(name) => exists|i: int|
                {
                    &&& 0 <= i < args.len()
                    &&& #[trigger] args[i] == "-out:"@ + name
                    &&& forall|j: int| 0 <= j < i ==> !"-out:"@.is_prefix_of(#[trigger] args[j])
                },
            None => forall|i: int|
                0 <= i < args.len() ==> !"-out:"@.is_prefix_of(#[trigger] args[i]),
        },
    decreases args.len(),
{
    if args.len() > 0 {
        if occurs_at(args[0], "-out:"@, 0) {
            assert(args[0] =~= "-out:"@ + output_name(args)->0);
        } else {
            let rest = args.skip(1);
            law_output_name(rest);
            match output_name(rest) {
                Some(name) => {
                    let k = choose|i: int|
                        {
                            &&& 0 <= i < rest.len()
                            &&& #[trigger] rest[i] == "-out:"@ + name
                            &&& forall|j: int|
                                0 <= j < i ==> !"-out:"@.is_prefix_of(#[trigger] rest[j])
                        };
                    assert(args[k + 1] == rest[k]);
                    assert forall|j: int| 0 <= j < k + 1 implies !"-out:"@.is_prefix_of(
                        #[trigger] args[j],
                    ) by {
                        if j > 0 {
                            assert(rest[j - 1] == args[j]);
                        }
                    }
                },
                None => {
                    assert forall|i: int| 0 <= i < args.len() implies !"-out:"@.is_prefix_of(
                        #[trigger] args[i],
                    ) by {
                        if i > 0 {
                            assert(rest[i - 1] == args[i]);
                        }
                    }
                },
            }
        }
    }
}

/// The program that a build task built stands in the task's working directory, under the name that
/// the first `-out:` gives: on Windows behind a backslash, and on every other system behind a
/// slash.
pub proof fn law_program_path(
    task: TaskTemplateView,
    before: Seq<Seq<char>>,
    name: Seq<char>,
    after: Seq<Seq<char>>,
    cwd: Seq<char>,
    platform: Os,
)
    requires
        task.command == "odin"@,
        task.args == before.push("-out:"@ + name) + after,
        before.len() > 0,
        before[0] == "build"@ || before[0] == "test"@,
        forall|i: int| 0 <= i < before.len() ==> !"-out:"@.is_prefix_of(#[trigger] before[i]),
        task.cwd == Some(cwd),
    ensures
        built_program(task, platform) == Ok::<Seq<char>, Seq<char>>(
            match platform {
                Os::Windows => cwd + "\\"@ + name,
                Os::Mac => cwd + "/"@ + name,
                Os::Linux => cwd + "/"@ + name,
            },
        ),
{
    law_output_name(before);
    law_output_name(task.args);
    let at = before.len() as int;
    assert(task.args[0] == before[0]);
    assert(task.args[at] == "-out:"@ + name);
    assert(task.args[at].subrange(0, "-out:"@.len() as int) =~= "-out:"@);
    assert(output_name(task.args) is Some);
    let found = output_name(task.args)->0;
    let k = choose|i: int|
        {
            &&& 0 <= i < task.args.len()
            &&& #[trigger] task.args[i] == "-out:"@ + found
            &&& forall|j: int| 0 <= j < i ==> !"-out:"@.is_prefix_of(#[trigger] task.args[j])
        };
    assert(k == at) by {
        if k < at {
            assert(before[k] == task.args[k]);
            assert(before[k].subrange(0, "-out:"@.len() as int) =~= "-out:"@);
        }
    }
    assert(("-out:"@ + found).skip("-out:"@.len() as int) =~= found);
    assert(("-out:"@ + name).skip("-out:"@.len() as int) =~= name);
}

/// No program is located, and the message says why: for a task that neither builds nor tests with
/// Odin; for one that does not say where it builds; and for one without a working directory.
pub proof fn law_program_is_not_located(task: TaskTemplateView, platform: Os)
    ensures
        ({
            let is_build = task.command == "odin"@ && task.args.len() > 0 && (task.args[0]
                == "build"@ || task.args[0] == "test"@);
            let names_place = exists|i: int|
                0 <= i < task.args.len() && "-out:"@.is_prefix_of(#[trigger] task.args[i]);
            &&& built_program(task, platform) is Ok <==> is_build && names_place
                && task.cwd is Some
            &&& !is_build ==> built_program(task, platform) == Err::<Seq<char>, Seq<char>>(
                "Not an Odin build or test task"@,
            )
            &&& is_build && !names_place ==> built_program(task, platform) == Err::<
                Seq<char>,
                Seq<char>,
            >("Failed to extract output binary name from build task"@)
            &&& is_build && names_place && task.cwd is None ==> built_program(task, platform)
                == Err::<Seq<char>, Seq<char>>("No cwd in build task"@)
        }),
{
    law_output_name(task.args);
    if output_name(task.args) is Some {
        let name = output_name(task.args)->0;
        let k = choose|i: int|
            {
                &&& 0 <= i < task.args.len()
                &&& #[trigger] task.args[i] == "-out:"@ + name
                &&& forall|j: int| 0 <= j < i ==> !"-out:"@.is_prefix_of(#[trigger] task.args[j])
            };
        assert(task.args[k].subrange(0, "-out:"@.len() as int) =~= "-out:"@);
    }
}

/// A run or test task that does not say where to build is built where the debugger then looks for
/// it: in its working directory as `debug_build`, with `.exe` behind it on Windows.
pub proof fn law_built_for_debugger_is_found(
    locator_name: Seq<char>,
    task: TaskTemplateView,
    label: Seq<char>,
    adapter: Seq<char>,
    cwd: Seq<char>,
    platform: Os,
)
    requires
        located_scenario(locator_name, task, label, adapter, platform) is Some,
        task.cwd == Some(cwd),
        forall|i: int| 0 <= i < task.args.len() ==> !"-out:"@.is_prefix_of(#[trigger] task.args[i]),
    ensures
        ({
            let scenario = located_scenario(locator_name, task, label, adapter, platform)->0;
            let build = scenario.build->0->Template_0.template;
            built_program(build, platform) == Ok::<Seq<char>, Seq<char>>(
                match platform {
                    Os::Windows => cwd + "\\debug_build.exe"@,
                    Os::Mac | Os::Linux => cwd + "/debug_build"@,
                },
            )
        }),
{
    law_built_program_is_located(task, platform);
    law_output_name(task.args);
    if output_name(task.args) is Some {
        let name = output_name(task.args)->0;
        let k = choose|i: int|
            {
                &&& 0 <= i < task.args.len()
                &&& #[trigger] task.args[i] == "-out:"@ + name
                &&& forall|j: int| 0 <= j < i ==> !"-out:"@.is_prefix_of(#[trigger] task.args[j])
            };
        assert(task.args[k].subrange(0, "-out:"@.len() as int) =~= "-out:"@);
    }
    reveal_strlit("\\");
    reveal_strlit("/");
    reveal_strlit("debug_build");
    reveal_strlit(".exe");
    reveal_strlit("");
    reveal_strlit("\\debug_build.exe");
    reveal_strlit("/debug_build");
    assert("\\"@ + ("debug_build"@ + ".exe"@) =~= "\\debug_build.exe"@);
    assert("/"@ + ("debug_build"@ + ""@) =~= "/debug_build"@);
    assert(cwd + "\\"@ + ("debug_build"@ + ".exe"@) =~= cwd + ("\\"@ + ("debug_build"@
        + ".exe"@)));
    assert(cwd + "/"@ + ("debug_build"@ + ""@) =~= cwd + ("/"@ + ("debug_build"@ + ""@)));
}

/// Whatever is located is launched, in the working directory of the task and with all of its
/// environment in order, and the task's own arguments are not passed on. Nothing is located exactly
/// where no program is known, and the message is the reason.
pub proof fn law_located_program_is_launched(
    request: Result<DebugRequest, String>,
    task: TaskTemplateView,
    cwd: Seq<char>,
    platform: Os,
)
    requires
        launches_built_program(request, task, platform),
        task.cwd == Some(cwd),
    ensures
        request is Ok <==> built_program(task, platform) is Ok,
        request matches Ok(found) ==> {
            &&& found matches DebugRequest::Launch(launch)
            &&& launch.program@ == built_program(task, platform)->Ok_0
            &&& launch.cwd matches Some(place) && place@ == cwd
            &&& launch.args.deep_view().len() == 0
            &&& launch.envs.deep_view().len() == task.env.len()
            &&& forall|i: int|
                0 <= i < task.env.len() ==> #[trigger] launch.envs.deep_view()[i] == task.env[i]
        },
        request matches Err(error) ==> error@ == built_program(task, platform)->Err_0,
{
}

} // verus!
