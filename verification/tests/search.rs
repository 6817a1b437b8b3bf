use odin_zed::codelldb::{
    CodelldbStep, CODELLDB_BINARY_DIR, CODELLDB_COMMAND, CODELLDB_RELEASE_DIR, CODELLDB_REPO,
};
use odin_zed::extension::OdinExtension;
use odin_zed::install::{
    find_asset, DirectoryEntry, GithubRelease, GithubReleaseAsset, Install, Reply, PRE_RELEASE,
    REQUIRE_ASSETS,
};
use odin_zed::ols::{LanguageServerInstallationStatus, OlsStep, GITHUB_REPO};
use odin_zed::platform::{Architecture, Os};
use odin_zed::settings::{Command, CommandSettings, LspSettings};
use serde_json::Value;

fn text(text: &str) -> String {
    text.to_string()
}

fn asset(name: &str) -> GithubReleaseAsset {
    GithubReleaseAsset {
        name: text(name),
        download_url: format!("https://example.com/{}", name),
    }
}

fn release(version: &str, names: &[&str]) -> Result<GithubRelease, String> {
    Ok(GithubRelease {
        version: text(version),
        assets: names.iter().map(|name| asset(name)).collect(),
    })
}

fn entry(name: Option<&str>, is_dir: bool, has_binary: bool, modified: i128) -> DirectoryEntry {
    DirectoryEntry {
        name: name.map(text),
        is_dir,
        has_binary,
        modified,
    }
}

fn settings(path: Option<&str>) -> LspSettings {
    LspSettings {
        binary: Some(CommandSettings {
            path: path.map(text),
        }),
        initialization_options: None,
        settings: None,
    }
}

fn ols_install() -> Install {
    Install {
        download_url: text("https://example.com/ols-x86_64-unknown-linux-gnu.zip"),
        version_dir: text("ols-dev-1"),
        binary_path: text("ols-dev-1/ols-x86_64-unknown-linux-gnu"),
    }
}

fn codelldb_install() -> Install {
    Install {
        download_url: text("https://example.com/codelldb-linux-x64.vsix"),
        version_dir: text("codelldb-v1"),
        binary_path: text("codelldb-v1/extension/adapter/codelldb"),
    }
}

/// One step of the search for the language server, with nothing kept before.
fn ols(step: OlsStep, reply: Reply) -> (Option<String>, OlsStep) {
    let mut extension = OdinExtension::new();
    let next = extension.language_server_binary_path(step, reply);
    (extension.cached_binary_path, next)
}

fn ols_error(step: OlsStep, reply: Reply) -> String {
    match ols(step, reply) {
        (None, OlsStep::Finished(Err(error))) => error,
        other => panic!("{:?}", other),
    }
}

fn codelldb(step: CodelldbStep, reply: Reply) -> CodelldbStep {
    OdinExtension::new().codelldb_binary_path(step, reply)
}

fn codelldb_error(step: CodelldbStep, reply: Reply) -> String {
    match codelldb(step, reply) {
        CodelldbStep::Finished(Err(error)) => error,
        other => panic!("{:?}", other),
    }
}

fn on_linux(release: Result<GithubRelease, String>) -> Reply {
    Reply::Release {
        release,
        platform: Os::Linux,
        arch: Architecture::X8664,
    }
}

fn listing(entries: Option<Vec<DirectoryEntry>>) -> Reply {
    Reply::Directory {
        entries,
        platform: Os::Linux,
        arch: Architecture::X8664,
    }
}

#[test]
fn places_of_releases() {
    assert_eq!(GITHUB_REPO, "DanielGavin/ols");
    assert_eq!(CODELLDB_REPO, "vadimcn/codelldb");
    assert_eq!(CODELLDB_COMMAND, "codelldb");
    assert_eq!(CODELLDB_RELEASE_DIR, "extension");
    assert_eq!(CODELLDB_BINARY_DIR, "adapter");
    assert!(REQUIRE_ASSETS);
    assert!(!PRE_RELEASE);
}

#[test]
fn first_asset_of_a_name_is_taken() {
    let mut assets = vec![asset("a"), asset("b"), asset("b")];
    assets[2].download_url = text("other");
    assert_eq!(find_asset(&assets, &text("b")), Some(text("https://example.com/b")));
    assert_eq!(find_asset(&assets, &text("c")), None);
}

#[test]
fn settings_come_first() {
    assert_eq!(
        ols(OlsStep::ReadSettings, Reply::Settings(Some(settings(Some("/my/ols"))))),
        (None, OlsStep::Finished(Ok(text("/my/ols"))))
    );
    assert_eq!(
        ols(OlsStep::ReadSettings, Reply::Settings(Some(settings(None)))),
        (None, OlsStep::FindOnPath)
    );
    assert_eq!(
        ols(OlsStep::ReadSettings, Reply::Settings(None)),
        (None, OlsStep::FindOnPath)
    );
}

#[test]
fn known_binary_comes_second() {
    assert_eq!(
        ols(OlsStep::FindOnPath, Reply::Path(Some(text("/bin/ols")))),
        (None, OlsStep::Finished(Ok(text("/bin/ols"))))
    );
}

#[test]
fn kept_binary_comes_third() {
    let mut extension = OdinExtension::new();
    extension.cached_binary_path = Some(text("ols-1/ols"));
    let step = extension.language_server_binary_path(OlsStep::FindOnPath, Reply::Path(None));
    assert_eq!(step, OlsStep::CheckCached { path: text("ols-1/ols") });
    let step = extension.language_server_binary_path(step, Reply::IsFile(true));
    assert_eq!(step, OlsStep::Finished(Ok(text("ols-1/ols"))));
    assert_eq!(extension.cached_binary_path, Some(text("ols-1/ols")));
}

#[test]
fn release_comes_last() {
    assert_eq!(
        ols(OlsStep::FindOnPath, Reply::Path(None)),
        (None, OlsStep::FetchRelease)
    );
    assert_eq!(
        ols(OlsStep::CheckCached { path: text("gone") }, Reply::IsFile(false)),
        (None, OlsStep::FetchRelease)
    );
}

#[test]
fn editor_is_told() {
    assert_eq!(
        OlsStep::FetchRelease.installation_status(),
        Some(LanguageServerInstallationStatus::CheckingForUpdate)
    );
    assert_eq!(
        OlsStep::Download { install: ols_install() }.installation_status(),
        Some(LanguageServerInstallationStatus::Downloading)
    );
    assert_eq!(OlsStep::FindOnPath.installation_status(), None);
}

#[test]
fn release_of_the_language_server() {
    assert_eq!(
        ols(
            OlsStep::FetchRelease,
            on_linux(release("dev-1", &["x", "ols-x86_64-unknown-linux-gnu.zip"]))
        ),
        (None, OlsStep::CheckInstalled { install: ols_install() })
    );
    assert_eq!(
        OdinExtension::new().ols_install(
            &release("n", &["ols-arm64-pc-windows-msvc.zip"]).unwrap(),
            Os::Windows,
            Architecture::Aarch64
        ),
        Ok(Install {
            download_url: text("https://example.com/ols-arm64-pc-windows-msvc.zip"),
            version_dir: text("ols-n"),
            binary_path: text("ols-n\\ols-arm64-pc-windows-msvc.exe"),
        })
    );
}

#[test]
fn releases_that_do_not_help() {
    assert_eq!(
        ols_error(OlsStep::FetchRelease, on_linux(release("dev-1", &["x"]))),
        "no asset found matching \"ols-x86_64-unknown-linux-gnu.zip\""
    );
    assert_eq!(
        ols_error(
            OlsStep::FetchRelease,
            Reply::Release {
                release: release("dev-1", &["x"]),
                platform: Os::Linux,
                arch: Architecture::X86,
            }
        ),
        "Unsupported platform Architecture::X86"
    );
}

#[test]
fn language_server_without_network() {
    let step = || OlsStep::SearchExisting { error: text("offline") };
    assert_eq!(
        ols(OlsStep::FetchRelease, on_linux(Err(text("offline")))),
        (None, step())
    );
    let path = text("ols-b/ols-x86_64-unknown-linux-gnu");
    assert_eq!(
        ols(
            step(),
            listing(Some(vec![
                entry(Some("codelldb-a"), true, true, 0),
                entry(Some("ols-a"), true, false, 0),
                entry(Some("ols-file"), false, true, 0),
                entry(Some("ols-b"), true, true, 0),
                entry(Some("ols-c"), true, true, 9),
            ]))
        ),
        (Some(path.clone()), OlsStep::Finished(Ok(path)))
    );
    let message = "Failed to download OLS language server: offline\n\nTo resolve this issue, you can connect to the internet and restart Zed or Manually install OLS.";
    assert_eq!(ols_error(step(), listing(Some(vec![]))), message);
    assert_eq!(ols_error(step(), listing(None)), message);
}

#[test]
fn name_that_is_no_text_ends_the_search() {
    let extension = OdinExtension::new();
    let entries = Some(vec![
        entry(None, true, true, 0),
        entry(Some("ols-b"), true, true, 0),
    ]);
    assert_eq!(
        extension.find_existing_ols_binary(&entries, Os::Linux, Architecture::X8664),
        None
    );
    let entries = Some(vec![entry(Some("ols-b"), true, true, 0)]);
    assert_eq!(
        extension.find_existing_ols_binary(&entries, Os::Linux, Architecture::X86),
        None
    );
}

#[test]
fn installed_language_server_is_found_again() {
    let entries = Some(vec![entry(Some("ols-dev-1"), true, true, 0)]);
    assert_eq!(
        OdinExtension::new().find_existing_ols_binary(&entries, Os::Linux, Architecture::X8664),
        Some(ols_install().binary_path)
    );
}

#[test]
fn installed_version_is_used() {
    let path = ols_install().binary_path;
    assert_eq!(
        ols(OlsStep::CheckInstalled { install: ols_install() }, Reply::IsFile(true)),
        (Some(path.clone()), OlsStep::Finished(Ok(path)))
    );
}

#[test]
fn new_version_is_installed() {
    let mut extension = OdinExtension::new();
    let mut step = OlsStep::CheckInstalled { install: ols_install() };
    step = extension.language_server_binary_path(step, Reply::IsFile(false));
    assert_eq!(step, OlsStep::Download { install: ols_install() });
    step = extension.language_server_binary_path(step, Reply::Done(Ok(())));
    assert_eq!(step, OlsStep::MakeExecutable { install: ols_install() });
    step = extension.language_server_binary_path(step, Reply::Done(Ok(())));
    assert_eq!(step, OlsStep::ListDirectory { install: ols_install() });
    step = extension.language_server_binary_path(step, Reply::Done(Ok(())));
    assert_eq!(step, OlsStep::NextEntry { install: ols_install() });
    step = extension.language_server_binary_path(step, Reply::Entry(Some(Ok(Some(text("ols-dev-1"))))));
    assert_eq!(step, OlsStep::NextEntry { install: ols_install() });
    for kept in [
        Some(text("codelldb-v1")),
        Some(text("anything")),
        Some(text("my-ols-dev-0")),
        Some(text("ols")),
        None,
    ] {
        step = extension.language_server_binary_path(step, Reply::Entry(Some(Ok(kept))));
        assert_eq!(step, OlsStep::NextEntry { install: ols_install() });
    }
    for other in [Some(text("ols-dev-0")), Some(text("ols-dev-10"))] {
        step = extension.language_server_binary_path(step, Reply::Entry(Some(Ok(other))));
        assert_eq!(step, OlsStep::RemoveEntry { install: ols_install() });
        step = extension.language_server_binary_path(step, Reply::Removed);
        assert_eq!(step, OlsStep::NextEntry { install: ols_install() });
    }
    assert_eq!(extension.cached_binary_path, None);
    step = extension.language_server_binary_path(step, Reply::Entry(None));
    assert_eq!(step, OlsStep::Finished(Ok(ols_install().binary_path)));
    assert_eq!(extension.cached_binary_path, Some(ols_install().binary_path));
    step = extension.language_server_binary_path(step, Reply::Begin);
    assert_eq!(step, OlsStep::Finished(Ok(ols_install().binary_path)));
}

#[test]
fn installation_that_fails() {
    let install = ols_install;
    let failed = || Reply::Done(Err(text("disk full")));
    assert_eq!(
        ols_error(OlsStep::Download { install: install() }, failed()),
        "failed to download file: disk full"
    );
    assert_eq!(
        ols_error(OlsStep::MakeExecutable { install: install() }, failed()),
        "disk full"
    );
    assert_eq!(
        ols_error(OlsStep::ListDirectory { install: install() }, failed()),
        "failed to list working directory disk full"
    );
    assert_eq!(
        ols_error(
            OlsStep::NextEntry { install: install() },
            Reply::Entry(Some(Err(text("gone"))))
        ),
        "failed to load directory entry gone"
    );
}

#[test]
fn reply_to_another_step_changes_nothing() {
    assert_eq!(
        ols(OlsStep::FetchRelease, Reply::Removed),
        (None, OlsStep::FetchRelease)
    );
    assert_eq!(
        codelldb(CodelldbStep::FindOnPath, Reply::Begin),
        CodelldbStep::FindOnPath
    );
}

#[test]
fn adapter_in_order() {
    assert_eq!(
        codelldb(
            CodelldbStep::Requested { user_path: Some(text("/my/codelldb")) },
            Reply::Begin
        ),
        CodelldbStep::Finished(Ok(text("/my/codelldb")))
    );
    assert_eq!(
        codelldb(CodelldbStep::Requested { user_path: None }, Reply::Begin),
        CodelldbStep::FindOnPath
    );
    assert_eq!(
        codelldb(CodelldbStep::FindOnPath, Reply::Path(Some(text("/bin/codelldb")))),
        CodelldbStep::Finished(Ok(text("/bin/codelldb")))
    );
    assert_eq!(
        codelldb(CodelldbStep::FindOnPath, Reply::Path(None)),
        CodelldbStep::SearchExisting
    );
    assert_eq!(
        codelldb(CodelldbStep::SearchExisting, listing(None)),
        CodelldbStep::FetchRelease
    );
}

#[test]
fn newest_adapter_is_taken() {
    assert_eq!(
        codelldb(
            CodelldbStep::SearchExisting,
            listing(Some(vec![
                entry(Some("codelldb-a"), true, true, 5),
                entry(None, true, true, 90),
                entry(Some("codelldb-b"), true, true, 7),
                entry(Some("codelldb-c"), true, true, 7),
                entry(Some("codelldb-d"), true, false, 80),
                entry(Some("codelldb-e"), false, true, 80),
                entry(Some("ols-f"), true, true, 80),
                entry(Some("codelldb-g"), true, true, -1),
            ]))
        ),
        CodelldbStep::Finished(Ok(text("codelldb-b/extension/adapter/codelldb")))
    );
    let old = Some(vec![entry(Some("codelldb-a"), true, true, -3)]);
    assert_eq!(
        OdinExtension::new().find_existing_codelldb_binary(&old, Os::Windows),
        Some(text("codelldb-a\\extension\\adapter\\codelldb.exe"))
    );
}

#[test]
fn installed_adapter_is_found_again() {
    let entries = Some(vec![entry(Some("codelldb-v1"), true, true, 0)]);
    assert_eq!(
        OdinExtension::new().find_existing_codelldb_binary(&entries, Os::Linux),
        Some(codelldb_install().binary_path)
    );
}

#[test]
fn release_of_the_adapter() {
    assert_eq!(
        codelldb(
            CodelldbStep::FetchRelease,
            on_linux(release("v1", &["codelldb-linux-x64.vsix"]))
        ),
        CodelldbStep::CheckInstalled { install: codelldb_install() }
    );
    assert_eq!(
        codelldb_error(CodelldbStep::FetchRelease, on_linux(Err(text("offline")))),
        "offline"
    );
    assert_eq!(
        codelldb_error(CodelldbStep::FetchRelease, on_linux(release("v1", &[]))),
        "No CodeLLDB asset found matching \"codelldb-linux-x64.vsix\""
    );
    assert_eq!(
        OdinExtension::new().codelldb_install(
            &release("v1", &[]).unwrap(),
            Os::Windows,
            Architecture::X86
        ),
        Err(text("Unsupported CodeLLDB platform: Os::Windows/Architecture::X86"))
    );
}

#[test]
fn new_adapter_is_installed() {
    let install = codelldb_install;
    let mut step = CodelldbStep::CheckInstalled { install: install() };
    step = codelldb(step, Reply::IsFile(false));
    assert_eq!(step, CodelldbStep::Download { install: install() });
    step = codelldb(step, Reply::Done(Ok(())));
    assert_eq!(step, CodelldbStep::MakeExecutable { install: install() });
    step = codelldb(step, Reply::Done(Ok(())));
    assert_eq!(step, CodelldbStep::ListDirectory { install: install() });
    step = codelldb(step, Reply::Done(Ok(())));
    for kept in [
        Ok(Some(text("codelldb-v1"))),
        Ok(Some(text("ols-dev-1"))),
        Ok(None),
        Err(text("unreadable")),
    ] {
        step = codelldb(step, Reply::Entry(Some(kept)));
        assert_eq!(step, CodelldbStep::NextEntry { install: install() });
    }
    step = codelldb(step, Reply::Entry(Some(Ok(Some(text("codelldb-v0"))))));
    assert_eq!(step, CodelldbStep::RemoveEntry { install: install() });
    step = codelldb(step, Reply::Removed);
    step = codelldb(step, Reply::Entry(None));
    assert_eq!(step, CodelldbStep::Finished(Ok(install().binary_path)));
    assert_eq!(
        codelldb(CodelldbStep::CheckInstalled { install: install() }, Reply::IsFile(true)),
        CodelldbStep::Finished(Ok(install().binary_path))
    );
}

#[test]
fn adapter_installation_that_fails() {
    let install = codelldb_install;
    let failed = || Reply::Done(Err(text("disk full")));
    assert_eq!(
        codelldb_error(CodelldbStep::Download { install: install() }, failed()),
        "failed to download CodeLLDB: disk full"
    );
    assert_eq!(
        codelldb_error(CodelldbStep::MakeExecutable { install: install() }, failed()),
        "failed to mark CodeLLDB as executable: disk full"
    );
    assert_eq!(
        codelldb_error(CodelldbStep::ListDirectory { install: install() }, failed()),
        "failed to list working directory: disk full"
    );
}

#[test]
fn settings_of_the_language_server() {
    let extension = OdinExtension::new();
    let given = || {
        Some(LspSettings {
            binary: None,
            initialization_options: Some(Value::from(1)),
            settings: Some(Value::from("two")),
        })
    };
    assert_eq!(
        extension.language_server_initialization_options(given()),
        Some(Value::from(1))
    );
    assert_eq!(
        extension.language_server_initialization_options(Some(settings(None))),
        None
    );
    assert_eq!(extension.language_server_initialization_options(None), None);
    assert_eq!(
        extension.language_server_workspace_configuration(given()),
        Some(Value::from("two"))
    );
    assert_eq!(
        extension.language_server_workspace_configuration(Some(settings(None))),
        Some(Value::Null)
    );
    assert_eq!(
        extension.language_server_workspace_configuration(None),
        Some(Value::Null)
    );
}

#[test]
fn command_of_the_language_server() {
    let extension = OdinExtension::new();
    assert_eq!(
        extension.language_server_command(Ok(text("/bin/ols"))),
        Ok(Command {
            command: text("/bin/ols"),
            args: vec![],
            env: vec![],
        })
    );
    assert_eq!(
        extension.language_server_command(Err(text("no"))),
        Err(text("no"))
    );
}
