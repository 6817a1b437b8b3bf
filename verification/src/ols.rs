//! The search for the Odin language server.
use crate::extension::OdinExtension;
use crate::install::{
    asset_url, find_asset, install_view, law_asset_found, DirectoryEntry, GithubRelease, Install,
    Reply,
};
use crate::platform::{exe_suffix, ols_binary_name, path_separator, Architecture, Os};
use crate::settings::{configured_path, LspSettings};
use crate::text::{occurs_at, result_view, same_text, starts_with};
use vstd::prelude::*;
use vstd::string::*;

verus! {

/// Where the language server's releases are.
pub const GITHUB_REPO: &'static str = "DanielGavin/ols";

/// What the editor shows of the language server's installation.
#[derive(Clone, Copy, Debug, PartialEq, Eq)]
pub enum LanguageServerInstallationStatus {
    CheckingForUpdate,
    Downloading,
}

/// Where the search for the language server stands: what has to be done next, or how it ended.
#[derive(Debug, PartialEq, Eq)]
pub enum OlsStep<T = String> {
    /// Read the settings of the language server.
    ReadSettings,
    /// Look the language server up among the binaries that the system knows.
    FindOnPath,
    /// See whether the binary that was found last is still there.
    CheckCached { path: T },
    /// Look up the latest release.
    FetchRelease,
    /// There is no release to be had, for that reason: list the working directory.
    SearchExisting { error: T },
    /// See whether this version is installed.
    CheckInstalled { install: Install<T> },
    /// Download and unpack it.
    Download { install: Install<T> },
    /// Make the binary executable.
    MakeExecutable { install: Install<T> },
    /// Begin to list the working directory.
    ListDirectory { install: Install<T> },
    /// Go to its next entry.
    NextEntry { install: Install<T> },
    /// Remove this entry.
    RemoveEntry { install: Install<T> },
    /// The language server is there, or not.
    Finished(Result<T, T>),
}

impl View for OlsStep {
    type V = OlsStep<Seq<char>>;

    open spec fn view(&self) -> OlsStep<Seq<char>> {
        match self {
            OlsStep::ReadSettings => OlsStep::ReadSettings,
            OlsStep::FindOnPath => OlsStep::FindOnPath,
            OlsStep::CheckCached { path } => OlsStep::CheckCached { path: path@ },
            OlsStep::FetchRelease => OlsStep::FetchRelease,
            OlsStep::SearchExisting { error } => OlsStep::SearchExisting { error: error@ },
            OlsStep::CheckInstalled { install } => OlsStep::CheckInstalled { install: install@ },
            OlsStep::Download { install } => OlsStep::Download { install: install@ },
            OlsStep::MakeExecutable { install } => OlsStep::MakeExecutable { install: install@ },
            OlsStep::ListDirectory { install } => OlsStep::ListDirectory { install: install@ },
            OlsStep::NextEntry { install } => OlsStep::NextEntry { install: install@ },
            OlsStep::RemoveEntry { install } => OlsStep::RemoveEntry { install: install@ },
            OlsStep::Finished(outcome) => OlsStep::Finished(result_view(*outcome)),
        }
    }
}

/// What the editor has to be told before a step.
pub open spec fn told_status(step: OlsStep<Seq<char>>) -> Option<
    LanguageServerInstallationStatus,
> {
    match step {
        OlsStep::FetchRelease => Some(LanguageServerInstallationStatus::CheckingForUpdate),
        OlsStep::Download { .. } => Some(LanguageServerInstallationStatus::Downloading),
        _ => None,
    }
}

impl OlsStep {
    /// What the editor has to be told before the step.
    pub fn installation_status(&self) -> (status: Option<LanguageServerInstallationStatus>)
        ensures
            status == told_status(self@),
    {
        match self {
            OlsStep::FetchRelease => Some(LanguageServerInstallationStatus::CheckingForUpdate),
            OlsStep::Download { .. } => Some(LanguageServerInstallationStatus::Downloading),
            _ => None,
        }
    }
}

/// The file name of the language server, where there is one for the platform.
pub open spec fn ols_executable(platform: Os, arch: Architecture) -> Option<Seq<char>> {
    match ols_binary_name(platform, arch) {
        Some(name) => Some(name + exe_suffix(platform)),
        None => None,
    }
}

/// The directory that a version of the language server is unpacked to.
pub open spec fn ols_version_dir(version: Seq<char>) -> Seq<char> {
    "ols-"@ + version
}

/// The path of the binary inside a directory.
pub open spec fn ols_path(dir: Seq<char>, executable: Seq<char>, platform: Os) -> Seq<char> {
    dir + path_separator(platform) + executable
}

/// What installs the language server of a release, or why it cannot be installed.
pub open spec fn ols_install(
    release: GithubRelease,
    platform: Os,
    arch: Architecture,
) -> Result<Install<Seq<char>>, Seq<char>> {
    match ols_binary_name(platform, arch) {
        None => Err("Unsupported platform "@ + arch.spec_name()),
        Some(name) => {
            let asset_name = name + ".zip"@;
            match asset_url(release.assets@, asset_name) {
                None => Err("no asset found matching \""@ + asset_name + "\""@),
                Some(download_url) => {
                    let version_dir = ols_version_dir(release.version@);
                    Ok(
                        Install {
                            download_url,
                            version_dir,
                            binary_path: ols_path(
                                version_dir,
                                ols_executable(platform, arch)->0,
                                platform,
                            ),
                        },
                    )
                },
            }
        },
    }
}

/// The entry is a directory of the language server, with the binary in it.
pub open spec fn is_ols_dir(entry: DirectoryEntry) -> bool {
    entry.name is Some && occurs_at(entry.name->0@, "ols-"@, 0) && entry.is_dir && entry.has_binary
}

/// The first directory of the language server among `entries`. An entry whose name is no valid
/// text ends the search.
pub open spec fn first_ols_dir(entries: Seq<DirectoryEntry>) -> Option<Seq<char>>
    decreases entries.len(),
{
    if entries.len() == 0 || entries[0].name is None {
        None
    } else if is_ols_dir(entries[0]) {
        Some(entries[0].name->0@)
    } else {
        first_ols_dir(entries.skip(1))
    }
}

/// The language server that is in the working directory already, if there is one.
pub open spec fn existing_ols(
    entries: Option<Seq<DirectoryEntry>>,
    platform: Os,
    arch: Architecture,
) -> Option<Seq<char>> {
    match (entries, ols_executable(platform, arch)) {
        (Some(entries), Some(executable)) => match first_ols_dir(entries) {
            Some(dir) => Some(ols_path(dir, executable, platform)),
            None => None,
        },
        _ => None,
    }
}

/// The entry of that name belongs to another version of the language server than the one that was
/// installed.
pub open spec fn is_stale_ols(name: Option<Seq<char>>, version_dir: Seq<char>) -> bool {
    name is Some && name->0 != version_dir && occurs_at(name->0, "ols-"@, 0)
}

/// The message for a release that could not be had while no language server is there.
pub open spec fn offline_message(error: Seq<char>) -> Seq<char> {
    "Failed to download OLS language server: "@ + error
        + "\n\nTo resolve this issue, you can connect to the internet and restart Zed or Manually install OLS."@
}

/// The binary that the extension keeps and the step that follows, when it keeps `cached` and
/// `reply` came out of `step`. A reply to another step changes nothing.
pub open spec fn ols_next(
    cached: Option<Seq<char>>,
    step: OlsStep<Seq<char>>,
    reply: Reply,
) -> (Option<Seq<char>>, OlsStep<Seq<char>>) {
    match (step, reply) {
        (OlsStep::ReadSettings, Reply::Settings(settings)) => match configured_path(settings) {
            Some(path) => (cached, OlsStep::Finished(Ok(path))),
            None => (cached, OlsStep::FindOnPath),
        },
        (OlsStep::FindOnPath, Reply::Path(path)) => match (path, cached) {
            (Some(path), _) => (cached, OlsStep::Finished(Ok(path@))),
            (None, Some(path)) => (cached, OlsStep::CheckCached { path }),
            (None, None) => (cached, OlsStep::FetchRelease),
        },
        (OlsStep::CheckCached { path }, Reply::IsFile(is_file)) => if is_file {
            (cached, OlsStep::Finished(Ok(path)))
        } else {
            (cached, OlsStep::FetchRelease)
        },
        (OlsStep::FetchRelease, Reply::Release { release, platform, arch }) => match release {
            Err(error) => (cached, OlsStep::SearchExisting { error: error@ }),
            Ok(release) => match ols_install(release, platform, arch) {
                Ok(install) => (cached, OlsStep::CheckInstalled { install }),
                Err(error) => (cached, OlsStep::Finished(Err(error))),
            },
        },
        (OlsStep::SearchExisting { error }, Reply::Directory { entries, platform, arch }) => {
            let entries = match entries {
                Some(entries) => Some(entries@),
                None => None,
            };
            match existing_ols(entries, platform, arch) {
                Some(path) => (Some(path), OlsStep::Finished(Ok(path))),
                None => (cached, OlsStep::Finished(Err(offline_message(error)))),
            }
        },
        (OlsStep::CheckInstalled { install }, Reply::IsFile(is_file)) => if is_file {
            (Some(install.binary_path), OlsStep::Finished(Ok(install.binary_path)))
        } else {
            (cached, OlsStep::Download { install })
        },
        (OlsStep::Download { install }, Reply::Done(done)) => match done {
            Ok(_) => (cached, OlsStep::MakeExecutable { install }),
            Err(error) => (
                cached,
                OlsStep::Finished(Err("failed to download file: "@ + error@)),
            ),
        },
        (OlsStep::MakeExecutable { install }, Reply::Done(done)) => match done {
            Ok(_) => (cached, OlsStep::ListDirectory { install }),
            Err(error) => (cached, OlsStep::Finished(Err(error@))),
        },
        (OlsStep::ListDirectory { install }, Reply::Done(done)) => match done {
            Ok(_) => (cached, OlsStep::NextEntry { install }),
            Err(error) => (
                cached,
                OlsStep::Finished(Err("failed to list working directory "@ + error@)),
            ),
        },
        (OlsStep::NextEntry { install }, Reply::Entry(entry)) => match entry {
            None => (Some(install.binary_path), OlsStep::Finished(Ok(install.binary_path))),
            Some(Err(error)) => (
                cached,
                OlsStep::Finished(Err("failed to load directory entry "@ + error@)),
            ),
            Some(Ok(name)) => if is_stale_ols(name.deep_view(), install.version_dir) {
                (cached, OlsStep::RemoveEntry { install })
            } else {
                (cached, OlsStep::NextEntry { install })
            },
        },
        (OlsStep::RemoveEntry { install }, Reply::Removed) => (
            cached,
            OlsStep::NextEntry { install },
        ),
        _ => (cached, step),
    }
}

impl OdinExtension {
    /// The file name of the language server, where there is one for the platform.
    pub fn ols_executable_name(&self, platform: Os, arch: Architecture) -> (name: Option<String>)
        ensures
            name.deep_view() == ols_executable(platform, arch),
    {
        match self.ols_binary_name(platform, arch) {
            Some(name) => Some(name.concat(Self::exe_suffix(platform))),
            None => None,
        }
    }

    /// The language server that is in the working directory already, if there is one.
    pub fn find_existing_ols_binary(
        &self,
        entries: &Option<Vec<DirectoryEntry>>,
        platform: Os,
        arch: Architecture,
    ) -> (path: Option<String>)
        ensures
            path.deep_view() == existing_ols(
                match *entries {
                    Some(entries) => Some(entries@),
                    None => None,
                },
                platform,
                arch,
            ),
    {
        let listed = match entries {
            Some(listed) => listed,
            None => {
                return None;
            },
        };
        let executable_name = match self.ols_executable_name(platform, arch) {
            Some(name) => name,
            None => {
                return None;
            },
        };
        let separator = Self::path_separator(platform);
        let mut i: usize = 0;
        assert(listed@.skip(0) =~= listed@);
        while i < listed.len()
            invariant
                i <= listed@.len(),
                *entries == Some(*listed),
                first_ols_dir(listed@) == first_ols_dir(listed@.skip(i as int)),
                Some(executable_name@) == ols_executable(platform, arch),
                separator@ == path_separator(platform),
            decreases listed@.len() - i,
        {
            match &listed[i].name {
                None => {
                    return None;
                },
                Some(name) => {
                    if starts_with(name.as_str(), "ols-") && listed[i].is_dir
                        && listed[i].has_binary {
                        return Some(name.clone().concat(separator).concat(&executable_name));
                    }
                },
            }
            assert(listed@.skip(i as int).skip(1) =~= listed@.skip(i + 1));
            i += 1;
        }
        None
    }

    /// What installs the language server of a release.
    pub fn ols_install(&self, release: &GithubRelease, platform: Os, arch: Architecture) -> (plan:
        Result<Install, String>)
        ensures
            install_view(plan) == ols_install(*release, platform, arch),
    {
        let file_name = match self.ols_binary_name(platform, arch) {
            Some(name) => name,
            None => {
                return Err("Unsupported platform ".to_owned().concat(arch.name()));
            },
        };
        let asset_name = file_name.clone().concat(".zip");
        let download_url = match find_asset(&release.assets, &asset_name) {
            Some(url) => url,
            None => {
                return Err(
                    "no asset found matching \"".to_owned().concat(&asset_name).concat("\""),
                );
            },
        };
        let version_dir = "ols-".to_owned().concat(&release.version);
        let executable = file_name.concat(Self::exe_suffix(platform));
        let binary_path = version_dir.clone().concat(Self::path_separator(platform)).concat(
            &executable,
        );
        Ok(Install { download_url, version_dir, binary_path })
    }

    /// Goes on with the search for the language server from `step`, which `reply` came out of.
    pub fn language_server_binary_path(&mut self, step: OlsStep, reply: Reply) -> (next: OlsStep)
        ensures
            (final(self).cached_binary_path.deep_view(), next@) == ols_next(
                old(self).cached_binary_path.deep_view(),
                step@,
                reply,
            ),
    {
        match (step, reply) {
            (OlsStep::ReadSettings, Reply::Settings(settings)) => {
                match LspSettings::configured_path(settings) {
                    Some(path) => OlsStep::Finished(Ok(path)),
                    None => OlsStep::FindOnPath,
                }
            },
            (OlsStep::FindOnPath, Reply::Path(path)) => {
                if let Some(path) = path {
                    return OlsStep::Finished(Ok(path));
                }
                match &self.cached_binary_path {
                    Some(path) => OlsStep::CheckCached { path: path.clone() },
                    None => OlsStep::FetchRelease,
                }
            },
            (OlsStep::CheckCached { path }, Reply::IsFile(is_file)) => {
                if is_file {
                    OlsStep::Finished(Ok(path))
                } else {
                    OlsStep::FetchRelease
                }
            },
            (OlsStep::FetchRelease, Reply::Release { release, platform, arch }) => {
                match release {
                    Ok(release) => match self.ols_install(&release, platform, arch) {
                        Ok(install) => OlsStep::CheckInstalled { install },
                        Err(error) => OlsStep::Finished(Err(error)),
                    },
                    Err(error) => OlsStep::SearchExisting { error },
                }
            },
            (OlsStep::SearchExisting { error }, Reply::Directory { entries, platform, arch }) => {
                match self.find_existing_ols_binary(&entries, platform, arch) {
                    Some(path) => {
                        self.cached_binary_path = Some(path.clone());
                        OlsStep::Finished(Ok(path))
                    },
                    None => OlsStep::Finished(
                        Err(
                            "Failed to download OLS language server: ".to_owned().concat(
                                &error,
                            ).concat(
                                "\n\nTo resolve this issue, you can connect to the internet and restart Zed or Manually install OLS.",
                            ),
                        ),
                    ),
                }
            },
            (OlsStep::CheckInstalled { install }, Reply::IsFile(is_file)) => {
                if is_file {
                    self.cached_binary_path = Some(install.binary_path.clone());
                    OlsStep::Finished(Ok(install.binary_path))
                } else {
                    OlsStep::Download { install }
                }
            },
            (OlsStep::Download { install }, Reply::Done(done)) => {
                match done {
                    Ok(_) => OlsStep::MakeExecutable { install },
                    Err(error) => OlsStep::Finished(
                        Err("failed to download file: ".to_owned().concat(&error)),
                    ),
                }
            },
            (OlsStep::MakeExecutable { install }, Reply::Done(done)) => {
                match done {
                    Ok(_) => OlsStep::ListDirectory { install },
                    Err(error) => OlsStep::Finished(Err(error)),
                }
            },
            (OlsStep::ListDirectory { install }, Reply::Done(done)) => {
                match done {
                    Ok(_) => OlsStep::NextEntry { install },
                    Err(error) => OlsStep::Finished(
                        Err("failed to list working directory ".to_owned().concat(&error)),
                    ),
                }
            },
            (OlsStep::NextEntry { install }, Reply::Entry(entry)) => {
                match entry {
                    None => {
                        self.cached_binary_path = Some(install.binary_path.clone());
                        OlsStep::Finished(Ok(install.binary_path))
                    },
                    Some(Err(error)) => OlsStep::Finished(
                        Err("failed to load directory entry ".to_owned().concat(&error)),
                    ),
                    Some(Ok(name)) => {
                        let stale = match &name {
                            Some(name) => !same_text(name.as_str(), install.version_dir.as_str())
                                && starts_with(name.as_str(), "ols-"),
                            None => false,
                        };
                        if stale {
                            OlsStep::RemoveEntry { install }
                        } else {
                            OlsStep::NextEntry { install }
                        }
                    },
                }
            },
            (OlsStep::RemoveEntry { install }, Reply::Removed) => OlsStep::NextEntry { install },
            (step, _) => step,
        }
    }
}

/// The binary that the extension keeps and the step that the search stands at after `replies`,
/// one for each step.
pub open spec fn ols_run(
    cached: Option<Seq<char>>,
    step: OlsStep<Seq<char>>,
    replies: Seq<Reply>,
) -> (Option<Seq<char>>, OlsStep<Seq<char>>)
    decreases replies.len(),
{
    if replies.len() == 0 {
        (cached, step)
    } else {
        let (cached, step) = ols_next(cached, step, replies[0]);
        ols_run(cached, step, replies.skip(1))
    }
}

/// The search takes the first of these that there is: the path in the settings, the binary that
/// the system knows, the binary that was found last if it is still a file. Only where there is
/// none of them, the latest release is looked up.
pub proof fn law_resolution_order(
    cached: Option<Seq<char>>,
    settings: Option<LspSettings>,
    on_path: Option<String>,
    is_file: bool,
)
    ensures
        ({
            let start = OlsStep::ReadSettings;
            let first = seq![Reply::Settings(settings)];
            let second = first.push(Reply::Path(on_path));
            let third = second.push(Reply::IsFile(is_file));
            match (configured_path(settings), on_path, cached) {
                (Some(path), _, _) => ols_run(cached, start, first) == (
                    cached,
                    OlsStep::Finished(Ok(path)),
                ),
                (None, Some(path), _) => ols_run(cached, start, second) == (
                    cached,
                    OlsStep::Finished(Ok(path@)),
                ),
                (None, None, Some(path)) => ols_run(cached, start, third) == (
                    cached,
                    if is_file {
                        OlsStep::Finished(Ok(path))
                    } else {
                        OlsStep::FetchRelease
                    },
                ),
                (None, None, None) => ols_run(cached, start, second) == (
                    cached,
                    OlsStep::<Seq<char>>::FetchRelease,
                ),
            }
        }),
{
    reveal_with_fuel(ols_run, 4);
    let first = seq![Reply::Settings(settings)];
    let second = first.push(Reply::Path(on_path));
    let third = second.push(Reply::IsFile(is_file));
    assert(second.skip(1) =~= seq![Reply::Path(on_path)]);
    assert(third.skip(1) =~= seq![Reply::Path(on_path), Reply::IsFile(is_file)]);
    assert(third.skip(1).skip(1) =~= seq![Reply::IsFile(is_file)]);
}

/// Where no release is to be had, a language server that is in the working directory is used,
/// and kept for the next time.
pub proof fn law_offline_fallback(
    cached: Option<Seq<char>>,
    error: String,
    entries: Vec<DirectoryEntry>,
    platform: Os,
    arch: Architecture,
)
    ensures
        ({
            let replies = seq![
                Reply::Release { release: Err(error), platform, arch },
                Reply::Directory { entries: Some(entries), platform, arch },
            ];
            ols_run(cached, OlsStep::FetchRelease, replies) == match existing_ols(
                Some(entries@),
                platform,
                arch,
            ) {
                Some(path) => (Some(path), OlsStep::Finished(Ok(path))),
                None => (cached, OlsStep::Finished(Err(offline_message(error@)))),
            }
        }),
{
    reveal_with_fuel(ols_run, 3);
    let replies = seq![
        Reply::Release { release: Err(error), platform, arch },
        Reply::Directory { entries: Some(entries), platform, arch },
    ];
    assert(replies.skip(1) =~= seq![Reply::Directory { entries: Some(entries), platform, arch }]);
}

/// Once the search has ended, no reply changes how, nor what the extension keeps.
pub proof fn law_finished_search_stays(
    cached: Option<Seq<char>>,
    outcome: Result<Seq<char>, Seq<char>>,
    replies: Seq<Reply>,
)
    ensures
        ols_run(cached, OlsStep::Finished(outcome), replies) == (
            cached,
            OlsStep::Finished(outcome),
        ),
    decreases replies.len(),
{
    if replies.len() > 0 {
        law_finished_search_stays(cached, outcome, replies.skip(1));
    }
}

/// The extension never keeps anything but what it kept before, or the path that the search ended
/// with.
pub proof fn law_kept_path_was_found(
    cached: Option<Seq<char>>,
    step: OlsStep<Seq<char>>,
    replies: Seq<Reply>,
)
    ensures
        ({
            let (kept, end) = ols_run(cached, step, replies);
            kept == cached || (kept is Some && end == OlsStep::<Seq<char>>::Finished(Ok(kept->0)))
        }),
    decreases replies.len(),
{
    if replies.len() > 0 {
        let (kept, next) = ols_next(cached, step, replies[0]);
        if kept != cached {
            law_finished_search_stays(kept, Ok(kept->0), replies.skip(1));
        } else {
            law_kept_path_was_found(kept, next, replies.skip(1));
        }
    }
}

/// How far a step is from the end of the search, apart from the entries of the working directory.
pub open spec fn ols_rank(step: OlsStep<Seq<char>>) -> nat {
    match step {
        OlsStep::ReadSettings => 9,
        OlsStep::FindOnPath => 8,
        OlsStep::CheckCached { .. } => 7,
        OlsStep::FetchRelease => 6,
        OlsStep::SearchExisting { .. } => 5,
        OlsStep::CheckInstalled { .. } => 5,
        OlsStep::Download { .. } => 4,
        OlsStep::MakeExecutable { .. } => 3,
        OlsStep::ListDirectory { .. } => 2,
        OlsStep::NextEntry { .. } => 1,
        OlsStep::RemoveEntry { .. } => 1,
        OlsStep::Finished(_) => 0,
    }
}

/// The reply is one that the step waits for.
pub open spec fn ols_answers(step: OlsStep<Seq<char>>, reply: Reply) -> bool {
    match step {
        OlsStep::ReadSettings => reply is Settings,
        OlsStep::FindOnPath => reply is Path,
        OlsStep::CheckCached { .. } => reply is IsFile,
        OlsStep::FetchRelease => reply is Release,
        OlsStep::SearchExisting { .. } => reply is Directory,
        OlsStep::CheckInstalled { .. } => reply is IsFile,
        OlsStep::Download { .. } => reply is Done,
        OlsStep::MakeExecutable { .. } => reply is Done,
        OlsStep::ListDirectory { .. } => reply is Done,
        OlsStep::NextEntry { .. } => reply is Entry,
        OlsStep::RemoveEntry { .. } => reply is Removed,
        OlsStep::Finished(_) => false,
    }
}

/// Every reply that a step waits for brings the search nearer to its end, but for the entries of
/// the working directory, which are taken one after the other until there is none left or one
/// cannot be read. A reply that a step does not wait for changes nothing.
pub proof fn law_search_advances(
    cached: Option<Seq<char>>,
    step: OlsStep<Seq<char>>,
    reply: Reply,
)
    ensures
        !ols_answers(step, reply) ==> ols_next(cached, step, reply) == (cached, step),
        ols_answers(step, reply) ==> {
            let next = ols_next(cached, step, reply).1;
            match (step, reply) {
                (OlsStep::RemoveEntry { install }, _) => next == OlsStep::NextEntry { install },
                (OlsStep::NextEntry { install }, Reply::Entry(Some(Ok(_)))) => {
                    ||| next == OlsStep::NextEntry { install }
                    ||| next == OlsStep::RemoveEntry { install }
                },
                _ => ols_rank(next) < ols_rank(step),
            }
        },
{
}

/// The clean-up removes an entry only if it belongs to the language server and is not the
/// directory of the version that was installed.
pub proof fn law_cleanup_removes_older_versions_only(
    cached: Option<Seq<char>>,
    step: OlsStep<Seq<char>>,
    reply: Reply,
)
    requires
        !(step is RemoveEntry),
        ols_next(cached, step, reply).1 is RemoveEntry,
    ensures
        ({
            let install = ols_next(cached, step, reply).1->RemoveEntry_install;
            &&& step == OlsStep::NextEntry { install }
            &&& reply matches Reply::Entry(Some(Ok(name))) && is_stale_ols(
                name.deep_view(),
                install.version_dir,
            )
        }),
{
}

/// The clean-up after a download removes every other version of the language server that it comes
/// to.
pub proof fn law_cleanup_removes_older_versions(
    cached: Option<Seq<char>>,
    install: Install<Seq<char>>,
    name: Option<String>,
)
    requires
        is_stale_ols(name.deep_view(), install.version_dir),
    ensures
        ols_next(cached, OlsStep::NextEntry { install }, Reply::Entry(Some(Ok(name)))) == (
            cached,
            OlsStep::RemoveEntry { install },
        ),
{
}

/// The replies to the clean-up of a working directory that holds entries of these names.
pub open spec fn sweep_replies(names: Seq<Option<String>>, version_dir: Seq<char>) -> Seq<Reply>
    decreases names.len(),
{
    if names.len() == 0 {
        seq![Reply::Entry(None)]
    } else {
        let rest = sweep_replies(names.skip(1), version_dir);
        if is_stale_ols(names[0].deep_view(), version_dir) {
            seq![Reply::Entry(Some(Ok(names[0]))), Reply::Removed] + rest
        } else {
            seq![Reply::Entry(Some(Ok(names[0])))] + rest
        }
    }
}

/// Whatever the working directory holds, its clean-up ends with the binary that was installed,
/// and the extension keeps it.
pub proof fn law_sweep_ends_with_installed(
    cached: Option<Seq<char>>,
    install: Install<Seq<char>>,
    names: Seq<Option<String>>,
)
    ensures
        ols_run(
            cached,
            OlsStep::NextEntry { install },
            sweep_replies(names, install.version_dir),
        ) == (Some(install.binary_path), OlsStep::Finished(Ok(install.binary_path))),
    decreases names.len(),
{
    reveal_with_fuel(ols_run, 3);
    let replies = sweep_replies(names, install.version_dir);
    if names.len() > 0 {
        let rest = sweep_replies(names.skip(1), install.version_dir);
        law_sweep_ends_with_installed(cached, install, names.skip(1));
        if is_stale_ols(names[0].deep_view(), install.version_dir) {
            assert(replies.skip(1) =~= seq![Reply::Removed] + rest);
            assert(replies.skip(1).skip(1) =~= rest);
        } else {
            assert(replies.skip(1) =~= rest);
        }
    } else {
        assert(replies.skip(1) =~= Seq::empty());
    }
}

/// Two lists of replies one after the other lead where the second leads from where the first
/// does.
proof fn lemma_run_concat(
    cached: Option<Seq<char>>,
    step: OlsStep<Seq<char>>,
    a: Seq<Reply>,
    b: Seq<Reply>,
)
    ensures
        ols_run(cached, step, a + b) == ({
            let (cached, step) = ols_run(cached, step, a);
            ols_run(cached, step, b)
        }),
    decreases a.len(),
{
    if a.len() == 0 {
        assert(a + b =~= b);
    } else {
        assert((a + b).skip(1) =~= a.skip(1) + b);
        let (cached, step) = ols_next(cached, step, a[0]);
        lemma_run_concat(cached, step, a.skip(1), b);
    }
}

/// A release that offers the language server for the platform is installed, if it is not there
/// yet and nothing fails on the way, whatever the working directory holds. The search ends with
/// the binary of that release, and the extension keeps it.
pub proof fn law_release_is_installed(
    cached: Option<Seq<char>>,
    release: GithubRelease,
    platform: Os,
    arch: Architecture,
    names: Seq<Option<String>>,
)
    requires
        ols_install(release, platform, arch) is Ok,
    ensures
        ({
            let install = ols_install(release, platform, arch)->Ok_0;
            let replies = seq![
                Reply::Release { release: Ok(release), platform, arch },
                Reply::IsFile(false),
                Reply::Done(Ok(())),
                Reply::Done(Ok(())),
                Reply::Done(Ok(())),
            ] + sweep_replies(names, install.version_dir);
            ols_run(cached, OlsStep::FetchRelease, replies) == (
                Some(install.binary_path),
                OlsStep::Finished(Ok(install.binary_path)),
            )
        }),
{
    reveal_with_fuel(ols_run, 6);
    let install = ols_install(release, platform, arch)->Ok_0;
    let first = seq![
        Reply::Release { release: Ok(release), platform, arch },
        Reply::IsFile(false),
        Reply::Done(Ok(())),
        Reply::Done(Ok(())),
        Reply::Done(Ok(())),
    ];
    let sweep = sweep_replies(names, install.version_dir);
    lemma_run_concat(cached, OlsStep::FetchRelease, first, sweep);
    assert(ols_run(cached, OlsStep::FetchRelease, first) == (
        cached,
        OlsStep::NextEntry { install },
    ));
    law_sweep_ends_with_installed(cached, install, names);
}

/// The search of the working directory finds the first directory of the language server, unless
/// an entry whose name is no valid text comes before it.
pub proof fn law_first_ols_dir(entries: Seq<DirectoryEntry>)
    ensures
        match first_ols_dir(entries) {
            Some(dir) => exists|i: int|
                {
                    &&& 0 <= i < entries.len()
                    &&& is_ols_dir(#[trigger] entries[i])
                    &&& entries[i].name->0@ == dir
                    &&& forall|j: int|
                        0 <= j < i ==> (#[trigger] entries[j]).name is Some && !is_ols_dir(
                            entries[j],
                        )
                },
            None => forall|i: int|
                0 <= i < entries.len() && is_ols_dir(#[trigger] entries[i]) ==> exists|j: int|
                    0 <= j < i && (#[trigger] entries[j]).name is None,
        },
    decreases entries.len(),
{
    if entries.len() > 0 && entries[0].name is Some {
        if is_ols_dir(entries[0]) {
            assert(entries[0].name->0@ == first_ols_dir(entries)->0);
        } else {
            let rest = entries.skip(1);
            law_first_ols_dir(rest);
            match first_ols_dir(rest) {
                Some(dir) => {
                    let k = choose|i: int|
                        {
                            &&& 0 <= i < rest.len()
                            &&& is_ols_dir(#[trigger] rest[i])
                            &&& rest[i].name->0@ == dir
                            &&& forall|j: int|
                                0 <= j < i ==> (#[trigger] rest[j]).name is Some && !is_ols_dir(
                                    rest[j],
                                )
                        };
                    assert(entries[k + 1] == rest[k]);
                    assert forall|j: int| 0 <= j < k + 1 implies (#[trigger] entries[j]).name
                        is Some && !is_ols_dir(entries[j]) by {
                        if j > 0 {
                            assert(rest[j - 1] == entries[j]);
                        }
                    }
                },
                None => {
                    assert forall|i: int|
                        0 <= i < entries.len() && is_ols_dir(
                            #[trigger] entries[i],
                        ) implies exists|j: int|
                        0 <= j < i && (#[trigger] entries[j]).name is None by {
                        assert(rest[i - 1] == entries[i]);
                        let j = choose|j: int|
                            0 <= j < i - 1 && (#[trigger] rest[j]).name is None;
                        assert(entries[j + 1] == rest[j]);
                    }
                },
            }
        }
    }
}

/// What was installed is found again: a directory of the installed version with the binary in it
/// counts as one of the language server, and the path found in it is the one that was installed.
pub proof fn law_installed_is_found_again(
    release: GithubRelease,
    platform: Os,
    arch: Architecture,
    entry: DirectoryEntry,
    entries: Seq<DirectoryEntry>,
)
    requires
        ols_install(release, platform, arch) is Ok,
        entry.name.deep_view() == Some(ols_install(release, platform, arch)->Ok_0.version_dir),
        entry.is_dir,
        entry.has_binary,
    ensures
        is_ols_dir(entry),
        first_ols_dir(entries) == entry.name.deep_view() ==> existing_ols(
            Some(entries),
            platform,
            arch,
        ) == Some(ols_install(release, platform, arch)->Ok_0.binary_path),
{
    let dir = ols_version_dir(release.version@);
    assert(dir.subrange(0, "ols-"@.len() as int) =~= "ols-"@);
}

/// What is installed of a release is the archive for the platform, the first if there are several:
/// to the directory of the version, in which the binary for the platform then is. Nothing is
/// installed where there is no binary for the platform, or the release lacks its archive.
pub proof fn law_ols_of_platform_is_installed(
    release: GithubRelease,
    platform: Os,
    arch: Architecture,
)
    ensures
        ({
            let name = ols_binary_name(platform, arch)->0;
            let assets = release.assets@;
            match ols_install(release, platform, arch) {
                Ok(install) => {
                    &&& ols_binary_name(platform, arch) is Some
                    &&& exists|k: int|
                        {
                            &&& 0 <= k < assets.len()
                            &&& (#[trigger] assets[k]).name@ == name + ".zip"@
                            &&& assets[k].download_url@ == install.download_url
                            &&& forall|j: int|
                                0 <= j < k ==> (#[trigger] assets[j]).name@ != name + ".zip"@
                        }
                    &&& install.version_dir == "ols-"@ + release.version@
                    &&& install.binary_path == match platform {
                        Os::Windows => "ols-"@ + release.version@ + "\\"@ + name + ".exe"@,
                        Os::Mac | Os::Linux => "ols-"@ + release.version@ + "/"@ + name,
                    }
                },
                Err(error) => if arch is X86 {
                    error == "Unsupported platform Architecture::X86"@
                } else {
                    &&& error == "no asset found matching \""@ + name + ".zip\""@
                    &&& forall|k: int|
                        0 <= k < assets.len() ==> (#[trigger] assets[k]).name@ != name + ".zip"@
                },
            }
        }),
{
    law_asset_found(release.assets@, ols_binary_name(platform, arch)->0 + ".zip"@);
    reveal_strlit("Unsupported platform ");
    reveal_strlit("Architecture::X86");
    reveal_strlit("Unsupported platform Architecture::X86");
    assert("Unsupported platform "@ + "Architecture::X86"@
        =~= "Unsupported platform Architecture::X86"@);
    reveal_strlit(".zip");
    reveal_strlit("\"");
    reveal_strlit(".zip\"");
    reveal_strlit("");
    let name = ols_binary_name(platform, arch)->0;
    let dir = "ols-"@ + release.version@;
    assert(".zip"@ + "\""@ =~= ".zip\""@);
    assert("no asset found matching \""@ + (name + ".zip"@) + "\""@
        =~= "no asset found matching \""@ + name + (".zip"@ + "\""@));
    assert(dir + "\\"@ + (name + ".exe"@) =~= dir + "\\"@ + name + ".exe"@);
    assert(dir + "/"@ + (name + ""@) =~= dir + "/"@ + name);
}

/// Two releases are installed to the same directory only if they are of the same version.
pub proof fn law_versions_have_directories_of_their_own(
    a: GithubRelease,
    b: GithubRelease,
    platform: Os,
    arch: Architecture,
)
    requires
        ols_install(a, platform, arch) is Ok,
        ols_install(b, platform, arch) is Ok,
        ols_install(a, platform, arch)->Ok_0.version_dir == ols_install(
            b,
            platform,
            arch,
        )->Ok_0.version_dir,
    ensures
        a.version@ == b.version@,
{
    let prefix = "ols-"@.len() as int;
    assert(("ols-"@ + a.version@).skip(prefix) =~= a.version@);
    assert(("ols-"@ + b.version@).skip(prefix) =~= b.version@);
}

/// A directory is one of the language server exactly if its name begins with `ols-` and the binary
/// is in it.
pub proof fn law_ols_dir(entry: DirectoryEntry)
    ensures
        is_ols_dir(entry) <==> {
            &&& entry.name is Some
            &&& "ols-"@.is_prefix_of(entry.name->0@)
            &&& entry.is_dir
            &&& entry.has_binary
        },
{
}

/// The language server that is there already is the binary for the platform in the directory that
/// was found; there is none where the working directory cannot be listed, or where the platform
/// has no binary.
pub proof fn law_existing_ols_is_for_platform(
    entries: Seq<DirectoryEntry>,
    platform: Os,
    arch: Architecture,
)
    ensures
        existing_ols(None, platform, arch) is None,
        existing_ols(Some(entries), platform, arch) is Some <==> first_ols_dir(entries) is Some
            && !(arch is X86),
        existing_ols(Some(entries), platform, arch) matches Some(path) ==> {
            let dir = first_ols_dir(entries)->0;
            let name = ols_binary_name(platform, arch)->0;
            path == match platform {
                Os::Windows => dir + "\\"@ + name + ".exe"@,
                Os::Mac | Os::Linux => dir + "/"@ + name,
            }
        },
{
    reveal_strlit("");
    let dir = first_ols_dir(entries)->0;
    let name = ols_binary_name(platform, arch)->0;
    assert(dir + "\\"@ + (name + ".exe"@) =~= dir + "\\"@ + name + ".exe"@);
    assert(dir + "/"@ + (name + ""@) =~= dir + "/"@ + name);
}

/// The directory of another version is stale, that of the installed one is not, and neither is
/// anything whose name does not begin with `ols-` or is no text.
pub proof fn law_stale_versions(installed: Seq<char>, other: Seq<char>, name: Seq<char>)
    ensures
        is_stale_ols(Some("ols-"@ + other), "ols-"@ + installed) <==> other != installed,
        is_stale_ols(Some(name), "ols-"@ + installed) ==> "ols-"@.is_prefix_of(name),
        !is_stale_ols(None, "ols-"@ + installed),
{
    let prefix = "ols-"@.len() as int;
    assert(("ols-"@ + other).skip(prefix) =~= other);
    assert(("ols-"@ + installed).skip(prefix) =~= installed);
    assert(("ols-"@ + other).subrange(0, prefix) =~= "ols-"@);
}

/// The steps of an installation follow one another: the binary is looked for; where it is, it is
/// used and kept; where it is not, it is downloaded, made executable, and the working directory is
/// listed and cleaned up, entry by entry, to the last one. Nothing is kept before that.
pub proof fn law_installation_steps(
    cached: Option<Seq<char>>,
    install: Install<Seq<char>>,
    name: Option<String>,
)
    ensures
        ({
            let path = install.binary_path;
            let done = Reply::Done(Ok(()));
            &&& ols_next(cached, OlsStep::CheckInstalled { install }, Reply::IsFile(true)) == (
                Some(path),
                OlsStep::<Seq<char>>::Finished(Ok(path)),
            )
            &&& ols_next(cached, OlsStep::CheckInstalled { install }, Reply::IsFile(false)) == (
                cached,
                OlsStep::Download { install },
            )
            &&& ols_next(cached, OlsStep::Download { install }, done) == (
                cached,
                OlsStep::MakeExecutable { install },
            )
            &&& ols_next(cached, OlsStep::MakeExecutable { install }, done) == (
                cached,
                OlsStep::ListDirectory { install },
            )
            &&& ols_next(cached, OlsStep::ListDirectory { install }, done) == (
                cached,
                OlsStep::NextEntry { install },
            )
            &&& ols_next(cached, OlsStep::NextEntry { install }, Reply::Entry(Some(Ok(name)))) == (
                cached,
                if name is Some && "ols-"@.is_prefix_of(name->0@) && name->0@
                    != install.version_dir {
                    OlsStep::RemoveEntry { install }
                } else {
                    OlsStep::NextEntry { install }
                },
            )
            &&& ols_next(cached, OlsStep::RemoveEntry { install }, Reply::Removed) == (
                cached,
                OlsStep::NextEntry { install },
            )
            &&& ols_next(cached, OlsStep::NextEntry { install }, Reply::Entry(None)) == (
                Some(path),
                OlsStep::<Seq<char>>::Finished(Ok(path)),
            )
        }),
{
}

/// Where something fails on the way, the search ends with a message that says what failed and why,
/// and what the extension keeps does not change.
pub proof fn law_failed_search_says_why(
    cached: Option<Seq<char>>,
    install: Install<Seq<char>>,
    release: GithubRelease,
    platform: Os,
    arch: Architecture,
    error: String,
)
    ensures
        ({
            let failed = Reply::Done(Err(error));
            &&& ols_next(cached, OlsStep::Download { install }, failed) == (
                cached,
                OlsStep::<Seq<char>>::Finished(Err("failed to download file: "@ + error@)),
            )
            &&& ols_next(cached, OlsStep::MakeExecutable { install }, failed) == (
                cached,
                OlsStep::<Seq<char>>::Finished(Err(error@)),
            )
            &&& ols_next(cached, OlsStep::ListDirectory { install }, failed) == (
                cached,
                OlsStep::<Seq<char>>::Finished(Err("failed to list working directory "@ + error@)),
            )
            &&& ols_next(
                cached,
                OlsStep::NextEntry { install },
                Reply::Entry(Some(Err(error))),
            ) == (
                cached,
                OlsStep::<Seq<char>>::Finished(Err("failed to load directory entry "@ + error@)),
            )
            &&& ols_next(
                cached,
                OlsStep::FetchRelease,
                Reply::Release { release: Ok(release), platform, arch },
            ) == (
                cached,
                match ols_install(release, platform, arch) {
                    Ok(install) => OlsStep::CheckInstalled { install },
                    Err(message) => OlsStep::Finished(Err(message)),
                },
            )
        }),
{
}

/// Where neither a release nor a language server is to be had, the message carries the reason and
/// says what to do, and what the extension keeps does not change.
pub proof fn law_offline_without_server(
    cached: Option<Seq<char>>,
    error: Seq<char>,
    entries: Option<Vec<DirectoryEntry>>,
    platform: Os,
    arch: Architecture,
)
    requires
        match entries {
            Some(entries) => arch is X86 || first_ols_dir(entries@) is None,
            None => true,
        },
    ensures
        ols_next(
            cached,
            OlsStep::SearchExisting { error },
            Reply::Directory { entries, platform, arch },
        ) == (
            cached,
            OlsStep::<Seq<char>>::Finished(
                Err(
                    "Failed to download OLS language server: "@ + error
                        + "\n\nTo resolve this issue, you can connect to the internet and restart Zed or Manually install OLS."@,
                ),
            ),
        ),
{
}

/// The editor is told of a check for updates exactly before a release is looked up, and of a
/// download exactly before one.
pub proof fn law_editor_is_told(step: OlsStep<Seq<char>>)
    ensures
        told_status(step) == Some(LanguageServerInstallationStatus::CheckingForUpdate) <==> step
            is FetchRelease,
        told_status(step) == Some(LanguageServerInstallationStatus::Downloading) <==> step
            is Download,
{
}

} // verus!
