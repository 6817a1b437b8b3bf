//! The search for the CodeLLDB debug adapter.
use crate::extension::OdinExtension;
use crate::install::{
    asset_url, find_asset, install_view, law_asset_found, DirectoryEntry, GithubRelease, Install,
    Reply,
};
use crate::ols::is_stale_ols;
use crate::platform::{
    codelldb_asset_name, codelldb_binary_name, path_separator, Architecture, Os,
};
use crate::text::{occurs_at, result_view, same_text, starts_with};
use vstd::prelude::*;
use vstd::string::*;

verus! {

/// Where the adapter's releases are.
pub const CODELLDB_REPO: &'static str = "vadimcn/codelldb";

/// The name under which the system may know the adapter.
pub const CODELLDB_COMMAND: &'static str = "codelldb";

/// The directory that a release of the adapter holds.
pub const CODELLDB_RELEASE_DIR: &'static str = "extension";

/// The directory in it that the binary is in.
pub const CODELLDB_BINARY_DIR: &'static str = "adapter";

/// Where the search for the debug adapter stands: what has to be done next, or how it ended.
#[derive(Debug, PartialEq, Eq)]
pub enum CodelldbStep<T = String> {
    /// The adapter is asked for, with the path that the user gave, if any.
    Requested { user_path: Option<T> },
    /// Look the adapter up among the binaries that the system knows.
    FindOnPath,
    /// List the working directory.
    SearchExisting,
    /// Look up the latest release.
    FetchRelease,
    /// See whether this version is installed.
    CheckInstalled { install: Install<T> },
    /// Download and unpack it.
    Download { install: Install<T> },
    /// Make the binary executable.
    MakeExecutable { install: Install<T> },
    /// Begin to list the working directory.
    ListDirectory { install: Install<T> },
    /// Go to its next entry.
    NextEntry { install: Install<T> },
    /// Remove this entry.
    RemoveEntry { install: Install<T> },
    /// The adapter is there, or not.
    Finished(Result<T, T>),
}

impl View for CodelldbStep {
    type V = CodelldbStep<Seq<char>>;

    open spec fn view(&self) -> CodelldbStep<Seq<char>> {
        match self {
            CodelldbStep::Requested { user_path } => CodelldbStep::Requested {
                user_path: user_path.deep_view(),
            },
            CodelldbStep::FindOnPath => CodelldbStep::FindOnPath,
            CodelldbStep::SearchExisting => CodelldbStep::SearchExisting,
            CodelldbStep::FetchRelease => CodelldbStep::FetchRelease,
            CodelldbStep::CheckInstalled { install } => CodelldbStep::CheckInstalled {
                install: install@,
            },
            CodelldbStep::Download { install } => CodelldbStep::Download { install: install@ },
            CodelldbStep::MakeExecutable { install } => CodelldbStep::MakeExecutable {
                install: install@,
            },
            CodelldbStep::ListDirectory { install } => CodelldbStep::ListDirectory {
                install: install@,
            },
            CodelldbStep::NextEntry { install } => CodelldbStep::NextEntry { install: install@ },
            CodelldbStep::RemoveEntry { install } => CodelldbStep::RemoveEntry {
                install: install@,
            },
            CodelldbStep::Finished(outcome) => CodelldbStep::Finished(result_view(*outcome)),
        }
    }
}

/// The path of the adapter inside a directory.
pub open spec fn codelldb_path(dir: Seq<char>, platform: Os) -> Seq<char> {
    let separator = path_separator(platform);
    dir + separator + CODELLDB_RELEASE_DIR@ + separator + CODELLDB_BINARY_DIR@ + separator
        + codelldb_binary_name(platform)
}

/// What installs the adapter of a release, or why it cannot be installed.
pub open spec fn codelldb_install(
    release: GithubRelease,
    platform: Os,
    arch: Architecture,
) -> Result<Install<Seq<char>>, Seq<char>> {
    match codelldb_asset_name(platform, arch) {
        None => Err(
            "Unsupported CodeLLDB platform: "@ + platform.spec_name() + "/"@ + arch.spec_name(),
        ),
        Some(asset_name) => match asset_url(release.assets@, asset_name) {
            None => Err("No CodeLLDB asset found matching \""@ + asset_name + "\""@),
            Some(download_url) => {
                let version_dir = "codelldb-"@ + release.version@;
                Ok(
                    Install {
                        download_url,
                        version_dir,
                        binary_path: codelldb_path(version_dir, platform),
                    },
                )
            },
        },
    }
}

/// The entry is a directory of the adapter, with the binary in it.
pub open spec fn is_codelldb_dir(entry: DirectoryEntry) -> bool {
    entry.name is Some && occurs_at(entry.name->0@, "codelldb-"@, 0) && entry.is_dir
        && entry.has_binary
}

/// Among `entries`, the place of the directory of the adapter whose binary was changed last; of
/// several that were changed at the same time, the first.
pub open spec fn newest_codelldb_dir(entries: Seq<DirectoryEntry>) -> Option<int>
    decreases entries.len(),
{
    if entries.len() == 0 {
        None
    } else {
        let before = newest_codelldb_dir(entries.drop_last());
        let newer = match before {
            Some(i) => entries.last().modified > entries[i].modified,
            None => true,
        };
        if is_codelldb_dir(entries.last()) && newer {
            Some(entries.len() - 1)
        } else {
            before
        }
    }
}

/// The newest adapter that is in the working directory already, if there is one.
pub open spec fn existing_codelldb(
    entries: Option<Seq<DirectoryEntry>>,
    platform: Os,
) -> Option<Seq<char>> {
    match entries {
        Some(entries) => match newest_codelldb_dir(entries) {
            Some(i) => Some(codelldb_path(entries[i].name->0@, platform)),
            None => None,
        },
        None => None,
    }
}

/// The entry of that name belongs to another version of the adapter than the one that was
/// installed.
pub open spec fn is_stale_codelldb(name: Option<Seq<char>>, version_dir: Seq<char>) -> bool {
    name is Some && name->0 != version_dir && occurs_at(name->0, "codelldb-"@, 0)
}

/// The step that follows `step` when `reply` came out of it. A reply to another step changes
/// nothing.
pub open spec fn codelldb_next(step: CodelldbStep<Seq<char>>, reply: Reply) -> CodelldbStep<
    Seq<char>,
> {
    match (step, reply) {
        (CodelldbStep::Requested { user_path }, Reply::Begin) => match user_path {
            Some(path) => CodelldbStep::Finished(Ok(path)),
            None => CodelldbStep::FindOnPath,
        },
        (CodelldbStep::FindOnPath, Reply::Path(path)) => match path {
            Some(path) => CodelldbStep::Finished(Ok(path@)),
            None => CodelldbStep::SearchExisting,
        },
        (CodelldbStep::SearchExisting, Reply::Directory { entries, platform, arch }) => {
            let entries = match entries {
                Some(entries) => Some(entries@),
                None => None,
            };
            match existing_codelldb(entries, platform) {
                Some(path) => CodelldbStep::Finished(Ok(path)),
                None => CodelldbStep::FetchRelease,
            }
        },
        (CodelldbStep::FetchRelease, Reply::Release { release, platform, arch }) => match release {
            Err(error) => CodelldbStep::Finished(Err(error@)),
            Ok(release) => match codelldb_install(release, platform, arch) {
                Ok(install) => CodelldbStep::CheckInstalled { install },
                Err(error) => CodelldbStep::Finished(Err(error)),
            },
        },
        (CodelldbStep::CheckInstalled { install }, Reply::IsFile(is_file)) => if is_file {
            CodelldbStep::Finished(Ok(install.binary_path))
        } else {
            CodelldbStep::Download { install }
        },
        (CodelldbStep::Download { install }, Reply::Done(done)) => match done {
            Ok(_) => CodelldbStep::MakeExecutable { install },
            Err(error) => CodelldbStep::Finished(Err("failed to download CodeLLDB: "@ + error@)),
        },
        (CodelldbStep::MakeExecutable { install }, Reply::Done(done)) => match done {
            Ok(_) => CodelldbStep::ListDirectory { install },
            Err(error) => CodelldbStep::Finished(
                Err("failed to mark CodeLLDB as executable: "@ + error@),
            ),
        },
        (CodelldbStep::ListDirectory { install }, Reply::Done(done)) => match done {
            Ok(_) => CodelldbStep::NextEntry { install },
            Err(error) => CodelldbStep::Finished(
                Err("failed to list working directory: "@ + error@),
            ),
        },
        (CodelldbStep::NextEntry { install }, Reply::Entry(entry)) => match entry {
            None => CodelldbStep::Finished(Ok(install.binary_path)),
            Some(Err(_)) => CodelldbStep::NextEntry { install },
            Some(Ok(name)) => if is_stale_codelldb(name.deep_view(), install.version_dir) {
                CodelldbStep::RemoveEntry { install }
            } else {
                CodelldbStep::NextEntry { install }
            },
        },
        (CodelldbStep::RemoveEntry { install }, Reply::Removed) => CodelldbStep::NextEntry {
            install,
        },
        _ => step,
    }
}

impl OdinExtension {
    /// The path of the adapter inside a directory.
    fn codelldb_path_in(dir: &str, platform: Os) -> (path: String)
        ensures
            path@ == codelldb_path(dir@, platform),
    {
        let separator = Self::path_separator(platform);
        dir.to_owned().concat(separator).concat(CODELLDB_RELEASE_DIR).concat(separator).concat(
            CODELLDB_BINARY_DIR,
        ).concat(separator).concat(Self::codelldb_binary_name(platform))
    }

    /// The newest adapter that is in the working directory already, if there is one.
    pub fn find_existing_codelldb_binary(
        &self,
        entries: &Option<Vec<DirectoryEntry>>,
        platform: Os,
    ) -> (path: Option<String>)
        ensures
            path.deep_view() == existing_codelldb(
                match *entries {
                    Some(entries) => Some(entries@),
                    None => None,
                },
                platform,
            ),
    {
        let listed = match entries {
            Some(listed) => listed,
            None => {
                return None;
            },
        };
        let mut newest: Option<(i128, String)> = None;
        let mut i: usize = 0;
        while i < listed.len()
            invariant
                i <= listed@.len(),
                match newest {
                    Some((modified, path)) => {
                        &&& newest_codelldb_dir(listed@.take(i as int)) matches Some(k)
                        &&& 0 <= k < i
                        &&& modified == listed@[k].modified
                        &&& path@ == codelldb_path(listed@[k].name->0@, platform)
                    },
                    None => newest_codelldb_dir(listed@.take(i as int)) is None,
                },
            decreases listed@.len() - i,
        {
            assert(listed@.take(i + 1).drop_last() =~= listed@.take(i as int));
            assert(listed@.take(i + 1).last() == listed@[i as int]);
            let entry = &listed[i];
            if let Some(name) = &entry.name {
                if starts_with(name.as_str(), "codelldb-") && entry.is_dir && entry.has_binary {
                    let newer = match &newest {
                        Some((best_modified, _)) => entry.modified > *best_modified,
                        None => true,
                    };
                    if newer {
                        newest = Some(
                            (entry.modified, Self::codelldb_path_in(name.as_str(), platform)),
                        );
                    }
                }
            }
            i += 1;
        }
        assert(listed@.take(listed@.len() as int) =~= listed@);
        match newest {
            Some((_, path)) => Some(path),
            None => None,
        }
    }

    /// What installs the adapter of a release.
    pub fn codelldb_install(
        &self,
        release: &GithubRelease,
        platform: Os,
        arch: Architecture,
    ) -> (plan: Result<Install, String>)
        ensures
            install_view(plan) == codelldb_install(*release, platform, arch),
    {
        let asset_name = match Self::codelldb_asset_name(platform, arch) {
            Some(name) => name,
            None => {
                return Err(
                    "Unsupported CodeLLDB platform: ".to_owned().concat(platform.name()).concat(
                        "/",
                    ).concat(arch.name()),
                );
            },
        };
        let download_url = match find_asset(&release.assets, &asset_name) {
            Some(url) => url,
            None => {
                return Err(
                    "No CodeLLDB asset found matching \"".to_owned().concat(&asset_name).concat(
                        "\"",
                    ),
                );
            },
        };
        let version_dir = "codelldb-".to_owned().concat(&release.version);
        let binary_path = Self::codelldb_path_in(version_dir.as_str(), platform);
        Ok(Install { download_url, version_dir, binary_path })
    }

    /// Goes on with the search for the debug adapter from `step`, which `reply` came out of.
    pub fn codelldb_binary_path(&self, step: CodelldbStep, reply: Reply) -> (next: CodelldbStep)
        ensures
            next@ == codelldb_next(step@, reply),
    {
        match (step, reply) {
            (CodelldbStep::Requested { user_path }, Reply::Begin) => match user_path {
                Some(path) => CodelldbStep::Finished(Ok(path)),
                None => CodelldbStep::FindOnPath,
            },
            (CodelldbStep::FindOnPath, Reply::Path(path)) => match path {
                Some(path) => CodelldbStep::Finished(Ok(path)),
                None => CodelldbStep::SearchExisting,
            },
            (CodelldbStep::SearchExisting, Reply::Directory { entries, platform, arch: _ }) => {
                match self.find_existing_codelldb_binary(&entries, platform) {
                    Some(path) => CodelldbStep::Finished(Ok(path)),
                    None => CodelldbStep::FetchRelease,
                }
            },
            (CodelldbStep::FetchRelease, Reply::Release { release, platform, arch }) => {
                match release {
                    Ok(release) => match self.codelldb_install(&release, platform, arch) {
                        Ok(install) => CodelldbStep::CheckInstalled { install },
                        Err(error) => CodelldbStep::Finished(Err(error)),
                    },
                    Err(error) => CodelldbStep::Finished(Err(error)),
                }
            },
            (CodelldbStep::CheckInstalled { install }, Reply::IsFile(is_file)) => {
                if is_file {
                    CodelldbStep::Finished(Ok(install.binary_path))
                } else {
                    CodelldbStep::Download { install }
                }
            },
            (CodelldbStep::Download { install }, Reply::Done(done)) => match done {
                Ok(_) => CodelldbStep::MakeExecutable { install },
                Err(error) => CodelldbStep::Finished(
                    Err("failed to download CodeLLDB: ".to_owned().concat(&error)),
                ),
            },
            (CodelldbStep::MakeExecutable { install }, Reply::Done(done)) => match done {
                Ok(_) => CodelldbStep::ListDirectory { install },
                Err(error) => CodelldbStep::Finished(
                    Err("failed to mark CodeLLDB as executable: ".to_owned().concat(&error)),
                ),
            },
            (CodelldbStep::ListDirectory { install }, Reply::Done(done)) => match done {
                Ok(_) => CodelldbStep::NextEntry { install },
                Err(error) => CodelldbStep::Finished(
                    Err("failed to list working directory: ".to_owned().concat(&error)),
                ),
            },
            (CodelldbStep::NextEntry { install }, Reply::Entry(entry)) => match entry {
                None => CodelldbStep::Finished(Ok(install.binary_path)),
                Some(Err(_)) => CodelldbStep::NextEntry { install },
                Some(Ok(name)) => {
                    let stale = match &name {
                        Some(name) => !same_text(name.as_str(), install.version_dir.as_str())
                            && starts_with(name.as_str(), "codelldb-"),
                        None => false,
                    };
                    if stale {
                        CodelldbStep::RemoveEntry { install }
                    } else {
                        CodelldbStep::NextEntry { install }
                    }
                },
            },
            (CodelldbStep::RemoveEntry { install }, Reply::Removed) => CodelldbStep::NextEntry {
                install,
            },
            (step, _) => step,
        }
    }
}

/// The step that the search stands at after `replies`, one for each step.
pub open spec fn codelldb_run(
    step: CodelldbStep<Seq<char>>,
    replies: Seq<Reply>,
) -> CodelldbStep<Seq<char>>
    decreases replies.len(),
{
    if replies.len() == 0 {
        step
    } else {
        codelldb_run(codelldb_next(step, replies[0]), replies.skip(1))
    }
}

/// The search takes the first of these that there is: the path that the user gave, the binary
/// that the system knows, the newest one in the working directory. Only where there is none of
/// them, the latest release is looked up.
pub proof fn law_adapter_resolution_order(
    user_path: Option<Seq<char>>,
    on_path: Option<String>,
    entries: Option<Vec<DirectoryEntry>>,
    platform: Os,
    arch: Architecture,
)
    ensures
        ({
            let start = CodelldbStep::Requested { user_path };
            let first = seq![Reply::Begin];
            let second = first.push(Reply::Path(on_path));
            let third = second.push(Reply::Directory { entries, platform, arch });
            let listed = match entries {
                Some(entries) => Some(entries@),
                None => None,
            };
            match (user_path, on_path, existing_codelldb(listed, platform)) {
                (Some(path), _, _) => codelldb_run(start, first) == CodelldbStep::Finished(
                    Ok(path),
                ),
                (None, Some(path), _) => codelldb_run(start, second) == CodelldbStep::Finished(
                    Ok(path@),
                ),
                (None, None, Some(path)) => codelldb_run(start, third) == CodelldbStep::Finished(
                    Ok(path),
                ),
                (None, None, None) => codelldb_run(start, third) == CodelldbStep::<
                    Seq<char>,
                >::FetchRelease,
            }
        }),
{
    reveal_with_fuel(codelldb_run, 4);
    let first = seq![Reply::Begin];
    let second = first.push(Reply::Path(on_path));
    let third = second.push(Reply::Directory { entries, platform, arch });
    assert(second.skip(1) =~= seq![Reply::Path(on_path)]);
    assert(third.skip(1) =~= seq![
        Reply::Path(on_path),
        Reply::Directory { entries, platform, arch },
    ]);
    assert(third.skip(1).skip(1) =~= seq![Reply::Directory { entries, platform, arch }]);
}

/// Once the search has ended, no reply changes how.
pub proof fn law_finished_adapter_search_stays(
    outcome: Result<Seq<char>, Seq<char>>,
    replies: Seq<Reply>,
)
    ensures
        codelldb_run(CodelldbStep::Finished(outcome), replies) == CodelldbStep::Finished(outcome),
    decreases replies.len(),
{
    if replies.len() > 0 {
        law_finished_adapter_search_stays(outcome, replies.skip(1));
    }
}

/// The directory that is found is one of the adapter; none of the others was changed after it,
/// and none that comes before it at the same time. Where none is found, there is none.
pub proof fn law_newest_codelldb_dir(entries: Seq<DirectoryEntry>)
    ensures
        match newest_codelldb_dir(entries) {
            Some(i) => {
                &&& 0 <= i < entries.len()
                &&& is_codelldb_dir(entries[i])
                &&& forall|j: int|
                    0 <= j < entries.len() && is_codelldb_dir(#[trigger] entries[j])
                        ==> entries[j].modified <= entries[i].modified
                &&& forall|j: int|
                    0 <= j < i && is_codelldb_dir(#[trigger] entries[j]) ==> entries[j].modified
                        < entries[i].modified
            },
            None => forall|j: int|
                0 <= j < entries.len() ==> !is_codelldb_dir(#[trigger] entries[j]),
        },
    decreases entries.len(),
{
    if entries.len() > 0 {
        let before = entries.drop_last();
        law_newest_codelldb_dir(before);
        assert forall|j: int| 0 <= j < before.len() implies before[j] == #[trigger] entries[j] by {}
    }
}

/// The clean-up removes an entry only if it belongs to the adapter and is not the directory of
/// the version that was installed.
pub proof fn law_cleanup_removes_stale_only(step: CodelldbStep<Seq<char>>, reply: Reply)
    requires
        !(step is RemoveEntry),
        codelldb_next(step, reply) is RemoveEntry,
    ensures
        ({
            let install = codelldb_next(step, reply)->RemoveEntry_install;
            &&& step == CodelldbStep::NextEntry { install }
            &&& reply matches Reply::Entry(Some(Ok(name))) && is_stale_codelldb(
                name.deep_view(),
                install.version_dir,
            )
        }),
{
}

/// Neither clean-up takes what belongs to the other search: the one after a download of the
/// language server leaves every entry whose name begins as those of the adapter do, and the one
/// after a download of the adapter every entry whose name begins as those of the language server
/// do, whatever version was installed.
pub proof fn law_cleanups_leave_each_other_alone(name: Seq<char>, version_dir: Seq<char>)
    ensures
        occurs_at(name, "codelldb-"@, 0) ==> !is_stale_ols(Some(name), version_dir),
        occurs_at(name, "ols-"@, 0) ==> !is_stale_codelldb(Some(name), version_dir),
{
    reveal_strlit("ols-");
    reveal_strlit("codelldb-");
    if occurs_at(name, "ols-"@, 0) && occurs_at(name, "codelldb-"@, 0) {
        assert(name.subrange(0, "ols-"@.len() as int)[0] == name[0]);
        assert(name.subrange(0, "codelldb-"@.len() as int)[0] == name[0]);
    }
}

/// The replies to the clean-up of a working directory that holds these entries.
pub open spec fn adapter_sweep_replies(
    entries: Seq<Result<Option<String>, String>>,
    version_dir: Seq<char>,
) -> Seq<Reply>
    decreases entries.len(),
{
    if entries.len() == 0 {
        seq![Reply::Entry(None)]
    } else {
        let rest = adapter_sweep_replies(entries.skip(1), version_dir);
        if entries[0] is Ok && is_stale_codelldb(entries[0]->Ok_0.deep_view(), version_dir) {
            seq![Reply::Entry(Some(entries[0])), Reply::Removed] + rest
        } else {
            seq![Reply::Entry(Some(entries[0]))] + rest
        }
    }
}

/// Whatever the working directory holds, its clean-up ends with the binary that was installed.
pub proof fn law_adapter_sweep_ends_with_installed(
    install: Install<Seq<char>>,
    entries: Seq<Result<Option<String>, String>>,
)
    ensures
        codelldb_run(
            CodelldbStep::NextEntry { install },
            adapter_sweep_replies(entries, install.version_dir),
        ) == CodelldbStep::Finished(Ok(install.binary_path)),
    decreases entries.len(),
{
    reveal_with_fuel(codelldb_run, 3);
    let replies = adapter_sweep_replies(entries, install.version_dir);
    if entries.len() > 0 {
        let rest = adapter_sweep_replies(entries.skip(1), install.version_dir);
        law_adapter_sweep_ends_with_installed(install, entries.skip(1));
        if entries[0] is Ok && is_stale_codelldb(
            entries[0]->Ok_0.deep_view(),
            install.version_dir,
        ) {
            assert(replies.skip(1) =~= seq![Reply::Removed] + rest);
            assert(replies.skip(1).skip(1) =~= rest);
        } else {
            assert(replies.skip(1) =~= rest);
        }
    } else {
        assert(replies.skip(1) =~= Seq::empty());
    }
}

/// Two lists of replies one after the other lead where the second leads from where the first
/// does.
proof fn lemma_adapter_run_concat(step: CodelldbStep<Seq<char>>, a: Seq<Reply>, b: Seq<Reply>)
    ensures
        codelldb_run(step, a + b) == codelldb_run(codelldb_run(step, a), b),
    decreases a.len(),
{
    if a.len() == 0 {
        assert(a + b =~= b);
    } else {
        assert((a + b).skip(1) =~= a.skip(1) + b);
        lemma_adapter_run_concat(codelldb_next(step, a[0]), a.skip(1), b);
    }
}

/// A release that offers the adapter for the platform is installed, if it is not there yet and
/// nothing fails on the way, whatever the working directory holds. The search ends with the
/// binary of that release.
pub proof fn law_adapter_release_is_installed(
    release: GithubRelease,
    platform: Os,
    arch: Architecture,
    entries: Seq<Result<Option<String>, String>>,
)
    requires
        codelldb_install(release, platform, arch) is Ok,
    ensures
        ({
            let install = codelldb_install(release, platform, arch)->Ok_0;
            let replies = seq![
                Reply::Release { release: Ok(release), platform, arch },
                Reply::IsFile(false),
                Reply::Done(Ok(())),
                Reply::Done(Ok(())),
                Reply::Done(Ok(())),
            ] + adapter_sweep_replies(entries, install.version_dir);
            codelldb_run(CodelldbStep::FetchRelease, replies) == CodelldbStep::Finished(
                Ok(install.binary_path),
            )
        }),
{
    reveal_with_fuel(codelldb_run, 6);
    let install = codelldb_install(release, platform, arch)->Ok_0;
    let first = seq![
        Reply::Release { release: Ok(release), platform, arch },
        Reply::IsFile(false),
        Reply::Done(Ok(())),
        Reply::Done(Ok(())),
        Reply::Done(Ok(())),
    ];
    let sweep = adapter_sweep_replies(entries, install.version_dir);
    lemma_adapter_run_concat(CodelldbStep::FetchRelease, first, sweep);
    assert(codelldb_run(CodelldbStep::FetchRelease, first) == CodelldbStep::NextEntry { install });
    law_adapter_sweep_ends_with_installed(install, entries);
}

/// How far a step is from the end of the search, apart from the entries of the working directory.
pub open spec fn codelldb_rank(step: CodelldbStep<Seq<char>>) -> nat {
    match step {
        CodelldbStep::Requested { .. } => 9,
        CodelldbStep::FindOnPath => 8,
        CodelldbStep::SearchExisting => 7,
        CodelldbStep::FetchRelease => 6,
        CodelldbStep::CheckInstalled { .. } => 5,
        CodelldbStep::Download { .. } => 4,
        CodelldbStep::MakeExecutable { .. } => 3,
        CodelldbStep::ListDirectory { .. } => 2,
        CodelldbStep::NextEntry { .. } => 1,
        CodelldbStep::RemoveEntry { .. } => 1,
        CodelldbStep::Finished(_) => 0,
    }
}

/// The reply is one that the step waits for.
pub open spec fn codelldb_answers(step: CodelldbStep<Seq<char>>, reply: Reply) -> bool {
    match step {
        CodelldbStep::Requested { .. } => reply is Begin,
        CodelldbStep::FindOnPath => reply is Path,
        CodelldbStep::SearchExisting => reply is Directory,
        CodelldbStep::FetchRelease => reply is Release,
        CodelldbStep::CheckInstalled { .. } => reply is IsFile,
        CodelldbStep::Download { .. } => reply is Done,
        CodelldbStep::MakeExecutable { .. } => reply is Done,
        CodelldbStep::ListDirectory { .. } => reply is Done,
        CodelldbStep::NextEntry { .. } => reply is Entry,
        CodelldbStep::RemoveEntry { .. } => reply is Removed,
        CodelldbStep::Finished(_) => false,
    }
}

/// Every reply that a step waits for brings the search nearer to its end, but for the entries of
/// the working directory, which are taken one after the other until there is none left. A reply
/// that a step does not wait for changes nothing.
pub proof fn law_adapter_search_advances(step: CodelldbStep<Seq<char>>, reply: Reply)
    ensures
        !codelldb_answers(step, reply) ==> codelldb_next(step, reply) == step,
        codelldb_answers(step, reply) ==> {
            let next = codelldb_next(step, reply);
            match (step, reply) {
                (CodelldbStep::RemoveEntry { install }, _) => next == CodelldbStep::NextEntry {
                    install,
                },
                (CodelldbStep::NextEntry { install }, Reply::Entry(Some(_))) => {
                    ||| next == CodelldbStep::NextEntry { install }
                    ||| next == CodelldbStep::RemoveEntry { install }
                },
                _ => codelldb_rank(next) < codelldb_rank(step),
            }
        },
{
}

/// What was installed is found again: a directory of the installed version with the binary in it
/// counts as one of the adapter, and where it is the newest, the path found in it is the one that
/// was installed.
pub proof fn law_installed_adapter_is_found_again(
    release: GithubRelease,
    platform: Os,
    arch: Architecture,
    entries: Seq<DirectoryEntry>,
    i: int,
)
    requires
        codelldb_install(release, platform, arch) is Ok,
        0 <= i < entries.len(),
        entries[i].name.deep_view() == Some(
            codelldb_install(release, platform, arch)->Ok_0.version_dir,
        ),
        entries[i].is_dir,
        entries[i].has_binary,
    ensures
        is_codelldb_dir(entries[i]),
        newest_codelldb_dir(entries) == Some(i) ==> existing_codelldb(Some(entries), platform)
            == Some(codelldb_install(release, platform, arch)->Ok_0.binary_path),
{
    let dir = "codelldb-"@ + release.version@;
    assert(dir.subrange(0, "codelldb-"@.len() as int) =~= "codelldb-"@);
}

/// What is installed of a release is the archive for the platform, the first if there are several:
/// to the directory of the version, in which the adapter then is. Nothing is installed where there
/// is no adapter for the platform, or the release lacks its archive.
pub proof fn law_codelldb_of_platform_is_installed(
    release: GithubRelease,
    platform: Os,
    arch: Architecture,
)
    ensures
        ({
            let name = codelldb_asset_name(platform, arch)->0;
            let assets = release.assets@;
            let dir = "codelldb-"@ + release.version@;
            match codelldb_install(release, platform, arch) {
                Ok(install) => {
                    &&& codelldb_asset_name(platform, arch) is Some
                    &&& exists|k: int|
                        {
                            &&& 0 <= k < assets.len()
                            &&& (#[trigger] assets[k]).name@ == name
                            &&& assets[k].download_url@ == install.download_url
                            &&& forall|j: int| 0 <= j < k ==> (#[trigger] assets[j]).name@ != name
                        }
                    &&& install.version_dir == dir
                    &&& install.binary_path == match platform {
                        Os::Windows => dir + "\\extension\\adapter\\codelldb.exe"@,
                        Os::Mac | Os::Linux => dir + "/extension/adapter/codelldb"@,
                    }
                },
                Err(error) => if arch is X86 {
                    error == match platform {
                        Os::Mac => "Unsupported CodeLLDB platform: Os::Mac/Architecture::X86"@,
                        Os::Linux => "Unsupported CodeLLDB platform: Os::Linux/Architecture::X86"@,
                        Os::Windows =>
                            "Unsupported CodeLLDB platform: Os::Windows/Architecture::X86"@,
                    }
                } else {
                    &&& error == "No CodeLLDB asset found matching \""@ + name + "\""@
                    &&& forall|k: int|
                        0 <= k < assets.len() ==> (#[trigger] assets[k]).name@ != name
                },
            }
        }),
{
    law_asset_found(release.assets@, codelldb_asset_name(platform, arch)->0);
    lemma_codelldb_path("codelldb-"@ + release.version@, platform);
    reveal_strlit("Unsupported CodeLLDB platform: ");
    reveal_strlit("Os::Mac");
    reveal_strlit("Os::Linux");
    reveal_strlit("Os::Windows");
    reveal_strlit("/");
    reveal_strlit("Architecture::X86");
    reveal_strlit("Unsupported CodeLLDB platform: Os::Mac/Architecture::X86");
    reveal_strlit("Unsupported CodeLLDB platform: Os::Linux/Architecture::X86");
    reveal_strlit("Unsupported CodeLLDB platform: Os::Windows/Architecture::X86");
    let head = "Unsupported CodeLLDB platform: "@;
    let tail = "Architecture::X86"@;
    assert(head + "Os::Mac"@ + "/"@ + tail
        =~= "Unsupported CodeLLDB platform: Os::Mac/Architecture::X86"@);
    assert(head + "Os::Linux"@ + "/"@ + tail
        =~= "Unsupported CodeLLDB platform: Os::Linux/Architecture::X86"@);
    assert(head + "Os::Windows"@ + "/"@ + tail
        =~= "Unsupported CodeLLDB platform: Os::Windows/Architecture::X86"@);
}

/// The path of the adapter inside a directory, spelled out.
proof fn lemma_codelldb_path(dir: Seq<char>, platform: Os)
    ensures
        codelldb_path(dir, platform) == match platform {
            Os::Windows => dir + "\\extension\\adapter\\codelldb.exe"@,
            Os::Mac | Os::Linux => dir + "/extension/adapter/codelldb"@,
        },
{
    reveal_strlit("\\");
    reveal_strlit("/");
    reveal_strlit("extension");
    reveal_strlit("adapter");
    reveal_strlit("codelldb");
    reveal_strlit(".exe");
    reveal_strlit("");
    reveal_strlit("\\extension\\adapter\\codelldb.exe");
    reveal_strlit("/extension/adapter/codelldb");
    let windows = "\\"@ + "extension"@ + "\\"@ + "adapter"@ + "\\"@ + ("codelldb"@ + ".exe"@);
    let other = "/"@ + "extension"@ + "/"@ + "adapter"@ + "/"@ + ("codelldb"@ + ""@);
    assert(windows =~= "\\extension\\adapter\\codelldb.exe"@);
    assert(other =~= "/extension/adapter/codelldb"@);
    if platform == Os::Windows {
        assert(codelldb_path(dir, platform) =~= dir + windows);
    } else {
        assert(codelldb_path(dir, platform) =~= dir + other);
    }
}

/// A directory is one of the adapter exactly if its name begins with `codelldb-` and the binary is
/// in it.
pub proof fn law_codelldb_dir(entry: DirectoryEntry)
    ensures
        is_codelldb_dir(entry) <==> {
            &&& entry.name is Some
            &&& "codelldb-"@.is_prefix_of(entry.name->0@)
            &&& entry.is_dir
            &&& entry.has_binary
        },
{
}

/// The adapter that is there already is the one in the newest directory of the adapter, under the
/// name and with the separators of the platform; there is none where the working directory cannot
/// be listed, or holds no such directory.
pub proof fn law_existing_codelldb_is_newest(entries: Seq<DirectoryEntry>, platform: Os)
    ensures
        existing_codelldb(None, platform) is None,
        match existing_codelldb(Some(entries), platform) {
            Some(path) => exists|i: int|
                {
                    &&& 0 <= i < entries.len()
                    &&& is_codelldb_dir(#[trigger] entries[i])
                    &&& forall|j: int|
                        0 <= j < entries.len() && is_codelldb_dir(#[trigger] entries[j])
                            ==> entries[j].modified < entries[i].modified || (entries[j].modified
                            == entries[i].modified && i <= j)
                    &&& path == match platform {
                        Os::Windows => entries[i].name->0@
                            + "\\extension\\adapter\\codelldb.exe"@,
                        Os::Mac | Os::Linux => entries[i].name->0@
                            + "/extension/adapter/codelldb"@,
                    }
                },
            None => forall|j: int|
                0 <= j < entries.len() ==> !is_codelldb_dir(#[trigger] entries[j]),
        },
{
    law_newest_codelldb_dir(entries);
    if newest_codelldb_dir(entries) is Some {
        let i = newest_codelldb_dir(entries)->0;
        lemma_codelldb_path(entries[i].name->0@, platform);
        assert(is_codelldb_dir(entries[i]));
    }
}

/// The directory of another version of the adapter is stale, that of the installed one is not, and
/// neither is anything whose name does not begin with `codelldb-` or is no text.
pub proof fn law_stale_adapters(installed: Seq<char>, other: Seq<char>, name: Seq<char>)
    ensures
        is_stale_codelldb(Some("codelldb-"@ + other), "codelldb-"@ + installed) <==> other
            != installed,
        is_stale_codelldb(Some(name), "codelldb-"@ + installed) ==> "codelldb-"@.is_prefix_of(name),
        !is_stale_codelldb(None, "codelldb-"@ + installed),
{
    let prefix = "codelldb-"@.len() as int;
    assert(("codelldb-"@ + other).skip(prefix) =~= other);
    assert(("codelldb-"@ + installed).skip(prefix) =~= installed);
    assert(("codelldb-"@ + other).subrange(0, prefix) =~= "codelldb-"@);
}

/// The steps of an installation follow one another: the adapter is looked for; where it is, it is
/// used; where it is not, it is downloaded, made executable, and the working directory is listed
/// and cleaned up, entry by entry, to the last one. An entry that cannot be read is passed over.
pub proof fn law_adapter_installation_steps(
    install: Install<Seq<char>>,
    name: Option<String>,
    error: String,
)
    ensures
        ({
            let found = CodelldbStep::<Seq<char>>::Finished(Ok(install.binary_path));
            let done = Reply::Done(Ok(()));
            let next = CodelldbStep::NextEntry { install };
            &&& codelldb_next(CodelldbStep::CheckInstalled { install }, Reply::IsFile(true))
                == found
            &&& codelldb_next(CodelldbStep::CheckInstalled { install }, Reply::IsFile(false))
                == CodelldbStep::Download { install }
            &&& codelldb_next(CodelldbStep::Download { install }, done)
                == CodelldbStep::MakeExecutable { install }
            &&& codelldb_next(CodelldbStep::MakeExecutable { install }, done)
                == CodelldbStep::ListDirectory { install }
            &&& codelldb_next(CodelldbStep::ListDirectory { install }, done) == next
            &&& codelldb_next(next, Reply::Entry(Some(Err(error)))) == next
            &&& codelldb_next(next, Reply::Entry(Some(Ok(name)))) == if name is Some
                && "codelldb-"@.is_prefix_of(name->0@) && name->0@ != install.version_dir {
                CodelldbStep::RemoveEntry { install }
            } else {
                next
            }
            &&& codelldb_next(CodelldbStep::RemoveEntry { install }, Reply::Removed) == next
            &&& codelldb_next(next, Reply::Entry(None)) == found
        }),
{
}

/// Where something fails on the way, the search ends with a message that says what failed and why.
pub proof fn law_failed_adapter_search_says_why(
    install: Install<Seq<char>>,
    release: GithubRelease,
    platform: Os,
    arch: Architecture,
    error: String,
)
    ensures
        ({
            let failed = Reply::Done(Err(error));
            &&& codelldb_next(CodelldbStep::Download { install }, failed) == CodelldbStep::<
                Seq<char>,
            >::Finished(Err("failed to download CodeLLDB: "@ + error@))
            &&& codelldb_next(CodelldbStep::MakeExecutable { install }, failed) == CodelldbStep::<
                Seq<char>,
            >::Finished(Err("failed to mark CodeLLDB as executable: "@ + error@))
            &&& codelldb_next(CodelldbStep::ListDirectory { install }, failed) == CodelldbStep::<
                Seq<char>,
            >::Finished(Err("failed to list working directory: "@ + error@))
            &&& codelldb_next(
                CodelldbStep::FetchRelease,
                Reply::Release { release: Err(error), platform, arch },
            ) == CodelldbStep::<Seq<char>>::Finished(Err(error@))
            &&& codelldb_next(
                CodelldbStep::FetchRelease,
                Reply::Release { release: Ok(release), platform, arch },
            ) == match codelldb_install(release, platform, arch) {
                Ok(install) => CodelldbStep::CheckInstalled { install },
                Err(message) => CodelldbStep::Finished(Err(message)),
            }
        }),
{
}

} // verus!
