//! What the searches for a binary have in common: releases, directories, installations.
use crate::platform::{Architecture, Os};
use crate::settings::LspSettings;
use vstd::prelude::*;
use vstd::string::*;

verus! {

/// Whether a release has to have assets to count as the latest one.
pub const REQUIRE_ASSETS: bool = true;

/// Whether a pre-release may count as the latest release.
pub const PRE_RELEASE: bool = false;

/// A file that belongs to a release.
#[derive(Debug, PartialEq, Eq)]
pub struct GithubReleaseAsset {
    pub name: String,
    pub download_url: String,
}

/// A release.
#[derive(Debug, PartialEq, Eq)]
pub struct GithubRelease {
    pub version: String,
    pub assets: Vec<GithubReleaseAsset>,
}

/// What is known of an entry of the working directory.
#[derive(Debug, PartialEq, Eq)]
pub struct DirectoryEntry {
    /// The entry's name, if it is valid text.
    pub name: Option<String>,
    /// Whether the entry is a directory.
    pub is_dir: bool,
    /// Whether the binary that is searched for is a file inside it.
    pub has_binary: bool,
    /// When that binary was last changed, in nanoseconds since the Unix epoch; 0 if that is not
    /// known.
    pub modified: i128,
}

/// What installs a version of a binary.
#[derive(Debug, PartialEq, Eq)]
pub struct Install<T = String> {
    /// Where the archive is.
    pub download_url: T,
    /// The directory that the archive is unpacked to.
    pub version_dir: T,
    /// Where the binary then is.
    pub binary_path: T,
}

impl View for Install {
    type V = Install<Seq<char>>;

    open spec fn view(&self) -> Install<Seq<char>> {
        Install {
            download_url: self.download_url@,
            version_dir: self.version_dir@,
            binary_path: self.binary_path@,
        }
    }
}

/// What installs a binary, or why it cannot be installed, over texts.
pub open spec fn install_view(plan: Result<Install, String>) -> Result<
    Install<Seq<char>>,
    Seq<char>,
> {
    match plan {
        Ok(install) => Ok(install@),
        Err(error) => Err(error@),
    }
}

/// What came out of a step of a search.
#[derive(Debug)]
pub enum Reply {
    /// There was nothing to do.
    Begin,
    /// The settings of the language server, if they could be read.
    Settings(Option<LspSettings>),
    /// The path of the binary of that name that the system knows, if any.
    Path(Option<String>),
    /// Whether there is a file at the path.
    IsFile(bool),
    /// The latest release, or why there is none, and the platform that this runs on.
    Release { release: Result<GithubRelease, String>, platform: Os, arch: Architecture },
    /// The entries of the working directory, if it could be listed, and the platform that this
    /// runs on.
    Directory { entries: Option<Vec<DirectoryEntry>>, platform: Os, arch: Architecture },
    /// The step is done, or failed.
    Done(Result<(), String>),
    /// The next entry of the working directory, if there is one: its name, if it is valid text,
    /// or why the entry could not be read.
    Entry(Option<Result<Option<String>, String>>),
    /// The entry has been removed, as far as it could be.
    Removed,
}

/// Where the first of `assets` with that name is to be had.
pub open spec fn asset_url(assets: Seq<GithubReleaseAsset>, name: Seq<char>) -> Option<Seq<char>>
    decreases assets.len(),
{
    if assets.len() == 0 {
        None
    } else if assets[0].name@ == name {
        Some(assets[0].download_url@)
    } else {
        asset_url(assets.skip(1), name)
    }
}

/// Where the first of `assets` with that name is to be had.
pub fn find_asset(assets: &Vec<GithubReleaseAsset>, name: &String) -> (url: Option<String>)
    ensures
        url.deep_view() == asset_url(assets@, name@),
{
    let mut i: usize = 0;
    assert(assets@.skip(0) =~= assets@);
    while i < assets.len()
        invariant
            i <= assets@.len(),
            asset_url(assets@, name@) == asset_url(assets@.skip(i as int), name@),
        decreases assets@.len() - i,
    {
        if assets[i].name == *name {
            return Some(assets[i].download_url.clone());
        }
        assert(assets@.skip(i as int).skip(1) =~= assets@.skip(i + 1));
        i += 1;
    }
    None
}

/// The release offers a file of that name if and only if a place to get it is found, and that is
/// the place of such a file.
pub proof fn law_asset_found(assets: Seq<GithubReleaseAsset>, name: Seq<char>)
    ensures
        asset_url(assets, name) is Some <==> exists|i: int|
            0 <= i < assets.len() && (#[trigger] assets[i]).name@ == name,
        asset_url(assets, name) matches Some(url) ==> exists|i: int|
            {
                &&& 0 <= i < assets.len()
                &&& (#[trigger] assets[i]).name@ == name
                &&& assets[i].download_url@ == url
                &&& forall|j: int| 0 <= j < i ==> (#[trigger] assets[j]).name@ != name
            },
    decreases assets.len(),
{
    if assets.len() > 0 {
        if assets[0].name@ != name {
            let rest = assets.skip(1);
            law_asset_found(rest, name);
            if asset_url(rest, name) is Some {
                let k = choose|i: int|
                    {
                        &&& 0 <= i < rest.len()
                        &&& (#[trigger] rest[i]).name@ == name
                        &&& rest[i].download_url@ == asset_url(rest, name)->0
                        &&& forall|j: int| 0 <= j < i ==> (#[trigger] rest[j]).name@ != name
                    };
                assert(assets[k + 1] == rest[k]);
                assert forall|j: int| 0 <= j < k + 1 implies (#[trigger] assets[j]).name@
                    != name by {
                    if j > 0 {
                        assert(rest[j - 1] == assets[j]);
                    }
                }
            } else {
                assert forall|i: int| 0 <= i < assets.len() implies (#[trigger] assets[i]).name@
                    != name by {
                    if i > 0 {
                        assert(rest[i - 1] == assets[i]);
                    }
                }
            }
        } else {
            assert(assets[0].name@ == name);
        }
    }
}

} // verus!
