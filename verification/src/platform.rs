//! How binaries, paths and release assets are named on each platform.
use crate::extension::OdinExtension;
use vstd::prelude::*;
use vstd::string::*;

verus! {

/// An operating system.
#[derive(Clone, Copy, Debug, PartialEq, Eq, Structural)]
pub enum Os {
    Mac,
    Linux,
    Windows,
}

/// A processor architecture.
#[derive(Clone, Copy, Debug, PartialEq, Eq, Structural)]
pub enum Architecture {
    Aarch64,
    X86,
    X8664,
}

impl Os {
    /// The name under which error messages show the operating system.
    pub open spec fn spec_name(self) -> Seq<char> {
        match self {
            Os::Mac => "Os::Mac"@,
            Os::Linux => "Os::Linux"@,
            Os::Windows => "Os::Windows"@,
        }
    }

    /// The name under which error messages show the operating system.
    pub fn name(self) -> (name: &'static str)
        ensures
            name@ == self.spec_name(),
    {
        match self {
            Os::Mac => "Os::Mac",
            Os::Linux => "Os::Linux",
            Os::Windows => "Os::Windows",
        }
    }
}

impl Architecture {
    /// The name under which error messages show the architecture.
    pub open spec fn spec_name(self) -> Seq<char> {
        match self {
            Architecture::Aarch64 => "Architecture::Aarch64"@,
            Architecture::X86 => "Architecture::X86"@,
            Architecture::X8664 => "Architecture::X8664"@,
        }
    }

    /// The name under which error messages show the architecture.
    pub fn name(self) -> (name: &'static str)
        ensures
            name@ == self.spec_name(),
    {
        match self {
            Architecture::Aarch64 => "Architecture::Aarch64",
            Architecture::X86 => "Architecture::X86",
            Architecture::X8664 => "Architecture::X8664",
        }
    }
}

/// What the file name of an executable ends with.
pub open spec fn exe_suffix(platform: Os) -> Seq<char> {
    if platform == Os::Windows {
        ".exe"@
    } else {
        ""@
    }
}

/// What stands between the parts of a path.
pub open spec fn path_separator(platform: Os) -> Seq<char> {
    if platform == Os::Windows {
        "\\"@
    } else {
        "/"@
    }
}

/// The file name of the CodeLLDB adapter.
pub open spec fn codelldb_binary_name(platform: Os) -> Seq<char> {
    "codelldb"@ + exe_suffix(platform)
}

/// The release asset that holds the CodeLLDB adapter; there is none for 32-bit x86.
pub open spec fn codelldb_asset_name(platform: Os, arch: Architecture) -> Option<Seq<char>> {
    if arch == Architecture::X86 {
        None
    } else {
        let os = match platform {
            Os::Mac => "darwin"@,
            Os::Linux => "linux"@,
            Os::Windows => "win32"@,
        };
        let cpu = if arch == Architecture::Aarch64 {
            "arm64"@
        } else {
            "x64"@
        };
        Some("codelldb-"@ + os + "-"@ + cpu + ".vsix"@)
    }
}

/// The name of the language server binary without the executable's suffix; there is none for
/// 32-bit x86.
pub open spec fn ols_binary_name(platform: Os, arch: Architecture) -> Option<Seq<char>> {
    if arch == Architecture::X86 {
        None
    } else {
        let cpu = if arch == Architecture::Aarch64 {
            "arm64"@
        } else {
            "x86_64"@
        };
        let os = match platform {
            Os::Mac => "darwin"@,
            Os::Linux => "unknown-linux-gnu"@,
            Os::Windows => "pc-windows-msvc"@,
        };
        Some("ols-"@ + cpu + "-"@ + os)
    }
}

impl OdinExtension {
    /// What the file name of an executable ends with.
    pub fn exe_suffix(platform: Os) -> (suffix: &'static str)
        ensures
            suffix@ == exe_suffix(platform),
    {
        match platform {
            Os::Windows => ".exe",
            _ => "",
        }
    }

    /// What stands between the parts of a path.
    pub fn path_separator(platform: Os) -> (separator: &'static str)
        ensures
            separator@ == path_separator(platform),
    {
        match platform {
            Os::Windows => "\\",
            _ => "/",
        }
    }

    /// The file name of the CodeLLDB adapter.
    pub fn codelldb_binary_name(platform: Os) -> (name: &'static str)
        ensures
            name@ == codelldb_binary_name(platform),
    {
        proof {
            reveal_strlit("codelldb");
            reveal_strlit("codelldb.exe");
            reveal_strlit(".exe");
            reveal_strlit("");
            assert("codelldb.exe"@ =~= "codelldb"@ + ".exe"@);
            assert("codelldb"@ =~= "codelldb"@ + ""@);
        }
        match platform {
            Os::Windows => "codelldb.exe",
            _ => "codelldb",
        }
    }

    /// The release asset that holds the CodeLLDB adapter, where there is one.
    pub fn codelldb_asset_name(platform: Os, arch: Architecture) -> (name: Option<String>)
        ensures
            name.deep_view() == codelldb_asset_name(platform, arch),
    {
        let cpu = match arch {
            Architecture::Aarch64 => "arm64",
            Architecture::X8664 => "x64",
            Architecture::X86 => {
                return None;
            },
        };
        let os = match platform {
            Os::Mac => "darwin",
            Os::Linux => "linux",
            Os::Windows => "win32",
        };
        Some("codelldb-".to_owned().concat(os).concat("-").concat(cpu).concat(".vsix"))
    }

    /// The name of the language server binary without the executable's suffix, where there is one.
    pub fn ols_binary_name(&self, platform: Os, arch: Architecture) -> (name: Option<String>)
        ensures
            name.deep_view() == ols_binary_name(platform, arch),
    {
        let cpu = match arch {
            Architecture::Aarch64 => "arm64",
            Architecture::X8664 => "x86_64",
            Architecture::X86 => {
                return None;
            },
        };
        let os = match platform {
            Os::Mac => "darwin",
            Os::Linux => "unknown-linux-gnu",
            Os::Windows => "pc-windows-msvc",
        };
        Some("ols-".to_owned().concat(cpu).concat("-").concat(os))
    }
}

/// An executable is marked by a suffix, and the parts of a path are put together with a backslash,
/// on Windows; on every other system an executable has no suffix, and the parts of a path are put
/// together with a slash.
pub proof fn law_windows_alone_is_different(platform: Os)
    ensures
        exe_suffix(platform) == ".exe"@ <==> platform is Windows,
        exe_suffix(platform).len() == 0 <==> !(platform is Windows),
        path_separator(platform) == "\\"@ <==> platform is Windows,
        path_separator(platform) == "/"@ <==> !(platform is Windows),
{
    reveal_strlit(".exe");
    reveal_strlit("");
    reveal_strlit("\\");
    reveal_strlit("/");
    assert(".exe"@.len() == 4);
    assert("\\"@[0] != "/"@[0]);
}

/// The name of an operating system in a message is that of the system alone.
pub proof fn law_os_is_told_by_name(platform: Os)
    ensures
        platform.spec_name() == "Os::Mac"@ <==> platform is Mac,
        platform.spec_name() == "Os::Linux"@ <==> platform is Linux,
        platform.spec_name() == "Os::Windows"@ <==> platform is Windows,
{
    reveal_strlit("Os::Mac");
    reveal_strlit("Os::Linux");
    reveal_strlit("Os::Windows");
    assert("Os::Mac"@.len() == 7 && "Os::Linux"@.len() == 9 && "Os::Windows"@.len() == 11);
}

/// The name of an architecture in a message is that of the architecture alone.
pub proof fn law_architecture_is_told_by_name(arch: Architecture)
    ensures
        arch.spec_name() == "Architecture::Aarch64"@ <==> arch is Aarch64,
        arch.spec_name() == "Architecture::X86"@ <==> arch is X86,
        arch.spec_name() == "Architecture::X8664"@ <==> arch is X8664,
{
    reveal_strlit("Architecture::Aarch64");
    reveal_strlit("Architecture::X86");
    reveal_strlit("Architecture::X8664");
    assert("Architecture::Aarch64"@.len() == 21);
    assert("Architecture::X86"@.len() == 17 && "Architecture::X8664"@.len() == 19);
}

/// There is a language server for every system and every architecture but 32-bit x86, and from its
/// name both can be told.
pub proof fn law_ols_binary_name_tells_platform(platform: Os, arch: Architecture)
    ensures
        ols_binary_name(platform, arch) is None <==> arch is X86,
        ols_binary_name(platform, arch) == Some("ols-arm64-darwin"@) <==> platform is Mac
            && arch is Aarch64,
        ols_binary_name(platform, arch) == Some("ols-x86_64-darwin"@) <==> platform is Mac
            && arch is X8664,
        ols_binary_name(platform, arch) == Some("ols-arm64-unknown-linux-gnu"@) <==> platform
            is Linux && arch is Aarch64,
        ols_binary_name(platform, arch) == Some("ols-x86_64-unknown-linux-gnu"@) <==> platform
            is Linux && arch is X8664,
        ols_binary_name(platform, arch) == Some("ols-arm64-pc-windows-msvc"@) <==> platform
            is Windows && arch is Aarch64,
        ols_binary_name(platform, arch) == Some("ols-x86_64-pc-windows-msvc"@) <==> platform
            is Windows && arch is X8664,
{
    reveal_strlit("ols-");
    reveal_strlit("arm64");
    reveal_strlit("x86_64");
    reveal_strlit("-");
    reveal_strlit("darwin");
    reveal_strlit("unknown-linux-gnu");
    reveal_strlit("pc-windows-msvc");
    reveal_strlit("ols-arm64-darwin");
    reveal_strlit("ols-x86_64-darwin");
    reveal_strlit("ols-arm64-unknown-linux-gnu");
    reveal_strlit("ols-x86_64-unknown-linux-gnu");
    reveal_strlit("ols-arm64-pc-windows-msvc");
    reveal_strlit("ols-x86_64-pc-windows-msvc");
    let arm = "ols-"@ + "arm64"@ + "-"@;
    let x86 = "ols-"@ + "x86_64"@ + "-"@;
    assert(arm + "darwin"@ =~= "ols-arm64-darwin"@);
    assert(x86 + "darwin"@ =~= "ols-x86_64-darwin"@);
    assert(arm + "unknown-linux-gnu"@ =~= "ols-arm64-unknown-linux-gnu"@);
    assert(x86 + "unknown-linux-gnu"@ =~= "ols-x86_64-unknown-linux-gnu"@);
    assert(arm + "pc-windows-msvc"@ =~= "ols-arm64-pc-windows-msvc"@);
    assert(x86 + "pc-windows-msvc"@ =~= "ols-x86_64-pc-windows-msvc"@);
    // No two of the names are equally long.
    assert("ols-arm64-darwin"@.len() == 16 && "ols-x86_64-darwin"@.len() == 17);
    assert("ols-arm64-pc-windows-msvc"@.len() == 25);
    assert("ols-x86_64-pc-windows-msvc"@.len() == 26);
    assert("ols-arm64-unknown-linux-gnu"@.len() == 27);
    assert("ols-x86_64-unknown-linux-gnu"@.len() == 28);
}

/// On every system, the name of the language server for 64-bit Arm begins with `ols-arm64-` and
/// the one for 64-bit x86 with `ols-x86_64-`, and what follows is the same in both.
pub proof fn law_ols_binary_name_begins_with_architecture(platform: Os)
    ensures
        ({
            let arm = ols_binary_name(platform, Architecture::Aarch64)->0;
            let x86 = ols_binary_name(platform, Architecture::X8664)->0;
            &&& ols_binary_name(platform, Architecture::Aarch64) is Some
            &&& ols_binary_name(platform, Architecture::X8664) is Some
            &&& "ols-arm64-"@.is_prefix_of(arm)
            &&& "ols-x86_64-"@.is_prefix_of(x86)
            &&& arm.skip("ols-arm64-"@.len() as int) == x86.skip("ols-x86_64-"@.len() as int)
        }),
{
    reveal_strlit("ols-");
    reveal_strlit("arm64");
    reveal_strlit("x86_64");
    reveal_strlit("-");
    reveal_strlit("ols-arm64-");
    reveal_strlit("ols-x86_64-");
    assert("ols-"@ + "arm64"@ + "-"@ =~= "ols-arm64-"@);
    assert("ols-"@ + "x86_64"@ + "-"@ =~= "ols-x86_64-"@);
    let arm = ols_binary_name(platform, Architecture::Aarch64)->0;
    let x86 = ols_binary_name(platform, Architecture::X8664)->0;
    let rest = arm.skip("ols-arm64-"@.len() as int);
    assert(arm =~= "ols-arm64-"@ + rest);
    assert(x86 =~= "ols-x86_64-"@ + rest);
    assert(x86.skip("ols-x86_64-"@.len() as int) =~= rest);
}

/// Two platforms have the same language server only if they are the same platform.
pub proof fn law_ols_binaries_differ(a: Os, a_arch: Architecture, b: Os, b_arch: Architecture)
    requires
        ols_binary_name(a, a_arch) is Some,
        ols_binary_name(a, a_arch) == ols_binary_name(b, b_arch),
    ensures
        a == b,
        a_arch == b_arch,
{
    law_ols_binary_name_tells_platform(a, a_arch);
    law_ols_binary_name_tells_platform(b, b_arch);
}

/// There is a debug adapter for every system and every architecture but 32-bit x86, and from the
/// name of its archive both can be told.
pub proof fn law_codelldb_asset_name_tells_platform(platform: Os, arch: Architecture)
    ensures
        codelldb_asset_name(platform, arch) is None <==> arch is X86,
        codelldb_asset_name(platform, arch) == Some("codelldb-darwin-arm64.vsix"@) <==> platform
            is Mac && arch is Aarch64,
        codelldb_asset_name(platform, arch) == Some("codelldb-darwin-x64.vsix"@) <==> platform
            is Mac && arch is X8664,
        codelldb_asset_name(platform, arch) == Some("codelldb-linux-arm64.vsix"@) <==> platform
            is Linux && arch is Aarch64,
        codelldb_asset_name(platform, arch) == Some("codelldb-linux-x64.vsix"@) <==> platform
            is Linux && arch is X8664,
        codelldb_asset_name(platform, arch) == Some("codelldb-win32-arm64.vsix"@) <==> platform
            is Windows && arch is Aarch64,
        codelldb_asset_name(platform, arch) == Some("codelldb-win32-x64.vsix"@) <==> platform
            is Windows && arch is X8664,
{
    reveal_strlit("codelldb-");
    reveal_strlit("darwin");
    reveal_strlit("linux");
    reveal_strlit("win32");
    reveal_strlit("-");
    reveal_strlit("arm64");
    reveal_strlit("x64");
    reveal_strlit(".vsix");
    reveal_strlit("codelldb-darwin-arm64.vsix");
    reveal_strlit("codelldb-darwin-x64.vsix");
    reveal_strlit("codelldb-linux-arm64.vsix");
    reveal_strlit("codelldb-linux-x64.vsix");
    reveal_strlit("codelldb-win32-arm64.vsix");
    reveal_strlit("codelldb-win32-x64.vsix");
    let mac = "codelldb-"@ + "darwin"@ + "-"@;
    let linux = "codelldb-"@ + "linux"@ + "-"@;
    let windows = "codelldb-"@ + "win32"@ + "-"@;
    assert(mac + "arm64"@ + ".vsix"@ =~= "codelldb-darwin-arm64.vsix"@);
    assert(mac + "x64"@ + ".vsix"@ =~= "codelldb-darwin-x64.vsix"@);
    assert(linux + "arm64"@ + ".vsix"@ =~= "codelldb-linux-arm64.vsix"@);
    assert(linux + "x64"@ + ".vsix"@ =~= "codelldb-linux-x64.vsix"@);
    assert(windows + "arm64"@ + ".vsix"@ =~= "codelldb-win32-arm64.vsix"@);
    assert(windows + "x64"@ + ".vsix"@ =~= "codelldb-win32-x64.vsix"@);
    // The names differ in their length, or in the first letter of the system.
    assert("codelldb-darwin-arm64.vsix"@.len() == 26 && "codelldb-darwin-x64.vsix"@.len() == 24);
    assert("codelldb-linux-arm64.vsix"@.len() == 25 && "codelldb-linux-x64.vsix"@.len() == 23);
    assert("codelldb-win32-arm64.vsix"@.len() == 25 && "codelldb-win32-x64.vsix"@.len() == 23);
    assert("codelldb-linux-arm64.vsix"@[9] != "codelldb-win32-arm64.vsix"@[9]);
    assert("codelldb-linux-x64.vsix"@[9] != "codelldb-win32-x64.vsix"@[9]);
}

/// Two platforms have the same archive of the debug adapter only if they are the same platform.
pub proof fn law_codelldb_assets_differ(a: Os, a_arch: Architecture, b: Os, b_arch: Architecture)
    requires
        codelldb_asset_name(a, a_arch) is Some,
        codelldb_asset_name(a, a_arch) == codelldb_asset_name(b, b_arch),
    ensures
        a == b,
        a_arch == b_arch,
{
    law_codelldb_asset_name_tells_platform(a, a_arch);
    law_codelldb_asset_name_tells_platform(b, b_arch);
}

/// The file name of the debug adapter is `codelldb.exe` on Windows and `codelldb` elsewhere.
pub proof fn law_codelldb_binary_name(platform: Os)
    ensures
        codelldb_binary_name(platform) == "codelldb.exe"@ <==> platform is Windows,
        codelldb_binary_name(platform) == "codelldb"@ <==> !(platform is Windows),
{
    reveal_strlit("codelldb");
    reveal_strlit("codelldb.exe");
    reveal_strlit(".exe");
    reveal_strlit("");
    assert("codelldb"@ + ".exe"@ =~= "codelldb.exe"@);
    assert("codelldb"@ + ""@ =~= "codelldb"@);
    assert("codelldb"@.len() == 8 && "codelldb.exe"@.len() == 12);
}

} // verus!
