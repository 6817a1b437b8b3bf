use odin_zed::extension::OdinExtension;
use odin_zed::platform::{Architecture, Os};

#[test]
fn new_extension_keeps_nothing() {
    assert_eq!(OdinExtension::new().cached_binary_path, None);
}

#[test]
fn names_of_files() {
    assert_eq!(OdinExtension::exe_suffix(Os::Windows), ".exe");
    assert_eq!(OdinExtension::exe_suffix(Os::Linux), "");
    assert_eq!(OdinExtension::exe_suffix(Os::Mac), "");
    assert_eq!(OdinExtension::path_separator(Os::Windows), "\\");
    assert_eq!(OdinExtension::path_separator(Os::Linux), "/");
    assert_eq!(OdinExtension::codelldb_binary_name(Os::Windows), "codelldb.exe");
    assert_eq!(OdinExtension::codelldb_binary_name(Os::Mac), "codelldb");
}

#[test]
fn names_of_codelldb_assets() {
    let name = |os, arch| OdinExtension::codelldb_asset_name(os, arch);
    assert_eq!(
        name(Os::Mac, Architecture::Aarch64),
        Some("codelldb-darwin-arm64.vsix".to_string())
    );
    assert_eq!(
        name(Os::Linux, Architecture::X8664),
        Some("codelldb-linux-x64.vsix".to_string())
    );
    assert_eq!(
        name(Os::Windows, Architecture::X8664),
        Some("codelldb-win32-x64.vsix".to_string())
    );
    assert_eq!(name(Os::Windows, Architecture::X86), None);
}

#[test]
fn names_of_the_language_server() {
    let extension = OdinExtension::new();
    assert_eq!(
        extension.ols_binary_name(Os::Mac, Architecture::Aarch64),
        Some("ols-arm64-darwin".to_string())
    );
    assert_eq!(
        extension.ols_binary_name(Os::Linux, Architecture::X8664),
        Some("ols-x86_64-unknown-linux-gnu".to_string())
    );
    assert_eq!(
        extension.ols_executable_name(Os::Windows, Architecture::X8664),
        Some("ols-x86_64-pc-windows-msvc.exe".to_string())
    );
    assert_eq!(extension.ols_binary_name(Os::Linux, Architecture::X86), None);
    assert_eq!(extension.ols_executable_name(Os::Linux, Architecture::X86), None);
}

#[test]
fn names_in_messages() {
    assert_eq!(Os::Linux.name(), "Os::Linux");
    assert_eq!(Architecture::X86.name(), "Architecture::X86");
    assert_eq!(Architecture::X8664.name(), "Architecture::X8664");
}
