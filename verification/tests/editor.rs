use odin_zed::extension::OdinExtension;
use odin_zed::labels::CodeLabelSpan;
use odin_zed::platform::{Architecture, Os};

#[test]
fn names_are_those_of_the_editor() {
    assert_eq!(Os::Mac.name(), format!("{:?}", zed_extension_api::Os::Mac));
    assert_eq!(Os::Linux.name(), format!("{:?}", zed_extension_api::Os::Linux));
    assert_eq!(Os::Windows.name(), format!("{:?}", zed_extension_api::Os::Windows));
    assert_eq!(
        Architecture::Aarch64.name(),
        format!("{:?}", zed_extension_api::Architecture::Aarch64)
    );
    assert_eq!(
        Architecture::X86.name(),
        format!("{:?}", zed_extension_api::Architecture::X86)
    );
    assert_eq!(
        Architecture::X8664.name(),
        format!("{:?}", zed_extension_api::Architecture::X8664)
    );
}

#[test]
fn ranges_are_those_of_the_editor() {
    for (start, end) in [(0, 0), (3, 17), (5, 0xffff_ffff), (1, 0x1_0000_0002usize)] {
        let label = OdinExtension::create_label_with_span(String::new(), start..end, end);
        let range = zed_extension_api::Range::from(start..end);
        match label.spans[0] {
            CodeLabelSpan::CodeRange(shown) => {
                assert_eq!((shown.start, shown.end), (range.start, range.end))
            }
            _ => panic!("{:?}", label),
        }
        assert_eq!(label.filter_range.end, range.end);
    }
}
