use odin_zed::extension::OdinExtension;

const HEAD: &str =
    "script import base64, types; odin = types.SimpleNamespace(); exec(base64.b64decode('";
const TAIL: &str =
    "').decode(), odin.__dict__); odin.__dict__['__lldb_init_module'](lldb.debugger, {})";

fn payload(script: &str) -> String {
    let command = OdinExtension::odin_formatter_command(script);
    assert!(command.starts_with(HEAD));
    assert!(command.ends_with(TAIL));
    command[HEAD.len()..command.len() - TAIL.len()].to_string()
}

#[test]
fn formatter_command_is_exact() {
    assert_eq!(
        OdinExtension::odin_formatter_command("foob"),
        "script import base64, types; odin = types.SimpleNamespace(); \
         exec(base64.b64decode('Zm9vYg==').decode(), odin.__dict__); \
         odin.__dict__['__lldb_init_module'](lldb.debugger, {})"
    );
}

#[test]
fn script_is_encoded_with_padding() {
    assert_eq!(payload(""), "");
    assert_eq!(payload("f"), "Zg==");
    assert_eq!(payload("fo"), "Zm8=");
    assert_eq!(payload("foo"), "Zm9v");
    assert_eq!(payload("foob"), "Zm9vYg==");
}

#[test]
fn script_bytes_are_its_utf8() {
    assert_eq!(payload("print('é')\n"), "cHJpbnQoJ8OpJykK");
}

#[test]
fn whole_alphabet_is_used() {
    // The two symbols that are neither letters nor digits.
    assert_eq!(payload("~~>"), "fn4+");
    assert_eq!(payload("~~?"), "fn4/");
    assert_eq!(payload("abcxyzABCXYZ0189"), "YWJjeHl6QUJDWFlaMDE4OQ==");
}

#[test]
fn payload_holds_no_quote_and_no_line_end() {
    let script = "import lldb\n\ndef f(s):\n    return 'quote\" and \\'quote'\n";
    let payload = payload(script);
    assert!(payload.chars().all(|c| c.is_ascii_alphanumeric() || c == '+' || c == '/' || c == '='));
    assert_eq!(payload.len(), (script.len() + 2) / 3 * 4);
}

#[test]
fn different_scripts_have_different_commands() {
    assert_ne!(
        OdinExtension::odin_formatter_command("a"),
        OdinExtension::odin_formatter_command("b")
    );
}
