//! The LLDB command that registers the formatters for Odin types.
use crate::extension::OdinExtension;
use base64::Engine as _;
use vstd::prelude::*;
use vstd::string::*;
use vstd::utf8::*;

verus! {

/// The character that stands for six bits in the standard Base64 alphabet.
pub open spec fn base64_symbol(bits: int) -> char {
    if bits < 26 {
        (65 + bits) as char  // A to Z
    } else if bits < 52 {
        (97 + bits - 26) as char  // a to z
    } else if bits < 62 {
        (48 + bits - 52) as char  // 0 to 9
    } else if bits == 62 {
        '+'
    } else {
        '/'
    }
}

/// The Base64 text of `bytes`: four characters for three bytes, and `=` in place of what the
/// last group lacks.
pub open spec fn base64_text(bytes: Seq<u8>) -> Seq<char>
    decreases bytes.len(),
{
    if bytes.len() == 0 {
        seq![]
    } else {
        let a = bytes[0] as int;
        let b = if bytes.len() > 1 { bytes[1] as int } else { 0 };
        let c = if bytes.len() > 2 { bytes[2] as int } else { 0 };
        let group = seq![
            base64_symbol(a / 4),
            base64_symbol(a % 4 * 16 + b / 16),
            if bytes.len() > 1 { base64_symbol(b % 16 * 4 + c / 64) } else { '=' },
            if bytes.len() > 2 { base64_symbol(c % 64) } else { '=' },
        ];
        if bytes.len() <= 3 {
            group
        } else {
            group + base64_text(bytes.skip(3))
        }
    }
}

/// The six bits that a character of the Base64 alphabet stands for.
pub open spec fn base64_bits(symbol: char) -> int {
    if 'A' <= symbol <= 'Z' {
        symbol as int - 65
    } else if 'a' <= symbol <= 'z' {
        symbol as int - 97 + 26
    } else if '0' <= symbol <= '9' {
        symbol as int - 48 + 52
    } else if symbol == '+' {
        62
    } else {
        63
    }
}

/// The bytes that a Base64 text stands for.
pub open spec fn base64_bytes(text: Seq<char>) -> Seq<u8>
    decreases text.len(),
{
    if text.len() < 4 {
        seq![]
    } else {
        let a = base64_bits(text[0]);
        let b = base64_bits(text[1]);
        let c = base64_bits(text[2]);
        let d = base64_bits(text[3]);
        let first = (a * 4 + b / 16) as u8;
        if text[2] == '=' {
            seq![first]
        } else if text[3] == '=' {
            seq![first, (b % 16 * 16 + c / 4) as u8]
        } else {
            seq![first, (b % 16 * 16 + c / 4) as u8, (c % 4 * 64 + d) as u8] + base64_bytes(
                text.skip(4),
            )
        }
    }
}

/// The character is one that a Base64 text may hold: neither a quote nor the end of a line.
pub open spec fn is_base64_char(c: char) -> bool {
    'A' <= c <= 'Z' || 'a' <= c <= 'z' || '0' <= c <= '9' || c == '+' || c == '/' || c == '='
}

/// What stands before the encoded script in the formatter command.
pub open spec fn formatter_head() -> Seq<char> {
    "script import base64, types; odin = types.SimpleNamespace(); exec(base64.b64decode('"@
}

/// What stands behind the encoded script in the formatter command.
pub open spec fn formatter_tail() -> Seq<char> {
    "').decode(), odin.__dict__); odin.__dict__['__lldb_init_module'](lldb.debugger, {})"@
}

/// The LLDB command that runs `script` and registers what it defines.
pub open spec fn formatter_command(script: Seq<char>) -> Seq<char> {
    formatter_head() + base64_text(encode_utf8(script)) + formatter_tail()
}

/// `Engine::encode` of the engine `base64::engine::general_purpose::STANDARD`, on the bytes of a
/// text: their Base64 text in the standard alphabet, with padding.
#[verifier::external_body]
fn encode_base64(text: &str) -> (encoded: String)
    ensures
        encoded@ == base64_text(encode_utf8(text@)),
{
    base64::engine::general_purpose::STANDARD.encode(text)
}

impl OdinExtension {
    /// The LLDB command that runs the formatter script `odin_script` and registers what it
    /// defines.
    pub fn odin_formatter_command(odin_script: &str) -> (command: String)
        ensures
            command@ == formatter_command(odin_script@),
    {
        "script import base64, types; odin = types.SimpleNamespace(); exec(base64.b64decode('".to_owned().concat(
            encode_base64(odin_script).as_str(),
        ).concat(
            "').decode(), odin.__dict__); odin.__dict__['__lldb_init_module'](lldb.debugger, {})",
        )
    }
}

/// Six bits can be told from the character that stands for them.
proof fn lemma_symbol(bits: int)
    requires
        0 <= bits < 64,
    ensures
        base64_bits(base64_symbol(bits)) == bits,
        is_base64_char(base64_symbol(bits)),
        base64_symbol(bits) != '=',
{
}

/// Decoding the Base64 text of some bytes gives the bytes back.
pub proof fn law_base64_decodes(bytes: Seq<u8>)
    ensures
        base64_bytes(base64_text(bytes)) == bytes,
    decreases bytes.len(),
{
    if bytes.len() > 0 {
        let text = base64_text(bytes);
        let a = bytes[0] as int;
        let b = if bytes.len() > 1 { bytes[1] as int } else { 0 };
        let c = if bytes.len() > 2 { bytes[2] as int } else { 0 };
        lemma_symbol(a / 4);
        lemma_symbol(a % 4 * 16 + b / 16);
        lemma_symbol(b % 16 * 4 + c / 64);
        lemma_symbol(c % 64);
        if bytes.len() >= 3 {
            if bytes.len() == 3 {
                assert(text.skip(4) =~= seq![]);
                assert(base64_bytes(text.skip(4)) =~= bytes.skip(3));
            } else {
                assert(text.skip(4) =~= base64_text(bytes.skip(3)));
                law_base64_decodes(bytes.skip(3));
            }
            assert(base64_bytes(text) =~= seq![bytes[0], bytes[1], bytes[2]] + bytes.skip(3));
        }
        assert(base64_bytes(text) =~= bytes);
    }
}

/// A Base64 text is made of the characters of its alphabet alone, and has four of them for every
/// three bytes, rounded up.
pub proof fn law_base64_shape(bytes: Seq<u8>)
    ensures
        base64_text(bytes).len() == (bytes.len() + 2) / 3 * 4,
        forall|i: int| 0 <= i < base64_text(bytes).len() ==> is_base64_char(
            #[trigger] base64_text(bytes)[i],
        ),
    decreases bytes.len(),
{
    if bytes.len() > 0 {
        let a = bytes[0] as int;
        let b = if bytes.len() > 1 { bytes[1] as int } else { 0 };
        let c = if bytes.len() > 2 { bytes[2] as int } else { 0 };
        lemma_symbol(a / 4);
        lemma_symbol(a % 4 * 16 + b / 16);
        lemma_symbol(b % 16 * 4 + c / 64);
        lemma_symbol(c % 64);
        if bytes.len() > 3 {
            law_base64_shape(bytes.skip(3));
        }
    }
}

/// The command carries the script whole: what stands between its head and its tail decodes to
/// the script's bytes, and no character of it can end the quoted string or the line.
pub proof fn law_command_carries_script(script: Seq<char>)
    ensures
        ({
            let command = formatter_command(script);
            let payload = command.subrange(
                formatter_head().len() as int,
                command.len() - formatter_tail().len(),
            );
            &&& command == formatter_head() + payload + formatter_tail()
            &&& base64_bytes(payload) == encode_utf8(script)
            &&& forall|i: int| 0 <= i < payload.len() ==> is_base64_char(#[trigger] payload[i])
        }),
{
    let command = formatter_command(script);
    let payload = command.subrange(
        formatter_head().len() as int,
        command.len() - formatter_tail().len(),
    );
    assert(payload =~= base64_text(encode_utf8(script)));
    law_base64_decodes(encode_utf8(script));
    law_base64_shape(encode_utf8(script));
}

/// Two scripts have the same command only if they are the same script.
pub proof fn law_command_tells_scripts_apart(a: Seq<char>, b: Seq<char>)
    requires
        formatter_command(a) == formatter_command(b),
    ensures
        a == b,
{
    law_command_carries_script(a);
    law_command_carries_script(b);
    encode_utf8_decode_utf8(a);
    encode_utf8_decode_utf8(b);
}

/// The symbols of the Base64 alphabet are the capital letters, the small letters and the digits,
/// each in their order, and then `+` and `/`.
pub proof fn law_base64_alphabet(bits: int)
    requires
        0 <= bits < 64,
    ensures
        bits == 0 ==> base64_symbol(bits) == 'A',
        bits == 26 ==> base64_symbol(bits) == 'a',
        bits == 52 ==> base64_symbol(bits) == '0',
        bits == 62 ==> base64_symbol(bits) == '+',
        bits == 63 ==> base64_symbol(bits) == '/',
        0 < bits < 62 && bits != 26 && bits != 52 ==> base64_symbol(bits) as int
            == base64_symbol(bits - 1) as int + 1,
{
}

/// The four times six bits of a number of 24 bits, told from its three bytes.
proof fn lemma_sextets(a: int, b: int, c: int)
    requires
        0 <= a < 256,
        0 <= b < 256,
        0 <= c < 256,
    ensures
        (a * 65536 + b * 256 + c) / 262144 == a / 4,
        (a * 65536 + b * 256 + c) / 4096 % 64 == a % 4 * 16 + b / 16,
        (a * 65536 + b * 256 + c) / 64 % 64 == b % 16 * 4 + c / 64,
        (a * 65536 + b * 256 + c) % 64 == c % 64,
{
    let number = a * 65536 + b * 256 + c;
    assert(number == a / 4 * 262144 + (a % 4 * 65536 + b * 256 + c));
    assert(number / 4096 == a * 16 + b / 16) by {
        assert(number == (a * 16 + b / 16) * 4096 + (b % 16 * 256 + c));
    }
    assert(number / 4096 == a / 4 * 64 + (a % 4 * 16 + b / 16));
    assert(number / 64 == a * 1024 + b * 4 + c / 64) by {
        assert(number == (a * 1024 + b * 4 + c / 64) * 64 + c % 64);
    }
    assert(number / 64 == (a * 16 + b / 16) * 64 + (b % 16 * 4 + c / 64));
}

/// Three bytes are one number of 24 bits, which four symbols stand for, six bits each, the highest
/// first; then come the symbols for what follows.
pub proof fn law_base64_group(a: u8, b: u8, c: u8, rest: Seq<u8>)
    ensures
        ({
            let number = a * 65536 + b * 256 + c;
            let text = base64_text(seq![a, b, c] + rest);
            &&& text.len() >= 4
            &&& text[0] == base64_symbol(number / 262144)
            &&& text[1] == base64_symbol(number / 4096 % 64)
            &&& text[2] == base64_symbol(number / 64 % 64)
            &&& text[3] == base64_symbol(number % 64)
            &&& text.skip(4) == base64_text(rest)
        }),
{
    let bytes = seq![a, b, c] + rest;
    assert(bytes[0] == a && bytes[1] == b && bytes[2] == c);
    assert(bytes.skip(3) =~= rest);
    lemma_sextets(a as int, b as int, c as int);
    assert(base64_text(bytes).skip(4) =~= base64_text(rest));
}

/// Where the last group lacks bytes, it is written as if they were zero, with `=` for the symbols
/// that would stand for nothing else. No bytes are written as nothing.
pub proof fn law_base64_padding(a: u8, b: u8)
    ensures
        base64_text(seq![a, b]) == base64_text(seq![a, b, 0]).update(3, '='),
        base64_text(seq![a]) == base64_text(seq![a, 0, 0]).update(2, '=').update(3, '='),
        base64_text(seq![]).len() == 0,
{
    assert(base64_text(seq![a, b]) =~= base64_text(seq![a, b, 0]).update(3, '='));
    assert(base64_text(seq![a]) =~= base64_text(seq![a, 0, 0]).update(2, '=').update(3, '='));
}

/// The command is one line of Python for LLDB: it decodes the script, runs it in a namespace of its
/// own and lets it register its formatters.
pub proof fn law_command_decodes_and_runs(script: Seq<char>)
    ensures
        ({
            let command = formatter_command(script);
            let head =
                "script import base64, types; odin = types.SimpleNamespace(); exec(base64.b64decode('"@;
            let tail =
                "').decode(), odin.__dict__); odin.__dict__['__lldb_init_module'](lldb.debugger, {})"@;
            &&& command.len() >= head.len() + tail.len()
            &&& head.is_prefix_of(command)
            &&& tail.is_suffix_of(command)
            &&& base64_bytes(command.subrange(head.len() as int, command.len() - tail.len()))
                == encode_utf8(script)
        }),
{
    law_command_carries_script(script);
}

} // verus!
