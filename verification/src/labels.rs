//! The labels that the editor shows for completions and symbols.
use crate::extension::OdinExtension;
use crate::text::{
    byte_len, contains, law_occurs_at, lemma_encode_concat, occurs_at, same_text, starts_with,
};
use vstd::prelude::*;
use vstd::string::*;
use vstd::utf8::*;

verus! {

/// The kind of a completion.
#[derive(Clone, Copy, Debug, PartialEq, Eq)]
pub enum CompletionKind {
    Text,
    Method,
    Function,
    Constructor,
    Field,
    Variable,
    Class,
    Interface,
    Module,
    Property,
    Unit,
    Value,
    Enum,
    Keyword,
    Snippet,
    Color,
    File,
    Reference,
    Folder,
    EnumMember,
    Constant,
    Struct,
    Event,
    Operator,
    TypeParameter,
    Other(i32),
}

/// A completion that the language server proposes.
#[derive(Debug, PartialEq, Eq)]
pub struct Completion {
    pub label: String,
    pub detail: Option<String>,
    pub kind: Option<CompletionKind>,
}

/// The kind of a symbol.
#[derive(Clone, Copy, Debug, PartialEq, Eq)]
pub enum SymbolKind {
    File,
    Module,
    Namespace,
    Package,
    Class,
    Method,
    Property,
    Field,
    Constructor,
    Enum,
    Interface,
    Function,
    Variable,
    Constant,
    String,
    Number,
    Boolean,
    Array,
    Object,
    Key,
    Null,
    EnumMember,
    Struct,
    Event,
    Operator,
    TypeParameter,
    Other(i32),
}

/// A symbol that the language server found.
#[derive(Debug, PartialEq, Eq)]
pub struct Symbol {
    pub kind: SymbolKind,
    pub name: String,
}

/// Bytes of a text, from the start up to but without the end.
#[derive(Clone, Copy, Debug, PartialEq, Eq)]
pub struct Range {
    pub start: u32,
    pub end: u32,
}

/// A piece of what a label shows.
#[derive(Debug, PartialEq, Eq)]
pub enum CodeLabelSpan<T = String> {
    /// A piece of the label's code.
    CodeRange(Range),
    /// A text of its own, and how it is highlighted.
    Literal { text: T, highlight_name: Option<T> },
}

/// A label: some code, what is shown of it, and which bytes of that are matched when the user
/// filters.
#[derive(Debug, PartialEq, Eq)]
pub struct CodeLabel {
    pub code: String,
    pub spans: Vec<CodeLabelSpan>,
    pub filter_range: Range,
}

/// A label over texts.
pub struct CodeLabelView {
    pub code: Seq<char>,
    pub spans: Seq<CodeLabelSpan<Seq<char>>>,
    pub filter_range: Range,
}

impl View for CodeLabelSpan {
    type V = CodeLabelSpan<Seq<char>>;

    open spec fn view(&self) -> CodeLabelSpan<Seq<char>> {
        match self {
            CodeLabelSpan::CodeRange(range) => CodeLabelSpan::CodeRange(*range),
            CodeLabelSpan::Literal { text, highlight_name } => CodeLabelSpan::Literal {
                text: text@,
                highlight_name: highlight_name.deep_view(),
            },
        }
    }
}

impl View for CodeLabel {
    type V = CodeLabelView;

    open spec fn view(&self) -> CodeLabelView {
        CodeLabelView {
            code: self.code@,
            spans: self.spans@.map_values(|span: CodeLabelSpan| span@),
            filter_range: self.filter_range,
        }
    }
}

/// A label, if there is one, over texts.
pub open spec fn label_view(label: Option<CodeLabel>) -> Option<CodeLabelView> {
    match label {
        Some(label) => Some(label@),
        None => None,
    }
}

/// The bytes from `start` to `end`, as far as the machine's and the editor's integers hold them.
pub open spec fn byte_range(start: nat, end: nat) -> Range {
    Range { start: start as usize as u32, end: end as usize as u32 }
}

/// A label that shows all of `code`, and whose first bytes, as many as `name` has, are matched.
pub open spec fn whole_label(code: Seq<char>, name: Seq<char>) -> CodeLabelView {
    CodeLabelView {
        code,
        spans: seq![CodeLabelSpan::CodeRange(byte_range(0, byte_len(code)))],
        filter_range: byte_range(0, byte_len(name)),
    }
}

/// A label that shows `name` as it stands in the code behind `prefix`.
pub open spec fn suffix_label(prefix: Seq<char>, name: Seq<char>) -> CodeLabelView {
    CodeLabelView {
        code: prefix + name,
        spans: seq![
            CodeLabelSpan::CodeRange(byte_range(byte_len(prefix), byte_len(prefix) + byte_len(name))),
        ],
        filter_range: byte_range(0, byte_len(name)),
    }
}

/// A label that shows `name` as a keyword.
pub open spec fn keyword_label(name: Seq<char>) -> CodeLabelView {
    CodeLabelView {
        code: name,
        spans: seq![CodeLabelSpan::Literal { text: name, highlight_name: Some("keyword"@) }],
        filter_range: byte_range(0, byte_len(name)),
    }
}

/// The name of an integer type of Odin.
pub open spec fn is_integer_type(name: Seq<char>) -> bool {
    // Signed integers
    ||| name == "int"@
    ||| name == "i8"@
    ||| name == "i16"@
    ||| name == "i32"@
    ||| name == "i64"@
    ||| name == "i128"@
    // Unsigned integers
    ||| name == "uint"@
    ||| name == "u8"@
    ||| name == "u16"@
    ||| name == "u32"@
    ||| name == "u64"@
    ||| name == "u128"@
    ||| name == "uintptr"@
    // Aliases
    ||| name == "byte"@
    ||| name == "rune"@
    // Little-endian integers
    ||| name == "i16le"@
    ||| name == "i32le"@
    ||| name == "i64le"@
    ||| name == "i128le"@
    ||| name == "u16le"@
    ||| name == "u32le"@
    ||| name == "u64le"@
    ||| name == "u128le"@
    // Big-endian integers
    ||| name == "i16be"@
    ||| name == "i32be"@
    ||| name == "i64be"@
    ||| name == "i128be"@
    ||| name == "u16be"@
    ||| name == "u32be"@
    ||| name == "u64be"@
    ||| name == "u128be"@
}

/// What stands behind the name of a struct.
pub open spec fn struct_text(detail: Option<Seq<char>>) -> Seq<char> {
    match detail {
        Some(detail) => if occurs_at(detail, "["@, 0) || occurs_at(detail, "distinct"@, 0) {
            detail
        } else {
            "struct"@
        },
        None => "struct"@,
    }
}

/// What stands behind the name of an enum. A union is one whose detail says so; another detail is
/// shown only where it is the type of the enum's members.
pub open spec fn enum_text(detail: Option<Seq<char>>) -> Seq<char> {
    match detail {
        Some(detail) => if exists|at: int| occurs_at(detail, "union"@, at) {
            "union"@
        } else if is_integer_type(detail) {
            "enum "@ + detail
        } else {
            "enum"@
        },
        None => "enum"@,
    }
}

/// The text, or `default` where there is none.
pub open spec fn text_or(text: Option<Seq<char>>, default: Seq<char>) -> Seq<char> {
    match text {
        Some(text) => text,
        None => default,
    }
}

/// The label of a completion, where its kind has one.
pub open spec fn completion_label(
    kind: Option<CompletionKind>,
    label: Seq<char>,
    detail: Option<Seq<char>>,
) -> Option<CodeLabelView> {
    match kind {
        Some(CompletionKind::Struct) => Some(
            whole_label(label + " :: "@ + struct_text(detail), label),
        ),
        Some(CompletionKind::Enum) => Some(whole_label(label + " :: "@ + enum_text(detail), label)),
        Some(CompletionKind::Variable) | Some(CompletionKind::Field) => Some(
            whole_label(label + ": "@ + text_or(detail, "type"@), label),
        ),
        Some(CompletionKind::Constant) => Some(
            whole_label(label + " :: "@ + text_or(detail, "value"@), label),
        ),
        Some(CompletionKind::EnumMember) | Some(CompletionKind::Property) => Some(
            suffix_label("."@, label),
        ),
        Some(CompletionKind::Keyword) => Some(keyword_label(label)),
        Some(CompletionKind::Module) => Some(suffix_label("package "@, label)),
        _ => None,
    }
}

/// The label of a symbol, where its kind has one.
pub open spec fn symbol_label(kind: SymbolKind, name: Seq<char>) -> Option<CodeLabelView> {
    match kind {
        SymbolKind::Function => Some(whole_label(name + " :: proc"@, name)),
        SymbolKind::Variable | SymbolKind::Field => Some(whole_label(name + ": type"@, name)),
        SymbolKind::Struct => Some(whole_label(name + " :: struct"@, name)),
        SymbolKind::Enum => Some(whole_label(name + " :: enum"@, name)),
        _ => None,
    }
}

/// The bytes from `start` to `end`.
fn range(start: usize, end: usize) -> (range: Range)
    ensures
        range == (Range { start: start as u32, end: end as u32 }),
{
    Range {
        start: #[verifier::truncate]
        (start as u32),
        end: #[verifier::truncate]
        (end as u32),
    }
}

impl OdinExtension {
    /// Tells whether a text is the name of an integer type of Odin.
    pub fn is_integer_type(type_str: &str) -> (found: bool)
        ensures
            found == is_integer_type(type_str@),
    {
        // Signed integers
        same_text(type_str, "int") || same_text(type_str, "i8") || same_text(type_str, "i16")
            || same_text(type_str, "i32") || same_text(type_str, "i64") || same_text(
            type_str,
            "i128",
        )
        // Unsigned integers
         || same_text(type_str, "uint") || same_text(type_str, "u8") || same_text(type_str, "u16")
            || same_text(type_str, "u32") || same_text(type_str, "u64") || same_text(
            type_str,
            "u128",
        ) || same_text(type_str, "uintptr")
        // Aliases
         || same_text(type_str, "byte") || same_text(type_str, "rune")
        // Little-endian integers
         || same_text(type_str, "i16le") || same_text(type_str, "i32le") || same_text(
            type_str,
            "i64le",
        ) || same_text(type_str, "i128le") || same_text(type_str, "u16le") || same_text(
            type_str,
            "u32le",
        ) || same_text(type_str, "u64le") || same_text(type_str, "u128le")
        // Big-endian integers
         || same_text(type_str, "i16be") || same_text(type_str, "i32be") || same_text(
            type_str,
            "i64be",
        ) || same_text(type_str, "i128be") || same_text(type_str, "u16be") || same_text(
            type_str,
            "u32be",
        ) || same_text(type_str, "u64be") || same_text(type_str, "u128be")
    }

    /// A label that shows all of `code`, and whose first `filter_len` bytes are matched.
    pub fn create_label(code: String, filter_len: usize) -> (label: CodeLabel)
        ensures
            label@ == (CodeLabelView {
                code: code@,
                spans: seq![CodeLabelSpan::CodeRange(byte_range(0, byte_len(code@)))],
                filter_range: byte_range(0, filter_len as nat),
            }),
    {
        let code_len: usize = code.as_str().len();
        Self::create_label_with_span(code, 0..code_len, filter_len)
    }

    /// A label that shows the bytes of `code` in `span_range`, the first `filter_len` of which
    /// are matched.
    pub fn create_label_with_span(
        code: String,
        span_range: std::ops::Range<usize>,
        filter_len: usize,
    ) -> (label: CodeLabel)
        ensures
            label@ == (CodeLabelView {
                code: code@,
                spans: seq![
                    CodeLabelSpan::CodeRange(
                        byte_range(span_range.start as nat, span_range.end as nat),
                    ),
                ],
                filter_range: byte_range(0, filter_len as nat),
            }),
    {
        let mut spans: Vec<CodeLabelSpan> = Vec::new();
        spans.push(CodeLabelSpan::CodeRange(range(span_range.start, span_range.end)));
        let label = CodeLabel { code, spans, filter_range: range(0, filter_len) };
        assert(label@.spans =~= seq![
            CodeLabelSpan::CodeRange(byte_range(span_range.start as nat, span_range.end as nat)),
        ]);
        label
    }

    /// A label that shows `name` as it stands in the code behind `prefix`.
    fn create_suffix_label(prefix: &str, name: &str) -> (label: CodeLabel)
        ensures
            label@ == suffix_label(prefix@, name@),
    {
        let code = prefix.to_owned().concat(name);
        let code_len: usize = code.as_str().len();
        proof {
            lemma_encode_concat(prefix@, name@);
        }
        Self::create_label_with_span(code, prefix.len()..code_len, name.len())
    }

    /// A label that shows `name` as a keyword.
    fn create_keyword_label(name: &str) -> (label: CodeLabel)
        ensures
            label@ == keyword_label(name@),
    {
        let mut spans: Vec<CodeLabelSpan> = Vec::new();
        spans.push(
            CodeLabelSpan::Literal {
                text: name.to_owned(),
                highlight_name: Some("keyword".to_owned()),
            },
        );
        let label = CodeLabel { code: name.to_owned(), spans, filter_range: range(0, name.len()) };
        assert(label@.spans =~= keyword_label(name@).spans);
        label
    }

    /// The label of a completion, where its kind has one.
    pub fn label_for_completion(&self, completion: Completion) -> (label: Option<CodeLabel>)
        ensures
            label_view(label) == completion_label(
                completion.kind,
                completion.label@,
                completion.detail.deep_view(),
            ),
    {
        let kind = match completion.kind {
            Some(kind) => kind,
            None => {
                return None;
            },
        };
        let label = completion.label.as_str();
        let filter_len: usize = label.len();
        match kind {
            CompletionKind::Struct => {
                let code = match &completion.detail {
                    Some(detail) if starts_with(detail.as_str(), "[") || starts_with(
                        detail.as_str(),
                        "distinct",
                    ) => label.to_owned().concat(" :: ").concat(detail.as_str()),
                    _ => label.to_owned().concat(" :: ").concat("struct"),
                };
                Some(Self::create_label(code, filter_len))
            },
            CompletionKind::Enum => {
                let code = match &completion.detail {
                    Some(detail) if contains(detail.as_str(), "union") => label.to_owned().concat(
                        " :: ",
                    ).concat("union"),
                    Some(detail) if Self::is_integer_type(detail.as_str()) => {
                        let members = "enum ".to_owned().concat(detail.as_str());
                        label.to_owned().concat(" :: ").concat(members.as_str())
                    },
                    _ => label.to_owned().concat(" :: ").concat("enum"),
                };
                Some(Self::create_label(code, filter_len))
            },
            CompletionKind::Variable | CompletionKind::Field => {
                let type_text = match &completion.detail {
                    Some(detail) => detail.as_str(),
                    None => "type",
                };
                Some(
                    Self::create_label(label.to_owned().concat(": ").concat(type_text), filter_len),
                )
            },
            CompletionKind::Constant => {
                let value = match &completion.detail {
                    Some(detail) => detail.as_str(),
                    None => "value",
                };
                Some(Self::create_label(label.to_owned().concat(" :: ").concat(value), filter_len))
            },
            CompletionKind::EnumMember | CompletionKind::Property => Some(
                Self::create_suffix_label(".", label),
            ),
            CompletionKind::Keyword => Some(Self::create_keyword_label(label)),
            CompletionKind::Module => Some(Self::create_suffix_label("package ", label)),
            _ => None,
        }
    }

    /// The label of a symbol, where its kind has one.
    pub fn label_for_symbol(&self, symbol: Symbol) -> (label: Option<CodeLabel>)
        ensures
            label_view(label) == symbol_label(symbol.kind, symbol.name@),
    {
        let name = symbol.name.as_str();
        let filter_len: usize = name.len();
        match symbol.kind {
            SymbolKind::Function => Some(
                Self::create_label(name.to_owned().concat(" :: proc"), filter_len),
            ),
            SymbolKind::Variable => Some(
                Self::create_label(name.to_owned().concat(": type"), filter_len),
            ),
            SymbolKind::Struct => Some(
                Self::create_label(name.to_owned().concat(" :: struct"), filter_len),
            ),
            SymbolKind::Enum => Some(
                Self::create_label(name.to_owned().concat(" :: enum"), filter_len),
            ),
            SymbolKind::Field => Some(
                Self::create_label(name.to_owned().concat(": type"), filter_len),
            ),
            _ => None,
        }
    }
}

/// The bytes that a piece of a label shows.
pub open spec fn shown_bytes(code: Seq<char>, span: CodeLabelSpan<Seq<char>>) -> Seq<u8> {
    match span {
        CodeLabelSpan::CodeRange(range) => encode_utf8(code).subrange(
            range.start as int,
            range.end as int,
        ),
        CodeLabelSpan::Literal { text, .. } => encode_utf8(text),
    }
}

/// The bytes that a label shows, up to the piece at `end`.
pub open spec fn label_bytes(label: CodeLabelView, end: nat) -> Seq<u8>
    decreases end,
{
    if end == 0 {
        seq![]
    } else {
        label_bytes(label, (end - 1) as nat) + shown_bytes(label.code, label.spans[end - 1])
    }
}

/// The bytes of the label that are matched when the user filters are those of `name`, and every
/// piece of the code that the label shows is there.
pub open spec fn is_filtered_by(label: CodeLabelView, name: Seq<char>) -> bool {
    let shown = label_bytes(label, label.spans.len());
    let range = label.filter_range;
    &&& range.start <= range.end <= shown.len()
    &&& shown.subrange(range.start as int, range.end as int) == encode_utf8(name)
    &&& forall|i: int|
        0 <= i < label.spans.len() ==> match #[trigger] label.spans[i] {
            CodeLabelSpan::CodeRange(range) => range.start <= range.end <= byte_len(label.code),
            CodeLabelSpan::Literal { .. } => true,
        }
}

/// A label that shows all of its code is filtered by the name that the code begins with.
proof fn lemma_whole_label(name: Seq<char>, rest: Seq<char>)
    requires
        byte_len(name + rest) <= u32::MAX,
    ensures
        is_filtered_by(whole_label(name + rest, name), name),
{
    reveal_with_fuel(label_bytes, 2);
    lemma_encode_concat(name, rest);
    let label = whole_label(name + rest, name);
    let shown = label_bytes(label, label.spans.len());
    assert(shown =~= encode_utf8(name + rest));
    assert(shown.subrange(0, byte_len(name) as int) =~= encode_utf8(name));
}

/// A label that shows the end of its code is filtered by what it shows.
proof fn lemma_suffix_label(prefix: Seq<char>, name: Seq<char>)
    requires
        byte_len(prefix + name) <= u32::MAX,
    ensures
        is_filtered_by(suffix_label(prefix, name), name),
{
    reveal_with_fuel(label_bytes, 2);
    lemma_encode_concat(prefix, name);
    let label = suffix_label(prefix, name);
    let shown = label_bytes(label, label.spans.len());
    assert(shown =~= encode_utf8(name));
    assert(shown.subrange(0, byte_len(name) as int) =~= encode_utf8(name));
}

/// What the user types is matched against the label of the completion, whatever the kind, as
/// long as the code of the label is no longer than the editor's integers can say.
pub proof fn law_completion_is_filtered_by_label(
    kind: Option<CompletionKind>,
    label: Seq<char>,
    detail: Option<Seq<char>>,
)
    requires
        completion_label(kind, label, detail) matches Some(shown) ==> byte_len(shown.code)
            <= u32::MAX,
    ensures
        completion_label(kind, label, detail) matches Some(shown) ==> is_filtered_by(shown, label),
{
    match kind {
        Some(CompletionKind::Struct) => {
            let rest = " :: "@ + struct_text(detail);
            assert(label + " :: "@ + struct_text(detail) =~= label + rest);
            lemma_whole_label(label, rest);
        },
        Some(CompletionKind::Enum) => {
            let rest = " :: "@ + enum_text(detail);
            assert(label + " :: "@ + enum_text(detail) =~= label + rest);
            lemma_whole_label(label, rest);
        },
        Some(CompletionKind::Variable) | Some(CompletionKind::Field) => {
            let rest = ": "@ + text_or(detail, "type"@);
            assert(label + ": "@ + text_or(detail, "type"@) =~= label + rest);
            lemma_whole_label(label, rest);
        },
        Some(CompletionKind::Constant) => {
            let rest = " :: "@ + text_or(detail, "value"@);
            assert(label + " :: "@ + text_or(detail, "value"@) =~= label + rest);
            lemma_whole_label(label, rest);
        },
        Some(CompletionKind::EnumMember) | Some(CompletionKind::Property) => {
            lemma_suffix_label("."@, label);
        },
        Some(CompletionKind::Keyword) => {
            reveal_with_fuel(label_bytes, 2);
            let shown = label_bytes(keyword_label(label), 1);
            assert(shown =~= encode_utf8(label));
            assert(shown.subrange(0, byte_len(label) as int) =~= encode_utf8(label));
        },
        Some(CompletionKind::Module) => {
            lemma_suffix_label("package "@, label);
        },
        _ => {},
    }
}

/// What the user types is matched against the name of the symbol, whatever the kind, as long as
/// the code of the label is no longer than the editor's integers can say.
pub proof fn law_symbol_is_filtered_by_name(kind: SymbolKind, name: Seq<char>)
    requires
        symbol_label(kind, name) matches Some(shown) ==> byte_len(shown.code) <= u32::MAX,
    ensures
        symbol_label(kind, name) matches Some(shown) ==> is_filtered_by(shown, name),
{
    match kind {
        SymbolKind::Function => lemma_whole_label(name, " :: proc"@),
        SymbolKind::Variable | SymbolKind::Field => lemma_whole_label(name, ": type"@),
        SymbolKind::Struct => lemma_whole_label(name, " :: struct"@),
        SymbolKind::Enum => lemma_whole_label(name, " :: enum"@),
        _ => {},
    }
}

/// A symbol has the label of a completion of its kind that comes without details.
pub proof fn law_symbol_is_completion_without_detail(name: Seq<char>)
    ensures
        symbol_label(SymbolKind::Struct, name) == completion_label(
            Some(CompletionKind::Struct),
            name,
            None,
        ),
        symbol_label(SymbolKind::Enum, name) == completion_label(
            Some(CompletionKind::Enum),
            name,
            None,
        ),
        symbol_label(SymbolKind::Variable, name) == completion_label(
            Some(CompletionKind::Variable),
            name,
            None,
        ),
        symbol_label(SymbolKind::Field, name) == completion_label(
            Some(CompletionKind::Field),
            name,
            None,
        ),
{
    reveal_strlit(" :: ");
    reveal_strlit(": ");
    reveal_strlit("struct");
    reveal_strlit("enum");
    reveal_strlit("type");
    reveal_strlit(" :: struct");
    reveal_strlit(" :: enum");
    reveal_strlit(": type");
    assert(name + " :: "@ + "struct"@ =~= name + " :: struct"@);
    assert(name + " :: "@ + "enum"@ =~= name + " :: enum"@);
    assert(name + ": "@ + "type"@ =~= name + ": type"@);
}

/// Bytes that the editor's integers can say are said as they are; others lose what is above 32
/// bits.
pub proof fn law_byte_range(start: usize, end: usize)
    ensures
        byte_range(start as nat, end as nat).start == start as int % 0x1_0000_0000,
        byte_range(start as nat, end as nat).end == end as int % 0x1_0000_0000,
{
    let first = start as u64;
    let last = end as u64;
    assert(first as u32 == first % 0x1_0000_0000) by (bit_vector);
    assert(last as u32 == last % 0x1_0000_0000) by (bit_vector);
}

/// The label shows all of its code as it stands, in one piece, and `name` is matched at its
/// beginning.
pub open spec fn shows_all(label: CodeLabelView, name: Seq<char>) -> bool {
    &&& label.spans.len() == 1
    &&& label.spans[0] == CodeLabelSpan::<Seq<char>>::CodeRange(
        byte_range(0, encode_utf8(label.code).len()),
    )
    &&& label.filter_range == byte_range(0, encode_utf8(name).len())
}

/// The label shows, in one piece, what stands in its code behind `prefix`, and that is `name`,
/// which is matched.
pub open spec fn shows_behind(label: CodeLabelView, prefix: Seq<char>, name: Seq<char>) -> bool {
    let hidden = encode_utf8(prefix).len();
    &&& label.code == prefix + name
    &&& label.spans.len() == 1
    &&& label.spans[0] == CodeLabelSpan::<Seq<char>>::CodeRange(
        byte_range(hidden, hidden + encode_utf8(name).len()),
    )
    &&& label.filter_range == byte_range(0, encode_utf8(name).len())
}

/// A variable or a field is labelled with its name and its type: the detail, wherever there is one.
/// The two kinds have the same labels.
pub proof fn law_typed_label(name: Seq<char>, detail: Seq<char>)
    ensures
        ({
            let variable = completion_label(Some(CompletionKind::Variable), name, Some(detail));
            let field = completion_label(Some(CompletionKind::Field), name, Some(detail));
            &&& variable is Some
            &&& variable == field
            &&& variable->0.code == name + ": "@ + detail
            &&& detail.is_suffix_of(field->0.code)
            &&& shows_all(variable->0, name)
        }),
        completion_label(Some(CompletionKind::Variable), name, None) == completion_label(
            Some(CompletionKind::Variable),
            name,
            Some("type"@),
        ),
        completion_label(Some(CompletionKind::Field), name, None) == completion_label(
            Some(CompletionKind::Field),
            name,
            Some("type"@),
        ),
{
    let code = name + ": "@ + detail;
    assert(code.subrange(code.len() - detail.len(), code.len() as int) =~= detail);
}

/// A constant is labelled with its name and its value: the detail, wherever there is one.
pub proof fn law_constant_label(name: Seq<char>, detail: Seq<char>)
    ensures
        ({
            let constant = completion_label(Some(CompletionKind::Constant), name, Some(detail));
            &&& constant is Some
            &&& constant->0.code == name + " :: "@ + detail
            &&& shows_all(constant->0, name)
        }),
        completion_label(Some(CompletionKind::Constant), name, None) == completion_label(
            Some(CompletionKind::Constant),
            name,
            Some("value"@),
        ),
{
}

/// A struct is labelled as a constant is whose value is `struct`, unless its detail begins with a
/// bracket or with `distinct`: then as one whose value is the detail.
pub proof fn law_struct_label(name: Seq<char>, detail: Option<Seq<char>>)
    ensures
        ({
            let tells = detail is Some && (detail->0.len() > 0 && detail->0[0] == '['
                || "distinct"@.is_prefix_of(detail->0));
            completion_label(Some(CompletionKind::Struct), name, detail) == completion_label(
                Some(CompletionKind::Constant),
                name,
                if tells {
                    detail
                } else {
                    Some("struct"@)
                },
            )
        }),
{
    reveal_strlit("[");
    if detail is Some {
        let text = detail->0;
        if text.len() > 0 {
            assert(text.subrange(0, 1)[0] == text[0]);
            if text[0] == '[' {
                assert(text.subrange(0, 1) =~= "["@);
            }
        }
    }
}

/// An enum is labelled as a constant is whose value is `union`, where the detail speaks of a union
/// anywhere; else `enum` with the type of its members, where the detail is an integer type; else
/// `enum`.
pub proof fn law_enum_label(name: Seq<char>, before: Seq<char>, after: Seq<char>, detail: Seq<char>)
    ensures
        ({
            let kind = Some(CompletionKind::Enum);
            let constant = Some(CompletionKind::Constant);
            let union = completion_label(constant, name, Some("union"@));
            let members = completion_label(constant, name, Some("enum "@ + detail));
            let plain = completion_label(constant, name, Some("enum"@));
            let label = completion_label(kind, name, Some(detail));
            let is_union = exists|a: Seq<char>, b: Seq<char>|
                detail == #[trigger] a.add("union"@).add(b);
            &&& completion_label(kind, name, Some(before + "union"@ + after)) == union
            &&& completion_label(kind, name, None) == plain
            &&& is_union ==> label == union
            &&& !is_union && is_integer_type(detail) ==> label == members
            &&& !is_union && !is_integer_type(detail) ==> label == plain
        }),
{
    let text = before + "union"@ + after;
    law_occurs_at(text, "union"@, before.len() as int);
    assert(text == before.add("union"@).add(after));
    assert(occurs_at(text, "union"@, before.len() as int));
    assert((exists|a: Seq<char>, b: Seq<char>| detail == #[trigger] a.add("union"@).add(b)) == (
    exists|at: int| occurs_at(detail, "union"@, at))) by {
        if exists|a: Seq<char>, b: Seq<char>| detail == #[trigger] a.add("union"@).add(b) {
            let (a, b) = choose|a: Seq<char>, b: Seq<char>|
                detail == #[trigger] a.add("union"@).add(b);
            law_occurs_at(detail, "union"@, a.len() as int);
            assert(occurs_at(detail, "union"@, a.len() as int));
        }
        if exists|at: int| occurs_at(detail, "union"@, at) {
            let at = choose|at: int| occurs_at(detail, "union"@, at);
            law_occurs_at(detail, "union"@, at);
        }
    }
}

/// A member of an enum, a property and a package are written with what they need before them, of
/// which the label shows the name alone, whatever the detail.
pub proof fn law_prefixed_label(name: Seq<char>, detail: Option<Seq<char>>)
    ensures
        ({
            let member = completion_label(Some(CompletionKind::EnumMember), name, detail);
            let property = completion_label(Some(CompletionKind::Property), name, detail);
            let package = completion_label(Some(CompletionKind::Module), name, detail);
            &&& member matches Some(label) && shows_behind(label, "."@, name)
            &&& property == member
            &&& package matches Some(label) && shows_behind(label, "package "@, name)
        }),
{
}

/// A keyword is shown as it is, in one piece of its own that is highlighted as a keyword, whatever
/// the detail.
pub proof fn law_keyword_label(name: Seq<char>, detail: Option<Seq<char>>)
    ensures
        completion_label(Some(CompletionKind::Keyword), name, detail) matches Some(label) && {
            &&& label.code == name
            &&& label.spans.len() == 1
            &&& label.spans[0] == CodeLabelSpan::Literal {
                text: name,
                highlight_name: Some("keyword"@),
            }
            &&& label.filter_range == byte_range(0, encode_utf8(name).len())
        },
{
}

/// Which completions have a label depends on the kind alone; one without a kind has none.
pub proof fn law_labelled_completions(
    kind: Option<CompletionKind>,
    name: Seq<char>,
    detail: Option<Seq<char>>,
)
    ensures
        completion_label(kind, name, detail) is Some <==> match kind {
            None => false,
            Some(kind) => {
                ||| kind is Struct || kind is Enum || kind is Constant
                ||| kind is Variable || kind is Field
                ||| kind is EnumMember || kind is Property
                ||| kind is Keyword || kind is Module
            },
        },
{
}

/// A procedure is labelled as a constant is whose value is `proc`.
pub proof fn law_procedure_label(name: Seq<char>)
    ensures
        symbol_label(SymbolKind::Function, name) == completion_label(
            Some(CompletionKind::Constant),
            name,
            Some("proc"@),
        ),
{
    reveal_strlit(" :: ");
    reveal_strlit("proc");
    reveal_strlit(" :: proc");
    assert(name + " :: "@ + "proc"@ =~= name + " :: proc"@);
}

/// Which symbols have a label depends on the kind alone.
pub proof fn law_labelled_symbols(kind: SymbolKind, name: Seq<char>)
    ensures
        symbol_label(kind, name) is Some <==> kind is Function || kind is Variable || kind is Struct
            || kind is Enum || kind is Field,
{
}

/// The number of bits of an integer type, as its name says it.
pub open spec fn is_width(width: Seq<char>) -> bool {
    width == "8"@ || width == "16"@ || width == "32"@ || width == "64"@ || width == "128"@
}

/// The order of the bytes of an integer type, as its name says it: little-endian, big-endian, or
/// that of the machine.
pub open spec fn is_byte_order(order: Seq<char>) -> bool {
    order == ""@ || order == "le"@ || order == "be"@
}

/// What a name says of an integer type with a fixed number of bits: whether it is signed, how many
/// bits it has, and in which order its bytes stand.
pub open spec fn sized_integer_name(signed: bool, width: Seq<char>, order: Seq<char>) -> Seq<char> {
    (if signed {
        "i"@
    } else {
        "u"@
    }) + width + order
}

/// The integer types are those of a fixed number of bits, signed and unsigned, in every order of
/// bytes where there is more than one byte; those of the machine's own size; and the two aliases.
pub proof fn law_integer_types(name: Seq<char>)
    ensures
        is_integer_type(name) <==> {
            ||| name == "int"@ || name == "uint"@ || name == "uintptr"@
            ||| name == "byte"@ || name == "rune"@
            ||| exists|signed: bool, width: Seq<char>, order: Seq<char>|
                name == #[trigger] sized_integer_name(signed, width, order) && is_width(width)
                    && is_byte_order(order) && (width == "8"@ ==> order == ""@)
        },
{
    lemma_integer_names();
    lemma_integer_texts_differ();
    if exists|signed: bool, width: Seq<char>, order: Seq<char>|
        name == #[trigger] sized_integer_name(signed, width, order) && is_width(width)
            && is_byte_order(order) && (width == "8"@ ==> order == ""@) {
        let (signed, width, order) = choose|signed: bool, width: Seq<char>, order: Seq<char>|
            name == #[trigger] sized_integer_name(signed, width, order) && is_width(width)
                && is_byte_order(order) && (width == "8"@ ==> order == ""@);
        assert(is_integer_type(name));
    }
}

/// The parts of the names of integer types are different texts.
proof fn lemma_integer_texts_differ()
    ensures
        "8"@ != "16"@,
        "8"@ != "32"@,
        "8"@ != "64"@,
        "8"@ != "128"@,
{
    reveal_strlit("8");
    reveal_strlit("16");
    reveal_strlit("32");
    reveal_strlit("64");
    reveal_strlit("128");
    assert("8"@.len() == 1 && "16"@.len() == 2 && "32"@.len() == 2 && "64"@.len() == 2);
    assert("128"@.len() == 3);
}

/// The names of the integer types with a fixed number of bits, spelled out.
proof fn lemma_integer_names()
    ensures
        sized_integer_name(true, "8"@, ""@) == "i8"@,
        sized_integer_name(true, "16"@, ""@) == "i16"@,
        sized_integer_name(true, "16"@, "le"@) == "i16le"@,
        sized_integer_name(true, "16"@, "be"@) == "i16be"@,
        sized_integer_name(true, "32"@, ""@) == "i32"@,
        sized_integer_name(true, "32"@, "le"@) == "i32le"@,
        sized_integer_name(true, "32"@, "be"@) == "i32be"@,
        sized_integer_name(true, "64"@, ""@) == "i64"@,
        sized_integer_name(true, "64"@, "le"@) == "i64le"@,
        sized_integer_name(true, "64"@, "be"@) == "i64be"@,
        sized_integer_name(true, "128"@, ""@) == "i128"@,
        sized_integer_name(true, "128"@, "le"@) == "i128le"@,
        sized_integer_name(true, "128"@, "be"@) == "i128be"@,
        sized_integer_name(false, "8"@, ""@) == "u8"@,
        sized_integer_name(false, "16"@, ""@) == "u16"@,
        sized_integer_name(false, "16"@, "le"@) == "u16le"@,
        sized_integer_name(false, "16"@, "be"@) == "u16be"@,
        sized_integer_name(false, "32"@, ""@) == "u32"@,
        sized_integer_name(false, "32"@, "le"@) == "u32le"@,
        sized_integer_name(false, "32"@, "be"@) == "u32be"@,
        sized_integer_name(false, "64"@, ""@) == "u64"@,
        sized_integer_name(false, "64"@, "le"@) == "u64le"@,
        sized_integer_name(false, "64"@, "be"@) == "u64be"@,
        sized_integer_name(false, "128"@, ""@) == "u128"@,
        sized_integer_name(false, "128"@, "le"@) == "u128le"@,
        sized_integer_name(false, "128"@, "be"@) == "u128be"@,
{
    reveal_strlit("i");
    reveal_strlit("u");
    reveal_strlit("8");
    reveal_strlit("16");
    reveal_strlit("32");
    reveal_strlit("64");
    reveal_strlit("128");
    reveal_strlit("");
    reveal_strlit("le");
    reveal_strlit("be");
    reveal_strlit("i8");
    reveal_strlit("i16");
    reveal_strlit("i16le");
    reveal_strlit("i16be");
    reveal_strlit("i32");
    reveal_strlit("i32le");
    reveal_strlit("i32be");
    reveal_strlit("i64");
    reveal_strlit("i64le");
    reveal_strlit("i64be");
    reveal_strlit("i128");
    reveal_strlit("i128le");
    reveal_strlit("i128be");
    reveal_strlit("u8");
    reveal_strlit("u16");
    reveal_strlit("u16le");
    reveal_strlit("u16be");
    reveal_strlit("u32");
    reveal_strlit("u32le");
    reveal_strlit("u32be");
    reveal_strlit("u64");
    reveal_strlit("u64le");
    reveal_strlit("u64be");
    reveal_strlit("u128");
    reveal_strlit("u128le");
    reveal_strlit("u128be");
    assert(sized_integer_name(true, "8"@, ""@) =~= "i8"@);
    assert(sized_integer_name(true, "16"@, ""@) =~= "i16"@);
    assert(sized_integer_name(true, "16"@, "le"@) =~= "i16le"@);
    assert(sized_integer_name(true, "16"@, "be"@) =~= "i16be"@);
    assert(sized_integer_name(true, "32"@, ""@) =~= "i32"@);
    assert(sized_integer_name(true, "32"@, "le"@) =~= "i32le"@);
    assert(sized_integer_name(true, "32"@, "be"@) =~= "i32be"@);
    assert(sized_integer_name(true, "64"@, ""@) =~= "i64"@);
    assert(sized_integer_name(true, "64"@, "le"@) =~= "i64le"@);
    assert(sized_integer_name(true, "64"@, "be"@) =~= "i64be"@);
    assert(sized_integer_name(true, "128"@, ""@) =~= "i128"@);
    assert(sized_integer_name(true, "128"@, "le"@) =~= "i128le"@);
    assert(sized_integer_name(true, "128"@, "be"@) =~= "i128be"@);
    assert(sized_integer_name(false, "8"@, ""@) =~= "u8"@);
    assert(sized_integer_name(false, "16"@, ""@) =~= "u16"@);
    assert(sized_integer_name(false, "16"@, "le"@) =~= "u16le"@);
    assert(sized_integer_name(false, "16"@, "be"@) =~= "u16be"@);
    assert(sized_integer_name(false, "32"@, ""@) =~= "u32"@);
    assert(sized_integer_name(false, "32"@, "le"@) =~= "u32le"@);
    assert(sized_integer_name(false, "32"@, "be"@) =~= "u32be"@);
    assert(sized_integer_name(false, "64"@, ""@) =~= "u64"@);
    assert(sized_integer_name(false, "64"@, "le"@) =~= "u64le"@);
    assert(sized_integer_name(false, "64"@, "be"@) =~= "u64be"@);
    assert(sized_integer_name(false, "128"@, ""@) =~= "u128"@);
    assert(sized_integer_name(false, "128"@, "le"@) =~= "u128le"@);
    assert(sized_integer_name(false, "128"@, "be"@) =~= "u128be"@);
}

} // verus!
