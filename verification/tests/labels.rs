use odin_zed::extension::OdinExtension;
use odin_zed::labels::{
    CodeLabel, CodeLabelSpan, Completion, CompletionKind, Range, Symbol, SymbolKind,
};

fn complete(kind: CompletionKind, label: &str, detail: Option<&str>) -> Option<CodeLabel> {
    OdinExtension::new().label_for_completion(Completion {
        label: label.to_string(),
        detail: detail.map(|detail| detail.to_string()),
        kind: Some(kind),
    })
}

fn symbol(kind: SymbolKind, name: &str) -> Option<CodeLabel> {
    OdinExtension::new().label_for_symbol(Symbol {
        kind,
        name: name.to_string(),
    })
}

fn whole(code: &str, filter_len: u32) -> Option<CodeLabel> {
    Some(CodeLabel {
        code: code.to_string(),
        spans: vec![CodeLabelSpan::CodeRange(Range {
            start: 0,
            end: code.len() as u32,
        })],
        filter_range: Range {
            start: 0,
            end: filter_len,
        },
    })
}

fn part(code: &str, start: u32, filter_len: u32) -> Option<CodeLabel> {
    Some(CodeLabel {
        code: code.to_string(),
        spans: vec![CodeLabelSpan::CodeRange(Range {
            start,
            end: code.len() as u32,
        })],
        filter_range: Range {
            start: 0,
            end: filter_len,
        },
    })
}

#[test]
fn integer_types() {
    for name in [
        "int", "i8", "i16", "i32", "i64", "i128", "uint", "u8", "u16", "u32", "u64", "u128",
        "uintptr", "byte", "rune", "i16le", "i32le", "i64le", "i128le", "u16le", "u32le", "u64le",
        "u128le", "i16be", "i32be", "i64be", "i128be", "u16be", "u32be", "u64be", "u128be",
    ] {
        assert!(OdinExtension::is_integer_type(name), "{}", name);
    }
    for name in ["", "f32", "i8le", "u8be", "Int", "i16 ", "string", "ints"] {
        assert!(!OdinExtension::is_integer_type(name), "{}", name);
    }
}

#[test]
fn struct_completions() {
    assert_eq!(
        complete(CompletionKind::Struct, "Vec", None),
        whole("Vec :: struct", 3)
    );
    assert_eq!(
        complete(CompletionKind::Struct, "Vec", Some("[3]f32")),
        whole("Vec :: [3]f32", 3)
    );
    assert_eq!(
        complete(CompletionKind::Struct, "Id", Some("distinct int")),
        whole("Id :: distinct int", 2)
    );
    assert_eq!(
        complete(CompletionKind::Struct, "Id", Some("some distinct [")),
        whole("Id :: struct", 2)
    );
}

#[test]
fn enum_completions() {
    assert_eq!(
        complete(CompletionKind::Enum, "Value", Some("union { int, f32 }")),
        whole("Value :: union", 5)
    );
    assert_eq!(
        complete(CompletionKind::Enum, "Kind", Some("u8")),
        whole("Kind :: enum u8", 4)
    );
    assert_eq!(
        complete(CompletionKind::Enum, "Kind", Some("whatever")),
        whole("Kind :: enum", 4)
    );
    assert_eq!(
        complete(CompletionKind::Enum, "Kind", Some("reunion")),
        whole("Kind :: union", 4)
    );
    assert_eq!(
        complete(CompletionKind::Enum, "Kind", None),
        whole("Kind :: enum", 4)
    );
}

#[test]
fn value_completions() {
    assert_eq!(
        complete(CompletionKind::Variable, "x", Some("int")),
        whole("x: int", 1)
    );
    assert_eq!(complete(CompletionKind::Field, "x", None), whole("x: type", 1));
    assert_eq!(
        complete(CompletionKind::Constant, "PI", Some("3.14")),
        whole("PI :: 3.14", 2)
    );
    assert_eq!(
        complete(CompletionKind::Constant, "PI", None),
        whole("PI :: value", 2)
    );
}

#[test]
fn member_completions() {
    assert_eq!(
        complete(CompletionKind::EnumMember, "Red", Some("Color")),
        part(".Red", 1, 3)
    );
    assert_eq!(complete(CompletionKind::Property, "len", None), part(".len", 1, 3));
    assert_eq!(complete(CompletionKind::Module, "fmt", None), part("package fmt", 8, 3));
}

#[test]
fn keyword_completions() {
    assert_eq!(
        complete(CompletionKind::Keyword, "defer", None),
        Some(CodeLabel {
            code: "defer".to_string(),
            spans: vec![CodeLabelSpan::Literal {
                text: "defer".to_string(),
                highlight_name: Some("keyword".to_string()),
            }],
            filter_range: Range { start: 0, end: 5 },
        })
    );
}

#[test]
fn completions_without_label() {
    for kind in [
        CompletionKind::Text,
        CompletionKind::Method,
        CompletionKind::Function,
        CompletionKind::Class,
        CompletionKind::TypeParameter,
        CompletionKind::Other(7),
    ] {
        assert_eq!(complete(kind, "x", Some("int")), None);
    }
    assert_eq!(
        OdinExtension::new().label_for_completion(Completion {
            label: "x".to_string(),
            detail: None,
            kind: None,
        }),
        None
    );
}

#[test]
fn lengths_are_counted_in_bytes() {
    let label = complete(CompletionKind::EnumMember, "é€", None).unwrap();
    assert_eq!(label.code, ".é€");
    assert_eq!(
        label.spans,
        vec![CodeLabelSpan::CodeRange(Range { start: 1, end: 6 })]
    );
    assert_eq!(label.filter_range, Range { start: 0, end: 5 });
}

#[test]
fn filter_matches_the_label() {
    for (kind, detail) in [
        (CompletionKind::Struct, Some("[]int")),
        (CompletionKind::Enum, Some("union")),
        (CompletionKind::Field, None),
        (CompletionKind::Module, None),
        (CompletionKind::Keyword, None),
    ] {
        let label = complete(kind, "naïve", detail).unwrap();
        let shown: String = label
            .spans
            .iter()
            .map(|span| match span {
                CodeLabelSpan::CodeRange(range) => {
                    label.code[range.start as usize..range.end as usize].to_string()
                }
                CodeLabelSpan::Literal { text, .. } => text.clone(),
            })
            .collect();
        let range = label.filter_range;
        assert_eq!(&shown[range.start as usize..range.end as usize], "naïve");
    }
}

#[test]
fn symbols() {
    assert_eq!(symbol(SymbolKind::Function, "main"), whole("main :: proc", 4));
    assert_eq!(symbol(SymbolKind::Variable, "x"), whole("x: type", 1));
    assert_eq!(symbol(SymbolKind::Struct, "Vec"), whole("Vec :: struct", 3));
    assert_eq!(symbol(SymbolKind::Enum, "Kind"), whole("Kind :: enum", 4));
    assert_eq!(symbol(SymbolKind::Field, "x"), whole("x: type", 1));
    assert_eq!(symbol(SymbolKind::Module, "x"), None);
    assert_eq!(symbol(SymbolKind::Other(3), "x"), None);
}

#[test]
fn symbol_looks_like_completion_without_detail() {
    assert_eq!(
        symbol(SymbolKind::Struct, "Vec"),
        complete(CompletionKind::Struct, "Vec", None)
    );
    assert_eq!(
        symbol(SymbolKind::Enum, "Kind"),
        complete(CompletionKind::Enum, "Kind", None)
    );
    assert_eq!(
        symbol(SymbolKind::Field, "x"),
        complete(CompletionKind::Variable, "x", None)
    );
}

#[test]
fn labels_built_by_hand() {
    assert_eq!(
        Some(OdinExtension::create_label("ab cd".to_string(), 2)),
        whole("ab cd", 2)
    );
    assert_eq!(
        Some(OdinExtension::create_label_with_span("ab cd".to_string(), 3..5, 2)),
        part("ab cd", 3, 2)
    );
}
