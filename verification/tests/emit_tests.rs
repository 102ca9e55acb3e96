use contract_glue::emit::{emit_glue, emit_text};
use contract_glue::model::{ContractDefinition, MethodDescriptor, ParamShape, TypeShape};

const ENTRY: &str = "pub fn ";
const DELIVER: &str = "deliver(result);";

fn path(segments: &[&str]) -> TypeShape {
    TypeShape::Path {
        segments: segments.iter().map(|s| s.to_string()).collect(),
        args: vec![],
    }
}

fn optional_payload() -> TypeShape {
    TypeShape::Path {
        segments: vec!["Option".to_string()],
        args: vec![path(&["Payload"])],
    }
}

fn init_method() -> MethodDescriptor {
    MethodDescriptor {
        name: "init".to_string(),
        params: vec![ParamShape::Plain {
            ty: TypeShape::Reference { mutable: true, elem: Box::new(path(&["Parameters"])) },
        }],
        ret: Some(TypeShape::Tuple { elems: vec![path(&["Self"]), optional_payload()] }),
    }
}

fn regular_method(name: &str) -> MethodDescriptor {
    MethodDescriptor {
        name: name.to_string(),
        params: vec![
            ParamShape::Receiver { by_ref: true, mutable: true },
            ParamShape::Plain {
                ty: TypeShape::Reference { mutable: true, elem: Box::new(path(&["Parameters"])) },
            },
        ],
        ret: Some(optional_payload()),
    }
}

fn token_contract() -> ContractDefinition {
    ContractDefinition {
        type_identifier: "Token".to_string(),
        methods: vec![init_method(), regular_method("transfer")],
    }
}

fn expected_lifecycle(ident: &str) -> String {
    format!(
        "thread_local! {{\n    static SMART_CONTRACT_INSTANCE: ::std::cell::RefCell<{ident}> = {{\n        let (contract, payload) = {ident}::init(&mut Parameters::load());\n\n        if let Some(result) = payload {{\n            {DELIVER}\n        }}\n\n        ::std::cell::RefCell::new(contract)\n    }};\n}}\n"
    )
}

fn expected_trampoline(name: &str) -> String {
    format!(
        "\n#[no_mangle]\n{ENTRY}_contract_{name}() {{\n    SMART_CONTRACT_INSTANCE.with(|smart_contract| {{\n        if let Some(result) = smart_contract.borrow_mut().{name}(&mut Parameters::load()) {{\n            {DELIVER}\n        }}\n    }});\n}}\n"
    )
}

#[test]
fn one_trampoline_per_regular_method() {
    let def = ContractDefinition {
        type_identifier: "Token".to_string(),
        methods: vec![init_method(), regular_method("transfer"), regular_method("balance")],
    };
    let glue = emit_glue(&def, ENTRY, DELIVER);
    let symbols: Vec<&str> = glue.trampolines.iter().map(|t| t.symbol.as_str()).collect();
    assert_eq!(symbols, vec!["_contract_transfer", "_contract_balance"]);
}

#[test]
fn init_gets_no_trampoline() {
    let def = ContractDefinition {
        type_identifier: "Token".to_string(),
        methods: vec![init_method()],
    };
    let glue = emit_glue(&def, ENTRY, DELIVER);
    assert!(glue.trampolines.is_empty());
}

#[test]
fn lifecycle_text_is_exact() {
    let glue = emit_glue(&token_contract(), ENTRY, DELIVER);
    assert_eq!(glue.lifecycle, expected_lifecycle("Token"));
}

#[test]
fn trampoline_text_is_exact() {
    let glue = emit_glue(&token_contract(), ENTRY, DELIVER);
    assert_eq!(glue.trampolines.len(), 1);
    assert_eq!(glue.trampolines[0].text, expected_trampoline("transfer"));
}

#[test]
fn whole_glue_text_is_exact() {
    let out = emit_text(&token_contract(), ENTRY, DELIVER);
    let expected = format!("{}{}", expected_lifecycle("Token"), expected_trampoline("transfer"));
    assert_eq!(out, expected);
}

#[test]
fn emission_is_deterministic() {
    let first = emit_text(&token_contract(), ENTRY, DELIVER);
    let second = emit_text(&token_contract(), ENTRY, DELIVER);
    assert_eq!(first, second);
}
