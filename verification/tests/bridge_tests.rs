use contract_glue::bridge::{process_source, ProcessedUnit, ProcessError};
use contract_glue::validate::ContractError;

const ENTRY: &str = "pub fn ";
const DELIVER: &str = "deliver(result);";

fn run(source: &str) -> Result<ProcessedUnit, ProcessError> {
    process_source(source, ENTRY, DELIVER)
}

fn run_text(source: &str) -> String {
    run(source).unwrap().text
}

fn invalid_error(source: &str) -> ContractError {
    match run(source) {
        Err(ProcessError::Invalid { error }) => error,
        Err(ProcessError::Parse { message }) => panic!("unexpected parse failure: {}", message),
        Ok(_) => panic!("expected the contract to be rejected"),
    }
}

fn count_occurrences(text: &str, needle: &str) -> usize {
    text.matches(needle).count()
}

const TOKEN_SOURCE: &str = "impl Token {
    fn init(params: &mut Parameters) -> (Self, Option<Payload>) {
        (Token {}, None)
    }

    fn transfer(&mut self, params: &mut Parameters) -> Option<Payload> {
        None
    }
}
";

#[test]
fn token_contract_yields_one_transfer_symbol() {
    let out = run_text(TOKEN_SOURCE);
    assert!(out.starts_with(TOKEN_SOURCE));
    assert_eq!(count_occurrences(&out, "pub fn _contract_transfer()"), 1);
    assert_eq!(count_occurrences(&out, "_contract_init"), 0);
}

#[test]
fn init_is_called_only_from_the_lifecycle_block() {
    let out = run_text(TOKEN_SOURCE);
    let generated = &out[TOKEN_SOURCE.len()..];
    assert_eq!(count_occurrences(generated, "Token::init(&mut Parameters::load())"), 1);
    assert_eq!(count_occurrences(generated, "thread_local!"), 1);
}

#[test]
fn processing_twice_is_byte_identical() {
    let first = run(TOKEN_SOURCE).unwrap();
    let second = run(TOKEN_SOURCE).unwrap();
    assert_eq!(first.text, second.text);
    assert_eq!(first.method_names, second.method_names);
}

#[test]
fn qualified_spellings_accepted() {
    let source = "impl Ledger {
    fn init(params: &mut smart_contract::payload::Parameters) -> (Self, Option<smart_contract::payload::Payload>) {
        (Ledger {}, None)
    }

    fn audit(&mut self, params: &mut smart_contract::payload::Parameters) -> Option<smart_contract::payload::Payload> {
        None
    }
}
";
    let out = run_text(source);
    assert_eq!(count_occurrences(&out, "pub fn _contract_audit()"), 1);
    assert_eq!(count_occurrences(&out, "::std::cell::RefCell<Ledger>"), 1);
}

#[test]
fn init_arity_rejected_in_source() {
    let source = "impl Token {
    fn init(a: &mut Parameters, b: &mut Parameters) -> (Self, Option<Payload>) {
        (Token {}, None)
    }
}
";
    assert_eq!(invalid_error(source), ContractError::InitParams);
}

#[test]
fn immutable_self_rejected() {
    let source = "impl Token {
    fn transfer(&self, params: &mut Parameters) -> Option<Payload> {
        None
    }
}
";
    assert_eq!(invalid_error(source), ContractError::RegularSelf);
}

#[test]
fn bare_payload_return_rejected() {
    let source = "impl Token {
    fn transfer(&mut self, params: &mut Parameters) -> Payload {
        Payload {}
    }
}
";
    assert_eq!(invalid_error(source), ContractError::RegularReturn);
}

#[test]
fn wrongly_named_bundle_type_rejected() {
    let source = "impl Token {
    fn transfer(&mut self, params: &mut Params) -> Option<Payload> {
        None
    }
}
";
    assert_eq!(invalid_error(source), ContractError::RegularSecondParam);
}

#[test]
fn leading_separator_spelling_rejected() {
    let source = "impl Token {
    fn transfer(&mut self, params: &mut ::smart_contract::payload::Parameters) -> Option<Payload> {
        None
    }
}
";
    assert_eq!(invalid_error(source), ContractError::RegularSecondParam);
}

#[test]
fn missing_return_type_rejected() {
    let source = "impl Token {
    fn transfer(&mut self, params: &mut Parameters) {
    }
}
";
    assert_eq!(invalid_error(source), ContractError::RegularReturn);
}

#[test]
fn source_without_impl_block_rejected() {
    let source = "struct Token;
";
    assert_eq!(invalid_error(source), ContractError::MissingContract);
}

#[test]
fn malformed_source_reports_parse_failure() {
    let source = "impl Token {";
    match run(source) {
        Err(ProcessError::Parse { message }) => assert!(!message.is_empty()),
        _ => panic!("expected a parse failure"),
    }
}

#[test]
fn last_of_two_impl_blocks_wins() {
    let source = "impl First {
    fn init(params: &mut Parameters) -> (Self, Option<Payload>) {
        (First {}, None)
    }

    fn mint(&mut self, params: &mut Parameters) -> Option<Payload> {
        None
    }
}

impl Second {
    fn init(params: &mut Parameters) -> (Self, Option<Payload>) {
        (Second {}, None)
    }

    fn burn(&mut self, params: &mut Parameters) -> Option<Payload> {
        None
    }
}
";
    let out = run_text(source);
    assert_eq!(count_occurrences(&out, "::std::cell::RefCell<Second>"), 1);
    assert_eq!(count_occurrences(&out, "pub fn _contract_burn()"), 1);
    assert_eq!(count_occurrences(&out, "::std::cell::RefCell<First>"), 0);
    assert_eq!(count_occurrences(&out, "_contract_mint"), 0);
}

#[test]
fn non_method_members_ignored() {
    let source = "impl Token {
    type Ledger = u32;

    fn init(params: &mut Parameters) -> (Self, Option<Payload>) {
        (Token {}, None)
    }
}
";
    let out = run_text(source);
    assert_eq!(count_occurrences(&out, "::std::cell::RefCell<Token>"), 1);
}

#[test]
fn option_of_wrong_payload_rejected() {
    let source = "impl Token {
    fn transfer(&mut self, params: &mut Parameters) -> Option<String> {
        None
    }
}
";
    assert_eq!(invalid_error(source), ContractError::RegularReturn);
}

#[test]
fn registered_method_names_reported_in_order() {
    let unit = run(TOKEN_SOURCE).unwrap();
    assert_eq!(unit.method_names, vec!["init".to_string(), "transfer".to_string()]);
}

#[test]
fn output_is_source_then_newline_then_glue() {
    let unit = run(TOKEN_SOURCE).unwrap();
    let rest = &unit.text[TOKEN_SOURCE.len()..];
    assert!(rest.starts_with("\nthread_local!"));
}
