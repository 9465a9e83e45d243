//! LLL IR expressions, the maps and texts they are built from.

use era_compiler_vyper::json::push_string_literal;
use era_compiler_vyper::json::JsonValue;
use era_compiler_vyper::metadata::function::Function as FunctionMetadata;
use era_compiler_vyper::project::contract::vyper::expression::instruction::label::Label;
use era_compiler_vyper::project::contract::vyper::expression::instruction::seq::SeqInstruction;
use era_compiler_vyper::project::contract::vyper::expression::instruction::Instruction;
use era_compiler_vyper::project::contract::vyper::expression::is_identifier;
use era_compiler_vyper::project::contract::vyper::expression::is_pass;
use era_compiler_vyper::project::contract::vyper::expression::Expression;
use era_compiler_vyper::project::contract::vyper::CodeSegment;
use era_compiler_vyper::string_map::compare_keys;
use era_compiler_vyper::string_map::KeyOrder;
use era_compiler_vyper::string_map::StringMap;
use era_compiler_vyper::text::contains_chars;
use era_compiler_vyper::text::equal_chars;
use era_compiler_vyper::text::parse_u64;
use era_compiler_vyper::text::push_decimal;
use era_compiler_vyper::text::same_text;
use era_compiler_vyper::vyper::combined_json::contract::parse_hex_u32;

fn convert(value: serde_json::Value) -> JsonValue {
    match value {
        serde_json::Value::Null => JsonValue::Null,
        serde_json::Value::Bool(boolean) => JsonValue::Bool(boolean),
        serde_json::Value::Number(number) => JsonValue::Number(number.to_string()),
        serde_json::Value::String(string) => JsonValue::String(string),
        serde_json::Value::Array(items) => JsonValue::Array(items.into_iter().map(convert).collect()),
        serde_json::Value::Object(fields) => JsonValue::Object(
            fields.into_iter().map(|(key, value)| (key, convert(value))).collect(),
        ),
    }
}

fn lll(text: &str) -> Expression {
    Expression::from_json(&convert(serde_json::from_str(text).expect("Always valid")))
}

fn chars(text: &str) -> Vec<char> {
    text.chars().collect()
}

fn label(text: &str) -> Label {
    match lll(text) {
        Expression::Instruction(Instruction::Label(label)) => label,
        _ => panic!("Expected a label"),
    }
}

fn sequence(expression: Expression) -> SeqInstruction {
    match expression {
        Expression::Instruction(Instruction::Sequence(sequence)) => sequence,
        _ => panic!("Expected a sequence"),
    }
}

#[test]
fn functions_hoisted_out_of_code() {
    let mut code = lll(
        r#"{"seq": [
            {"seq": [{"label": ["external_foo", "var_list", "pass"]}, "pass"]},
            {"seq": [{"seq": [{"label": ["internal_bar", "var_list", "pass"]}, "stop"]}, "stop"]},
            "stop"
        ]}"#,
    );
    let functions = code.extract_functions().expect("Always valid");
    let entries = functions.entries();
    assert_eq!(entries.len(), 2);
    assert_eq!(entries[0].0, "external_foo");
    assert_eq!(entries[1].0, "internal_bar");
    assert_eq!(entries[0].1.function_name(), Ok("external_foo".to_owned()));
    assert_eq!(entries[1].1.is_function(), Ok(true));
    let rest = sequence(code);
    assert_eq!(rest.0.len(), 2);
    assert_eq!(sequence(rest.0[0].duplicate()).0.len(), 1);
    let mut again = Expression::Instruction(Instruction::Sequence(rest));
    assert_eq!(again.extract_functions().expect("Always valid").len(), 0);
}

#[test]
fn function_sequences_recognized() {
    let function = lll(r#"{"seq": [{"label": ["internal_f", "var_list", "pass"]}, "pass"]}"#);
    assert_eq!(function.is_function(), Ok(true));
    assert_eq!(function.function_name(), Ok("internal_f".to_owned()));
    let block = lll(r#"{"seq": [{"label": ["cleanup", "var_list", "pass"]}, "pass"]}"#);
    assert_eq!(block.is_function(), Ok(false));
    assert_eq!(block.function_name(), Ok("cleanup".to_owned()));
    let plain = lll(r#"{"seq": ["stop"]}"#);
    assert_eq!(plain.is_function(), Ok(false));
    assert!(plain.function_name().is_err());
    assert_eq!(Expression::IntegerLiteral("1".to_owned()).is_function(), Ok(false));
    assert!(Expression::Identifier("x".to_owned()).function_name().is_err());
}

#[test]
fn label_blocks() {
    assert!(Label::is_constructor_block("external___init____cleanup"));
    assert!(!Label::is_constructor_block("internal___init__"));
    assert!(!Label::is_constructor_block("external_transfer"));
    assert!(label(r#"{"label": ["external_f", "var_list", "pass"]}"#).can_block_be_ignored());
    assert!(!label(r#"{"label": ["external___init____cleanup", "var_list", "pass"]}"#).can_block_be_ignored());
    assert!(!label(r#"{"label": ["external_f", "var_list", {"seq": ["stop"]}]}"#).can_block_be_ignored());
    assert!(label(r#"{"label": ["external_f", "var_list", "pass"]}"#).is_block_empty_sequence());
    assert!(label(r#"{"label": ["f", "var_list", {"seq": []}]}"#).is_block_empty_sequence());
    assert!(label(r#"{"label": ["f", "var_list", {"seq": ["pass"]}]}"#).is_block_empty_sequence());
    assert!(!label(r#"{"label": ["f", "var_list", {"seq": ["stop"]}]}"#).is_block_empty_sequence());
    assert!(Label(vec![Expression::Identifier("f".to_owned())]).is_block_empty_sequence());
    assert_eq!(label(r#"{"label": ["external_f", "var_list", "pass"]}"#).is_function_entry(), Ok(true));
    assert_eq!(label(r#"{"label": ["join", "var_list", "pass"]}"#).is_function_entry(), Ok(false));
    assert!(Label(vec![Expression::IntegerLiteral("1".to_owned())]).is_function_entry().is_err());
}

#[test]
fn sequences_normalized() {
    let mut deploy = SeqInstruction(vec![]);
    deploy.normalize_deploy_code();
    assert!(matches!(deploy.0.as_slice(), [Expression::Instruction(Instruction::RETURN(_))]));
    let mut with_deploy = sequence(lll(r#"{"seq": [{"deploy": [0, {"seq": []}, 0]}]}"#));
    with_deploy.normalize_deploy_code();
    assert_eq!(with_deploy.0.len(), 2);
    assert!(matches!(with_deploy.0[1], Expression::Instruction(Instruction::RETURN(_))));
    let mut terminated = sequence(lll(r#"{"seq": ["stop"]}"#));
    terminated.normalize_deploy_code();
    assert_eq!(terminated.0.len(), 1);

    let mut runtime = SeqInstruction(vec![]);
    runtime.normalize_runtime_code();
    assert!(matches!(runtime.0.as_slice(), [Expression::Instruction(Instruction::REVERT(_))]));
    let mut busy = sequence(lll(r#"{"seq": ["stop"]}"#));
    busy.normalize_runtime_code();
    assert_eq!(busy.0.len(), 1);

    let mut open_deploy = SeqInstruction(vec![Expression::Identifier("x".to_owned())]);
    open_deploy.normalize_deploy_code();
    assert_eq!(open_deploy.0.len(), 2);
    assert!(matches!(open_deploy.0[1], Expression::Instruction(Instruction::RETURN(_))));
    let mut reverting = sequence(lll(r#"{"seq": ["pass", {"revert": [0, 0]}]}"#));
    reverting.normalize_deploy_code();
    assert_eq!(reverting.0.len(), 2);
    let mut open_runtime = SeqInstruction(vec![Expression::Identifier("x".to_owned())]);
    open_runtime.normalize_runtime_code();
    assert_eq!(open_runtime.0.len(), 2);
    assert!(matches!(open_runtime.0[1], Expression::Instruction(Instruction::REVERT(_))));
    let mut invalid = sequence(lll(r#"{"seq": ["invalid", "pass"]}"#));
    invalid.normalize_runtime_code();
    assert_eq!(invalid.0.len(), 2);

    assert!(SeqInstruction(vec![]).is_pass_or_empty());
    assert!(sequence(lll(r#"{"seq": ["pass"]}"#)).is_pass_or_empty());
    assert!(!sequence(lll(r#"{"seq": ["pass", "pass"]}"#)).is_pass_or_empty());
    assert!(!sequence(lll(r#"{"seq": ["stop"]}"#)).is_pass_or_empty());
}

#[test]
fn sequence_split_into_labels() {
    let mut code = sequence(lll(
        r#"{"seq": [{"label": ["a", "var_list", "pass"]}, "stop", {"label": ["b", "var_list", "pass"]}, "pass"]}"#,
    ));
    let (labels, rest) = code.drain_and_split();
    assert!(code.0.is_empty());
    assert_eq!(labels.len(), 2);
    assert_eq!(labels[0].name(), Ok("a".to_owned()));
    assert_eq!(labels[1].name(), Ok("b".to_owned()));
    assert_eq!(rest.len(), 2);
    assert!(is_pass(&rest[1]));
}

#[test]
fn runtime_code_taken_from_deploy() {
    let code = lll(r#"{"seq": ["pass", {"deploy": [0, {"seq": ["stop"]}, 32]}]}"#);
    let (runtime, size) = code.extract_runtime_code().expect("Always valid").expect("Always exists");
    assert_eq!(runtime.0.len(), 1);
    assert!(matches!(size, Expression::IntegerLiteral(ref text) if text == "32"));
    assert!(lll(r#"{"seq": ["stop"]}"#).extract_runtime_code().expect("Always valid").is_none());
    let deploy = lll(r#"{"seq": ["stop"]}"#).try_into_deploy_code().expect("Always valid");
    assert_eq!(deploy.0.len(), 1);
    assert_eq!(
        Expression::Identifier("x".to_owned()).try_into_deploy_code().expect_err("Must fail"),
        "Expected [`seq`, `deploy`], found `x`"
    );
    assert_eq!(
        lll(r#""stop""#).extract_runtime_code().expect_err("Must fail"),
        "Expected [`seq`, `deploy`], found `stop`"
    );
    assert_eq!(
        lll(r#"{"deploy": [0, "stop", 0]}"#).extract_runtime_code().expect_err("Must fail"),
        "Expected `seq`, found `stop`"
    );
}

#[test]
fn identifiers() {
    let name = Expression::Identifier("return_pc".to_owned());
    assert_eq!(name.try_into_identifier(), Ok("return_pc".to_owned()));
    assert!(Expression::IntegerLiteral("7".to_owned()).try_into_identifier().is_err());
    assert!(is_identifier(&name, chars("return_pc").as_slice()));
    assert!(!is_identifier(&name, chars("return_buffer").as_slice()));
    assert!(is_pass(&lll(r#""pass""#)));
    assert!(!is_pass(&name));
}

#[test]
fn string_maps_ordered() {
    let mut map: StringMap<u64> = StringMap::new();
    map.insert("b".to_owned(), 2);
    map.insert("a".to_owned(), 1);
    map.insert("ab".to_owned(), 3);
    map.insert("b".to_owned(), 4);
    assert_eq!(map.len(), 3);
    assert_eq!(map.get(chars("b").as_slice()), Some(&4));
    assert_eq!(map.get(chars("c").as_slice()), None);
    assert_eq!(map.remove(chars("a").as_slice()), Some(1));
    assert_eq!(map.remove(chars("a").as_slice()), None);
    let mut other: StringMap<u64> = StringMap::new();
    other.insert("b".to_owned(), 5);
    other.insert("0".to_owned(), 6);
    map.extend(other);
    let keys: Vec<(String, u64)> = map.into_entries();
    assert_eq!(
        keys,
        vec![("0".to_owned(), 6), ("ab".to_owned(), 3), ("b".to_owned(), 5)]
    );
    assert_eq!(compare_keys(&chars("a"), &chars("ab")), KeyOrder::Before);
    assert_eq!(compare_keys(&chars("b"), &chars("ab")), KeyOrder::After);
    assert_eq!(compare_keys(&chars("ab"), &chars("ab")), KeyOrder::Same);
}

#[test]
fn decimal_texts() {
    assert_eq!(parse_u64(&chars("0")), Some(0));
    assert_eq!(parse_u64(&chars("18446744073709551615")), Some(u64::MAX));
    assert_eq!(parse_u64(&chars("18446744073709551616")), None);
    assert_eq!(parse_u64(&chars("")), None);
    assert_eq!(parse_u64(&chars("12a")), None);
    let mut text = chars("x=");
    push_decimal(0, &mut text);
    assert_eq!(text, chars("x=0"));
    let mut text = Vec::new();
    push_decimal(u64::MAX, &mut text);
    assert_eq!(parse_u64(&text), Some(u64::MAX));
}

#[test]
fn hexadecimal_selectors() {
    assert_eq!(parse_hex_u32(&chars("f8a8fd6d")), Some(0xf8a8fd6d));
    assert_eq!(parse_hex_u32(&chars("FFFFFFFF")), Some(u32::MAX));
    assert_eq!(parse_hex_u32(&chars("100000000")), None);
    assert_eq!(parse_hex_u32(&chars("")), None);
    assert_eq!(parse_hex_u32(&chars("xyz")), None);
}

#[test]
fn texts_compared() {
    assert!(contains_chars(&chars("create_copy_of(x)"), &chars("create_copy_of")));
    assert!(!contains_chars(&chars("create_copy"), &chars("create_copy_of")));
    assert!(contains_chars(&chars("abc"), &chars("")));
    assert!(equal_chars(&chars("abc"), &chars("abc")));
    assert!(!equal_chars(&chars("abc"), &chars("abd")));
    assert!(same_text("vyper", "vyper"));
    assert!(!same_text("vyper", "vyper "));
}

#[test]
fn json_string_literals() {
    let mut text = Vec::new();
    push_string_literal("a\"b\\\n\u{1}", &mut text);
    let written: String = text.into_iter().collect();
    assert_eq!(written, "\"a\\\"b\\\\\\n\\u0001\"");
    assert_eq!(
        serde_json::from_str::<String>(written.as_str()).expect("Always valid"),
        "a\"b\\\n\u{1}"
    );
}

#[test]
fn function_metadata() {
    let metadata = FunctionMetadata::new("f".to_owned(), "uint256".to_owned(), "internal_f".to_owned());
    assert_eq!(metadata.name(), "f");
    assert_eq!(metadata.return_type(), "uint256");
}

fn instruction(text: &str) -> Instruction {
    match lll(text) {
        Expression::Instruction(instruction) => instruction,
        _ => panic!("Expected an instruction"),
    }
}

#[test]
fn instructions_refused_by_code_generation() {
    let runtime = Some(CodeSegment::Runtime);
    assert_eq!(
        instruction(r#""pc""#).refusal(runtime),
        Some("The `PC` instruction is not supported".to_owned())
    );
    assert_eq!(
        instruction(r#"{"selfdestruct": [0]}"#).refusal(runtime),
        Some("The `SELFDESTRUCT` instruction is not supported".to_owned())
    );
    assert_eq!(
        instruction(r#"{"codecopy": [0, 0, 32]}"#).refusal(runtime),
        Some("The `CODECOPY` instruction is not supported in the runtime code".to_owned())
    );
    assert_eq!(instruction(r#"{"codecopy": [0, 0, 32]}"#).refusal(Some(CodeSegment::Deploy)), None);
    assert_eq!(
        instruction(r#"{"codecopy": [0, 0, 32]}"#).refusal(None),
        Some("The contract code part type is undefined".to_owned())
    );
    assert_eq!(
        instruction(r#"{"dload": [0]}"#).refusal(None),
        Some("Immutables are not available if the contract part is undefined".to_owned())
    );
    assert_eq!(instruction(r#"{"dload": [0]}"#).refusal(runtime), None);
    assert_eq!(instruction(r#"{"extcodecopy": ["create_target", 0, 0, 32]}"#).refusal(runtime), None);
    assert!(instruction(r#"{"extcodecopy": ["other", 0, 0, 32]}"#).refusal(runtime).is_some());
    assert_eq!(
        instruction(r#"{"unknown": {"b": [1, "x\"y"], "a": null}}"#).refusal(runtime),
        Some("Unknown LLL instruction: {\"a\":null,\"b\":[1,\"x\\\"y\"]}".to_owned())
    );
    for code in [r#""calldatasize""#, r#"{"calldataload": [0]}"#, r#"{"calldatacopy": [0, 0, 32]}"#, r#""codesize""#] {
        assert_eq!(
            instruction(code).refusal(None),
            Some("The contract code part type is undefined".to_owned())
        );
        assert_eq!(instruction(code).refusal(runtime), None);
        assert_eq!(instruction(code).refusal(Some(CodeSegment::Deploy)), None);
    }
    assert_eq!(instruction(r#"{"add": [1, 2]}"#).refusal(runtime), None);
    assert_eq!(
        lll(r#"[true, 2]"#).refusal(runtime),
        Some("Unknown LLL expression: [true,2]".to_owned())
    );
    assert_eq!(lll(r#""x""#).refusal(None), None);
    assert_eq!(
        lll(r#""pc""#).refusal(runtime),
        Some("The `PC` instruction is not supported".to_owned())
    );
}
