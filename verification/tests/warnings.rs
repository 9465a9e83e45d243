//! The warnings issued for the constructs that behave differently on EraVM.

use era_compiler_vyper::json::JsonValue;
use era_compiler_vyper::project::contract::vyper::ast::AST;
use era_compiler_vyper::warning_type::WarningType;

fn convert(value: serde_json::Value) -> JsonValue {
    match value {
        serde_json::Value::Null => JsonValue::Null,
        serde_json::Value::Bool(boolean) => JsonValue::Bool(boolean),
        serde_json::Value::Number(number) => JsonValue::Number(number.to_string()),
        serde_json::Value::String(string) => JsonValue::String(string),
        serde_json::Value::Array(items) => JsonValue::Array(items.into_iter().map(convert).collect()),
        serde_json::Value::Object(fields) => JsonValue::Object(
            fields.into_iter().map(|(key, value)| (key, convert(value))).collect(),
        ),
    }
}

fn document(text: &str) -> JsonValue {
    convert(serde_json::from_str(text).expect("Always valid"))
}

/// The AST of a module with one external function whose body returns `value`.
fn module_returning(value: &str) -> String {
    format!(
        r#"{{"ast_type": "Module", "body": [{{"ast_type": "FunctionDef", "name": "test", "lineno": 3, "col_offset": 0, "body": [{{"ast_type": "Return", "lineno": 5, "col_offset": 4, "value": {value}}}]}}]}}"#
    )
}

fn check_warning(ast: &str, suppressed: &[WarningType], warning: &str) -> bool {
    let ast = document(ast);
    let contract = AST::new("test.vy".to_owned(), JsonValue::Null);
    contract
        .get_warnings(&ast, suppressed)
        .iter()
        .any(|contract_warning| contract_warning.message.contains(warning))
}

#[test]
fn ecrecover() {
    let ast = module_returning(
        r#"{"ast_type": "Call", "lineno": 5, "col_offset": 11, "func": {"ast_type": "Name", "id": "ecrecover", "lineno": 5, "col_offset": 11}, "args": [{"ast_type": "Name", "id": "hash"}, {"ast_type": "Name", "id": "v"}, {"ast_type": "Name", "id": "r"}, {"ast_type": "Name", "id": "s"}]}"#,
    );
    assert!(check_warning(
        ast.as_str(),
        &[],
        "Warning: It looks like you are using 'ecrecover' to validate a signature of a user account."
    ));
}

#[test]
fn extcodesize() {
    let ast = module_returning(
        r#"{"ast_type": "Attribute", "attr": "is_contract", "lineno": 4, "col_offset": 11, "value": {"ast_type": "Name", "id": "addr"}}"#,
    );
    assert!(check_warning(
        ast.as_str(),
        &[],
        "Warning: Your code or one of its dependencies uses the 'extcodesize' instruction, which is"
    ));
}

#[test]
fn tx_origin() {
    let ast = module_returning(
        r#"{"ast_type": "Attribute", "attr": "origin", "lineno": 4, "col_offset": 11, "value": {"ast_type": "Name", "id": "tx"}}"#,
    );
    assert!(check_warning(
        ast.as_str(),
        &[],
        "Warning: You are checking for 'tx.origin' in your code, which might lead to unexpected behavior."
    ));
}

#[test]
fn tx_origin_suppressed() {
    let ast = module_returning(
        r#"{"ast_type": "Attribute", "attr": "origin", "lineno": 4, "col_offset": 11, "value": {"ast_type": "Name", "id": "tx"}}"#,
    );
    assert!(!check_warning(
        ast.as_str(),
        &[WarningType::TxOrigin],
        "Warning: You are checking for 'tx.origin' in your code, which might lead to unexpected behavior."
    ));
}

#[test]
fn ecrecover_not_suppressed_by_tx_origin() {
    let ast = module_returning(
        r#"{"ast_type": "Call", "func": {"ast_type": "Name", "id": "ecrecover"}, "args": []}"#,
    );
    assert!(check_warning(ast.as_str(), &[WarningType::TxOrigin], "'ecrecover'"));
}

#[test]
fn no_warning_for_other_attributes() {
    let ast = module_returning(
        r#"{"ast_type": "Attribute", "attr": "sender", "value": {"ast_type": "Name", "id": "msg"}}"#,
    );
    let contract = AST::new("test.vy".to_owned(), JsonValue::Null);
    assert!(contract.get_warnings(&document(ast.as_str()), &[]).is_empty());
}

#[test]
fn warning_location_and_text() {
    let node = document(
        r#"{"ast_type": "Attribute", "attr": "origin", "lineno": 4, "col_offset": 11, "value": {"ast_type": "Name", "id": "tx"}}"#,
    );
    let contract = AST::new("test.vy".to_owned(), JsonValue::Null);
    let warning = contract.check_tx_origin(&node).expect("Always exists");
    assert_eq!(warning.file, "test.vy");
    assert_eq!(warning.line, 4);
    assert_eq!(warning.column, 11);
    let text = warning.to_string();
    assert!(text.ends_with("\n ---> test.vy:4:11\n"));
    assert!(text.starts_with(warning.message.as_str()));
}

#[test]
fn warning_without_location() {
    let node = document(r#"{"ast_type": "Attribute", "attr": "is_contract", "value": {"ast_type": "Name", "id": "a"}}"#);
    let contract = AST::new("c.vy".to_owned(), JsonValue::Null);
    assert_eq!(contract.location(&node), None);
    let warning = contract.check_extcodesize(&node).expect("Always exists");
    assert_eq!((warning.line, warning.column), (0, 0));
}

#[test]
fn location_needs_integers() {
    let contract = AST::new("c.vy".to_owned(), JsonValue::Null);
    assert_eq!(contract.location(&document(r#"{"lineno": 7, "col_offset": 2}"#)), Some((7, 2)));
    assert_eq!(contract.location(&document(r#"{"lineno": -7, "col_offset": 2}"#)), None);
    assert_eq!(contract.location(&document(r#"{"lineno": 7.5, "col_offset": 2}"#)), None);
    assert_eq!(contract.location(&document(r#"{"lineno": "7", "col_offset": 2}"#)), None);
}

#[test]
fn warnings_in_document_order() {
    let ast = document(
        r#"[{"ast_type": "Attribute", "attr": "is_contract", "lineno": 1, "col_offset": 0, "value": {}}, {"ast_type": "Attribute", "attr": "origin", "lineno": 2, "col_offset": 0, "value": {"ast_type": "Name", "id": "tx"}}]"#,
    );
    let contract = AST::new("c.vy".to_owned(), JsonValue::Null);
    let warnings = contract.get_warnings(&ast, &[]);
    assert_eq!(warnings.len(), 2);
    assert_eq!(warnings[0].line, 1);
    assert!(warnings[0].message.contains("'extcodesize'"));
    assert_eq!(warnings[1].line, 2);
    assert!(warnings[1].message.contains("'tx.origin'"));
}
