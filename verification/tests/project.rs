//! The project model: contracts, their code and the project hash.

use era_compiler_vyper::json::JsonValue;
use era_compiler_vyper::metadata::function::Function as FunctionMetadata;
use era_compiler_vyper::project::contract::vyper::expression::instruction::exit_to::ExitTarget;
use era_compiler_vyper::project::contract::vyper::expression::instruction::exit_to::ExitTo;
use era_compiler_vyper::project::contract::vyper::expression::instruction::goto::Goto;
use era_compiler_vyper::project::contract::vyper::expression::instruction::goto::GotoTarget;
use era_compiler_vyper::project::contract::vyper::expression::instruction::label::Label;
use era_compiler_vyper::project::contract::vyper::expression::instruction::Instruction;
use era_compiler_vyper::project::contract::vyper::expression::Expression;
use era_compiler_vyper::project::contract::vyper::function::Function;
use era_compiler_vyper::project::contract::vyper::ast::AST;
use era_compiler_vyper::project::contract::vyper::CodeSegment;
use era_compiler_vyper::project::contract::vyper::Contract as VyperContract;
use era_compiler_vyper::project::contract::llvm_ir::Contract as LLVMIRContract;
use era_compiler_vyper::project::contract::Contract;
use era_compiler_vyper::project::Project;
use era_compiler_vyper::string_map::StringMap;
use era_compiler_vyper::vyper::combined_json::contract::Contract as CombinedJsonContract;
use era_compiler_vyper::vyper::combined_json::CombinedJson;
use era_compiler_vyper::vyper::standard_json::output::contract::evm::EVM;
use era_compiler_vyper::vyper::standard_json::output::contract::Contract as StandardJsonContract;
use era_compiler_vyper::vyper::standard_json::output::error::Error as StandardJsonError;
use era_compiler_vyper::vyper::standard_json::output::Output;
use era_compiler_vyper::vyper::version::SemVer;

fn convert(value: serde_json::Value) -> JsonValue {
    match value {
        serde_json::Value::Null => JsonValue::Null,
        serde_json::Value::Bool(boolean) => JsonValue::Bool(boolean),
        serde_json::Value::Number(number) => JsonValue::Number(number.to_string()),
        serde_json::Value::String(string) => JsonValue::String(string),
        serde_json::Value::Array(items) => JsonValue::Array(items.into_iter().map(convert).collect()),
        serde_json::Value::Object(fields) => JsonValue::Object(
            fields.into_iter().map(|(key, value)| (key, convert(value))).collect(),
        ),
    }
}

fn lll(text: &str) -> Expression {
    Expression::from_json(&convert(serde_json::from_str(text).expect("Always valid")))
}

fn chars(text: &str) -> Vec<char> {
    text.chars().collect()
}

fn llvm_contract(source: &str) -> Contract {
    Contract::LLVMIR(LLVMIRContract::new(SemVer::new(17, 0, 0), source.to_owned()))
}

#[test]
fn project_hash_of_sources_in_path_order() {
    let mut contracts = StringMap::new();
    contracts.insert("c".to_owned(), llvm_contract("best"));
    contracts.insert("a".to_owned(), llvm_contract("zksync"));
    contracts.insert("b".to_owned(), llvm_contract("the"));
    let project = Project::new(SemVer::new(0, 3, 10), contracts, vec![]);
    assert_eq!(
        project.project_hash.string,
        "0x30277e6e189b3fa474437d451ccbb2409c3b67fda53c6ad5df3f8f0f3873ff6b"
    );
    assert_eq!(project.project_hash.bytes.len(), 32);
    assert_eq!(project.project_hash.bytes[0], 0x30);
}

fn output_contract(source_code: &str) -> StandardJsonContract {
    let mut method_identifiers = StringMap::new();
    method_identifiers.insert("f()".to_owned(), "26121ff0".to_owned());
    StandardJsonContract {
        source_code: Some(source_code.to_owned()),
        ir: lll(r#"{"seq": ["pass"]}"#),
        evm: EVM { method_identifiers },
    }
}

#[test]
fn standard_json_project() {
    let mut file = StringMap::new();
    file.insert("test".to_owned(), output_contract("# test"));
    let mut contracts = StringMap::new();
    contracts.insert("test.vy".to_owned(), file);
    let mut sources = StringMap::new();
    sources.insert("test.vy".to_owned(), JsonValue::String("ast".to_owned()));
    let output = Output {
        contracts: Some(contracts),
        sources: Some(sources),
        errors: None,
        long_version: None,
    };
    let project = Project::try_from_standard_json(output, &SemVer::new(0, 3, 10)).expect("Always valid");
    assert!(project.output_selection.is_empty());
    let entries = project.contracts.entries();
    assert_eq!(entries.len(), 1);
    assert_eq!(entries[0].0, "test.vy:test");
    match &entries[0].1 {
        Contract::Vyper(contract) => {
            assert_eq!(contract.source_code, "# test");
            assert_eq!(contract.ast.contract_name, "test.vy:test");
            assert!(matches!(contract.ast.ast, JsonValue::String(ref text) if text == "ast"));
            assert!(matches!(contract.abi, JsonValue::Null));
        }
        _ => panic!("Expected a Vyper contract"),
    }
}

#[test]
fn standard_json_without_ast() {
    let mut file = StringMap::new();
    file.insert("test".to_owned(), output_contract(""));
    let mut contracts = StringMap::new();
    contracts.insert("test.vy".to_owned(), file);
    let output = Output { contracts: Some(contracts), sources: None, errors: None, long_version: None };
    let error = Project::try_from_standard_json(output, &SemVer::new(0, 3, 10)).expect_err("Must fail");
    assert_eq!(error, "No AST for contract test.vy:test");
}

#[test]
fn standard_json_errors_joined() {
    let output = Output {
        contracts: None,
        sources: None,
        errors: Some(vec![
            StandardJsonError { message: "first".to_owned() },
            StandardJsonError { message: "second".to_owned() },
        ]),
        long_version: None,
    };
    let error = Project::try_from_standard_json(output, &SemVer::new(0, 3, 10)).expect_err("Must fail");
    assert_eq!(error, "first\n\nsecond");
}

#[test]
fn llvm_ir_sources() {
    let project = Project::try_from_llvm_ir_sources(
        vec![
            ("b.ll".to_owned(), Ok("two".to_owned())),
            ("a.ll".to_owned(), Ok("one".to_owned())),
        ],
        &SemVer::new(17, 0, 0),
        vec![],
    )
    .expect("Always valid");
    let entries = project.contracts.entries();
    assert_eq!(entries[0].0, "a.ll");
    assert_eq!(entries[0].1.source_code(), "one");
    assert_eq!(entries[1].1.source_code(), "two");
    let error = Project::try_from_eravm_assembly_sources(
        vec![
            ("a.zasm".to_owned(), Ok("one".to_owned())),
            ("b.zasm".to_owned(), Err("first".to_owned())),
            ("c.zasm".to_owned(), Err("second".to_owned())),
        ],
        &SemVer::new(1, 0, 0),
        vec![],
    )
    .expect_err("Must fail");
    assert_eq!(error, "first");
}

#[test]
fn combined_json_entry() {
    let mut method_identifiers = StringMap::new();
    method_identifiers.insert("transfer(address,uint256)".to_owned(), "a9059cbb".to_owned());
    method_identifiers.insert("total()".to_owned(), "+2ddbd13a".to_owned());
    let contract = CombinedJsonContract {
        bytecode: String::new(),
        method_identifiers: Some(method_identifiers),
        abi: None,
        layout: None,
        userdoc: None,
        devdoc: None,
        assembly: None,
        warnings: None,
        factory_deps: None,
    };
    assert_eq!(contract.entry("transfer"), 0xa9059cbb);
    assert_eq!(contract.entry("total"), 0x2ddbd13a);
    let combined = CombinedJson::new(StringMap::new(), Some(&SemVer::new(0, 3, 10)), &SemVer::new(1, 5, 0));
    assert_eq!(combined.version.as_deref(), Some("0.3.10"));
    assert_eq!(combined.zk_version, "1.5.0");
    assert!(CombinedJson::new(StringMap::new(), None, &SemVer::new(1, 5, 0)).version.is_none());
}

#[test]
fn goto_targets() {
    let goto = Goto::new_to_block("external_transfer_cleanup");
    assert!(matches!(goto.target(), Ok(GotoTarget::Block(ref name)) if name == "external_transfer_cleanup"));
    assert!(matches!(Goto::new_to_block("fallback").target(), Ok(GotoTarget::Block(_))));
    let call = Goto(vec![
        Expression::Identifier("internal_f".to_owned()),
        Expression::Identifier("_sym_label".to_owned()),
        Expression::IntegerLiteral("5".to_owned()),
        Expression::Identifier("x".to_owned()),
    ]);
    assert!(matches!(call.target(), Ok(GotoTarget::Function(ref name)) if name == "internal_f"));
    let arguments = call.function_call_arguments();
    assert_eq!(arguments.len(), 2);
    assert!(matches!(arguments[0], Expression::IntegerLiteral(ref text) if text == "5"));
    assert!(matches!(arguments[1], Expression::Identifier(ref name) if name == "x"));
    assert!(Goto(vec![Expression::IntegerLiteral("1".to_owned())]).target().is_err());
}

#[test]
fn exit_to_targets() {
    let to_return = ExitTo(vec![Expression::Identifier("return_pc".to_owned())]);
    assert!(matches!(to_return.target(), Ok(ExitTarget::Return)));
    let to_block = ExitTo(vec![Expression::Identifier("_sym_join".to_owned())]);
    assert!(matches!(to_block.target(), Ok(ExitTarget::Block(ref name)) if name == "join"));
    let plain = ExitTo(vec![Expression::Identifier("join".to_owned())]);
    assert!(matches!(plain.target(), Ok(ExitTarget::Block(ref name)) if name == "join"));
}

#[test]
fn label_arguments() {
    let label = match lll(r#"{"label": ["internal_f", {"var_list": ["a", "return_pc", "return_buffer"]}, "pass"]}"#) {
        Expression::Instruction(Instruction::Label(label)) => label,
        _ => panic!("Expected a label"),
    };
    assert_eq!(label.declared_arguments(), Ok(vec!["a".to_owned(), "return_buffer".to_owned()]));
    assert!(label.has_return_value());
    let bare = Label(vec![
        Expression::Identifier("external_g".to_owned()),
        Expression::Identifier("var_list".to_owned()),
    ]);
    assert_eq!(bare.declared_arguments(), Ok(vec![]));
    let bad = Label(vec![
        Expression::Identifier("external_g".to_owned()),
        Expression::IntegerLiteral("1".to_owned()),
    ]);
    assert!(bad.declared_arguments().is_err());
}

#[test]
fn function_arguments() {
    let metadata = |return_type: &str| {
        Some(FunctionMetadata::new("f".to_owned(), return_type.to_owned(), "internal_f".to_owned()))
    };
    let function = |name: &str, return_type: &str| {
        Function::new(name.to_owned(), metadata(return_type), Expression::default())
    };
    assert_eq!(function("internal_f", "uint256").argument_count(), 1);
    assert_eq!(function("internal_f", "None").argument_count(), 0);
    assert_eq!(function("internal_f", "").argument_count(), 0);
    assert_eq!(function("external_f", "uint256").argument_count(), 0);
    assert_eq!(Function::new("internal_f".to_owned(), None, Expression::default()).argument_count(), 0);
}

#[test]
fn blueprint_code_size() {
    let arguments = |minuend: &str| match lll(&format!(r#"{{"sub": [{minuend}, 7]}}"#)) {
        Expression::Instruction(Instruction::Opcode(_, operands)) => operands,
        _ => panic!("Expected an opcode"),
    };
    assert!(Instruction::check_sub_code_offset(&arguments(r#"{"extcodesize": ["create_target"]}"#)));
    assert!(!Instruction::check_sub_code_offset(&arguments(r#"{"extcodesize": ["other"]}"#)));
    assert!(!Instruction::check_sub_code_offset(&arguments(r#"{"balance": ["create_target"]}"#)));
}

fn contract_with_ir(ir: &str) -> VyperContract {
    VyperContract::new(
        SemVer::new(0, 3, 10),
        String::new(),
        lll(ir),
        AST::new(String::new(), JsonValue::Null),
        JsonValue::Null,
        StringMap::new(),
        None,
        None,
        None,
    )
}

#[test]
fn code_split() {
    let ir = r#"{"seq": [
        {"seq": [{"label": ["external_ctor", "var_list", "pass"]}, "pass"]},
        {"deploy": [0, {"seq": [{"seq": [{"label": ["internal_g", "var_list", "pass"]}, "pass"]}, "stop"]}, 64]}
    ]}"#;
    let parts = contract_with_ir(ir).split_code().expect("Always valid");
    assert_eq!(parts.immutables_size, 64);
    assert_eq!(parts.functions.len(), 2);
    assert_eq!(parts.functions[0].0.name, "external_ctor");
    assert_eq!(parts.functions[0].1, CodeSegment::Deploy);
    assert_eq!(parts.functions[1].0.name, "internal_g");
    assert_eq!(parts.functions[1].1, CodeSegment::Runtime);
    assert_eq!(parts.runtime_code.0.len(), 1);
}

#[test]
fn code_split_needs_runtime_code() {
    assert!(contract_with_ir(r#"{"seq": ["pass"]}"#).split_code().is_err());
    assert!(contract_with_ir(r#"{"deploy": [0, {"seq": []}, "x"]}"#).split_code().is_err());
}

#[test]
fn posix_paths() {
    assert_eq!(era_compiler_vyper::path_to_posix("contracts/test.vy"), Ok("contracts/test.vy".to_owned()));
    assert_eq!(era_compiler_vyper::path_to_posix("/tmp/a/../b.vy"), Ok("/tmp/a/../b.vy".to_owned()));
    assert_eq!(era_compiler_vyper::path_to_posix(".hidden/x"), Ok(".hidden/x".to_owned()));
}

#[test]
fn json_accessors() {
    let document = convert(
        serde_json::from_str(r#"{"a": "text", "n": 18446744073709551615, "big": 18446744073709551616, "m": {"x": "1", "y": "2"}}"#)
            .expect("Always valid"),
    );
    assert_eq!(document.get_str("a").map(|text| text.as_str()), Some("text"));
    assert_eq!(document.get_u64("n"), Some(u64::MAX));
    assert_eq!(document.get_u64("big"), None);
    assert!(document.get("missing").is_none());
    let map = document.get("m").expect("Always exists").to_string_map().expect("Always valid");
    assert_eq!(map.get(&chars("y")).map(|text| text.as_str()), Some("2"));
    assert!(document.to_string_map().is_err());
}

#[test]
fn lll_json_round_trip() {
    let text = r#"{"seq": [{"with": ["x", 1, {"add": ["x", 2]}]}, "pass", {"if": [1, "stop", "pass"]}]}"#;
    let expression = lll(text);
    let back = expression.to_json();
    let again = Expression::from_json(&back);
    assert_eq!(format!("{:?}", again.to_json()), format!("{:?}", back));
    assert_eq!(
        format!("{:?}", back),
        format!("{:?}", convert(serde_json::from_str(text).expect("Always valid")))
    );
}

#[test]
fn standard_json_later_contract_kept_under_one_path() {
    let mut first = StringMap::new();
    first.insert("b:c".to_owned(), output_contract("# first"));
    let mut second = StringMap::new();
    second.insert("c".to_owned(), output_contract("# second"));
    let mut contracts = StringMap::new();
    contracts.insert("a:b".to_owned(), second);
    contracts.insert("a".to_owned(), first);
    let mut sources = StringMap::new();
    sources.insert("a".to_owned(), JsonValue::Null);
    sources.insert("a:b".to_owned(), JsonValue::Null);
    let output = Output { contracts: Some(contracts), sources: Some(sources), errors: None, long_version: None };
    let project = Project::try_from_standard_json(output, &SemVer::new(0, 3, 10)).expect("Always valid");
    let entries = project.contracts.entries();
    assert_eq!(entries.len(), 1);
    assert_eq!(entries[0].0, "a:b:c");
    match &entries[0].1 {
        Contract::Vyper(contract) => assert_eq!(contract.source_code, "# second"),
        _ => panic!("Expected a Vyper contract"),
    }
}
