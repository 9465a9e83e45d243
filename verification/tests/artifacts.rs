//! The outputs shown and written for compiled contracts.

use era_compiler_vyper::artifacts::assembly_wanted;
use era_compiler_vyper::artifacts::bytecode_string;
use era_compiler_vyper::artifacts::select_outputs;
use era_compiler_vyper::artifacts::check_overwrite;
use era_compiler_vyper::artifacts::collect_builds;
use era_compiler_vyper::artifacts::into_combined_json;
use era_compiler_vyper::artifacts::output_files;
use era_compiler_vyper::artifacts::terminal_texts;
use era_compiler_vyper::artifacts::warnings_text;
use era_compiler_vyper::artifacts::BuildOutput;
use era_compiler_vyper::artifacts::OutputFlag;
use era_compiler_vyper::artifacts::SerializedOutputs;
use era_compiler_vyper::json::JsonValue;
use era_compiler_vyper::project::contract::vyper::ast::AST;
use era_compiler_vyper::project::contract::vyper::expression::Expression;
use era_compiler_vyper::project::contract::vyper::Contract as VyperContract;
use era_compiler_vyper::string_map::StringMap;
use era_compiler_vyper::vyper::version::SemVer;
use era_compiler_vyper::vyper::combined_json::contract::warning::Warning;

fn build(assembly: Option<&str>) -> BuildOutput {
    BuildOutput {
        bytecode: vec![0x00, 0x0f, 0xab],
        bytecode_hash: None,
        assembly: assembly.map(|text| text.to_owned()),
        factory_dependencies: StringMap::new(),
    }
}

fn outputs() -> SerializedOutputs {
    SerializedOutputs {
        ir_json: Some(r#"{"seq":[]}"#.to_owned()),
        ast: None,
        abi: Some("[]".to_owned()),
        method_identifiers: Some("{}".to_owned()),
        layout: None,
        userdoc: None,
        devdoc: None,
    }
}

#[test]
fn bytecode_shown_in_hexadecimal() {
    assert_eq!(bytecode_string(&build(None)), "0x000fab");
}

#[test]
fn only_the_bytecode_file_without_selection() {
    assert_eq!(
        output_files(&build(None), &outputs(), &[], "test.vy"),
        vec![("test.vy.zbin".to_owned(), "0x000fab".to_owned())]
    );
}

#[test]
fn extra_outputs_and_assembly_files() {
    let files = output_files(
        &build(Some("nop")),
        &outputs(),
        &[OutputFlag::ABI, OutputFlag::EraVMAssembly, OutputFlag::ProjectMetadata, OutputFlag::IRJson],
        "test.vy",
    );
    assert_eq!(
        files,
        vec![
            ("test.vy.zbin".to_owned(), "0x000fab".to_owned()),
            ("test.vy".to_owned(), "[]\n{\"seq\":[]}\n".to_owned()),
            ("test.vy.zasm".to_owned(), "nop".to_owned()),
        ]
    );
}

#[test]
fn overwrite_refused_without_permission() {
    assert_eq!(check_overwrite("\"out/a\"", false, false), Ok(()));
    assert_eq!(check_overwrite("\"out/a\"", true, true), Ok(()));
    assert_eq!(
        check_overwrite("\"out/a\"", true, false),
        Err("Refusing to overwrite an existing file \"out/a\" (use --overwrite to force).".to_owned())
    );
}

#[test]
fn terminal_output() {
    let warnings = vec![Warning::new("test.vy".to_owned(), 3, 7, "Beware".to_owned())];
    let (stdout, stderr) = terminal_texts(
        "test.vy",
        &build(Some("nop")),
        &warnings,
        &[OutputFlag::MethodIdentifiers, OutputFlag::EraVMAssembly],
        &outputs(),
    );
    assert_eq!(stdout, "0x000fab\n{}\nnop\n");
    assert_eq!(
        stderr,
        "\nBeware\n ---> test.vy:3:7\n\nContract `test.vy`:\nContract `test.vy` assembly:\n"
    );
    assert_eq!(warnings_text(&vec![]), "");
}

#[test]
fn builds_collected() {
    let mut with_proxy = build(None);
    with_proxy.factory_dependencies.insert("abcd".to_owned(), "proxy".to_owned());
    let mut results = StringMap::new();
    results.insert("b.vy".to_owned(), Ok(build(None)));
    results.insert("a.vy".to_owned(), Ok(with_proxy));
    let (builds, used) = collect_builds(results, "abcd").expect("Always valid");
    assert!(used);
    assert_eq!(builds.len(), 2);
    assert_eq!(builds.entries()[0].0, "a.vy");

    let mut plain = StringMap::new();
    plain.insert("a.vy".to_owned(), Ok(build(None)));
    let (_, used) = collect_builds(plain, "abcd").expect("Always valid");
    assert!(!used);

    let mut failing = StringMap::new();
    failing.insert("c.vy".to_owned(), Err("second".to_owned()));
    failing.insert("b.vy".to_owned(), Ok(build(None)));
    failing.insert("a.vy".to_owned(), Err("first".to_owned()));
    assert_eq!(
        collect_builds(failing, "abcd").expect_err("Must fail"),
        "Contract `a.vy`: first\nContract `c.vy`: second"
    );
}

#[test]
fn outputs_selected_for_the_build() {
    let contract = VyperContract::new(
        SemVer::new(0, 3, 10),
        String::new(),
        Expression::default(),
        AST::new("test.vy".to_owned(), JsonValue::Null),
        JsonValue::Array(vec![]),
        StringMap::new(),
        Some(JsonValue::Null),
        Some(JsonValue::Null),
        None,
    );
    let selected = select_outputs(contract, &[OutputFlag::ABI, OutputFlag::Layout, OutputFlag::DeveloperDocumentation]);
    assert!(selected.ir.is_none());
    assert!(selected.ast.is_none());
    assert!(matches!(selected.abi, Some(JsonValue::Array(_))));
    assert!(selected.method_identifiers.is_none());
    assert!(matches!(selected.layout, Some(JsonValue::Null)));
    assert!(selected.userdoc.is_none());
    assert!(selected.devdoc.is_none());
    assert!(assembly_wanted(&[OutputFlag::CombinedJson]));
    assert!(assembly_wanted(&[OutputFlag::ABI, OutputFlag::EraVMAssembly]));
    assert!(!assembly_wanted(&[OutputFlag::ABI]));
}

#[test]
fn combined_json_entry_of_a_build() {
    let contract = VyperContract::new(
        SemVer::new(0, 3, 10),
        String::new(),
        Expression::default(),
        AST::new("test.vy".to_owned(), JsonValue::Null),
        JsonValue::Array(vec![]),
        StringMap::new(),
        None,
        None,
        None,
    );
    let selected = select_outputs(contract, &[OutputFlag::ABI]);
    let mut with_dependency = build(Some("nop"));
    with_dependency.factory_dependencies.insert("abcd".to_owned(), "proxy".to_owned());
    let warnings = vec![Warning::new("test.vy".to_owned(), 1, 1, "Beware".to_owned())];
    let entry = into_combined_json(with_dependency, selected, warnings);
    assert_eq!(entry.bytecode, "0x000fab");
    assert!(matches!(entry.abi, Some(JsonValue::Array(_))));
    assert!(entry.method_identifiers.is_none());
    assert_eq!(entry.assembly, Some("nop".to_owned()));
    assert_eq!(entry.warnings.expect("Always exists").len(), 1);
    assert_eq!(entry.factory_deps.expect("Always exists").len(), 1);
}
