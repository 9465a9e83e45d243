//! The decisions made about `vyper`: versions, arguments and outputs.

use era_compiler_vyper::json::JsonValue;
use era_compiler_vyper::project::contract::vyper::expression::Expression;
use era_compiler_vyper::project::contract::Contract;
use era_compiler_vyper::string_map::StringMap;
use era_compiler_vyper::vyper::selection::Selection;
use era_compiler_vyper::vyper::standard_json::input::settings::optimize::Optimize;
use era_compiler_vyper::vyper::standard_json::input::settings::selection::Selection as StandardJsonSelection;
use era_compiler_vyper::vyper::standard_json::input::source::Source;
use era_compiler_vyper::vyper::standard_json::input::Input;
use era_compiler_vyper::vyper::standard_json::output::contract::evm::EVM;
use era_compiler_vyper::vyper::standard_json::output::contract::Contract as StandardJsonContract;
use era_compiler_vyper::vyper::standard_json::output::error::Error as StandardJsonError;
use era_compiler_vyper::vyper::standard_json::output::Output;
use era_compiler_vyper::vyper::target::TargetEVMVersion;
use era_compiler_vyper::vyper::version::SemVer;
use era_compiler_vyper::vyper::version::Version;
use era_compiler_vyper::vyper::Compiler;

fn compiler(major: u64, minor: u64, patch: u64) -> Compiler {
    Compiler {
        executable: "vyper".to_owned(),
        version: Version::new(String::new(), SemVer::new(major, minor, patch)),
    }
}

fn strings(items: &[&str]) -> Vec<String> {
    items.iter().map(|item| item.to_string()).collect()
}

#[test]
fn supported_version_accepted() {
    let version = Compiler::version_from_output("vyper", "0.3.10+commit.91361694\n".to_owned())
        .expect("Always valid");
    assert_eq!(version.long, "0.3.10+commit.91361694\n");
    assert_eq!(
        (version.default.major, version.default.minor, version.default.patch),
        (0, 3, 10)
    );
    assert!(version.default.pre.is_empty());
}

#[test]
fn unsupported_version_refused() {
    let error = Compiler::version_from_output("vyper", "0.3.7+commit.6020b8bb\n".to_owned())
        .expect_err("Must fail");
    assert_eq!(
        error,
        "Only `vyper` versions [ 0.3.3, 0.3.9, 0.3.10, 0.4.0 ] are supported, found 0.3.7"
    );
}

#[test]
fn prerelease_version_refused() {
    let error = Compiler::version_from_output("vyper", "0.4.0-rc.1+commit.abc\n".to_owned())
        .expect_err("Must fail");
    assert_eq!(
        error,
        "Only `vyper` versions [ 0.3.3, 0.3.9, 0.3.10, 0.4.0 ] are supported, found 0.4.0-rc.1"
    );
}

#[test]
fn unparsable_version_refused() {
    let error = Compiler::version_from_output("vyper-x", "not a version".to_owned())
        .expect_err("Must fail");
    assert!(error.starts_with("vyper-x version parsing: "));
}

#[test]
fn semver_text() {
    let version = SemVer::parse("1.2.3-rc.1+build.5").expect("Always valid");
    assert_eq!((version.major, version.minor, version.patch), (1, 2, 3));
    assert_eq!(version.pre, "rc.1");
    assert_eq!(version.build, "build.5");
    assert_eq!(version.to_string(), "1.2.3-rc.1+build.5");
    assert_eq!(SemVer::new(0, 4, 0).to_string(), "0.4.0");
    assert!(SemVer::parse("1.2").is_err());
}

#[test]
fn semver_order_against_releases() {
    let release = SemVer::parse("0.3.10").expect("Always valid");
    let candidate = SemVer::parse("0.3.10-rc.1").expect("Always valid");
    assert!(release.at_least(0, 3, 10));
    assert!(!candidate.at_least(0, 3, 10));
    assert!(candidate.at_least(0, 3, 9));
    assert!(SemVer::new(1, 0, 0).at_least(0, 4, 0));
    assert!(!SemVer::new(0, 3, 9).at_least(0, 4, 0));
    assert!(release.equals_release(0, 3, 10));
    assert!(!candidate.equals_release(0, 3, 10));
}

#[test]
fn supported_versions_listed() {
    let versions: Vec<String> = Compiler::supported_versions()
        .iter()
        .map(|version| version.to_string())
        .collect();
    assert_eq!(versions, strings(&["0.3.3", "0.3.9", "0.3.10", "0.4.0"]));
    assert_eq!(Compiler::first_version_optimizer_unusable().to_string(), "0.3.10");
    assert_eq!(Compiler::first_version_enable_decimals_support().to_string(), "0.4.0");
}

#[test]
fn forbidden_builtin_refused() {
    assert_eq!(
        Compiler::check_unsupported("x = create_copy_of(target)"),
        Err("Built-in function `create_copy_of` is not supported".to_owned())
    );
    assert_eq!(Compiler::check_unsupported("x = create_forwarder_to(target)"), Ok(()));
}

#[test]
fn contract_names_of_paths() {
    assert_eq!(Compiler::contract_name("test.vy"), "test");
    assert_eq!(Compiler::contract_name("contracts/test.vy"), "/test");
    assert_eq!(Compiler::contract_name("dir.v2/x.vy"), "/x");
    assert_eq!(Compiler::contract_name("noextension"), "noextension");
}

#[test]
fn selection_names_round_trip() {
    let flags = [
        Selection::CombinedJson,
        Selection::IR,
        Selection::IRJson,
        Selection::Metadata,
        Selection::AST,
        Selection::ABI,
        Selection::MethodIdentifiers,
        Selection::Layout,
        Selection::Interface,
        Selection::ExternalInterface,
        Selection::UserDocumentation,
        Selection::DeveloperDocumentation,
    ];
    for flag in flags {
        assert_eq!(Selection::from_str(flag.to_string().as_str()), Ok(flag));
        assert!(flag.is_supported_by_vyper());
    }
    assert_eq!(Selection::UserDocumentation.to_string(), "userdoc");
    assert_eq!(
        Selection::from_str("bytecode"),
        Err("Unknown selection flag `bytecode`".to_owned())
    );
}

#[test]
fn batch_requests_extra_outputs() {
    assert_eq!(
        Compiler::batch_selection(&vec![]),
        vec![
            Selection::IR,
            Selection::IRJson,
            Selection::Metadata,
            Selection::AST,
            Selection::ABI,
            Selection::MethodIdentifiers
        ]
    );
    assert_eq!(
        Compiler::batch_selection(&vec![Selection::ABI, Selection::Layout]),
        vec![
            Selection::ABI,
            Selection::Layout,
            Selection::IR,
            Selection::IRJson,
            Selection::Metadata,
            Selection::AST,
            Selection::MethodIdentifiers
        ]
    );
}

#[test]
fn batch_arguments_by_version() {
    let selection = vec![Selection::IRJson, Selection::ABI];
    assert_eq!(
        compiler(0, 3, 10).batch_arguments(&selection, None, true, true),
        strings(&["-f", "ir_json,abi,ir,metadata,ast,method_identifiers", "--optimize", "none"])
    );
    assert_eq!(
        compiler(0, 4, 0).batch_arguments(&selection, None, true, false),
        strings(&["--enable-decimals", "-f", "ir_json,abi,ir,metadata,ast,method_identifiers", "--optimize", "none"])
    );
    assert_eq!(
        compiler(0, 3, 9).batch_arguments(&selection, None, true, false),
        strings(&["-f", "ir_json,abi,ir,metadata,ast,method_identifiers", "--no-optimize"])
    );
    assert_eq!(
        compiler(0, 3, 9).batch_arguments(&selection, None, false, true),
        strings(&["-f", "ir_json,abi,ir,metadata,ast,method_identifiers"])
    );
    assert_eq!(
        compiler(0, 3, 9).batch_arguments(
            &selection,
            Some(TargetEVMVersion::Cancun),
            false,
            true
        ),
        strings(&["--evm-version", "cancun", "-f", "ir_json,abi,ir,metadata,ast,method_identifiers"])
    );
    assert_eq!(
        compiler(0, 3, 9).batch_arguments(&vec![], Some(TargetEVMVersion::TangerineWhistle), false, true)[1],
        "tangerineWhistle"
    );
}

#[test]
fn output_lines_split() {
    assert_eq!(Compiler::output_lines("a\r\nb\n\nc"), strings(&["a", "b", "", "c"]));
    assert_eq!(Compiler::output_lines("a\n"), strings(&["a"]));
    assert_eq!(Compiler::output_lines(""), strings(&[]));
    assert_eq!(Compiler::output_lines("a\r"), strings(&["a\r"]));
    assert_eq!(Compiler::output_lines("\n\n"), strings(&["", ""]));
}

fn standard_json_contract() -> StandardJsonContract {
    let mut method_identifiers = StringMap::new();
    method_identifiers.insert("test()".to_owned(), "f8a8fd6d".to_owned());
    StandardJsonContract {
        source_code: None,
        ir: Expression::default(),
        evm: EVM { method_identifiers },
    }
}

fn output_with(path: &str, name: &str) -> Output {
    let mut file = StringMap::new();
    file.insert(name.to_owned(), standard_json_contract());
    let mut contracts = StringMap::new();
    contracts.insert(path.to_owned(), file);
    Output {
        contracts: Some(contracts),
        sources: None,
        errors: None,
        long_version: None,
    }
}

fn sources_with(path: &str, content: &str) -> StringMap<Source> {
    let mut sources = StringMap::new();
    sources.insert(path.to_owned(), Source::from(content.to_owned()));
    sources
}

#[test]
fn standard_json_sources_bound() {
    let output = Compiler::bind_sources(output_with("test.vy", "test"), sources_with("test.vy", "# code"))
        .expect("Always valid");
    let contracts = output.contracts.expect("Always exists");
    let file = contracts.get(&['t', 'e', 's', 't', '.', 'v', 'y']).expect("Always exists");
    let contract = file.get(&['t', 'e', 's', 't']).expect("Always exists");
    assert_eq!(contract.source_code.as_deref(), Some("# code"));
}

#[test]
fn standard_json_missing_file() {
    let error = Compiler::bind_sources(output_with("other.vy", "other"), sources_with("test.vy", ""))
        .expect_err("Must fail");
    assert_eq!(error, "File `test.vy` not found in the standard JSON output");
}

#[test]
fn standard_json_missing_contract() {
    let error = Compiler::bind_sources(output_with("test.vy", "other"), sources_with("test.vy", ""))
        .expect_err("Must fail");
    assert_eq!(error, "Contract `test` not found in the standard JSON output");
}

#[test]
fn standard_json_unsupported_source() {
    let error = Compiler::bind_sources(
        output_with("test.vy", "test"),
        sources_with("test.vy", "create_copy_of(x)"),
    )
    .expect_err("Must fail");
    assert_eq!(
        error,
        "Contract `test.vy`: Built-in function `create_copy_of` is not supported"
    );
}

#[test]
fn standard_json_errors_reported() {
    let output = Output {
        contracts: None,
        sources: None,
        errors: Some(vec![
            StandardJsonError { message: "bad \"quote\"\n".to_owned() },
            StandardJsonError { message: "tab\tand \u{1}".to_owned() },
        ]),
        long_version: None,
    };
    let error = Compiler::bind_sources(output, sources_with("test.vy", "")).expect_err("Must fail");
    assert_eq!(
        error,
        r#"[{"message":"bad \"quote\"\n"},{"message":"tab\tand \u0001"}]"#
    );
    let empty = Output { contracts: None, sources: None, errors: None, long_version: None };
    assert_eq!(empty.errors_json(), "null");
}

#[test]
fn standard_json_input_adjusted() {
    let make = || {
        Input::try_from_sources(
            StringMap::new(),
            None,
            StandardJsonSelection::generate_default(),
            Optimize::Gas,
            false,
            true,
            vec![],
        )
        .expect("Always valid")
    };
    let mut input = make();
    compiler(0, 3, 10).prepare_standard_json_input(&mut input);
    assert_eq!(input.settings.optimize, Optimize::NoOptimization);
    let mut input = make();
    compiler(0, 3, 9).prepare_standard_json_input(&mut input);
    assert_eq!(input.settings.optimize, Optimize::Gas);
    assert_eq!(input.settings.enable_decimals, None);
    assert_eq!(input.settings.fallback_to_optimizing_for_size, Some(true));
}

#[test]
fn default_output_selection() {
    let selection = StandardJsonSelection::generate_default();
    let entries = selection.entries();
    assert_eq!(entries.len(), 1);
    assert_eq!(entries[0].0, "*");
    assert_eq!(
        entries[0].1,
        vec![
            StandardJsonSelection::MethodIdentifiers,
            StandardJsonSelection::LLL,
            StandardJsonSelection::AST
        ]
    );
    assert_eq!(StandardJsonSelection::MethodIdentifiers.to_string(), "evm.methodIdentifiers");
    assert_eq!(Optimize::Size.to_string(), "codesize");
}

fn batch_stdout() -> String {
    [
        "(seq)",
        r#"{"seq": []}"#,
        r#"{"function_info": {}}"#,
        r#"{"contract_name": "test.vy", "ast": {"ast_type": "Module", "body": []}}"#,
        "[]",
        r#"{"test()": "f8a8fd6d"}"#,
    ]
    .join("\n")
}

#[test]
fn batch_output_read() {
    let version = SemVer::new(0, 3, 10);
    let project = Compiler::batch_project(
        &version,
        vec![],
        vec![("test.vy".to_owned(), Ok("# source".to_owned()))],
        batch_stdout().as_str(),
    )
    .expect("Always valid");
    let entries = project.contracts.entries();
    assert_eq!(entries.len(), 1);
    assert_eq!(entries[0].0, "test.vy");
    match &entries[0].1 {
        Contract::Vyper(contract) => {
            assert_eq!(contract.source_code, "# source");
            assert_eq!(contract.ast.contract_name, "test.vy");
            let identifiers = contract.method_identifiers.entries();
            assert_eq!(identifiers[0].0, "test()");
            assert_eq!(identifiers[0].1, "f8a8fd6d");
            assert!(matches!(contract.abi, JsonValue::Array(ref items) if items.is_empty()));
            assert!(contract.layout.is_none());
        }
        _ => panic!("Expected a Vyper contract"),
    }
}

#[test]
fn batch_read_error_reported() {
    let error = Compiler::batch_project(
        &SemVer::new(0, 3, 10),
        vec![],
        vec![("test.vy".to_owned(), Err("no such file".to_owned()))],
        batch_stdout().as_str(),
    )
    .expect_err("Must fail");
    assert_eq!(error, "no such file");
}

#[test]
fn batch_bad_output_reported() {
    let stdout = batch_stdout().replace(r#"{"test()": "f8a8fd6d"}"#, r#"{"test()": 1}"#);
    let error = Compiler::batch_project(
        &SemVer::new(0, 3, 10),
        vec![],
        vec![("test.vy".to_owned(), Ok(String::new()))],
        stdout.as_str(),
    )
    .expect_err("Must fail");
    assert_eq!(error, "Contract `test.vy` JSON output parsing: invalid type: expected a map of strings");
}

#[test]
fn batch_bad_ast_reported() {
    let stdout = batch_stdout().replace(r#""contract_name": "test.vy", "#, "");
    let error = Compiler::batch_project(
        &SemVer::new(0, 3, 10),
        vec![],
        vec![("test.vy".to_owned(), Ok(String::new()))],
        stdout.as_str(),
    )
    .expect_err("Must fail");
    assert_eq!(error, "Contract `test.vy` JSON output parsing: missing field `contract_name`");
}

#[test]
fn batch_files_without_output_left_out() {
    let project = Compiler::batch_project(
        &SemVer::new(0, 3, 10),
        vec![],
        vec![
            ("a.vy".to_owned(), Ok(String::new())),
            ("b.vy".to_owned(), Ok(String::new())),
        ],
        batch_stdout().as_str(),
    )
    .expect("Always valid");
    assert_eq!(project.contracts.len(), 1);
    assert_eq!(project.contracts.entries()[0].0, "a.vy");
}

#[test]
fn contract_names_cut_from_paths() {
    assert!(Compiler::names_contract("contracts/test.vy"));
    assert!(Compiler::names_contract("noextension"));
    assert!(Compiler::names_contract("dir/noextension"));
    assert!(!Compiler::names_contract("dir.v2/noextension"));
}

#[test]
fn batch_output_completeness() {
    let stdout = batch_stdout();
    assert!(Compiler::batch_output_complete(&vec![], 1, stdout.as_str()));
    assert!(Compiler::batch_output_complete(&vec![], 2, stdout.as_str()));
    assert!(Compiler::batch_output_complete(&vec![], 0, ""));
    let short = stdout.lines().take(4).collect::<Vec<&str>>().join("\n");
    assert!(!Compiler::batch_output_complete(&vec![], 1, short.as_str()));
    let longer = format!("{stdout}\n(seq)");
    assert!(!Compiler::batch_output_complete(&vec![], 2, longer.as_str()));
    assert!(Compiler::batch_output_complete(&vec![], 1, longer.as_str()));
}

#[test]
fn batch_first_failure_in_path_order_reported() {
    let stdout = format!("{}\n{}", batch_stdout(), batch_stdout());
    let error = Compiler::batch_project(
        &SemVer::new(0, 3, 10),
        vec![],
        vec![
            ("b.vy".to_owned(), Err("b.vy missing".to_owned())),
            ("a.vy".to_owned(), Err("a.vy missing".to_owned())),
        ],
        stdout.as_str(),
    )
    .expect_err("Must fail");
    assert_eq!(error, "a.vy missing");
}
