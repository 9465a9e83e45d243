//! The build of a contract and the outputs shown or written from it.

use vstd::prelude::*;
use vstd::string::StringExecFns;

use crate::json::JsonValue;
use crate::project::contract::vyper::ast::AST;
use crate::project::contract::vyper::expression::Expression;
use crate::project::contract::vyper::Contract as VyperContract;
use crate::project::hex_text;
use crate::string_map::has_key;
use crate::string_map::keys_increase;
use crate::string_map::lemma_entries_map;
use crate::string_map::lemma_lex_irreflexive;
use crate::string_map::lex_lt;
use crate::string_map::StringMap;
use crate::text::chars_of;
use crate::vyper::combined_json::contract::warning::Warning;
use crate::vyper::combined_json::contract::Contract as CombinedJsonContract;
use crate::vyper::combined_json::contract::warning::WarningView;

verus! {

broadcast use vstd::std_specs::vec::group_vec_axioms;

/// The EraVM bytecode file extension.
pub const EXTENSION_ERAVM_BINARY: &'static str = "zbin";

/// The EraVM assembly file extension.
pub const EXTENSION_ERAVM_ASSEMBLY: &'static str = "zasm";

/// An output that can be asked for a compiled contract.
#[derive(Debug, Clone, Copy, PartialEq, Eq, Structural, Hash)]
pub enum OutputFlag {
    /// The LLL IR in JSON.
    IRJson,
    /// The AST.
    AST,
    /// The ABI.
    ABI,
    /// The method identifiers.
    MethodIdentifiers,
    /// The storage layout.
    Layout,
    /// The user documentation.
    UserDocumentation,
    /// The developer documentation.
    DeveloperDocumentation,
    /// The EraVM assembly.
    EraVMAssembly,
    /// The project metadata, shown once for the whole project.
    ProjectMetadata,
    /// The combined JSON, which is shown through another path.
    CombinedJson,
}

/// The EraVM build of a contract.
#[derive(Debug)]
pub struct BuildOutput {
    /// The bytecode.
    pub bytecode: Vec<u8>,
    /// The hash of the bytecode, once it is linked.
    pub bytecode_hash: Option<Vec<u8>>,
    /// The EraVM assembly, where it was asked for.
    pub assembly: Option<String>,
    /// The factory dependencies: the hash of each, by path.
    pub factory_dependencies: StringMap<String>,
}

/// The `vyper` outputs of a contract, each as its JSON text, where there is
/// one.
#[derive(Debug)]
pub struct SerializedOutputs {
    /// The LLL IR.
    pub ir_json: Option<String>,
    /// The AST.
    pub ast: Option<String>,
    /// The ABI.
    pub abi: Option<String>,
    /// The method identifiers.
    pub method_identifiers: Option<String>,
    /// The storage layout.
    pub layout: Option<String>,
    /// The user documentation.
    pub userdoc: Option<String>,
    /// The developer documentation.
    pub devdoc: Option<String>,
}

/// The JSON output a flag names, if it names one.
pub open spec fn json_output(outputs: SerializedOutputs, flag: OutputFlag) -> Option<String> {
    match flag {
        OutputFlag::IRJson => outputs.ir_json,
        OutputFlag::AST => outputs.ast,
        OutputFlag::ABI => outputs.abi,
        OutputFlag::MethodIdentifiers => outputs.method_identifiers,
        OutputFlag::Layout => outputs.layout,
        OutputFlag::UserDocumentation => outputs.userdoc,
        OutputFlag::DeveloperDocumentation => outputs.devdoc,
        _ => None,
    }
}

/// Whether a flag names a JSON output of `vyper`.
pub open spec fn is_json_flag(flag: OutputFlag) -> bool {
    match flag {
        OutputFlag::EraVMAssembly | OutputFlag::ProjectMetadata | OutputFlag::CombinedJson => false,
        _ => true,
    }
}

/// Whether what each selected flag shows is there, and no flag asks for the
/// combined JSON.
pub open spec fn outputs_present(build: BuildOutput, outputs: SerializedOutputs, selection: Seq<OutputFlag>) -> bool {
    forall|i: int|
        0 <= i < selection.len() ==> {
            &&& #[trigger] selection[i] != OutputFlag::CombinedJson
            &&& is_json_flag(selection[i]) ==> json_output(outputs, selection[i]) is Some
            &&& selection[i] == OutputFlag::EraVMAssembly ==> build.assembly is Some
        }
}

/// The text a flag adds to the file of extra outputs: a JSON output and a
/// line feed.
pub open spec fn json_line(outputs: SerializedOutputs, flag: OutputFlag) -> Seq<char> {
    if is_json_flag(flag) {
        json_output(outputs, flag)->Some_0@ + "\n"@
    } else {
        Seq::empty()
    }
}

/// The text of the file of extra outputs: the JSON outputs selected, each on
/// a line, in the order of the selection.
pub open spec fn extra_output_text(outputs: SerializedOutputs, selection: Seq<OutputFlag>) -> Seq<char>
    decreases selection.len(),
{
    if selection.len() == 0 {
        Seq::empty()
    } else {
        extra_output_text(outputs, selection.drop_last()) + json_line(outputs, selection.last())
    }
}

/// The assembly files: one for each time the assembly is selected.
pub open spec fn assembly_files(build: BuildOutput, selection: Seq<OutputFlag>, file_name: Seq<char>) -> Seq<
    (Seq<char>, Seq<char>),
>
    decreases selection.len(),
{
    if selection.len() == 0 {
        Seq::empty()
    } else {
        let before = assembly_files(build, selection.drop_last(), file_name);
        if selection.last() == OutputFlag::EraVMAssembly {
            before.push((file_name + "."@ + EXTENSION_ERAVM_ASSEMBLY@, build.assembly->Some_0@))
        } else {
            before
        }
    }
}

/// The bytecode as it is shown: `0x` and its lower-case hexadecimal digits.
pub open spec fn bytecode_text(build: BuildOutput) -> Seq<char> {
    "0x"@ + hex_text(build.bytecode@)
}

/// The files written for a contract, by name and contents, in the order
/// they are written: the bytecode file; then, where outputs are selected,
/// the file of extra outputs named as the contract's file, and an assembly
/// file each time the assembly is selected.
pub open spec fn planned_files(
    build: BuildOutput,
    outputs: SerializedOutputs,
    selection: Seq<OutputFlag>,
    file_name: Seq<char>,
) -> Seq<(Seq<char>, Seq<char>)> {
    seq![(file_name + "."@ + EXTENSION_ERAVM_BINARY@, bytecode_text(build))] + if selection.len() == 0 {
        Seq::empty()
    } else {
        seq![(file_name, extra_output_text(outputs, selection))] + assembly_files(build, selection, file_name)
    }
}

/// The refusal to overwrite a file, given by its path as it is shown.
pub open spec fn refusal_text(path: Seq<char>) -> Seq<char> {
    "Refusing to overwrite an existing file "@ + path + " (use --overwrite to force)."@
}

/// The warnings as they are shown, each after an empty line.
pub open spec fn warnings_shown(warnings: Seq<WarningView>) -> Seq<char>
    decreases warnings.len(),
{
    if warnings.len() == 0 {
        Seq::empty()
    } else {
        warnings_shown(warnings.drop_last()) + "\n"@ + warnings.last().text() + "\n"@
    }
}

/// What a flag shows on the standard output.
pub open spec fn flag_stdout(build: BuildOutput, outputs: SerializedOutputs, flag: OutputFlag) -> Seq<char> {
    if flag == OutputFlag::EraVMAssembly {
        build.assembly->Some_0@ + "\n"@
    } else {
        json_line(outputs, flag)
    }
}

/// What the contract shows on the standard output: its bytecode, then what
/// each selected flag shows.
pub open spec fn stdout_text(build: BuildOutput, outputs: SerializedOutputs, selection: Seq<OutputFlag>) -> Seq<char>
    decreases selection.len(),
{
    if selection.len() == 0 {
        bytecode_text(build) + "\n"@
    } else {
        stdout_text(build, outputs, selection.drop_last()) + flag_stdout(build, outputs, selection.last())
    }
}

/// The headers of the assembly shown, one each time it is selected.
pub open spec fn assembly_headers(path: Seq<char>, selection: Seq<OutputFlag>) -> Seq<char>
    decreases selection.len(),
{
    if selection.len() == 0 {
        Seq::empty()
    } else {
        assembly_headers(path, selection.drop_last()) + if selection.last() == OutputFlag::EraVMAssembly {
            "Contract `"@ + path + "` assembly:\n"@
        } else {
            Seq::empty()
        }
    }
}

/// What the contract shows on the standard error: its warnings, its path,
/// and a header for each assembly shown.
pub open spec fn stderr_text(path: Seq<char>, warnings: Seq<WarningView>, selection: Seq<OutputFlag>) -> Seq<char> {
    warnings_shown(warnings) + "Contract `"@ + path + "`:\n"@ + assembly_headers(path, selection)
}

/// Encodes bytes as lower-case hexadecimal text with `hex::encode`.
///
/// Trusted: the text is two lower-case hexadecimal digits for each byte,
/// in order, as the function's documentation gives it.
#[verifier::external_body]
fn hex_encode(bytes: &Vec<u8>) -> (r: String)
    ensures
        r@ == hex_text(bytes@),
{
    hex::encode(bytes.as_slice())
}

/// The JSON output a flag names.
fn json_output_of(outputs: &SerializedOutputs, flag: OutputFlag) -> (r: Option<&String>)
    ensures
        match json_output(*outputs, flag) {
            Some(text) => r matches Some(found) && *found == text,
            None => r is None,
        },
{
    let output = match flag {
        OutputFlag::IRJson => &outputs.ir_json,
        OutputFlag::AST => &outputs.ast,
        OutputFlag::ABI => &outputs.abi,
        OutputFlag::MethodIdentifiers => &outputs.method_identifiers,
        OutputFlag::Layout => &outputs.layout,
        OutputFlag::UserDocumentation => &outputs.userdoc,
        OutputFlag::DeveloperDocumentation => &outputs.devdoc,
        _ => return None,
    };
    match output {
        Some(text) => Some(text),
        None => None,
    }
}

/// Whether a flag names a JSON output of `vyper`.
fn names_json(flag: OutputFlag) -> (r: bool)
    ensures
        r == is_json_flag(flag),
{
    match flag {
        OutputFlag::EraVMAssembly | OutputFlag::ProjectMetadata | OutputFlag::CombinedJson => false,
        _ => true,
    }
}

/// The bytecode as it is shown: `0x` and its hexadecimal digits.
pub fn bytecode_string(build: &BuildOutput) -> (r: String)
    ensures
        r@ == bytecode_text(*build),
{
    let mut text = String::from_str("0x");
    let digits = hex_encode(&build.bytecode);
    text.append(digits.as_str());
    text
}

/// The files to write for a contract whose file is named `file_name`, by
/// name and contents, in the order they are written.
pub fn output_files(
    build: &BuildOutput,
    outputs: &SerializedOutputs,
    selection: &[OutputFlag],
    file_name: &str,
) -> (r: Vec<(String, String)>)
    requires
        outputs_present(*build, *outputs, selection@),
    ensures
        r@.map_values(|file: (String, String)| (file.0@, file.1@)) == planned_files(
            *build,
            *outputs,
            selection@,
            file_name@,
        ),
{
    let mut files: Vec<(String, String)> = Vec::new();
    let mut binary_name = String::from_str(file_name);
    binary_name.append(".");
    binary_name.append(EXTENSION_ERAVM_BINARY);
    files.push((binary_name, bytecode_string(build)));
    let ghost first = seq![(file_name@ + "."@ + EXTENSION_ERAVM_BINARY@, bytecode_text(*build))];
    proof {
        assert(files@.map_values(|file: (String, String)| (file.0@, file.1@)) =~= first);
    }
    if selection.len() == 0 {
        proof {
            assert(first + Seq::<(Seq<char>, Seq<char>)>::empty() =~= first);
        }
        return files;
    }
    let mut extra = String::new();
    let mut assembly: Vec<(String, String)> = Vec::new();
    let mut i: usize = 0;
    proof {
        assert(selection@.take(0) =~= Seq::<OutputFlag>::empty());
    }
    while i < selection.len()
        invariant
            i <= selection.len(),
            outputs_present(*build, *outputs, selection@),
            extra@ == extra_output_text(*outputs, selection@.take(i as int)),
            assembly@.map_values(|file: (String, String)| (file.0@, file.1@)) == assembly_files(
                *build,
                selection@.take(i as int),
                file_name@,
            ),
        decreases selection.len() - i,
    {
        let flag = selection[i];
        proof {
            assert(selection@.take(i + 1).drop_last() =~= selection@.take(i as int));
            assert(selection@.take(i + 1).last() == flag);
            assert(selection@[i as int] == flag);
        }
        let ghost before = assembly@;
        if names_json(flag) {
            match json_output_of(outputs, flag) {
                Some(text) => {
                    extra.append(text.as_str());
                    extra.append("\n");
                },
                None => {},
            }
        } else if flag == OutputFlag::EraVMAssembly {
            let mut name = String::from_str(file_name);
            name.append(".");
            name.append(EXTENSION_ERAVM_ASSEMBLY);
            match &build.assembly {
                Some(text) => {
                    assembly.push((name, String::from_str(text.as_str())));
                },
                None => {},
            }
        }
        proof {
            assert(assembly@.map_values(|file: (String, String)| (file.0@, file.1@)) =~= assembly_files(
                *build,
                selection@.take(i + 1),
                file_name@,
            ));
        }
        i = i + 1;
    }
    proof {
        assert(selection@.take(selection.len() as int) =~= selection@);
    }
    let ghost head = files@;
    files.push((String::from_str(file_name), extra));
    let ghost middle = files@;
    files.append(&mut assembly);
    proof {
        assert(files@.map_values(|file: (String, String)| (file.0@, file.1@)) =~= planned_files(
            *build,
            *outputs,
            selection@,
            file_name@,
        ));
    }
    files
}

/// Refuses to overwrite a file that exists unless overwriting is allowed;
/// `path` is the file's path as it is shown.
pub fn check_overwrite(path: &str, exists: bool, overwrite: bool) -> (r: Result<(), String>)
    ensures
        r is Err <==> exists && !overwrite,
        r matches Err(message) ==> message@ == refusal_text(path@),
{
    if exists && !overwrite {
        let mut message = String::from_str("Refusing to overwrite an existing file ");
        message.append(path);
        message.append(" (use --overwrite to force).");
        return Err(message);
    }
    Ok(())
}

/// The warnings as they are shown, each after an empty line.
pub fn warnings_text(warnings: &Vec<Warning>) -> (r: String)
    ensures
        r@ == warnings_shown(warnings@.map_values(|warning: Warning| warning@)),
{
    let ghost views = warnings@.map_values(|warning: Warning| warning@);
    let mut text = String::new();
    let mut i: usize = 0;
    while i < warnings.len()
        invariant
            i <= warnings.len(),
            views == warnings@.map_values(|warning: Warning| warning@),
            text@ == warnings_shown(views.take(i as int)),
        decreases warnings.len() - i,
    {
        proof {
            assert(views.take(i + 1).drop_last() =~= views.take(i as int));
            assert(views.take(i + 1).last() == warnings@[i as int]@);
        }
        text.append("\n");
        let shown = warnings[i].to_string();
        text.append(shown.as_str());
        text.append("\n");
        i = i + 1;
    }
    proof {
        assert(views.take(warnings.len() as int) =~= views);
    }
    text
}

/// What a contract at `path` shows on the standard output and on the
/// standard error, in that order.
pub fn terminal_texts(
    path: &str,
    build: &BuildOutput,
    warnings: &Vec<Warning>,
    selection: &[OutputFlag],
    outputs: &SerializedOutputs,
) -> (r: (String, String))
    requires
        outputs_present(*build, *outputs, selection@),
    ensures
        r.0@ == stdout_text(*build, *outputs, selection@),
        r.1@ == stderr_text(path@, warnings@.map_values(|warning: Warning| warning@), selection@),
{
    let mut stdout = bytecode_string(build);
    stdout.append("\n");
    let mut stderr = warnings_text(warnings);
    stderr.append("Contract `");
    stderr.append(path);
    stderr.append("`:\n");
    let ghost start = stderr@;
    let mut headers = String::new();
    let mut i: usize = 0;
    proof {
        assert(selection@.take(0) =~= Seq::<OutputFlag>::empty());
    }
    while i < selection.len()
        invariant
            i <= selection.len(),
            outputs_present(*build, *outputs, selection@),
            stdout@ == stdout_text(*build, *outputs, selection@.take(i as int)),
            headers@ == assembly_headers(path@, selection@.take(i as int)),
        decreases selection.len() - i,
    {
        let flag = selection[i];
        proof {
            assert(selection@.take(i + 1).drop_last() =~= selection@.take(i as int));
            assert(selection@.take(i + 1).last() == flag);
            assert(selection@[i as int] == flag);
        }
        if names_json(flag) {
            match json_output_of(outputs, flag) {
                Some(text) => {
                    stdout.append(text.as_str());
                    stdout.append("\n");
                },
                None => {},
            }
        } else if flag == OutputFlag::EraVMAssembly {
            headers.append("Contract `");
            headers.append(path);
            headers.append("` assembly:\n");
            match &build.assembly {
                Some(text) => {
                    stdout.append(text.as_str());
                    stdout.append("\n");
                },
                None => {},
            }
        }
        i = i + 1;
    }
    proof {
        assert(selection@.take(selection.len() as int) =~= selection@);
    }
    stderr.append(headers.as_str());
    (stdout, stderr)
}

/// Whether a contract failed to compile.
pub open spec fn has_failure(results: Seq<(String, Result<BuildOutput, String>)>) -> bool
    decreases results.len(),
{
    results.len() > 0 && (has_failure(results.drop_last()) || results.last().1 is Err)
}

/// Whether a compiled contract depends on the factory dependency of hash
/// `hash`.
pub open spec fn uses_factory(results: Seq<(String, Result<BuildOutput, String>)>, hash: Seq<char>) -> bool
    decreases results.len(),
{
    results.len() > 0 && (uses_factory(results.drop_last(), hash) || (results.last().1 is Ok
        && results.last().1->Ok_0.factory_dependencies.map().contains_key(hash)))
}

/// The errors of the contracts that failed to compile, each after the
/// contract's path, one on a line.
pub open spec fn compile_errors(results: Seq<(String, Result<BuildOutput, String>)>) -> Seq<char>
    decreases results.len(),
{
    if results.len() == 0 {
        Seq::empty()
    } else {
        let before = compile_errors(results.drop_last());
        match results.last().1 {
            Ok(_) => before,
            Err(error) => (if before.len() == 0 {
                before
            } else {
                before + "\n"@
            }) + "Contract `"@ + results.last().0@ + "`: "@ + error@,
        }
    }
}

/// Gathers the builds of the contracts of a project, by path: the errors of
/// all that failed, where any did; else the builds, and whether any of them
/// depends on the factory dependency of hash `factory_hash` (the minimal
/// proxy, which is then added to the project's build).
pub fn collect_builds(results: StringMap<Result<BuildOutput, String>>, factory_hash: &str) -> (r: Result<
    (StringMap<BuildOutput>, bool),
    String,
>)
    ensures
        match r {
            Err(message) => has_failure(results.contents()) && message@ == compile_errors(results.contents()),
            Ok((builds, used)) => {
                &&& !has_failure(results.contents())
                &&& used == uses_factory(results.contents(), factory_hash@)
                &&& forall|key: Seq<char>| #[trigger] builds.map().contains_key(key) <==> results.map().contains_key(key)
                &&& forall|key: Seq<char>| #[trigger] builds.map().contains_key(key) ==> results.map()[key]
                    == Ok::<BuildOutput, String>(builds.map()[key])
            },
        },
{
    let ghost all = results.contents();
    let ghost map = results.map();
    let mut entries = results.into_entries();
    proof {
        lemma_entries_map(all);
        assert(all.take(0) =~= Seq::<(String, Result<BuildOutput, String>)>::empty());
        assert(entries@ =~= all.skip(0));
    }
    let hash: Vec<char> = chars_of(factory_hash);
    let mut builds: StringMap<BuildOutput> = StringMap::new();
    let mut errors = String::new();
    let mut failed = false;
    let mut used = false;
    let mut i: usize = 0;
    let n = entries.len();
    while entries.len() > 0
        invariant
            n == all.len(),
            i <= n,
            entries@ == all.skip(i as int),
            keys_increase(all),
            hash@ == factory_hash@,
            errors@ == compile_errors(all.take(i as int)),
            failed == has_failure(all.take(i as int)),
            used == uses_factory(all.take(i as int), factory_hash@),
            forall|j: int| 0 <= j < i && (#[trigger] all[j]).1 is Err ==> failed,
            forall|key: Seq<char>| #[trigger] builds.map().contains_key(key) <==> exists|j: int|
                0 <= j < i && all[j].0@ == key && all[j].1 is Ok,
            forall|j: int| 0 <= j < i && (#[trigger] all[j]).1 is Ok ==> builds.map().contains_key(all[j].0@)
                && builds.map()[all[j].0@] == all[j].1->Ok_0,
        decreases entries.len(),
    {
        let (path, result) = entries.remove(0);
        proof {
            assert(entries@ =~= all.skip(i + 1));
            assert((path, result) == all[i as int]);
            assert(all.take(i + 1).drop_last() =~= all.take(i as int));
            assert(all.take(i + 1).last() == all[i as int]);
        }
        match result {
            Ok(build) => {
                let found = build.factory_dependencies.get(hash.as_slice()).is_some();
                used = used || found;
                let ghost before = builds.map();
                builds.insert(path, build);
                proof {
                    assert forall|key: Seq<char>| #[trigger] builds.map().contains_key(key) <==> exists|j: int|
                        0 <= j < i + 1 && all[j].0@ == key && all[j].1 is Ok by {
                        if key == all[i as int].0@ {
                            assert(0 <= i < i + 1 && all[i as int].0@ == key);
                        }
                    }
                    assert forall|j: int| 0 <= j < i + 1 && (#[trigger] all[j]).1 is Ok implies builds.map().contains_key(
                        all[j].0@,
                    ) && builds.map()[all[j].0@] == all[j].1->Ok_0 by {
                        if j < i {
                            assert(lex_lt(all[j].0@, all[i as int].0@));
                            lemma_lex_irreflexive(all[j].0@);
                        }
                    }
                }
            },
            Err(error) => {
                if failed {
                    errors.append("\n");
                }
                errors.append("Contract `");
                errors.append(path.as_str());
                errors.append("`: ");
                errors.append(error.as_str());
                proof {
                    if !failed {
                        lemma_no_failure_no_errors(all.take(i as int));
                    } else {
                        lemma_failure_errors(all.take(i as int));
                    }
                }
                failed = true;
            },
        }
        i = i + 1;
    }
    proof {
        assert(all.take(n as int) =~= all);
    }
    if failed {
        return Err(errors);
    }
    proof {
        assert forall|key: Seq<char>| #[trigger] builds.map().contains_key(key) <==> map.contains_key(key) by {
            if map.contains_key(key) {
                assert(has_key(all, key));
                let j = choose|j: int| 0 <= j < all.len() && #[trigger] all[j].0@ == key;
                assert(all[j].1 is Ok);
            }
        }
        assert forall|key: Seq<char>| #[trigger] builds.map().contains_key(key) implies map[key]
            == Ok::<BuildOutput, String>(builds.map()[key]) by {
            let j = choose|j: int| 0 <= j < i && all[j].0@ == key && all[j].1 is Ok;
            assert(all[j].1 is Ok);
        }
    }
    Ok((builds, used))
}

/// Where no contract failed, no error is written.
proof fn lemma_no_failure_no_errors(results: Seq<(String, Result<BuildOutput, String>)>)
    requires
        !has_failure(results),
    ensures
        compile_errors(results).len() == 0,
    decreases results.len(),
{
    if results.len() > 0 {
        lemma_no_failure_no_errors(results.drop_last());
    }
}

/// Where a contract failed, its error is written.
proof fn lemma_failure_errors(results: Seq<(String, Result<BuildOutput, String>)>)
    requires
        has_failure(results),
    ensures
        compile_errors(results).len() > 0,
    decreases results.len(),
{
    reveal_strlit("Contract `");
    if has_failure(results.drop_last()) {
        lemma_failure_errors(results.drop_last());
    }
}

/// The outputs of `vyper` kept for a compiled contract: those selected.
#[derive(Debug)]
pub struct SelectedOutputs {
    /// The LLL IR.
    pub ir: Option<Expression>,
    /// The AST.
    pub ast: Option<AST>,
    /// The ABI.
    pub abi: Option<JsonValue>,
    /// The method identifiers.
    pub method_identifiers: Option<StringMap<String>>,
    /// The storage layout.
    pub layout: Option<JsonValue>,
    /// The user documentation.
    pub userdoc: Option<JsonValue>,
    /// The developer documentation.
    pub devdoc: Option<JsonValue>,
}

/// Whether a flag is selected.
pub fn selects(selection: &[OutputFlag], flag: OutputFlag) -> (r: bool)
    ensures
        r == selection@.contains(flag),
{
    let mut i: usize = 0;
    while i < selection.len()
        invariant
            i <= selection.len(),
            forall|j: int| 0 <= j < i ==> selection@[j] != flag,
        decreases selection.len() - i,
    {
        if selection[i] == flag {
            return true;
        }
        i = i + 1;
    }
    false
}

/// Whether the EraVM assembly is to be kept in the build: it is selected
/// itself or through the combined JSON.
pub fn assembly_wanted(selection: &[OutputFlag]) -> (r: bool)
    ensures
        r == (selection@.contains(OutputFlag::EraVMAssembly) || selection@.contains(OutputFlag::CombinedJson)),
{
    selects(selection, OutputFlag::EraVMAssembly) || selects(selection, OutputFlag::CombinedJson)
}

/// The outputs of a contract kept for its build: each that is selected.
pub fn select_outputs(contract: VyperContract, selection: &[OutputFlag]) -> (r: SelectedOutputs)
    ensures
        r.ir == (if selection@.contains(OutputFlag::IRJson) { Some(contract.ir) } else { None }),
        r.ast == (if selection@.contains(OutputFlag::AST) { Some(contract.ast) } else { None }),
        r.abi == (if selection@.contains(OutputFlag::ABI) { Some(contract.abi) } else { None }),
        r.method_identifiers == (if selection@.contains(OutputFlag::MethodIdentifiers) {
            Some(contract.method_identifiers)
        } else {
            None
        }),
        r.layout == (if selection@.contains(OutputFlag::Layout) { contract.layout } else { None }),
        r.userdoc == (if selection@.contains(OutputFlag::UserDocumentation) { contract.userdoc } else { None }),
        r.devdoc == (if selection@.contains(OutputFlag::DeveloperDocumentation) {
            contract.devdoc
        } else {
            None
        }),
{
    let VyperContract { version: _, source_code: _, ir, ast, abi, method_identifiers, layout, userdoc, devdoc } =
        contract;
    SelectedOutputs {
        ir: if selects(selection, OutputFlag::IRJson) { Some(ir) } else { None },
        ast: if selects(selection, OutputFlag::AST) { Some(ast) } else { None },
        abi: if selects(selection, OutputFlag::ABI) { Some(abi) } else { None },
        method_identifiers: if selects(selection, OutputFlag::MethodIdentifiers) {
            Some(method_identifiers)
        } else {
            None
        },
        layout: if selects(selection, OutputFlag::Layout) { layout } else { None },
        userdoc: if selects(selection, OutputFlag::UserDocumentation) { userdoc } else { None },
        devdoc: if selects(selection, OutputFlag::DeveloperDocumentation) { devdoc } else { None },
    }
}

/// The combined JSON entry of a compiled contract: its bytecode as it is
/// shown, the outputs kept for it, its assembly, its warnings and its
/// factory dependencies.
pub fn into_combined_json(build: BuildOutput, outputs: SelectedOutputs, warnings: Vec<Warning>) -> (r:
    CombinedJsonContract)
    ensures
        r.bytecode@ == bytecode_text(build),
        r.method_identifiers == outputs.method_identifiers,
        r.abi == outputs.abi,
        r.layout == outputs.layout,
        r.userdoc == outputs.userdoc,
        r.devdoc == outputs.devdoc,
        r.assembly == build.assembly,
        r.warnings == Some(warnings),
        r.factory_deps == Some(build.factory_dependencies),
{
    let bytecode = bytecode_string(&build);
    let BuildOutput { bytecode: _, bytecode_hash: _, assembly, factory_dependencies } = build;
    let SelectedOutputs { ir: _, ast: _, abi, method_identifiers, layout, userdoc, devdoc } = outputs;
    CombinedJsonContract {
        bytecode,
        method_identifiers,
        abi,
        layout,
        userdoc,
        devdoc,
        assembly,
        warnings: Some(warnings),
        factory_deps: Some(factory_dependencies),
    }
}

} // verus!
