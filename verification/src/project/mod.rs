//! The Vyper project.

pub mod contract;

use vstd::prelude::*;
use vstd::string::StringExecFns;

use crate::json::hex_digit;
use crate::json::Json;
use crate::json::JsonValue;
use crate::text::chars_of;
use crate::string_map::lemma_entries_map;
use crate::string_map::StringMap;
use crate::vyper::selection::Selection;
use crate::vyper::standard_json::output::contract::Contract as StandardJsonContract;
use crate::vyper::standard_json::output::error::Error as StandardJsonError;
use crate::vyper::standard_json::output::Output as StandardJsonOutput;
use crate::vyper::version::SemVer;
use crate::vyper::version::SemVerParts;

use self::contract::eravm_assembly::Contract as EraVMAssemblyContract;
use self::contract::llvm_ir::Contract as LLVMIRContract;
use self::contract::vyper::ast::AST;
use self::contract::vyper::Contract as VyperContract;
use self::contract::Contract;

verus! {

broadcast use vstd::std_specs::vec::group_vec_axioms;

/// The lower-case hexadecimal text of bytes, two digits a byte.
pub open spec fn hex_text(bytes: Seq<u8>) -> Seq<char>
    decreases bytes.len(),
{
    if bytes.len() == 0 {
        Seq::empty()
    } else {
        hex_text(bytes.drop_last()) + seq![
            hex_digit(bytes.last() as nat / 16),
            hex_digit(bytes.last() as nat % 16),
        ]
    }
}

/// What `era_compiler_common::Hash::keccak256_multiple` computes of the
/// UTF-8 bytes of texts taken one after another: the 32 bytes of the hash.
pub uninterp spec fn keccak256_of_texts(texts: Seq<Seq<char>>) -> Seq<u8>;

/// The `keccak256` hash of a project's source code.
#[derive(Debug)]
pub struct ProjectHash {
    /// The bytes of the hash.
    pub bytes: Vec<u8>,
    /// The text of the hash: `0x`, then the bytes in hexadecimal.
    pub string: String,
}

/// The texts of a sequence of strings.
pub open spec fn texts_of(strings: Seq<String>) -> Seq<Seq<char>> {
    strings.map_values(|text: String| text@)
}

/// Hashes texts with `era_compiler_common::Hash::keccak256_multiple`.
///
/// Trusted: the bytes are those the function computes of the texts, 32 of
/// them, and the text is `0x` and their lower-case hexadecimal digits, as
/// the function formats it with `hex::encode`.
#[verifier::external_body]
fn keccak256_multiple(texts: &Vec<String>) -> (r: ProjectHash)
    ensures
        r.bytes@ == keccak256_of_texts(texts_of(texts@)),
        r.bytes@.len() == 32,
        r.string@ == "0x"@ + hex_text(r.bytes@),
{
    let preimages: Vec<&[u8]> = texts.iter().map(|text| text.as_bytes()).collect();
    let hash = era_compiler_common::Hash::keccak256_multiple(preimages.as_slice());
    ProjectHash { bytes: hash.as_bytes().to_vec(), string: hash.to_string() }
}

/// The source codes of the contracts of a project, in the order of their
/// paths.
pub open spec fn source_texts(contracts: StringMap<Contract>) -> Seq<Seq<char>> {
    contracts.contents().map_values(|entry: (String, Contract)| entry.1.source_text())
}

/// The messages of errors, separated by blank lines.
pub open spec fn joined_messages(errors: Seq<StandardJsonError>) -> Seq<char>
    decreases errors.len(),
{
    if errors.len() == 0 {
        Seq::empty()
    } else if errors.len() == 1 {
        errors[0].message@
    } else {
        joined_messages(errors.drop_last()) + "\n\n"@ + errors.last().message@
    }
}

/// The path of a contract in a project: the file path, a colon and the
/// contract name.
pub open spec fn full_path(path: Seq<char>, name: Seq<char>) -> Seq<char> {
    path + ":"@ + name
}

/// Whether the standard JSON output has the AST of a file.
pub open spec fn has_ast(sources: Option<StringMap<JsonValue>>, path: Seq<char>) -> bool {
    sources is Some && sources->0.map().contains_key(path)
}

/// Whether a file of the standard JSON output can be taken into a project:
/// it holds no contract, or its AST is there.
pub open spec fn file_accepted(
    files: Seq<(String, StringMap<StandardJsonContract>)>,
    sources: Option<StringMap<JsonValue>>,
    i: int,
) -> bool {
    files[i].1.contents().len() == 0 || has_ast(sources, files[i].0@)
}

/// Whether a project contract is the Vyper contract made of a contract of
/// the standard JSON output, filed under `key` with the AST `ast`.
pub open spec fn made_of(
    value: Contract,
    contract: StandardJsonContract,
    version: SemVerParts,
    key: Seq<char>,
    ast: Json,
) -> bool {
    &&& value is Vyper
    &&& value->Vyper_0.version.parts() == version
    &&& contract.source_code == Some(value->Vyper_0.source_code)
    &&& value->Vyper_0.ir == contract.ir
    &&& value->Vyper_0.ast.contract_name@ == key
    &&& value->Vyper_0.ast.ast.model() == ast
    &&& value->Vyper_0.abi.model() == Json::Null
    &&& value->Vyper_0.method_identifiers == contract.evm.method_identifiers
    &&& value->Vyper_0.layout is None
    &&& value->Vyper_0.userdoc is None
    &&& value->Vyper_0.devdoc is None
}

/// The files of the standard JSON output, in the order of their paths.
pub open spec fn files_of(contracts: Option<StringMap<StringMap<StandardJsonContract>>>) -> Seq<
    (String, StringMap<StandardJsonContract>),
> {
    match contracts {
        Some(files) => files.contents(),
        None => Seq::empty(),
    }
}

/// The errors of the standard JSON output.
pub open spec fn errors_of(errors: Option<Vec<StandardJsonError>>) -> Seq<StandardJsonError> {
    match errors {
        Some(errors) => errors@,
        None => Seq::empty(),
    }
}

/// Whether the contract at position `k` of the file at position `i` has
/// been taken, when files before `i` and contracts of `i` before `k` have.
pub open spec fn taken(
    files: Seq<(String, StringMap<StandardJsonContract>)>,
    i: int,
    k: int,
    j: int,
    l: int,
) -> bool {
    &&& 0 <= j < files.len()
    &&& 0 <= l < files[j].1.contents().len()
    &&& (j < i || (j == i && l < k))
}

/// Whether no pair taken before position (`i`, `k`) and after the contract
/// at (`j`, `l`) is filed under the same full path.
pub open spec fn latest(
    files: Seq<(String, StringMap<StandardJsonContract>)>,
    i: int,
    k: int,
    j: int,
    l: int,
) -> bool {
    forall|j2: int, l2: int|
        #[trigger] taken(files, i, k, j2, l2) && (j < j2 || (j == j2 && l < l2)) ==> full_path(
            files[j2].0@,
            files[j2].1.contents()[l2].0@,
        ) != full_path(files[j].0@, files[j].1.contents()[l].0@)
}

/// The first source that could not be read, if any.
pub open spec fn first_unread(sources: Seq<(String, Result<String, String>)>) -> Option<int> {
    if exists|i: int| 0 <= i < sources.len() && (#[trigger] sources[i]).1 is Err {
        Some(
            choose|i: int|
                0 <= i < sources.len() && (#[trigger] sources[i]).1 is Err && forall|j: int|
                    0 <= j < i ==> (#[trigger] sources[j]).1 is Ok,
        )
    } else {
        None
    }
}

/// The source codes read, by path: a later source of a path replaces an
/// earlier one.
pub open spec fn read_sources(sources: Seq<(String, Result<String, String>)>) -> Map<Seq<char>, String>
    decreases sources.len(),
{
    if sources.len() == 0 {
        Map::empty()
    } else {
        read_sources(sources.drop_last()).insert(sources.last().0@, sources.last().1->Ok_0)
    }
}

/// The Vyper project.
#[derive(Debug)]
pub struct Project {
    /// The Vyper compiler version.
    pub version: SemVer,
    /// The contract data, by path.
    pub contracts: StringMap<Contract>,
    /// The selection output.
    pub output_selection: Vec<Selection>,
    /// The project source code hash.
    pub project_hash: ProjectHash,
}

impl Project {
    /// A shortcut constructor: the project hash is that of the source codes
    /// of the contracts, in the order of their paths.
    pub fn new(version: SemVer, contracts: StringMap<Contract>, output_selection: Vec<Selection>) -> (r: Self)
        ensures
            r.version == version,
            r.contracts == contracts,
            r.output_selection == output_selection,
            r.project_hash.bytes@ == keccak256_of_texts(source_texts(contracts)),
            r.project_hash.string@ == "0x"@ + hex_text(r.project_hash.bytes@),
    {
        let entries = contracts.entries();
        let mut source_codes: Vec<String> = Vec::new();
        let mut i: usize = 0;
        while i < entries.len()
            invariant
                i <= entries.len(),
                entries@ == contracts.contents(),
                texts_of(source_codes@) == source_texts(contracts).take(i as int),
            decreases entries.len() - i,
        {
            let source_code = entries[i].1.source_code().to_owned();
            proof {
                assert(texts_of(source_codes@.push(source_code)) =~= texts_of(source_codes@).push(source_code@));
                assert(source_texts(contracts).take(i + 1) =~= source_texts(contracts).take(i as int).push(
                    entries@[i as int].1.source_text(),
                ));
            }
            source_codes.push(source_code);
            i = i + 1;
        }
        proof {
            assert(source_texts(contracts).take(entries.len() as int) =~= source_texts(contracts));
        }
        let project_hash = keccak256_multiple(&source_codes);
        Self { version, contracts, output_selection, project_hash }
    }

    /// Converts Vyper standard JSON output into a project.
    ///
    /// Each contract is filed under its file path and name, with the AST of
    /// its file. Where the output has errors and no contract, the errors are
    /// reported; where a file with contracts has no AST, the first such file
    /// is reported. Where two contracts come to one full path, the later in
    /// the order of paths and names is kept.
    #[verifier::loop_isolation(false)]
    pub fn try_from_standard_json(standard_json: StandardJsonOutput, version: &SemVer) -> (r: Result<
        Self,
        String,
    >)
        requires
            forall|i: int, k: int|
                0 <= i < files_of(standard_json.contracts).len() && 0 <= k < files_of(
                    standard_json.contracts,
                )[i].1.contents().len() ==> (#[trigger] files_of(standard_json.contracts)[i].1.contents()[k]).1.source_code is Some,
        ensures
            ({
                let files = files_of(standard_json.contracts);
                let errors = errors_of(standard_json.errors);
                let refused = files.len() == 0 && errors.len() > 0;
                match r {
                    Err(message) => if refused {
                        message@ == joined_messages(errors)
                    } else {
                        exists|i: int| {
                            &&& 0 <= i < files.len()
                            &&& !file_accepted(files, standard_json.sources, i)
                            &&& forall|j: int| 0 <= j < i ==> #[trigger] file_accepted(files, standard_json.sources, j)
                            &&& message@ == "No AST for contract "@ + full_path(
                                files[i].0@,
                                files[i].1.contents()[0].0@,
                            )
                        }
                    },
                    Ok(project) => {
                        &&& !refused
                        &&& forall|i: int| 0 <= i < files.len() ==> #[trigger] file_accepted(files, standard_json.sources, i)
                        &&& project.version.parts() == version.parts()
                        &&& project.output_selection@ == Seq::<Selection>::empty()
                        &&& project.project_hash.bytes@ == keccak256_of_texts(source_texts(project.contracts))
                        &&& project.project_hash.string@ == "0x"@ + hex_text(project.project_hash.bytes@)
                        &&& forall|i: int, k: int| taken(files, files.len() as int, 0, i, k)
                            ==> project.contracts.map().contains_key(#[trigger] full_path(
                                files[i].0@,
                                files[i].1.contents()[k].0@,
                            ))
                        &&& forall|key: Seq<char>| #[trigger] project.contracts.map().contains_key(key)
                            ==> exists|i: int, k: int| {
                                &&& taken(files, files.len() as int, 0, i, k)
                                &&& key == full_path(files[i].0@, files[i].1.contents()[k].0@)
                                &&& latest(files, files.len() as int, 0, i, k)
                                &&& made_of(
                                    project.contracts.map()[key],
                                    files[i].1.contents()[k].1,
                                    version.parts(),
                                    key,
                                    standard_json.sources->0.map()[files[i].0@].model(),
                                )
                            }
                    },
                }
            }),
    {
        let ghost given = standard_json;
        let StandardJsonOutput { contracts, sources, errors, long_version: _ } = standard_json;
        let ghost files = files_of(contracts);
        let mut remaining: Vec<(String, StringMap<StandardJsonContract>)> = match contracts {
            Some(contracts) => contracts.into_entries(),
            None => Vec::new(),
        };
        let error_list: Vec<StandardJsonError> = match errors {
            Some(errors) => errors,
            None => Vec::new(),
        };
        if remaining.len() == 0 && error_list.len() > 0 {
            return Err(Self::join_messages(&error_list));
        }
        let mut project_contracts: StringMap<Contract> = StringMap::new();
        let mut i: usize = 0;
        let count = remaining.len();
        proof {
            assert(files.skip(0) =~= files);
        }
        while remaining.len() > 0
            invariant
                count == files.len(),
                i <= count,
                remaining@ == files.skip(i as int),
                forall|j: int| 0 <= j < i ==> #[trigger] file_accepted(files, sources, j),
                forall|j: int, l: int| taken(files, i as int, 0, j, l)
                    ==> project_contracts.map().contains_key(#[trigger] full_path(
                        files[j].0@,
                        files[j].1.contents()[l].0@,
                    )),
                forall|key: Seq<char>| #[trigger] project_contracts.map().contains_key(key)
                    ==> exists|j: int, l: int| {
                        &&& taken(files, i as int, 0, j, l)
                        &&& key == full_path(files[j].0@, files[j].1.contents()[l].0@)
                        &&& latest(files, i as int, 0, j, l)
                        &&& made_of(
                            project_contracts.map()[key],
                            files[j].1.contents()[l].1,
                            version.parts(),
                            key,
                            sources->0.map()[files[j].0@].model(),
                        )
                    },
            decreases remaining.len(),
        {
            let (path, file) = remaining.remove(0);
            proof {
                assert(remaining@ =~= files.skip(i + 1));
                assert((path, file) == files[i as int]);
            }
            let mut entries = file.into_entries();
            let ghost contracts_of_file = file.contents();
            let inner_count = entries.len();
            let mut k: usize = 0;
            proof {
                assert(contracts_of_file.skip(0) =~= contracts_of_file);
            }
            while entries.len() > 0
                invariant
                    inner_count == contracts_of_file.len(),
                    contracts_of_file == files[i as int].1.contents(),
                    path == files[i as int].0,
                    k <= inner_count,
                    entries@ == contracts_of_file.skip(k as int),
                    k > 0 ==> has_ast(sources, path@),
                    forall|j: int, l: int| taken(files, i as int, k as int, j, l)
                        ==> project_contracts.map().contains_key(#[trigger] full_path(
                            files[j].0@,
                            files[j].1.contents()[l].0@,
                        )),
                    forall|key: Seq<char>| #[trigger] project_contracts.map().contains_key(key)
                        ==> exists|j: int, l: int| {
                            &&& taken(files, i as int, k as int, j, l)
                            &&& key == full_path(files[j].0@, files[j].1.contents()[l].0@)
                            &&& latest(files, i as int, k as int, j, l)
                            &&& made_of(
                                project_contracts.map()[key],
                                files[j].1.contents()[l].1,
                                version.parts(),
                                key,
                                sources->0.map()[files[j].0@].model(),
                            )
                        },
                decreases entries.len(),
            {
                let (name, contract) = entries.remove(0);
                proof {
                    assert(entries@ =~= contracts_of_file.skip(k + 1));
                    assert((name, contract) == contracts_of_file[k as int]);
                }
                let mut full = path.clone();
                full.append(":");
                full.append(name.as_str());
                let path_chars = chars_of(path.as_str());
                let ast = match &sources {
                    Some(asts) => asts.get(path_chars.as_slice()),
                    None => None,
                };
                let ast = match ast {
                    Some(ast) => ast.duplicate(),
                    None => {
                        proof {
                            assert(k == 0);
                            assert(!file_accepted(files, sources, i as int));
                        }
                        let mut message = String::from_str("No AST for contract ");
                        message.append(full.as_str());
                        return Err(message);
                    },
                };
                let StandardJsonContract { source_code, ir, evm } = contract;
                let source_code = match source_code {
                    Some(source_code) => source_code,
                    None => {
                        proof {
                            assert(files[i as int].1.contents()[k as int].1.source_code is Some);
                        }
                        String::new()
                    },
                };
                let vyper = VyperContract::new(
                    version.duplicate(),
                    source_code,
                    ir,
                    AST::new(full.clone(), ast),
                    JsonValue::Null,
                    evm.method_identifiers,
                    None,
                    None,
                    None,
                );
                let ghost key = full@;
                let ghost value = Contract::Vyper(vyper);
                let ghost before = project_contracts.map();
                proof {
                    assert(key == full_path(files[i as int].0@, files[i as int].1.contents()[k as int].0@));
                    assert(made_of(
                        value,
                        files[i as int].1.contents()[k as int].1,
                        version.parts(),
                        key,
                        sources->0.map()[files[i as int].0@].model(),
                    ));
                }
                project_contracts.insert(full, Contract::Vyper(vyper));
                proof {
                    assert forall|j: int, l: int| taken(files, i as int, k + 1, j, l)
                        implies project_contracts.map().contains_key(#[trigger] full_path(
                            files[j].0@,
                            files[j].1.contents()[l].0@,
                        )) by {
                        if !(j == i && l == k) {
                            assert(taken(files, i as int, k as int, j, l));
                        }
                    }
                    assert forall|key2: Seq<char>| #[trigger] project_contracts.map().contains_key(key2)
                        implies exists|j: int, l: int| {
                            &&& taken(files, i as int, k + 1, j, l)
                            &&& key2 == full_path(files[j].0@, files[j].1.contents()[l].0@)
                            &&& latest(files, i as int, k + 1, j, l)
                            &&& made_of(
                                project_contracts.map()[key2],
                                files[j].1.contents()[l].1,
                                version.parts(),
                                key2,
                                sources->0.map()[files[j].0@].model(),
                            )
                        } by {
                        if key2 == key {
                            assert(taken(files, i as int, k + 1, i as int, k as int));
                            assert(latest(files, i as int, k + 1, i as int, k as int));
                        } else {
                            assert(before.contains_key(key2));
                            let (j, l) = choose|j: int, l: int| {
                                &&& taken(files, i as int, k as int, j, l)
                                &&& key2 == full_path(files[j].0@, files[j].1.contents()[l].0@)
                                &&& latest(files, i as int, k as int, j, l)
                                &&& made_of(
                                    before[key2],
                                    files[j].1.contents()[l].1,
                                    version.parts(),
                                    key2,
                                    sources->0.map()[files[j].0@].model(),
                                )
                            };
                            assert(taken(files, i as int, k + 1, j, l));
                            assert forall|j2: int, l2: int|
                                #[trigger] taken(files, i as int, k + 1, j2, l2) && (j < j2 || (j == j2 && l < l2))
                                implies full_path(files[j2].0@, files[j2].1.contents()[l2].0@) != key2 by {
                                if !(j2 == i && l2 == k) {
                                    assert(taken(files, i as int, k as int, j2, l2));
                                }
                            }
                        }
                    }
                }
                k = k + 1;
            }
            proof {
                assert(file_accepted(files, sources, i as int));
                assert forall|j: int, l: int| taken(files, i + 1, 0, j, l) implies taken(
                    files,
                    i as int,
                    inner_count as int,
                    j,
                    l,
                ) by {}
                assert forall|key2: Seq<char>| #[trigger] project_contracts.map().contains_key(key2)
                    implies exists|j: int, l: int| {
                        &&& taken(files, i + 1, 0, j, l)
                        &&& key2 == full_path(files[j].0@, files[j].1.contents()[l].0@)
                        &&& latest(files, i + 1, 0, j, l)
                        &&& made_of(
                            project_contracts.map()[key2],
                            files[j].1.contents()[l].1,
                            version.parts(),
                            key2,
                            sources->0.map()[files[j].0@].model(),
                        )
                    } by {
                    let (j, l) = choose|j: int, l: int| {
                        &&& taken(files, i as int, inner_count as int, j, l)
                        &&& key2 == full_path(files[j].0@, files[j].1.contents()[l].0@)
                        &&& latest(files, i as int, inner_count as int, j, l)
                        &&& made_of(
                            project_contracts.map()[key2],
                            files[j].1.contents()[l].1,
                            version.parts(),
                            key2,
                            sources->0.map()[files[j].0@].model(),
                        )
                    };
                    assert(taken(files, i + 1, 0, j, l));
                    assert forall|j2: int, l2: int|
                        #[trigger] taken(files, i + 1, 0, j2, l2) && (j < j2 || (j == j2 && l < l2))
                        implies full_path(files[j2].0@, files[j2].1.contents()[l2].0@) != key2 by {
                        assert(taken(files, i as int, inner_count as int, j2, l2));
                    }
                }
            }
            i = i + 1;
        }
        Ok(Self::new(version.duplicate(), project_contracts, Vec::new()))
    }

    /// The messages of errors, separated by blank lines.
    fn join_messages(errors: &Vec<StandardJsonError>) -> (r: String)
        ensures
            r@ == joined_messages(errors@),
    {
        let mut text = String::new();
        let mut i: usize = 0;
        while i < errors.len()
            invariant
                i <= errors.len(),
                text@ == joined_messages(errors@.take(i as int)),
            decreases errors.len() - i,
        {
            proof {
                assert(errors@.take(i + 1).drop_last() =~= errors@.take(i as int));
                if i == 0 {
                    assert(errors@.take(1) =~= seq![errors@[0]]);
                }
            }
            if i > 0 {
                text.append("\n\n");
            }
            text.append(errors[i].message.as_str());
            i = i + 1;
        }
        proof {
            assert(errors@.take(errors.len() as int) =~= errors@);
        }
        text
    }

    /// The source codes read, by path, or the error of the first source
    /// that could not be read.
    #[verifier::loop_isolation(false)]
    fn collect_sources(sources: Vec<(String, Result<String, String>)>) -> (r: Result<StringMap<String>, String>)
        ensures
            match first_unread(sources@) {
                Some(i) => r matches Err(message) && message@ == sources@[i].1->Err_0@,
                None => r matches Ok(map) && map.map() == read_sources(sources@),
            },
    {
        let ghost all = sources@;
        let mut remaining = sources;
        let total = remaining.len();
        let mut map: StringMap<String> = StringMap::new();
        let mut i: usize = 0;
        proof {
            assert(all.skip(0) =~= all);
            assert(all.take(0) =~= Seq::<(String, Result<String, String>)>::empty());
            assert(map.map() =~= read_sources(all.take(0)));
        }
        while remaining.len() > 0
            invariant
                i + remaining.len() == all.len(),
                total == all.len(),
                remaining@ == all.skip(i as int),
                forall|j: int| 0 <= j < i ==> (#[trigger] all[j]).1 is Ok,
                map.map() == read_sources(all.take(i as int)),
            decreases remaining.len(),
        {
            let (path, source) = remaining.remove(0);
            proof {
                assert(remaining@ =~= all.skip(i + 1));
                assert((path, source) == all[i as int]);
            }
            match source {
                Ok(code) => {
                    proof {
                        assert(all.take(i + 1).drop_last() =~= all.take(i as int));
                        assert(all.take(i + 1).last() == all[i as int]);
                    }
                    map.insert(path, code);
                },
                Err(error) => {
                    proof {
                        assert(all[i as int].1 == Err::<String, String>(error));
                        assert(0 <= i < all.len() && all[i as int].1 is Err && forall|j: int|
                            0 <= j < i ==> (#[trigger] all[j]).1 is Ok);
                        let k = first_unread(all)->0;
                        if k < i {
                            assert(all[k].1 is Ok);
                        } else if k > i {
                            assert(all[i as int].1 is Ok);
                        }
                    }
                    return Err(error);
                },
            }
            i = i + 1;
        }
        proof {
            assert(all.take(all.len() as int) =~= all);
        }
        Ok(map)
    }

    /// The project made of LLVM IR source files read, given by path with
    /// their source code or the error their reading failed with: the error
    /// of the first that could not be read, else a contract by path.
    pub fn try_from_llvm_ir_sources(
        sources: Vec<(String, Result<String, String>)>,
        version: &SemVer,
        output_selection: Vec<Selection>,
    ) -> (r: Result<Self, String>)
        ensures
            match first_unread(sources@) {
                Some(i) => r matches Err(message) && message@ == sources@[i].1->Err_0@,
                None => r matches Ok(project) && {
                    &&& project.version == *version
                    &&& project.output_selection == output_selection
                    &&& project.contracts.map().dom() == read_sources(sources@).dom()
                    &&& forall|path: Seq<char>| #[trigger] project.contracts.map().contains_key(path)
                        ==> project.contracts.map()[path] == Contract::LLVMIR(
                        LLVMIRContract { version: *version, source_code: read_sources(sources@)[path] },
                    )
                    &&& project.project_hash.bytes@ == keccak256_of_texts(source_texts(project.contracts))
                    &&& project.project_hash.string@ == "0x"@ + hex_text(project.project_hash.bytes@)
                },
            },
    {
        let read = Self::collect_sources(sources)?;
        let ghost map = read.map();
        let mut entries = read.into_entries();
        let ghost all = entries@;
        let mut contracts: StringMap<Contract> = StringMap::new();
        proof {
            lemma_entries_map(all);
        }
        while entries.len() > 0
            invariant
                forall|key: Seq<char>| #[trigger] map.contains_key(key) <==> (contracts.map().contains_key(key)
                    || exists|j: int| 0 <= j < entries@.len() && (#[trigger] entries@[j]).0@ == key),
                forall|key: Seq<char>| #[trigger] contracts.map().contains_key(key) ==> contracts.map()[key]
                    == Contract::LLVMIR(LLVMIRContract { version: *version, source_code: map[key] }),
                forall|j: int| 0 <= j < entries@.len() ==> #[trigger] map.contains_key(entries@[j].0@)
                    && map[entries@[j].0@] == entries@[j].1,
            decreases entries.len(),
        {
            let ghost before = entries@;
            proof {
                assert(map.contains_key(entries@[0].0@) && map[entries@[0].0@] == entries@[0].1);
            }
            let (path, source_code) = entries.remove(0);
            proof {
                assert(before[0] == (path, source_code));
                assert(map.contains_key(before[0].0@) && map[before[0].0@] == before[0].1);
                assert forall|j: int| 0 <= j < entries@.len() implies #[trigger] entries@[j] == before[j + 1] by {}
                assert forall|j: int| 0 <= j < entries@.len() implies #[trigger] map.contains_key(entries@[j].0@)
                    && map[entries@[j].0@] == entries@[j].1 by {
                    assert(entries@[j] == before[j + 1]);
                    assert(map.contains_key(before[j + 1].0@));
                }
            }
            let ghost key = path@;
            contracts.insert(path, Contract::LLVMIR(LLVMIRContract::new(version.duplicate(), source_code)));
            proof {
                assert forall|key: Seq<char>| #[trigger] map.contains_key(key) <==> (contracts.map().contains_key(key)
                    || exists|j: int| 0 <= j < entries@.len() && (#[trigger] entries@[j]).0@ == key) by {
                    if map.contains_key(key) && !contracts.map().contains_key(key) {
                        let j = choose|j: int| 0 <= j < before.len() && (#[trigger] before[j]).0@ == key;
                        assert(j != 0);
                        assert(entries@[j - 1].0@ == key);
                    }
                    if exists|j: int| 0 <= j < entries@.len() && (#[trigger] entries@[j]).0@ == key {
                        let j = choose|j: int| 0 <= j < entries@.len() && (#[trigger] entries@[j]).0@ == key;
                        assert(before[j + 1].0@ == key);
                    }
                }
            }
        }
        proof {
            assert(contracts.map().dom() =~= map.dom());
        }
        Ok(Self::new(version.duplicate(), contracts, output_selection))
    }

    /// The project made of EraVM assembly source files read, given by path
    /// with their source code or the error their reading failed with: the
    /// error of the first that could not be read, else a contract by path.
    pub fn try_from_eravm_assembly_sources(
        sources: Vec<(String, Result<String, String>)>,
        version: &SemVer,
        output_selection: Vec<Selection>,
    ) -> (r: Result<Self, String>)
        ensures
            match first_unread(sources@) {
                Some(i) => r matches Err(message) && message@ == sources@[i].1->Err_0@,
                None => r matches Ok(project) && {
                    &&& project.version == *version
                    &&& project.output_selection == output_selection
                    &&& project.contracts.map().dom() == read_sources(sources@).dom()
                    &&& forall|path: Seq<char>| #[trigger] project.contracts.map().contains_key(path)
                        ==> project.contracts.map()[path] == Contract::EraVMAssembly(
                        EraVMAssemblyContract { source_code: read_sources(sources@)[path] },
                    )
                    &&& project.project_hash.bytes@ == keccak256_of_texts(source_texts(project.contracts))
                    &&& project.project_hash.string@ == "0x"@ + hex_text(project.project_hash.bytes@)
                },
            },
    {
        let read = Self::collect_sources(sources)?;
        let ghost map = read.map();
        let mut entries = read.into_entries();
        let ghost all = entries@;
        let mut contracts: StringMap<Contract> = StringMap::new();
        proof {
            lemma_entries_map(all);
        }
        while entries.len() > 0
            invariant
                forall|key: Seq<char>| #[trigger] map.contains_key(key) <==> (contracts.map().contains_key(key)
                    || exists|j: int| 0 <= j < entries@.len() && (#[trigger] entries@[j]).0@ == key),
                forall|key: Seq<char>| #[trigger] contracts.map().contains_key(key) ==> contracts.map()[key]
                    == Contract::EraVMAssembly(EraVMAssemblyContract { source_code: map[key] }),
                forall|j: int| 0 <= j < entries@.len() ==> #[trigger] map.contains_key(entries@[j].0@)
                    && map[entries@[j].0@] == entries@[j].1,
            decreases entries.len(),
        {
            let ghost before = entries@;
            proof {
                assert(map.contains_key(entries@[0].0@) && map[entries@[0].0@] == entries@[0].1);
            }
            let (path, source_code) = entries.remove(0);
            proof {
                assert(before[0] == (path, source_code));
                assert(map.contains_key(before[0].0@) && map[before[0].0@] == before[0].1);
                assert forall|j: int| 0 <= j < entries@.len() implies #[trigger] entries@[j] == before[j + 1] by {}
                assert forall|j: int| 0 <= j < entries@.len() implies #[trigger] map.contains_key(entries@[j].0@)
                    && map[entries@[j].0@] == entries@[j].1 by {
                    assert(entries@[j] == before[j + 1]);
                    assert(map.contains_key(before[j + 1].0@));
                }
            }
            let ghost key = path@;
            contracts.insert(path, Contract::EraVMAssembly(EraVMAssemblyContract::new(source_code)));
            proof {
                assert forall|key: Seq<char>| #[trigger] map.contains_key(key) <==> (contracts.map().contains_key(key)
                    || exists|j: int| 0 <= j < entries@.len() && (#[trigger] entries@[j]).0@ == key) by {
                    if map.contains_key(key) && !contracts.map().contains_key(key) {
                        let j = choose|j: int| 0 <= j < before.len() && (#[trigger] before[j]).0@ == key;
                        assert(j != 0);
                        assert(entries@[j - 1].0@ == key);
                    }
                    if exists|j: int| 0 <= j < entries@.len() && (#[trigger] entries@[j]).0@ == key {
                        let j = choose|j: int| 0 <= j < entries@.len() && (#[trigger] entries@[j]).0@ == key;
                        assert(before[j + 1].0@ == key);
                    }
                }
            }
        }
        proof {
            assert(contracts.map().dom() =~= map.dom());
        }
        Ok(Self::new(version.duplicate(), contracts, output_selection))
    }
}

} // verus!
