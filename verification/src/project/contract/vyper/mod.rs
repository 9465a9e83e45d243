//! The Vyper contract.

pub mod ast;
pub mod expression;
pub mod function;

use vstd::prelude::*;
use vstd::string::StringExecFns;

use crate::json::json_parsed;
use crate::json::not_strings_message;
use crate::json::parse_json;
use crate::json::strings_object;
use crate::json::texts;
use crate::json::Json;
use crate::json::JsonValue;
use crate::project::texts_of;
use crate::string_map::StringMap;
use crate::vyper::selection::Selection;
use crate::vyper::version::SemVer;

use crate::string_map::keys_increase;
use crate::string_map::lemma_entries_map;
use crate::string_map::lex_lt;
use crate::text::chars_of;
use crate::text::decimal_u64;
use crate::text::parse_u64;

use self::ast::ast_error;
use self::ast::ast_output;
use self::ast::AST;
use self::expression::decode;
use self::expression::functions::found_map;
use self::expression::functions::hoist_items;
use self::expression::functions::models_map;
use self::expression::functions::HoistedItems;
use self::expression::instruction::ret::return_default;
use self::expression::instruction::seq::normalized_deploy_code;
use self::expression::instruction::seq::runtime_code;
use self::expression::instruction::seq::SeqInstruction;
use self::expression::tag::Tag;
use self::expression::Expression;
use self::expression::Lll;
use self::function::Function;

verus! {

broadcast use vstd::std_specs::vec::group_vec_axioms;

/// Whether the line `vyper` writes for an output flag is read.
pub open spec fn is_read(flag: Selection) -> bool {
    ||| flag == Selection::IRJson
    ||| flag == Selection::AST
    ||| flag == Selection::ABI
    ||| flag == Selection::MethodIdentifiers
    ||| flag == Selection::Layout
    ||| flag == Selection::UserDocumentation
    ||| flag == Selection::DeveloperDocumentation
}

/// Whether the line written for an output flag cannot be read: it is no
/// JSON document, or the document is not of the shape the flag's output
/// has.
pub open spec fn line_fails(flag: Selection, text: Seq<char>) -> bool {
    is_read(flag) && match json_parsed(text) {
        Err(_) => true,
        Ok(document) => (flag == Selection::AST && ast_output(document) is None) || (flag
            == Selection::MethodIdentifiers && strings_object(document) is None),
    }
}

/// The error a line that cannot be read for its flag is answered with:
/// the parse error, or why the document is not of the flag's shape.
pub open spec fn line_error(flag: Selection, text: Seq<char>) -> Seq<char> {
    match json_parsed(text) {
        Err(message) => message,
        Ok(document) => if flag == Selection::AST {
            ast_error(document)
        } else {
            not_strings_message()
        },
    }
}

/// The document a line holds.
pub open spec fn document(text: Seq<char>) -> Json {
    json_parsed(text)->Ok_0
}

/// The last of the first `n` positions that holds `flag`, if any.
pub open spec fn last_position(selection: Seq<Selection>, flag: Selection, n: int) -> Option<int>
    decreases n,
{
    if n <= 0 {
        None
    } else if selection[n - 1] == flag {
        Some(n - 1)
    } else {
        last_position(selection, flag, n - 1)
    }
}

/// The last of the first `n` positions holds the flag.
pub proof fn lemma_last_position(selection: Seq<Selection>, flag: Selection, n: int)
    requires
        n <= selection.len(),
    ensures
        last_position(selection, flag, n) matches Some(k) ==> 0 <= k < n && selection[k] == flag,
        last_position(selection, flag, n) is None ==> forall|k: int| 0 <= k < n ==> selection[k] != flag,
    decreases n,
{
    if n > 0 && selection[n - 1] != flag {
        lemma_last_position(selection, flag, n - 1);
    }
}

/// The code segment a function is compiled into.
#[derive(Debug, Clone, Copy, PartialEq, Eq, Structural)]
pub enum CodeSegment {
    /// The deploy code.
    Deploy,
    /// The runtime code.
    Runtime,
}

/// The deploy code of an LLL IR tree, normalized: the elements of a
/// sequence, or a bare return for a `deploy`.
pub open spec fn deploy_items(ir: Lll) -> Seq<Lll> {
    match ir {
        Lll::Node(Tag::Sequence, items) => normalized_deploy_code(items),
        _ => seq![return_default()],
    }
}

/// The immutables size an expression gives, if it is an integer literal
/// that fits in 64 bits.
pub open spec fn immutables_size_of(size: Lll) -> Option<u64> {
    match size {
        Lll::Literal(text) => decimal_u64(text),
        _ => None,
    }
}

/// Whether functions are those of a map, in the order of their names, in
/// the segment `segment`, with no metadata.
pub open spec fn listed(functions: Seq<(Function, CodeSegment)>, map: Map<Seq<char>, Lll>, segment: CodeSegment) -> bool {
    &&& forall|i: int| 0 <= i < functions.len() ==> {
        &&& (#[trigger] functions[i]).1 == segment
        &&& map.contains_key(functions[i].0.name@)
        &&& functions[i].0.expression.model() == map[functions[i].0.name@]
        &&& functions[i].0.metadata is None
    }
    &&& forall|key: Seq<char>| #[trigger] map.contains_key(key) ==> exists|i: int|
        0 <= i < functions.len() && (#[trigger] functions[i]).0.name@ == key
    &&& forall|i: int, j: int|
        0 <= i < j < functions.len() ==> lex_lt(
            (#[trigger] functions[i]).0.name@,
            (#[trigger] functions[j]).0.name@,
        )
}

/// The parts a contract's code is compiled from: the immutables size, the
/// deploy and runtime code without their functions, and the functions.
#[derive(Debug)]
pub struct CodeParts {
    /// The size of the immutables, in bytes.
    pub immutables_size: u64,
    /// The deploy code.
    pub deploy_code: SeqInstruction,
    /// The runtime code.
    pub runtime_code: SeqInstruction,
    /// The functions: those of the deploy code, then those of the runtime
    /// code.
    pub functions: Vec<(Function, CodeSegment)>,
}

/// The Vyper contract.
#[derive(Debug)]
pub struct Contract {
    /// The Vyper compiler version.
    pub version: SemVer,
    /// The Vyper contract source code.
    pub source_code: String,
    /// The LLL IR parsed from JSON.
    pub ir: Expression,
    /// The contract AST.
    pub ast: AST,
    /// The contract ABI.
    pub abi: JsonValue,
    /// The contract method identifiers.
    pub method_identifiers: StringMap<String>,
    /// The contract storage layout.
    pub layout: Option<JsonValue>,
    /// The contract user documentation.
    pub userdoc: Option<JsonValue>,
    /// The contract developer documentation.
    pub devdoc: Option<JsonValue>,
}

/// The value an optional output holds: the document of the last line
/// written for its flag, if any.
pub open spec fn optional_output(
    value: Option<JsonValue>,
    selection: Seq<Selection>,
    lines: Seq<Seq<char>>,
    flag: Selection,
    n: int,
) -> bool {
    match last_position(selection, flag, n) {
        Some(k) => value is Some && value->0.model() == document(lines[k]),
        None => value is None,
    }
}

/// Whether a contract is the one read from the output lines `vyper` wrote
/// for it: no line fails, and each output is the document of the last line
/// written for its flag.
pub open spec fn read_from_lines(
    contract: Contract,
    version: SemVer,
    source_code: String,
    selection: Seq<Selection>,
    lines: Seq<Seq<char>>,
) -> bool {
    let n = vstd::math::min(selection.len() as int, lines.len() as int);
    &&& forall|k: int| 0 <= k < n ==> !line_fails(#[trigger] selection[k], lines[k])
    &&& contract.version == version
    &&& contract.source_code == source_code
    &&& contract.ir.model() == decode(document(lines[last_position(selection, Selection::IRJson, n)->0]))
    &&& ast_output(document(lines[last_position(selection, Selection::AST, n)->0])) == Some(
        (contract.ast.contract_name@, contract.ast.ast.model()),
    )
    &&& contract.abi.model() == document(lines[last_position(selection, Selection::ABI, n)->0])
    &&& strings_object(document(lines[last_position(selection, Selection::MethodIdentifiers, n)->0]))
        == Some(texts(contract.method_identifiers.map()))
    &&& optional_output(contract.layout, selection, lines, Selection::Layout, n)
    &&& optional_output(contract.userdoc, selection, lines, Selection::UserDocumentation, n)
    &&& optional_output(contract.devdoc, selection, lines, Selection::DeveloperDocumentation, n)
}

impl Contract {
    /// A shortcut constructor.
    pub fn new(
        version: SemVer,
        source_code: String,
        ir: Expression,
        ast: AST,
        abi: JsonValue,
        method_identifiers: StringMap<String>,
        layout: Option<JsonValue>,
        userdoc: Option<JsonValue>,
        devdoc: Option<JsonValue>,
    ) -> (r: Self)
        ensures
            r == (Contract {
                version,
                source_code,
                ir,
                ast,
                abi,
                method_identifiers,
                layout,
                userdoc,
                devdoc,
            }),
    {
        Self { version, source_code, ir, ast, abi, method_identifiers, layout, userdoc, devdoc }
    }

    /// Parses the output lines `vyper` wrote for a contract, the line at
    /// each position being the output for the flag at that position.
    ///
    /// Lines for the IR as text, the metadata and the interfaces are not
    /// read; the LLL IR, the AST, the ABI and the method identifiers must be
    /// among the outputs.
    pub fn try_from_lines(
        version: SemVer,
        source_code: String,
        selection: &[Selection],
        lines: Vec<String>,
    ) -> (r: Result<Self, String>)
        requires
            forall|k: int|
                0 <= k < selection.len() && k < lines.len() ==> selection@[k] != Selection::CombinedJson,
            last_position(selection@, Selection::IRJson, vstd::math::min(selection.len() as int, lines.len() as int)) is Some,
            last_position(selection@, Selection::AST, vstd::math::min(selection.len() as int, lines.len() as int)) is Some,
            last_position(selection@, Selection::ABI, vstd::math::min(selection.len() as int, lines.len() as int)) is Some,
            last_position(selection@, Selection::MethodIdentifiers, vstd::math::min(selection.len() as int, lines.len() as int)) is Some,
        ensures
            ({
                let n = vstd::math::min(selection.len() as int, lines.len() as int);
                match r {
                    Ok(contract) => read_from_lines(contract, version, source_code, selection@, texts_of(lines@)),
                    Err(error) => exists|k: int| {
                        &&& 0 <= k < n
                        &&& line_fails(selection@[k], lines@[k]@)
                        &&& forall|j: int| 0 <= j < k ==> !line_fails(#[trigger] selection@[j], lines@[j]@)
                        &&& error@ == line_error(selection@[k], lines@[k]@)
                    },
                }
            }),
    {
        let n: usize = if selection.len() < lines.len() {
            selection.len()
        } else {
            lines.len()
        };
        let mut ir: Option<Expression> = None;
        let mut ast: Option<AST> = None;
        let mut abi: Option<JsonValue> = None;
        let mut method_identifiers: Option<StringMap<String>> = None;
        let mut layout: Option<JsonValue> = None;
        let mut userdoc: Option<JsonValue> = None;
        let mut devdoc: Option<JsonValue> = None;
        let ghost t = texts_of(lines@);
        proof {
            assert forall|k: int| 0 <= k < lines.len() implies #[trigger] t[k] == lines@[k]@ by {}
        }
        let mut i: usize = 0;
        while i < n
            invariant
                t == texts_of(lines@),
                t.len() == lines.len(),
                forall|k: int| 0 <= k < lines.len() ==> #[trigger] t[k] == lines@[k]@,
                n == vstd::math::min(selection.len() as int, lines.len() as int),
                i <= n,
                forall|k: int| 0 <= k < n ==> selection@[k] != Selection::CombinedJson,
                forall|k: int| 0 <= k < i ==> !line_fails(#[trigger] selection@[k], t[k]),
                match last_position(selection@, Selection::IRJson, i as int) {
                    Some(k) => ir is Some && ir->0.model() == decode(document(t[k])),
                    None => ir is None,
                },
                match last_position(selection@, Selection::AST, i as int) {
                    Some(k) => ast is Some && ast_output(document(t[k])) == Some(
                        (ast->0.contract_name@, ast->0.ast.model()),
                    ),
                    None => ast is None,
                },
                optional_output(abi, selection@, t, Selection::ABI, i as int),
                match last_position(selection@, Selection::MethodIdentifiers, i as int) {
                    Some(k) => method_identifiers is Some && strings_object(document(t[k])) == Some(
                        texts(method_identifiers->0.map()),
                    ),
                    None => method_identifiers is None,
                },
                optional_output(layout, selection@, t, Selection::Layout, i as int),
                optional_output(userdoc, selection@, t, Selection::UserDocumentation, i as int),
                optional_output(devdoc, selection@, t, Selection::DeveloperDocumentation, i as int),
            decreases n - i,
        {
            let flag = selection[i];
            if flag == Selection::IRJson || flag == Selection::AST || flag == Selection::ABI || flag
                == Selection::MethodIdentifiers || flag == Selection::Layout || flag
                == Selection::UserDocumentation || flag == Selection::DeveloperDocumentation {
                let parsed = match parse_json(lines[i].as_str()) {
                    Ok(parsed) => parsed,
                    Err(error) => {
                        proof {
                            assert(line_fails(selection@[i as int], t[i as int]));
                        }
                        return Err(error);
                    },
                };
                if flag == Selection::IRJson {
                    ir = Some(Expression::from_json(&parsed));
                } else if flag == Selection::AST {
                    match AST::from_json(&parsed) {
                        Ok(value) => {
                            ast = Some(value);
                        },
                        Err(error) => {
                            proof {
                                assert(line_fails(selection@[i as int], t[i as int]));
                            }
                            return Err(error);
                        },
                    }
                } else if flag == Selection::ABI {
                    abi = Some(parsed);
                } else if flag == Selection::MethodIdentifiers {
                    match parsed.to_string_map() {
                        Ok(value) => {
                            method_identifiers = Some(value);
                        },
                        Err(error) => {
                            proof {
                                assert(line_fails(selection@[i as int], t[i as int]));
                            }
                            return Err(error);
                        },
                    }
                } else if flag == Selection::Layout {
                    layout = Some(parsed);
                } else if flag == Selection::UserDocumentation {
                    userdoc = Some(parsed);
                } else {
                    devdoc = Some(parsed);
                }
            }
            proof {
                assert(!line_fails(selection@[i as int], t[i as int]));
            }
            i = i + 1;
        }
        proof {
            let t = t;
            assert(t.len() == lines@.len());
            assert forall|k: int| 0 <= k < lines.len() implies #[trigger] t[k] == t[k] by {}
        }
        let ir = match ir {
            Some(ir) => ir,
            None => {
                proof {
                    assert(false);
                }
                Expression::default()
            },
        };
        let ast = match ast {
            Some(ast) => ast,
            None => {
                proof {
                    assert(false);
                }
                AST::new(String::new(), JsonValue::Null)
            },
        };
        let abi = match abi {
            Some(abi) => abi,
            None => {
                proof {
                    assert(false);
                }
                JsonValue::Null
            },
        };
        let method_identifiers = match method_identifiers {
            Some(method_identifiers) => method_identifiers,
            None => {
                proof {
                    assert(false);
                }
                StringMap::new()
            },
        };
        Ok(
            Self::new(
                version,
                source_code,
                ir,
                ast,
                abi,
                method_identifiers,
                layout,
                userdoc,
                devdoc,
            ),
        )
    }

    /// Appends the functions of a map, in the order of their names, in a
    /// segment.
    fn push_functions(
        functions: &mut Vec<(Function, CodeSegment)>,
        found: StringMap<Expression>,
        segment: CodeSegment,
    )
        ensures
            final(functions)@.len() >= old(functions)@.len(),
            final(functions)@.subrange(0, old(functions)@.len() as int) == old(functions)@,
            listed(
                final(functions)@.subrange(old(functions)@.len() as int, final(functions)@.len() as int),
                models_map(found.map()),
                segment,
            ),
    {
        let ghost start = functions@;
        let ghost map = found.map();
        let mut entries = found.into_entries();
        let ghost all = entries@;
        let total = entries.len();
        let mut i: usize = 0;
        proof {
            lemma_entries_map(all);
            assert(all.skip(0) =~= all);
        }
        while entries.len() > 0
            invariant
                total == all.len(),
                i <= total,
                entries@ == all.skip(i as int),
                keys_increase(all),
                forall|j: int| 0 <= j < all.len() ==> #[trigger] map.contains_key(all[j].0@)
                    && map[all[j].0@] == all[j].1,
                forall|key: Seq<char>| #[trigger] map.contains_key(key) ==> exists|j: int|
                    0 <= j < all.len() && #[trigger] all[j].0@ == key,
                functions@.len() == start.len() + i,
                functions@.subrange(0, start.len() as int) == start,
                forall|j: int| 0 <= j < i ==> {
                    &&& (#[trigger] functions@[start.len() + j]).1 == segment
                    &&& functions@[start.len() + j].0.name@ == all[j].0@
                    &&& functions@[start.len() + j].0.expression == all[j].1
                    &&& functions@[start.len() + j].0.metadata is None
                },
            decreases entries.len(),
        {
            let (name, expression) = entries.remove(0);
            proof {
                assert(entries@ =~= all.skip(i + 1));
                assert((name, expression) == all[i as int]);
            }
            functions.push((Function::new(name, None, expression), segment));
            proof {
                assert(functions@.subrange(0, start.len() as int) =~= start);
            }
            i = i + 1;
        }
        proof {
            let added = functions@.subrange(start.len() as int, functions@.len() as int);
            assert forall|j: int| 0 <= j < added.len() implies added[j] == functions@[start.len() + j] by {}
            assert forall|key: Seq<char>| #[trigger] models_map(map).contains_key(key) implies exists|j: int|
                0 <= j < added.len() && (#[trigger] added[j]).0.name@ == key by {
                let j = choose|j: int| 0 <= j < all.len() && #[trigger] all[j].0@ == key;
                assert(added[j].0.name@ == key);
            }
            assert forall|a: int, b: int| 0 <= a < b < added.len() implies lex_lt(
                (#[trigger] added[a]).0.name@,
                (#[trigger] added[b]).0.name@,
            ) by {
                assert(added[a] == functions@[start.len() + a]);
                assert(added[b] == functions@[start.len() + b]);
                assert(lex_lt(all[a].0@, all[b].0@));
            }
            assert forall|j: int| 0 <= j < added.len() implies {
                &&& (#[trigger] added[j]).1 == segment
                &&& models_map(map).contains_key(added[j].0.name@)
                &&& added[j].0.expression.model() == models_map(map)[added[j].0.name@]
                &&& added[j].0.metadata is None
            } by {
                assert(added[j] == functions@[start.len() + j]);
                assert(map.contains_key(all[j].0@));
            }
        }
    }

    /// Splits the contract's code into what it is compiled from: the
    /// immutables size, which must be an integer literal, the deploy and
    /// runtime code, and the functions lifted out of them.
    pub fn split_code(self) -> (r: Result<CodeParts, String>)
        requires
            match runtime_code(self.ir.model()) {
                Some(Some((code, size))) => immutables_size_of(size) is Some ==> {
                    &&& !(hoist_items(deploy_items(self.ir.model())) is Stuck)
                    &&& hoist_items(deploy_items(self.ir.model())) is Done ==> !(hoist_items(code) is Stuck)
                },
                _ => true,
            },
        ensures
            match r {
                Ok(parts) => match runtime_code(self.ir.model()) {
                    Some(Some((code, size))) => match (hoist_items(deploy_items(self.ir.model())), hoist_items(code)) {
                        (HoistedItems::Done(deploy_rest, deploy_found), HoistedItems::Done(runtime_rest, runtime_found)) => {
                            &&& immutables_size_of(size) == Some(parts.immutables_size)
                            &&& parts.deploy_code.items() == deploy_rest
                            &&& parts.runtime_code.items() == runtime_rest
                            &&& exists|d: int| #![trigger parts.functions@.subrange(0, d)] {
                                &&& 0 <= d <= parts.functions.len()
                                &&& listed(parts.functions@.subrange(0, d), found_map(deploy_found), CodeSegment::Deploy)
                                &&& listed(
                                    parts.functions@.subrange(d, parts.functions.len() as int),
                                    found_map(runtime_found),
                                    CodeSegment::Runtime,
                                )
                            }
                        },
                        _ => false,
                    },
                    _ => false,
                },
                Err(_) => match runtime_code(self.ir.model()) {
                    Some(Some((code, size))) => immutables_size_of(size) is None || hoist_items(
                        deploy_items(self.ir.model()),
                    ) is Failed || hoist_items(code) is Failed,
                    _ => true,
                },
            },
    {
        let ir = self.ir;
        let ghost model = ir.model();
        let (mut runtime, size) = match ir.extract_runtime_code() {
            Ok(Some(found)) => found,
            Ok(None) => return Err("Invalid immutables size format".to_owned()),
            Err(error) => return Err(error),
        };
        let ghost runtime_items = runtime.items();
        let ghost size_model = size.model();
        let mut deploy = match ir.try_into_deploy_code() {
            Ok(deploy) => deploy,
            Err(error) => return Err(error),
        };
        proof {
            assert(deploy.items() == deploy_items(model));
        }
        let immutables_size = match &size {
            Expression::IntegerLiteral(number) => {
                let digits = chars_of(number.as_str());
                match parse_u64(digits.as_slice()) {
                    Some(value) => value,
                    None => {
                        let mut message = "Immutable size `".to_owned();
                        message.append(number.as_str());
                        message.append("` parsing error");
                        return Err(message);
                    },
                }
            },
            _ => return Err("Invalid immutables size format".to_owned()),
        };
        let ghost deploy_items0 = deploy.items();
        assert(immutables_size_of(size_model) == Some(immutables_size));
        let deploy_functions = match deploy.extract_functions() {
            Ok(found) => found,
            Err(error) => return Err(error),
        };
        let runtime_functions = match runtime.extract_functions() {
            Ok(found) => found,
            Err(error) => return Err(error),
        };
        let mut functions: Vec<(Function, CodeSegment)> = Vec::new();
        Self::push_functions(&mut functions, deploy_functions, CodeSegment::Deploy);
        let ghost middle = functions@;
        Self::push_functions(&mut functions, runtime_functions, CodeSegment::Runtime);
        let ghost deploy_final = deploy.items();
        let ghost runtime_final = runtime.items();
        let parts = CodeParts { immutables_size, deploy_code: deploy, runtime_code: runtime, functions };
        proof {
            let d = middle.len() as int;
            assert(middle.subrange(0, d) =~= middle);
            assert(parts.functions@.subrange(0, d) == middle);
            assert(runtime_code(self.ir.model()) == Some(Some((runtime_items, size_model))));
            assert(hoist_items(deploy_items(self.ir.model())) is Done);
            assert(hoist_items(runtime_items) is Done);
            match (hoist_items(deploy_items(self.ir.model())), hoist_items(runtime_items)) {
                (HoistedItems::Done(deploy_rest, deploy_found), HoistedItems::Done(runtime_rest, runtime_found)) => {
                    assert(parts.deploy_code.items() == deploy_rest);
                    assert(parts.runtime_code.items() == runtime_rest);
                    assert(immutables_size_of(size_model) == Some(parts.immutables_size));
                    assert(models_map(deploy_functions.map()) == found_map(deploy_found));
                    assert(models_map(runtime_functions.map()) == found_map(runtime_found));
                    assert(0 <= d <= parts.functions.len());
                    assert(listed(parts.functions@.subrange(0, d), found_map(deploy_found), CodeSegment::Deploy));
                    assert(listed(
                        parts.functions@.subrange(d, parts.functions.len() as int),
                        found_map(runtime_found),
                        CodeSegment::Runtime,
                    ));
                },
                _ => {},
            }
        }
        Ok(parts)
    }
}

} // verus!
