//! The Vyper compiler: what the EraVM compiler makes of `vyper` and of
//! what `vyper` writes.
//!
//! Running `vyper` is left to the caller; the library decides what to run
//! it with and reads what it wrote.

pub mod combined_json;
pub mod selection;
pub mod standard_json;
pub mod target;
pub mod version;

use vstd::prelude::*;
use vstd::string::StringExecFns;

use crate::constants::FORBIDDEN_FUNCTION_NAME_CREATE_COPY_OF;
use crate::text::chars_of;
use crate::text::contains;
use crate::text::contains_chars;
use crate::text::decimal_text;
use crate::text::string_of;

use crate::project::contract::vyper::last_position;
use crate::project::contract::vyper::line_error;
use crate::project::contract::vyper::line_fails;
use crate::project::contract::vyper::read_from_lines;
use crate::project::contract::vyper::Contract as VyperContract;
use crate::project::contract::Contract as ProjectContract;
use crate::project::hex_text;
use crate::project::keccak256_of_texts;
use crate::project::source_texts;
use crate::project::Project;
use crate::string_map::has_key;
use crate::string_map::keys_increase;
use crate::string_map::lemma_entries_map;
use crate::string_map::lemma_lex_asymmetric;
use crate::string_map::lemma_lex_irreflexive;
use crate::string_map::lex_lt;
use crate::string_map::StringMap;
use crate::project::texts_of;


use self::selection::Selection;
use self::target::TargetEVMVersion;
use self::standard_json::input::settings::optimize::Optimize;
use self::standard_json::input::source::Source;
use self::standard_json::input::Input;
use self::standard_json::output::contract::Contract as StandardJsonContract;
use self::standard_json::output::errors_json;
use self::standard_json::output::Output as StandardJsonOutput;
use self::version::parts_text;
use self::version::semver_parsed;
use self::version::SemVer;
use self::version::SemVerParts;
use self::version::Version;

verus! {

broadcast use vstd::std_specs::vec::group_vec_axioms;

/// The message a source file that calls a forbidden built-in is refused with.
pub open spec fn unsupported_message() -> Seq<char> {
    "Built-in function `"@ + FORBIDDEN_FUNCTION_NAME_CREATE_COPY_OF@ + "` is not supported"@
}

/// Whether a `vyper` version is one of those supported: 0.3.3, 0.3.9,
/// 0.3.10 and 0.4.0.
pub open spec fn is_supported(version: SemVerParts) -> bool {
    let (major, minor, patch, pre, build) = version;
    &&& pre.len() == 0
    &&& build.len() == 0
    &&& {
        ||| (major, minor, patch) == (0u64, 3u64, 3u64)
        ||| (major, minor, patch) == (0u64, 3u64, 9u64)
        ||| (major, minor, patch) == (0u64, 3u64, 10u64)
        ||| (major, minor, patch) == (0u64, 4u64, 0u64)
    }
}

/// The text of `vyper --version` up to its first `+`: the version without
/// its build metadata.
pub open spec fn before_plus(text: Seq<char>) -> Seq<char>
    decreases text.len(),
{
    if text.len() == 0 {
        Seq::empty()
    } else if text[0] == '+' {
        Seq::empty()
    } else {
        seq![text[0]] + before_plus(text.drop_first())
    }
}

/// The list of supported versions, as the refusal of another one names it.
pub open spec fn supported_versions_text() -> Seq<char> {
    "0.3.3, 0.3.9, 0.3.10, 0.4.0"@
}

/// The last position of a character in a text, if it occurs.
pub open spec fn last_index_of(text: Seq<char>, c: char) -> Option<int>
    decreases text.len(),
{
    if text.len() == 0 {
        None
    } else if text.last() == c {
        Some(text.len() - 1)
    } else {
        last_index_of(text.drop_last(), c)
    }
}

/// The last position of a character is a position of it, with no other
/// after it.
pub proof fn lemma_last_index_of(text: Seq<char>, c: char)
    ensures
        match last_index_of(text, c) {
            Some(i) => 0 <= i < text.len() && text[i] == c && forall|j: int|
                i < j < text.len() ==> text[j] != c,
            None => forall|j: int| 0 <= j < text.len() ==> text[j] != c,
        },
    decreases text.len(),
{
    if text.len() > 0 && text.last() != c {
        lemma_last_index_of(text.drop_last(), c);
        assert(forall|j: int| 0 <= j < text.len() - 1 ==> text.drop_last()[j] == text[j]);
    }
}

/// Whether a contract name can be cut out of a file path: the last dot, if
/// there is one, is not before the last slash.
pub open spec fn has_contract_name(path: Seq<char>) -> bool {
    match (last_index_of(path, '/'), last_index_of(path, '.')) {
        (Some(slash), Some(dot)) => slash <= dot,
        _ => true,
    }
}

/// The contract name `vyper --standard-json` files a source under: the
/// path from its last slash, which is kept, up to its last dot.
pub open spec fn contract_name_of(path: Seq<char>) -> Seq<char> {
    let start = match last_index_of(path, '/') {
        Some(slash) => slash,
        None => 0,
    };
    let end = match last_index_of(path, '.') {
        Some(dot) => dot,
        None => path.len() as int,
    };
    path.subrange(start, end)
}

/// The contracts of the standard JSON output, by file and by name.
pub open spec fn deep(files: StringMap<StringMap<StandardJsonContract>>) -> Map<
    Seq<char>,
    Map<Seq<char>, StandardJsonContract>,
> {
    files.map().map_values(|file: StringMap<StandardJsonContract>| file.map())
}

/// A contract with its source code set.
pub open spec fn with_source_code(contract: StandardJsonContract, source_code: String) -> StandardJsonContract {
    StandardJsonContract { source_code: Some(source_code), ir: contract.ir, evm: contract.evm }
}

/// The contracts with the source code of each file set on the contract
/// filed under the file's contract name.
#[verifier::opaque]
pub open spec fn bind_all(
    files: Map<Seq<char>, Map<Seq<char>, StandardJsonContract>>,
    sources: Seq<(String, Source)>,
) -> Map<Seq<char>, Map<Seq<char>, StandardJsonContract>>
    decreases sources.len(),
{
    if sources.len() == 0 {
        files
    } else {
        let before = bind_all(files, sources.drop_last());
        let path = sources.last().0@;
        let name = contract_name_of(path);
        before.insert(
            path,
            before[path].insert(name, with_source_code(before[path][name], sources.last().1.content)),
        )
    }
}

/// Whether two collections of contracts by file and name have the same files
/// and the same names in each file.
pub open spec fn same_shape(
    a: Map<Seq<char>, Map<Seq<char>, StandardJsonContract>>,
    b: Map<Seq<char>, Map<Seq<char>, StandardJsonContract>>,
) -> bool {
    &&& a.dom() == b.dom()
    &&& forall|p: Seq<char>| #[trigger] a.contains_key(p) ==> a[p].dom() == b[p].dom()
}

/// One more file bound keeps the shape of the contracts.
proof fn lemma_bind_step(
    base: Map<Seq<char>, Map<Seq<char>, StandardJsonContract>>,
    prior: Map<Seq<char>, Map<Seq<char>, StandardJsonContract>>,
    current: Map<Seq<char>, Map<Seq<char>, StandardJsonContract>>,
    sources: Seq<(String, Source)>,
    i: int,
)
    requires
        0 <= i < sources.len(),
        prior == bind_all(base, sources.take(i)),
        same_shape(prior, base),
        prior.contains_key(sources[i].0@),
        prior[sources[i].0@].contains_key(contract_name_of(sources[i].0@)),
        current == prior.insert(
            sources[i].0@,
            prior[sources[i].0@].insert(
                contract_name_of(sources[i].0@),
                with_source_code(prior[sources[i].0@][contract_name_of(sources[i].0@)], sources[i].1.content),
            ),
        ),
    ensures
        current == bind_all(base, sources.take(i + 1)),
        same_shape(current, base),
{
    reveal(bind_all);
    let next = sources.take(i + 1);
    assert(next.drop_last() =~= sources.take(i));
    assert(next.last() == sources[i]);
    assert(current.dom() =~= base.dom());
    assert forall|p: Seq<char>| #[trigger] current.contains_key(p) implies current[p].dom() == base[p].dom() by {
        if p == sources[i].0@ {
            assert(current[p].dom() =~= prior[p].dom());
        }
    }
}

/// Binding no file leaves the contracts as they are.
proof fn lemma_bind_none(
    base: Map<Seq<char>, Map<Seq<char>, StandardJsonContract>>,
    sources: Seq<(String, Source)>,
)
    ensures
        bind_all(base, sources.take(0)) == base,
        same_shape(base, base),
{
    reveal(bind_all);
    assert(sources.take(0) =~= Seq::<(String, Source)>::empty());
}

/// The error the source code of a file cannot be set on its contract with,
/// if there is one.
#[verifier::opaque]
pub open spec fn binding_error(
    contracts: Option<StringMap<StringMap<StandardJsonContract>>>,
    errors: Option<Vec<self::standard_json::output::error::Error>>,
    path: Seq<char>,
    content: Seq<char>,
) -> Option<Seq<char>> {
    if contains(content, FORBIDDEN_FUNCTION_NAME_CREATE_COPY_OF@) {
        Some("Contract `"@ + path + "`: "@ + unsupported_message())
    } else {
        match contracts {
            None => Some(errors_json(errors)),
            Some(files) => if !files.map().contains_key(path) {
                Some("File `"@ + path + "` not found in the standard JSON output"@)
            } else if !files.map()[path].map().contains_key(contract_name_of(path)) {
                Some("Contract `"@ + contract_name_of(path) + "` not found in the standard JSON output"@)
            } else {
                None
            },
        }
    }
}

/// The last position of a character in a text, if it occurs.
fn last_index(text: &[char], c: char) -> (r: Option<usize>)
    ensures
        match r {
            Some(i) => last_index_of(text@, c) == Some(i as int),
            None => last_index_of(text@, c) is None,
        },
{
    let mut i: usize = text.len();
    proof {
        assert(text@.take(i as int) =~= text@);
    }
    while i > 0
        invariant
            i <= text.len(),
            last_index_of(text@, c) == last_index_of(text@.take(i as int), c),
        decreases i,
    {
        proof {
            assert(text@.take(i as int).drop_last() =~= text@.take(i - 1));
        }
        if text[i - 1] == c {
            return Some(i - 1);
        }
        i = i - 1;
    }
    None
}

/// The outputs always requested from `vyper` in batch mode, in order.
pub open spec fn extra_selection() -> Seq<Selection> {
    seq![
        Selection::IR,
        Selection::IRJson,
        Selection::Metadata,
        Selection::AST,
        Selection::ABI,
        Selection::MethodIdentifiers,
    ]
}

/// The outputs of `extras` that `selection` lacks, in order.
pub open spec fn missing(selection: Seq<Selection>, extras: Seq<Selection>) -> Seq<Selection>
    decreases extras.len(),
{
    if extras.len() == 0 {
        Seq::empty()
    } else {
        missing(selection, extras.drop_last()) + if selection.contains(extras.last()) {
            Seq::empty()
        } else {
            seq![extras.last()]
        }
    }
}

/// The outputs requested from `vyper` in batch mode: those selected, then
/// the always requested ones not among them.
pub open spec fn batch_selection_of(selection: Seq<Selection>) -> Seq<Selection> {
    selection + missing(selection, extra_selection())
}

/// The names of outputs, separated by commas.
pub open spec fn joined_names(selection: Seq<Selection>) -> Seq<char>
    decreases selection.len(),
{
    if selection.len() == 0 {
        Seq::empty()
    } else if selection.len() == 1 {
        selection[0].name()
    } else {
        joined_names(selection.drop_last()) + ","@ + selection.last().name()
    }
}

/// The position of the first occurrence of a character, if any.
pub open spec fn first_index_of(text: Seq<char>, c: char) -> Option<int>
    decreases text.len(),
{
    if text.len() == 0 {
        None
    } else if text[0] == c {
        Some(0)
    } else {
        match first_index_of(text.drop_first(), c) {
            Some(i) => Some(i + 1),
            None => None,
        }
    }
}

/// A line without the carriage return that ends it, if one does.
pub open spec fn without_carriage_return(line: Seq<char>) -> Seq<char> {
    if line.len() > 0 && line.last() == '\r' {
        line.drop_last()
    } else {
        line
    }
}

/// The lines of a text, as `str::lines` splits it: at each line feed, with
/// a carriage return before it dropped; the last line may lack its line
/// feed, and no line follows a final line feed.
pub open spec fn lines_of(text: Seq<char>) -> Seq<Seq<char>>
    decreases text.len(),
{
    if text.len() == 0 {
        Seq::empty()
    } else {
        match first_index_of(text, '\n') {
            None => seq![text],
            Some(i) => if 0 <= i < text.len() {
                seq![without_carriage_return(text.take(i))] + lines_of(text.skip(i + 1))
            } else {
                Seq::empty()
            },
        }
    }
}

/// A text with no line feed followed by a line feed has its first line
/// feed there.
proof fn lemma_first_line_feed(line: Seq<char>, rest: Seq<char>)
    requires
        forall|k: int| 0 <= k < line.len() ==> line[k] != '\n',
    ensures
        first_index_of(line + seq!['\n'] + rest, '\n') == Some(line.len() as int),
    decreases line.len(),
{
    if line.len() > 0 {
        lemma_first_line_feed(line.drop_first(), rest);
        assert((line + seq!['\n'] + rest).drop_first() =~= line.drop_first() + seq!['\n'] + rest);
    }
}

/// A text with no line feed has none.
proof fn lemma_no_line_feed(line: Seq<char>)
    requires
        forall|k: int| 0 <= k < line.len() ==> line[k] != '\n',
    ensures
        first_index_of(line, '\n') is None,
    decreases line.len(),
{
    if line.len() > 0 {
        lemma_no_line_feed(line.drop_first());
    }
}

/// The number of groups the output lines fall into: one per `size` lines,
/// the last possibly shorter.
pub open spec fn group_count(lines: int, size: int) -> int {
    if size <= 0 {
        0
    } else if lines % size == 0 {
        lines / size
    } else {
        lines / size + 1
    }
}

/// A group at position `k` exists exactly when it starts before the last
/// line.
proof fn lemma_group_bounds(lines: int, size: int, k: int)
    requires
        size > 0,
        lines >= 0,
        k >= 0,
    ensures
        (k * size < lines) == (k < group_count(lines, size)),
        k * size >= 0,
{
    let q = lines / size;
    let r = lines % size;
    assert(lines == q * size + r && 0 <= r < size) by {
        vstd::arithmetic::div_mod::lemma_fundamental_div_mod(lines, size);
    }
    assert(k * size >= 0) by (nonlinear_arith)
        requires
            k >= 0,
            size > 0,
    ;
    if k <= q - 1 {
        assert(k * size <= (q - 1) * size) by (nonlinear_arith)
            requires
                k <= q - 1,
                size > 0,
        ;
        assert((q - 1) * size == q * size - size) by (nonlinear_arith);
    } else if k == q {
        assert(k * size == q * size);
    } else {
        assert(k * size >= (q + 1) * size) by (nonlinear_arith)
            requires
                k >= q + 1,
                size > 0,
        ;
        assert((q + 1) * size == q * size + size) by (nonlinear_arith);
    }
}

/// The lines of the group at position `k`.
pub open spec fn group_of(lines: Seq<Seq<char>>, size: int, k: int) -> Seq<Seq<char>> {
    lines.subrange(k * size, vstd::math::min((k + 1) * size, lines.len() as int))
}

/// The number of source files whose output is read: as many as there are
/// both files and groups of output lines.
pub open spec fn processed_count(sources: int, lines: int, size: int) -> int {
    vstd::math::min(sources, group_count(lines, size))
}

/// Whether no later read file than the one at position `k`, below `count`,
/// has its path.
pub open spec fn is_last(sources: Seq<(String, Result<String, String>)>, k: int, count: int) -> bool {
    forall|j: int| k < j < count ==> (#[trigger] sources[j]).0@ != sources[k].0@
}

/// Whether the outputs that must be there for each read file are within
/// its group of lines.
pub open spec fn groups_hold_outputs(selection: Seq<Selection>, lines: Seq<Seq<char>>, count: int) -> bool {
    forall|k: int| 0 <= k < count ==> {
        let n = vstd::math::min(selection.len() as int, #[trigger] group_of(lines, selection.len() as int, k).len() as int);
        &&& last_position(selection, Selection::IRJson, n) is Some
        &&& last_position(selection, Selection::AST, n) is Some
        &&& last_position(selection, Selection::ABI, n) is Some
        &&& last_position(selection, Selection::MethodIdentifiers, n) is Some
    }
}

/// Whether a source file is read into `contract` from its group of output
/// lines.
pub open spec fn file_read(
    source: Result<String, String>,
    contract: VyperContract,
    version: SemVer,
    selection: Seq<Selection>,
    group: Seq<Seq<char>>,
) -> bool {
    &&& source is Ok
    &&& !contains(source->Ok_0@, FORBIDDEN_FUNCTION_NAME_CREATE_COPY_OF@)
    &&& read_from_lines(contract, version, source->Ok_0, selection, group)
}

/// Whether a source file fails to be read with `message`: it could not be
/// read from disk, it calls a forbidden built-in, or a line of its output
/// cannot be read.
pub open spec fn file_failure(
    path: Seq<char>,
    source: Result<String, String>,
    message: Seq<char>,
    selection: Seq<Selection>,
    group: Seq<Seq<char>>,
) -> bool {
    match source {
        Err(error) => message == error@,
        Ok(code) => if contains(code@, FORBIDDEN_FUNCTION_NAME_CREATE_COPY_OF@) {
            message == "Contract `"@ + path + "`: "@ + unsupported_message()
        } else {
            &&& exists|j: int| {
                &&& 0 <= j < vstd::math::min(selection.len() as int, group.len() as int)
                &&& line_fails(#[trigger] selection[j], group[j])
                &&& forall|i: int| 0 <= i < j ==> !line_fails(#[trigger] selection[i], group[i])
                &&& message == "Contract `"@ + path + "` JSON output parsing: "@ + line_error(selection[j], group[j])
            }
        },
    }
}

/// Whether a source file fails to be read: it could not be read from disk,
/// it calls a forbidden built-in, or a line of its output does not hold
/// what its flag asks for.
pub open spec fn file_fails(source: Result<String, String>, selection: Seq<Selection>, group: Seq<Seq<char>>) -> bool {
    match source {
        Err(_) => true,
        Ok(code) => contains(code@, FORBIDDEN_FUNCTION_NAME_CREATE_COPY_OF@) || exists|j: int|
            0 <= j < vstd::math::min(selection.len() as int, group.len() as int) && line_fails(
                #[trigger] selection[j],
                group[j],
            ),
    }
}

/// The outputs lacking are among those always requested.
proof fn lemma_missing_within(selection: Seq<Selection>, extras: Seq<Selection>)
    ensures
        forall|j: int| 0 <= j < missing(selection, extras).len() ==> extras.contains(
            #[trigger] missing(selection, extras)[j],
        ),
    decreases extras.len(),
{
    if extras.len() > 0 {
        lemma_missing_within(selection, extras.drop_last());
        let before = missing(selection, extras.drop_last());
        assert forall|j: int| 0 <= j < missing(selection, extras).len() implies extras.contains(
            #[trigger] missing(selection, extras)[j],
        ) by {
            if j < before.len() {
                let m = choose|m: int| 0 <= m < extras.drop_last().len() && extras.drop_last()[m] == before[j];
                assert(extras[m] == before[j]);
            } else {
                assert(missing(selection, extras)[j] == extras[extras.len() - 1]);
            }
        }
    }
}

/// Every output of `extras` that `selection` lacks is among those missing.
proof fn lemma_missing_covers(selection: Seq<Selection>, extras: Seq<Selection>)
    ensures
        forall|m: int|
            0 <= m < extras.len() && !selection.contains(#[trigger] extras[m]) ==> missing(
                selection,
                extras,
            ).contains(extras[m]),
    decreases extras.len(),
{
    if extras.len() > 0 {
        lemma_missing_covers(selection, extras.drop_last());
        let before = missing(selection, extras.drop_last());
        assert forall|m: int|
            0 <= m < extras.len() && !selection.contains(#[trigger] extras[m]) implies missing(
                selection,
                extras,
            ).contains(extras[m]) by {
            if m < extras.len() - 1 {
                assert(extras.drop_last()[m] == extras[m]);
                let k = choose|k: int| 0 <= k < before.len() && before[k] == extras[m];
                assert(missing(selection, extras)[k] == extras[m]);
            } else {
                assert(missing(selection, extras)[before.len() as int] == extras[m]);
            }
        }
    }
}

/// In batch mode, the outputs selected are requested first, in their
/// order, and every output that is always requested is requested.
pub proof fn lemma_batch_selection(selection: Seq<Selection>)
    ensures
        batch_selection_of(selection).take(selection.len() as int) == selection,
        forall|m: int| 0 <= m < extra_selection().len() ==> batch_selection_of(selection).contains(
            #[trigger] extra_selection()[m],
        ),
{
    lemma_missing_covers(selection, extra_selection());
    assert(batch_selection_of(selection).take(selection.len() as int) =~= selection);
    assert forall|m: int| 0 <= m < extra_selection().len() implies batch_selection_of(selection).contains(
        #[trigger] extra_selection()[m],
    ) by {
        let flag = extra_selection()[m];
        if selection.contains(flag) {
            let k = choose|k: int| 0 <= k < selection.len() && selection[k] == flag;
            assert(batch_selection_of(selection)[k] == flag);
        } else {
            let missing_flags = missing(selection, extra_selection());
            let k = choose|k: int| 0 <= k < missing_flags.len() && missing_flags[k] == flag;
            assert(batch_selection_of(selection)[selection.len() + k] == flag);
        }
    }
}

/// Nothing selected lacks every output.
proof fn lemma_missing_all(extras: Seq<Selection>)
    ensures
        missing(Seq::empty(), extras) == extras,
    decreases extras.len(),
{
    if extras.len() > 0 {
        lemma_missing_all(extras.drop_last());
        assert(extras.drop_last().push(extras.last()) =~= extras);
    }
}

/// The last position below `count` of a read file with the path `key`.
pub open spec fn last_with_path(sources: Seq<(String, Result<String, String>)>, key: Seq<char>, count: int) -> int
    decreases count,
{
    if count <= 0 {
        -1
    } else if sources[count - 1].0@ == key {
        count - 1
    } else {
        last_with_path(sources, key, count - 1)
    }
}

/// A path among the first `count` read files has a last position among
/// them.
proof fn lemma_last_with_path(sources: Seq<(String, Result<String, String>)>, key: Seq<char>, count: int, k: int)
    requires
        0 <= k < count <= sources.len(),
        sources[k].0@ == key,
    ensures
        0 <= last_with_path(sources, key, count) < count,
        sources[last_with_path(sources, key, count)].0@ == key,
        is_last(sources, last_with_path(sources, key, count), count),
    decreases count,
{
    if sources[count - 1].0@ != key {
        lemma_last_with_path(sources, key, count - 1, k);
    }
}

/// The Vyper compiler.
#[derive(Debug, Clone)]
pub struct Compiler {
    /// The binary executable name.
    pub executable: String,
    /// The `vyper` compiler version.
    pub version: Version,
}

impl Compiler {
    /// The default executable name.
    pub const DEFAULT_EXECUTABLE_NAME: &'static str = "vyper";

    /// The supported versions of `vyper`.
    pub fn supported_versions() -> (r: Vec<SemVer>)
        ensures
            r.len() == 4,
            r@[0].is_release(0, 3, 3),
            r@[1].is_release(0, 3, 9),
            r@[2].is_release(0, 3, 10),
            r@[3].is_release(0, 4, 0),
    {
        let mut versions: Vec<SemVer> = Vec::new();
        versions.push(SemVer::new(0, 3, 3));
        versions.push(SemVer::new(0, 3, 9));
        versions.push(SemVer::new(0, 3, 10));
        versions.push(SemVer::new(0, 4, 0));
        versions
    }

    /// The first version where we cannot use the optimizer.
    pub fn first_version_optimizer_unusable() -> (r: SemVer)
        ensures
            r.is_release(0, 3, 10),
    {
        SemVer::new(0, 3, 10)
    }

    /// The first version supporting `--enable-decimals`.
    pub fn first_version_enable_decimals_support() -> (r: SemVer)
        ensures
            r.is_release(0, 4, 0),
    {
        SemVer::new(0, 4, 0)
    }

    /// Checks for unsupported code in a Vyper source code file: the
    /// `create_copy_of` built-in.
    pub fn check_unsupported(source_code: &str) -> (r: Result<(), String>)
        ensures
            match r {
                Ok(()) => !contains(source_code@, FORBIDDEN_FUNCTION_NAME_CREATE_COPY_OF@),
                Err(message) => contains(source_code@, FORBIDDEN_FUNCTION_NAME_CREATE_COPY_OF@)
                    && message@ == unsupported_message(),
            },
    {
        let source = chars_of(source_code);
        let function = chars_of(FORBIDDEN_FUNCTION_NAME_CREATE_COPY_OF);
        if contains_chars(source.as_slice(), function.as_slice()) {
            let mut message = String::from_str("Built-in function `");
            message.append(FORBIDDEN_FUNCTION_NAME_CREATE_COPY_OF);
            message.append("` is not supported");
            return Err(message);
        }
        Ok(())
    }

    /// The text of `vyper --version` up to its first `+`.
    fn version_without_metadata(long: &str) -> (r: String)
        ensures
            r@ == before_plus(long@),
    {
        let text = chars_of(long);
        let mut prefix: Vec<char> = Vec::new();
        let mut i: usize = 0;
        proof {
            assert(text@.skip(0) =~= text@);
            assert(prefix@ + before_plus(text@) =~= before_plus(text@));
        }
        loop
            invariant
                i <= text.len(),
                before_plus(text@) == prefix@ + before_plus(text@.skip(i as int)),
            ensures
                before_plus(text@) == prefix@,
            decreases text.len() - i,
        {
            if i == text.len() {
                proof {
                    assert(text@.skip(i as int).len() == 0);
                    assert(prefix@ + Seq::<char>::empty() =~= prefix@);
                }
                break;
            }
            if text[i] == '+' {
                proof {
                    assert(text@.skip(i as int)[0] == '+');
                    assert(prefix@ + Seq::<char>::empty() =~= prefix@);
                }
                break;
            }
            proof {
                assert(text@.skip(i as int).drop_first() =~= text@.skip(i + 1));
                assert(seq![text@[i as int]] + before_plus(text@.skip(i + 1)) == before_plus(
                    text@.skip(i as int),
                ));
                assert(prefix@.push(text@[i as int]) + before_plus(text@.skip(i + 1)) =~= prefix@
                    + before_plus(text@.skip(i as int)));
            }
            prefix.push(text[i]);
            i = i + 1;
        }
        string_of(prefix.as_slice())
    }

    /// The version read from `vyper --version`, given what `semver` made of
    /// its text up to the first `+`: the parsed version where it is one of
    /// those supported, else an error.
    pub fn checked_version(executable: &str, long: String, parsed: Result<SemVer, String>) -> (r: Result<
        Version,
        String,
    >)
        ensures
            match parsed {
                Ok(default) => if is_supported(default.parts()) {
                    r matches Ok(version) && version.long@ == long@ && version.default.parts()
                        == default.parts()
                } else {
                    r matches Err(message) && message@ == "Only `vyper` versions [ "@
                        + supported_versions_text() + " ] are supported, found "@ + default.text()
                },
                Err(error) => r matches Err(message) && message@ == executable@
                    + " version parsing: "@ + error@,
            },
    {
        let default = match parsed {
            Ok(default) => default,
            Err(error) => {
                let mut message = String::from_str(executable);
                message.append(" version parsing: ");
                message.append(error.as_str());
                return Err(message);
            },
        };
        if default.equals_release(0, 3, 3) || default.equals_release(0, 3, 9) || default.equals_release(
            0,
            3,
            10,
        ) || default.equals_release(0, 4, 0) {
            return Ok(Version::new(long, default));
        }
        let mut message = String::from_str("Only `vyper` versions [ ");
        let versions = Self::supported_versions();
        let mut i: usize = 0;
        while i < versions.len()
            invariant
                versions.len() == 4,
                versions@[0].is_release(0, 3, 3),
                versions@[1].is_release(0, 3, 9),
                versions@[2].is_release(0, 3, 10),
                versions@[3].is_release(0, 4, 0),
                i <= 4,
                i == 0 ==> message@ == "Only `vyper` versions [ "@,
                i == 1 ==> message@ == "Only `vyper` versions [ "@ + versions@[0].text(),
                i == 2 ==> message@ == "Only `vyper` versions [ "@ + versions@[0].text() + ", "@
                    + versions@[1].text(),
                i == 3 ==> message@ == "Only `vyper` versions [ "@ + versions@[0].text() + ", "@
                    + versions@[1].text() + ", "@ + versions@[2].text(),
                i == 4 ==> message@ == "Only `vyper` versions [ "@ + versions@[0].text() + ", "@
                    + versions@[1].text() + ", "@ + versions@[2].text() + ", "@ + versions@[3].text(),
            decreases 4 - i,
        {
            if i > 0 {
                message.append(", ");
            }
            let text = versions[i].to_string();
            message.append(text.as_str());
            i = i + 1;
        }
        proof {
            reveal_strlit("0.3.3, 0.3.9, 0.3.10, 0.4.0");
            reveal_strlit(", ");
            reveal_strlit(".");
            assert(versions@[0].text() =~= seq!['0', '.', '3', '.', '3']);
            assert(versions@[1].text() =~= seq!['0', '.', '3', '.', '9']);
            reveal_with_fuel(decimal_text, 2);
            assert(decimal_text(10) =~= seq!['1', '0']);
            assert(versions@[2].text() =~= seq!['0', '.', '3', '.', '1', '0']);
            assert(versions@[3].text() =~= seq!['0', '.', '4', '.', '0']);
            assert(versions@[0].text() + ", "@ + versions@[1].text() + ", "@ + versions@[2].text() + ", "@
                + versions@[3].text() =~= supported_versions_text());
        }
        message.append(" ] are supported, found ");
        let found = default.to_string();
        message.append(found.as_str());
        proof {
            assert(message@ =~= "Only `vyper` versions [ "@ + supported_versions_text()
                + " ] are supported, found "@ + default.text());
        }
        Err(message)
    }

    /// The version read from the output of `vyper --version`: its text up
    /// to the first `+` is parsed as a semantic version, which must be one of
    /// those supported.
    pub fn version_from_output(executable: &str, long: String) -> (r: Result<Version, String>)
        ensures
            match semver_parsed(before_plus(long@)) {
                Ok(parts) => if is_supported(parts) {
                    r matches Ok(version) && version.long@ == long@ && version.default.parts() == parts
                } else {
                    r matches Err(message) && message@ == "Only `vyper` versions [ "@
                        + supported_versions_text() + " ] are supported, found "@ + parts_text(parts)
                },
                Err(error) => r matches Err(message) && message@ == executable@
                    + " version parsing: "@ + error,
            },
    {
        let text = Self::version_without_metadata(long.as_str());
        let parsed = SemVer::parse(text.as_str());
        Self::checked_version(executable, long, parsed)
    }

    /// Adjusts the `vyper --standard-json` input to the compiler version:
    /// from 0.3.10 on, the optimizer is turned off.
    pub fn prepare_standard_json_input(&self, input: &mut Input)
        ensures
            final(input).language == old(input).language,
            final(input).sources == old(input).sources,
            final(input).settings.evm_version == old(input).settings.evm_version,
            final(input).settings.output_selection == old(input).settings.output_selection,
            final(input).settings.enable_decimals == old(input).settings.enable_decimals,
            final(input).settings.fallback_to_optimizing_for_size == old(input).settings.fallback_to_optimizing_for_size,
            final(input).settings.llvm_options == old(input).settings.llvm_options,
            final(input).settings.optimize == if self.version.default.is_at_least(0, 3, 10) {
                Optimize::NoOptimization
            } else {
                old(input).settings.optimize
            },
    {
        if self.version.default.at_least(0, 3, 10) {
            input.settings.optimize = Optimize::NoOptimization;
        }
    }

    /// The contract name `vyper --standard-json` files a source under.
    pub fn contract_name(full_path: &str) -> (r: String)
        requires
            has_contract_name(full_path@),
        ensures
            r@ == contract_name_of(full_path@),
    {
        let path = chars_of(full_path);
        let start = match last_index(path.as_slice(), '/') {
            Some(slash) => slash,
            None => 0,
        };
        let end = match last_index(path.as_slice(), '.') {
            Some(dot) => dot,
            None => path.len(),
        };
        proof {
            lemma_last_index_of(path@, '/');
            lemma_last_index_of(path@, '.');
        }
        let mut name: Vec<char> = Vec::new();
        let mut i: usize = start;
        proof {
            assert(name@ =~= path@.subrange(start as int, i as int));
        }
        while i < end
            invariant
                start <= i <= end <= path.len(),
                name@ == path@.subrange(start as int, i as int),
            decreases end - i,
        {
            proof {
                assert(path@.subrange(start as int, i + 1) =~= name@.push(path@[i as int]));
            }
            name.push(path[i]);
            i = i + 1;
        }
        string_of(name.as_slice())
    }

    /// Whether a contract name can be cut from the path: its last slash,
    /// if any, does not come after its last dot.
    pub fn names_contract(full_path: &str) -> (r: bool)
        ensures
            r == has_contract_name(full_path@),
    {
        let path = chars_of(full_path);
        match (last_index(path.as_slice(), '/'), last_index(path.as_slice(), '.')) {
            (Some(slash), Some(dot)) => slash <= dot,
            _ => true,
        }
    }

    /// Sets the source code of a file on the contract filed under it.
    fn bind_source(
        contracts: &mut StringMap<StringMap<StandardJsonContract>>,
        path: &String,
        content: &String,
    ) -> (r: Result<(), String>)
        requires
            has_contract_name(path@),
        ensures
            match r {
                Ok(()) => {
                    let name = contract_name_of(path@);
                    let before = deep(*old(contracts));
                    &&& before.contains_key(path@)
                    &&& before[path@].contains_key(name)
                    &&& deep(*final(contracts)) == before.insert(
                        path@,
                        before[path@].insert(name, with_source_code(before[path@][name], *content)),
                    )
                },
                Err(message) => if !old(contracts).map().contains_key(path@) {
                    message@ == "File `"@ + path@ + "` not found in the standard JSON output"@
                } else {
                    &&& !old(contracts).map()[path@].map().contains_key(contract_name_of(path@))
                    &&& message@ == "Contract `"@ + contract_name_of(path@)
                        + "` not found in the standard JSON output"@
                },
            },
    {
        let ghost prior = *contracts;
        let name = Self::contract_name(path.as_str());
        let path_chars = chars_of(path.as_str());
        let mut file = match contracts.remove(path_chars.as_slice()) {
            Some(file) => file,
            None => {
                let mut message = String::from_str("File `");
                message.append(path.as_str());
                message.append("` not found in the standard JSON output");
                return Err(message);
            },
        };
        let ghost file0 = file;
        let name_chars = chars_of(name.as_str());
        let mut contract = match file.remove(name_chars.as_slice()) {
            Some(contract) => contract,
            None => {
                proof {
                    assert(prior.map().contains_key(path@));
                }
                let mut message = String::from_str("Contract `");
                message.append(name.as_str());
                message.append("` not found in the standard JSON output");
                return Err(message);
            },
        };
        let ghost contract0 = contract;
        let source_code = content.clone();
        contract.source_code = Some(source_code);
        let ghost bound = contract;
        file.insert(name, contract);
        contracts.insert(path.clone(), file);
        proof {
            let name_view = contract_name_of(path@);
            assert(bound == with_source_code(contract0, *content));
            assert(deep(prior).contains_key(path@));
            assert(deep(prior)[path@] == file0.map());
            assert(file.map() =~= file0.map().insert(name_view, bound));
            assert(contracts.map() =~= prior.map().insert(path@, file));
            assert(deep(*contracts) =~= deep(prior).insert(
                path@,
                deep(prior)[path@].insert(name_view, with_source_code(deep(prior)[path@][name_view], *content)),
            ));
        }
        Ok(())
    }

    /// Sets the source code of each input file on the contract that
    /// `vyper --standard-json` filed under it.
    ///
    /// The files are taken in the order of their paths; the first that
    /// calls a forbidden built-in or has no contract in the output is
    /// reported.
    #[verifier::loop_isolation(false)]
    pub fn bind_sources(output: StandardJsonOutput, sources: StringMap<Source>) -> (r: Result<
        StandardJsonOutput,
        String,
    >)
        requires
            forall|i: int|
                0 <= i < sources.contents().len() ==> has_contract_name(
                    #[trigger] sources.contents()[i].0@,
                ),
        ensures
            match r {
                Ok(bound) => {
                    &&& forall|i: int|
                        0 <= i < sources.contents().len() ==> (#[trigger] binding_error(
                            output.contracts,
                            output.errors,
                            sources.contents()[i].0@,
                            sources.contents()[i].1.content@,
                        )) is None
                    &&& bound.sources == output.sources
                    &&& bound.errors == output.errors
                    &&& bound.long_version == output.long_version
                    &&& sources.contents().len() == 0 ==> bound.contracts == output.contracts
                    &&& sources.contents().len() > 0 ==> {
                        &&& output.contracts is Some
                        &&& bound.contracts is Some
                        &&& deep(bound.contracts->0) == bind_all(
                            deep(output.contracts->0),
                            sources.contents(),
                        )
                    }
                },
                Err(message) => exists|i: int|
                    0 <= i < sources.contents().len() && binding_error(
                        output.contracts,
                        output.errors,
                        sources.contents()[i].0@,
                        sources.contents()[i].1.content@,
                    ) == Some(message@) && forall|j: int|
                        0 <= j < i ==> (#[trigger] binding_error(
                            output.contracts,
                            output.errors,
                            sources.contents()[j].0@,
                            sources.contents()[j].1.content@,
                        )) is None,
            },
    {
        let ghost given = output;
        let mut output = output;
        let ghost original = output.contracts;
        let mut contracts: Option<StringMap<StringMap<StandardJsonContract>>> = None;
        std::mem::swap(&mut contracts, &mut output.contracts);
        let entries = sources.into_entries();
        let mut i: usize = 0;
        while i < entries.len()
            invariant
                i <= entries.len(),
                entries@ == sources.contents(),
                keys_increase(entries@),
                forall|j: int| 0 <= j < entries.len() ==> has_contract_name(#[trigger] entries@[j].0@),
                output.contracts is None,
                output.errors == given.errors,
                output.sources == given.sources,
                output.long_version == given.long_version,
                original == given.contracts,
                forall|j: int|
                    0 <= j < i ==> (#[trigger] binding_error(
                        original,
                        output.errors,
                        entries@[j].0@,
                        entries@[j].1.content@,
                    )) is None,
                i == 0 ==> contracts == original,
                i > 0 ==> {
                    &&& original is Some
                    &&& contracts is Some
                    &&& deep(contracts->0) == bind_all(deep(original->0), entries@.take(i as int))
                    &&& same_shape(deep(contracts->0), deep(original->0))
                },
            decreases entries.len() - i,
        {
            let path = &entries[i].0;
            let content = &entries[i].1.content;
            if let Err(error) = Self::check_unsupported(content.as_str()) {
                let mut message = String::from_str("Contract `");
                message.append(path.as_str());
                message.append("`: ");
                message.append(error.as_str());
                proof {
                    assert(binding_error(original, output.errors, path@, content@) == Some(message@)) by {
                        reveal(binding_error);
                    }
                    assert(sources.contents()[i as int] == entries@[i as int]);
                    assert(binding_error(
                        given.contracts,
                        given.errors,
                        sources.contents()[i as int].0@,
                        sources.contents()[i as int].1.content@,
                    ) == Some(message@));
                }
                return Err(message);
            }
            let mut current = match contracts {
                Some(current) => current,
                None => {
                    proof {
                        assert(original is None);
                        assert(binding_error(original, output.errors, path@, content@) == Some(
                            errors_json(output.errors),
                        )) by {
                            reveal(binding_error);
                        }
                    }
                    return Err(output.errors_json());
                },
            };
            let ghost base = original->0;
            let ghost prior = current;
            proof {
                if i == 0 {
                    lemma_bind_none(deep(base), entries@);
                }
                assert(deep(prior).dom() =~= prior.map().dom());
                assert(deep(base).dom() =~= base.map().dom());
            }
            match Self::bind_source(&mut current, path, content) {
                Ok(()) => {},
                Err(message) => {
                    proof {
                        assert(binding_error(original, output.errors, path@, content@) == Some(message@)) by {
                            reveal(binding_error);
                            if base.map().contains_key(path@) {
                                assert(deep(prior).contains_key(path@));
                                assert(deep(prior)[path@].dom() == deep(base)[path@].dom());
                                assert(deep(prior)[path@].dom() =~= prior.map()[path@].map().dom());
                                assert(deep(base)[path@].dom() =~= base.map()[path@].map().dom());
                            }
                        }
                        assert(sources.contents()[i as int] == entries@[i as int]);
                        assert(binding_error(
                            given.contracts,
                            given.errors,
                            sources.contents()[i as int].0@,
                            sources.contents()[i as int].1.content@,
                        ) == Some(message@));
                    }
                    return Err(message);
                },
            }
            proof {
                lemma_bind_step(deep(base), deep(prior), deep(current), entries@, i as int);
                assert(binding_error(original, output.errors, path@, content@) is None) by {
                    reveal(binding_error);
                    assert(deep(base).contains_key(path@));
                    assert(deep(prior)[path@].dom() == deep(base)[path@].dom());
                    assert(deep(base)[path@].dom() =~= base.map()[path@].map().dom());
                }
            }
            contracts = Some(current);
            i = i + 1;
        }
        proof {
            assert(entries@.take(entries.len() as int) =~= entries@);
        }
        output.contracts = contracts;
        Ok(output)
    }

    /// The outputs requested from `vyper` in batch mode: those selected,
    /// then the always requested ones not among them.
    pub fn batch_selection(selection: &Vec<Selection>) -> (r: Vec<Selection>)
        ensures
            r@ == batch_selection_of(selection@),
    {
        let extras: Vec<Selection> = vec![
            Selection::IR,
            Selection::IRJson,
            Selection::Metadata,
            Selection::AST,
            Selection::ABI,
            Selection::MethodIdentifiers,
        ];
        let mut result: Vec<Selection> = Vec::new();
        let mut i: usize = 0;
        while i < selection.len()
            invariant
                i <= selection.len(),
                result@ == selection@.take(i as int),
            decreases selection.len() - i,
        {
            proof {
                assert(selection@.take(i + 1) =~= result@.push(selection@[i as int]));
            }
            result.push(selection[i]);
            i = i + 1;
        }
        proof {
            assert(selection@.take(selection.len() as int) =~= selection@);
            assert(extras@ =~= extra_selection());
            assert(result@ + missing(selection@, extras@.take(0)) =~= result@);
        }
        let mut j: usize = 0;
        while j < extras.len()
            invariant
                j <= extras.len(),
                extras@ == extra_selection(),
                result@ == selection@ + missing(selection@, extras@.take(j as int)),
            decreases extras.len() - j,
        {
            let flag = extras[j];
            let mut present = false;
            let mut k: usize = 0;
            while k < selection.len()
                invariant
                    k <= selection.len(),
                    present == exists|m: int| 0 <= m < k && selection@[m] == flag,
                decreases selection.len() - k,
            {
                if selection[k] == flag {
                    present = true;
                }
                k = k + 1;
            }
            proof {
                assert(extras@.take(j + 1).drop_last() =~= extras@.take(j as int));
                assert(extras@.take(j + 1).last() == flag);
                if present {
                    let m = choose|m: int| 0 <= m < k && selection@[m] == flag;
                    assert(selection@.contains(flag));
                } else {
                    assert(!selection@.contains(flag));
                }
            }
            if !present {
                result.push(flag);
            }
            proof {
                assert(result@ =~= selection@ + missing(selection@, extras@.take(j + 1)));
            }
            j = j + 1;
        }
        proof {
            assert(extras@.take(extras.len() as int) =~= extras@);
        }
        result
    }

    /// The names of outputs, separated by commas.
    fn join_names(selection: &Vec<Selection>) -> (r: String)
        ensures
            r@ == joined_names(selection@),
    {
        let mut text = String::new();
        let mut i: usize = 0;
        while i < selection.len()
            invariant
                i <= selection.len(),
                text@ == joined_names(selection@.take(i as int)),
            decreases selection.len() - i,
        {
            proof {
                assert(selection@.take(i + 1).drop_last() =~= selection@.take(i as int));
                if i == 0 {
                    assert(selection@.take(1) =~= seq![selection@[0]]);
                }
            }
            if i > 0 {
                text.append(",");
            }
            let name = selection[i].to_string();
            text.append(name.as_str());
            i = i + 1;
        }
        proof {
            assert(selection@.take(selection.len() as int) =~= selection@);
        }
        text
    }

    /// The arguments `vyper` is run with in batch mode after the EVM
    /// version: the decimals switch, the outputs requested (those selected,
    /// then the always requested ones) and the optimizer switch.
    pub open spec fn batch_flags(&self, selection: Seq<Selection>, enable_decimals: bool, optimize: bool) -> Seq<
        Seq<char>,
    > {
        (if enable_decimals && self.version.default.is_at_least(0, 4, 0) {
            seq!["--enable-decimals"@]
        } else {
            Seq::empty()
        }) + seq!["-f"@, joined_names(batch_selection_of(selection))] + if self.version.default.is_at_least(0, 3, 10) {
            seq!["--optimize"@, "none"@]
        } else if !optimize {
            seq!["--no-optimize"@]
        } else {
            Seq::empty()
        }
    }

    /// The switches of batch mode: `--enable-decimals` comes first exactly
    /// when decimals are asked for and `vyper` is 0.4.0 or later, and then
    /// `-f`; from 0.3.10 on the arguments end with `--optimize none`, before
    /// it they end with `--no-optimize` exactly when the optimizer is off,
    /// and nothing else is added.
    pub proof fn lemma_batch_switches(&self, selection: Seq<Selection>, enable_decimals: bool, optimize: bool)
        ensures
            ({
                let flags = self.batch_flags(selection, enable_decimals, optimize);
                let decimals = enable_decimals && self.version.default.is_at_least(0, 4, 0);
                let first: int = if decimals {
                    1
                } else {
                    0
                };
                let tail: int = if self.version.default.is_at_least(0, 3, 10) {
                    2
                } else if !optimize {
                    1
                } else {
                    0
                };
                &&& flags.len() == first + 2 + tail
                &&& (flags[0] == "--enable-decimals"@) == decimals
                &&& flags[first] == "-f"@
                &&& self.version.default.is_at_least(0, 3, 10) ==> flags[first + 2] == "--optimize"@
                    && flags[first + 3] == "none"@
                &&& !self.version.default.is_at_least(0, 3, 10) && !optimize ==> flags[first + 2]
                    == "--no-optimize"@
            }),
    {
        reveal_strlit("--enable-decimals");
        reveal_strlit("-f");
        let flags = self.batch_flags(selection, enable_decimals, optimize);
        let decimals = enable_decimals && self.version.default.is_at_least(0, 4, 0);
        let head: Seq<Seq<char>> = if decimals {
            seq!["--enable-decimals"@]
        } else {
            Seq::empty()
        };
        let tail: Seq<Seq<char>> = if self.version.default.is_at_least(0, 3, 10) {
            seq!["--optimize"@, "none"@]
        } else if !optimize {
            seq!["--no-optimize"@]
        } else {
            Seq::empty()
        };
        assert(flags == head + seq!["-f"@, joined_names(batch_selection_of(selection))] + tail);
        assert(("--enable-decimals"@).len() != ("-f"@).len());
    }

    /// The arguments `vyper` is run with in batch mode, before the paths of
    /// the source files: the EVM version, if one is given, then the decimals
    /// switch, the outputs requested and the optimizer switch.
    pub fn batch_arguments(
        &self,
        selection: &Vec<Selection>,
        evm_version: Option<TargetEVMVersion>,
        enable_decimals: bool,
        optimize: bool,
    ) -> (r: Vec<String>)
        ensures
            ({
                let offset: int = if evm_version is Some {
                    2
                } else {
                    0
                };
                let flags = self.batch_flags(selection@, enable_decimals, optimize);
                &&& r.len() == offset + flags.len()
                &&& evm_version matches Some(version) ==> r@[0]@ == "--evm-version"@ && r@[1]@ == version.name()
                &&& forall|k: int| 0 <= k < flags.len() ==> #[trigger] r@[offset + k]@ == flags[k]
                &&& (r@[offset]@ == "--enable-decimals"@) == (enable_decimals && self.version.default.is_at_least(
                    0,
                    4,
                    0,
                ))
                &&& r@[offset + if enable_decimals && self.version.default.is_at_least(0, 4, 0) {
                    1int
                } else {
                    0int
                }]@ == "-f"@
            }),
    {
        let mut arguments: Vec<String> = Vec::new();
        if let Some(evm_version) = evm_version {
            arguments.push(String::from_str("--evm-version"));
            arguments.push(evm_version.to_string());
        }
        let ghost offset = arguments.len() as int;
        let ghost start = arguments@;
        if enable_decimals && self.version.default.at_least(0, 4, 0) {
            arguments.push(String::from_str("--enable-decimals"));
        }
        arguments.push(String::from_str("-f"));
        let extended = Self::batch_selection(selection);
        arguments.push(Self::join_names(&extended));
        if self.version.default.at_least(0, 3, 10) {
            arguments.push(String::from_str("--optimize"));
            arguments.push(String::from_str("none"));
        } else if !optimize {
            arguments.push(String::from_str("--no-optimize"));
        }
        proof {
            let flags = self.batch_flags(selection@, enable_decimals, optimize);
            assert(arguments@.subrange(offset, arguments.len() as int).map_values(|text: String| text@)
                =~= flags);
            assert forall|k: int| 0 <= k < flags.len() implies #[trigger] arguments@[offset + k]@ == flags[k] by {
                assert(arguments@.subrange(offset, arguments.len() as int).map_values(|text: String| text@)[k]
                    == flags[k]);
            }
            self.lemma_batch_switches(selection@, enable_decimals, optimize);
            assert(arguments@[offset + 0]@ == flags[0]);
            assert(arguments@[offset + 1]@ == flags[1]);
        }
        arguments
    }

    /// The lines of the text `vyper` wrote, as `str::lines` splits it.
    pub fn output_lines(stdout: &str) -> (r: Vec<String>)
        ensures
            r@.map_values(|line: String| line@) == lines_of(stdout@),
    {
        let text = chars_of(stdout);
        let mut lines: Vec<String> = Vec::new();
        let mut current: Vec<char> = Vec::new();
        let mut i: usize = 0;
        proof {
            assert(current@ + text@.skip(0) =~= text@);
        }
        while i < text.len()
            invariant
                i <= text.len(),
                forall|k: int| 0 <= k < current@.len() ==> current@[k] != '\n',
                lines_of(text@) == lines@.map_values(|line: String| line@) + lines_of(current@ + text@.skip(i as int)),
            decreases text.len() - i,
        {
            let c = text[i];
            if c == '\n' {
                let ghost rest = text@.skip(i + 1);
                proof {
                    assert(text@.skip(i as int) =~= seq!['\n'] + rest);
                    assert(current@ + text@.skip(i as int) =~= current@ + seq!['\n'] + rest);
                    lemma_first_line_feed(current@, rest);
                    let whole = current@ + seq!['\n'] + rest;
                    assert(whole.take(current@.len() as int) =~= current@);
                    assert(whole.skip(current@.len() as int + 1) =~= rest);
                    assert(Seq::<char>::empty() + rest =~= rest);
                }
                let mut line_chars = current;
                if line_chars.len() > 0 && line_chars[line_chars.len() - 1] == '\r' {
                    line_chars.pop();
                }
                let line = string_of(line_chars.as_slice());
                proof {
                    assert(lines@.push(line).map_values(|l: String| l@) =~= lines@.map_values(|l: String| l@).push(
                        line@,
                    ));
                }
                lines.push(line);
                current = Vec::new();
                proof {
                    assert(current@ + rest =~= rest);
                }
            } else {
                proof {
                    assert(current@ + text@.skip(i as int) =~= current@.push(c) + text@.skip(i + 1));
                }
                current.push(c);
            }
            i = i + 1;
        }
        proof {
            assert(current@ + text@.skip(i as int) =~= current@);
        }
        if current.len() > 0 {
            proof {
                lemma_no_line_feed(current@);
            }
            let line = string_of(current.as_slice());
            proof {
                assert(lines@.push(line).map_values(|l: String| l@) =~= lines@.map_values(|l: String| l@).push(line@));
            }
            lines.push(line);
        }
        proof {
            assert(lines@.map_values(|l: String| l@) =~= lines_of(text@));
        }
        lines
    }

    /// Whether `flag` is among the first `n` outputs requested.
    fn requests_within(selection: &Vec<Selection>, flag: Selection, n: usize) -> (r: bool)
        requires
            n <= selection.len(),
        ensures
            r == (last_position(selection@, flag, n as int) is Some),
    {
        let mut i: usize = n;
        while i > 0
            invariant
                i <= n <= selection.len(),
                last_position(selection@, flag, n as int) == last_position(selection@, flag, i as int),
            decreases i,
        {
            if selection[i - 1] == flag {
                return true;
            }
            i = i - 1;
        }
        false
    }

    /// Whether the group of output lines of each file that `vyper` wrote in
    /// batch mode for `source_count` files holds the LLL IR, the AST, the
    /// ABI and the method identifiers.
    pub fn batch_output_complete(selection: &Vec<Selection>, source_count: usize, stdout: &str) -> (r: bool)
        ensures
            r == groups_hold_outputs(
                batch_selection_of(selection@),
                lines_of(stdout@),
                processed_count(
                    source_count as int,
                    lines_of(stdout@).len() as int,
                    batch_selection_of(selection@).len() as int,
                ),
            ),
    {
        let extended = Self::batch_selection(selection);
        let lines = Self::output_lines(stdout);
        let ghost texts = lines_of(stdout@);
        let ghost size = extended.len() as int;
        let ghost count = processed_count(source_count as int, texts.len() as int, size);
        proof {
            assert(texts.len() == lines.len());
        }
        if extended.len() == 0 {
            return true;
        }
        let mut k: usize = 0;
        let mut start: usize = 0;
        while k < source_count && start < lines.len()
            invariant
                size == extended.len() > 0,
                extended@ == batch_selection_of(selection@),
                texts == lines_of(stdout@),
                texts.len() == lines.len(),
                count == processed_count(source_count as int, texts.len() as int, size),
                k <= source_count,
                start == vstd::math::min(k * size, lines.len() as int),
                k <= group_count(lines.len() as int, size),
                forall|j: int| 0 <= j < k ==> {
                    let n = vstd::math::min(size, #[trigger] group_of(texts, size, j).len() as int);
                    &&& last_position(extended@, Selection::IRJson, n) is Some
                    &&& last_position(extended@, Selection::AST, n) is Some
                    &&& last_position(extended@, Selection::ABI, n) is Some
                    &&& last_position(extended@, Selection::MethodIdentifiers, n) is Some
                },
            decreases lines.len() - start,
        {
            let n: usize = if lines.len() - start < extended.len() {
                lines.len() - start
            } else {
                extended.len()
            };
            proof {
                lemma_group_bounds(lines.len() as int, size, k as int);
                assert((k + 1) * size == k * size + size) by (nonlinear_arith);
                assert(group_of(texts, size, k as int).len() == n);
            }
            if !(Self::requests_within(&extended, Selection::IRJson, n) && Self::requests_within(
                &extended,
                Selection::AST,
                n,
            ) && Self::requests_within(&extended, Selection::ABI, n) && Self::requests_within(
                &extended,
                Selection::MethodIdentifiers,
                n,
            )) {
                proof {
                    assert(k < count);
                    let group = group_of(texts, size, k as int);
                    assert(vstd::math::min(size, group.len() as int) == n);
                    assert(!groups_hold_outputs(extended@, texts, count));
                }
                return false;
            }
            start = start + n;
            k = k + 1;
        }
        proof {
            lemma_group_bounds(lines.len() as int, size, k as int);
            assert(count <= k);
        }
        true
    }

    /// Reads a source file and its group of output lines into a contract.
    fn read_source(
        version: &SemVer,
        path: &String,
        source: Result<String, String>,
        selection: &Vec<Selection>,
        group: Vec<String>,
    ) -> (r: Result<VyperContract, String>)
        requires
            forall|k: int|
                0 <= k < selection.len() && k < group.len() ==> selection@[k] != Selection::CombinedJson,
            last_position(selection@, Selection::IRJson, vstd::math::min(selection.len() as int, group.len() as int)) is Some,
            last_position(selection@, Selection::AST, vstd::math::min(selection.len() as int, group.len() as int)) is Some,
            last_position(selection@, Selection::ABI, vstd::math::min(selection.len() as int, group.len() as int)) is Some,
            last_position(selection@, Selection::MethodIdentifiers, vstd::math::min(selection.len() as int, group.len() as int)) is Some,
        ensures
            match r {
                Ok(contract) => file_read(source, contract, *version, selection@, texts_of(group@)),
                Err(message) => file_failure(path@, source, message@, selection@, texts_of(group@)),
            },
    {
        let code = match source {
            Ok(code) => code,
            Err(error) => return Err(error),
        };
        if let Err(error) = Self::check_unsupported(code.as_str()) {
            let mut message = String::from_str("Contract `");
            message.append(path.as_str());
            message.append("`: ");
            message.append(error.as_str());
            return Err(message);
        }
        let ghost texts = texts_of(group@);
        match VyperContract::try_from_lines(version.duplicate(), code, selection.as_slice(), group) {
            Ok(contract) => Ok(contract),
            Err(error) => {
                let mut message = String::from_str("Contract `");
                message.append(path.as_str());
                message.append("` JSON output parsing: ");
                message.append(error.as_str());
                proof {
                    let n = vstd::math::min(selection.len() as int, texts.len() as int);
                    let k = choose|k: int| {
                        &&& 0 <= k < n
                        &&& line_fails(selection@[k], group@[k]@)
                        &&& forall|j: int| 0 <= j < k ==> !line_fails(#[trigger] selection@[j], group@[j]@)
                        &&& error@ == line_error(selection@[k], group@[k]@)
                    };
                    assert(texts[k] == group@[k]@);
                    assert forall|i: int| 0 <= i < k implies !line_fails(#[trigger] selection@[i], texts[i]) by {
                        assert(texts[i] == group@[i]@);
                    }
                }
                Err(message)
            },
        }
    }

    /// Reads the output `vyper` wrote in batch mode into a project.
    ///
    /// The source files are given in the order `vyper` was given their
    /// paths, each with its source code or the error its reading failed
    /// with. The output lines fall into groups, one per file, of as many
    /// lines as outputs were requested; a file with no group is left out.
    /// Where a path is given twice, the later file is kept.
    #[verifier::loop_isolation(false)]
    pub fn batch_project(
        version: &SemVer,
        selection: Vec<Selection>,
        sources: Vec<(String, Result<String, String>)>,
        stdout: &str,
    ) -> (r: Result<Project, String>)
        requires
            !selection@.contains(Selection::CombinedJson),
            groups_hold_outputs(
                batch_selection_of(selection@),
                lines_of(stdout@),
                processed_count(
                    sources.len() as int,
                    lines_of(stdout@).len() as int,
                    batch_selection_of(selection@).len() as int,
                ),
            ),
        ensures
            ({
                let extended = batch_selection_of(selection@);
                let lines = lines_of(stdout@);
                let count = processed_count(sources.len() as int, lines.len() as int, extended.len() as int);
                match r {
                    Ok(project) => {
                        &&& project.version == *version
                        &&& project.output_selection@ == selection@
                        &&& project.project_hash.bytes@ == keccak256_of_texts(source_texts(project.contracts))
                        &&& project.project_hash.string@ == "0x"@ + hex_text(project.project_hash.bytes@)
                        &&& forall|key: Seq<char>| #[trigger] project.contracts.map().contains_key(key)
                            <==> exists|k: int| 0 <= k < count && sources@[k].0@ == key
                        &&& forall|k: int| 0 <= k < count && #[trigger] is_last(sources@, k, count) ==> {
                            &&& project.contracts.map()[sources@[k].0@] is Vyper
                            &&& file_read(
                                sources@[k].1,
                                project.contracts.map()[sources@[k].0@]->Vyper_0,
                                *version,
                                extended,
                                group_of(lines, extended.len() as int, k),
                            )
                        }
                    },
                    Err(message) => exists|k: int| {
                        &&& 0 <= k < count
                        &&& is_last(sources@, k, count)
                        &&& file_failure(
                            sources@[k].0@,
                            sources@[k].1,
                            message@,
                            extended,
                            group_of(lines, extended.len() as int, k),
                        )
                        &&& forall|j: int| 0 <= j < count && #[trigger] is_last(sources@, j, count) && lex_lt(
                            sources@[j].0@,
                            sources@[k].0@,
                        ) ==> !file_fails(sources@[j].1, extended, group_of(lines, extended.len() as int, j))
                    },
                }
            }),
    {
        let extended = Self::batch_selection(&selection);
        let size = extended.len();
        let lines = Self::output_lines(stdout);
        let ghost texts = lines_of(stdout@);
        let ghost given = sources@;
        proof {
            assert(texts_of(lines@) == texts);
            assert(size > 0) by {
                if selection@.len() == 0 {
                    lemma_missing_all(extra_selection());
                    assert(selection@ =~= Seq::<Selection>::empty());
                }
            }
        }
        let groups: usize = if lines.len() % size == 0 {
            lines.len() / size
        } else {
            assert(lines.len() / size + 1 <= usize::MAX) by (nonlinear_arith)
                requires
                    size > 0,
                    lines.len() % size != 0,
            ;
            lines.len() / size + 1
        };
        let count: usize = if sources.len() < groups {
            sources.len()
        } else {
            groups
        };
        let mut results: StringMap<Result<VyperContract, String>> = StringMap::new();
        let mut remaining = sources;
        let mut k: usize = 0;
        proof {
            assert(given.skip(0) =~= given);
        }
        while k < count
            invariant
                k <= count,
                count == processed_count(given.len() as int, texts.len() as int, size as int),
                remaining@ == given.skip(k as int),
                forall|key: Seq<char>| #[trigger] results.map().contains_key(key)
                    <==> exists|j: int| 0 <= j < k && given[j].0@ == key,
                forall|j: int| 0 <= j < k && #[trigger] is_last(given, j, k as int) ==> match results.map()[given[j].0@] {
                    Ok(contract) => file_read(given[j].1, contract, *version, extended@, group_of(texts, size as int, j)),
                    Err(message) => file_failure(given[j].0@, given[j].1, message@, extended@, group_of(texts, size as int, j)),
                },
            decreases count - k,
        {
            let (path, source) = remaining.remove(0);
            proof {
                assert(remaining@ =~= given.skip(k + 1));
                assert((path, source) == given[k as int]);
                assert(k * size < lines.len()) by (nonlinear_arith)
                    requires
                        k < groups,
                        lines.len() % size == 0 ==> groups == lines.len() / size,
                        lines.len() % size != 0 ==> groups == lines.len() / size + 1,
                        size > 0,
                ;
            }
            let start = k * size;
            let end = if lines.len() - start < size {
                lines.len()
            } else {
                start + size
            };
            let mut group: Vec<String> = Vec::new();
            let mut m: usize = start;
            while m < end
                invariant
                    start <= m <= end <= lines.len(),
                    texts_of(group@) == texts.subrange(start as int, m as int),
                decreases end - m,
            {
                proof {
                    assert(texts_of(group@.push(lines@[m as int])) =~= texts.subrange(start as int, m + 1));
                }
                group.push(lines[m].clone());
                m = m + 1;
            }
            proof {
                assert((k + 1) * size == k * size + size) by (nonlinear_arith);
                assert(end == vstd::math::min((k + 1) * size, texts.len() as int));
                assert(texts_of(group@) == group_of(texts, size as int, k as int));
                assert(groups_hold_outputs(extended@, texts, count as int));
                let n = vstd::math::min(extended@.len() as int, group_of(texts, size as int, k as int).len() as int);
                assert(n == vstd::math::min(extended@.len() as int, group@.len() as int));
                assert forall|j: int| 0 <= j < extended.len() && j < group.len() implies extended@[j]
                    != Selection::CombinedJson by {
                    if j >= selection.len() {
                        lemma_missing_within(selection@, extra_selection());
                        let item = missing(selection@, extra_selection())[j - selection.len()];
                        assert(extended@[j] == item);
                        assert(extra_selection().contains(item));
                        let m = choose|m: int| 0 <= m < extra_selection().len() && extra_selection()[m] == item;
                        assert(item != Selection::CombinedJson);
                    } else {
                        assert(extended@[j] == selection@[j]);
                    }
                }
            }
            let result = Self::read_source(version, &path, source, &extended, group);
            let ghost key = path@;
            let ghost before = results.map();
            results.insert(path, result);
            proof {
                assert forall|key2: Seq<char>| #[trigger] results.map().contains_key(key2)
                    <==> exists|j: int| 0 <= j < k + 1 && given[j].0@ == key2 by {
                    if key2 == key {
                        assert(given[k as int].0@ == key2);
                    }
                }
                assert forall|j: int| 0 <= j < k + 1 && #[trigger] is_last(given, j, k + 1) implies match results.map()[given[j].0@] {
                    Ok(contract) => file_read(given[j].1, contract, *version, extended@, group_of(texts, size as int, j)),
                    Err(message) => file_failure(given[j].0@, given[j].1, message@, extended@, group_of(texts, size as int, j)),
                } by {
                    if j < k {
                        assert(given[k as int].0@ != given[j].0@);
                        assert(is_last(given, j, k as int));
                    }
                }
            }
            k = k + 1;
        }
        let ghost results_map = results.map();
        let ghost results_contents = results.contents();
        let mut entries = results.into_entries();
        let ghost all = entries@;
        let total = entries.len();
        let mut contracts: StringMap<ProjectContract> = StringMap::new();
        let mut i: usize = 0;
        proof {
            lemma_entries_map(all);
            assert(all.skip(0) =~= all);
            assert(all == results_contents);
            assert(results_map == crate::string_map::entries_map(all));
            assert forall|j: int| 0 <= j < all.len() implies #[trigger] results_map.contains_key(all[j].0@)
                && results_map[all[j].0@] == all[j].1 by {
                assert(crate::string_map::entries_map(all).contains_key(all[j].0@));
            }
        }
        while entries.len() > 0
            invariant
                total == all.len(),
                i <= total,
                entries@ == all.skip(i as int),
                keys_increase(all),
                all == results_contents,
                forall|j: int| 0 <= j < i ==> (#[trigger] all[j]).1 is Ok,
                forall|key: Seq<char>| #[trigger] contracts.map().contains_key(key)
                    <==> exists|j: int| 0 <= j < i && all[j].0@ == key,
                forall|j: int| 0 <= j < i ==> contracts.map()[(#[trigger] all[j]).0@]
                    == ProjectContract::Vyper(all[j].1->Ok_0),
            decreases entries.len(),
        {
            let (path, result) = entries.remove(0);
            proof {
                assert(entries@ =~= all.skip(i + 1));
                assert((path, result) == all[i as int]);
            }
            match result {
                Err(message) => {
                    proof {
                        let key = all[i as int].0@;
                        assert(results_map.contains_key(key));
                        let j0 = choose|j: int| 0 <= j < count && given[j].0@ == key;
                        lemma_last_with_path(given, key, count as int, j0);
                        let last = last_with_path(given, key, count as int);
                        assert(is_last(given, last, count as int));
                        assert forall|j: int| 0 <= j < count && #[trigger] is_last(given, j, count as int) && lex_lt(
                            given[j].0@,
                            given[last].0@,
                        ) implies !file_fails(given[j].1, extended@, group_of(texts, size as int, j)) by {
                            let key_j = given[j].0@;
                            assert(results_map.contains_key(key_j));
                            assert(has_key(all, key_j));
                            let m = choose|m: int| 0 <= m < all.len() && #[trigger] all[m].0@ == key_j;
                            if m == i {
                                lemma_lex_irreflexive(key);
                            } else if m > i {
                                assert(lex_lt(all[i as int].0@, all[m].0@));
                                lemma_lex_asymmetric(all[i as int].0@, all[m].0@);
                            }
                            assert(all[m].1 is Ok);
                            assert(results_map[key_j] == all[m].1);
                        }
                    }
                    return Err(message);
                },
                Ok(contract) => {
                    let ghost before = contracts.map();
                    contracts.insert(path, ProjectContract::Vyper(contract));
                    proof {
                        assert forall|key: Seq<char>| #[trigger] contracts.map().contains_key(key)
                            <==> exists|j: int| 0 <= j < i + 1 && all[j].0@ == key by {
                            if key == all[i as int].0@ {
                                assert(0 <= i < i + 1);
                            }
                        }
                        assert forall|j: int| 0 <= j < i + 1 implies contracts.map()[(#[trigger] all[j]).0@]
                            == ProjectContract::Vyper(all[j].1->Ok_0) by {
                            if j < i {
                                assert(all[j].0@ != all[i as int].0@) by {
                                    assert(crate::string_map::lex_lt(all[j].0@, all[i as int].0@));
                                    lemma_lex_irreflexive(all[j].0@);
                                }
                            }
                        }
                    }
                },
            }
            i = i + 1;
        }
        proof {
            assert forall|key: Seq<char>| #[trigger] contracts.map().contains_key(key)
                <==> results_map.contains_key(key) by {
                if results_map.contains_key(key) {
                    assert(has_key(all, key));
                }
            }
            assert forall|j: int| 0 <= j < count && #[trigger] is_last(given, j, count as int) implies {
                &&& contracts.map()[given[j].0@] is Vyper
                &&& file_read(
                    given[j].1,
                    contracts.map()[given[j].0@]->Vyper_0,
                    *version,
                    extended@,
                    group_of(texts, size as int, j),
                )
            } by {
                let key = given[j].0@;
                assert(results_map.contains_key(key));
                assert(has_key(all, key));
                let m = choose|m: int| 0 <= m < all.len() && #[trigger] all[m].0@ == key;
                assert(all[m].1 is Ok);
                assert(contracts.map()[all[m].0@] == ProjectContract::Vyper(all[m].1->Ok_0));
            }
        }
        Ok(Project::new(version.duplicate(), contracts, selection))
    }
}

} // verus!
