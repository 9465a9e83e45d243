//! The Vyper compiler front end: LLL IR handling, `vyper` output processing
//! and the project model of the EraVM Vyper compiler.

pub mod text;
pub mod artifacts;
pub mod constants;
pub mod json;
pub mod metadata;
pub mod project;
pub mod string_map;
pub mod warning_type;
pub mod message_type;
pub mod vyper;

use vstd::prelude::*;
use vstd::string::StringExecFns;

use path_slash::PathExt;

verus! {

/// Whether a path is written plainly with `/` separators: it is not empty,
/// holds no `\` and no `:`, does not end with `/`, and has no empty segment
/// and no `.` segment; it may start with `/`. Such a path reads the same on
/// every platform.
pub open spec fn is_plain_path(path: Seq<char>) -> bool {
    &&& path.len() > 0
    &&& path.last() != '/'
    &&& forall|i: int| 0 <= i < path.len() ==> #[trigger] path[i] != '\\' && path[i] != ':'
    &&& forall|i: int| 0 <= i < path.len() - 1 && #[trigger] path[i] == '/' ==> path[i + 1] != '/'
    &&& forall|i: int|
        0 <= i < path.len() && #[trigger] path[i] == '.' && (i == 0 || path[i - 1] == '/') ==> i + 1
            < path.len() && path[i + 1] != '/'
}

/// Converts a path to the form with `/` separators with
/// `path_slash::PathExt::to_slash`.
///
/// Trusted: the conversion succeeds for every path given as UTF-8 text.
/// Elsewhere than on Windows the text is kept as it is; on Windows the path
/// is rebuilt from its components with `/` between them, which keeps a
/// plain path (see `is_plain_path`) as it is too. What other paths become
/// depends on the platform and is not stated.
#[verifier::external_body]
fn slash_path(path: &str) -> (r: Option<String>)
    ensures
        r is Some,
        is_plain_path(path@) ==> r->Some_0@ == path@,
{
    std::path::Path::new(path).to_slash().map(|path| path.to_string())
}

/// Normalizes an input path by converting it to POSIX format: a plain path
/// is kept as it is.
pub fn path_to_posix(path: &str) -> (r: Result<String, String>)
    ensures
        r is Ok,
        is_plain_path(path@) ==> r->Ok_0@ == path@,
{
    match slash_path(path) {
        Some(posix) => Ok(posix),
        None => {
            let mut message = String::from_str("Error: input path ");
            message.append(path);
            message.append(" POSIX conversion error");
            Err(message)
        },
    }
}

} // verus!
