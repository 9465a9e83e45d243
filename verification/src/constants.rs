//! Vyper compiler constants.

use vstd::prelude::*;

verus! {

/// The default executable name.
pub const DEFAULT_EXECUTABLE_NAME: &'static str = "zkvyper";

/// The `FREE_VAR_SPACE` offset.
pub const OFFSET_FREE_VAR_SPACE: usize = 0;

/// The `FREE_VAR_SPACE2` offset: one 32-byte field after `FREE_VAR_SPACE`.
pub const OFFSET_FREE_VAR_SPACE2: usize = 32;

/// The non-reserved memory offset: one 32-byte field after `FREE_VAR_SPACE2`.
pub const OFFSET_NON_RESERVED: usize = 64;

/// The constructor function name.
pub const FUNCTION_NAME_CONSTRUCTOR: &'static str = "__init__";

/// The default label destination prefix.
pub const LABEL_DESTINATION_PREFIX: &'static str = "_sym_";

/// The default sequence identifier.
pub const DEFAULT_SEQUENCE_IDENTIFIER: &'static str = "seq";

/// The default pass identifier.
pub const DEFAULT_PASS_IDENTIFIER: &'static str = "pass";

/// The internal function prefix.
pub const FUNCTION_PREFIX_INTERNAL: &'static str = "internal";

/// The external function prefix.
pub const FUNCTION_PREFIX_EXTERNAL: &'static str = "external";

/// The fallback function identifier.
pub const FUNCTION_IDENTIFIER_FALLBACK: &'static str = "fallback";

/// The return PC variable identifier.
pub const VARIABLE_IDENTIFIER_RETURN_PC: &'static str = "return_pc";

/// The return buffer variable identifier.
pub const VARIABLE_IDENTIFIER_RETURN_BUFFER: &'static str = "return_buffer";

/// The common label suffix.
pub const LABEL_SUFFIX_COMMON: &'static str = "common";

/// The cleanup label suffix.
pub const LABEL_SUFFIX_CLEANUP: &'static str = "cleanup";

/// The forbidden function `create_copy_of`.
pub const FORBIDDEN_FUNCTION_NAME_CREATE_COPY_OF: &'static str = "create_copy_of";

/// The `EXTCODESIZE` argument LLL IR name when the blueprint size is requested.
pub const EXTCODESIZE_BLUEPRINT_ARGUMENT_NAME: &'static str = "create_target";

/// The `create_minimal_proxy_to` contract name.
pub const MINIMAL_PROXY_CONTRACT_NAME: &'static str = "__VYPER_MINIMAL_PROXY_CONTRACT";

/// The `create_minimal_proxy_to` contract size that is emitted by the upstream Vyper compiler to CREATE's LLL IR.
/// The value is used to route between several built-in codegen when analyzing the CREATE opcode arguments.
pub const MINIMAL_PROXY_BUILTIN_INPUT_SIZE: usize = 54;

} // verus!
