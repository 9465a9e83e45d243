//! The tags of LLL IR instructions: their names in `vyper -f ir_json`
//! output and the shape of their operand lists.

use vstd::prelude::*;

verus! {

/// The tag of an LLL IR instruction, as it names the instruction in JSON.
#[allow(non_camel_case_types)]
#[allow(clippy::upper_case_acronyms)]
#[derive(Debug, Clone, Copy, PartialEq, Eq, Structural)]
pub enum Tag {
    /// The `with` instruction.
    With,
    /// The `set` instruction.
    Assign,
    /// The `seq` instruction.
    Sequence,
    /// The `if` instruction.
    If,
    /// The `repeat` instruction.
    Repeat,
    /// The `goto` instruction.
    GoTo,
    /// The `exit_to` instruction.
    Exit_To,
    /// The `jump` instruction.
    Jump,
    /// The `label` instruction.
    Label,
    /// The `cleanup_repeat` instruction.
    Cleanup_Repeat,
    /// The `break` instruction.
    Break,
    /// The `continue` instruction.
    Continue,
    /// The `pass` instruction.
    Pass,
    /// The `deploy` instruction.
    Deploy,
    /// The `symbol` instruction.
    Symbol,
    /// The `unique_symbol` instruction.
    Unique_Symbol,
    /// The `uclamp` instruction.
    UCLAMP,
    /// The `clamp` instruction.
    CLAMP,
    /// The `uclamplt` instruction.
    UCLAMPLT,
    /// The `uclample` instruction.
    UCLAMPLE,
    /// The `uclampgt` instruction.
    UCLAMPGT,
    /// The `uclampge` instruction.
    UCLAMPGE,
    /// The `clamplt` instruction.
    CLAMPLT,
    /// The `clample` instruction.
    CLAMPLE,
    /// The `clampgt` instruction.
    CLAMPGT,
    /// The `clampge` instruction.
    CLAMPGE,
    /// The `clamp_nonzero` instruction.
    CLAMP_NONZERO,
    /// The `ceil32` instruction.
    CEIL32,
    /// The `select` instruction.
    SELECT,
    /// The `assert` instruction.
    Assert,
    /// The `assert_unreachable` instruction.
    Assert_Unreachable,
    /// The `var_list` instruction.
    Var_List,
    /// The `pop` instruction.
    POP,
    /// The `add` instruction.
    ADD,
    /// The `sub` instruction.
    SUB,
    /// The `mul` instruction.
    MUL,
    /// The `div` instruction.
    DIV,
    /// The `mod` instruction.
    MOD,
    /// The `sdiv` instruction.
    SDIV,
    /// The `smod` instruction.
    SMOD,
    /// The `lt` instruction.
    LT,
    /// The `le` instruction.
    LE,
    /// The `gt` instruction.
    GT,
    /// The `ge` instruction.
    GE,
    /// The `eq` instruction.
    EQ,
    /// The `ne` instruction.
    NE,
    /// The `iszero` instruction.
    ISZERO,
    /// The `slt` instruction.
    SLT,
    /// The `sle` instruction.
    SLE,
    /// The `sgt` instruction.
    SGT,
    /// The `sge` instruction.
    SGE,
    /// The `or` instruction.
    OR,
    /// The `xor` instruction.
    XOR,
    /// The `not` instruction.
    NOT,
    /// The `and` instruction.
    AND,
    /// The `shl` instruction.
    SHL,
    /// The `shr` instruction.
    SHR,
    /// The `sar` instruction.
    SAR,
    /// The `byte` instruction.
    BYTE,
    /// The `addmod` instruction.
    ADDMOD,
    /// The `mulmod` instruction.
    MULMOD,
    /// The `exp` instruction.
    EXP,
    /// The `signextend` instruction.
    SIGNEXTEND,
    /// The `sha3` instruction.
    SHA3,
    /// The `keccak256` instruction.
    KECCAK256,
    /// The `sha3_32` instruction.
    SHA3_32,
    /// The `sha3_64` instruction.
    SHA3_64,
    /// The `mload` instruction.
    MLOAD,
    /// The `mstore` instruction.
    MSTORE,
    /// The `mstore8` instruction.
    MSTORE8,
    /// The `mcopy` instruction.
    MCOPY,
    /// The `sload` instruction.
    SLOAD,
    /// The `sstore` instruction.
    SSTORE,
    /// The `tload` instruction.
    TLOAD,
    /// The `tstore` instruction.
    TSTORE,
    /// The `iload` instruction.
    ILOAD,
    /// The `istore` instruction.
    ISTORE,
    /// The `dload` instruction.
    DLOAD,
    /// The `dloadbytes` instruction.
    DLOADBYTES,
    /// The `calldataload` instruction.
    CALLDATALOAD,
    /// The `calldatasize` instruction.
    CALLDATASIZE,
    /// The `calldatacopy` instruction.
    CALLDATACOPY,
    /// The `codesize` instruction.
    CODESIZE,
    /// The `codecopy` instruction.
    CODECOPY,
    /// The `extcodesize` instruction.
    EXTCODESIZE,
    /// The `extcodehash` instruction.
    EXTCODEHASH,
    /// The `returndatasize` instruction.
    RETURNDATASIZE,
    /// The `returndatacopy` instruction.
    RETURNDATACOPY,
    /// The `return` instruction.
    RETURN,
    /// The `revert` instruction.
    REVERT,
    /// The `stop` instruction.
    STOP,
    /// The `invalid` instruction.
    INVALID,
    /// The `log0` instruction.
    LOG0,
    /// The `log1` instruction.
    LOG1,
    /// The `log2` instruction.
    LOG2,
    /// The `log3` instruction.
    LOG3,
    /// The `log4` instruction.
    LOG4,
    /// The `call` instruction.
    CALL,
    /// The `staticcall` instruction.
    STATICCALL,
    /// The `delegatecall` instruction.
    DELEGATECALL,
    /// The `create` instruction.
    CREATE,
    /// The `create2` instruction.
    CREATE2,
    /// The `address` instruction.
    ADDRESS,
    /// The `caller` instruction.
    CALLER,
    /// The `callvalue` instruction.
    CALLVALUE,
    /// The `gas` instruction.
    GAS,
    /// The `balance` instruction.
    BALANCE,
    /// The `selfbalance` instruction.
    SELFBALANCE,
    /// The `gaslimit` instruction.
    GASLIMIT,
    /// The `gasprice` instruction.
    GASPRICE,
    /// The `origin` instruction.
    ORIGIN,
    /// The `chainid` instruction.
    CHAINID,
    /// The `number` instruction.
    NUMBER,
    /// The `timestamp` instruction.
    TIMESTAMP,
    /// The `blockhash` instruction.
    BLOCKHASH,
    /// The `difficulty` instruction.
    DIFFICULTY,
    /// The `coinbase` instruction.
    COINBASE,
    /// The `basefee` instruction.
    BASEFEE,
    /// The `msize` instruction.
    MSIZE,
    /// The `callcode` instruction.
    CALLCODE,
    /// The `pc` instruction.
    PC,
    /// The `extcodecopy` instruction.
    EXTCODECOPY,
    /// The `selfdestruct` instruction.
    SELFDESTRUCT,
    /// The `unknown` instruction.
    Unknown,
}

/// The operand shape that an instruction tag admits.
pub enum Shape {
    /// No operands: the instruction is written as its bare name.
    Unit,
    /// A list of operands of any length.
    List,
    /// A list of exactly this many operands.
    Fixed(nat),
    /// An arbitrary JSON payload.
    Payload,
}

/// The operand shape of each tag.
pub open spec fn tag_shape(tag: Tag) -> Shape {
    match tag {
        Tag::With => Shape::Fixed(3),
        Tag::Assign => Shape::Fixed(2),
        Tag::Sequence => Shape::List,
        Tag::If => Shape::List,
        Tag::Repeat => Shape::List,
        Tag::GoTo => Shape::List,
        Tag::Exit_To => Shape::List,
        Tag::Jump => Shape::Fixed(1),
        Tag::Label => Shape::List,
        Tag::Cleanup_Repeat => Shape::Unit,
        Tag::Break => Shape::Unit,
        Tag::Continue => Shape::Unit,
        Tag::Pass => Shape::Unit,
        Tag::Deploy => Shape::Fixed(3),
        Tag::Symbol => Shape::Fixed(1),
        Tag::Unique_Symbol => Shape::Fixed(1),
        Tag::UCLAMP => Shape::Fixed(3),
        Tag::CLAMP => Shape::Fixed(3),
        Tag::UCLAMPLT => Shape::Fixed(2),
        Tag::UCLAMPLE => Shape::Fixed(2),
        Tag::UCLAMPGT => Shape::Fixed(2),
        Tag::UCLAMPGE => Shape::Fixed(2),
        Tag::CLAMPLT => Shape::Fixed(2),
        Tag::CLAMPLE => Shape::Fixed(2),
        Tag::CLAMPGT => Shape::Fixed(2),
        Tag::CLAMPGE => Shape::Fixed(2),
        Tag::CLAMP_NONZERO => Shape::Fixed(1),
        Tag::CEIL32 => Shape::Fixed(1),
        Tag::SELECT => Shape::Fixed(3),
        Tag::Assert => Shape::Fixed(1),
        Tag::Assert_Unreachable => Shape::Fixed(1),
        Tag::Var_List => Shape::List,
        Tag::POP => Shape::Fixed(1),
        Tag::ADD => Shape::Fixed(2),
        Tag::SUB => Shape::Fixed(2),
        Tag::MUL => Shape::Fixed(2),
        Tag::DIV => Shape::Fixed(2),
        Tag::MOD => Shape::Fixed(2),
        Tag::SDIV => Shape::Fixed(2),
        Tag::SMOD => Shape::Fixed(2),
        Tag::LT => Shape::Fixed(2),
        Tag::LE => Shape::Fixed(2),
        Tag::GT => Shape::Fixed(2),
        Tag::GE => Shape::Fixed(2),
        Tag::EQ => Shape::Fixed(2),
        Tag::NE => Shape::Fixed(2),
        Tag::ISZERO => Shape::Fixed(1),
        Tag::SLT => Shape::Fixed(2),
        Tag::SLE => Shape::Fixed(2),
        Tag::SGT => Shape::Fixed(2),
        Tag::SGE => Shape::Fixed(2),
        Tag::OR => Shape::Fixed(2),
        Tag::XOR => Shape::Fixed(2),
        Tag::NOT => Shape::Fixed(1),
        Tag::AND => Shape::Fixed(2),
        Tag::SHL => Shape::Fixed(2),
        Tag::SHR => Shape::Fixed(2),
        Tag::SAR => Shape::Fixed(2),
        Tag::BYTE => Shape::Fixed(2),
        Tag::ADDMOD => Shape::Fixed(3),
        Tag::MULMOD => Shape::Fixed(3),
        Tag::EXP => Shape::Fixed(2),
        Tag::SIGNEXTEND => Shape::Fixed(2),
        Tag::SHA3 => Shape::Fixed(2),
        Tag::KECCAK256 => Shape::Fixed(2),
        Tag::SHA3_32 => Shape::Fixed(1),
        Tag::SHA3_64 => Shape::Fixed(2),
        Tag::MLOAD => Shape::Fixed(1),
        Tag::MSTORE => Shape::Fixed(2),
        Tag::MSTORE8 => Shape::Fixed(2),
        Tag::MCOPY => Shape::Fixed(3),
        Tag::SLOAD => Shape::Fixed(1),
        Tag::SSTORE => Shape::Fixed(2),
        Tag::TLOAD => Shape::Fixed(1),
        Tag::TSTORE => Shape::Fixed(2),
        Tag::ILOAD => Shape::Fixed(1),
        Tag::ISTORE => Shape::Fixed(2),
        Tag::DLOAD => Shape::Fixed(1),
        Tag::DLOADBYTES => Shape::Fixed(3),
        Tag::CALLDATALOAD => Shape::Fixed(1),
        Tag::CALLDATASIZE => Shape::Unit,
        Tag::CALLDATACOPY => Shape::Fixed(3),
        Tag::CODESIZE => Shape::Unit,
        Tag::CODECOPY => Shape::Fixed(3),
        Tag::EXTCODESIZE => Shape::Fixed(1),
        Tag::EXTCODEHASH => Shape::Fixed(1),
        Tag::RETURNDATASIZE => Shape::Unit,
        Tag::RETURNDATACOPY => Shape::Fixed(3),
        Tag::RETURN => Shape::Fixed(2),
        Tag::REVERT => Shape::Fixed(2),
        Tag::STOP => Shape::Unit,
        Tag::INVALID => Shape::Unit,
        Tag::LOG0 => Shape::Fixed(2),
        Tag::LOG1 => Shape::Fixed(3),
        Tag::LOG2 => Shape::Fixed(4),
        Tag::LOG3 => Shape::Fixed(5),
        Tag::LOG4 => Shape::Fixed(6),
        Tag::CALL => Shape::Fixed(7),
        Tag::STATICCALL => Shape::Fixed(6),
        Tag::DELEGATECALL => Shape::Fixed(6),
        Tag::CREATE => Shape::Fixed(3),
        Tag::CREATE2 => Shape::Fixed(4),
        Tag::ADDRESS => Shape::Unit,
        Tag::CALLER => Shape::Unit,
        Tag::CALLVALUE => Shape::Unit,
        Tag::GAS => Shape::Unit,
        Tag::BALANCE => Shape::Fixed(1),
        Tag::SELFBALANCE => Shape::Unit,
        Tag::GASLIMIT => Shape::Unit,
        Tag::GASPRICE => Shape::Unit,
        Tag::ORIGIN => Shape::Unit,
        Tag::CHAINID => Shape::Unit,
        Tag::NUMBER => Shape::Unit,
        Tag::TIMESTAMP => Shape::Unit,
        Tag::BLOCKHASH => Shape::Fixed(1),
        Tag::DIFFICULTY => Shape::Unit,
        Tag::COINBASE => Shape::Unit,
        Tag::BASEFEE => Shape::Unit,
        Tag::MSIZE => Shape::Unit,
        Tag::CALLCODE => Shape::Fixed(7),
        Tag::PC => Shape::Unit,
        Tag::EXTCODECOPY => Shape::Fixed(4),
        Tag::SELFDESTRUCT => Shape::Fixed(1),
        Tag::Unknown => Shape::Payload,
    }
}

/// The JSON name of each tag.
pub open spec fn tag_name(tag: Tag) -> Seq<char> {
    match tag {
        Tag::With => seq!['w', 'i', 't', 'h'],
        Tag::Assign => seq!['s', 'e', 't'],
        Tag::Sequence => seq!['s', 'e', 'q'],
        Tag::If => seq!['i', 'f'],
        Tag::Repeat => seq!['r', 'e', 'p', 'e', 'a', 't'],
        Tag::GoTo => seq!['g', 'o', 't', 'o'],
        Tag::Exit_To => seq!['e', 'x', 'i', 't', '_', 't', 'o'],
        Tag::Jump => seq!['j', 'u', 'm', 'p'],
        Tag::Label => seq!['l', 'a', 'b', 'e', 'l'],
        Tag::Cleanup_Repeat => seq!['c', 'l', 'e', 'a', 'n', 'u', 'p', '_', 'r', 'e', 'p', 'e', 'a', 't'],
        Tag::Break => seq!['b', 'r', 'e', 'a', 'k'],
        Tag::Continue => seq!['c', 'o', 'n', 't', 'i', 'n', 'u', 'e'],
        Tag::Pass => seq!['p', 'a', 's', 's'],
        Tag::Deploy => seq!['d', 'e', 'p', 'l', 'o', 'y'],
        Tag::Symbol => seq!['s', 'y', 'm', 'b', 'o', 'l'],
        Tag::Unique_Symbol => seq!['u', 'n', 'i', 'q', 'u', 'e', '_', 's', 'y', 'm', 'b', 'o', 'l'],
        Tag::UCLAMP => seq!['u', 'c', 'l', 'a', 'm', 'p'],
        Tag::CLAMP => seq!['c', 'l', 'a', 'm', 'p'],
        Tag::UCLAMPLT => seq!['u', 'c', 'l', 'a', 'm', 'p', 'l', 't'],
        Tag::UCLAMPLE => seq!['u', 'c', 'l', 'a', 'm', 'p', 'l', 'e'],
        Tag::UCLAMPGT => seq!['u', 'c', 'l', 'a', 'm', 'p', 'g', 't'],
        Tag::UCLAMPGE => seq!['u', 'c', 'l', 'a', 'm', 'p', 'g', 'e'],
        Tag::CLAMPLT => seq!['c', 'l', 'a', 'm', 'p', 'l', 't'],
        Tag::CLAMPLE => seq!['c', 'l', 'a', 'm', 'p', 'l', 'e'],
        Tag::CLAMPGT => seq!['c', 'l', 'a', 'm', 'p', 'g', 't'],
        Tag::CLAMPGE => seq!['c', 'l', 'a', 'm', 'p', 'g', 'e'],
        Tag::CLAMP_NONZERO => seq!['c', 'l', 'a', 'm', 'p', '_', 'n', 'o', 'n', 'z', 'e', 'r', 'o'],
        Tag::CEIL32 => seq!['c', 'e', 'i', 'l', '3', '2'],
        Tag::SELECT => seq!['s', 'e', 'l', 'e', 'c', 't'],
        Tag::Assert => seq!['a', 's', 's', 'e', 'r', 't'],
        Tag::Assert_Unreachable => seq!['a', 's', 's', 'e', 'r', 't', '_', 'u', 'n', 'r', 'e', 'a', 'c', 'h', 'a', 'b', 'l', 'e'],
        Tag::Var_List => seq!['v', 'a', 'r', '_', 'l', 'i', 's', 't'],
        Tag::POP => seq!['p', 'o', 'p'],
        Tag::ADD => seq!['a', 'd', 'd'],
        Tag::SUB => seq!['s', 'u', 'b'],
        Tag::MUL => seq!['m', 'u', 'l'],
        Tag::DIV => seq!['d', 'i', 'v'],
        Tag::MOD => seq!['m', 'o', 'd'],
        Tag::SDIV => seq!['s', 'd', 'i', 'v'],
        Tag::SMOD => seq!['s', 'm', 'o', 'd'],
        Tag::LT => seq!['l', 't'],
        Tag::LE => seq!['l', 'e'],
        Tag::GT => seq!['g', 't'],
        Tag::GE => seq!['g', 'e'],
        Tag::EQ => seq!['e', 'q'],
        Tag::NE => seq!['n', 'e'],
        Tag::ISZERO => seq!['i', 's', 'z', 'e', 'r', 'o'],
        Tag::SLT => seq!['s', 'l', 't'],
        Tag::SLE => seq!['s', 'l', 'e'],
        Tag::SGT => seq!['s', 'g', 't'],
        Tag::SGE => seq!['s', 'g', 'e'],
        Tag::OR => seq!['o', 'r'],
        Tag::XOR => seq!['x', 'o', 'r'],
        Tag::NOT => seq!['n', 'o', 't'],
        Tag::AND => seq!['a', 'n', 'd'],
        Tag::SHL => seq!['s', 'h', 'l'],
        Tag::SHR => seq!['s', 'h', 'r'],
        Tag::SAR => seq!['s', 'a', 'r'],
        Tag::BYTE => seq!['b', 'y', 't', 'e'],
        Tag::ADDMOD => seq!['a', 'd', 'd', 'm', 'o', 'd'],
        Tag::MULMOD => seq!['m', 'u', 'l', 'm', 'o', 'd'],
        Tag::EXP => seq!['e', 'x', 'p'],
        Tag::SIGNEXTEND => seq!['s', 'i', 'g', 'n', 'e', 'x', 't', 'e', 'n', 'd'],
        Tag::SHA3 => seq!['s', 'h', 'a', '3'],
        Tag::KECCAK256 => seq!['k', 'e', 'c', 'c', 'a', 'k', '2', '5', '6'],
        Tag::SHA3_32 => seq!['s', 'h', 'a', '3', '_', '3', '2'],
        Tag::SHA3_64 => seq!['s', 'h', 'a', '3', '_', '6', '4'],
        Tag::MLOAD => seq!['m', 'l', 'o', 'a', 'd'],
        Tag::MSTORE => seq!['m', 's', 't', 'o', 'r', 'e'],
        Tag::MSTORE8 => seq!['m', 's', 't', 'o', 'r', 'e', '8'],
        Tag::MCOPY => seq!['m', 'c', 'o', 'p', 'y'],
        Tag::SLOAD => seq!['s', 'l', 'o', 'a', 'd'],
        Tag::SSTORE => seq!['s', 's', 't', 'o', 'r', 'e'],
        Tag::TLOAD => seq!['t', 'l', 'o', 'a', 'd'],
        Tag::TSTORE => seq!['t', 's', 't', 'o', 'r', 'e'],
        Tag::ILOAD => seq!['i', 'l', 'o', 'a', 'd'],
        Tag::ISTORE => seq!['i', 's', 't', 'o', 'r', 'e'],
        Tag::DLOAD => seq!['d', 'l', 'o', 'a', 'd'],
        Tag::DLOADBYTES => seq!['d', 'l', 'o', 'a', 'd', 'b', 'y', 't', 'e', 's'],
        Tag::CALLDATALOAD => seq!['c', 'a', 'l', 'l', 'd', 'a', 't', 'a', 'l', 'o', 'a', 'd'],
        Tag::CALLDATASIZE => seq!['c', 'a', 'l', 'l', 'd', 'a', 't', 'a', 's', 'i', 'z', 'e'],
        Tag::CALLDATACOPY => seq!['c', 'a', 'l', 'l', 'd', 'a', 't', 'a', 'c', 'o', 'p', 'y'],
        Tag::CODESIZE => seq!['c', 'o', 'd', 'e', 's', 'i', 'z', 'e'],
        Tag::CODECOPY => seq!['c', 'o', 'd', 'e', 'c', 'o', 'p', 'y'],
        Tag::EXTCODESIZE => seq!['e', 'x', 't', 'c', 'o', 'd', 'e', 's', 'i', 'z', 'e'],
        Tag::EXTCODEHASH => seq!['e', 'x', 't', 'c', 'o', 'd', 'e', 'h', 'a', 's', 'h'],
        Tag::RETURNDATASIZE => seq!['r', 'e', 't', 'u', 'r', 'n', 'd', 'a', 't', 'a', 's', 'i', 'z', 'e'],
        Tag::RETURNDATACOPY => seq!['r', 'e', 't', 'u', 'r', 'n', 'd', 'a', 't', 'a', 'c', 'o', 'p', 'y'],
        Tag::RETURN => seq!['r', 'e', 't', 'u', 'r', 'n'],
        Tag::REVERT => seq!['r', 'e', 'v', 'e', 'r', 't'],
        Tag::STOP => seq!['s', 't', 'o', 'p'],
        Tag::INVALID => seq!['i', 'n', 'v', 'a', 'l', 'i', 'd'],
        Tag::LOG0 => seq!['l', 'o', 'g', '0'],
        Tag::LOG1 => seq!['l', 'o', 'g', '1'],
        Tag::LOG2 => seq!['l', 'o', 'g', '2'],
        Tag::LOG3 => seq!['l', 'o', 'g', '3'],
        Tag::LOG4 => seq!['l', 'o', 'g', '4'],
        Tag::CALL => seq!['c', 'a', 'l', 'l'],
        Tag::STATICCALL => seq!['s', 't', 'a', 't', 'i', 'c', 'c', 'a', 'l', 'l'],
        Tag::DELEGATECALL => seq!['d', 'e', 'l', 'e', 'g', 'a', 't', 'e', 'c', 'a', 'l', 'l'],
        Tag::CREATE => seq!['c', 'r', 'e', 'a', 't', 'e'],
        Tag::CREATE2 => seq!['c', 'r', 'e', 'a', 't', 'e', '2'],
        Tag::ADDRESS => seq!['a', 'd', 'd', 'r', 'e', 's', 's'],
        Tag::CALLER => seq!['c', 'a', 'l', 'l', 'e', 'r'],
        Tag::CALLVALUE => seq!['c', 'a', 'l', 'l', 'v', 'a', 'l', 'u', 'e'],
        Tag::GAS => seq!['g', 'a', 's'],
        Tag::BALANCE => seq!['b', 'a', 'l', 'a', 'n', 'c', 'e'],
        Tag::SELFBALANCE => seq!['s', 'e', 'l', 'f', 'b', 'a', 'l', 'a', 'n', 'c', 'e'],
        Tag::GASLIMIT => seq!['g', 'a', 's', 'l', 'i', 'm', 'i', 't'],
        Tag::GASPRICE => seq!['g', 'a', 's', 'p', 'r', 'i', 'c', 'e'],
        Tag::ORIGIN => seq!['o', 'r', 'i', 'g', 'i', 'n'],
        Tag::CHAINID => seq!['c', 'h', 'a', 'i', 'n', 'i', 'd'],
        Tag::NUMBER => seq!['n', 'u', 'm', 'b', 'e', 'r'],
        Tag::TIMESTAMP => seq!['t', 'i', 'm', 'e', 's', 't', 'a', 'm', 'p'],
        Tag::BLOCKHASH => seq!['b', 'l', 'o', 'c', 'k', 'h', 'a', 's', 'h'],
        Tag::DIFFICULTY => seq!['d', 'i', 'f', 'f', 'i', 'c', 'u', 'l', 't', 'y'],
        Tag::COINBASE => seq!['c', 'o', 'i', 'n', 'b', 'a', 's', 'e'],
        Tag::BASEFEE => seq!['b', 'a', 's', 'e', 'f', 'e', 'e'],
        Tag::MSIZE => seq!['m', 's', 'i', 'z', 'e'],
        Tag::CALLCODE => seq!['c', 'a', 'l', 'l', 'c', 'o', 'd', 'e'],
        Tag::PC => seq!['p', 'c'],
        Tag::EXTCODECOPY => seq!['e', 'x', 't', 'c', 'o', 'd', 'e', 'c', 'o', 'p', 'y'],
        Tag::SELFDESTRUCT => seq!['s', 'e', 'l', 'f', 'd', 'e', 's', 't', 'r', 'u', 'c', 't'],
        Tag::Unknown => seq!['u', 'n', 'k', 'n', 'o', 'w', 'n'],
    }
}

/// The tag that a JSON name denotes, if any.
pub open spec fn tag_from_name(s: Seq<char>) -> Option<Tag> {
    if s.len() == 2 {
        if s[0] == 'i' && s[1] == 'f' {
            Some(Tag::If)
        } else if s[0] == 'l' && s[1] == 't' {
            Some(Tag::LT)
        } else if s[0] == 'l' && s[1] == 'e' {
            Some(Tag::LE)
        } else if s[0] == 'g' && s[1] == 't' {
            Some(Tag::GT)
        } else if s[0] == 'g' && s[1] == 'e' {
            Some(Tag::GE)
        } else if s[0] == 'e' && s[1] == 'q' {
            Some(Tag::EQ)
        } else if s[0] == 'n' && s[1] == 'e' {
            Some(Tag::NE)
        } else if s[0] == 'o' && s[1] == 'r' {
            Some(Tag::OR)
        } else if s[0] == 'p' && s[1] == 'c' {
            Some(Tag::PC)
        } else {
            None
        }
    } else if s.len() == 3 {
        if s[0] == 's' && s[1] == 'e' && s[2] == 't' {
            Some(Tag::Assign)
        } else if s[0] == 's' && s[1] == 'e' && s[2] == 'q' {
            Some(Tag::Sequence)
        } else if s[0] == 'p' && s[1] == 'o' && s[2] == 'p' {
            Some(Tag::POP)
        } else if s[0] == 'a' && s[1] == 'd' && s[2] == 'd' {
            Some(Tag::ADD)
        } else if s[0] == 's' && s[1] == 'u' && s[2] == 'b' {
            Some(Tag::SUB)
        } else if s[0] == 'm' && s[1] == 'u' && s[2] == 'l' {
            Some(Tag::MUL)
        } else if s[0] == 'd' && s[1] == 'i' && s[2] == 'v' {
            Some(Tag::DIV)
        } else if s[0] == 'm' && s[1] == 'o' && s[2] == 'd' {
            Some(Tag::MOD)
        } else if s[0] == 's' && s[1] == 'l' && s[2] == 't' {
            Some(Tag::SLT)
        } else if s[0] == 's' && s[1] == 'l' && s[2] == 'e' {
            Some(Tag::SLE)
        } else if s[0] == 's' && s[1] == 'g' && s[2] == 't' {
            Some(Tag::SGT)
        } else if s[0] == 's' && s[1] == 'g' && s[2] == 'e' {
            Some(Tag::SGE)
        } else if s[0] == 'x' && s[1] == 'o' && s[2] == 'r' {
            Some(Tag::XOR)
        } else if s[0] == 'n' && s[1] == 'o' && s[2] == 't' {
            Some(Tag::NOT)
        } else if s[0] == 'a' && s[1] == 'n' && s[2] == 'd' {
            Some(Tag::AND)
        } else if s[0] == 's' && s[1] == 'h' && s[2] == 'l' {
            Some(Tag::SHL)
        } else if s[0] == 's' && s[1] == 'h' && s[2] == 'r' {
            Some(Tag::SHR)
        } else if s[0] == 's' && s[1] == 'a' && s[2] == 'r' {
            Some(Tag::SAR)
        } else if s[0] == 'e' && s[1] == 'x' && s[2] == 'p' {
            Some(Tag::EXP)
        } else if s[0] == 'g' && s[1] == 'a' && s[2] == 's' {
            Some(Tag::GAS)
        } else {
            None
        }
    } else if s.len() == 4 {
        if s[0] == 'w' && s[1] == 'i' && s[2] == 't' && s[3] == 'h' {
            Some(Tag::With)
        } else if s[0] == 'g' && s[1] == 'o' && s[2] == 't' && s[3] == 'o' {
            Some(Tag::GoTo)
        } else if s[0] == 'j' && s[1] == 'u' && s[2] == 'm' && s[3] == 'p' {
            Some(Tag::Jump)
        } else if s[0] == 'p' && s[1] == 'a' && s[2] == 's' && s[3] == 's' {
            Some(Tag::Pass)
        } else if s[0] == 's' && s[1] == 'd' && s[2] == 'i' && s[3] == 'v' {
            Some(Tag::SDIV)
        } else if s[0] == 's' && s[1] == 'm' && s[2] == 'o' && s[3] == 'd' {
            Some(Tag::SMOD)
        } else if s[0] == 'b' && s[1] == 'y' && s[2] == 't' && s[3] == 'e' {
            Some(Tag::BYTE)
        } else if s[0] == 's' && s[1] == 'h' && s[2] == 'a' && s[3] == '3' {
            Some(Tag::SHA3)
        } else if s[0] == 's' && s[1] == 't' && s[2] == 'o' && s[3] == 'p' {
            Some(Tag::STOP)
        } else if s[0] == 'l' && s[1] == 'o' && s[2] == 'g' && s[3] == '0' {
            Some(Tag::LOG0)
        } else if s[0] == 'l' && s[1] == 'o' && s[2] == 'g' && s[3] == '1' {
            Some(Tag::LOG1)
        } else if s[0] == 'l' && s[1] == 'o' && s[2] == 'g' && s[3] == '2' {
            Some(Tag::LOG2)
        } else if s[0] == 'l' && s[1] == 'o' && s[2] == 'g' && s[3] == '3' {
            Some(Tag::LOG3)
        } else if s[0] == 'l' && s[1] == 'o' && s[2] == 'g' && s[3] == '4' {
            Some(Tag::LOG4)
        } else if s[0] == 'c' && s[1] == 'a' && s[2] == 'l' && s[3] == 'l' {
            Some(Tag::CALL)
        } else {
            None
        }
    } else if s.len() == 5 {
        if s[0] == 'l' && s[1] == 'a' && s[2] == 'b' && s[3] == 'e' && s[4] == 'l' {
            Some(Tag::Label)
        } else if s[0] == 'b' && s[1] == 'r' && s[2] == 'e' && s[3] == 'a' && s[4] == 'k' {
            Some(Tag::Break)
        } else if s[0] == 'c' && s[1] == 'l' && s[2] == 'a' && s[3] == 'm' && s[4] == 'p' {
            Some(Tag::CLAMP)
        } else if s[0] == 'm' && s[1] == 'l' && s[2] == 'o' && s[3] == 'a' && s[4] == 'd' {
            Some(Tag::MLOAD)
        } else if s[0] == 'm' && s[1] == 'c' && s[2] == 'o' && s[3] == 'p' && s[4] == 'y' {
            Some(Tag::MCOPY)
        } else if s[0] == 's' && s[1] == 'l' && s[2] == 'o' && s[3] == 'a' && s[4] == 'd' {
            Some(Tag::SLOAD)
        } else if s[0] == 't' && s[1] == 'l' && s[2] == 'o' && s[3] == 'a' && s[4] == 'd' {
            Some(Tag::TLOAD)
        } else if s[0] == 'i' && s[1] == 'l' && s[2] == 'o' && s[3] == 'a' && s[4] == 'd' {
            Some(Tag::ILOAD)
        } else if s[0] == 'd' && s[1] == 'l' && s[2] == 'o' && s[3] == 'a' && s[4] == 'd' {
            Some(Tag::DLOAD)
        } else if s[0] == 'm' && s[1] == 's' && s[2] == 'i' && s[3] == 'z' && s[4] == 'e' {
            Some(Tag::MSIZE)
        } else {
            None
        }
    } else if s.len() == 6 {
        if s[0] == 'r' && s[1] == 'e' && s[2] == 'p' && s[3] == 'e' && s[4] == 'a' && s[5] == 't' {
            Some(Tag::Repeat)
        } else if s[0] == 'd' && s[1] == 'e' && s[2] == 'p' && s[3] == 'l' && s[4] == 'o' && s[5] == 'y' {
            Some(Tag::Deploy)
        } else if s[0] == 's' && s[1] == 'y' && s[2] == 'm' && s[3] == 'b' && s[4] == 'o' && s[5] == 'l' {
            Some(Tag::Symbol)
        } else if s[0] == 'u' && s[1] == 'c' && s[2] == 'l' && s[3] == 'a' && s[4] == 'm' && s[5] == 'p' {
            Some(Tag::UCLAMP)
        } else if s[0] == 'c' && s[1] == 'e' && s[2] == 'i' && s[3] == 'l' && s[4] == '3' && s[5] == '2' {
            Some(Tag::CEIL32)
        } else if s[0] == 's' && s[1] == 'e' && s[2] == 'l' && s[3] == 'e' && s[4] == 'c' && s[5] == 't' {
            Some(Tag::SELECT)
        } else if s[0] == 'a' && s[1] == 's' && s[2] == 's' && s[3] == 'e' && s[4] == 'r' && s[5] == 't' {
            Some(Tag::Assert)
        } else if s[0] == 'i' && s[1] == 's' && s[2] == 'z' && s[3] == 'e' && s[4] == 'r' && s[5] == 'o' {
            Some(Tag::ISZERO)
        } else if s[0] == 'a' && s[1] == 'd' && s[2] == 'd' && s[3] == 'm' && s[4] == 'o' && s[5] == 'd' {
            Some(Tag::ADDMOD)
        } else if s[0] == 'm' && s[1] == 'u' && s[2] == 'l' && s[3] == 'm' && s[4] == 'o' && s[5] == 'd' {
            Some(Tag::MULMOD)
        } else if s[0] == 'm' && s[1] == 's' && s[2] == 't' && s[3] == 'o' && s[4] == 'r' && s[5] == 'e' {
            Some(Tag::MSTORE)
        } else if s[0] == 's' && s[1] == 's' && s[2] == 't' && s[3] == 'o' && s[4] == 'r' && s[5] == 'e' {
            Some(Tag::SSTORE)
        } else if s[0] == 't' && s[1] == 's' && s[2] == 't' && s[3] == 'o' && s[4] == 'r' && s[5] == 'e' {
            Some(Tag::TSTORE)
        } else if s[0] == 'i' && s[1] == 's' && s[2] == 't' && s[3] == 'o' && s[4] == 'r' && s[5] == 'e' {
            Some(Tag::ISTORE)
        } else if s[0] == 'r' && s[1] == 'e' && s[2] == 't' && s[3] == 'u' && s[4] == 'r' && s[5] == 'n' {
            Some(Tag::RETURN)
        } else if s[0] == 'r' && s[1] == 'e' && s[2] == 'v' && s[3] == 'e' && s[4] == 'r' && s[5] == 't' {
            Some(Tag::REVERT)
        } else if s[0] == 'c' && s[1] == 'r' && s[2] == 'e' && s[3] == 'a' && s[4] == 't' && s[5] == 'e' {
            Some(Tag::CREATE)
        } else if s[0] == 'c' && s[1] == 'a' && s[2] == 'l' && s[3] == 'l' && s[4] == 'e' && s[5] == 'r' {
            Some(Tag::CALLER)
        } else if s[0] == 'o' && s[1] == 'r' && s[2] == 'i' && s[3] == 'g' && s[4] == 'i' && s[5] == 'n' {
            Some(Tag::ORIGIN)
        } else if s[0] == 'n' && s[1] == 'u' && s[2] == 'm' && s[3] == 'b' && s[4] == 'e' && s[5] == 'r' {
            Some(Tag::NUMBER)
        } else {
            None
        }
    } else if s.len() == 7 {
        if s[0] == 'e' && s[1] == 'x' && s[2] == 'i' && s[3] == 't' && s[4] == '_' && s[5] == 't' && s[6] == 'o' {
            Some(Tag::Exit_To)
        } else if s[0] == 'c' && s[1] == 'l' && s[2] == 'a' && s[3] == 'm' && s[4] == 'p' && s[5] == 'l' && s[6] == 't' {
            Some(Tag::CLAMPLT)
        } else if s[0] == 'c' && s[1] == 'l' && s[2] == 'a' && s[3] == 'm' && s[4] == 'p' && s[5] == 'l' && s[6] == 'e' {
            Some(Tag::CLAMPLE)
        } else if s[0] == 'c' && s[1] == 'l' && s[2] == 'a' && s[3] == 'm' && s[4] == 'p' && s[5] == 'g' && s[6] == 't' {
            Some(Tag::CLAMPGT)
        } else if s[0] == 'c' && s[1] == 'l' && s[2] == 'a' && s[3] == 'm' && s[4] == 'p' && s[5] == 'g' && s[6] == 'e' {
            Some(Tag::CLAMPGE)
        } else if s[0] == 's' && s[1] == 'h' && s[2] == 'a' && s[3] == '3' && s[4] == '_' && s[5] == '3' && s[6] == '2' {
            Some(Tag::SHA3_32)
        } else if s[0] == 's' && s[1] == 'h' && s[2] == 'a' && s[3] == '3' && s[4] == '_' && s[5] == '6' && s[6] == '4' {
            Some(Tag::SHA3_64)
        } else if s[0] == 'm' && s[1] == 's' && s[2] == 't' && s[3] == 'o' && s[4] == 'r' && s[5] == 'e' && s[6] == '8' {
            Some(Tag::MSTORE8)
        } else if s[0] == 'i' && s[1] == 'n' && s[2] == 'v' && s[3] == 'a' && s[4] == 'l' && s[5] == 'i' && s[6] == 'd' {
            Some(Tag::INVALID)
        } else if s[0] == 'c' && s[1] == 'r' && s[2] == 'e' && s[3] == 'a' && s[4] == 't' && s[5] == 'e' && s[6] == '2' {
            Some(Tag::CREATE2)
        } else if s[0] == 'a' && s[1] == 'd' && s[2] == 'd' && s[3] == 'r' && s[4] == 'e' && s[5] == 's' && s[6] == 's' {
            Some(Tag::ADDRESS)
        } else if s[0] == 'b' && s[1] == 'a' && s[2] == 'l' && s[3] == 'a' && s[4] == 'n' && s[5] == 'c' && s[6] == 'e' {
            Some(Tag::BALANCE)
        } else if s[0] == 'c' && s[1] == 'h' && s[2] == 'a' && s[3] == 'i' && s[4] == 'n' && s[5] == 'i' && s[6] == 'd' {
            Some(Tag::CHAINID)
        } else if s[0] == 'b' && s[1] == 'a' && s[2] == 's' && s[3] == 'e' && s[4] == 'f' && s[5] == 'e' && s[6] == 'e' {
            Some(Tag::BASEFEE)
        } else if s[0] == 'u' && s[1] == 'n' && s[2] == 'k' && s[3] == 'n' && s[4] == 'o' && s[5] == 'w' && s[6] == 'n' {
            Some(Tag::Unknown)
        } else {
            None
        }
    } else if s.len() == 8 {
        if s[0] == 'c' && s[1] == 'o' && s[2] == 'n' && s[3] == 't' && s[4] == 'i' && s[5] == 'n' && s[6] == 'u' && s[7] == 'e' {
            Some(Tag::Continue)
        } else if s[0] == 'u' && s[1] == 'c' && s[2] == 'l' && s[3] == 'a' && s[4] == 'm' && s[5] == 'p' && s[6] == 'l' && s[7] == 't' {
            Some(Tag::UCLAMPLT)
        } else if s[0] == 'u' && s[1] == 'c' && s[2] == 'l' && s[3] == 'a' && s[4] == 'm' && s[5] == 'p' && s[6] == 'l' && s[7] == 'e' {
            Some(Tag::UCLAMPLE)
        } else if s[0] == 'u' && s[1] == 'c' && s[2] == 'l' && s[3] == 'a' && s[4] == 'm' && s[5] == 'p' && s[6] == 'g' && s[7] == 't' {
            Some(Tag::UCLAMPGT)
        } else if s[0] == 'u' && s[1] == 'c' && s[2] == 'l' && s[3] == 'a' && s[4] == 'm' && s[5] == 'p' && s[6] == 'g' && s[7] == 'e' {
            Some(Tag::UCLAMPGE)
        } else if s[0] == 'v' && s[1] == 'a' && s[2] == 'r' && s[3] == '_' && s[4] == 'l' && s[5] == 'i' && s[6] == 's' && s[7] == 't' {
            Some(Tag::Var_List)
        } else if s[0] == 'c' && s[1] == 'o' && s[2] == 'd' && s[3] == 'e' && s[4] == 's' && s[5] == 'i' && s[6] == 'z' && s[7] == 'e' {
            Some(Tag::CODESIZE)
        } else if s[0] == 'c' && s[1] == 'o' && s[2] == 'd' && s[3] == 'e' && s[4] == 'c' && s[5] == 'o' && s[6] == 'p' && s[7] == 'y' {
            Some(Tag::CODECOPY)
        } else if s[0] == 'g' && s[1] == 'a' && s[2] == 's' && s[3] == 'l' && s[4] == 'i' && s[5] == 'm' && s[6] == 'i' && s[7] == 't' {
            Some(Tag::GASLIMIT)
        } else if s[0] == 'g' && s[1] == 'a' && s[2] == 's' && s[3] == 'p' && s[4] == 'r' && s[5] == 'i' && s[6] == 'c' && s[7] == 'e' {
            Some(Tag::GASPRICE)
        } else if s[0] == 'c' && s[1] == 'o' && s[2] == 'i' && s[3] == 'n' && s[4] == 'b' && s[5] == 'a' && s[6] == 's' && s[7] == 'e' {
            Some(Tag::COINBASE)
        } else if s[0] == 'c' && s[1] == 'a' && s[2] == 'l' && s[3] == 'l' && s[4] == 'c' && s[5] == 'o' && s[6] == 'd' && s[7] == 'e' {
            Some(Tag::CALLCODE)
        } else {
            None
        }
    } else if s.len() == 9 {
        if s[0] == 'k' && s[1] == 'e' && s[2] == 'c' && s[3] == 'c' && s[4] == 'a' && s[5] == 'k' && s[6] == '2' && s[7] == '5' && s[8] == '6' {
            Some(Tag::KECCAK256)
        } else if s[0] == 'c' && s[1] == 'a' && s[2] == 'l' && s[3] == 'l' && s[4] == 'v' && s[5] == 'a' && s[6] == 'l' && s[7] == 'u' && s[8] == 'e' {
            Some(Tag::CALLVALUE)
        } else if s[0] == 't' && s[1] == 'i' && s[2] == 'm' && s[3] == 'e' && s[4] == 's' && s[5] == 't' && s[6] == 'a' && s[7] == 'm' && s[8] == 'p' {
            Some(Tag::TIMESTAMP)
        } else if s[0] == 'b' && s[1] == 'l' && s[2] == 'o' && s[3] == 'c' && s[4] == 'k' && s[5] == 'h' && s[6] == 'a' && s[7] == 's' && s[8] == 'h' {
            Some(Tag::BLOCKHASH)
        } else {
            None
        }
    } else if s.len() == 10 {
        if s[0] == 's' && s[1] == 'i' && s[2] == 'g' && s[3] == 'n' && s[4] == 'e' && s[5] == 'x' && s[6] == 't' && s[7] == 'e' && s[8] == 'n' && s[9] == 'd' {
            Some(Tag::SIGNEXTEND)
        } else if s[0] == 'd' && s[1] == 'l' && s[2] == 'o' && s[3] == 'a' && s[4] == 'd' && s[5] == 'b' && s[6] == 'y' && s[7] == 't' && s[8] == 'e' && s[9] == 's' {
            Some(Tag::DLOADBYTES)
        } else if s[0] == 's' && s[1] == 't' && s[2] == 'a' && s[3] == 't' && s[4] == 'i' && s[5] == 'c' && s[6] == 'c' && s[7] == 'a' && s[8] == 'l' && s[9] == 'l' {
            Some(Tag::STATICCALL)
        } else if s[0] == 'd' && s[1] == 'i' && s[2] == 'f' && s[3] == 'f' && s[4] == 'i' && s[5] == 'c' && s[6] == 'u' && s[7] == 'l' && s[8] == 't' && s[9] == 'y' {
            Some(Tag::DIFFICULTY)
        } else {
            None
        }
    } else if s.len() == 11 {
        if s[0] == 'e' && s[1] == 'x' && s[2] == 't' && s[3] == 'c' && s[4] == 'o' && s[5] == 'd' && s[6] == 'e' && s[7] == 's' && s[8] == 'i' && s[9] == 'z' && s[10] == 'e' {
            Some(Tag::EXTCODESIZE)
        } else if s[0] == 'e' && s[1] == 'x' && s[2] == 't' && s[3] == 'c' && s[4] == 'o' && s[5] == 'd' && s[6] == 'e' && s[7] == 'h' && s[8] == 'a' && s[9] == 's' && s[10] == 'h' {
            Some(Tag::EXTCODEHASH)
        } else if s[0] == 's' && s[1] == 'e' && s[2] == 'l' && s[3] == 'f' && s[4] == 'b' && s[5] == 'a' && s[6] == 'l' && s[7] == 'a' && s[8] == 'n' && s[9] == 'c' && s[10] == 'e' {
            Some(Tag::SELFBALANCE)
        } else if s[0] == 'e' && s[1] == 'x' && s[2] == 't' && s[3] == 'c' && s[4] == 'o' && s[5] == 'd' && s[6] == 'e' && s[7] == 'c' && s[8] == 'o' && s[9] == 'p' && s[10] == 'y' {
            Some(Tag::EXTCODECOPY)
        } else {
            None
        }
    } else if s.len() == 12 {
        if s[0] == 'c' && s[1] == 'a' && s[2] == 'l' && s[3] == 'l' && s[4] == 'd' && s[5] == 'a' && s[6] == 't' && s[7] == 'a' && s[8] == 'l' && s[9] == 'o' && s[10] == 'a' && s[11] == 'd' {
            Some(Tag::CALLDATALOAD)
        } else if s[0] == 'c' && s[1] == 'a' && s[2] == 'l' && s[3] == 'l' && s[4] == 'd' && s[5] == 'a' && s[6] == 't' && s[7] == 'a' && s[8] == 's' && s[9] == 'i' && s[10] == 'z' && s[11] == 'e' {
            Some(Tag::CALLDATASIZE)
        } else if s[0] == 'c' && s[1] == 'a' && s[2] == 'l' && s[3] == 'l' && s[4] == 'd' && s[5] == 'a' && s[6] == 't' && s[7] == 'a' && s[8] == 'c' && s[9] == 'o' && s[10] == 'p' && s[11] == 'y' {
            Some(Tag::CALLDATACOPY)
        } else if s[0] == 'd' && s[1] == 'e' && s[2] == 'l' && s[3] == 'e' && s[4] == 'g' && s[5] == 'a' && s[6] == 't' && s[7] == 'e' && s[8] == 'c' && s[9] == 'a' && s[10] == 'l' && s[11] == 'l' {
            Some(Tag::DELEGATECALL)
        } else if s[0] == 's' && s[1] == 'e' && s[2] == 'l' && s[3] == 'f' && s[4] == 'd' && s[5] == 'e' && s[6] == 's' && s[7] == 't' && s[8] == 'r' && s[9] == 'u' && s[10] == 'c' && s[11] == 't' {
            Some(Tag::SELFDESTRUCT)
        } else {
            None
        }
    } else if s.len() == 13 {
        if s[0] == 'u' && s[1] == 'n' && s[2] == 'i' && s[3] == 'q' && s[4] == 'u' && s[5] == 'e' && s[6] == '_' && s[7] == 's' && s[8] == 'y' && s[9] == 'm' && s[10] == 'b' && s[11] == 'o' && s[12] == 'l' {
            Some(Tag::Unique_Symbol)
        } else if s[0] == 'c' && s[1] == 'l' && s[2] == 'a' && s[3] == 'm' && s[4] == 'p' && s[5] == '_' && s[6] == 'n' && s[7] == 'o' && s[8] == 'n' && s[9] == 'z' && s[10] == 'e' && s[11] == 'r' && s[12] == 'o' {
            Some(Tag::CLAMP_NONZERO)
        } else {
            None
        }
    } else if s.len() == 14 {
        if s[0] == 'c' && s[1] == 'l' && s[2] == 'e' && s[3] == 'a' && s[4] == 'n' && s[5] == 'u' && s[6] == 'p' && s[7] == '_' && s[8] == 'r' && s[9] == 'e' && s[10] == 'p' && s[11] == 'e' && s[12] == 'a' && s[13] == 't' {
            Some(Tag::Cleanup_Repeat)
        } else if s[0] == 'r' && s[1] == 'e' && s[2] == 't' && s[3] == 'u' && s[4] == 'r' && s[5] == 'n' && s[6] == 'd' && s[7] == 'a' && s[8] == 't' && s[9] == 'a' && s[10] == 's' && s[11] == 'i' && s[12] == 'z' && s[13] == 'e' {
            Some(Tag::RETURNDATASIZE)
        } else if s[0] == 'r' && s[1] == 'e' && s[2] == 't' && s[3] == 'u' && s[4] == 'r' && s[5] == 'n' && s[6] == 'd' && s[7] == 'a' && s[8] == 't' && s[9] == 'a' && s[10] == 'c' && s[11] == 'o' && s[12] == 'p' && s[13] == 'y' {
            Some(Tag::RETURNDATACOPY)
        } else {
            None
        }
    } else if s.len() == 18 {
        if s[0] == 'a' && s[1] == 's' && s[2] == 's' && s[3] == 'e' && s[4] == 'r' && s[5] == 't' && s[6] == '_' && s[7] == 'u' && s[8] == 'n' && s[9] == 'r' && s[10] == 'e' && s[11] == 'a' && s[12] == 'c' && s[13] == 'h' && s[14] == 'a' && s[15] == 'b' && s[16] == 'l' && s[17] == 'e' {
            Some(Tag::Assert_Unreachable)
        } else {
            None
        }
    } else {
        None
    }
}

/// The name of each tag, as `vyper` writes it in its LLL IR JSON: the
/// lower-case name of the instruction.
pub proof fn lemma_tag_names()
    ensures
        tag_name(Tag::With) == "with"@,
        tag_name(Tag::Assign) == "set"@,
        tag_name(Tag::Sequence) == "seq"@,
        tag_name(Tag::If) == "if"@,
        tag_name(Tag::Repeat) == "repeat"@,
        tag_name(Tag::GoTo) == "goto"@,
        tag_name(Tag::Exit_To) == "exit_to"@,
        tag_name(Tag::Jump) == "jump"@,
        tag_name(Tag::Label) == "label"@,
        tag_name(Tag::Cleanup_Repeat) == "cleanup_repeat"@,
        tag_name(Tag::Break) == "break"@,
        tag_name(Tag::Continue) == "continue"@,
        tag_name(Tag::Pass) == "pass"@,
        tag_name(Tag::Deploy) == "deploy"@,
        tag_name(Tag::Symbol) == "symbol"@,
        tag_name(Tag::Unique_Symbol) == "unique_symbol"@,
        tag_name(Tag::UCLAMP) == "uclamp"@,
        tag_name(Tag::CLAMP) == "clamp"@,
        tag_name(Tag::UCLAMPLT) == "uclamplt"@,
        tag_name(Tag::UCLAMPLE) == "uclample"@,
        tag_name(Tag::UCLAMPGT) == "uclampgt"@,
        tag_name(Tag::UCLAMPGE) == "uclampge"@,
        tag_name(Tag::CLAMPLT) == "clamplt"@,
        tag_name(Tag::CLAMPLE) == "clample"@,
        tag_name(Tag::CLAMPGT) == "clampgt"@,
        tag_name(Tag::CLAMPGE) == "clampge"@,
        tag_name(Tag::CLAMP_NONZERO) == "clamp_nonzero"@,
        tag_name(Tag::CEIL32) == "ceil32"@,
        tag_name(Tag::SELECT) == "select"@,
        tag_name(Tag::Assert) == "assert"@,
        tag_name(Tag::Assert_Unreachable) == "assert_unreachable"@,
        tag_name(Tag::Var_List) == "var_list"@,
        tag_name(Tag::POP) == "pop"@,
        tag_name(Tag::ADD) == "add"@,
        tag_name(Tag::SUB) == "sub"@,
        tag_name(Tag::MUL) == "mul"@,
        tag_name(Tag::DIV) == "div"@,
        tag_name(Tag::MOD) == "mod"@,
        tag_name(Tag::SDIV) == "sdiv"@,
        tag_name(Tag::SMOD) == "smod"@,
        tag_name(Tag::LT) == "lt"@,
        tag_name(Tag::LE) == "le"@,
        tag_name(Tag::GT) == "gt"@,
        tag_name(Tag::GE) == "ge"@,
        tag_name(Tag::EQ) == "eq"@,
        tag_name(Tag::NE) == "ne"@,
        tag_name(Tag::ISZERO) == "iszero"@,
        tag_name(Tag::SLT) == "slt"@,
        tag_name(Tag::SLE) == "sle"@,
        tag_name(Tag::SGT) == "sgt"@,
        tag_name(Tag::SGE) == "sge"@,
        tag_name(Tag::OR) == "or"@,
        tag_name(Tag::XOR) == "xor"@,
        tag_name(Tag::NOT) == "not"@,
        tag_name(Tag::AND) == "and"@,
        tag_name(Tag::SHL) == "shl"@,
        tag_name(Tag::SHR) == "shr"@,
        tag_name(Tag::SAR) == "sar"@,
        tag_name(Tag::BYTE) == "byte"@,
        tag_name(Tag::ADDMOD) == "addmod"@,
        tag_name(Tag::MULMOD) == "mulmod"@,
        tag_name(Tag::EXP) == "exp"@,
        tag_name(Tag::SIGNEXTEND) == "signextend"@,
        tag_name(Tag::SHA3) == "sha3"@,
        tag_name(Tag::KECCAK256) == "keccak256"@,
        tag_name(Tag::SHA3_32) == "sha3_32"@,
        tag_name(Tag::SHA3_64) == "sha3_64"@,
        tag_name(Tag::MLOAD) == "mload"@,
        tag_name(Tag::MSTORE) == "mstore"@,
        tag_name(Tag::MSTORE8) == "mstore8"@,
        tag_name(Tag::MCOPY) == "mcopy"@,
        tag_name(Tag::SLOAD) == "sload"@,
        tag_name(Tag::SSTORE) == "sstore"@,
        tag_name(Tag::TLOAD) == "tload"@,
        tag_name(Tag::TSTORE) == "tstore"@,
        tag_name(Tag::ILOAD) == "iload"@,
        tag_name(Tag::ISTORE) == "istore"@,
        tag_name(Tag::DLOAD) == "dload"@,
        tag_name(Tag::DLOADBYTES) == "dloadbytes"@,
        tag_name(Tag::CALLDATALOAD) == "calldataload"@,
        tag_name(Tag::CALLDATASIZE) == "calldatasize"@,
        tag_name(Tag::CALLDATACOPY) == "calldatacopy"@,
        tag_name(Tag::CODESIZE) == "codesize"@,
        tag_name(Tag::CODECOPY) == "codecopy"@,
        tag_name(Tag::EXTCODESIZE) == "extcodesize"@,
        tag_name(Tag::EXTCODEHASH) == "extcodehash"@,
        tag_name(Tag::RETURNDATASIZE) == "returndatasize"@,
        tag_name(Tag::RETURNDATACOPY) == "returndatacopy"@,
        tag_name(Tag::RETURN) == "return"@,
        tag_name(Tag::REVERT) == "revert"@,
        tag_name(Tag::STOP) == "stop"@,
        tag_name(Tag::INVALID) == "invalid"@,
        tag_name(Tag::LOG0) == "log0"@,
        tag_name(Tag::LOG1) == "log1"@,
        tag_name(Tag::LOG2) == "log2"@,
        tag_name(Tag::LOG3) == "log3"@,
        tag_name(Tag::LOG4) == "log4"@,
        tag_name(Tag::CALL) == "call"@,
        tag_name(Tag::STATICCALL) == "staticcall"@,
        tag_name(Tag::DELEGATECALL) == "delegatecall"@,
        tag_name(Tag::CREATE) == "create"@,
        tag_name(Tag::CREATE2) == "create2"@,
        tag_name(Tag::ADDRESS) == "address"@,
        tag_name(Tag::CALLER) == "caller"@,
        tag_name(Tag::CALLVALUE) == "callvalue"@,
        tag_name(Tag::GAS) == "gas"@,
        tag_name(Tag::BALANCE) == "balance"@,
        tag_name(Tag::SELFBALANCE) == "selfbalance"@,
        tag_name(Tag::GASLIMIT) == "gaslimit"@,
        tag_name(Tag::GASPRICE) == "gasprice"@,
        tag_name(Tag::ORIGIN) == "origin"@,
        tag_name(Tag::CHAINID) == "chainid"@,
        tag_name(Tag::NUMBER) == "number"@,
        tag_name(Tag::TIMESTAMP) == "timestamp"@,
        tag_name(Tag::BLOCKHASH) == "blockhash"@,
        tag_name(Tag::DIFFICULTY) == "difficulty"@,
        tag_name(Tag::COINBASE) == "coinbase"@,
        tag_name(Tag::BASEFEE) == "basefee"@,
        tag_name(Tag::MSIZE) == "msize"@,
        tag_name(Tag::CALLCODE) == "callcode"@,
        tag_name(Tag::PC) == "pc"@,
        tag_name(Tag::EXTCODECOPY) == "extcodecopy"@,
        tag_name(Tag::SELFDESTRUCT) == "selfdestruct"@,
        tag_name(Tag::Unknown) == "unknown"@,
{
    reveal_strlit("with");
    reveal_strlit("set");
    reveal_strlit("seq");
    reveal_strlit("if");
    reveal_strlit("repeat");
    reveal_strlit("goto");
    reveal_strlit("exit_to");
    reveal_strlit("jump");
    reveal_strlit("label");
    reveal_strlit("cleanup_repeat");
    reveal_strlit("break");
    reveal_strlit("continue");
    reveal_strlit("pass");
    reveal_strlit("deploy");
    reveal_strlit("symbol");
    reveal_strlit("unique_symbol");
    reveal_strlit("uclamp");
    reveal_strlit("clamp");
    reveal_strlit("uclamplt");
    reveal_strlit("uclample");
    reveal_strlit("uclampgt");
    reveal_strlit("uclampge");
    reveal_strlit("clamplt");
    reveal_strlit("clample");
    reveal_strlit("clampgt");
    reveal_strlit("clampge");
    reveal_strlit("clamp_nonzero");
    reveal_strlit("ceil32");
    reveal_strlit("select");
    reveal_strlit("assert");
    reveal_strlit("assert_unreachable");
    reveal_strlit("var_list");
    reveal_strlit("pop");
    reveal_strlit("add");
    reveal_strlit("sub");
    reveal_strlit("mul");
    reveal_strlit("div");
    reveal_strlit("mod");
    reveal_strlit("sdiv");
    reveal_strlit("smod");
    reveal_strlit("lt");
    reveal_strlit("le");
    reveal_strlit("gt");
    reveal_strlit("ge");
    reveal_strlit("eq");
    reveal_strlit("ne");
    reveal_strlit("iszero");
    reveal_strlit("slt");
    reveal_strlit("sle");
    reveal_strlit("sgt");
    reveal_strlit("sge");
    reveal_strlit("or");
    reveal_strlit("xor");
    reveal_strlit("not");
    reveal_strlit("and");
    reveal_strlit("shl");
    reveal_strlit("shr");
    reveal_strlit("sar");
    reveal_strlit("byte");
    reveal_strlit("addmod");
    reveal_strlit("mulmod");
    reveal_strlit("exp");
    reveal_strlit("signextend");
    reveal_strlit("sha3");
    reveal_strlit("keccak256");
    reveal_strlit("sha3_32");
    reveal_strlit("sha3_64");
    reveal_strlit("mload");
    reveal_strlit("mstore");
    reveal_strlit("mstore8");
    reveal_strlit("mcopy");
    reveal_strlit("sload");
    reveal_strlit("sstore");
    reveal_strlit("tload");
    reveal_strlit("tstore");
    reveal_strlit("iload");
    reveal_strlit("istore");
    reveal_strlit("dload");
    reveal_strlit("dloadbytes");
    reveal_strlit("calldataload");
    reveal_strlit("calldatasize");
    reveal_strlit("calldatacopy");
    reveal_strlit("codesize");
    reveal_strlit("codecopy");
    reveal_strlit("extcodesize");
    reveal_strlit("extcodehash");
    reveal_strlit("returndatasize");
    reveal_strlit("returndatacopy");
    reveal_strlit("return");
    reveal_strlit("revert");
    reveal_strlit("stop");
    reveal_strlit("invalid");
    reveal_strlit("log0");
    reveal_strlit("log1");
    reveal_strlit("log2");
    reveal_strlit("log3");
    reveal_strlit("log4");
    reveal_strlit("call");
    reveal_strlit("staticcall");
    reveal_strlit("delegatecall");
    reveal_strlit("create");
    reveal_strlit("create2");
    reveal_strlit("address");
    reveal_strlit("caller");
    reveal_strlit("callvalue");
    reveal_strlit("gas");
    reveal_strlit("balance");
    reveal_strlit("selfbalance");
    reveal_strlit("gaslimit");
    reveal_strlit("gasprice");
    reveal_strlit("origin");
    reveal_strlit("chainid");
    reveal_strlit("number");
    reveal_strlit("timestamp");
    reveal_strlit("blockhash");
    reveal_strlit("difficulty");
    reveal_strlit("coinbase");
    reveal_strlit("basefee");
    reveal_strlit("msize");
    reveal_strlit("callcode");
    reveal_strlit("pc");
    reveal_strlit("extcodecopy");
    reveal_strlit("selfdestruct");
    reveal_strlit("unknown");
}

/// Each instruction name `vyper` writes is read as its own tag.
#[verifier::rlimit(100)]
pub proof fn lemma_tag_names_read()
    ensures
        tag_from_name("with"@) == Some(Tag::With),
        tag_from_name("set"@) == Some(Tag::Assign),
        tag_from_name("seq"@) == Some(Tag::Sequence),
        tag_from_name("if"@) == Some(Tag::If),
        tag_from_name("repeat"@) == Some(Tag::Repeat),
        tag_from_name("goto"@) == Some(Tag::GoTo),
        tag_from_name("exit_to"@) == Some(Tag::Exit_To),
        tag_from_name("jump"@) == Some(Tag::Jump),
        tag_from_name("label"@) == Some(Tag::Label),
        tag_from_name("cleanup_repeat"@) == Some(Tag::Cleanup_Repeat),
        tag_from_name("break"@) == Some(Tag::Break),
        tag_from_name("continue"@) == Some(Tag::Continue),
        tag_from_name("pass"@) == Some(Tag::Pass),
        tag_from_name("deploy"@) == Some(Tag::Deploy),
        tag_from_name("symbol"@) == Some(Tag::Symbol),
        tag_from_name("unique_symbol"@) == Some(Tag::Unique_Symbol),
        tag_from_name("uclamp"@) == Some(Tag::UCLAMP),
        tag_from_name("clamp"@) == Some(Tag::CLAMP),
        tag_from_name("uclamplt"@) == Some(Tag::UCLAMPLT),
        tag_from_name("uclample"@) == Some(Tag::UCLAMPLE),
        tag_from_name("uclampgt"@) == Some(Tag::UCLAMPGT),
        tag_from_name("uclampge"@) == Some(Tag::UCLAMPGE),
        tag_from_name("clamplt"@) == Some(Tag::CLAMPLT),
        tag_from_name("clample"@) == Some(Tag::CLAMPLE),
        tag_from_name("clampgt"@) == Some(Tag::CLAMPGT),
        tag_from_name("clampge"@) == Some(Tag::CLAMPGE),
        tag_from_name("clamp_nonzero"@) == Some(Tag::CLAMP_NONZERO),
        tag_from_name("ceil32"@) == Some(Tag::CEIL32),
        tag_from_name("select"@) == Some(Tag::SELECT),
        tag_from_name("assert"@) == Some(Tag::Assert),
        tag_from_name("assert_unreachable"@) == Some(Tag::Assert_Unreachable),
        tag_from_name("var_list"@) == Some(Tag::Var_List),
        tag_from_name("pop"@) == Some(Tag::POP),
        tag_from_name("add"@) == Some(Tag::ADD),
        tag_from_name("sub"@) == Some(Tag::SUB),
        tag_from_name("mul"@) == Some(Tag::MUL),
        tag_from_name("div"@) == Some(Tag::DIV),
        tag_from_name("mod"@) == Some(Tag::MOD),
        tag_from_name("sdiv"@) == Some(Tag::SDIV),
        tag_from_name("smod"@) == Some(Tag::SMOD),
        tag_from_name("lt"@) == Some(Tag::LT),
        tag_from_name("le"@) == Some(Tag::LE),
        tag_from_name("gt"@) == Some(Tag::GT),
        tag_from_name("ge"@) == Some(Tag::GE),
        tag_from_name("eq"@) == Some(Tag::EQ),
        tag_from_name("ne"@) == Some(Tag::NE),
        tag_from_name("iszero"@) == Some(Tag::ISZERO),
        tag_from_name("slt"@) == Some(Tag::SLT),
        tag_from_name("sle"@) == Some(Tag::SLE),
        tag_from_name("sgt"@) == Some(Tag::SGT),
        tag_from_name("sge"@) == Some(Tag::SGE),
        tag_from_name("or"@) == Some(Tag::OR),
        tag_from_name("xor"@) == Some(Tag::XOR),
        tag_from_name("not"@) == Some(Tag::NOT),
        tag_from_name("and"@) == Some(Tag::AND),
        tag_from_name("shl"@) == Some(Tag::SHL),
        tag_from_name("shr"@) == Some(Tag::SHR),
        tag_from_name("sar"@) == Some(Tag::SAR),
        tag_from_name("byte"@) == Some(Tag::BYTE),
        tag_from_name("addmod"@) == Some(Tag::ADDMOD),
        tag_from_name("mulmod"@) == Some(Tag::MULMOD),
        tag_from_name("exp"@) == Some(Tag::EXP),
        tag_from_name("signextend"@) == Some(Tag::SIGNEXTEND),
        tag_from_name("sha3"@) == Some(Tag::SHA3),
        tag_from_name("keccak256"@) == Some(Tag::KECCAK256),
        tag_from_name("sha3_32"@) == Some(Tag::SHA3_32),
        tag_from_name("sha3_64"@) == Some(Tag::SHA3_64),
        tag_from_name("mload"@) == Some(Tag::MLOAD),
        tag_from_name("mstore"@) == Some(Tag::MSTORE),
        tag_from_name("mstore8"@) == Some(Tag::MSTORE8),
        tag_from_name("mcopy"@) == Some(Tag::MCOPY),
        tag_from_name("sload"@) == Some(Tag::SLOAD),
        tag_from_name("sstore"@) == Some(Tag::SSTORE),
        tag_from_name("tload"@) == Some(Tag::TLOAD),
        tag_from_name("tstore"@) == Some(Tag::TSTORE),
        tag_from_name("iload"@) == Some(Tag::ILOAD),
        tag_from_name("istore"@) == Some(Tag::ISTORE),
        tag_from_name("dload"@) == Some(Tag::DLOAD),
        tag_from_name("dloadbytes"@) == Some(Tag::DLOADBYTES),
        tag_from_name("calldataload"@) == Some(Tag::CALLDATALOAD),
        tag_from_name("calldatasize"@) == Some(Tag::CALLDATASIZE),
        tag_from_name("calldatacopy"@) == Some(Tag::CALLDATACOPY),
        tag_from_name("codesize"@) == Some(Tag::CODESIZE),
        tag_from_name("codecopy"@) == Some(Tag::CODECOPY),
        tag_from_name("extcodesize"@) == Some(Tag::EXTCODESIZE),
        tag_from_name("extcodehash"@) == Some(Tag::EXTCODEHASH),
        tag_from_name("returndatasize"@) == Some(Tag::RETURNDATASIZE),
        tag_from_name("returndatacopy"@) == Some(Tag::RETURNDATACOPY),
        tag_from_name("return"@) == Some(Tag::RETURN),
        tag_from_name("revert"@) == Some(Tag::REVERT),
        tag_from_name("stop"@) == Some(Tag::STOP),
        tag_from_name("invalid"@) == Some(Tag::INVALID),
        tag_from_name("log0"@) == Some(Tag::LOG0),
        tag_from_name("log1"@) == Some(Tag::LOG1),
        tag_from_name("log2"@) == Some(Tag::LOG2),
        tag_from_name("log3"@) == Some(Tag::LOG3),
        tag_from_name("log4"@) == Some(Tag::LOG4),
        tag_from_name("call"@) == Some(Tag::CALL),
        tag_from_name("staticcall"@) == Some(Tag::STATICCALL),
        tag_from_name("delegatecall"@) == Some(Tag::DELEGATECALL),
        tag_from_name("create"@) == Some(Tag::CREATE),
        tag_from_name("create2"@) == Some(Tag::CREATE2),
        tag_from_name("address"@) == Some(Tag::ADDRESS),
        tag_from_name("caller"@) == Some(Tag::CALLER),
        tag_from_name("callvalue"@) == Some(Tag::CALLVALUE),
        tag_from_name("gas"@) == Some(Tag::GAS),
        tag_from_name("balance"@) == Some(Tag::BALANCE),
        tag_from_name("selfbalance"@) == Some(Tag::SELFBALANCE),
        tag_from_name("gaslimit"@) == Some(Tag::GASLIMIT),
        tag_from_name("gasprice"@) == Some(Tag::GASPRICE),
        tag_from_name("origin"@) == Some(Tag::ORIGIN),
        tag_from_name("chainid"@) == Some(Tag::CHAINID),
        tag_from_name("number"@) == Some(Tag::NUMBER),
        tag_from_name("timestamp"@) == Some(Tag::TIMESTAMP),
        tag_from_name("blockhash"@) == Some(Tag::BLOCKHASH),
        tag_from_name("difficulty"@) == Some(Tag::DIFFICULTY),
        tag_from_name("coinbase"@) == Some(Tag::COINBASE),
        tag_from_name("basefee"@) == Some(Tag::BASEFEE),
        tag_from_name("msize"@) == Some(Tag::MSIZE),
        tag_from_name("callcode"@) == Some(Tag::CALLCODE),
        tag_from_name("pc"@) == Some(Tag::PC),
        tag_from_name("extcodecopy"@) == Some(Tag::EXTCODECOPY),
        tag_from_name("selfdestruct"@) == Some(Tag::SELFDESTRUCT),
        tag_from_name("unknown"@) == Some(Tag::Unknown),
{
    lemma_tag_names();
    lemma_tag_name_roundtrip(Tag::With);
    lemma_tag_name_roundtrip(Tag::Assign);
    lemma_tag_name_roundtrip(Tag::Sequence);
    lemma_tag_name_roundtrip(Tag::If);
    lemma_tag_name_roundtrip(Tag::Repeat);
    lemma_tag_name_roundtrip(Tag::GoTo);
    lemma_tag_name_roundtrip(Tag::Exit_To);
    lemma_tag_name_roundtrip(Tag::Jump);
    lemma_tag_name_roundtrip(Tag::Label);
    lemma_tag_name_roundtrip(Tag::Cleanup_Repeat);
    lemma_tag_name_roundtrip(Tag::Break);
    lemma_tag_name_roundtrip(Tag::Continue);
    lemma_tag_name_roundtrip(Tag::Pass);
    lemma_tag_name_roundtrip(Tag::Deploy);
    lemma_tag_name_roundtrip(Tag::Symbol);
    lemma_tag_name_roundtrip(Tag::Unique_Symbol);
    lemma_tag_name_roundtrip(Tag::UCLAMP);
    lemma_tag_name_roundtrip(Tag::CLAMP);
    lemma_tag_name_roundtrip(Tag::UCLAMPLT);
    lemma_tag_name_roundtrip(Tag::UCLAMPLE);
    lemma_tag_name_roundtrip(Tag::UCLAMPGT);
    lemma_tag_name_roundtrip(Tag::UCLAMPGE);
    lemma_tag_name_roundtrip(Tag::CLAMPLT);
    lemma_tag_name_roundtrip(Tag::CLAMPLE);
    lemma_tag_name_roundtrip(Tag::CLAMPGT);
    lemma_tag_name_roundtrip(Tag::CLAMPGE);
    lemma_tag_name_roundtrip(Tag::CLAMP_NONZERO);
    lemma_tag_name_roundtrip(Tag::CEIL32);
    lemma_tag_name_roundtrip(Tag::SELECT);
    lemma_tag_name_roundtrip(Tag::Assert);
    lemma_tag_name_roundtrip(Tag::Assert_Unreachable);
    lemma_tag_name_roundtrip(Tag::Var_List);
    lemma_tag_name_roundtrip(Tag::POP);
    lemma_tag_name_roundtrip(Tag::ADD);
    lemma_tag_name_roundtrip(Tag::SUB);
    lemma_tag_name_roundtrip(Tag::MUL);
    lemma_tag_name_roundtrip(Tag::DIV);
    lemma_tag_name_roundtrip(Tag::MOD);
    lemma_tag_name_roundtrip(Tag::SDIV);
    lemma_tag_name_roundtrip(Tag::SMOD);
    lemma_tag_name_roundtrip(Tag::LT);
    lemma_tag_name_roundtrip(Tag::LE);
    lemma_tag_name_roundtrip(Tag::GT);
    lemma_tag_name_roundtrip(Tag::GE);
    lemma_tag_name_roundtrip(Tag::EQ);
    lemma_tag_name_roundtrip(Tag::NE);
    lemma_tag_name_roundtrip(Tag::ISZERO);
    lemma_tag_name_roundtrip(Tag::SLT);
    lemma_tag_name_roundtrip(Tag::SLE);
    lemma_tag_name_roundtrip(Tag::SGT);
    lemma_tag_name_roundtrip(Tag::SGE);
    lemma_tag_name_roundtrip(Tag::OR);
    lemma_tag_name_roundtrip(Tag::XOR);
    lemma_tag_name_roundtrip(Tag::NOT);
    lemma_tag_name_roundtrip(Tag::AND);
    lemma_tag_name_roundtrip(Tag::SHL);
    lemma_tag_name_roundtrip(Tag::SHR);
    lemma_tag_name_roundtrip(Tag::SAR);
    lemma_tag_name_roundtrip(Tag::BYTE);
    lemma_tag_name_roundtrip(Tag::ADDMOD);
    lemma_tag_name_roundtrip(Tag::MULMOD);
    lemma_tag_name_roundtrip(Tag::EXP);
    lemma_tag_name_roundtrip(Tag::SIGNEXTEND);
    lemma_tag_name_roundtrip(Tag::SHA3);
    lemma_tag_name_roundtrip(Tag::KECCAK256);
    lemma_tag_name_roundtrip(Tag::SHA3_32);
    lemma_tag_name_roundtrip(Tag::SHA3_64);
    lemma_tag_name_roundtrip(Tag::MLOAD);
    lemma_tag_name_roundtrip(Tag::MSTORE);
    lemma_tag_name_roundtrip(Tag::MSTORE8);
    lemma_tag_name_roundtrip(Tag::MCOPY);
    lemma_tag_name_roundtrip(Tag::SLOAD);
    lemma_tag_name_roundtrip(Tag::SSTORE);
    lemma_tag_name_roundtrip(Tag::TLOAD);
    lemma_tag_name_roundtrip(Tag::TSTORE);
    lemma_tag_name_roundtrip(Tag::ILOAD);
    lemma_tag_name_roundtrip(Tag::ISTORE);
    lemma_tag_name_roundtrip(Tag::DLOAD);
    lemma_tag_name_roundtrip(Tag::DLOADBYTES);
    lemma_tag_name_roundtrip(Tag::CALLDATALOAD);
    lemma_tag_name_roundtrip(Tag::CALLDATASIZE);
    lemma_tag_name_roundtrip(Tag::CALLDATACOPY);
    lemma_tag_name_roundtrip(Tag::CODESIZE);
    lemma_tag_name_roundtrip(Tag::CODECOPY);
    lemma_tag_name_roundtrip(Tag::EXTCODESIZE);
    lemma_tag_name_roundtrip(Tag::EXTCODEHASH);
    lemma_tag_name_roundtrip(Tag::RETURNDATASIZE);
    lemma_tag_name_roundtrip(Tag::RETURNDATACOPY);
    lemma_tag_name_roundtrip(Tag::RETURN);
    lemma_tag_name_roundtrip(Tag::REVERT);
    lemma_tag_name_roundtrip(Tag::STOP);
    lemma_tag_name_roundtrip(Tag::INVALID);
    lemma_tag_name_roundtrip(Tag::LOG0);
    lemma_tag_name_roundtrip(Tag::LOG1);
    lemma_tag_name_roundtrip(Tag::LOG2);
    lemma_tag_name_roundtrip(Tag::LOG3);
    lemma_tag_name_roundtrip(Tag::LOG4);
    lemma_tag_name_roundtrip(Tag::CALL);
    lemma_tag_name_roundtrip(Tag::STATICCALL);
    lemma_tag_name_roundtrip(Tag::DELEGATECALL);
    lemma_tag_name_roundtrip(Tag::CREATE);
    lemma_tag_name_roundtrip(Tag::CREATE2);
    lemma_tag_name_roundtrip(Tag::ADDRESS);
    lemma_tag_name_roundtrip(Tag::CALLER);
    lemma_tag_name_roundtrip(Tag::CALLVALUE);
    lemma_tag_name_roundtrip(Tag::GAS);
    lemma_tag_name_roundtrip(Tag::BALANCE);
    lemma_tag_name_roundtrip(Tag::SELFBALANCE);
    lemma_tag_name_roundtrip(Tag::GASLIMIT);
    lemma_tag_name_roundtrip(Tag::GASPRICE);
    lemma_tag_name_roundtrip(Tag::ORIGIN);
    lemma_tag_name_roundtrip(Tag::CHAINID);
    lemma_tag_name_roundtrip(Tag::NUMBER);
    lemma_tag_name_roundtrip(Tag::TIMESTAMP);
    lemma_tag_name_roundtrip(Tag::BLOCKHASH);
    lemma_tag_name_roundtrip(Tag::DIFFICULTY);
    lemma_tag_name_roundtrip(Tag::COINBASE);
    lemma_tag_name_roundtrip(Tag::BASEFEE);
    lemma_tag_name_roundtrip(Tag::MSIZE);
    lemma_tag_name_roundtrip(Tag::CALLCODE);
    lemma_tag_name_roundtrip(Tag::PC);
    lemma_tag_name_roundtrip(Tag::EXTCODECOPY);
    lemma_tag_name_roundtrip(Tag::SELFDESTRUCT);
    lemma_tag_name_roundtrip(Tag::Unknown);
}

/// Every tag is found again from its name.
pub proof fn lemma_tag_name_roundtrip(tag: Tag)
    ensures
        tag_from_name(tag_name(tag)) == Some(tag),
{
    match tag {
        Tag::With => {},
        Tag::Assign => {},
        Tag::Sequence => {},
        Tag::If => {},
        Tag::Repeat => {},
        Tag::GoTo => {},
        Tag::Exit_To => {},
        Tag::Jump => {},
        Tag::Label => {},
        Tag::Cleanup_Repeat => {},
        Tag::Break => {},
        Tag::Continue => {},
        Tag::Pass => {},
        Tag::Deploy => {},
        Tag::Symbol => {},
        Tag::Unique_Symbol => {},
        Tag::UCLAMP => {},
        Tag::CLAMP => {},
        Tag::UCLAMPLT => {},
        Tag::UCLAMPLE => {},
        Tag::UCLAMPGT => {},
        Tag::UCLAMPGE => {},
        Tag::CLAMPLT => {},
        Tag::CLAMPLE => {},
        Tag::CLAMPGT => {},
        Tag::CLAMPGE => {},
        Tag::CLAMP_NONZERO => {},
        Tag::CEIL32 => {},
        Tag::SELECT => {},
        Tag::Assert => {},
        Tag::Assert_Unreachable => {},
        Tag::Var_List => {},
        Tag::POP => {},
        Tag::ADD => {},
        Tag::SUB => {},
        Tag::MUL => {},
        Tag::DIV => {},
        Tag::MOD => {},
        Tag::SDIV => {},
        Tag::SMOD => {},
        Tag::LT => {},
        Tag::LE => {},
        Tag::GT => {},
        Tag::GE => {},
        Tag::EQ => {},
        Tag::NE => {},
        Tag::ISZERO => {},
        Tag::SLT => {},
        Tag::SLE => {},
        Tag::SGT => {},
        Tag::SGE => {},
        Tag::OR => {},
        Tag::XOR => {},
        Tag::NOT => {},
        Tag::AND => {},
        Tag::SHL => {},
        Tag::SHR => {},
        Tag::SAR => {},
        Tag::BYTE => {},
        Tag::ADDMOD => {},
        Tag::MULMOD => {},
        Tag::EXP => {},
        Tag::SIGNEXTEND => {},
        Tag::SHA3 => {},
        Tag::KECCAK256 => {},
        Tag::SHA3_32 => {},
        Tag::SHA3_64 => {},
        Tag::MLOAD => {},
        Tag::MSTORE => {},
        Tag::MSTORE8 => {},
        Tag::MCOPY => {},
        Tag::SLOAD => {},
        Tag::SSTORE => {},
        Tag::TLOAD => {},
        Tag::TSTORE => {},
        Tag::ILOAD => {},
        Tag::ISTORE => {},
        Tag::DLOAD => {},
        Tag::DLOADBYTES => {},
        Tag::CALLDATALOAD => {},
        Tag::CALLDATASIZE => {},
        Tag::CALLDATACOPY => {},
        Tag::CODESIZE => {},
        Tag::CODECOPY => {},
        Tag::EXTCODESIZE => {},
        Tag::EXTCODEHASH => {},
        Tag::RETURNDATASIZE => {},
        Tag::RETURNDATACOPY => {},
        Tag::RETURN => {},
        Tag::REVERT => {},
        Tag::STOP => {},
        Tag::INVALID => {},
        Tag::LOG0 => {},
        Tag::LOG1 => {},
        Tag::LOG2 => {},
        Tag::LOG3 => {},
        Tag::LOG4 => {},
        Tag::CALL => {},
        Tag::STATICCALL => {},
        Tag::DELEGATECALL => {},
        Tag::CREATE => {},
        Tag::CREATE2 => {},
        Tag::ADDRESS => {},
        Tag::CALLER => {},
        Tag::CALLVALUE => {},
        Tag::GAS => {},
        Tag::BALANCE => {},
        Tag::SELFBALANCE => {},
        Tag::GASLIMIT => {},
        Tag::GASPRICE => {},
        Tag::ORIGIN => {},
        Tag::CHAINID => {},
        Tag::NUMBER => {},
        Tag::TIMESTAMP => {},
        Tag::BLOCKHASH => {},
        Tag::DIFFICULTY => {},
        Tag::COINBASE => {},
        Tag::BASEFEE => {},
        Tag::MSIZE => {},
        Tag::CALLCODE => {},
        Tag::PC => {},
        Tag::EXTCODECOPY => {},
        Tag::SELFDESTRUCT => {},
        Tag::Unknown => {},
    }
}

/// The tag that a JSON name denotes, if any.
pub fn tag_by_name(s: &[char]) -> (r: Option<Tag>)
    ensures
        r == tag_from_name(s@),
{
    if s.len() == 2 {
        if s[0] == 'i' && s[1] == 'f' {
            Some(Tag::If)
        } else if s[0] == 'l' && s[1] == 't' {
            Some(Tag::LT)
        } else if s[0] == 'l' && s[1] == 'e' {
            Some(Tag::LE)
        } else if s[0] == 'g' && s[1] == 't' {
            Some(Tag::GT)
        } else if s[0] == 'g' && s[1] == 'e' {
            Some(Tag::GE)
        } else if s[0] == 'e' && s[1] == 'q' {
            Some(Tag::EQ)
        } else if s[0] == 'n' && s[1] == 'e' {
            Some(Tag::NE)
        } else if s[0] == 'o' && s[1] == 'r' {
            Some(Tag::OR)
        } else if s[0] == 'p' && s[1] == 'c' {
            Some(Tag::PC)
        } else {
            None
        }
    } else if s.len() == 3 {
        if s[0] == 's' && s[1] == 'e' && s[2] == 't' {
            Some(Tag::Assign)
        } else if s[0] == 's' && s[1] == 'e' && s[2] == 'q' {
            Some(Tag::Sequence)
        } else if s[0] == 'p' && s[1] == 'o' && s[2] == 'p' {
            Some(Tag::POP)
        } else if s[0] == 'a' && s[1] == 'd' && s[2] == 'd' {
            Some(Tag::ADD)
        } else if s[0] == 's' && s[1] == 'u' && s[2] == 'b' {
            Some(Tag::SUB)
        } else if s[0] == 'm' && s[1] == 'u' && s[2] == 'l' {
            Some(Tag::MUL)
        } else if s[0] == 'd' && s[1] == 'i' && s[2] == 'v' {
            Some(Tag::DIV)
        } else if s[0] == 'm' && s[1] == 'o' && s[2] == 'd' {
            Some(Tag::MOD)
        } else if s[0] == 's' && s[1] == 'l' && s[2] == 't' {
            Some(Tag::SLT)
        } else if s[0] == 's' && s[1] == 'l' && s[2] == 'e' {
            Some(Tag::SLE)
        } else if s[0] == 's' && s[1] == 'g' && s[2] == 't' {
            Some(Tag::SGT)
        } else if s[0] == 's' && s[1] == 'g' && s[2] == 'e' {
            Some(Tag::SGE)
        } else if s[0] == 'x' && s[1] == 'o' && s[2] == 'r' {
            Some(Tag::XOR)
        } else if s[0] == 'n' && s[1] == 'o' && s[2] == 't' {
            Some(Tag::NOT)
        } else if s[0] == 'a' && s[1] == 'n' && s[2] == 'd' {
            Some(Tag::AND)
        } else if s[0] == 's' && s[1] == 'h' && s[2] == 'l' {
            Some(Tag::SHL)
        } else if s[0] == 's' && s[1] == 'h' && s[2] == 'r' {
            Some(Tag::SHR)
        } else if s[0] == 's' && s[1] == 'a' && s[2] == 'r' {
            Some(Tag::SAR)
        } else if s[0] == 'e' && s[1] == 'x' && s[2] == 'p' {
            Some(Tag::EXP)
        } else if s[0] == 'g' && s[1] == 'a' && s[2] == 's' {
            Some(Tag::GAS)
        } else {
            None
        }
    } else if s.len() == 4 {
        if s[0] == 'w' && s[1] == 'i' && s[2] == 't' && s[3] == 'h' {
            Some(Tag::With)
        } else if s[0] == 'g' && s[1] == 'o' && s[2] == 't' && s[3] == 'o' {
            Some(Tag::GoTo)
        } else if s[0] == 'j' && s[1] == 'u' && s[2] == 'm' && s[3] == 'p' {
            Some(Tag::Jump)
        } else if s[0] == 'p' && s[1] == 'a' && s[2] == 's' && s[3] == 's' {
            Some(Tag::Pass)
        } else if s[0] == 's' && s[1] == 'd' && s[2] == 'i' && s[3] == 'v' {
            Some(Tag::SDIV)
        } else if s[0] == 's' && s[1] == 'm' && s[2] == 'o' && s[3] == 'd' {
            Some(Tag::SMOD)
        } else if s[0] == 'b' && s[1] == 'y' && s[2] == 't' && s[3] == 'e' {
            Some(Tag::BYTE)
        } else if s[0] == 's' && s[1] == 'h' && s[2] == 'a' && s[3] == '3' {
            Some(Tag::SHA3)
        } else if s[0] == 's' && s[1] == 't' && s[2] == 'o' && s[3] == 'p' {
            Some(Tag::STOP)
        } else if s[0] == 'l' && s[1] == 'o' && s[2] == 'g' && s[3] == '0' {
            Some(Tag::LOG0)
        } else if s[0] == 'l' && s[1] == 'o' && s[2] == 'g' && s[3] == '1' {
            Some(Tag::LOG1)
        } else if s[0] == 'l' && s[1] == 'o' && s[2] == 'g' && s[3] == '2' {
            Some(Tag::LOG2)
        } else if s[0] == 'l' && s[1] == 'o' && s[2] == 'g' && s[3] == '3' {
            Some(Tag::LOG3)
        } else if s[0] == 'l' && s[1] == 'o' && s[2] == 'g' && s[3] == '4' {
            Some(Tag::LOG4)
        } else if s[0] == 'c' && s[1] == 'a' && s[2] == 'l' && s[3] == 'l' {
            Some(Tag::CALL)
        } else {
            None
        }
    } else if s.len() == 5 {
        if s[0] == 'l' && s[1] == 'a' && s[2] == 'b' && s[3] == 'e' && s[4] == 'l' {
            Some(Tag::Label)
        } else if s[0] == 'b' && s[1] == 'r' && s[2] == 'e' && s[3] == 'a' && s[4] == 'k' {
            Some(Tag::Break)
        } else if s[0] == 'c' && s[1] == 'l' && s[2] == 'a' && s[3] == 'm' && s[4] == 'p' {
            Some(Tag::CLAMP)
        } else if s[0] == 'm' && s[1] == 'l' && s[2] == 'o' && s[3] == 'a' && s[4] == 'd' {
            Some(Tag::MLOAD)
        } else if s[0] == 'm' && s[1] == 'c' && s[2] == 'o' && s[3] == 'p' && s[4] == 'y' {
            Some(Tag::MCOPY)
        } else if s[0] == 's' && s[1] == 'l' && s[2] == 'o' && s[3] == 'a' && s[4] == 'd' {
            Some(Tag::SLOAD)
        } else if s[0] == 't' && s[1] == 'l' && s[2] == 'o' && s[3] == 'a' && s[4] == 'd' {
            Some(Tag::TLOAD)
        } else if s[0] == 'i' && s[1] == 'l' && s[2] == 'o' && s[3] == 'a' && s[4] == 'd' {
            Some(Tag::ILOAD)
        } else if s[0] == 'd' && s[1] == 'l' && s[2] == 'o' && s[3] == 'a' && s[4] == 'd' {
            Some(Tag::DLOAD)
        } else if s[0] == 'm' && s[1] == 's' && s[2] == 'i' && s[3] == 'z' && s[4] == 'e' {
            Some(Tag::MSIZE)
        } else {
            None
        }
    } else if s.len() == 6 {
        if s[0] == 'r' && s[1] == 'e' && s[2] == 'p' && s[3] == 'e' && s[4] == 'a' && s[5] == 't' {
            Some(Tag::Repeat)
        } else if s[0] == 'd' && s[1] == 'e' && s[2] == 'p' && s[3] == 'l' && s[4] == 'o' && s[5] == 'y' {
            Some(Tag::Deploy)
        } else if s[0] == 's' && s[1] == 'y' && s[2] == 'm' && s[3] == 'b' && s[4] == 'o' && s[5] == 'l' {
            Some(Tag::Symbol)
        } else if s[0] == 'u' && s[1] == 'c' && s[2] == 'l' && s[3] == 'a' && s[4] == 'm' && s[5] == 'p' {
            Some(Tag::UCLAMP)
        } else if s[0] == 'c' && s[1] == 'e' && s[2] == 'i' && s[3] == 'l' && s[4] == '3' && s[5] == '2' {
            Some(Tag::CEIL32)
        } else if s[0] == 's' && s[1] == 'e' && s[2] == 'l' && s[3] == 'e' && s[4] == 'c' && s[5] == 't' {
            Some(Tag::SELECT)
        } else if s[0] == 'a' && s[1] == 's' && s[2] == 's' && s[3] == 'e' && s[4] == 'r' && s[5] == 't' {
            Some(Tag::Assert)
        } else if s[0] == 'i' && s[1] == 's' && s[2] == 'z' && s[3] == 'e' && s[4] == 'r' && s[5] == 'o' {
            Some(Tag::ISZERO)
        } else if s[0] == 'a' && s[1] == 'd' && s[2] == 'd' && s[3] == 'm' && s[4] == 'o' && s[5] == 'd' {
            Some(Tag::ADDMOD)
        } else if s[0] == 'm' && s[1] == 'u' && s[2] == 'l' && s[3] == 'm' && s[4] == 'o' && s[5] == 'd' {
            Some(Tag::MULMOD)
        } else if s[0] == 'm' && s[1] == 's' && s[2] == 't' && s[3] == 'o' && s[4] == 'r' && s[5] == 'e' {
            Some(Tag::MSTORE)
        } else if s[0] == 's' && s[1] == 's' && s[2] == 't' && s[3] == 'o' && s[4] == 'r' && s[5] == 'e' {
            Some(Tag::SSTORE)
        } else if s[0] == 't' && s[1] == 's' && s[2] == 't' && s[3] == 'o' && s[4] == 'r' && s[5] == 'e' {
            Some(Tag::TSTORE)
        } else if s[0] == 'i' && s[1] == 's' && s[2] == 't' && s[3] == 'o' && s[4] == 'r' && s[5] == 'e' {
            Some(Tag::ISTORE)
        } else if s[0] == 'r' && s[1] == 'e' && s[2] == 't' && s[3] == 'u' && s[4] == 'r' && s[5] == 'n' {
            Some(Tag::RETURN)
        } else if s[0] == 'r' && s[1] == 'e' && s[2] == 'v' && s[3] == 'e' && s[4] == 'r' && s[5] == 't' {
            Some(Tag::REVERT)
        } else if s[0] == 'c' && s[1] == 'r' && s[2] == 'e' && s[3] == 'a' && s[4] == 't' && s[5] == 'e' {
            Some(Tag::CREATE)
        } else if s[0] == 'c' && s[1] == 'a' && s[2] == 'l' && s[3] == 'l' && s[4] == 'e' && s[5] == 'r' {
            Some(Tag::CALLER)
        } else if s[0] == 'o' && s[1] == 'r' && s[2] == 'i' && s[3] == 'g' && s[4] == 'i' && s[5] == 'n' {
            Some(Tag::ORIGIN)
        } else if s[0] == 'n' && s[1] == 'u' && s[2] == 'm' && s[3] == 'b' && s[4] == 'e' && s[5] == 'r' {
            Some(Tag::NUMBER)
        } else {
            None
        }
    } else if s.len() == 7 {
        if s[0] == 'e' && s[1] == 'x' && s[2] == 'i' && s[3] == 't' && s[4] == '_' && s[5] == 't' && s[6] == 'o' {
            Some(Tag::Exit_To)
        } else if s[0] == 'c' && s[1] == 'l' && s[2] == 'a' && s[3] == 'm' && s[4] == 'p' && s[5] == 'l' && s[6] == 't' {
            Some(Tag::CLAMPLT)
        } else if s[0] == 'c' && s[1] == 'l' && s[2] == 'a' && s[3] == 'm' && s[4] == 'p' && s[5] == 'l' && s[6] == 'e' {
            Some(Tag::CLAMPLE)
        } else if s[0] == 'c' && s[1] == 'l' && s[2] == 'a' && s[3] == 'm' && s[4] == 'p' && s[5] == 'g' && s[6] == 't' {
            Some(Tag::CLAMPGT)
        } else if s[0] == 'c' && s[1] == 'l' && s[2] == 'a' && s[3] == 'm' && s[4] == 'p' && s[5] == 'g' && s[6] == 'e' {
            Some(Tag::CLAMPGE)
        } else if s[0] == 's' && s[1] == 'h' && s[2] == 'a' && s[3] == '3' && s[4] == '_' && s[5] == '3' && s[6] == '2' {
            Some(Tag::SHA3_32)
        } else if s[0] == 's' && s[1] == 'h' && s[2] == 'a' && s[3] == '3' && s[4] == '_' && s[5] == '6' && s[6] == '4' {
            Some(Tag::SHA3_64)
        } else if s[0] == 'm' && s[1] == 's' && s[2] == 't' && s[3] == 'o' && s[4] == 'r' && s[5] == 'e' && s[6] == '8' {
            Some(Tag::MSTORE8)
        } else if s[0] == 'i' && s[1] == 'n' && s[2] == 'v' && s[3] == 'a' && s[4] == 'l' && s[5] == 'i' && s[6] == 'd' {
            Some(Tag::INVALID)
        } else if s[0] == 'c' && s[1] == 'r' && s[2] == 'e' && s[3] == 'a' && s[4] == 't' && s[5] == 'e' && s[6] == '2' {
            Some(Tag::CREATE2)
        } else if s[0] == 'a' && s[1] == 'd' && s[2] == 'd' && s[3] == 'r' && s[4] == 'e' && s[5] == 's' && s[6] == 's' {
            Some(Tag::ADDRESS)
        } else if s[0] == 'b' && s[1] == 'a' && s[2] == 'l' && s[3] == 'a' && s[4] == 'n' && s[5] == 'c' && s[6] == 'e' {
            Some(Tag::BALANCE)
        } else if s[0] == 'c' && s[1] == 'h' && s[2] == 'a' && s[3] == 'i' && s[4] == 'n' && s[5] == 'i' && s[6] == 'd' {
            Some(Tag::CHAINID)
        } else if s[0] == 'b' && s[1] == 'a' && s[2] == 's' && s[3] == 'e' && s[4] == 'f' && s[5] == 'e' && s[6] == 'e' {
            Some(Tag::BASEFEE)
        } else if s[0] == 'u' && s[1] == 'n' && s[2] == 'k' && s[3] == 'n' && s[4] == 'o' && s[5] == 'w' && s[6] == 'n' {
            Some(Tag::Unknown)
        } else {
            None
        }
    } else if s.len() == 8 {
        if s[0] == 'c' && s[1] == 'o' && s[2] == 'n' && s[3] == 't' && s[4] == 'i' && s[5] == 'n' && s[6] == 'u' && s[7] == 'e' {
            Some(Tag::Continue)
        } else if s[0] == 'u' && s[1] == 'c' && s[2] == 'l' && s[3] == 'a' && s[4] == 'm' && s[5] == 'p' && s[6] == 'l' && s[7] == 't' {
            Some(Tag::UCLAMPLT)
        } else if s[0] == 'u' && s[1] == 'c' && s[2] == 'l' && s[3] == 'a' && s[4] == 'm' && s[5] == 'p' && s[6] == 'l' && s[7] == 'e' {
            Some(Tag::UCLAMPLE)
        } else if s[0] == 'u' && s[1] == 'c' && s[2] == 'l' && s[3] == 'a' && s[4] == 'm' && s[5] == 'p' && s[6] == 'g' && s[7] == 't' {
            Some(Tag::UCLAMPGT)
        } else if s[0] == 'u' && s[1] == 'c' && s[2] == 'l' && s[3] == 'a' && s[4] == 'm' && s[5] == 'p' && s[6] == 'g' && s[7] == 'e' {
            Some(Tag::UCLAMPGE)
        } else if s[0] == 'v' && s[1] == 'a' && s[2] == 'r' && s[3] == '_' && s[4] == 'l' && s[5] == 'i' && s[6] == 's' && s[7] == 't' {
            Some(Tag::Var_List)
        } else if s[0] == 'c' && s[1] == 'o' && s[2] == 'd' && s[3] == 'e' && s[4] == 's' && s[5] == 'i' && s[6] == 'z' && s[7] == 'e' {
            Some(Tag::CODESIZE)
        } else if s[0] == 'c' && s[1] == 'o' && s[2] == 'd' && s[3] == 'e' && s[4] == 'c' && s[5] == 'o' && s[6] == 'p' && s[7] == 'y' {
            Some(Tag::CODECOPY)
        } else if s[0] == 'g' && s[1] == 'a' && s[2] == 's' && s[3] == 'l' && s[4] == 'i' && s[5] == 'm' && s[6] == 'i' && s[7] == 't' {
            Some(Tag::GASLIMIT)
        } else if s[0] == 'g' && s[1] == 'a' && s[2] == 's' && s[3] == 'p' && s[4] == 'r' && s[5] == 'i' && s[6] == 'c' && s[7] == 'e' {
            Some(Tag::GASPRICE)
        } else if s[0] == 'c' && s[1] == 'o' && s[2] == 'i' && s[3] == 'n' && s[4] == 'b' && s[5] == 'a' && s[6] == 's' && s[7] == 'e' {
            Some(Tag::COINBASE)
        } else if s[0] == 'c' && s[1] == 'a' && s[2] == 'l' && s[3] == 'l' && s[4] == 'c' && s[5] == 'o' && s[6] == 'd' && s[7] == 'e' {
            Some(Tag::CALLCODE)
        } else {
            None
        }
    } else if s.len() == 9 {
        if s[0] == 'k' && s[1] == 'e' && s[2] == 'c' && s[3] == 'c' && s[4] == 'a' && s[5] == 'k' && s[6] == '2' && s[7] == '5' && s[8] == '6' {
            Some(Tag::KECCAK256)
        } else if s[0] == 'c' && s[1] == 'a' && s[2] == 'l' && s[3] == 'l' && s[4] == 'v' && s[5] == 'a' && s[6] == 'l' && s[7] == 'u' && s[8] == 'e' {
            Some(Tag::CALLVALUE)
        } else if s[0] == 't' && s[1] == 'i' && s[2] == 'm' && s[3] == 'e' && s[4] == 's' && s[5] == 't' && s[6] == 'a' && s[7] == 'm' && s[8] == 'p' {
            Some(Tag::TIMESTAMP)
        } else if s[0] == 'b' && s[1] == 'l' && s[2] == 'o' && s[3] == 'c' && s[4] == 'k' && s[5] == 'h' && s[6] == 'a' && s[7] == 's' && s[8] == 'h' {
            Some(Tag::BLOCKHASH)
        } else {
            None
        }
    } else if s.len() == 10 {
        if s[0] == 's' && s[1] == 'i' && s[2] == 'g' && s[3] == 'n' && s[4] == 'e' && s[5] == 'x' && s[6] == 't' && s[7] == 'e' && s[8] == 'n' && s[9] == 'd' {
            Some(Tag::SIGNEXTEND)
        } else if s[0] == 'd' && s[1] == 'l' && s[2] == 'o' && s[3] == 'a' && s[4] == 'd' && s[5] == 'b' && s[6] == 'y' && s[7] == 't' && s[8] == 'e' && s[9] == 's' {
            Some(Tag::DLOADBYTES)
        } else if s[0] == 's' && s[1] == 't' && s[2] == 'a' && s[3] == 't' && s[4] == 'i' && s[5] == 'c' && s[6] == 'c' && s[7] == 'a' && s[8] == 'l' && s[9] == 'l' {
            Some(Tag::STATICCALL)
        } else if s[0] == 'd' && s[1] == 'i' && s[2] == 'f' && s[3] == 'f' && s[4] == 'i' && s[5] == 'c' && s[6] == 'u' && s[7] == 'l' && s[8] == 't' && s[9] == 'y' {
            Some(Tag::DIFFICULTY)
        } else {
            None
        }
    } else if s.len() == 11 {
        if s[0] == 'e' && s[1] == 'x' && s[2] == 't' && s[3] == 'c' && s[4] == 'o' && s[5] == 'd' && s[6] == 'e' && s[7] == 's' && s[8] == 'i' && s[9] == 'z' && s[10] == 'e' {
            Some(Tag::EXTCODESIZE)
        } else if s[0] == 'e' && s[1] == 'x' && s[2] == 't' && s[3] == 'c' && s[4] == 'o' && s[5] == 'd' && s[6] == 'e' && s[7] == 'h' && s[8] == 'a' && s[9] == 's' && s[10] == 'h' {
            Some(Tag::EXTCODEHASH)
        } else if s[0] == 's' && s[1] == 'e' && s[2] == 'l' && s[3] == 'f' && s[4] == 'b' && s[5] == 'a' && s[6] == 'l' && s[7] == 'a' && s[8] == 'n' && s[9] == 'c' && s[10] == 'e' {
            Some(Tag::SELFBALANCE)
        } else if s[0] == 'e' && s[1] == 'x' && s[2] == 't' && s[3] == 'c' && s[4] == 'o' && s[5] == 'd' && s[6] == 'e' && s[7] == 'c' && s[8] == 'o' && s[9] == 'p' && s[10] == 'y' {
            Some(Tag::EXTCODECOPY)
        } else {
            None
        }
    } else if s.len() == 12 {
        if s[0] == 'c' && s[1] == 'a' && s[2] == 'l' && s[3] == 'l' && s[4] == 'd' && s[5] == 'a' && s[6] == 't' && s[7] == 'a' && s[8] == 'l' && s[9] == 'o' && s[10] == 'a' && s[11] == 'd' {
            Some(Tag::CALLDATALOAD)
        } else if s[0] == 'c' && s[1] == 'a' && s[2] == 'l' && s[3] == 'l' && s[4] == 'd' && s[5] == 'a' && s[6] == 't' && s[7] == 'a' && s[8] == 's' && s[9] == 'i' && s[10] == 'z' && s[11] == 'e' {
            Some(Tag::CALLDATASIZE)
        } else if s[0] == 'c' && s[1] == 'a' && s[2] == 'l' && s[3] == 'l' && s[4] == 'd' && s[5] == 'a' && s[6] == 't' && s[7] == 'a' && s[8] == 'c' && s[9] == 'o' && s[10] == 'p' && s[11] == 'y' {
            Some(Tag::CALLDATACOPY)
        } else if s[0] == 'd' && s[1] == 'e' && s[2] == 'l' && s[3] == 'e' && s[4] == 'g' && s[5] == 'a' && s[6] == 't' && s[7] == 'e' && s[8] == 'c' && s[9] == 'a' && s[10] == 'l' && s[11] == 'l' {
            Some(Tag::DELEGATECALL)
        } else if s[0] == 's' && s[1] == 'e' && s[2] == 'l' && s[3] == 'f' && s[4] == 'd' && s[5] == 'e' && s[6] == 's' && s[7] == 't' && s[8] == 'r' && s[9] == 'u' && s[10] == 'c' && s[11] == 't' {
            Some(Tag::SELFDESTRUCT)
        } else {
            None
        }
    } else if s.len() == 13 {
        if s[0] == 'u' && s[1] == 'n' && s[2] == 'i' && s[3] == 'q' && s[4] == 'u' && s[5] == 'e' && s[6] == '_' && s[7] == 's' && s[8] == 'y' && s[9] == 'm' && s[10] == 'b' && s[11] == 'o' && s[12] == 'l' {
            Some(Tag::Unique_Symbol)
        } else if s[0] == 'c' && s[1] == 'l' && s[2] == 'a' && s[3] == 'm' && s[4] == 'p' && s[5] == '_' && s[6] == 'n' && s[7] == 'o' && s[8] == 'n' && s[9] == 'z' && s[10] == 'e' && s[11] == 'r' && s[12] == 'o' {
            Some(Tag::CLAMP_NONZERO)
        } else {
            None
        }
    } else if s.len() == 14 {
        if s[0] == 'c' && s[1] == 'l' && s[2] == 'e' && s[3] == 'a' && s[4] == 'n' && s[5] == 'u' && s[6] == 'p' && s[7] == '_' && s[8] == 'r' && s[9] == 'e' && s[10] == 'p' && s[11] == 'e' && s[12] == 'a' && s[13] == 't' {
            Some(Tag::Cleanup_Repeat)
        } else if s[0] == 'r' && s[1] == 'e' && s[2] == 't' && s[3] == 'u' && s[4] == 'r' && s[5] == 'n' && s[6] == 'd' && s[7] == 'a' && s[8] == 't' && s[9] == 'a' && s[10] == 's' && s[11] == 'i' && s[12] == 'z' && s[13] == 'e' {
            Some(Tag::RETURNDATASIZE)
        } else if s[0] == 'r' && s[1] == 'e' && s[2] == 't' && s[3] == 'u' && s[4] == 'r' && s[5] == 'n' && s[6] == 'd' && s[7] == 'a' && s[8] == 't' && s[9] == 'a' && s[10] == 'c' && s[11] == 'o' && s[12] == 'p' && s[13] == 'y' {
            Some(Tag::RETURNDATACOPY)
        } else {
            None
        }
    } else if s.len() == 18 {
        if s[0] == 'a' && s[1] == 's' && s[2] == 's' && s[3] == 'e' && s[4] == 'r' && s[5] == 't' && s[6] == '_' && s[7] == 'u' && s[8] == 'n' && s[9] == 'r' && s[10] == 'e' && s[11] == 'a' && s[12] == 'c' && s[13] == 'h' && s[14] == 'a' && s[15] == 'b' && s[16] == 'l' && s[17] == 'e' {
            Some(Tag::Assert_Unreachable)
        } else {
            None
        }
    } else {
        None
    }
}

/// The JSON name of a tag.
pub fn tag_name_chars(tag: Tag) -> (r: Vec<char>)
    ensures
        r@ == tag_name(tag),
{
    match tag {
        Tag::With => vec!['w', 'i', 't', 'h'],
        Tag::Assign => vec!['s', 'e', 't'],
        Tag::Sequence => vec!['s', 'e', 'q'],
        Tag::If => vec!['i', 'f'],
        Tag::Repeat => vec!['r', 'e', 'p', 'e', 'a', 't'],
        Tag::GoTo => vec!['g', 'o', 't', 'o'],
        Tag::Exit_To => vec!['e', 'x', 'i', 't', '_', 't', 'o'],
        Tag::Jump => vec!['j', 'u', 'm', 'p'],
        Tag::Label => vec!['l', 'a', 'b', 'e', 'l'],
        Tag::Cleanup_Repeat => vec!['c', 'l', 'e', 'a', 'n', 'u', 'p', '_', 'r', 'e', 'p', 'e', 'a', 't'],
        Tag::Break => vec!['b', 'r', 'e', 'a', 'k'],
        Tag::Continue => vec!['c', 'o', 'n', 't', 'i', 'n', 'u', 'e'],
        Tag::Pass => vec!['p', 'a', 's', 's'],
        Tag::Deploy => vec!['d', 'e', 'p', 'l', 'o', 'y'],
        Tag::Symbol => vec!['s', 'y', 'm', 'b', 'o', 'l'],
        Tag::Unique_Symbol => vec!['u', 'n', 'i', 'q', 'u', 'e', '_', 's', 'y', 'm', 'b', 'o', 'l'],
        Tag::UCLAMP => vec!['u', 'c', 'l', 'a', 'm', 'p'],
        Tag::CLAMP => vec!['c', 'l', 'a', 'm', 'p'],
        Tag::UCLAMPLT => vec!['u', 'c', 'l', 'a', 'm', 'p', 'l', 't'],
        Tag::UCLAMPLE => vec!['u', 'c', 'l', 'a', 'm', 'p', 'l', 'e'],
        Tag::UCLAMPGT => vec!['u', 'c', 'l', 'a', 'm', 'p', 'g', 't'],
        Tag::UCLAMPGE => vec!['u', 'c', 'l', 'a', 'm', 'p', 'g', 'e'],
        Tag::CLAMPLT => vec!['c', 'l', 'a', 'm', 'p', 'l', 't'],
        Tag::CLAMPLE => vec!['c', 'l', 'a', 'm', 'p', 'l', 'e'],
        Tag::CLAMPGT => vec!['c', 'l', 'a', 'm', 'p', 'g', 't'],
        Tag::CLAMPGE => vec!['c', 'l', 'a', 'm', 'p', 'g', 'e'],
        Tag::CLAMP_NONZERO => vec!['c', 'l', 'a', 'm', 'p', '_', 'n', 'o', 'n', 'z', 'e', 'r', 'o'],
        Tag::CEIL32 => vec!['c', 'e', 'i', 'l', '3', '2'],
        Tag::SELECT => vec!['s', 'e', 'l', 'e', 'c', 't'],
        Tag::Assert => vec!['a', 's', 's', 'e', 'r', 't'],
        Tag::Assert_Unreachable => vec!['a', 's', 's', 'e', 'r', 't', '_', 'u', 'n', 'r', 'e', 'a', 'c', 'h', 'a', 'b', 'l', 'e'],
        Tag::Var_List => vec!['v', 'a', 'r', '_', 'l', 'i', 's', 't'],
        Tag::POP => vec!['p', 'o', 'p'],
        Tag::ADD => vec!['a', 'd', 'd'],
        Tag::SUB => vec!['s', 'u', 'b'],
        Tag::MUL => vec!['m', 'u', 'l'],
        Tag::DIV => vec!['d', 'i', 'v'],
        Tag::MOD => vec!['m', 'o', 'd'],
        Tag::SDIV => vec!['s', 'd', 'i', 'v'],
        Tag::SMOD => vec!['s', 'm', 'o', 'd'],
        Tag::LT => vec!['l', 't'],
        Tag::LE => vec!['l', 'e'],
        Tag::GT => vec!['g', 't'],
        Tag::GE => vec!['g', 'e'],
        Tag::EQ => vec!['e', 'q'],
        Tag::NE => vec!['n', 'e'],
        Tag::ISZERO => vec!['i', 's', 'z', 'e', 'r', 'o'],
        Tag::SLT => vec!['s', 'l', 't'],
        Tag::SLE => vec!['s', 'l', 'e'],
        Tag::SGT => vec!['s', 'g', 't'],
        Tag::SGE => vec!['s', 'g', 'e'],
        Tag::OR => vec!['o', 'r'],
        Tag::XOR => vec!['x', 'o', 'r'],
        Tag::NOT => vec!['n', 'o', 't'],
        Tag::AND => vec!['a', 'n', 'd'],
        Tag::SHL => vec!['s', 'h', 'l'],
        Tag::SHR => vec!['s', 'h', 'r'],
        Tag::SAR => vec!['s', 'a', 'r'],
        Tag::BYTE => vec!['b', 'y', 't', 'e'],
        Tag::ADDMOD => vec!['a', 'd', 'd', 'm', 'o', 'd'],
        Tag::MULMOD => vec!['m', 'u', 'l', 'm', 'o', 'd'],
        Tag::EXP => vec!['e', 'x', 'p'],
        Tag::SIGNEXTEND => vec!['s', 'i', 'g', 'n', 'e', 'x', 't', 'e', 'n', 'd'],
        Tag::SHA3 => vec!['s', 'h', 'a', '3'],
        Tag::KECCAK256 => vec!['k', 'e', 'c', 'c', 'a', 'k', '2', '5', '6'],
        Tag::SHA3_32 => vec!['s', 'h', 'a', '3', '_', '3', '2'],
        Tag::SHA3_64 => vec!['s', 'h', 'a', '3', '_', '6', '4'],
        Tag::MLOAD => vec!['m', 'l', 'o', 'a', 'd'],
        Tag::MSTORE => vec!['m', 's', 't', 'o', 'r', 'e'],
        Tag::MSTORE8 => vec!['m', 's', 't', 'o', 'r', 'e', '8'],
        Tag::MCOPY => vec!['m', 'c', 'o', 'p', 'y'],
        Tag::SLOAD => vec!['s', 'l', 'o', 'a', 'd'],
        Tag::SSTORE => vec!['s', 's', 't', 'o', 'r', 'e'],
        Tag::TLOAD => vec!['t', 'l', 'o', 'a', 'd'],
        Tag::TSTORE => vec!['t', 's', 't', 'o', 'r', 'e'],
        Tag::ILOAD => vec!['i', 'l', 'o', 'a', 'd'],
        Tag::ISTORE => vec!['i', 's', 't', 'o', 'r', 'e'],
        Tag::DLOAD => vec!['d', 'l', 'o', 'a', 'd'],
        Tag::DLOADBYTES => vec!['d', 'l', 'o', 'a', 'd', 'b', 'y', 't', 'e', 's'],
        Tag::CALLDATALOAD => vec!['c', 'a', 'l', 'l', 'd', 'a', 't', 'a', 'l', 'o', 'a', 'd'],
        Tag::CALLDATASIZE => vec!['c', 'a', 'l', 'l', 'd', 'a', 't', 'a', 's', 'i', 'z', 'e'],
        Tag::CALLDATACOPY => vec!['c', 'a', 'l', 'l', 'd', 'a', 't', 'a', 'c', 'o', 'p', 'y'],
        Tag::CODESIZE => vec!['c', 'o', 'd', 'e', 's', 'i', 'z', 'e'],
        Tag::CODECOPY => vec!['c', 'o', 'd', 'e', 'c', 'o', 'p', 'y'],
        Tag::EXTCODESIZE => vec!['e', 'x', 't', 'c', 'o', 'd', 'e', 's', 'i', 'z', 'e'],
        Tag::EXTCODEHASH => vec!['e', 'x', 't', 'c', 'o', 'd', 'e', 'h', 'a', 's', 'h'],
        Tag::RETURNDATASIZE => vec!['r', 'e', 't', 'u', 'r', 'n', 'd', 'a', 't', 'a', 's', 'i', 'z', 'e'],
        Tag::RETURNDATACOPY => vec!['r', 'e', 't', 'u', 'r', 'n', 'd', 'a', 't', 'a', 'c', 'o', 'p', 'y'],
        Tag::RETURN => vec!['r', 'e', 't', 'u', 'r', 'n'],
        Tag::REVERT => vec!['r', 'e', 'v', 'e', 'r', 't'],
        Tag::STOP => vec!['s', 't', 'o', 'p'],
        Tag::INVALID => vec!['i', 'n', 'v', 'a', 'l', 'i', 'd'],
        Tag::LOG0 => vec!['l', 'o', 'g', '0'],
        Tag::LOG1 => vec!['l', 'o', 'g', '1'],
        Tag::LOG2 => vec!['l', 'o', 'g', '2'],
        Tag::LOG3 => vec!['l', 'o', 'g', '3'],
        Tag::LOG4 => vec!['l', 'o', 'g', '4'],
        Tag::CALL => vec!['c', 'a', 'l', 'l'],
        Tag::STATICCALL => vec!['s', 't', 'a', 't', 'i', 'c', 'c', 'a', 'l', 'l'],
        Tag::DELEGATECALL => vec!['d', 'e', 'l', 'e', 'g', 'a', 't', 'e', 'c', 'a', 'l', 'l'],
        Tag::CREATE => vec!['c', 'r', 'e', 'a', 't', 'e'],
        Tag::CREATE2 => vec!['c', 'r', 'e', 'a', 't', 'e', '2'],
        Tag::ADDRESS => vec!['a', 'd', 'd', 'r', 'e', 's', 's'],
        Tag::CALLER => vec!['c', 'a', 'l', 'l', 'e', 'r'],
        Tag::CALLVALUE => vec!['c', 'a', 'l', 'l', 'v', 'a', 'l', 'u', 'e'],
        Tag::GAS => vec!['g', 'a', 's'],
        Tag::BALANCE => vec!['b', 'a', 'l', 'a', 'n', 'c', 'e'],
        Tag::SELFBALANCE => vec!['s', 'e', 'l', 'f', 'b', 'a', 'l', 'a', 'n', 'c', 'e'],
        Tag::GASLIMIT => vec!['g', 'a', 's', 'l', 'i', 'm', 'i', 't'],
        Tag::GASPRICE => vec!['g', 'a', 's', 'p', 'r', 'i', 'c', 'e'],
        Tag::ORIGIN => vec!['o', 'r', 'i', 'g', 'i', 'n'],
        Tag::CHAINID => vec!['c', 'h', 'a', 'i', 'n', 'i', 'd'],
        Tag::NUMBER => vec!['n', 'u', 'm', 'b', 'e', 'r'],
        Tag::TIMESTAMP => vec!['t', 'i', 'm', 'e', 's', 't', 'a', 'm', 'p'],
        Tag::BLOCKHASH => vec!['b', 'l', 'o', 'c', 'k', 'h', 'a', 's', 'h'],
        Tag::DIFFICULTY => vec!['d', 'i', 'f', 'f', 'i', 'c', 'u', 'l', 't', 'y'],
        Tag::COINBASE => vec!['c', 'o', 'i', 'n', 'b', 'a', 's', 'e'],
        Tag::BASEFEE => vec!['b', 'a', 's', 'e', 'f', 'e', 'e'],
        Tag::MSIZE => vec!['m', 's', 'i', 'z', 'e'],
        Tag::CALLCODE => vec!['c', 'a', 'l', 'l', 'c', 'o', 'd', 'e'],
        Tag::PC => vec!['p', 'c'],
        Tag::EXTCODECOPY => vec!['e', 'x', 't', 'c', 'o', 'd', 'e', 'c', 'o', 'p', 'y'],
        Tag::SELFDESTRUCT => vec!['s', 'e', 'l', 'f', 'd', 'e', 's', 't', 'r', 'u', 'c', 't'],
        Tag::Unknown => vec!['u', 'n', 'k', 'n', 'o', 'w', 'n'],
    }
}

/// Whether a tag is written without operands.
pub fn tag_is_unit(tag: Tag) -> (r: bool)
    ensures
        r == (tag_shape(tag) is Unit),
{
    match tag {
        Tag::With => false,
        Tag::Assign => false,
        Tag::Sequence => false,
        Tag::If => false,
        Tag::Repeat => false,
        Tag::GoTo => false,
        Tag::Exit_To => false,
        Tag::Jump => false,
        Tag::Label => false,
        Tag::Cleanup_Repeat => true,
        Tag::Break => true,
        Tag::Continue => true,
        Tag::Pass => true,
        Tag::Deploy => false,
        Tag::Symbol => false,
        Tag::Unique_Symbol => false,
        Tag::UCLAMP => false,
        Tag::CLAMP => false,
        Tag::UCLAMPLT => false,
        Tag::UCLAMPLE => false,
        Tag::UCLAMPGT => false,
        Tag::UCLAMPGE => false,
        Tag::CLAMPLT => false,
        Tag::CLAMPLE => false,
        Tag::CLAMPGT => false,
        Tag::CLAMPGE => false,
        Tag::CLAMP_NONZERO => false,
        Tag::CEIL32 => false,
        Tag::SELECT => false,
        Tag::Assert => false,
        Tag::Assert_Unreachable => false,
        Tag::Var_List => false,
        Tag::POP => false,
        Tag::ADD => false,
        Tag::SUB => false,
        Tag::MUL => false,
        Tag::DIV => false,
        Tag::MOD => false,
        Tag::SDIV => false,
        Tag::SMOD => false,
        Tag::LT => false,
        Tag::LE => false,
        Tag::GT => false,
        Tag::GE => false,
        Tag::EQ => false,
        Tag::NE => false,
        Tag::ISZERO => false,
        Tag::SLT => false,
        Tag::SLE => false,
        Tag::SGT => false,
        Tag::SGE => false,
        Tag::OR => false,
        Tag::XOR => false,
        Tag::NOT => false,
        Tag::AND => false,
        Tag::SHL => false,
        Tag::SHR => false,
        Tag::SAR => false,
        Tag::BYTE => false,
        Tag::ADDMOD => false,
        Tag::MULMOD => false,
        Tag::EXP => false,
        Tag::SIGNEXTEND => false,
        Tag::SHA3 => false,
        Tag::KECCAK256 => false,
        Tag::SHA3_32 => false,
        Tag::SHA3_64 => false,
        Tag::MLOAD => false,
        Tag::MSTORE => false,
        Tag::MSTORE8 => false,
        Tag::MCOPY => false,
        Tag::SLOAD => false,
        Tag::SSTORE => false,
        Tag::TLOAD => false,
        Tag::TSTORE => false,
        Tag::ILOAD => false,
        Tag::ISTORE => false,
        Tag::DLOAD => false,
        Tag::DLOADBYTES => false,
        Tag::CALLDATALOAD => false,
        Tag::CALLDATASIZE => true,
        Tag::CALLDATACOPY => false,
        Tag::CODESIZE => true,
        Tag::CODECOPY => false,
        Tag::EXTCODESIZE => false,
        Tag::EXTCODEHASH => false,
        Tag::RETURNDATASIZE => true,
        Tag::RETURNDATACOPY => false,
        Tag::RETURN => false,
        Tag::REVERT => false,
        Tag::STOP => true,
        Tag::INVALID => true,
        Tag::LOG0 => false,
        Tag::LOG1 => false,
        Tag::LOG2 => false,
        Tag::LOG3 => false,
        Tag::LOG4 => false,
        Tag::CALL => false,
        Tag::STATICCALL => false,
        Tag::DELEGATECALL => false,
        Tag::CREATE => false,
        Tag::CREATE2 => false,
        Tag::ADDRESS => true,
        Tag::CALLER => true,
        Tag::CALLVALUE => true,
        Tag::GAS => true,
        Tag::BALANCE => false,
        Tag::SELFBALANCE => true,
        Tag::GASLIMIT => true,
        Tag::GASPRICE => true,
        Tag::ORIGIN => true,
        Tag::CHAINID => true,
        Tag::NUMBER => true,
        Tag::TIMESTAMP => true,
        Tag::BLOCKHASH => false,
        Tag::DIFFICULTY => true,
        Tag::COINBASE => true,
        Tag::BASEFEE => true,
        Tag::MSIZE => true,
        Tag::CALLCODE => false,
        Tag::PC => true,
        Tag::EXTCODECOPY => false,
        Tag::SELFDESTRUCT => false,
        Tag::Unknown => false,
    }
}

/// The number of operands a fixed-shape tag takes, or `None` for the other shapes.
pub fn tag_fixed_arity(tag: Tag) -> (r: Option<usize>)
    ensures
        match tag_shape(tag) {
            Shape::Fixed(n) => r == Some(n as usize),
            _ => r is None,
        },
{
    match tag {
        Tag::With => Some(3),
        Tag::Assign => Some(2),
        Tag::Sequence => None,
        Tag::If => None,
        Tag::Repeat => None,
        Tag::GoTo => None,
        Tag::Exit_To => None,
        Tag::Jump => Some(1),
        Tag::Label => None,
        Tag::Cleanup_Repeat => None,
        Tag::Break => None,
        Tag::Continue => None,
        Tag::Pass => None,
        Tag::Deploy => Some(3),
        Tag::Symbol => Some(1),
        Tag::Unique_Symbol => Some(1),
        Tag::UCLAMP => Some(3),
        Tag::CLAMP => Some(3),
        Tag::UCLAMPLT => Some(2),
        Tag::UCLAMPLE => Some(2),
        Tag::UCLAMPGT => Some(2),
        Tag::UCLAMPGE => Some(2),
        Tag::CLAMPLT => Some(2),
        Tag::CLAMPLE => Some(2),
        Tag::CLAMPGT => Some(2),
        Tag::CLAMPGE => Some(2),
        Tag::CLAMP_NONZERO => Some(1),
        Tag::CEIL32 => Some(1),
        Tag::SELECT => Some(3),
        Tag::Assert => Some(1),
        Tag::Assert_Unreachable => Some(1),
        Tag::Var_List => None,
        Tag::POP => Some(1),
        Tag::ADD => Some(2),
        Tag::SUB => Some(2),
        Tag::MUL => Some(2),
        Tag::DIV => Some(2),
        Tag::MOD => Some(2),
        Tag::SDIV => Some(2),
        Tag::SMOD => Some(2),
        Tag::LT => Some(2),
        Tag::LE => Some(2),
        Tag::GT => Some(2),
        Tag::GE => Some(2),
        Tag::EQ => Some(2),
        Tag::NE => Some(2),
        Tag::ISZERO => Some(1),
        Tag::SLT => Some(2),
        Tag::SLE => Some(2),
        Tag::SGT => Some(2),
        Tag::SGE => Some(2),
        Tag::OR => Some(2),
        Tag::XOR => Some(2),
        Tag::NOT => Some(1),
        Tag::AND => Some(2),
        Tag::SHL => Some(2),
        Tag::SHR => Some(2),
        Tag::SAR => Some(2),
        Tag::BYTE => Some(2),
        Tag::ADDMOD => Some(3),
        Tag::MULMOD => Some(3),
        Tag::EXP => Some(2),
        Tag::SIGNEXTEND => Some(2),
        Tag::SHA3 => Some(2),
        Tag::KECCAK256 => Some(2),
        Tag::SHA3_32 => Some(1),
        Tag::SHA3_64 => Some(2),
        Tag::MLOAD => Some(1),
        Tag::MSTORE => Some(2),
        Tag::MSTORE8 => Some(2),
        Tag::MCOPY => Some(3),
        Tag::SLOAD => Some(1),
        Tag::SSTORE => Some(2),
        Tag::TLOAD => Some(1),
        Tag::TSTORE => Some(2),
        Tag::ILOAD => Some(1),
        Tag::ISTORE => Some(2),
        Tag::DLOAD => Some(1),
        Tag::DLOADBYTES => Some(3),
        Tag::CALLDATALOAD => Some(1),
        Tag::CALLDATASIZE => None,
        Tag::CALLDATACOPY => Some(3),
        Tag::CODESIZE => None,
        Tag::CODECOPY => Some(3),
        Tag::EXTCODESIZE => Some(1),
        Tag::EXTCODEHASH => Some(1),
        Tag::RETURNDATASIZE => None,
        Tag::RETURNDATACOPY => Some(3),
        Tag::RETURN => Some(2),
        Tag::REVERT => Some(2),
        Tag::STOP => None,
        Tag::INVALID => None,
        Tag::LOG0 => Some(2),
        Tag::LOG1 => Some(3),
        Tag::LOG2 => Some(4),
        Tag::LOG3 => Some(5),
        Tag::LOG4 => Some(6),
        Tag::CALL => Some(7),
        Tag::STATICCALL => Some(6),
        Tag::DELEGATECALL => Some(6),
        Tag::CREATE => Some(3),
        Tag::CREATE2 => Some(4),
        Tag::ADDRESS => None,
        Tag::CALLER => None,
        Tag::CALLVALUE => None,
        Tag::GAS => None,
        Tag::BALANCE => Some(1),
        Tag::SELFBALANCE => None,
        Tag::GASLIMIT => None,
        Tag::GASPRICE => None,
        Tag::ORIGIN => None,
        Tag::CHAINID => None,
        Tag::NUMBER => None,
        Tag::TIMESTAMP => None,
        Tag::BLOCKHASH => Some(1),
        Tag::DIFFICULTY => None,
        Tag::COINBASE => None,
        Tag::BASEFEE => None,
        Tag::MSIZE => None,
        Tag::CALLCODE => Some(7),
        Tag::PC => None,
        Tag::EXTCODECOPY => Some(4),
        Tag::SELFDESTRUCT => Some(1),
        Tag::Unknown => None,
    }
}

/// An EVM opcode or LLL IR pseudo opcode that the compiler translates
/// without restructuring.
#[allow(non_camel_case_types)]
#[allow(clippy::upper_case_acronyms)]
#[derive(Debug, Clone, Copy, PartialEq, Eq, Structural)]
pub enum Opcode {
    /// The `jump` opcode.
    Jump,
    /// The `symbol` opcode.
    Symbol,
    /// The `unique_symbol` opcode.
    Unique_Symbol,
    /// The `uclamp` opcode.
    UCLAMP,
    /// The `clamp` opcode.
    CLAMP,
    /// The `uclamplt` opcode.
    UCLAMPLT,
    /// The `uclample` opcode.
    UCLAMPLE,
    /// The `uclampgt` opcode.
    UCLAMPGT,
    /// The `uclampge` opcode.
    UCLAMPGE,
    /// The `clamplt` opcode.
    CLAMPLT,
    /// The `clample` opcode.
    CLAMPLE,
    /// The `clampgt` opcode.
    CLAMPGT,
    /// The `clampge` opcode.
    CLAMPGE,
    /// The `clamp_nonzero` opcode.
    CLAMP_NONZERO,
    /// The `ceil32` opcode.
    CEIL32,
    /// The `select` opcode.
    SELECT,
    /// The `pop` opcode.
    POP,
    /// The `add` opcode.
    ADD,
    /// The `sub` opcode.
    SUB,
    /// The `mul` opcode.
    MUL,
    /// The `div` opcode.
    DIV,
    /// The `mod` opcode.
    MOD,
    /// The `sdiv` opcode.
    SDIV,
    /// The `smod` opcode.
    SMOD,
    /// The `lt` opcode.
    LT,
    /// The `le` opcode.
    LE,
    /// The `gt` opcode.
    GT,
    /// The `ge` opcode.
    GE,
    /// The `eq` opcode.
    EQ,
    /// The `ne` opcode.
    NE,
    /// The `iszero` opcode.
    ISZERO,
    /// The `slt` opcode.
    SLT,
    /// The `sle` opcode.
    SLE,
    /// The `sgt` opcode.
    SGT,
    /// The `sge` opcode.
    SGE,
    /// The `or` opcode.
    OR,
    /// The `xor` opcode.
    XOR,
    /// The `not` opcode.
    NOT,
    /// The `and` opcode.
    AND,
    /// The `shl` opcode.
    SHL,
    /// The `shr` opcode.
    SHR,
    /// The `sar` opcode.
    SAR,
    /// The `byte` opcode.
    BYTE,
    /// The `addmod` opcode.
    ADDMOD,
    /// The `mulmod` opcode.
    MULMOD,
    /// The `exp` opcode.
    EXP,
    /// The `signextend` opcode.
    SIGNEXTEND,
    /// The `sha3` opcode.
    SHA3,
    /// The `keccak256` opcode.
    KECCAK256,
    /// The `sha3_32` opcode.
    SHA3_32,
    /// The `sha3_64` opcode.
    SHA3_64,
    /// The `mload` opcode.
    MLOAD,
    /// The `mstore` opcode.
    MSTORE,
    /// The `mstore8` opcode.
    MSTORE8,
    /// The `mcopy` opcode.
    MCOPY,
    /// The `sload` opcode.
    SLOAD,
    /// The `sstore` opcode.
    SSTORE,
    /// The `tload` opcode.
    TLOAD,
    /// The `tstore` opcode.
    TSTORE,
    /// The `iload` opcode.
    ILOAD,
    /// The `istore` opcode.
    ISTORE,
    /// The `dload` opcode.
    DLOAD,
    /// The `dloadbytes` opcode.
    DLOADBYTES,
    /// The `calldataload` opcode.
    CALLDATALOAD,
    /// The `calldatasize` opcode.
    CALLDATASIZE,
    /// The `calldatacopy` opcode.
    CALLDATACOPY,
    /// The `codesize` opcode.
    CODESIZE,
    /// The `codecopy` opcode.
    CODECOPY,
    /// The `extcodesize` opcode.
    EXTCODESIZE,
    /// The `extcodehash` opcode.
    EXTCODEHASH,
    /// The `returndatasize` opcode.
    RETURNDATASIZE,
    /// The `returndatacopy` opcode.
    RETURNDATACOPY,
    /// The `stop` opcode.
    STOP,
    /// The `invalid` opcode.
    INVALID,
    /// The `log0` opcode.
    LOG0,
    /// The `log1` opcode.
    LOG1,
    /// The `log2` opcode.
    LOG2,
    /// The `log3` opcode.
    LOG3,
    /// The `log4` opcode.
    LOG4,
    /// The `call` opcode.
    CALL,
    /// The `staticcall` opcode.
    STATICCALL,
    /// The `delegatecall` opcode.
    DELEGATECALL,
    /// The `create` opcode.
    CREATE,
    /// The `create2` opcode.
    CREATE2,
    /// The `address` opcode.
    ADDRESS,
    /// The `caller` opcode.
    CALLER,
    /// The `callvalue` opcode.
    CALLVALUE,
    /// The `gas` opcode.
    GAS,
    /// The `balance` opcode.
    BALANCE,
    /// The `selfbalance` opcode.
    SELFBALANCE,
    /// The `gaslimit` opcode.
    GASLIMIT,
    /// The `gasprice` opcode.
    GASPRICE,
    /// The `origin` opcode.
    ORIGIN,
    /// The `chainid` opcode.
    CHAINID,
    /// The `number` opcode.
    NUMBER,
    /// The `timestamp` opcode.
    TIMESTAMP,
    /// The `blockhash` opcode.
    BLOCKHASH,
    /// The `difficulty` opcode.
    DIFFICULTY,
    /// The `coinbase` opcode.
    COINBASE,
    /// The `basefee` opcode.
    BASEFEE,
    /// The `msize` opcode.
    MSIZE,
    /// The `callcode` opcode.
    CALLCODE,
    /// The `pc` opcode.
    PC,
    /// The `extcodecopy` opcode.
    EXTCODECOPY,
    /// The `selfdestruct` opcode.
    SELFDESTRUCT,
}

/// The tag of each opcode.
pub open spec fn opcode_tag(op: Opcode) -> Tag {
    match op {
        Opcode::Jump => Tag::Jump,
        Opcode::Symbol => Tag::Symbol,
        Opcode::Unique_Symbol => Tag::Unique_Symbol,
        Opcode::UCLAMP => Tag::UCLAMP,
        Opcode::CLAMP => Tag::CLAMP,
        Opcode::UCLAMPLT => Tag::UCLAMPLT,
        Opcode::UCLAMPLE => Tag::UCLAMPLE,
        Opcode::UCLAMPGT => Tag::UCLAMPGT,
        Opcode::UCLAMPGE => Tag::UCLAMPGE,
        Opcode::CLAMPLT => Tag::CLAMPLT,
        Opcode::CLAMPLE => Tag::CLAMPLE,
        Opcode::CLAMPGT => Tag::CLAMPGT,
        Opcode::CLAMPGE => Tag::CLAMPGE,
        Opcode::CLAMP_NONZERO => Tag::CLAMP_NONZERO,
        Opcode::CEIL32 => Tag::CEIL32,
        Opcode::SELECT => Tag::SELECT,
        Opcode::POP => Tag::POP,
        Opcode::ADD => Tag::ADD,
        Opcode::SUB => Tag::SUB,
        Opcode::MUL => Tag::MUL,
        Opcode::DIV => Tag::DIV,
        Opcode::MOD => Tag::MOD,
        Opcode::SDIV => Tag::SDIV,
        Opcode::SMOD => Tag::SMOD,
        Opcode::LT => Tag::LT,
        Opcode::LE => Tag::LE,
        Opcode::GT => Tag::GT,
        Opcode::GE => Tag::GE,
        Opcode::EQ => Tag::EQ,
        Opcode::NE => Tag::NE,
        Opcode::ISZERO => Tag::ISZERO,
        Opcode::SLT => Tag::SLT,
        Opcode::SLE => Tag::SLE,
        Opcode::SGT => Tag::SGT,
        Opcode::SGE => Tag::SGE,
        Opcode::OR => Tag::OR,
        Opcode::XOR => Tag::XOR,
        Opcode::NOT => Tag::NOT,
        Opcode::AND => Tag::AND,
        Opcode::SHL => Tag::SHL,
        Opcode::SHR => Tag::SHR,
        Opcode::SAR => Tag::SAR,
        Opcode::BYTE => Tag::BYTE,
        Opcode::ADDMOD => Tag::ADDMOD,
        Opcode::MULMOD => Tag::MULMOD,
        Opcode::EXP => Tag::EXP,
        Opcode::SIGNEXTEND => Tag::SIGNEXTEND,
        Opcode::SHA3 => Tag::SHA3,
        Opcode::KECCAK256 => Tag::KECCAK256,
        Opcode::SHA3_32 => Tag::SHA3_32,
        Opcode::SHA3_64 => Tag::SHA3_64,
        Opcode::MLOAD => Tag::MLOAD,
        Opcode::MSTORE => Tag::MSTORE,
        Opcode::MSTORE8 => Tag::MSTORE8,
        Opcode::MCOPY => Tag::MCOPY,
        Opcode::SLOAD => Tag::SLOAD,
        Opcode::SSTORE => Tag::SSTORE,
        Opcode::TLOAD => Tag::TLOAD,
        Opcode::TSTORE => Tag::TSTORE,
        Opcode::ILOAD => Tag::ILOAD,
        Opcode::ISTORE => Tag::ISTORE,
        Opcode::DLOAD => Tag::DLOAD,
        Opcode::DLOADBYTES => Tag::DLOADBYTES,
        Opcode::CALLDATALOAD => Tag::CALLDATALOAD,
        Opcode::CALLDATASIZE => Tag::CALLDATASIZE,
        Opcode::CALLDATACOPY => Tag::CALLDATACOPY,
        Opcode::CODESIZE => Tag::CODESIZE,
        Opcode::CODECOPY => Tag::CODECOPY,
        Opcode::EXTCODESIZE => Tag::EXTCODESIZE,
        Opcode::EXTCODEHASH => Tag::EXTCODEHASH,
        Opcode::RETURNDATASIZE => Tag::RETURNDATASIZE,
        Opcode::RETURNDATACOPY => Tag::RETURNDATACOPY,
        Opcode::STOP => Tag::STOP,
        Opcode::INVALID => Tag::INVALID,
        Opcode::LOG0 => Tag::LOG0,
        Opcode::LOG1 => Tag::LOG1,
        Opcode::LOG2 => Tag::LOG2,
        Opcode::LOG3 => Tag::LOG3,
        Opcode::LOG4 => Tag::LOG4,
        Opcode::CALL => Tag::CALL,
        Opcode::STATICCALL => Tag::STATICCALL,
        Opcode::DELEGATECALL => Tag::DELEGATECALL,
        Opcode::CREATE => Tag::CREATE,
        Opcode::CREATE2 => Tag::CREATE2,
        Opcode::ADDRESS => Tag::ADDRESS,
        Opcode::CALLER => Tag::CALLER,
        Opcode::CALLVALUE => Tag::CALLVALUE,
        Opcode::GAS => Tag::GAS,
        Opcode::BALANCE => Tag::BALANCE,
        Opcode::SELFBALANCE => Tag::SELFBALANCE,
        Opcode::GASLIMIT => Tag::GASLIMIT,
        Opcode::GASPRICE => Tag::GASPRICE,
        Opcode::ORIGIN => Tag::ORIGIN,
        Opcode::CHAINID => Tag::CHAINID,
        Opcode::NUMBER => Tag::NUMBER,
        Opcode::TIMESTAMP => Tag::TIMESTAMP,
        Opcode::BLOCKHASH => Tag::BLOCKHASH,
        Opcode::DIFFICULTY => Tag::DIFFICULTY,
        Opcode::COINBASE => Tag::COINBASE,
        Opcode::BASEFEE => Tag::BASEFEE,
        Opcode::MSIZE => Tag::MSIZE,
        Opcode::CALLCODE => Tag::CALLCODE,
        Opcode::PC => Tag::PC,
        Opcode::EXTCODECOPY => Tag::EXTCODECOPY,
        Opcode::SELFDESTRUCT => Tag::SELFDESTRUCT,
    }
}

/// Each opcode stands for the instruction of the same name (part 1).
pub proof fn lemma_opcode_tags_1()
    ensures
        opcode_tag(Opcode::Jump) == Tag::Jump,
        opcode_tag(Opcode::Symbol) == Tag::Symbol,
        opcode_tag(Opcode::Unique_Symbol) == Tag::Unique_Symbol,
        opcode_tag(Opcode::UCLAMP) == Tag::UCLAMP,
        opcode_tag(Opcode::CLAMP) == Tag::CLAMP,
        opcode_tag(Opcode::UCLAMPLT) == Tag::UCLAMPLT,
        opcode_tag(Opcode::UCLAMPLE) == Tag::UCLAMPLE,
        opcode_tag(Opcode::UCLAMPGT) == Tag::UCLAMPGT,
        opcode_tag(Opcode::UCLAMPGE) == Tag::UCLAMPGE,
        opcode_tag(Opcode::CLAMPLT) == Tag::CLAMPLT,
        opcode_tag(Opcode::CLAMPLE) == Tag::CLAMPLE,
        opcode_tag(Opcode::CLAMPGT) == Tag::CLAMPGT,
        opcode_tag(Opcode::CLAMPGE) == Tag::CLAMPGE,
        opcode_tag(Opcode::CLAMP_NONZERO) == Tag::CLAMP_NONZERO,
        opcode_tag(Opcode::CEIL32) == Tag::CEIL32,
{
}

/// Each opcode stands for the instruction of the same name (part 2).
pub proof fn lemma_opcode_tags_2()
    ensures
        opcode_tag(Opcode::SELECT) == Tag::SELECT,
        opcode_tag(Opcode::POP) == Tag::POP,
        opcode_tag(Opcode::ADD) == Tag::ADD,
        opcode_tag(Opcode::SUB) == Tag::SUB,
        opcode_tag(Opcode::MUL) == Tag::MUL,
        opcode_tag(Opcode::DIV) == Tag::DIV,
        opcode_tag(Opcode::MOD) == Tag::MOD,
        opcode_tag(Opcode::SDIV) == Tag::SDIV,
        opcode_tag(Opcode::SMOD) == Tag::SMOD,
        opcode_tag(Opcode::LT) == Tag::LT,
        opcode_tag(Opcode::LE) == Tag::LE,
        opcode_tag(Opcode::GT) == Tag::GT,
        opcode_tag(Opcode::GE) == Tag::GE,
        opcode_tag(Opcode::EQ) == Tag::EQ,
        opcode_tag(Opcode::NE) == Tag::NE,
{
}

/// Each opcode stands for the instruction of the same name (part 3).
pub proof fn lemma_opcode_tags_3()
    ensures
        opcode_tag(Opcode::ISZERO) == Tag::ISZERO,
        opcode_tag(Opcode::SLT) == Tag::SLT,
        opcode_tag(Opcode::SLE) == Tag::SLE,
        opcode_tag(Opcode::SGT) == Tag::SGT,
        opcode_tag(Opcode::SGE) == Tag::SGE,
        opcode_tag(Opcode::OR) == Tag::OR,
        opcode_tag(Opcode::XOR) == Tag::XOR,
        opcode_tag(Opcode::NOT) == Tag::NOT,
        opcode_tag(Opcode::AND) == Tag::AND,
        opcode_tag(Opcode::SHL) == Tag::SHL,
        opcode_tag(Opcode::SHR) == Tag::SHR,
        opcode_tag(Opcode::SAR) == Tag::SAR,
        opcode_tag(Opcode::BYTE) == Tag::BYTE,
        opcode_tag(Opcode::ADDMOD) == Tag::ADDMOD,
        opcode_tag(Opcode::MULMOD) == Tag::MULMOD,
{
}

/// Each opcode stands for the instruction of the same name (part 4).
pub proof fn lemma_opcode_tags_4()
    ensures
        opcode_tag(Opcode::EXP) == Tag::EXP,
        opcode_tag(Opcode::SIGNEXTEND) == Tag::SIGNEXTEND,
        opcode_tag(Opcode::SHA3) == Tag::SHA3,
        opcode_tag(Opcode::KECCAK256) == Tag::KECCAK256,
        opcode_tag(Opcode::SHA3_32) == Tag::SHA3_32,
        opcode_tag(Opcode::SHA3_64) == Tag::SHA3_64,
        opcode_tag(Opcode::MLOAD) == Tag::MLOAD,
        opcode_tag(Opcode::MSTORE) == Tag::MSTORE,
        opcode_tag(Opcode::MSTORE8) == Tag::MSTORE8,
        opcode_tag(Opcode::MCOPY) == Tag::MCOPY,
        opcode_tag(Opcode::SLOAD) == Tag::SLOAD,
        opcode_tag(Opcode::SSTORE) == Tag::SSTORE,
        opcode_tag(Opcode::TLOAD) == Tag::TLOAD,
        opcode_tag(Opcode::TSTORE) == Tag::TSTORE,
        opcode_tag(Opcode::ILOAD) == Tag::ILOAD,
{
}

/// Each opcode stands for the instruction of the same name (part 5).
pub proof fn lemma_opcode_tags_5()
    ensures
        opcode_tag(Opcode::ISTORE) == Tag::ISTORE,
        opcode_tag(Opcode::DLOAD) == Tag::DLOAD,
        opcode_tag(Opcode::DLOADBYTES) == Tag::DLOADBYTES,
        opcode_tag(Opcode::CALLDATALOAD) == Tag::CALLDATALOAD,
        opcode_tag(Opcode::CALLDATASIZE) == Tag::CALLDATASIZE,
        opcode_tag(Opcode::CALLDATACOPY) == Tag::CALLDATACOPY,
        opcode_tag(Opcode::CODESIZE) == Tag::CODESIZE,
        opcode_tag(Opcode::CODECOPY) == Tag::CODECOPY,
        opcode_tag(Opcode::EXTCODESIZE) == Tag::EXTCODESIZE,
        opcode_tag(Opcode::EXTCODEHASH) == Tag::EXTCODEHASH,
        opcode_tag(Opcode::RETURNDATASIZE) == Tag::RETURNDATASIZE,
        opcode_tag(Opcode::RETURNDATACOPY) == Tag::RETURNDATACOPY,
        opcode_tag(Opcode::STOP) == Tag::STOP,
        opcode_tag(Opcode::INVALID) == Tag::INVALID,
        opcode_tag(Opcode::LOG0) == Tag::LOG0,
{
}

/// Each opcode stands for the instruction of the same name (part 6).
pub proof fn lemma_opcode_tags_6()
    ensures
        opcode_tag(Opcode::LOG1) == Tag::LOG1,
        opcode_tag(Opcode::LOG2) == Tag::LOG2,
        opcode_tag(Opcode::LOG3) == Tag::LOG3,
        opcode_tag(Opcode::LOG4) == Tag::LOG4,
        opcode_tag(Opcode::CALL) == Tag::CALL,
        opcode_tag(Opcode::STATICCALL) == Tag::STATICCALL,
        opcode_tag(Opcode::DELEGATECALL) == Tag::DELEGATECALL,
        opcode_tag(Opcode::CREATE) == Tag::CREATE,
        opcode_tag(Opcode::CREATE2) == Tag::CREATE2,
        opcode_tag(Opcode::ADDRESS) == Tag::ADDRESS,
        opcode_tag(Opcode::CALLER) == Tag::CALLER,
        opcode_tag(Opcode::CALLVALUE) == Tag::CALLVALUE,
        opcode_tag(Opcode::GAS) == Tag::GAS,
        opcode_tag(Opcode::BALANCE) == Tag::BALANCE,
        opcode_tag(Opcode::SELFBALANCE) == Tag::SELFBALANCE,
{
}

/// Each opcode stands for the instruction of the same name (part 7).
pub proof fn lemma_opcode_tags_7()
    ensures
        opcode_tag(Opcode::GASLIMIT) == Tag::GASLIMIT,
        opcode_tag(Opcode::GASPRICE) == Tag::GASPRICE,
        opcode_tag(Opcode::ORIGIN) == Tag::ORIGIN,
        opcode_tag(Opcode::CHAINID) == Tag::CHAINID,
        opcode_tag(Opcode::NUMBER) == Tag::NUMBER,
        opcode_tag(Opcode::TIMESTAMP) == Tag::TIMESTAMP,
        opcode_tag(Opcode::BLOCKHASH) == Tag::BLOCKHASH,
        opcode_tag(Opcode::DIFFICULTY) == Tag::DIFFICULTY,
        opcode_tag(Opcode::COINBASE) == Tag::COINBASE,
        opcode_tag(Opcode::BASEFEE) == Tag::BASEFEE,
        opcode_tag(Opcode::MSIZE) == Tag::MSIZE,
        opcode_tag(Opcode::CALLCODE) == Tag::CALLCODE,
        opcode_tag(Opcode::PC) == Tag::PC,
        opcode_tag(Opcode::EXTCODECOPY) == Tag::EXTCODECOPY,
        opcode_tag(Opcode::SELFDESTRUCT) == Tag::SELFDESTRUCT,
{
}

/// Whether a tag names an instruction that the compiler restructures.
pub open spec fn is_structural(tag: Tag) -> bool {
    tag == Tag::With || tag == Tag::Assign || tag == Tag::Sequence || tag == Tag::If || tag == Tag::Repeat || tag == Tag::GoTo || tag == Tag::Exit_To || tag == Tag::Label || tag == Tag::Cleanup_Repeat || tag == Tag::Break || tag == Tag::Continue || tag == Tag::Pass || tag == Tag::Deploy || tag == Tag::Assert || tag == Tag::Assert_Unreachable || tag == Tag::Var_List || tag == Tag::RETURN || tag == Tag::REVERT || tag == Tag::Unknown
}

/// The opcode a tag names, if it names one.
pub fn tag_opcode(tag: Tag) -> (r: Option<Opcode>)
    ensures
        match r {
            Some(op) => opcode_tag(op) == tag && !is_structural(tag),
            None => is_structural(tag),
        },
{
    match tag {
        Tag::With => None,
        Tag::Assign => None,
        Tag::Sequence => None,
        Tag::If => None,
        Tag::Repeat => None,
        Tag::GoTo => None,
        Tag::Exit_To => None,
        Tag::Jump => Some(Opcode::Jump),
        Tag::Label => None,
        Tag::Cleanup_Repeat => None,
        Tag::Break => None,
        Tag::Continue => None,
        Tag::Pass => None,
        Tag::Deploy => None,
        Tag::Symbol => Some(Opcode::Symbol),
        Tag::Unique_Symbol => Some(Opcode::Unique_Symbol),
        Tag::UCLAMP => Some(Opcode::UCLAMP),
        Tag::CLAMP => Some(Opcode::CLAMP),
        Tag::UCLAMPLT => Some(Opcode::UCLAMPLT),
        Tag::UCLAMPLE => Some(Opcode::UCLAMPLE),
        Tag::UCLAMPGT => Some(Opcode::UCLAMPGT),
        Tag::UCLAMPGE => Some(Opcode::UCLAMPGE),
        Tag::CLAMPLT => Some(Opcode::CLAMPLT),
        Tag::CLAMPLE => Some(Opcode::CLAMPLE),
        Tag::CLAMPGT => Some(Opcode::CLAMPGT),
        Tag::CLAMPGE => Some(Opcode::CLAMPGE),
        Tag::CLAMP_NONZERO => Some(Opcode::CLAMP_NONZERO),
        Tag::CEIL32 => Some(Opcode::CEIL32),
        Tag::SELECT => Some(Opcode::SELECT),
        Tag::Assert => None,
        Tag::Assert_Unreachable => None,
        Tag::Var_List => None,
        Tag::POP => Some(Opcode::POP),
        Tag::ADD => Some(Opcode::ADD),
        Tag::SUB => Some(Opcode::SUB),
        Tag::MUL => Some(Opcode::MUL),
        Tag::DIV => Some(Opcode::DIV),
        Tag::MOD => Some(Opcode::MOD),
        Tag::SDIV => Some(Opcode::SDIV),
        Tag::SMOD => Some(Opcode::SMOD),
        Tag::LT => Some(Opcode::LT),
        Tag::LE => Some(Opcode::LE),
        Tag::GT => Some(Opcode::GT),
        Tag::GE => Some(Opcode::GE),
        Tag::EQ => Some(Opcode::EQ),
        Tag::NE => Some(Opcode::NE),
        Tag::ISZERO => Some(Opcode::ISZERO),
        Tag::SLT => Some(Opcode::SLT),
        Tag::SLE => Some(Opcode::SLE),
        Tag::SGT => Some(Opcode::SGT),
        Tag::SGE => Some(Opcode::SGE),
        Tag::OR => Some(Opcode::OR),
        Tag::XOR => Some(Opcode::XOR),
        Tag::NOT => Some(Opcode::NOT),
        Tag::AND => Some(Opcode::AND),
        Tag::SHL => Some(Opcode::SHL),
        Tag::SHR => Some(Opcode::SHR),
        Tag::SAR => Some(Opcode::SAR),
        Tag::BYTE => Some(Opcode::BYTE),
        Tag::ADDMOD => Some(Opcode::ADDMOD),
        Tag::MULMOD => Some(Opcode::MULMOD),
        Tag::EXP => Some(Opcode::EXP),
        Tag::SIGNEXTEND => Some(Opcode::SIGNEXTEND),
        Tag::SHA3 => Some(Opcode::SHA3),
        Tag::KECCAK256 => Some(Opcode::KECCAK256),
        Tag::SHA3_32 => Some(Opcode::SHA3_32),
        Tag::SHA3_64 => Some(Opcode::SHA3_64),
        Tag::MLOAD => Some(Opcode::MLOAD),
        Tag::MSTORE => Some(Opcode::MSTORE),
        Tag::MSTORE8 => Some(Opcode::MSTORE8),
        Tag::MCOPY => Some(Opcode::MCOPY),
        Tag::SLOAD => Some(Opcode::SLOAD),
        Tag::SSTORE => Some(Opcode::SSTORE),
        Tag::TLOAD => Some(Opcode::TLOAD),
        Tag::TSTORE => Some(Opcode::TSTORE),
        Tag::ILOAD => Some(Opcode::ILOAD),
        Tag::ISTORE => Some(Opcode::ISTORE),
        Tag::DLOAD => Some(Opcode::DLOAD),
        Tag::DLOADBYTES => Some(Opcode::DLOADBYTES),
        Tag::CALLDATALOAD => Some(Opcode::CALLDATALOAD),
        Tag::CALLDATASIZE => Some(Opcode::CALLDATASIZE),
        Tag::CALLDATACOPY => Some(Opcode::CALLDATACOPY),
        Tag::CODESIZE => Some(Opcode::CODESIZE),
        Tag::CODECOPY => Some(Opcode::CODECOPY),
        Tag::EXTCODESIZE => Some(Opcode::EXTCODESIZE),
        Tag::EXTCODEHASH => Some(Opcode::EXTCODEHASH),
        Tag::RETURNDATASIZE => Some(Opcode::RETURNDATASIZE),
        Tag::RETURNDATACOPY => Some(Opcode::RETURNDATACOPY),
        Tag::RETURN => None,
        Tag::REVERT => None,
        Tag::STOP => Some(Opcode::STOP),
        Tag::INVALID => Some(Opcode::INVALID),
        Tag::LOG0 => Some(Opcode::LOG0),
        Tag::LOG1 => Some(Opcode::LOG1),
        Tag::LOG2 => Some(Opcode::LOG2),
        Tag::LOG3 => Some(Opcode::LOG3),
        Tag::LOG4 => Some(Opcode::LOG4),
        Tag::CALL => Some(Opcode::CALL),
        Tag::STATICCALL => Some(Opcode::STATICCALL),
        Tag::DELEGATECALL => Some(Opcode::DELEGATECALL),
        Tag::CREATE => Some(Opcode::CREATE),
        Tag::CREATE2 => Some(Opcode::CREATE2),
        Tag::ADDRESS => Some(Opcode::ADDRESS),
        Tag::CALLER => Some(Opcode::CALLER),
        Tag::CALLVALUE => Some(Opcode::CALLVALUE),
        Tag::GAS => Some(Opcode::GAS),
        Tag::BALANCE => Some(Opcode::BALANCE),
        Tag::SELFBALANCE => Some(Opcode::SELFBALANCE),
        Tag::GASLIMIT => Some(Opcode::GASLIMIT),
        Tag::GASPRICE => Some(Opcode::GASPRICE),
        Tag::ORIGIN => Some(Opcode::ORIGIN),
        Tag::CHAINID => Some(Opcode::CHAINID),
        Tag::NUMBER => Some(Opcode::NUMBER),
        Tag::TIMESTAMP => Some(Opcode::TIMESTAMP),
        Tag::BLOCKHASH => Some(Opcode::BLOCKHASH),
        Tag::DIFFICULTY => Some(Opcode::DIFFICULTY),
        Tag::COINBASE => Some(Opcode::COINBASE),
        Tag::BASEFEE => Some(Opcode::BASEFEE),
        Tag::MSIZE => Some(Opcode::MSIZE),
        Tag::CALLCODE => Some(Opcode::CALLCODE),
        Tag::PC => Some(Opcode::PC),
        Tag::EXTCODECOPY => Some(Opcode::EXTCODECOPY),
        Tag::SELFDESTRUCT => Some(Opcode::SELFDESTRUCT),
        Tag::Unknown => None,
    }
}

/// The tag of an opcode.
pub fn opcode_to_tag(op: Opcode) -> (r: Tag)
    ensures
        r == opcode_tag(op),
        !is_structural(r),
{
    match op {
        Opcode::Jump => Tag::Jump,
        Opcode::Symbol => Tag::Symbol,
        Opcode::Unique_Symbol => Tag::Unique_Symbol,
        Opcode::UCLAMP => Tag::UCLAMP,
        Opcode::CLAMP => Tag::CLAMP,
        Opcode::UCLAMPLT => Tag::UCLAMPLT,
        Opcode::UCLAMPLE => Tag::UCLAMPLE,
        Opcode::UCLAMPGT => Tag::UCLAMPGT,
        Opcode::UCLAMPGE => Tag::UCLAMPGE,
        Opcode::CLAMPLT => Tag::CLAMPLT,
        Opcode::CLAMPLE => Tag::CLAMPLE,
        Opcode::CLAMPGT => Tag::CLAMPGT,
        Opcode::CLAMPGE => Tag::CLAMPGE,
        Opcode::CLAMP_NONZERO => Tag::CLAMP_NONZERO,
        Opcode::CEIL32 => Tag::CEIL32,
        Opcode::SELECT => Tag::SELECT,
        Opcode::POP => Tag::POP,
        Opcode::ADD => Tag::ADD,
        Opcode::SUB => Tag::SUB,
        Opcode::MUL => Tag::MUL,
        Opcode::DIV => Tag::DIV,
        Opcode::MOD => Tag::MOD,
        Opcode::SDIV => Tag::SDIV,
        Opcode::SMOD => Tag::SMOD,
        Opcode::LT => Tag::LT,
        Opcode::LE => Tag::LE,
        Opcode::GT => Tag::GT,
        Opcode::GE => Tag::GE,
        Opcode::EQ => Tag::EQ,
        Opcode::NE => Tag::NE,
        Opcode::ISZERO => Tag::ISZERO,
        Opcode::SLT => Tag::SLT,
        Opcode::SLE => Tag::SLE,
        Opcode::SGT => Tag::SGT,
        Opcode::SGE => Tag::SGE,
        Opcode::OR => Tag::OR,
        Opcode::XOR => Tag::XOR,
        Opcode::NOT => Tag::NOT,
        Opcode::AND => Tag::AND,
        Opcode::SHL => Tag::SHL,
        Opcode::SHR => Tag::SHR,
        Opcode::SAR => Tag::SAR,
        Opcode::BYTE => Tag::BYTE,
        Opcode::ADDMOD => Tag::ADDMOD,
        Opcode::MULMOD => Tag::MULMOD,
        Opcode::EXP => Tag::EXP,
        Opcode::SIGNEXTEND => Tag::SIGNEXTEND,
        Opcode::SHA3 => Tag::SHA3,
        Opcode::KECCAK256 => Tag::KECCAK256,
        Opcode::SHA3_32 => Tag::SHA3_32,
        Opcode::SHA3_64 => Tag::SHA3_64,
        Opcode::MLOAD => Tag::MLOAD,
        Opcode::MSTORE => Tag::MSTORE,
        Opcode::MSTORE8 => Tag::MSTORE8,
        Opcode::MCOPY => Tag::MCOPY,
        Opcode::SLOAD => Tag::SLOAD,
        Opcode::SSTORE => Tag::SSTORE,
        Opcode::TLOAD => Tag::TLOAD,
        Opcode::TSTORE => Tag::TSTORE,
        Opcode::ILOAD => Tag::ILOAD,
        Opcode::ISTORE => Tag::ISTORE,
        Opcode::DLOAD => Tag::DLOAD,
        Opcode::DLOADBYTES => Tag::DLOADBYTES,
        Opcode::CALLDATALOAD => Tag::CALLDATALOAD,
        Opcode::CALLDATASIZE => Tag::CALLDATASIZE,
        Opcode::CALLDATACOPY => Tag::CALLDATACOPY,
        Opcode::CODESIZE => Tag::CODESIZE,
        Opcode::CODECOPY => Tag::CODECOPY,
        Opcode::EXTCODESIZE => Tag::EXTCODESIZE,
        Opcode::EXTCODEHASH => Tag::EXTCODEHASH,
        Opcode::RETURNDATASIZE => Tag::RETURNDATASIZE,
        Opcode::RETURNDATACOPY => Tag::RETURNDATACOPY,
        Opcode::STOP => Tag::STOP,
        Opcode::INVALID => Tag::INVALID,
        Opcode::LOG0 => Tag::LOG0,
        Opcode::LOG1 => Tag::LOG1,
        Opcode::LOG2 => Tag::LOG2,
        Opcode::LOG3 => Tag::LOG3,
        Opcode::LOG4 => Tag::LOG4,
        Opcode::CALL => Tag::CALL,
        Opcode::STATICCALL => Tag::STATICCALL,
        Opcode::DELEGATECALL => Tag::DELEGATECALL,
        Opcode::CREATE => Tag::CREATE,
        Opcode::CREATE2 => Tag::CREATE2,
        Opcode::ADDRESS => Tag::ADDRESS,
        Opcode::CALLER => Tag::CALLER,
        Opcode::CALLVALUE => Tag::CALLVALUE,
        Opcode::GAS => Tag::GAS,
        Opcode::BALANCE => Tag::BALANCE,
        Opcode::SELFBALANCE => Tag::SELFBALANCE,
        Opcode::GASLIMIT => Tag::GASLIMIT,
        Opcode::GASPRICE => Tag::GASPRICE,
        Opcode::ORIGIN => Tag::ORIGIN,
        Opcode::CHAINID => Tag::CHAINID,
        Opcode::NUMBER => Tag::NUMBER,
        Opcode::TIMESTAMP => Tag::TIMESTAMP,
        Opcode::BLOCKHASH => Tag::BLOCKHASH,
        Opcode::DIFFICULTY => Tag::DIFFICULTY,
        Opcode::COINBASE => Tag::COINBASE,
        Opcode::BASEFEE => Tag::BASEFEE,
        Opcode::MSIZE => Tag::MSIZE,
        Opcode::CALLCODE => Tag::CALLCODE,
        Opcode::PC => Tag::PC,
        Opcode::EXTCODECOPY => Tag::EXTCODECOPY,
        Opcode::SELFDESTRUCT => Tag::SELFDESTRUCT,
    }
}

/// No opcode's tag is that of an instruction the compiler restructures.
pub broadcast proof fn lemma_opcode_tag_plain(op: Opcode)
    ensures
        !is_structural(#[trigger] opcode_tag(op)),
{
    match op {
        Opcode::Jump => {},
        Opcode::Symbol => {},
        Opcode::Unique_Symbol => {},
        Opcode::UCLAMP => {},
        Opcode::CLAMP => {},
        Opcode::UCLAMPLT => {},
        Opcode::UCLAMPLE => {},
        Opcode::UCLAMPGT => {},
        Opcode::UCLAMPGE => {},
        Opcode::CLAMPLT => {},
        Opcode::CLAMPLE => {},
        Opcode::CLAMPGT => {},
        Opcode::CLAMPGE => {},
        Opcode::CLAMP_NONZERO => {},
        Opcode::CEIL32 => {},
        Opcode::SELECT => {},
        Opcode::POP => {},
        Opcode::ADD => {},
        Opcode::SUB => {},
        Opcode::MUL => {},
        Opcode::DIV => {},
        Opcode::MOD => {},
        Opcode::SDIV => {},
        Opcode::SMOD => {},
        Opcode::LT => {},
        Opcode::LE => {},
        Opcode::GT => {},
        Opcode::GE => {},
        Opcode::EQ => {},
        Opcode::NE => {},
        Opcode::ISZERO => {},
        Opcode::SLT => {},
        Opcode::SLE => {},
        Opcode::SGT => {},
        Opcode::SGE => {},
        Opcode::OR => {},
        Opcode::XOR => {},
        Opcode::NOT => {},
        Opcode::AND => {},
        Opcode::SHL => {},
        Opcode::SHR => {},
        Opcode::SAR => {},
        Opcode::BYTE => {},
        Opcode::ADDMOD => {},
        Opcode::MULMOD => {},
        Opcode::EXP => {},
        Opcode::SIGNEXTEND => {},
        Opcode::SHA3 => {},
        Opcode::KECCAK256 => {},
        Opcode::SHA3_32 => {},
        Opcode::SHA3_64 => {},
        Opcode::MLOAD => {},
        Opcode::MSTORE => {},
        Opcode::MSTORE8 => {},
        Opcode::MCOPY => {},
        Opcode::SLOAD => {},
        Opcode::SSTORE => {},
        Opcode::TLOAD => {},
        Opcode::TSTORE => {},
        Opcode::ILOAD => {},
        Opcode::ISTORE => {},
        Opcode::DLOAD => {},
        Opcode::DLOADBYTES => {},
        Opcode::CALLDATALOAD => {},
        Opcode::CALLDATASIZE => {},
        Opcode::CALLDATACOPY => {},
        Opcode::CODESIZE => {},
        Opcode::CODECOPY => {},
        Opcode::EXTCODESIZE => {},
        Opcode::EXTCODEHASH => {},
        Opcode::RETURNDATASIZE => {},
        Opcode::RETURNDATACOPY => {},
        Opcode::STOP => {},
        Opcode::INVALID => {},
        Opcode::LOG0 => {},
        Opcode::LOG1 => {},
        Opcode::LOG2 => {},
        Opcode::LOG3 => {},
        Opcode::LOG4 => {},
        Opcode::CALL => {},
        Opcode::STATICCALL => {},
        Opcode::DELEGATECALL => {},
        Opcode::CREATE => {},
        Opcode::CREATE2 => {},
        Opcode::ADDRESS => {},
        Opcode::CALLER => {},
        Opcode::CALLVALUE => {},
        Opcode::GAS => {},
        Opcode::BALANCE => {},
        Opcode::SELFBALANCE => {},
        Opcode::GASLIMIT => {},
        Opcode::GASPRICE => {},
        Opcode::ORIGIN => {},
        Opcode::CHAINID => {},
        Opcode::NUMBER => {},
        Opcode::TIMESTAMP => {},
        Opcode::BLOCKHASH => {},
        Opcode::DIFFICULTY => {},
        Opcode::COINBASE => {},
        Opcode::BASEFEE => {},
        Opcode::MSIZE => {},
        Opcode::CALLCODE => {},
        Opcode::PC => {},
        Opcode::EXTCODECOPY => {},
        Opcode::SELFDESTRUCT => {},
    }
}

} // verus!
