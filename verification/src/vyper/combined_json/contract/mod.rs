//! The `vyper --combined-json` contract.

pub mod warning;

use vstd::prelude::*;

use crate::json::JsonValue;
use crate::string_map::StringMap;
use crate::text::chars_of;
use crate::text::is_prefix;
use crate::text::starts_with;

use self::warning::Warning;

verus! {

broadcast use vstd::std_specs::vec::group_vec_axioms;

/// The value of a hexadecimal digit, if the character is one.
pub open spec fn hex_digit_value(c: char) -> Option<nat> {
    if '0' <= c && c <= '9' {
        Some((c as int - '0' as int) as nat)
    } else if 'a' <= c && c <= 'f' {
        Some((c as int - 'a' as int + 10) as nat)
    } else if 'A' <= c && c <= 'F' {
        Some((c as int - 'A' as int + 10) as nat)
    } else {
        None
    }
}

/// The value of a text of hexadecimal digits, if it is one.
pub open spec fn hex_digits_value(text: Seq<char>) -> Option<nat>
    decreases text.len(),
{
    if text.len() == 0 {
        Some(0)
    } else {
        match (hex_digits_value(text.drop_last()), hex_digit_value(text.last())) {
            (Some(high), Some(low)) => Some(high * 16 + low),
            _ => None,
        }
    }
}

/// The 32-bit number a hexadecimal text denotes, as `u32::from_str_radix`
/// with radix 16 reads it: an optional `+`, then at least one digit, and a
/// value that fits.
pub open spec fn hex_u32(text: Seq<char>) -> Option<u32> {
    let digits = if text.len() > 0 && text[0] == '+' {
        text.drop_first()
    } else {
        text
    };
    if digits.len() == 0 {
        None
    } else {
        match hex_digits_value(digits) {
            Some(value) => if value <= u32::MAX {
                Some(value as u32)
            } else {
                None
            },
            None => None,
        }
    }
}

/// A value never shrinks when digits are appended to its text.
proof fn lemma_hex_digits_grow(text: Seq<char>, k: int)
    requires
        0 <= k <= text.len(),
        hex_digits_value(text) is Some,
    ensures
        hex_digits_value(text.take(k)) is Some,
        hex_digits_value(text.take(k))->0 <= hex_digits_value(text)->0,
    decreases text.len(),
{
    if k < text.len() {
        lemma_hex_digits_grow(text.drop_last(), k);
        assert(text.drop_last().take(k) =~= text.take(k));
    } else {
        assert(text.take(k) =~= text);
    }
}

/// Reads a 32-bit number from hexadecimal text.
#[verifier::loop_isolation(false)]
pub fn parse_hex_u32(text: &[char]) -> (r: Option<u32>)
    ensures
        r == hex_u32(text@),
{
    let start: usize = if text.len() > 0 && text[0] == '+' {
        1
    } else {
        0
    };
    let ghost digits = text@.skip(start as int);
    proof {
        if start == 1 {
            assert(digits =~= text@.drop_first());
        } else {
            assert(digits =~= text@);
        }
    }
    if start == text.len() {
        return None;
    }
    let mut value: u32 = 0;
    let mut i: usize = start;
    proof {
        assert(digits.take(0) =~= Seq::<char>::empty());
    }
    while i < text.len()
        invariant
            start <= i <= text.len(),
            digits == text@.skip(start as int),
            hex_digits_value(digits.take(i - start)) == Some(value as nat),
        decreases text.len() - i,
    {
        let c = text[i];
        let digit: u32 = if '0' <= c && c <= '9' {
            c as u32 - '0' as u32
        } else if 'a' <= c && c <= 'f' {
            c as u32 - 'a' as u32 + 10
        } else if 'A' <= c && c <= 'F' {
            c as u32 - 'A' as u32 + 10
        } else {
            proof {
                assert(digits.take(i - start + 1).drop_last() =~= digits.take(i - start));
                assert(digits.take(i - start + 1).last() == c);
                assert(hex_digit_value(c) is None);
                assert(hex_digits_value(digits.take(i - start + 1)) is None);
                if hex_digits_value(digits) is Some {
                    lemma_hex_digits_grow(digits, i - start + 1);
                }
                assert(hex_digits_value(digits) is None);
                assert(hex_u32(text@) is None);
            }
            return None;
        };
        proof {
            assert(digits.take(i - start + 1).drop_last() =~= digits.take(i - start));
            assert(digits.take(i - start + 1).last() == c);
            assert(hex_digit_value(c) == Some(digit as nat));
        }
        if value > (u32::MAX - digit) / 16 {
            proof {
                assert(value * 16 + digit > u32::MAX) by (nonlinear_arith)
                    requires
                        value > (u32::MAX - digit) / 16,
                        digit < 16,
                ;
                if hex_digits_value(digits) is Some {
                    lemma_hex_digits_grow(digits, i - start + 1);
                    assert(hex_digits_value(digits)->0 > u32::MAX);
                }
                assert(hex_u32(text@) is None);
            }
            return None;
        }
        assert(value * 16 + digit <= u32::MAX) by (nonlinear_arith)
            requires
                value <= (u32::MAX - digit) / 16,
                digit < 16,
        ;
        value = value * 16 + digit;
        i = i + 1;
    }
    proof {
        assert(digits.take(i - start) =~= digits);
    }
    Some(value)
}

/// The contract.
#[derive(Debug)]
pub struct Contract {
    /// The `vyper` hexadecimal binary output.
    pub bytecode: String,
    /// The `vyper` method identifiers output.
    pub method_identifiers: Option<StringMap<String>>,
    /// The `vyper` ABI output.
    pub abi: Option<JsonValue>,
    /// The `vyper` layout output.
    pub layout: Option<JsonValue>,
    /// The `vyper` userdoc output.
    pub userdoc: Option<JsonValue>,
    /// The `vyper` devdoc output.
    pub devdoc: Option<JsonValue>,
    /// The EraVM text assembly.
    pub assembly: Option<String>,
    /// The compilation warnings.
    pub warnings: Option<Vec<Warning>>,
    /// The factory dependencies.
    pub factory_deps: Option<StringMap<String>>,
}

/// The position of the first method identifier whose signature names the
/// entry: it starts with the entry's name and an opening parenthesis.
pub open spec fn first_entry(identifiers: Seq<(String, String)>, entry: Seq<char>) -> Option<int> {
    if exists|i: int| 0 <= i < identifiers.len() && is_prefix(entry + "("@, #[trigger] identifiers[i].0@) {
        Some(
            choose|i: int|
                0 <= i < identifiers.len() && is_prefix(entry + "("@, #[trigger] identifiers[i].0@)
                    && forall|j: int| 0 <= j < i ==> !is_prefix(entry + "("@, #[trigger] identifiers[j].0@),
        )
    } else {
        None
    }
}

impl Contract {
    /// Returns the signature hash of the specified contract entry: the
    /// selector of the first method, in the order of the signatures, whose
    /// signature starts with the entry's name and an opening parenthesis.
    #[verifier::loop_isolation(false)]
    pub fn entry(&self, entry: &str) -> (r: u32)
        requires
            self.method_identifiers is Some,
            first_entry(self.method_identifiers->0.contents(), entry@) matches Some(i) && hex_u32(
                self.method_identifiers->0.contents()[i].1@,
            ) is Some,
        ensures
            r == hex_u32(
                self.method_identifiers->0.contents()[first_entry(
                    self.method_identifiers->0.contents(),
                    entry@,
                )->0].1@,
            )->0,
    {
        let identifiers = match &self.method_identifiers {
            Some(identifiers) => identifiers.entries(),
            None => {
                proof {
                    assert(false);
                }
                return 0;
            },
        };
        let mut prefix = chars_of(entry);
        prefix.push('(');
        proof {
            reveal_strlit("(");
            assert(prefix@ =~= entry@ + "("@);
        }
        let mut i: usize = 0;
        while i < identifiers.len()
            invariant
                i <= identifiers.len(),
                prefix@ == entry@ + "("@,
                forall|j: int| 0 <= j < i ==> !is_prefix(entry@ + "("@, #[trigger] identifiers@[j].0@),
            decreases identifiers.len() - i,
        {
            let signature = chars_of(identifiers[i].0.as_str());
            if starts_with(signature.as_slice(), prefix.as_slice()) {
                let hash = chars_of(identifiers[i].1.as_str());
                proof {
                    assert(is_prefix(entry@ + "("@, identifiers@[i as int].0@));
                    assert(0 <= i < identifiers@.len() && is_prefix(entry@ + "("@, identifiers@[i as int].0@)
                        && forall|j: int| 0 <= j < i ==> !is_prefix(entry@ + "("@, #[trigger] identifiers@[j].0@));
                    let found = first_entry(identifiers@, entry@);
                    let k = found->0;
                    assert(0 <= k < identifiers@.len() && is_prefix(entry@ + "("@, identifiers@[k].0@)
                        && forall|j: int| 0 <= j < k ==> !is_prefix(entry@ + "("@, #[trigger] identifiers@[j].0@));
                    if k < i {
                        assert(!is_prefix(entry@ + "("@, identifiers@[k].0@));
                    } else if k > i {
                        assert(!is_prefix(entry@ + "("@, identifiers@[i as int].0@));
                    }
                    assert(k == i);
                }
                match parse_hex_u32(hash.as_slice()) {
                    Some(value) => return value,
                    None => {
                        proof {
                            assert(false);
                        }
                        return 0;
                    },
                }
            }
            i = i + 1;
        }
        proof {
            assert(false);
        }
        0
    }
}

} // verus!
