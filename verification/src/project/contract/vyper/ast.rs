//! The Vyper contract AST.
//!
//! The AST that `vyper` writes is searched for the constructs that behave
//! differently on EraVM, and a warning is issued for each of them.

use vstd::prelude::*;
use vstd::string::StringExecFns;

use crate::json::Json;
use crate::json::JsonValue;
use crate::text::same_text;
use crate::vyper::combined_json::contract::warning::Warning;
use crate::vyper::combined_json::contract::warning::WarningView;
use crate::warning_type::WarningType;

verus! {

broadcast use vstd::std_specs::vec::group_vec_axioms;

/// The warning issued where `tx.origin` is read.
pub const MESSAGE_TX_ORIGIN: &'static str = "
Warning: You are checking for 'tx.origin' in your code, which might lead to unexpected behavior.

ZKsync Era comes with native account abstraction support, and therefore the initiator of a
transaction might be different from the contract calling your code. It is highly recommended NOT
to rely on tx.origin, but use msg.sender instead.

Learn more about Account Abstraction at https://docs.zksync.io/build/developer-reference/account-abstraction/

You may disable this warning with `--suppress-warnings txorigin`.
";

/// The warning issued where `ecrecover` is called.
pub const MESSAGE_ECRECOVER: &'static str = "
Warning: It looks like you are using 'ecrecover' to validate a signature of a user account.

ZKsync Era comes with native account abstraction support, therefore it is highly recommended NOT
to rely on the fact that the account has an ECDSA private key attached to it since accounts might
implement other signature schemes.

Learn more about Account Abstraction at https://docs.zksync.io/build/developer-reference/account-abstraction/
";

/// The warning issued where an address is tested for code, which `vyper`
/// compiles to the `extcodesize` instruction.
pub const MESSAGE_EXTCODESIZE: &'static str = "
Warning: Your code or one of its dependencies uses the 'extcodesize' instruction, which is
usually needed in the following cases:
  1. To detect whether an address belongs to a smart contract.
  2. To detect whether the deploy code execution has finished.
ZKsync Era comes with native account abstraction support (so accounts are smart contracts,
including private-key controlled EOAs), and you should avoid differentiating between contracts
and non-contract addresses.
";

/// Whether an AST node reads `tx.origin`.
pub open spec fn is_tx_origin(node: Json) -> bool {
    &&& node.get_str("ast_type"@) == Some("Attribute"@)
    &&& node.get_str("attr"@) == Some("origin"@)
    &&& match node.get("value"@) {
        Some(value) => value.get_str("ast_type"@) == Some("Name"@) && value.get_str("id"@) == Some(
            "tx"@,
        ),
        None => false,
    }
}

/// Whether an AST node calls the `ecrecover` built-in.
pub open spec fn is_ecrecover(node: Json) -> bool {
    &&& node.get_str("ast_type"@) == Some("Call"@)
    &&& match node.get("func"@) {
        Some(function) => function.get_str("ast_type"@) == Some("Name"@) && function.get_str("id"@)
            == Some("ecrecover"@),
        None => false,
    }
}

/// Whether an AST node tests an address for code.
pub open spec fn is_extcodesize(node: Json) -> bool {
    &&& node.get_str("ast_type"@) == Some("Attribute"@)
    &&& node.get_str("attr"@) == Some("is_contract"@)
}

/// The line and column an AST node starts at, if it carries both.
pub open spec fn node_location(node: Json) -> Option<(usize, usize)> {
    match (node.get_u64("lineno"@), node.get_u64("col_offset"@)) {
        (Some(line), Some(column)) => Some((line as usize, column as usize)),
        _ => None,
    }
}

/// The warning issued at an AST node, at line and column zero where the
/// node carries no location.
pub open spec fn warning_at(file: Seq<char>, node: Json, message: Seq<char>) -> WarningView {
    let (line, column) = match node_location(node) {
        Some(location) => location,
        None => (0usize, 0usize),
    };
    WarningView { file, line, column, message }
}

/// The warnings issued at an AST node itself.
pub open spec fn node_warnings(file: Seq<char>, node: Json, tx_origin: bool) -> Seq<WarningView> {
    (if tx_origin && is_tx_origin(node) {
        seq![warning_at(file, node, MESSAGE_TX_ORIGIN@)]
    } else {
        Seq::empty()
    }) + (if is_ecrecover(node) {
        seq![warning_at(file, node, MESSAGE_ECRECOVER@)]
    } else {
        Seq::empty()
    }) + (if is_extcodesize(node) {
        seq![warning_at(file, node, MESSAGE_EXTCODESIZE@)]
    } else {
        Seq::empty()
    })
}

/// The warnings issued in an AST: those of the node, then those of its
/// children in order.
pub open spec fn warnings_in(file: Seq<char>, node: Json, tx_origin: bool) -> Seq<WarningView>
    decreases node,
{
    node_warnings(file, node, tx_origin) + match node {
        Json::Array(items) => warnings_in_items(file, items, tx_origin),
        Json::Object(fields) => warnings_in_fields(file, fields, tx_origin),
        _ => Seq::empty(),
    }
}

/// The warnings issued in a sequence of ASTs, in order.
pub open spec fn warnings_in_items(file: Seq<char>, items: Seq<Json>, tx_origin: bool) -> Seq<
    WarningView,
>
    decreases items,
{
    if items.len() == 0 {
        Seq::empty()
    } else {
        warnings_in_items(file, items.drop_last(), tx_origin) + warnings_in(
            file,
            items.last(),
            tx_origin,
        )
    }
}

/// The warnings issued in the values of a sequence of object entries, in
/// order.
pub open spec fn warnings_in_fields(
    file: Seq<char>,
    fields: Seq<(Seq<char>, Json)>,
    tx_origin: bool,
) -> Seq<WarningView>
    decreases fields,
{
    if fields.len() == 0 {
        Seq::empty()
    } else {
        warnings_in_fields(file, fields.drop_last(), tx_origin) + warnings_in(
            file,
            fields.last().1,
            tx_origin,
        )
    }
}

/// The warnings differ from one another.
proof fn lemma_messages_distinct()
    ensures
        MESSAGE_ECRECOVER@ != MESSAGE_TX_ORIGIN@,
        MESSAGE_EXTCODESIZE@ != MESSAGE_TX_ORIGIN@,
{
    reveal_strlit("
Warning: You are checking for 'tx.origin' in your code, which might lead to unexpected behavior.

ZKsync Era comes with native account abstraction support, and therefore the initiator of a
transaction might be different from the contract calling your code. It is highly recommended NOT
to rely on tx.origin, but use msg.sender instead.

Learn more about Account Abstraction at https://docs.zksync.io/build/developer-reference/account-abstraction/

You may disable this warning with `--suppress-warnings txorigin`.
");
    reveal_strlit("
Warning: It looks like you are using 'ecrecover' to validate a signature of a user account.

ZKsync Era comes with native account abstraction support, therefore it is highly recommended NOT
to rely on the fact that the account has an ECDSA private key attached to it since accounts might
implement other signature schemes.

Learn more about Account Abstraction at https://docs.zksync.io/build/developer-reference/account-abstraction/
");
    reveal_strlit("
Warning: Your code or one of its dependencies uses the 'extcodesize' instruction, which is
usually needed in the following cases:
  1. To detect whether an address belongs to a smart contract.
  2. To detect whether the deploy code execution has finished.
ZKsync Era comes with native account abstraction support (so accounts are smart contracts,
including private-key controlled EOAs), and you should avoid differentiating between contracts
and non-contract addresses.
");
    assert(MESSAGE_ECRECOVER@.len() != MESSAGE_TX_ORIGIN@.len());
    assert(MESSAGE_EXTCODESIZE@.len() != MESSAGE_TX_ORIGIN@.len());
}

/// The warnings issued with the `tx.origin` warning suppressed: all but
/// the `tx.origin` ones.
pub open spec fn without_tx_origin(warnings: Seq<WarningView>) -> Seq<WarningView> {
    warnings.filter(|warning: WarningView| warning.message != MESSAGE_TX_ORIGIN@)
}

/// Suppressing the `tx.origin` warning drops the `tx.origin` warnings and
/// keeps every other warning, in order.
pub proof fn lemma_suppression(file: Seq<char>, node: Json)
    ensures
        warnings_in(file, node, false) == without_tx_origin(warnings_in(file, node, true)),
    decreases node,
{
    lemma_messages_distinct();
    let keep = |warning: WarningView| warning.message != MESSAGE_TX_ORIGIN@;
    let own_true = node_warnings(file, node, true);
    let own_false = node_warnings(file, node, false);
    let tx = if is_tx_origin(node) {
        seq![warning_at(file, node, MESSAGE_TX_ORIGIN@)]
    } else {
        Seq::empty()
    };
    let ec = if is_ecrecover(node) {
        seq![warning_at(file, node, MESSAGE_ECRECOVER@)]
    } else {
        Seq::empty()
    };
    let ex = if is_extcodesize(node) {
        seq![warning_at(file, node, MESSAGE_EXTCODESIZE@)]
    } else {
        Seq::empty()
    };
    assert(tx.filter(keep) =~= Seq::<WarningView>::empty()) by {
        if is_tx_origin(node) {
            reveal_with_fuel(Seq::filter, 2);
            assert(tx.drop_last() =~= Seq::<WarningView>::empty());
        }
    }
    assert(ec.filter(keep) =~= ec) by {
        if is_ecrecover(node) {
            reveal_with_fuel(Seq::filter, 2);
            assert(ec.drop_last() =~= Seq::<WarningView>::empty());
        }
    }
    assert(ex.filter(keep) =~= ex) by {
        if is_extcodesize(node) {
            reveal_with_fuel(Seq::filter, 2);
            assert(ex.drop_last() =~= Seq::<WarningView>::empty());
        }
    }
    Seq::filter_distributes_over_add(tx, ec, keep);
    Seq::filter_distributes_over_add(tx + ec, ex, keep);
    assert(own_true == tx + ec + ex);
    assert(own_false =~= Seq::<WarningView>::empty() + ec + ex);
    assert(own_true.filter(keep) =~= own_false);
    let children_true = match node {
        Json::Array(items) => warnings_in_items(file, items, true),
        Json::Object(fields) => warnings_in_fields(file, fields, true),
        _ => Seq::empty(),
    };
    match node {
        Json::Array(items) => {
            lemma_suppression_items(file, items);
        },
        Json::Object(fields) => {
            lemma_suppression_fields(file, fields);
        },
        _ => {
            assert(children_true.filter(keep) =~= Seq::<WarningView>::empty());
        },
    }
    Seq::filter_distributes_over_add(own_true, children_true, keep);
}

/// Suppressing the `tx.origin` warning in a sequence of ASTs drops the
/// `tx.origin` warnings and keeps every other warning, in order.
pub proof fn lemma_suppression_items(file: Seq<char>, items: Seq<Json>)
    ensures
        warnings_in_items(file, items, false) == without_tx_origin(warnings_in_items(file, items, true)),
    decreases items,
{
    let keep = |warning: WarningView| warning.message != MESSAGE_TX_ORIGIN@;
    if items.len() == 0 {
        assert(Seq::<WarningView>::empty().filter(keep) =~= Seq::<WarningView>::empty());
    } else {
        lemma_suppression_items(file, items.drop_last());
        lemma_suppression(file, items.last());
        Seq::filter_distributes_over_add(
            warnings_in_items(file, items.drop_last(), true),
            warnings_in(file, items.last(), true),
            keep,
        );
    }
}

/// Suppressing the `tx.origin` warning in the values of object entries
/// drops the `tx.origin` warnings and keeps every other warning, in order.
pub proof fn lemma_suppression_fields(file: Seq<char>, fields: Seq<(Seq<char>, Json)>)
    ensures
        warnings_in_fields(file, fields, false) == without_tx_origin(warnings_in_fields(file, fields, true)),
    decreases fields,
{
    let keep = |warning: WarningView| warning.message != MESSAGE_TX_ORIGIN@;
    if fields.len() == 0 {
        assert(Seq::<WarningView>::empty().filter(keep) =~= Seq::<WarningView>::empty());
    } else {
        lemma_suppression_fields(file, fields.drop_last());
        lemma_suppression(file, fields.last().1);
        Seq::filter_distributes_over_add(
            warnings_in_fields(file, fields.drop_last(), true),
            warnings_in(file, fields.last().1, true),
            keep,
        );
    }
}

/// The contents of a sequence of warnings.
pub open spec fn views(warnings: Seq<Warning>) -> Seq<WarningView> {
    warnings.map_values(|w: Warning| w@)
}

/// The contents of warnings grow by one per pushed warning.
proof fn lemma_views_push(warnings: Seq<Warning>, warning: Warning)
    ensures
        views(warnings.push(warning)) == views(warnings).push(warning@),
{
    assert(views(warnings.push(warning)) =~= views(warnings).push(warning@));
}

/// The contract name and the AST that the `vyper -f ast` output holds, if
/// it holds both.
pub open spec fn ast_output(j: Json) -> Option<(Seq<char>, Json)> {
    match (j.get_str("contract_name"@), j.get("ast"@)) {
        (Some(name), Some(ast)) => Some((name, ast)),
        _ => None,
    }
}

/// Why a document is no `vyper -f ast` output: the first field lacking.
pub open spec fn ast_error(j: Json) -> Seq<char> {
    if j.get_str("contract_name"@) is None {
        "missing field `contract_name`"@
    } else {
        "missing field `ast`"@
    }
}

/// The Vyper contract AST.
#[derive(Debug)]
pub struct AST {
    /// The contract name.
    pub contract_name: String,
    /// The AST object.
    pub ast: JsonValue,
}

impl AST {
    /// A shortcut constructor.
    pub fn new(contract_name: String, ast: JsonValue) -> (r: Self)
        ensures
            r.contract_name@ == contract_name@,
            r.ast.model() == ast.model(),
    {
        Self { contract_name, ast }
    }

    /// Reads the `vyper -f ast` output: an object with the contract name
    /// and the AST.
    pub fn from_json(j: &JsonValue) -> (r: Result<Self, String>)
        ensures
            match r {
                Ok(ast) => ast_output(j.model()) == Some((ast.contract_name@, ast.ast.model())),
                Err(message) => ast_output(j.model()) is None && message@ == ast_error(j.model()),
            },
    {
        let contract_name = match j.get_str("contract_name") {
            Some(name) => name.clone(),
            None => return Err(String::from_str("missing field `contract_name`")),
        };
        let ast = match j.get("ast") {
            Some(ast) => ast.duplicate(),
            None => return Err(String::from_str("missing field `ast`")),
        };
        Ok(Self::new(contract_name, ast))
    }

    /// Whether an AST node has the string `expected` under `key`.
    fn has_text(node: &JsonValue, key: &str, expected: &str) -> (r: bool)
        ensures
            r == (node.model().get_str(key@) == Some(expected@)),
    {
        match node.get_str(key) {
            Some(text) => same_text(text.as_str(), expected),
            None => false,
        }
    }

    /// The warning with `message` issued at an AST node.
    fn warning(&self, node: &JsonValue, message: &str) -> (r: Warning)
        ensures
            r@ == warning_at(self.contract_name@, node.model(), message@),
    {
        let (line, column) = match self.location(node) {
            Some(location) => location,
            None => (0, 0),
        };
        Warning::new(self.contract_name.clone(), line, column, message.to_owned())
    }

    /// Checks the AST node for the `tx.origin` value usage.
    pub fn check_tx_origin(&self, node: &JsonValue) -> (r: Option<Warning>)
        ensures
            match r {
                Some(warning) => is_tx_origin(node.model()) && warning@ == warning_at(
                    self.contract_name@,
                    node.model(),
                    MESSAGE_TX_ORIGIN@,
                ),
                None => !is_tx_origin(node.model()),
            },
    {
        if !Self::has_text(node, "ast_type", "Attribute") || !Self::has_text(node, "attr", "origin") {
            return None;
        }
        let value = match node.get("value") {
            Some(value) => value,
            None => return None,
        };
        if !Self::has_text(value, "ast_type", "Name") || !Self::has_text(value, "id", "tx") {
            return None;
        }
        Some(self.warning(node, MESSAGE_TX_ORIGIN))
    }

    /// Checks the AST node for an `ecrecover` call.
    pub fn check_ecrecover(&self, node: &JsonValue) -> (r: Option<Warning>)
        ensures
            match r {
                Some(warning) => is_ecrecover(node.model()) && warning@ == warning_at(
                    self.contract_name@,
                    node.model(),
                    MESSAGE_ECRECOVER@,
                ),
                None => !is_ecrecover(node.model()),
            },
    {
        if !Self::has_text(node, "ast_type", "Call") {
            return None;
        }
        let function = match node.get("func") {
            Some(function) => function,
            None => return None,
        };
        if !Self::has_text(function, "ast_type", "Name") || !Self::has_text(
            function,
            "id",
            "ecrecover",
        ) {
            return None;
        }
        Some(self.warning(node, MESSAGE_ECRECOVER))
    }

    /// Checks the AST node for a test of whether an address holds code.
    pub fn check_extcodesize(&self, node: &JsonValue) -> (r: Option<Warning>)
        ensures
            match r {
                Some(warning) => is_extcodesize(node.model()) && warning@ == warning_at(
                    self.contract_name@,
                    node.model(),
                    MESSAGE_EXTCODESIZE@,
                ),
                None => !is_extcodesize(node.model()),
            },
    {
        if !Self::has_text(node, "ast_type", "Attribute") || !Self::has_text(
            node,
            "attr",
            "is_contract",
        ) {
            return None;
        }
        Some(self.warning(node, MESSAGE_EXTCODESIZE))
    }

    /// Returns the list of warnings for some specific parts of the AST.
    ///
    /// The `tx.origin` warning is left out where it is suppressed; the
    /// others cannot be suppressed.
    pub fn get_warnings(&self, ast: &JsonValue, suppressed_warnings: &[WarningType]) -> (r: Vec<
        Warning,
    >)
        ensures
            views(r@) == warnings_in(
                self.contract_name@,
                ast.model(),
                !suppressed_warnings@.contains(WarningType::TxOrigin),
            ),
    {
        let mut tx_origin = true;
        let mut i: usize = 0;
        while i < suppressed_warnings.len()
            invariant
                i <= suppressed_warnings.len(),
                tx_origin == forall|j: int| 0 <= j < i ==> suppressed_warnings@[j] != WarningType::TxOrigin,
            decreases suppressed_warnings.len() - i,
        {
            if suppressed_warnings[i] == WarningType::TxOrigin {
                tx_origin = false;
            }
            i = i + 1;
        }
        proof {
            if tx_origin {
                assert(!suppressed_warnings@.contains(WarningType::TxOrigin));
            } else {
                let j = choose|j: int| 0 <= j < i && suppressed_warnings@[j] == WarningType::TxOrigin;
                assert(suppressed_warnings@[j] == WarningType::TxOrigin);
            }
        }
        let mut warnings: Vec<Warning> = Vec::new();
        proof {
            assert(views(warnings@) =~= Seq::empty());
        }
        self.collect_warnings(ast, tx_origin, &mut warnings);
        proof {
            assert(Seq::<WarningView>::empty() + warnings_in(self.contract_name@, ast.model(), tx_origin)
                =~= warnings_in(self.contract_name@, ast.model(), tx_origin));
        }
        warnings
    }

    /// Appends the warnings issued at an AST node itself.
    fn collect_node_warnings(&self, node: &JsonValue, tx_origin: bool, warnings: &mut Vec<Warning>)
        ensures
            views(final(warnings)@) == views(old(warnings)@) + node_warnings(
                self.contract_name@,
                node.model(),
                tx_origin,
            ),
    {
        let ghost file = self.contract_name@;
        let ghost start = views(warnings@);
        if tx_origin {
            if let Some(warning) = self.check_tx_origin(node) {
                proof {
                    lemma_views_push(warnings@, warning);
                }
                warnings.push(warning);
            }
        }
        if let Some(warning) = self.check_ecrecover(node) {
            proof {
                lemma_views_push(warnings@, warning);
            }
            warnings.push(warning);
        }
        if let Some(warning) = self.check_extcodesize(node) {
            proof {
                lemma_views_push(warnings@, warning);
            }
            warnings.push(warning);
        }
        proof {
            assert(views(warnings@) =~= start + node_warnings(file, node.model(), tx_origin));
        }
    }

    /// Appends the warnings issued in an AST.
    #[verifier::loop_isolation(false)]
    fn collect_warnings(&self, node: &JsonValue, tx_origin: bool, warnings: &mut Vec<Warning>)
        ensures
            views(final(warnings)@) == views(old(warnings)@) + warnings_in(
                self.contract_name@,
                node.model(),
                tx_origin,
            ),
        decreases node,
    {
        let ghost file = self.contract_name@;
        let ghost start = views(warnings@);
        self.collect_node_warnings(node, tx_origin, warnings);
        let ghost own = views(warnings@);
        match node {
            JsonValue::Array(items) => {
                let mut i: usize = 0;
                while i < items.len()
                    invariant
                        i <= items.len(),
                        file == self.contract_name@,
                        views(warnings@) == own + warnings_in_items(
                            file,
                            JsonValue::model_items(items@.take(i as int)),
                            tx_origin,
                        ),
                    decreases items.len() - i,
                {
                    proof {
                        assert(decreases_to!(*items => items@));
                        assert(decreases_to!(items@ => items@[i as int]));
                    }
                    let ghost before = views(warnings@);
                    self.collect_warnings(&items[i], tx_origin, warnings);
                    proof {
                        JsonValue::lemma_model_items_push(items@.take(i as int), items@[i as int]);
                        assert(items@.take(i as int).push(items@[i as int]) =~= items@.take(i + 1));
                        let prefix = JsonValue::model_items(items@.take(i as int));
                        assert(prefix.push(items@[i as int].model()).drop_last() =~= prefix);
                        assert(views(warnings@) =~= own + warnings_in_items(
                            file,
                            JsonValue::model_items(items@.take(i + 1)),
                            tx_origin,
                        ));
                    }
                    i = i + 1;
                }
                proof {
                    assert(items@.take(items.len() as int) =~= items@);
                    assert(views(warnings@) =~= start + warnings_in(file, node.model(), tx_origin));
                }
            },
            JsonValue::Object(fields) => {
                let mut i: usize = 0;
                while i < fields.len()
                    invariant
                        i <= fields.len(),
                        file == self.contract_name@,
                        views(warnings@) == own + warnings_in_fields(
                            file,
                            JsonValue::model_fields(fields@.take(i as int)),
                            tx_origin,
                        ),
                    decreases fields.len() - i,
                {
                    proof {
                        assert(decreases_to!(*fields => fields@));
                        assert(decreases_to!(fields@ => fields@[i as int]));
                        assert(decreases_to!(fields@[i as int] => fields@[i as int].1));
                    }
                    self.collect_warnings(&fields[i].1, tx_origin, warnings);
                    proof {
                        JsonValue::lemma_model_fields_push(fields@.take(i as int), fields@[i as int]);
                        assert(fields@.take(i as int).push(fields@[i as int]) =~= fields@.take(i + 1));
                        let prefix = JsonValue::model_fields(fields@.take(i as int));
                        assert(prefix.push((fields@[i as int].0@, fields@[i as int].1.model())).drop_last()
                            =~= prefix);
                        assert(views(warnings@) =~= own + warnings_in_fields(
                            file,
                            JsonValue::model_fields(fields@.take(i + 1)),
                            tx_origin,
                        ));
                    }
                    i = i + 1;
                }
                proof {
                    assert(fields@.take(fields.len() as int) =~= fields@);
                    assert(views(warnings@) =~= start + warnings_in(file, node.model(), tx_origin));
                }
            },
            _ => {
                proof {
                    assert(views(warnings@) =~= start + warnings_in(file, node.model(), tx_origin));
                }
            },
        }
    }

    /// Returns the line and column an AST node starts at.
    pub fn location(&self, ast: &JsonValue) -> (r: Option<(usize, usize)>)
        ensures
            r == node_location(ast.model()),
    {
        let line = match ast.get_u64("lineno") {
            Some(line) => line,
            None => return None,
        };
        let column = match ast.get_u64("col_offset") {
            Some(column) => column,
            None => return None,
        };
        Some((line as usize, column as usize))
    }
}

} // verus!
