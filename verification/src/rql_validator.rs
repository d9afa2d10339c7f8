//! The RQL validator: extraction of operator nodes, nested-quantity
//! annotation, and the grammar check, each proved against the model.

use vstd::prelude::*;
use crate::interfaces::validator_interface::ValidatorInterface;
use crate::model::{
    annotate, counted_nodes_of, lemma_balanced_iff_extraction_ok, lemma_scan_none_prefix,
    level_count, node_ok, nodes_of, nodes_ok, node_of, parens_balanced, scan, Node, ScanState,
};
use crate::text::{compose_message, count_commas, push_char, str_eq};

verus! {

/// A sink either is absent or accepts every message handed to it.
pub open spec fn sink_accepts_all<F: Fn(String)>(sink: Option<F>) -> bool {
    sink is Some ==> forall|message: String| #[trigger] call_requires(sink->0, (message,))
}

/// Validates RQL statements. An optional diagnostic sink, registered at
/// construction, is handed a human-readable sentence on the first rule
/// violation of a failing validation.
pub struct RqlValidator<F: Fn(String)> {
    verbosity_manager: Option<F>,
}

impl<F: Fn(String)> RqlValidator<F> {
    #[verifier::type_invariant]
    spec fn wf(self) -> bool {
        sink_accepts_all(self.verbosity_manager)
    }

    /// The diagnostic sink this validator was constructed with.
    pub closed spec fn sink(&self) -> Option<F> {
        self.verbosity_manager
    }

    /// A validator that reports diagnostics to the given sink, or silently
    /// returns booleans when none is given.
    pub fn new(verbosity_manager: Option<F>) -> (validator: Self)
        requires
            sink_accepts_all(verbosity_manager),
        ensures
            validator.sink() == verbosity_manager,
    {
        Self { verbosity_manager }
    }

    /// Extracts the sequence of operator nodes of the statement: for every
    /// parenthesized span, the identifier before it, its literal content when
    /// the span nests no further parentheses, and its nesting depth. Fails
    /// exactly when the parentheses do not balance, with the offending side
    /// named in the message.
    pub fn get_operators(&self, rql_statement: String) -> (result: Result<
        Vec<(String, Option<String>, usize)>,
        String,
    >)
        ensures
            result is Ok <==> parens_balanced(rql_statement@),
            match result {
                Ok(operators) => scan(rql_statement@) matches Some(st) && st.level == 0
                    && nodes_of(operators@) == st.nodes,
                Err(message) => match scan(rql_statement@) {
                    Some(st) => st.level > 0 && message@ == "Invalid opening parentheses count"@,
                    None => message@ == "Invalid closing parentheses count"@,
                },
            },
    {
        let text = rql_statement.as_str();
        let n: usize = text.unicode_len();

        let mut result: Vec<(String, Option<String>, usize)> = Vec::new();
        let mut operator = String::new();
        let mut operator_content = String::new();
        let mut level: usize = 0;

        proof {
            assert(text@.take(0) =~= Seq::<char>::empty());
            assert(nodes_of(result@) =~= Seq::<Node>::empty());
        }
        let mut i: usize = 0;
        while i < n
            invariant
                n == text@.len(),
                text@ == rql_statement@,
                i <= n,
                level <= i,
                operator_content@.len() > 0 ==> result@.len() > 0,
                scan(text@.take(i as int)) == Some(
                    ScanState {
                        nodes: nodes_of(result@),
                        operator: operator@,
                        content: operator_content@,
                        level: level as nat,
                    },
                ),
            decreases n - i,
        {
            let c = text.get_char(i);
            proof {
                assert(text@.take(i + 1).drop_last() =~= text@.take(i as int));
                assert(text@.take(i + 1).last() == c);
            }
            let ghost prev_nodes = nodes_of(result@);

            if c == '(' {
                level = level + 1;
                result.push((operator, None, level));
                operator = String::new();
                operator_content = String::new();
                proof {
                    assert(nodes_of(result@) =~= prev_nodes.push(node_of(result@.last())));
                }
            } else if c == ')' {
                if level == 0 {
                    proof {
                        lemma_scan_none_prefix(text@, i + 1);
                        lemma_balanced_iff_extraction_ok(text@);
                    }
                    return Err("Invalid closing parentheses count".to_owned());
                }
                level = level - 1;
                operator = String::new();
                if !operator_content.as_str().is_empty() {
                    let last = result.pop().unwrap();
                    result.push((last.0, Some(operator_content), last.2));
                    operator_content = String::new();
                    proof {
                        assert(nodes_of(result@) =~= prev_nodes.update(
                            prev_nodes.len() - 1,
                            node_of(result@.last()),
                        ));
                    }
                }
            } else {
                if c != ',' {
                    push_char(&mut operator, c);
                }
                if result.len() > 0 {
                    push_char(&mut operator_content, c);
                }
            }
            i = i + 1;
        }

        proof {
            assert(text@.take(n as int) =~= text@);
            lemma_balanced_iff_extraction_ok(text@);
        }
        if level != 0 {
            return Err("Invalid opening parentheses count".to_owned());
        }
        Ok(result)
    }

    /// Annotates every node with its nested quantity: for an interior node
    /// (no payload) the count of nodes anywhere in the sequence whose level
    /// is exactly one greater, and 0 for a leaf.
    pub fn add_nested_nodes_quantity(
        &self,
        operators: Vec<(String, Option<String>, usize)>,
    ) -> (result: Vec<(String, Option<String>, usize, usize)>)
        ensures
            counted_nodes_of(result@) == annotate(nodes_of(operators@)),
    {
        let ghost nodes = nodes_of(operators@);
        let mut result: Vec<(String, Option<String>, usize, usize)> = Vec::new();
        let mut i: usize = 0;
        while i < operators.len()
            invariant
                nodes == nodes_of(operators@),
                i <= operators.len(),
                result@.len() == i,
                forall|k: int|
                    0 <= k < i ==> counted_nodes_of(result@)[k] == annotate(nodes)[k],
            decreases operators.len() - i,
        {
            let x = &operators[i];
            let mut count_nested: usize = 0;
            if x.1.is_none() {
                let mut j: usize = 0;
                while j < operators.len()
                    invariant
                        nodes == nodes_of(operators@),
                        j <= operators.len(),
                        i < operators.len(),
                        x == operators@[i as int],
                        count_nested <= j,
                        count_nested == level_count(nodes.take(j as int), x.2 as int + 1),
                    decreases operators.len() - j,
                {
                    proof {
                        assert(nodes.take(j + 1).drop_last() =~= nodes.take(j as int));
                    }
                    let candidate_level: usize = operators[j].2;
                    if candidate_level > 0 && x.2 == candidate_level - 1 {
                        count_nested = count_nested + 1;
                    }
                    j = j + 1;
                }
                proof {
                    assert(nodes.take(operators@.len() as int) =~= nodes);
                }
            }
            let payload = match &x.1 {
                Some(value) => Some(value.clone()),
                None => None,
            };
            result.push((x.0.clone(), payload, x.2, count_nested));
            i = i + 1;
        }
        proof {
            assert(counted_nodes_of(result@) =~= annotate(nodes));
        }
        result
    }

    /// Checks every annotated node against the arity rule of its operator
    /// class, in extraction order. On the first violating node the diagnostic
    /// sink, when set, is handed a sentence naming the operator and the rule,
    /// and the walk stops.
    pub fn is_operators_valid(
        &self,
        operators: Vec<(String, Option<String>, usize, usize)>,
    ) -> (result: bool)
        ensures
            result == nodes_ok(counted_nodes_of(operators@)),
    {
        let ghost counted = counted_nodes_of(operators@);
        let mut i: usize = 0;
        while i < operators.len()
            invariant
                counted == counted_nodes_of(operators@),
                i <= operators.len(),
                forall|k: int| 0 <= k < i ==> node_ok(#[trigger] counted[k]),
            decreases operators.len() - i,
        {
            let x = &operators[i];
            let node = x.0.as_str();

            if str_eq(node, "exists") || str_eq(node, "eqf") || str_eq(node, "eqt") || str_eq(
                node,
                "eqn",
            ) || str_eq(node, "ie") {
                let payload_ok = match &x.1 {
                    Some(value) => count_commas(value.as_str()) == 0,
                    None => false,
                };
                if !(x.3 == 0 && payload_ok) {
                    self.process_error_message(
                        compose_message(
                            "Operator `",
                            node,
                            "` should not contain nested parentheses, must have a property, the property should not contain a comma",
                        ),
                    );
                    proof {
                        assert(!node_ok(counted[i as int]));
                    }
                    return false;
                }
            } else if str_eq(node, "eq") || str_eq(node, "ne") || str_eq(node, "lt") || str_eq(
                node,
                "gt",
            ) || str_eq(node, "le") || str_eq(node, "ge") {
                let payload_ok = match &x.1 {
                    Some(value) => count_commas(value.as_str()) == 1,
                    None => false,
                };
                if !(x.3 == 0 && payload_ok) {
                    self.process_error_message(
                        compose_message(
                            "Operator `",
                            node,
                            "` should not contain nested parentheses, must have a property and a value",
                        ),
                    );
                    proof {
                        assert(!node_ok(counted[i as int]));
                    }
                    return false;
                }
            } else if str_eq(node, "like") {
                let payload_ok = match &x.1 {
                    Some(value) => count_commas(value.as_str()) == 1,
                    None => false,
                };
                if !(x.3 == 0 && payload_ok) {
                    self.process_error_message(
                        compose_message(
                            "Operator `",
                            node,
                            "` should not contain nested parentheses, must have a property and a pattern",
                        ),
                    );
                    proof {
                        assert(!node_ok(counted[i as int]));
                    }
                    return false;
                }
            } else if str_eq(node, "in") || str_eq(node, "out") {
                if x.3 != 1 {
                    self.process_error_message(
                        compose_message(
                            "Operator `",
                            node,
                            "` should have 1 nested parentheses block",
                        ),
                    );
                    proof {
                        assert(!node_ok(counted[i as int]));
                    }
                    return false;
                }
            } else if str_eq(node, "not") {
                if x.3 != 1 {
                    self.process_error_message(
                        compose_message("Operator `", node, "` should have 1 nested query"),
                    );
                    proof {
                        assert(!node_ok(counted[i as int]));
                    }
                    return false;
                }
            } else if str_eq(node, "and") || str_eq(node, "or") {
                if x.3 <= 1 {
                    self.process_error_message(
                        compose_message(
                            "Operator `",
                            node,
                            "` should have at least 2 nested queries",
                        ),
                    );
                    proof {
                        assert(!node_ok(counted[i as int]));
                    }
                    return false;
                }
            } else {
                if !(x.1.is_some() && x.2 > 1) {
                    self.process_error_message(
                        compose_message("Block `", node, "` should have a value and be nested"),
                    );
                    proof {
                        assert(!node_ok(counted[i as int]));
                    }
                    return false;
                }
            }
            proof {
                assert(node_ok(counted[i as int]));
            }
            i = i + 1;
        }
        true
    }

    /// Hands the message to the diagnostic sink, when one is set.
    pub fn process_error_message(&self, message: String) {
        proof {
            use_type_invariant(self);
        }
        match &self.verbosity_manager {
            Some(callback) => callback(message),
            None => (),
        }
    }
}

impl<F: Fn(String)> ValidatorInterface for RqlValidator<F> {
    fn is_valid(&self, data: String) -> (result: bool) {
        let operators = match self.get_operators(data) {
            Ok(operators) => operators,
            Err(error_message) => {
                self.process_error_message(error_message);
                return false;
            },
        };
        self.is_operators_valid(self.add_nested_nodes_quantity(operators))
    }
}

} // verus!
