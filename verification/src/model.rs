//! The mathematical model of RQL validation.
//!
//! A statement is scanned character by character into a sequence of operator
//! nodes ([`scan`]), every node is annotated with the number of nodes sitting
//! exactly one nesting level deeper ([`annotate`]), and each annotated node is
//! held against the arity rule of its operator class ([`node_ok`]).
//! [`rql_valid`] combines the three stages; it is what the executable
//! validator is proved to return.

use vstd::prelude::*;

verus! {

/// One operator node: the identifier before an opening parenthesis, the
/// literal content of its span when the span holds no further parentheses
/// (a leaf), and its 1-based nesting depth.
pub struct Node {
    pub name: Seq<char>,
    pub payload: Option<Seq<char>>,
    pub level: nat,
}

/// A node together with its nested quantity: the number of nodes anywhere in
/// the sequence whose level is exactly one greater. Leaves carry 0.
pub struct CountedNode {
    pub name: Seq<char>,
    pub payload: Option<Seq<char>>,
    pub level: nat,
    pub nested: nat,
}

/// The state of the extraction scan: the nodes produced so far, the
/// identifier characters seen since the last parenthesis, the span content
/// seen since the last opening parenthesis or payload attachment, and the
/// number of parentheses currently open.
pub struct ScanState {
    pub nodes: Seq<Node>,
    pub operator: Seq<char>,
    pub content: Seq<char>,
    pub level: nat,
}

pub open spec fn scan_init() -> ScanState {
    ScanState {
        nodes: Seq::empty(),
        operator: Seq::empty(),
        content: Seq::empty(),
        level: 0,
    }
}

/// One step of the extraction scan. `None` means the character was a closing
/// parenthesis with nothing open: the statement is rejected outright.
///
/// An opening parenthesis emits a node named by the identifier buffer; a
/// closing parenthesis attaches the accumulated content, when there is any,
/// as the payload of the most recently emitted node. A comma is kept out of
/// the identifier buffer, and content only accumulates once the first node
/// exists (the scan is inside parentheses).
pub open spec fn scan_step(st: ScanState, c: char) -> Option<ScanState> {
    if c == '(' {
        Some(ScanState {
            nodes: st.nodes.push(
                Node { name: st.operator, payload: None, level: (st.level + 1) as nat },
            ),
            operator: Seq::empty(),
            content: Seq::empty(),
            level: (st.level + 1) as nat,
        })
    } else if c == ')' {
        if st.level == 0 {
            None
        } else if st.content.len() == 0 {
            Some(ScanState {
                nodes: st.nodes,
                operator: Seq::empty(),
                content: st.content,
                level: (st.level - 1) as nat,
            })
        } else {
            let last = st.nodes[st.nodes.len() - 1];
            Some(ScanState {
                nodes: st.nodes.update(
                    st.nodes.len() - 1,
                    Node { name: last.name, payload: Some(st.content), level: last.level },
                ),
                operator: Seq::empty(),
                content: Seq::empty(),
                level: (st.level - 1) as nat,
            })
        }
    } else {
        Some(ScanState {
            nodes: st.nodes,
            operator: if c == ',' {
                st.operator
            } else {
                st.operator.push(c)
            },
            content: if st.nodes.len() > 0 {
                st.content.push(c)
            } else {
                st.content
            },
            level: st.level,
        })
    }
}

/// The extraction scan over a whole statement, from the left.
pub open spec fn scan(s: Seq<char>) -> Option<ScanState>
    decreases s.len(),
{
    if s.len() == 0 {
        Some(scan_init())
    } else {
        match scan(s.drop_last()) {
            Some(st) => scan_step(st, s.last()),
            None => None,
        }
    }
}

/// How many nodes of the sequence sit at nesting level `level`.
pub open spec fn level_count(nodes: Seq<Node>, level: int) -> nat
    decreases nodes.len(),
{
    if nodes.len() == 0 {
        0
    } else {
        level_count(nodes.drop_last(), level) + if nodes.last().level == level {
            1nat
        } else {
            0nat
        }
    }
}

/// The nested quantity of the node at position `i`: for an interior node the
/// count of nodes one level deeper anywhere in the sequence; 0 for a leaf.
///
/// Counting every node at depth `level + 1`, not only those inside this
/// node's own span, is a deliberate flat sibling-counting policy of the
/// validator, kept for compatibility; it is not subtree ownership.
pub open spec fn nested_quantity(nodes: Seq<Node>, i: int) -> nat {
    if nodes[i].payload is None {
        level_count(nodes, nodes[i].level as int + 1)
    } else {
        0
    }
}

/// The node sequence with every node annotated by its nested quantity.
pub open spec fn annotate(nodes: Seq<Node>) -> Seq<CountedNode> {
    Seq::new(
        nodes.len(),
        |i: int|
            CountedNode {
                name: nodes[i].name,
                payload: nodes[i].payload,
                level: nodes[i].level,
                nested: nested_quantity(nodes, i),
            },
    )
}

/// How many commas a payload holds.
pub open spec fn comma_count(s: Seq<char>) -> nat
    decreases s.len(),
{
    if s.len() == 0 {
        0
    } else {
        comma_count(s.drop_last()) + if s.last() == ',' {
            1nat
        } else {
            0nat
        }
    }
}

/// Unary-leaf operators take a single field token: a payload without a comma
/// and no nested parentheses.
pub open spec fn is_unary_leaf_name(name: Seq<char>) -> bool {
    ||| name == "exists"@
    ||| name == "eqf"@
    ||| name == "eqt"@
    ||| name == "eqn"@
    ||| name == "ie"@
}

/// Binary-leaf operators take exactly one comma-separated pair
/// "field,value" and no nested parentheses.
pub open spec fn is_binary_leaf_name(name: Seq<char>) -> bool {
    ||| name == "eq"@
    ||| name == "ne"@
    ||| name == "lt"@
    ||| name == "gt"@
    ||| name == "le"@
    ||| name == "ge"@
    ||| name == "like"@
}

/// List combinators take exactly one nested parentheses block.
pub open spec fn is_list_name(name: Seq<char>) -> bool {
    name == "in"@ || name == "out"@
}

/// The unary logical operator takes exactly one nested query.
pub open spec fn is_unary_logical_name(name: Seq<char>) -> bool {
    name == "not"@
}

/// N-ary logical operators take at least two nested queries.
pub open spec fn is_nary_logical_name(name: Seq<char>) -> bool {
    name == "and"@ || name == "or"@
}

/// The arity rule of a node's operator class. A name outside the fixed table
/// falls back to the rule for plain values: it must carry a payload and sit
/// nested inside some known structure (level greater than 1).
pub open spec fn node_ok(n: CountedNode) -> bool {
    if is_unary_leaf_name(n.name) {
        &&& n.nested == 0
        &&& n.payload matches Some(p) && comma_count(p) == 0
    } else if is_binary_leaf_name(n.name) {
        &&& n.nested == 0
        &&& n.payload matches Some(p) && comma_count(p) == 1
    } else if is_list_name(n.name) || is_unary_logical_name(n.name) {
        n.nested == 1
    } else if is_nary_logical_name(n.name) {
        n.nested >= 2
    } else {
        n.payload is Some && n.level > 1
    }
}

/// Every node of the sequence satisfies its arity rule.
pub open spec fn nodes_ok(nodes: Seq<CountedNode>) -> bool {
    forall|i: int| 0 <= i < nodes.len() ==> node_ok(#[trigger] nodes[i])
}

/// A statement is valid when the scan succeeds, no parenthesis is left open,
/// and every extracted node, annotated with its nested quantity, satisfies
/// its arity rule.
pub open spec fn rql_valid(s: Seq<char>) -> bool {
    match scan(s) {
        Some(st) => st.level == 0 && nodes_ok(annotate(st.nodes)),
        None => false,
    }
}

/// How many opening parentheses the statement holds.
pub open spec fn open_count(s: Seq<char>) -> nat
    decreases s.len(),
{
    if s.len() == 0 {
        0
    } else {
        open_count(s.drop_last()) + if s.last() == '(' {
            1nat
        } else {
            0nat
        }
    }
}

/// How many closing parentheses the statement holds.
pub open spec fn close_count(s: Seq<char>) -> nat
    decreases s.len(),
{
    if s.len() == 0 {
        0
    } else {
        close_count(s.drop_last()) + if s.last() == ')' {
            1nat
        } else {
            0nat
        }
    }
}

/// Stack discipline for the single recognized delimiter pair: no prefix
/// closes more parentheses than it opens, and the whole statement closes as
/// many as it opens.
pub open spec fn parens_balanced(s: Seq<char>) -> bool {
    &&& forall|i: int|
        0 <= i <= s.len() ==> #[trigger] close_count(s.take(i)) <= open_count(s.take(i))
    &&& close_count(s) == open_count(s)
}

/// Once the scan has rejected a prefix, it rejects the whole statement.
pub proof fn lemma_scan_none_prefix(s: Seq<char>, i: int)
    requires
        0 <= i <= s.len(),
        scan(s.take(i)) is None,
    ensures
        scan(s) is None,
    decreases s.len() - i,
{
    if i == s.len() {
        assert(s.take(i) =~= s);
    } else {
        assert(s.take(i + 1).drop_last() =~= s.take(i));
        lemma_scan_none_prefix(s, i + 1);
    }
}

/// A successful scan keeps the level equal to the surplus of opening over
/// closing parentheses; in particular no prefix it accepts closes more than
/// it opens.
pub proof fn lemma_scan_level(s: Seq<char>)
    requires
        scan(s) is Some,
    ensures
        close_count(s) <= open_count(s),
        scan(s)->0.level == open_count(s) - close_count(s),
    decreases s.len(),
{
    if s.len() != 0 {
        lemma_scan_level(s.drop_last());
    }
}

/// The scan accepts every statement none of whose prefixes closes more
/// parentheses than it opens.
proof fn lemma_prefix_ok_scan_some(s: Seq<char>)
    requires
        forall|i: int|
            0 <= i <= s.len() ==> #[trigger] close_count(s.take(i)) <= open_count(s.take(i)),
    ensures
        scan(s) is Some,
    decreases s.len(),
{
    if s.len() != 0 {
        let t = s.drop_last();
        assert forall|i: int| 0 <= i <= t.len() implies #[trigger] close_count(t.take(i))
            <= open_count(t.take(i)) by {
            assert(t.take(i) =~= s.take(i));
        }
        lemma_prefix_ok_scan_some(t);
        lemma_scan_level(t);
        if s.last() == ')' {
            assert(s.take(s.len() as int) =~= s);
            assert(close_count(s) <= open_count(s));
        }
    }
}

/// Extraction succeeds with no parenthesis left open exactly on a balanced
/// statement.
pub proof fn lemma_balanced_iff_extraction_ok(s: Seq<char>)
    ensures
        parens_balanced(s) <==> (scan(s) matches Some(st) && st.level == 0),
{
    if parens_balanced(s) {
        lemma_prefix_ok_scan_some(s);
        lemma_scan_level(s);
    }
    if scan(s) matches Some(st) && st.level == 0 {
        assert forall|i: int| 0 <= i <= s.len() implies #[trigger] close_count(s.take(i))
            <= open_count(s.take(i)) by {
            if scan(s.take(i)) is None {
                lemma_scan_none_prefix(s, i);
            }
            lemma_scan_level(s.take(i));
        }
        lemma_scan_level(s);
    }
}

/// The model of one extracted exec node.
pub open spec fn node_of(t: (String, Option<String>, usize)) -> Node {
    Node {
        name: t.0@,
        payload: match t.1 {
            Some(p) => Some(p@),
            None => None,
        },
        level: t.2 as nat,
    }
}

/// The model of a sequence of extracted exec nodes.
pub open spec fn nodes_of(ts: Seq<(String, Option<String>, usize)>) -> Seq<Node> {
    Seq::new(ts.len(), |i: int| node_of(ts[i]))
}

/// The model of one annotated exec node.
pub open spec fn counted_node_of(t: (String, Option<String>, usize, usize)) -> CountedNode {
    CountedNode {
        name: t.0@,
        payload: match t.1 {
            Some(p) => Some(p@),
            None => None,
        },
        level: t.2 as nat,
        nested: t.3 as nat,
    }
}

/// The model of a sequence of annotated exec nodes.
pub open spec fn counted_nodes_of(ts: Seq<(String, Option<String>, usize, usize)>) -> Seq<
    CountedNode,
> {
    Seq::new(ts.len(), |i: int| counted_node_of(ts[i]))
}

} // verus!
