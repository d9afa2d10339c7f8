//! Library-wide laws of the validator, proved from the model.

use vstd::prelude::*;
use crate::model::{
    annotate, lemma_balanced_iff_extraction_ok, parens_balanced, rql_valid, scan, Node,
};

verus! {

/// The scan of a statement without parentheses succeeds with no nodes and no
/// open parentheses.
proof fn lemma_scan_no_parens(s: Seq<char>)
    requires
        forall|i: int| 0 <= i < s.len() ==> (#[trigger] s[i]) != '(' && s[i] != ')',
    ensures
        scan(s) is Some,
        scan(s)->0.nodes == Seq::<Node>::empty(),
        scan(s)->0.level == 0,
    decreases s.len(),
{
    if s.len() == 0 {
        assert(scan(s)->0.nodes =~= Seq::<Node>::empty());
    } else {
        let t = s.drop_last();
        assert(forall|i: int| 0 <= i < t.len() ==> t[i] == #[trigger] s[i]);
        lemma_scan_no_parens(t);
    }
}

/// A statement whose parentheses do not balance is never valid.
pub proof fn lemma_unbalanced_not_valid(s: Seq<char>)
    requires
        !parens_balanced(s),
    ensures
        !rql_valid(s),
{
    lemma_balanced_iff_extraction_ok(s);
}

/// A statement without a single parenthesis is always valid: it extracts no
/// operator node, so no arity rule can be violated.
pub proof fn lemma_no_parens_valid(s: Seq<char>)
    requires
        forall|i: int| 0 <= i < s.len() ==> (#[trigger] s[i]) != '(' && s[i] != ')',
    ensures
        rql_valid(s),
{
    lemma_scan_no_parens(s);
    assert(annotate(scan(s)->0.nodes).len() == 0);
}

/// Validation is a pure function of the input: any two results of validating
/// the same statement agree.
pub proof fn lemma_validate_deterministic(s: Seq<char>, first: bool, second: bool)
    requires
        first == rql_valid(s),
        second == rql_valid(s),
    ensures
        first == second,
{
}

} // verus!
