//! The mathematical model: literals as integers, clauses as sequences of
//! literals, formulas as sequences of clauses.

use vstd::prelude::*;

verus! {

/// The variable that a literal speaks of: its magnitude.
pub open spec fn variable_of(literal: int) -> int {
    if literal < 0 {
        -literal
    } else {
        literal
    }
}

/// The literals of a stored clause.
pub open spec fn clause_view(clause: Seq<i64>) -> Seq<int> {
    Seq::new(clause.len(), |j: int| clause[j] as int)
}

/// The clauses of a stored formula.
pub open spec fn formula_view(formula: Seq<Vec<i64>>) -> Seq<Seq<int>> {
    Seq::new(formula.len(), |i: int| clause_view(formula[i]@))
}

/// A clause over the variables `1..=n_vars`: every literal speaks of one of
/// them, and no two literals speak of the same one.
pub open spec fn is_clause(clause: Seq<int>, n_vars: nat) -> bool {
    &&& forall|j: int| 0 <= j < clause.len() ==> 1 <= #[trigger] variable_of(clause[j]) <= n_vars
    &&& forall|j: int, k: int|
        0 <= j < k < clause.len() ==> #[trigger] variable_of(clause[j]) != #[trigger] variable_of(
            clause[k],
        )
}

/// Distinct variables among `1..=n_vars`, as a draw without replacement yields
/// them.
pub open spec fn is_choice(variables: Seq<int>, n_vars: nat) -> bool {
    &&& forall|j: int| 0 <= j < variables.len() ==> 1 <= #[trigger] variables[j] <= n_vars
    &&& variables.no_duplicates()
}

/// How many literals of the clause are positive.
pub open spec fn positive_count(clause: Seq<int>) -> nat
    decreases clause.len(),
{
    if clause.len() == 0 {
        0
    } else {
        positive_count(clause.drop_last()) + if clause.last() > 0 {
            1nat
        } else {
            0nat
        }
    }
}

/// A Horn clause has at most one positive literal.
pub open spec fn is_horn(clause: Seq<int>) -> bool {
    positive_count(clause) <= 1
}

/// A formula over the variables `1..=n_vars`: each of its clauses is one.
pub open spec fn is_formula(formula: Seq<Seq<int>>, n_vars: nat) -> bool {
    forall|i: int| 0 <= i < formula.len() ==> is_clause(#[trigger] formula[i], n_vars)
}

/// A clause without a positive literal counts none.
pub proof fn lemma_no_positive_literal(clause: Seq<int>)
    requires
        forall|j: int| 0 <= j < clause.len() ==> clause[j] <= 0,
    ensures
        positive_count(clause) == 0,
    decreases clause.len(),
{
    if clause.len() > 0 {
        lemma_no_positive_literal(clause.drop_last());
    }
}

/// A clause whose only positive literal stands at `at` counts one.
pub proof fn lemma_one_positive_literal(clause: Seq<int>, at: int)
    requires
        0 <= at < clause.len(),
        clause[at] > 0,
        forall|j: int| 0 <= j < clause.len() && j != at ==> clause[j] <= 0,
    ensures
        positive_count(clause) == 1,
    decreases clause.len(),
{
    if at == clause.len() - 1 {
        lemma_no_positive_literal(clause.drop_last());
    } else {
        lemma_one_positive_literal(clause.drop_last(), at);
    }
}

} // verus!
