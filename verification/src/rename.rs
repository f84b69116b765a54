//! Renaming: inverting the polarity of a set of variables throughout a formula.

use crate::error::GenerateError;
use crate::formula::{clause_view, formula_view, is_clause, variable_of};
use crate::pool::VariablePool;
use rand::rngs::ThreadRng;
use std::collections::BTreeSet;
use vstd::prelude::*;

verus! {

/// The variables that a set of stored variables holds.
pub open spec fn variable_set(stored: Set<i64>) -> Set<int> {
    Set::new(|v: int| i64::MIN <= v <= i64::MAX && stored.contains(v as i64))
}

/// A literal after renaming: inverted where its variable is renamed, itself
/// otherwise.
pub open spec fn renamed_literal(literal: int, renamed: Set<int>) -> int {
    if renamed.contains(variable_of(literal)) {
        -literal
    } else {
        literal
    }
}

/// A clause after renaming: each literal renamed in its place.
pub open spec fn renamed_clause(clause: Seq<int>, renamed: Set<int>) -> Seq<int> {
    Seq::new(clause.len(), |j: int| renamed_literal(clause[j], renamed))
}

/// A formula after renaming: each clause renamed in its place.
pub open spec fn renamed_formula(formula: Seq<Seq<int>>, renamed: Set<int>) -> Seq<Seq<int>> {
    Seq::new(formula.len(), |i: int| renamed_clause(formula[i], renamed))
}

/// A set of `count` variables among `1..=n_vars`.
pub open spec fn is_renamed_set(renamed: Set<int>, n_vars: nat, count: nat) -> bool {
    &&& renamed.finite()
    &&& renamed.len() == count
    &&& forall|v: int| renamed.contains(v) ==> 1 <= v <= n_vars
}

/// Renaming twice by the same set restores every literal of the formula.
pub proof fn lemma_rename_twice_restores(formula: Seq<Seq<int>>, renamed: Set<int>)
    ensures
        renamed_formula(renamed_formula(formula, renamed), renamed) == formula,
{
    let once = renamed_formula(formula, renamed);
    let twice = renamed_formula(once, renamed);
    assert forall|i: int| 0 <= i < formula.len() implies twice[i] == formula[i] by {
        lemma_rename_clause_twice_restores(formula[i], renamed);
    }
    assert(twice =~= formula);
}

/// Renaming twice by the same set restores every literal of the clause.
pub proof fn lemma_rename_clause_twice_restores(clause: Seq<int>, renamed: Set<int>)
    ensures
        renamed_clause(renamed_clause(clause, renamed), renamed) == clause,
{
    assert(renamed_clause(renamed_clause(clause, renamed), renamed) =~= clause);
}

/// Renaming keeps the shape of the formula, inverts each literal whose variable
/// is in the set, and leaves every other literal as it was.
pub proof fn lemma_rename_touches_only_renamed(formula: Seq<Seq<int>>, renamed: Set<int>)
    ensures
        renamed_formula(formula, renamed).len() == formula.len(),
        forall|i: int|
            0 <= i < formula.len() ==> (#[trigger] renamed_formula(formula, renamed)[i]).len()
                == formula[i].len(),
        forall|i: int, j: int|
            0 <= i < formula.len() && 0 <= j < formula[i].len() ==> #[trigger] renamed_formula(
                formula,
                renamed,
            )[i][j] == if renamed.contains(variable_of(formula[i][j])) {
                -formula[i][j]
            } else {
                formula[i][j]
            },
{
}

/// Renaming keeps a clause a clause: no literal changes its variable.
pub proof fn lemma_rename_keeps_clause(clause: Seq<int>, renamed: Set<int>, n_vars: nat)
    requires
        is_clause(clause, n_vars),
    ensures
        is_clause(renamed_clause(clause, renamed), n_vars),
{
    let after = renamed_clause(clause, renamed);
    assert forall|j: int| 0 <= j < after.len() implies variable_of(after[j]) == variable_of(
        clause[j],
    ) by {}
    assert forall|j: int, k: int| 0 <= j < k < after.len() implies variable_of(after[j])
        != variable_of(after[k]) by {
        assert(variable_of(clause[j]) != variable_of(clause[k]));
    }
}

/// Draws the set of `count` distinct variables to rename.
///
/// Fails with `InsufficientVariables` where the pool holds fewer than `count`.
pub fn choose_renamed(rng: &mut ThreadRng, pool: &VariablePool, count: usize) -> (result: Result<
    BTreeSet<i64>,
    GenerateError,
>)
    ensures
        match result {
            Ok(renamed) => count <= pool.n_vars() && is_renamed_set(
                variable_set(renamed@),
                pool.n_vars() as nat,
                count as nat,
            ),
            Err(e) => count > pool.n_vars() && e == GenerateError::InsufficientVariables,
        },
{
    if count > pool.n_vars() {
        return Err(GenerateError::InsufficientVariables);
    }
    let picked = pool.pick(rng, count);
    let ghost variables = clause_view(picked@);
    let mut renamed: BTreeSet<i64> = BTreeSet::new();
    let mut i: usize = 0;
    assert(variable_set(renamed@) =~= variables.take(0).to_set());
    while i < picked.len()
        invariant
            i <= picked.len(),
            variables == clause_view(picked@),
            variable_set(renamed@) == variables.take(i as int).to_set(),
        decreases picked.len() - i,
    {
        renamed.insert(picked[i]);
        proof {
            let seen = variables.take(i as int);
            assert(variables.take(i + 1) =~= seen.push(variables[i as int]));
            seen.lemma_push_to_set_commute(variables[i as int]);
            assert(variable_set(renamed@) =~= seen.to_set().insert(variables[i as int]));
        }
        i = i + 1;
    }
    proof {
        assert(variables.take(picked.len() as int) =~= variables);
        variables.unique_seq_to_set();
        vstd::seq_lib::seq_to_set_is_finite(variables);
        assert forall|v: int| variables.to_set().contains(v) implies 1 <= v <= pool.n_vars() by {
            let k = choose|k: int| 0 <= k < variables.len() && variables[k] == v;
            assert(1 <= variables[k] <= pool.n_vars());
        }
    }
    Ok(renamed)
}

/// Inverts, in one clause, every literal whose variable is in `renamed`.
pub fn rename_clause(clause: &mut Vec<i64>, renamed: &BTreeSet<i64>)
    ensures
        final(clause).len() == old(clause).len(),
        clause_view(final(clause)@) == renamed_clause(
            clause_view(old(clause)@),
            variable_set(renamed@),
        ),
{
    let mut j: usize = 0;
    while j < clause.len()
        invariant
            j <= clause.len() == old(clause).len(),
            forall|k: int|
                0 <= k < j ==> #[trigger] clause[k] as int == renamed_literal(
                    old(clause)[k] as int,
                    variable_set(renamed@),
                ),
            forall|k: int| j <= k < clause.len() ==> #[trigger] clause[k] == old(clause)[k],
        decreases clause.len() - j,
    {
        let literal: i64 = clause[j];
        // The magnitude of the least literal is no variable that can be stored.
        if literal != i64::MIN {
            let variable: i64 = if literal < 0 {
                -literal
            } else {
                literal
            };
            if renamed.contains(&variable) {
                clause[j] = -literal;
            }
        }
        j = j + 1;
    }
    assert(clause_view(clause@) =~= renamed_clause(
        clause_view(old(clause)@),
        variable_set(renamed@),
    ));
}

/// Inverts, throughout the formula, every literal whose variable is in
/// `renamed`. Every clause is visited once, and every literal in it once.
pub fn rename_formula(formula: &mut Vec<Vec<i64>>, renamed: &BTreeSet<i64>)
    ensures
        final(formula).len() == old(formula).len(),
        forall|i: int|
            0 <= i < old(formula).len() ==> (#[trigger] final(formula)[i]).len() == old(
                formula,
            )[i].len(),
        formula_view(final(formula)@) == renamed_formula(
            formula_view(old(formula)@),
            variable_set(renamed@),
        ),
{
    let mut i: usize = 0;
    while i < formula.len()
        invariant
            i <= formula.len() == old(formula).len(),
            forall|k: int|
                0 <= k < i ==> clause_view(#[trigger] formula[k]@) == renamed_clause(
                    clause_view(old(formula)[k]@),
                    variable_set(renamed@),
                ) && formula[k].len() == old(formula)[k].len(),
            forall|k: int| i <= k < formula.len() ==> #[trigger] formula[k] == old(formula)[k],
        decreases formula.len() - i,
    {
        rename_clause(&mut formula[i], renamed);
        i = i + 1;
    }
    assert(formula_view(formula@) =~= renamed_formula(
        formula_view(old(formula)@),
        variable_set(renamed@),
    ));
}

/// Whether `after` is `before` with some `count` of the variables `1..=n_vars`
/// renamed.
pub open spec fn is_renaming(
    before: Seq<Seq<int>>,
    after: Seq<Seq<int>>,
    n_vars: nat,
    count: nat,
) -> bool {
    exists|renamed: Set<int>|
        is_renamed_set(renamed, n_vars, count) && after == #[trigger] renamed_formula(
            before,
            renamed,
        )
}

/// Renames `rename_count` variables, drawn at random from the pool, throughout
/// the formula.
///
/// Fails with `InsufficientVariables`, and leaves the formula as it is, where
/// the pool holds fewer than `rename_count`.
pub fn rename(
    rng: &mut ThreadRng,
    formula: &mut Vec<Vec<i64>>,
    pool: &VariablePool,
    rename_count: usize,
) -> (result: Result<(), GenerateError>)
    ensures
        match result {
            Ok(_) => {
                &&& rename_count <= pool.n_vars()
                &&& is_renaming(
                    formula_view(old(formula)@),
                    formula_view(final(formula)@),
                    pool.n_vars() as nat,
                    rename_count as nat,
                )
            },
            Err(e) => {
                &&& rename_count > pool.n_vars()
                &&& e == GenerateError::InsufficientVariables
                &&& *final(formula) == *old(formula)
            },
        },
{
    match choose_renamed(rng, pool, rename_count) {
        Ok(renamed) => {
            rename_formula(formula, &renamed);
            assert(formula_view(formula@) == renamed_formula(
                formula_view(old(formula)@),
                variable_set(renamed@),
            ));
            Ok(())
        },
        Err(e) => Err(e),
    }
}

} // verus!
