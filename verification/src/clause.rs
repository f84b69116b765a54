//! Building one clause: distinct variables drawn from the pool, all negated, and
//! at most one of them made positive again.

use crate::error::GenerateError;
use crate::formula::{
    clause_view, is_choice, is_clause, is_horn, lemma_no_positive_literal,
    lemma_one_positive_literal, positive_count, variable_of,
};
use crate::pool::VariablePool;
use crate::random::gen_index;
use rand::rngs::ThreadRng;
use vstd::prelude::*;

verus! {

/// The clause made of the picked variables: each of them negated, but for the
/// one at the promoted place, if there is one.
pub open spec fn assembled(picked: Seq<int>, promoted: Option<usize>) -> Seq<int> {
    Seq::new(
        picked.len(),
        |j: int|
            if promoted matches Some(at) && at == j {
                picked[j]
            } else {
                -picked[j]
            },
    )
}

/// Turns picked variables into a clause: negates each, then restores the one at
/// the promoted place.
pub fn assemble_clause(picked: Vec<i64>, promoted: Option<usize>) -> (clause: Vec<i64>)
    requires
        forall|j: int| 0 <= j < picked.len() ==> #[trigger] picked[j] > i64::MIN,
        promoted matches Some(at) ==> at < picked.len(),
    ensures
        clause.len() == picked.len(),
        clause_view(clause@) == assembled(clause_view(picked@), promoted),
{
    let ghost before = picked@;
    let mut clause = picked;
    let mut j: usize = 0;
    while j < clause.len()
        invariant
            j <= clause.len() == before.len(),
            forall|k: int| 0 <= k < before.len() ==> #[trigger] before[k] > i64::MIN,
            forall|k: int| 0 <= k < j ==> #[trigger] clause[k] == -before[k],
            forall|k: int| j <= k < clause.len() ==> #[trigger] clause[k] == before[k],
        decreases clause.len() - j,
    {
        let negated: i64 = -clause[j];
        clause.set(j, negated);
        j = j + 1;
    }
    if let Some(at) = promoted {
        let restored: i64 = -clause[at];
        clause.set(at, restored);
    }
    assert(clause_view(clause@) =~= assembled(clause_view(before), promoted));
    clause
}

/// Why a clause of `length` literals over `n_vars` variables cannot be built,
/// if it cannot.
pub open spec fn clause_error(n_vars: nat, length: nat, promote: bool) -> Option<GenerateError> {
    if length > n_vars {
        Some(GenerateError::InsufficientVariables)
    } else if length == 0 && promote {
        Some(GenerateError::DegenerateClauseLength)
    } else {
        None
    }
}

/// What holds of a clause that was built on request: it has the length asked
/// for, it is a Horn clause over the variables, and it has a positive literal
/// exactly if one was to be promoted.
pub open spec fn is_built_clause(clause: Seq<int>, n_vars: nat, length: nat, promote: bool) -> bool {
    &&& clause.len() == length
    &&& is_clause(clause, n_vars)
    &&& is_horn(clause)
    &&& positive_count(clause) == 1 <==> promote
}

/// A clause assembled from distinct variables is a clause over them, with one
/// positive literal where one was promoted and none otherwise.
pub proof fn lemma_assembled_clause(picked: Seq<int>, promoted: Option<usize>, n_vars: nat)
    requires
        is_choice(picked, n_vars),
        promoted matches Some(at) ==> at < picked.len(),
    ensures
        is_built_clause(assembled(picked, promoted), n_vars, picked.len(), promoted is Some),
{
    let clause = assembled(picked, promoted);
    assert forall|j: int| 0 <= j < clause.len() implies variable_of(clause[j]) == picked[j] by {}
    match promoted {
        Some(at) => {
            lemma_one_positive_literal(clause, at as int);
        },
        None => {
            lemma_no_positive_literal(clause);
        },
    }
}

/// Builds one clause of `length` literals: draws that many distinct variables
/// from the pool, negates them all and, if `promote` is set, makes one of them,
/// drawn at random, positive again.
///
/// Fails with `InsufficientVariables` where the pool is smaller than `length`,
/// and with `DegenerateClauseLength` where a literal of an empty clause was to
/// be promoted.
pub fn build_clause(rng: &mut ThreadRng, pool: &VariablePool, length: usize, promote: bool) -> (result:
    Result<Vec<i64>, GenerateError>)
    ensures
        match result {
            Ok(clause) => {
                &&& clause_error(pool.n_vars() as nat, length as nat, promote) is None
                &&& is_built_clause(clause_view(clause@), pool.n_vars() as nat, length as nat, promote)
            },
            Err(e) => clause_error(pool.n_vars() as nat, length as nat, promote) == Some(e),
        },
{
    if length > pool.n_vars() {
        return Err(GenerateError::InsufficientVariables);
    }
    if promote && length == 0 {
        return Err(GenerateError::DegenerateClauseLength);
    }
    let picked = pool.pick(rng, length);
    let promoted = if promote {
        Some(gen_index(rng, length))
    } else {
        None
    };
    proof {
        lemma_assembled_clause(clause_view(picked@), promoted, pool.n_vars() as nat);
        assert forall|j: int| 0 <= j < picked.len() implies #[trigger] picked[j] > i64::MIN by {
            assert(clause_view(picked@)[j] >= 1);
        }
    }
    Ok(assemble_clause(picked, promoted))
}

} // verus!
