//! Generation of a whole formula: one Horn clause per draw, then the renaming
//! of a random set of variables.

use crate::clause::{build_clause, clause_error, is_built_clause};
use crate::error::GenerateError;
use crate::formula::{clause_view, formula_view, is_clause, is_formula, variable_of};
use crate::length::{clamp_length, clamped_length};
use crate::pool::VariablePool;
use crate::rename::{
    is_renamed_set, lemma_rename_keeps_clause, lemma_rename_twice_restores, rename,
    renamed_formula,
};
use rand::rngs::ThreadRng;
use rand::thread_rng;
use vstd::prelude::*;

verus! {

/// What was sampled for one clause. Both come from real-valued distributions
/// that the caller samples: the length from a power law over the bounds, the
/// choice from the probability that a clause stays without a positive literal.
#[derive(Clone, Copy, Debug, PartialEq, Eq)]
pub struct ClauseDraw {
    /// The sampled clause length, truncated to a whole number.
    pub length: usize,
    /// Whether one literal of the clause is made positive.
    pub promote: bool,
}

/// Why the clause of one draw cannot be built, if it cannot.
pub open spec fn draw_error(n_vars: nat, low: nat, high: nat, draw: ClauseDraw) -> Option<
    GenerateError,
> {
    clause_error(n_vars, clamped_length(draw.length as nat, low, high), draw.promote)
}

/// The error of the first draw whose clause cannot be built, if there is one.
pub open spec fn first_draw_error(n_vars: nat, low: nat, high: nat, draws: Seq<ClauseDraw>) -> Option<
    GenerateError,
>
    decreases draws.len(),
{
    if draws.len() == 0 {
        None
    } else {
        match first_draw_error(n_vars, low, high, draws.drop_last()) {
            Some(e) => Some(e),
            None => draw_error(n_vars, low, high, draws.last()),
        }
    }
}

/// Why no formula can be built from the draws, if none can: the bounds on the
/// length are out of order, or some clause cannot be built.
pub open spec fn formula_error(n_vars: nat, low: nat, high: nat, draws: Seq<ClauseDraw>) -> Option<
    GenerateError,
> {
    if low > high {
        Some(GenerateError::InvalidDistributionParameters)
    } else {
        first_draw_error(n_vars, low, high, draws)
    }
}

/// Why a request is refused, if it is: no formula can be built, or more
/// variables are to be renamed than there are.
pub open spec fn request_error(
    n_vars: nat,
    low: nat,
    high: nat,
    draws: Seq<ClauseDraw>,
    rename_count: nat,
) -> Option<GenerateError> {
    match formula_error(n_vars, low, high, draws) {
        Some(e) => Some(e),
        None => if rename_count > n_vars {
            Some(GenerateError::InsufficientVariables)
        } else {
            None
        },
    }
}

/// A formula as it stands before renaming: one clause for each draw, in order,
/// built to the clamped length of the draw, with a positive literal exactly
/// where the draw promotes one.
pub open spec fn is_built_formula(
    formula: Seq<Seq<int>>,
    n_vars: nat,
    low: nat,
    high: nat,
    draws: Seq<ClauseDraw>,
) -> bool {
    &&& formula.len() == draws.len()
    &&& forall|i: int|
        0 <= i < formula.len() ==> {
            &&& is_built_clause(
                #[trigger] formula[i],
                n_vars,
                clamped_length(draws[i].length as nat, low, high),
                draws[i].promote,
            )
            &&& low <= formula[i].len() <= high
        }
}

/// A generated formula: one clause over the variables for each draw, of the
/// clamped length of the draw, such that renaming some `rename_count` variables
/// turns it into a formula built from the draws.
pub open spec fn is_generated(
    formula: Seq<Seq<int>>,
    n_vars: nat,
    low: nat,
    high: nat,
    draws: Seq<ClauseDraw>,
    rename_count: nat,
) -> bool {
    &&& formula.len() == draws.len()
    &&& is_formula(formula, n_vars)
    &&& forall|i: int|
        0 <= i < formula.len() ==> {
            &&& (#[trigger] formula[i]).len() == clamped_length(draws[i].length as nat, low, high)
            &&& low <= formula[i].len() <= high
        }
    &&& exists|renamed: Set<int>|
        {
            &&& is_renamed_set(renamed, n_vars, rename_count)
            &&& is_built_formula(
                #[trigger] renamed_formula(formula, renamed),
                n_vars,
                low,
                high,
                draws,
            )
        }
}

/// The first error among some leading draws is the first error among them all.
pub proof fn lemma_first_draw_error_stays(
    n_vars: nat,
    low: nat,
    high: nat,
    draws: Seq<ClauseDraw>,
    upto: int,
)
    requires
        0 <= upto <= draws.len(),
        first_draw_error(n_vars, low, high, draws.take(upto)) is Some,
    ensures
        first_draw_error(n_vars, low, high, draws) == first_draw_error(
            n_vars,
            low,
            high,
            draws.take(upto),
        ),
    decreases draws.len() - upto,
{
    if upto == draws.len() {
        assert(draws.take(upto) =~= draws);
    } else {
        assert(draws.drop_last().take(upto) =~= draws.take(upto));
        lemma_first_draw_error_stays(n_vars, low, high, draws.drop_last(), upto);
    }
}

/// Renaming `rename_count` variables of a formula built from the draws gives a
/// generated formula: the clauses keep their lengths and their variables, and
/// the same renaming leads back.
pub proof fn lemma_renamed_built_formula_is_generated(
    built: Seq<Seq<int>>,
    renamed: Set<int>,
    n_vars: nat,
    low: nat,
    high: nat,
    draws: Seq<ClauseDraw>,
    rename_count: nat,
)
    requires
        low <= high,
        is_built_formula(built, n_vars, low, high, draws),
        is_renamed_set(renamed, n_vars, rename_count),
    ensures
        is_generated(renamed_formula(built, renamed), n_vars, low, high, draws, rename_count),
{
    let formula = renamed_formula(built, renamed);
    assert forall|i: int| 0 <= i < formula.len() implies is_clause(#[trigger] formula[i], n_vars) by {
        lemma_rename_keeps_clause(built[i], renamed, n_vars);
    }
    assert forall|i: int| 0 <= i < formula.len() implies {
        &&& (#[trigger] formula[i]).len() == clamped_length(draws[i].length as nat, low, high)
        &&& low <= formula[i].len() <= high
    } by {
        assert(formula[i].len() == built[i].len());
    }
    lemma_rename_twice_restores(built, renamed);
}

/// Where no clause is asked for, a request is served exactly if the bounds are
/// in order and no more variables are renamed than there are; the formula is
/// then empty.
pub proof fn lemma_no_clauses(
    formula: Seq<Seq<int>>,
    n_vars: nat,
    low: nat,
    high: nat,
    rename_count: nat,
)
    ensures
        request_error(n_vars, low, high, Seq::<ClauseDraw>::empty(), rename_count) is None <==> low
            <= high && rename_count <= n_vars,
        is_generated(formula, n_vars, low, high, Seq::<ClauseDraw>::empty(), rename_count)
            ==> formula.len() == 0,
{
}

/// Where there is no variable, no clause can be built but the empty one, and
/// that only where no literal of it is to be promoted.
pub proof fn lemma_no_variables_draws(low: nat, high: nat, draws: Seq<ClauseDraw>)
    ensures
        first_draw_error(0, low, high, draws) is None <==> forall|i: int|
            0 <= i < draws.len() ==> clamped_length((#[trigger] draws[i]).length as nat, low, high)
                == 0 && !draws[i].promote,
    decreases draws.len(),
{
    if draws.len() > 0 {
        let front = draws.drop_last();
        lemma_no_variables_draws(low, high, front);
        if first_draw_error(0, low, high, draws) is None {
            assert forall|i: int| 0 <= i < draws.len() implies clamped_length(
                (#[trigger] draws[i]).length as nat,
                low,
                high,
            ) == 0 && !draws[i].promote by {
                if i < front.len() {
                    assert(front[i] == draws[i]);
                }
            }
        } else if first_draw_error(0, low, high, front) is Some {
            let i = choose|i: int|
                0 <= i < front.len() && !(clamped_length(
                    (#[trigger] front[i]).length as nat,
                    low,
                    high,
                ) == 0 && !front[i].promote);
            assert(front[i] == draws[i]);
        }
    }
}

/// Where there is no variable, a request is served exactly if the bounds are in
/// order, every clause is empty with no literal to promote, and no variable is
/// renamed; every clause of the formula is then empty.
pub proof fn lemma_no_variables(
    formula: Seq<Seq<int>>,
    low: nat,
    high: nat,
    draws: Seq<ClauseDraw>,
    rename_count: nat,
)
    ensures
        request_error(0, low, high, draws, rename_count) is None <==> {
            &&& low <= high
            &&& rename_count == 0
            &&& forall|i: int|
                0 <= i < draws.len() ==> clamped_length(
                    (#[trigger] draws[i]).length as nat,
                    low,
                    high,
                ) == 0 && !draws[i].promote
        },
        is_generated(formula, 0, low, high, draws, rename_count) ==> forall|i: int|
            0 <= i < formula.len() ==> (#[trigger] formula[i]).len() == 0,
{
    lemma_no_variables_draws(low, high, draws);
    if is_generated(formula, 0, low, high, draws, rename_count) {
        assert forall|i: int| 0 <= i < formula.len() implies (#[trigger] formula[i]).len() == 0 by {
            if formula[i].len() > 0 {
                assert(1 <= variable_of(formula[i][0]) <= 0);
            }
        }
    }
}

/// Where some clause, held to the bounds, is longer than there are variables,
/// and no clause before it fails, the request is refused for want of
/// variables. So it is whenever the lower bound lies above the number of
/// variables and a clause is asked for.
pub proof fn lemma_too_few_variables(
    n_vars: nat,
    low: nat,
    high: nat,
    draws: Seq<ClauseDraw>,
    rename_count: nat,
)
    requires
        n_vars < low <= high,
        draws.len() > 0,
    ensures
        request_error(n_vars, low, high, draws, rename_count) == Some(
            GenerateError::InsufficientVariables,
        ),
    decreases draws.len(),
{
    let front = draws.drop_last();
    if front.len() > 0 {
        lemma_too_few_variables(n_vars, low, high, front, rename_count);
        assert(first_draw_error(n_vars, low, high, front) == Some(
            GenerateError::InsufficientVariables,
        ));
    } else {
        assert(first_draw_error(n_vars, low, high, front) is None);
        assert(clamped_length(draws.last().length as nat, low, high) >= low);
    }
}

/// Tells whether a request can be served, before any random choice is made.
pub fn check_request(
    n_vars: usize,
    clause_len_low: usize,
    clause_len_high: usize,
    draws: &Vec<ClauseDraw>,
    rename_count: usize,
) -> (result: Result<(), GenerateError>)
    ensures
        match result {
            Ok(_) => request_error(
                n_vars as nat,
                clause_len_low as nat,
                clause_len_high as nat,
                draws@,
                rename_count as nat,
            ) is None,
            Err(e) => request_error(
                n_vars as nat,
                clause_len_low as nat,
                clause_len_high as nat,
                draws@,
                rename_count as nat,
            ) == Some(e),
        },
{
    if clause_len_low > clause_len_high {
        return Err(GenerateError::InvalidDistributionParameters);
    }
    let mut i: usize = 0;
    assert(draws@.take(0) =~= Seq::<ClauseDraw>::empty());
    while i < draws.len()
        invariant
            i <= draws.len(),
            clause_len_low <= clause_len_high,
            first_draw_error(
                n_vars as nat,
                clause_len_low as nat,
                clause_len_high as nat,
                draws@.take(i as int),
            ) is None,
        decreases draws.len() - i,
    {
        let length = clamp_length(draws[i].length, clause_len_low, clause_len_high);
        let promote = draws[i].promote;
        assert(draws@.take(i + 1).drop_last() =~= draws@.take(i as int));
        if length > n_vars {
            proof {
                lemma_first_draw_error_stays(
                    n_vars as nat,
                    clause_len_low as nat,
                    clause_len_high as nat,
                    draws@,
                    i + 1,
                );
            }
            return Err(GenerateError::InsufficientVariables);
        }
        if length == 0 && promote {
            proof {
                lemma_first_draw_error_stays(
                    n_vars as nat,
                    clause_len_low as nat,
                    clause_len_high as nat,
                    draws@,
                    i + 1,
                );
            }
            return Err(GenerateError::DegenerateClauseLength);
        }
        i = i + 1;
    }
    assert(draws@.take(draws.len() as int) =~= draws@);
    if rename_count > n_vars {
        return Err(GenerateError::InsufficientVariables);
    }
    Ok(())
}

/// Builds the formula as it stands before renaming: for each draw, in order, a
/// Horn clause of the clamped length of the draw.
///
/// Fails with `InvalidDistributionParameters` where the bounds are out of
/// order, and otherwise with the error of the first clause that cannot be
/// built.
pub fn build_formula(
    rng: &mut ThreadRng,
    pool: &VariablePool,
    clause_len_low: usize,
    clause_len_high: usize,
    draws: &Vec<ClauseDraw>,
) -> (result: Result<Vec<Vec<i64>>, GenerateError>)
    ensures
        match result {
            Ok(formula) => {
                &&& formula_error(
                    pool.n_vars() as nat,
                    clause_len_low as nat,
                    clause_len_high as nat,
                    draws@,
                ) is None
                &&& is_built_formula(
                    formula_view(formula@),
                    pool.n_vars() as nat,
                    clause_len_low as nat,
                    clause_len_high as nat,
                    draws@,
                )
            },
            Err(e) => formula_error(
                pool.n_vars() as nat,
                clause_len_low as nat,
                clause_len_high as nat,
                draws@,
            ) == Some(e),
        },
{
    if clause_len_low > clause_len_high {
        return Err(GenerateError::InvalidDistributionParameters);
    }
    let mut formula: Vec<Vec<i64>> = Vec::new();
    let mut i: usize = 0;
    assert(draws@.take(0) =~= Seq::<ClauseDraw>::empty());
    while i < draws.len()
        invariant
            i <= draws.len(),
            formula.len() == i,
            clause_len_low <= clause_len_high,
            first_draw_error(
                pool.n_vars() as nat,
                clause_len_low as nat,
                clause_len_high as nat,
                draws@.take(i as int),
            ) is None,
            forall|k: int|
                0 <= k < i ==> is_built_clause(
                    clause_view(#[trigger] formula[k]@),
                    pool.n_vars() as nat,
                    clamped_length(draws[k].length as nat, clause_len_low as nat, clause_len_high as nat),
                    draws[k].promote,
                ),
        decreases draws.len() - i,
    {
        let length = clamp_length(draws[i].length, clause_len_low, clause_len_high);
        assert(draws@.take(i + 1).drop_last() =~= draws@.take(i as int));
        match build_clause(rng, pool, length, draws[i].promote) {
            Ok(clause) => {
                formula.push(clause);
            },
            Err(e) => {
                proof {
                    lemma_first_draw_error_stays(
                        pool.n_vars() as nat,
                        clause_len_low as nat,
                        clause_len_high as nat,
                        draws@,
                        i + 1,
                    );
                }
                return Err(e);
            },
        }
        i = i + 1;
    }
    assert(draws@.take(draws.len() as int) =~= draws@);
    Ok(formula)
}

/// Generates a formula over the variables `1..=n_vars`: one clause for each
/// draw, then the renaming of `rename_count` variables drawn at random.
///
/// The request is checked as a whole before any random choice is made, and
/// refused with the error that `request_error` names. Variables are stored in
/// 64 bits with a sign, so `n_vars` has to fit.
pub fn generate(
    n_vars: usize,
    clause_len_low: usize,
    clause_len_high: usize,
    draws: &Vec<ClauseDraw>,
    rename_count: usize,
) -> (result: Result<Vec<Vec<i64>>, GenerateError>)
    requires
        n_vars <= i64::MAX,
    ensures
        match result {
            Ok(formula) => {
                &&& request_error(
                    n_vars as nat,
                    clause_len_low as nat,
                    clause_len_high as nat,
                    draws@,
                    rename_count as nat,
                ) is None
                &&& is_generated(
                    formula_view(formula@),
                    n_vars as nat,
                    clause_len_low as nat,
                    clause_len_high as nat,
                    draws@,
                    rename_count as nat,
                )
            },
            Err(e) => request_error(
                n_vars as nat,
                clause_len_low as nat,
                clause_len_high as nat,
                draws@,
                rename_count as nat,
            ) == Some(e),
        },
{
    match check_request(n_vars, clause_len_low, clause_len_high, draws, rename_count) {
        Ok(_) => {},
        Err(e) => {
            return Err(e);
        },
    }
    let pool = VariablePool::new(n_vars);
    let mut rng = thread_rng();
    let mut formula = match build_formula(&mut rng, &pool, clause_len_low, clause_len_high, draws) {
        Ok(formula) => formula,
        Err(e) => {
            return Err(e);
        },
    };
    let ghost built = formula_view(formula@);
    match rename(&mut rng, &mut formula, &pool, rename_count) {
        Ok(_) => {},
        Err(e) => {
            return Err(e);
        },
    }
    proof {
        let renamed = choose|renamed: Set<int>|
            is_renamed_set(renamed, n_vars as nat, rename_count as nat) && formula_view(formula@)
                == #[trigger] renamed_formula(built, renamed);
        lemma_renamed_built_formula_is_generated(
            built,
            renamed,
            n_vars as nat,
            clause_len_low as nat,
            clause_len_high as nat,
            draws@,
            rename_count as nat,
        );
    }
    Ok(formula)
}

} // verus!
