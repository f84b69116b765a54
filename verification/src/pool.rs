//! The pool of variables that clauses and the renamed set draw from.

use crate::formula::{clause_view, is_choice};
use crate::random::{choose_multiple, selects};
use rand::rngs::ThreadRng;
use vstd::prelude::*;

verus! {

/// The variables `1..=n_vars`, in order, from which clauses and the renamed set
/// draw.
pub struct VariablePool {
    vars: Vec<i64>,
}

impl VariablePool {
    #[verifier::type_invariant]
    spec fn in_order(&self) -> bool {
        forall|i: int| 0 <= i < self.vars.len() ==> self.vars[i] == i + 1
    }

    /// The number of variables.
    pub closed spec fn spec_n_vars(&self) -> usize {
        self.vars.len()
    }

    /// The pool of the variables `1..=n_vars`. Literals are 64-bit signed, so
    /// the largest variable has to fit.
    pub fn new(n_vars: usize) -> (pool: VariablePool)
        requires
            n_vars <= i64::MAX,
        ensures
            pool.n_vars() == n_vars,
    {
        let mut vars: Vec<i64> = Vec::new();
        let mut next: usize = 0;
        while next < n_vars
            invariant
                next <= n_vars <= i64::MAX,
                vars.len() == next,
                forall|i: int| 0 <= i < vars.len() ==> vars[i] == i + 1,
            decreases n_vars - next,
        {
            next = next + 1;
            vars.push(next as i64);
        }
        VariablePool { vars }
    }

    /// The number of variables.
    #[verifier::when_used_as_spec(spec_n_vars)]
    pub fn n_vars(&self) -> (n: usize)
        ensures
            n == self.n_vars(),
    {
        self.vars.len()
    }

    /// Draws `amount` distinct variables, in random order.
    pub(crate) fn pick(&self, rng: &mut ThreadRng, amount: usize) -> (picked: Vec<i64>)
        requires
            amount <= self.n_vars(),
        ensures
            picked.len() == amount,
            is_choice(clause_view(picked@), self.n_vars() as nat),
    {
        proof {
            use_type_invariant(self);
        }
        if amount == self.vars.len() && amount > u32::MAX as usize {
            // Every variable is taken, and the sampler cannot be asked for a
            // whole pool of this length.
            let picked = self.vars.clone();
            assert(picked@ =~= self.vars@);
            picked
        } else {
            let picked = choose_multiple(rng, &self.vars, amount);
            proof {
                let places = choose|places: Seq<int>| selects(places, picked@, self.vars@);
                assert forall|j: int, k: int|
                    0 <= j < picked.len() && 0 <= k < picked.len() && j != k implies clause_view(
                    picked@,
                )[j] != clause_view(picked@)[k] by {
                    assert(places[j] != places[k]);
                }
                assert forall|j: int| 0 <= j < picked.len() implies 1 <= #[trigger] clause_view(
                    picked@,
                )[j] <= self.vars.len() by {
                    assert(picked@[j] == self.vars@[places[j]]);
                }
            }
            picked
        }
    }
}

} // verus!
