use rhorn::pool::VariablePool;
use rhorn::rename::{choose_renamed, rename, rename_clause, rename_formula};
use rhorn::GenerateError;
use std::collections::BTreeSet;

fn sample_formula() -> Vec<Vec<i64>> {
    vec![vec![-1, 2, -3], vec![4, -5], vec![], vec![-2, -6, 1, 3], vec![5]]
}

#[test]
fn renaming_twice_restores_the_formula() {
    let renamed: BTreeSet<i64> = [1, 3, 5].into_iter().collect();
    let mut formula = sample_formula();
    rename_formula(&mut formula, &renamed);
    assert_ne!(formula, sample_formula());
    rename_formula(&mut formula, &renamed);
    assert_eq!(formula, sample_formula());
}

#[test]
fn renaming_inverts_the_renamed_variables_only() {
    let renamed: BTreeSet<i64> = [2, 5].into_iter().collect();
    let mut formula = sample_formula();
    rename_formula(&mut formula, &renamed);
    assert_eq!(formula, vec![vec![-1, -2, -3], vec![4, 5], vec![], vec![2, -6, 1, 3], vec![-5]]);
    let before = sample_formula();
    for (clause, old) in formula.iter().zip(before.iter()) {
        assert_eq!(clause.len(), old.len());
        for (l, o) in clause.iter().zip(old.iter()) {
            if renamed.contains(&o.abs()) {
                assert_eq!(*l, -*o);
            } else {
                assert_eq!(*l, *o);
            }
        }
    }
}

#[test]
fn renaming_by_the_empty_set_changes_nothing() {
    let renamed: BTreeSet<i64> = BTreeSet::new();
    let mut formula = sample_formula();
    rename_formula(&mut formula, &renamed);
    assert_eq!(formula, sample_formula());
}

#[test]
fn rename_clause_exact_values() {
    let renamed: BTreeSet<i64> = [1, 4].into_iter().collect();
    let mut clause = vec![1, -4, 2, -1, 4, 0, i64::MAX, i64::MIN];
    rename_clause(&mut clause, &renamed);
    assert_eq!(clause, vec![-1, 4, 2, 1, -4, 0, i64::MAX, i64::MIN]);
    let largest: BTreeSet<i64> = [i64::MAX].into_iter().collect();
    let mut edge = vec![i64::MAX, -i64::MAX, i64::MIN];
    rename_clause(&mut edge, &largest);
    assert_eq!(edge, vec![-i64::MAX, i64::MAX, i64::MIN]);
}

#[test]
fn choose_renamed_takes_as_many_as_asked() {
    let pool = VariablePool::new(10);
    let mut rng = rand::thread_rng();
    for count in 0..=10 {
        let renamed = choose_renamed(&mut rng, &pool, count).unwrap();
        assert_eq!(renamed.len(), count);
        assert!(renamed.iter().all(|v| (1..=10).contains(v)));
    }
    assert_eq!(choose_renamed(&mut rng, &pool, 11), Err(GenerateError::InsufficientVariables));
}

#[test]
fn rename_inverts_as_many_variables_as_asked() {
    let pool = VariablePool::new(6);
    let mut rng = rand::thread_rng();
    let before: Vec<Vec<i64>> = vec![vec![-1, -2, -3, -4, -5, -6], vec![-6, -5, -4, -3, -2, -1]];
    for count in 0..=6 {
        let mut formula = before.clone();
        assert_eq!(rename(&mut rng, &mut formula, &pool, count), Ok(()));
        let flipped: Vec<i64> = formula[0].iter().filter(|&&l| l > 0).cloned().collect();
        assert_eq!(flipped.len(), count);
        for (l, o) in formula[1].iter().zip(before[1].iter()) {
            assert_eq!(*l > 0, flipped.contains(&-*o));
        }
    }
}

#[test]
fn rename_leaves_the_formula_on_error() {
    let pool = VariablePool::new(3);
    let mut rng = rand::thread_rng();
    let mut formula = vec![vec![-1, 2], vec![3]];
    assert_eq!(
        rename(&mut rng, &mut formula, &pool, 4),
        Err(GenerateError::InsufficientVariables)
    );
    assert_eq!(formula, vec![vec![-1, 2], vec![3]]);
}
