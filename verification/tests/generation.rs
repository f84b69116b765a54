use rhorn::generator::{build_formula, check_request};
use rhorn::pool::VariablePool;
use rhorn::{generate, ClauseDraw, GenerateError};

fn draws_of(lengths: &[usize], promote: bool) -> Vec<ClauseDraw> {
    lengths.iter().map(|&length| ClauseDraw { length, promote }).collect()
}

fn variables(clause: &[i64]) -> Vec<i64> {
    let mut vars: Vec<i64> = clause.iter().map(|l| l.abs()).collect();
    vars.sort();
    vars
}

fn positives(clause: &[i64]) -> usize {
    clause.iter().filter(|&&l| l > 0).count()
}

#[test]
fn one_clause_for_each_draw() {
    let lengths: Vec<usize> = (0..200).map(|i| 1 + i % 7).collect();
    let draws = draws_of(&lengths, true);
    let formula = generate(20, 1, 7, &draws, 10).unwrap();
    assert_eq!(formula.len(), 200);
    for (clause, draw) in formula.iter().zip(draws.iter()) {
        assert_eq!(clause.len(), draw.length);
    }
}

#[test]
fn no_variable_twice_in_a_clause() {
    let lengths: Vec<usize> = (0..300).map(|i| 1 + i % 12).collect();
    let draws = draws_of(&lengths, true);
    let formula = generate(12, 1, 12, &draws, 6).unwrap();
    for clause in &formula {
        let vars = variables(clause);
        for pair in vars.windows(2) {
            assert!(pair[0] < pair[1]);
        }
        for v in vars {
            assert!((1..=12).contains(&v));
        }
        assert!(clause.iter().all(|&l| l != 0));
    }
}

#[test]
fn lengths_are_held_to_the_bounds() {
    let draws = draws_of(&[0, 1, 2, 3, 4, 5, 6, 7, 100, usize::MAX], false);
    let pool = VariablePool::new(10);
    let mut rng = rand::thread_rng();
    let formula = build_formula(&mut rng, &pool, 3, 5, &draws).unwrap();
    let lengths: Vec<usize> = formula.iter().map(|c| c.len()).collect();
    assert_eq!(lengths, vec![3, 3, 3, 3, 4, 5, 5, 5, 5, 5]);
}

#[test]
fn built_clauses_are_horn() {
    let mut draws = Vec::new();
    for i in 0..400 {
        draws.push(ClauseDraw { length: 1 + i % 5, promote: i % 3 == 0 });
    }
    let pool = VariablePool::new(9);
    let mut rng = rand::thread_rng();
    let formula = build_formula(&mut rng, &pool, 1, 5, &draws).unwrap();
    assert_eq!(formula.len(), draws.len());
    for (clause, draw) in formula.iter().zip(draws.iter()) {
        assert_eq!(positives(clause), if draw.promote { 1 } else { 0 });
        assert_eq!(clause.len(), draw.length);
    }
}

#[test]
fn renaming_all_variables_inverts_a_horn_formula() {
    let mut draws = Vec::new();
    for i in 0..100 {
        draws.push(ClauseDraw { length: 4, promote: i % 2 == 0 });
    }
    let formula = generate(6, 4, 4, &draws, 6).unwrap();
    for (clause, draw) in formula.iter().zip(draws.iter()) {
        assert_eq!(positives(clause), if draw.promote { 3 } else { 4 });
    }
}

#[test]
fn renaming_no_variable_leaves_a_horn_formula() {
    let mut draws = Vec::new();
    for i in 0..100 {
        draws.push(ClauseDraw { length: 3, promote: i % 2 == 1 });
    }
    let formula = generate(8, 3, 3, &draws, 0).unwrap();
    for (clause, draw) in formula.iter().zip(draws.iter()) {
        assert_eq!(positives(clause), if draw.promote { 1 } else { 0 });
    }
}

#[test]
fn generated_formula_is_renamable_to_horn() {
    let mut draws = Vec::new();
    for i in 0..60 {
        draws.push(ClauseDraw { length: 2 + i % 3, promote: i % 4 != 0 });
    }
    let n_vars: usize = 5;
    let formula = generate(n_vars, 2, 4, &draws, 2).unwrap();
    let mut found = false;
    for a in 1..=n_vars as i64 {
        for b in (a + 1)..=n_vars as i64 {
            let back = |l: i64| if l.abs() == a || l.abs() == b { -l } else { l };
            let fits = formula.iter().zip(draws.iter()).all(|(clause, draw)| {
                let count = clause.iter().filter(|&&l| back(l) > 0).count();
                count == if draw.promote { 1 } else { 0 }
            });
            found = found || fits;
        }
    }
    assert!(found);
}

#[test]
fn no_clauses_gives_an_empty_formula() {
    let draws: Vec<ClauseDraw> = Vec::new();
    assert_eq!(generate(10, 2, 4, &draws, 3), Ok(Vec::new()));
    assert_eq!(generate(0, 0, 0, &draws, 0), Ok(Vec::new()));
    assert_eq!(generate(3, 6, 6, &draws, 0), Ok(Vec::new()));
}

#[test]
fn no_variables_gives_empty_clauses() {
    let draws = draws_of(&[0, 0, 0], false);
    let formula = generate(0, 0, 0, &draws, 0).unwrap();
    assert_eq!(formula, vec![Vec::<i64>::new(), Vec::new(), Vec::new()]);
}

#[test]
fn no_variables_and_a_literal_asked_for_is_an_error() {
    let draws = draws_of(&[1], false);
    assert_eq!(generate(0, 1, 1, &draws, 0), Err(GenerateError::InsufficientVariables));
}

#[test]
fn six_literals_from_three_variables_is_an_error() {
    let draws = draws_of(&[6], false);
    assert_eq!(generate(3, 6, 6, &draws, 0), Err(GenerateError::InsufficientVariables));
    let promoted = draws_of(&[6], true);
    assert_eq!(generate(3, 6, 6, &promoted, 0), Err(GenerateError::InsufficientVariables));
    let drifted = draws_of(&[2], false);
    assert_eq!(generate(3, 6, 6, &drifted, 0), Err(GenerateError::InsufficientVariables));
}

#[test]
fn one_clause_of_two_literals_with_one_positive() {
    let draws = vec![ClauseDraw { length: 2, promote: true }];
    for _ in 0..50 {
        let formula = generate(5, 2, 2, &draws, 0).unwrap();
        assert_eq!(formula.len(), 1);
        let clause = &formula[0];
        assert_eq!(clause.len(), 2);
        assert!(clause.iter().all(|l| (1..=5).contains(&l.abs())));
        assert_ne!(clause[0].abs(), clause[1].abs());
        assert_eq!(positives(clause), 1);
    }
}

#[test]
fn bounds_out_of_order_are_an_error() {
    let draws = draws_of(&[3], false);
    assert_eq!(generate(10, 4, 3, &draws, 0), Err(GenerateError::InvalidDistributionParameters));
    let none: Vec<ClauseDraw> = Vec::new();
    assert_eq!(generate(10, 4, 3, &none, 0), Err(GenerateError::InvalidDistributionParameters));
}

#[test]
fn promoting_in_an_empty_clause_is_an_error() {
    let draws = draws_of(&[0], true);
    assert_eq!(generate(4, 0, 2, &draws, 0), Err(GenerateError::DegenerateClauseLength));
    let plain = draws_of(&[0], false);
    assert_eq!(generate(4, 0, 2, &plain, 0), Ok(vec![Vec::new()]));
}

#[test]
fn renaming_more_variables_than_there_are_is_an_error() {
    let draws = draws_of(&[2, 2], true);
    assert_eq!(generate(4, 2, 2, &draws, 5), Err(GenerateError::InsufficientVariables));
    assert!(generate(4, 2, 2, &draws, 4).is_ok());
}

#[test]
fn the_first_error_in_order_is_reported() {
    let degenerate_then_short = vec![
        ClauseDraw { length: 2, promote: true },
        ClauseDraw { length: 0, promote: true },
        ClauseDraw { length: 9, promote: false },
    ];
    assert_eq!(
        generate(4, 0, 9, &degenerate_then_short, 0),
        Err(GenerateError::DegenerateClauseLength)
    );
    let short_then_degenerate = vec![
        ClauseDraw { length: 9, promote: false },
        ClauseDraw { length: 0, promote: true },
    ];
    assert_eq!(
        generate(4, 0, 9, &short_then_degenerate, 0),
        Err(GenerateError::InsufficientVariables)
    );
    assert_eq!(
        generate(4, 0, 9, &degenerate_then_short, 100),
        Err(GenerateError::DegenerateClauseLength)
    );
    assert_eq!(
        generate(4, 9, 0, &degenerate_then_short, 100),
        Err(GenerateError::InvalidDistributionParameters)
    );
}

#[test]
fn check_request_agrees_with_generate() {
    let good = draws_of(&[1, 2, 3], true);
    assert_eq!(check_request(3, 1, 3, &good, 3), Ok(()));
    assert_eq!(check_request(3, 1, 3, &good, 4), Err(GenerateError::InsufficientVariables));
    assert_eq!(check_request(2, 1, 3, &good, 0), Err(GenerateError::InsufficientVariables));
    assert_eq!(check_request(3, 3, 1, &good, 0), Err(GenerateError::InvalidDistributionParameters));
    let empty = draws_of(&[0], true);
    assert_eq!(check_request(3, 0, 3, &empty, 0), Err(GenerateError::DegenerateClauseLength));
    assert_eq!(check_request(3, 1, 3, &empty, 0), Ok(()));
}

#[test]
fn build_formula_reports_what_check_request_reports() {
    let pool = VariablePool::new(3);
    let mut rng = rand::thread_rng();
    let draws = draws_of(&[1, 4], false);
    assert_eq!(
        build_formula(&mut rng, &pool, 1, 4, &draws),
        Err(GenerateError::InsufficientVariables)
    );
    assert_eq!(
        build_formula(&mut rng, &pool, 4, 1, &draws),
        Err(GenerateError::InvalidDistributionParameters)
    );
    let formula = build_formula(&mut rng, &pool, 1, 3, &draws).unwrap();
    assert_eq!(formula[0].len(), 1);
    assert_eq!(formula[1].len(), 3);
}

#[test]
fn error_descriptions_differ() {
    let a = GenerateError::InvalidDistributionParameters.description();
    let b = GenerateError::InsufficientVariables.description();
    let c = GenerateError::DegenerateClauseLength.description();
    assert_eq!(a, "the lower bound on the clause length is above the upper bound");
    assert_eq!(b, "more distinct variables are asked for than there are");
    assert_eq!(c, "a clause without literals cannot have a positive literal");
}
