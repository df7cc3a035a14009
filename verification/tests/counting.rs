use simple_statistics::counting;
use simple_statistics::utilities;

#[test]
fn factorial_of_zero_and_one_is_one() {
    assert_eq!(utilities::get_factorial(0), 1);
    assert_eq!(utilities::get_factorial(1), 1);
}

#[test]
fn factorial_of_the_largest_argument() {
    assert_eq!(
        utilities::get_factorial(utilities::MAX_FACTORIAL_ARGUMENT),
        295232799039604140847618609643520000000u128
    );
}

#[test]
fn factorial_steps_multiply() {
    for n in 1..=utilities::MAX_FACTORIAL_ARGUMENT {
        assert_eq!(
            utilities::get_factorial(n),
            utilities::get_factorial(n - 1) * n as u128
        );
    }
}

#[test]
fn counting_nothing_is_refused() {
    let refusal: Result<u128, String> =
        Err(String::from("n and r must be equal or greater than 0!"));
    assert_eq!(counting::get_combinations(0, 3), refusal);
    assert_eq!(counting::get_combinations(5, 0), refusal);
    assert_eq!(counting::get_combinations(0, 0), refusal);
    assert_eq!(counting::get_permutations(0, 3), refusal);
    assert_eq!(counting::get_permutations(5, 0), refusal);
    assert_eq!(counting::get_permutations(0, 0), refusal);
}

#[test]
fn choosing_all_or_one() {
    assert_eq!(counting::get_combinations(7, 7), Ok(1));
    assert_eq!(counting::get_combinations(7, 1), Ok(7));
    assert_eq!(counting::get_permutations(7, 7), Ok(5040));
    assert_eq!(counting::get_permutations(7, 1), Ok(7));
}

#[test]
fn counts_at_the_largest_argument() {
    assert_eq!(counting::get_combinations(34, 17), Ok(2333606220));
    assert_eq!(counting::get_permutations(34, 2), Ok(34 * 33));
}

#[test]
fn combinations_are_permutations_without_order() {
    for n in 1..=20u64 {
        for r in 1..=n {
            let arranged = counting::get_permutations(n, r).unwrap();
            let chosen = counting::get_combinations(n, r).unwrap();
            assert_eq!(chosen * utilities::get_factorial(r), arranged);
        }
    }
}
