use d21_vote::allowance::calculate_max_plus_votes;

#[test]
fn five_candidates_two_winners_allow_four() {
    // round(2*2 - 0*0.618) = 4, capped at 5 - 1 = 4
    assert_eq!(calculate_max_plus_votes(2, 5), 4);
}

#[test]
fn exact_values_small_configurations() {
    // round(2*1 - (-1)*0.618) = round(2.618) = 3
    assert_eq!(calculate_max_plus_votes(1, 5), 3);
    assert_eq!(calculate_max_plus_votes(1, 3), 2);
    // round(2*3 - 1*0.618) = round(5.382) = 5
    assert_eq!(calculate_max_plus_votes(3, 10), 5);
    // round(2*4 - 2*0.618) = round(6.764) = 7
    assert_eq!(calculate_max_plus_votes(4, 10), 7);
    // large winner counts are capped by the candidate count
    assert_eq!(calculate_max_plus_votes(40, 10), 9);
    assert_eq!(calculate_max_plus_votes(254, 50), 49);
}

#[test]
fn matches_rounded_golden_ratio_formula() {
    for w in 1..=254u16 {
        for n in 2..=50u16 {
            let wf = w as f64;
            let base = (2.0 * wf - (wf - 2.0) * 0.618).round() as u8;
            let expect = base.min(n as u8 - 1);
            assert_eq!(calculate_max_plus_votes(w as u8, n as u8), expect);
        }
    }
}

#[test]
fn monotone_in_winner_count_and_capped() {
    for n in 2..=50u8 {
        for w in 1..=253u8 {
            let here = calculate_max_plus_votes(w, n);
            let next = calculate_max_plus_votes(w + 1, n);
            assert!(here <= next);
            assert!(here <= n - 1);
        }
        assert!(calculate_max_plus_votes(254, n) <= n - 1);
    }
}
