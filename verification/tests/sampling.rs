use ai_base::sampler::{
    choose_token, filter_candidates, find_best, find_drawn, list_candidates, nucleus_cutoff,
    rank_candidates, sample, total_mass, Candidate, SamplingParams, UNIT,
};

fn params(temperature: u32, top_p: u32, top_k: usize) -> SamplingParams {
    SamplingParams { temperature, top_p, top_k }
}

fn tokens(list: &[Candidate]) -> Vec<u32> {
    list.iter().map(|c| c.token).collect()
}

#[test]
fn candidates_are_listed_in_token_order_with_their_total() {
    let (list, total) = list_candidates(&vec![5, 0, 7]);
    assert_eq!(
        list,
        vec![
            Candidate { token: 0, mass: 5 },
            Candidate { token: 1, mass: 0 },
            Candidate { token: 2, mass: 7 },
        ]
    );
    assert_eq!(total, 12);
}

#[test]
fn ranking_puts_larger_masses_first_and_lower_tokens_first_among_equals() {
    let (ranked, total) = rank_candidates(&vec![10, 40, 20, 40, 10]);
    assert_eq!(tokens(&ranked), vec![1, 3, 2, 0, 4]);
    assert_eq!(total, 120);
    assert_eq!(total_mass(&ranked), 120);
}

#[test]
fn ranking_of_an_empty_distribution_is_empty() {
    let (ranked, total) = rank_candidates(&vec![]);
    assert!(ranked.is_empty());
    assert_eq!(total, 0);
}

#[test]
fn greedy_sampling_equals_argmax_whatever_the_filters() {
    let masses = vec![100, 700, 50, 700, 150];
    for top_k in [0usize, 1, 2, 3, 5, 9] {
        for top_p in [0u32, 1, 300_000, 900_000, 999_999, UNIT, 2 * UNIT] {
            for draw in [0u64, 1, 699, 1_000_000] {
                assert_eq!(sample(&masses, &params(0, top_p, top_k), draw), 1);
            }
        }
    }
}

#[test]
fn greedy_sampling_is_deterministic() {
    let masses = vec![3, 9, 9, 1];
    let first = sample(&masses, &params(0, 900_000, 40), 0);
    for _ in 0..20 {
        assert_eq!(sample(&masses, &params(0, 900_000, 40), 0), first);
    }
    assert_eq!(first, 1);
}

#[test]
fn greedy_sampling_without_filters_takes_the_first_of_equal_maxima() {
    let list = vec![
        Candidate { token: 0, mass: 2 },
        Candidate { token: 1, mass: 8 },
        Candidate { token: 2, mass: 8 },
    ];
    assert_eq!(find_best(&list), 1);
    assert_eq!(choose_token(&list, true, 17), 1);
}

#[test]
fn top_k_keeps_exactly_k_of_a_larger_vocabulary() {
    let masses = vec![10, 40, 20, 30];
    let kept = filter_candidates(&masses, &params(UNIT, UNIT, 2));
    assert_eq!(tokens(&kept), vec![1, 3]);
    let kept = filter_candidates(&masses, &params(UNIT, UNIT, 3));
    assert_eq!(tokens(&kept), vec![1, 3, 2]);
}

#[test]
fn top_k_not_below_the_vocabulary_keeps_all_in_token_order() {
    let masses = vec![10, 40, 20, 30];
    for top_k in [0usize, 4, 5, 100] {
        let kept = filter_candidates(&masses, &params(UNIT, UNIT, top_k));
        assert_eq!(tokens(&kept), vec![0, 1, 2, 3]);
        assert!(top_k == 0 || kept.len() <= top_k);
    }
}

#[test]
fn nucleus_keeps_the_shortest_head_that_reaches_the_share() {
    // probabilities 0.4, 0.3, 0.2, 0.1 in ranked order
    let masses = vec![20, 40, 10, 30];
    let kept = filter_candidates(&masses, &params(UNIT, 700_000, 0));
    assert_eq!(tokens(&kept), vec![1, 3]);
    let kept = filter_candidates(&masses, &params(UNIT, 700_001, 0));
    assert_eq!(tokens(&kept), vec![1, 3, 0]);
    let kept = filter_candidates(&masses, &params(UNIT, 1, 0));
    assert_eq!(tokens(&kept), vec![1]);
    let kept = filter_candidates(&masses, &params(UNIT, 999_999, 0));
    assert_eq!(tokens(&kept), vec![1, 3, 0, 2]);
}

#[test]
fn nucleus_is_prefix_minimal() {
    let masses = vec![5, 25, 50, 15, 5];
    let total: u64 = 100;
    for share in [1u32, 100_000, 500_000, 500_001, 750_000, 900_000, 950_001, 999_999] {
        let kept = filter_candidates(&masses, &params(UNIT, share, 0));
        let sum: u64 = kept.iter().map(|c| c.mass as u64).sum();
        let without_last = sum - kept[kept.len() - 1].mass as u64;
        assert!(sum * UNIT as u64 >= share as u64 * total);
        assert!(without_last * (UNIT as u64) < share as u64 * total);
    }
}

#[test]
fn nucleus_measures_against_the_whole_distribution_after_top_k() {
    // top-k leaves 0.5 + 0.25 of the mass; a share of 0.9 is never reached
    let masses = vec![50, 25, 15, 10];
    let kept = filter_candidates(&masses, &params(UNIT, 900_000, 2));
    assert_eq!(tokens(&kept), vec![0, 1]);
    let kept = filter_candidates(&masses, &params(UNIT, 500_000, 2));
    assert_eq!(tokens(&kept), vec![0]);
}

#[test]
fn nucleus_cutoff_counts_candidates() {
    let list = vec![
        Candidate { token: 7, mass: 60 },
        Candidate { token: 2, mass: 30 },
        Candidate { token: 5, mass: 10 },
    ];
    assert_eq!(nucleus_cutoff(&list, 600_000, 100), 1);
    assert_eq!(nucleus_cutoff(&list, 600_001, 100), 2);
    assert_eq!(nucleus_cutoff(&list, 900_001, 100), 3);
    assert_eq!(nucleus_cutoff(&list, 900_000, 200), 3);
    assert_eq!(nucleus_cutoff(&Vec::new(), 900_000, 200), 0);
    assert_eq!(nucleus_cutoff(&list, 900_000, 0), 1);
}

#[test]
fn a_draw_falls_on_the_candidate_whose_running_sum_exceeds_it() {
    let list = vec![
        Candidate { token: 4, mass: 10 },
        Candidate { token: 9, mass: 0 },
        Candidate { token: 1, mass: 5 },
    ];
    assert_eq!(find_drawn(&list, 0), 0);
    assert_eq!(find_drawn(&list, 9), 0);
    assert_eq!(find_drawn(&list, 10), 2);
    assert_eq!(find_drawn(&list, 14), 2);
    assert_eq!(choose_token(&list, false, 9), 4);
    assert_eq!(choose_token(&list, false, 10), 1);
}

#[test]
fn an_unmatched_draw_falls_back_to_the_last_candidate() {
    let list = vec![Candidate { token: 4, mass: 10 }, Candidate { token: 9, mass: 3 }];
    assert_eq!(choose_token(&list, false, 13), 9);
    assert_eq!(choose_token(&list, false, u64::MAX), 9);
    let flat = vec![Candidate { token: 4, mass: 0 }, Candidate { token: 6, mass: 0 }];
    assert_eq!(choose_token(&flat, false, 0), 6);
}

#[test]
fn an_empty_list_gives_token_zero() {
    assert_eq!(choose_token(&Vec::new(), true, 0), 0);
    assert_eq!(choose_token(&Vec::new(), false, 5), 0);
    assert_eq!(sample(&Vec::new(), &params(UNIT, 900_000, 40), 3), 0);
}

#[test]
fn sampling_with_a_draw_follows_the_kept_candidates() {
    // ranked: token 2 (50), token 0 (30), token 1 (20); top-k 2 keeps 2 and 0
    let masses = vec![30, 20, 50];
    let p = params(800_000, UNIT, 2);
    assert_eq!(sample(&masses, &p, 0), 2);
    assert_eq!(sample(&masses, &p, 49), 2);
    assert_eq!(sample(&masses, &p, 50), 0);
    assert_eq!(sample(&masses, &p, 79), 0);
    assert_eq!(sample(&masses, &p, 80), 0);
}

#[test]
fn sampling_without_filters_walks_the_vocabulary_in_token_order() {
    let masses = vec![30, 20, 50];
    let p = params(UNIT, UNIT, 0);
    assert_eq!(sample(&masses, &p, 29), 0);
    assert_eq!(sample(&masses, &p, 30), 1);
    assert_eq!(sample(&masses, &p, 50), 2);
}

#[test]
fn large_masses_do_not_overflow() {
    let masses = vec![u32::MAX; 1000];
    let (ranked, total) = rank_candidates(&masses);
    assert_eq!(total, 1000 * u32::MAX as u64);
    assert_eq!(tokens(&ranked)[..3], [0, 1, 2]);
    let kept = filter_candidates(&masses, &params(UNIT, 500_000, 0));
    assert_eq!(kept.len(), 500);
}

#[test]
fn the_tokens_that_can_be_drawn_are_the_kept_ones_that_have_mass() {
    // top-k of two, nucleus off: the two best, for the draws below their mass
    let params = SamplingParams { temperature: UNIT, top_p: UNIT, top_k: 2 };
    let masses = vec![5, 0, 9, 3];
    let mut seen = std::collections::BTreeSet::new();
    for draw in 0..14 {
        let token = sample(&masses, &params, draw);
        assert_eq!(token, if draw < 9 { 2 } else { 0 });
        seen.insert(token);
    }
    assert_eq!(seen.into_iter().collect::<Vec<u32>>(), vec![0, 2]);
    // nucleus of four fifths, top-k off: the shortest head that holds them
    let params = SamplingParams { temperature: UNIT, top_p: 800_000, top_k: 0 };
    let masses = vec![25, 60, 5, 10];
    let mut seen = std::collections::BTreeSet::new();
    for draw in 0..85 {
        let token = sample(&masses, &params, draw);
        assert_eq!(token, if draw < 60 { 1 } else { 0 });
        seen.insert(token);
    }
    assert_eq!(seen.into_iter().collect::<Vec<u32>>(), vec![0, 1]);
    // a kept candidate without mass is never drawn
    let params = SamplingParams { temperature: UNIT, top_p: UNIT, top_k: 3 };
    let masses = vec![0, 7, 0, 0];
    for draw in 0..7 {
        assert_eq!(sample(&masses, &params, draw), 1);
    }
}
