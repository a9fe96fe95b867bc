//! Choosing the next token from a probability distribution.
//!
//! Probabilities are held as integer masses: the probability of a token is
//! its mass divided by the sum of all masses. Temperature and `top_p` are
//! held in millionths, so that every comparison is exact.

use vstd::prelude::*;

verus! {

/// One whole, in millionths.
pub const UNIT: u32 = 1_000_000;

/// How the next token is chosen.
#[derive(Debug, Clone, Copy, PartialEq, Eq, Structural)]
pub struct SamplingParams {
    /// Temperature in millionths; zero asks for the most probable token.
    pub temperature: u32,
    /// Share of the probability mass to keep, in millionths; the nucleus
    /// filter is off unless the share lies strictly between zero and one.
    pub top_p: u32,
    /// Number of most probable tokens to keep; zero switches the filter off.
    pub top_k: usize,
}

/// A token that may still be chosen, with its probability mass.
#[derive(Debug, Clone, Copy, PartialEq, Eq, Structural)]
pub struct Candidate {
    pub token: u32,
    pub mass: u32,
}

/// `a` comes before `b` in the ranking: the larger mass first, and among
/// equal masses the lower token.
pub open spec fn ranks_before(a: Candidate, b: Candidate) -> bool {
    a.mass > b.mass || (a.mass == b.mass && a.token < b.token)
}

/// Every candidate comes before all that follow it.
pub open spec fn is_ranked(s: Seq<Candidate>) -> bool {
    forall|i: int, j: int| 0 <= i < j < s.len() ==> ranks_before(s[i], s[j])
}

/// The candidates of a distribution, in token order.
pub open spec fn candidates_of(masses: Seq<u32>) -> Seq<Candidate> {
    Seq::new(masses.len(), |i: int| Candidate { token: i as u32, mass: masses[i] })
}

/// `r` holds the candidates of `masses`, each once, best first.
pub open spec fn is_ranking_of(r: Seq<Candidate>, masses: Seq<u32>) -> bool {
    &&& is_ranked(r)
    &&& r.to_multiset() == candidates_of(masses).to_multiset()
}

/// Sum of the masses of a list of candidates.
pub open spec fn mass_sum(s: Seq<Candidate>) -> nat
    decreases s.len(),
{
    if s.len() == 0 {
        0
    } else {
        mass_sum(s.drop_last()) + s.last().mass as nat
    }
}

/// The first `len` candidates hold at least `share` millionths of `total`.
pub open spec fn reaches(s: Seq<Candidate>, len: int, share: nat, total: nat) -> bool {
    mass_sum(s.take(len)) * UNIT >= share * total
}

/// Length of the shortest non-empty prefix, not shorter than `from + 1`,
/// that reaches the share; the whole length where none does.
pub open spec fn nucleus_scan(s: Seq<Candidate>, share: nat, total: nat, from: nat) -> nat
    decreases s.len() - from,
{
    if from >= s.len() {
        s.len()
    } else if reaches(s, from + 1 as int, share, total) {
        from + 1
    } else {
        nucleus_scan(s, share, total, from + 1)
    }
}

/// Number of candidates that the nucleus filter keeps.
pub open spec fn nucleus_len(s: Seq<Candidate>, share: nat, total: nat) -> nat {
    nucleus_scan(s, share, total, 0)
}

/// Position of the candidate with the largest mass; the earliest wins a tie.
pub open spec fn best_index(s: Seq<Candidate>) -> int
    decreases s.len(),
{
    if s.len() <= 1 {
        0
    } else {
        let before = best_index(s.drop_last());
        if s.last().mass > s[before].mass {
            s.len() - 1
        } else {
            before
        }
    }
}

/// Position of the first candidate, from `from` on, at which the running sum
/// of masses exceeds `draw`; the last position where none does.
pub open spec fn draw_scan(s: Seq<Candidate>, draw: nat, from: nat) -> int
    decreases s.len() - from,
{
    if from >= s.len() {
        s.len() - 1
    } else if draw < mass_sum(s.take(from + 1 as int)) {
        from as int
    } else {
        draw_scan(s, draw, from + 1)
    }
}

/// The token chosen from the kept candidates. An empty list gives token 0.
pub open spec fn chosen_token(kept: Seq<Candidate>, greedy: bool, draw: nat) -> u32 {
    if kept.len() == 0 {
        0
    } else if greedy {
        kept[best_index(kept)].token
    } else {
        kept[draw_scan(kept, draw, 0)].token
    }
}

/// The most probable token of a distribution, the lowest among equals.
pub open spec fn argmax_first(masses: Seq<u32>) -> u32 {
    chosen_token(candidates_of(masses), true, 0)
}

impl SamplingParams {
    /// The most probable token is taken and no number is drawn.
    pub open spec fn is_greedy(self) -> bool {
        self.temperature == 0
    }

    /// The top-k filter cuts a list of `n` candidates.
    pub open spec fn top_k_cuts(self, n: nat) -> bool {
        0 < self.top_k < n
    }

    /// The nucleus filter is on.
    pub open spec fn nucleus_on(self) -> bool {
        0 < self.top_p < UNIT
    }

    /// Number of candidates left by the top-k filter out of `n`.
    pub open spec fn top_k_len(self, n: nat) -> nat {
        if self.top_k_cuts(n) {
            self.top_k as nat
        } else {
            n
        }
    }

    /// What is left of a ranking after both filters. `total` is the mass of
    /// the whole distribution.
    pub open spec fn shortlist(self, ranked: Seq<Candidate>, total: nat) -> Seq<Candidate> {
        let top = ranked.take(self.top_k_len(ranked.len()) as int);
        if self.nucleus_on() {
            top.take(nucleus_len(top, self.top_p as nat, total) as int)
        } else {
            top
        }
    }

    /// `kept` is what the filters leave of the distribution `masses`: the
    /// candidates in token order where no filter applies, else the head of
    /// their ranking.
    pub open spec fn keeps(self, kept: Seq<Candidate>, masses: Seq<u32>) -> bool {
        if self.top_k_cuts(masses.len()) || self.nucleus_on() {
            exists|ranked: Seq<Candidate>|
                #![trigger is_ranking_of(ranked, masses)]
                is_ranking_of(ranked, masses) && kept == self.shortlist(
                    ranked,
                    mass_sum(candidates_of(masses)),
                )
        } else {
            kept == candidates_of(masses)
        }
    }

    pub fn greedy(&self) -> (r: bool)
        ensures
            r == self.is_greedy(),
    {
        self.temperature == 0
    }
}

/// The sum of masses grows with the prefix, by at most `u32::MAX` a candidate.
pub proof fn lemma_mass_sum_step(s: Seq<Candidate>, i: int)
    requires
        0 <= i < s.len(),
    ensures
        mass_sum(s.take(i + 1)) == mass_sum(s.take(i)) + s[i].mass,
        mass_sum(s.take(i)) <= i * 0xFFFF_FFFF,
    decreases i,
{
    assert(s.take(i + 1).drop_last() =~= s.take(i));
    if i > 0 {
        lemma_mass_sum_step(s, i - 1);
    }
}

/// The sum of all masses is at most `u32::MAX` a candidate.
pub proof fn lemma_mass_sum_bound(s: Seq<Candidate>)
    ensures
        mass_sum(s) <= s.len() * 0xFFFF_FFFF,
{
    if s.len() > 0 {
        lemma_mass_sum_step(s, s.len() - 1);
        assert(s.take(s.len() as int) =~= s);
        assert(s.take(s.len() - 1) =~= s.drop_last());
    }
}

/// A list of at most `u32::MAX` candidates has a sum that fits 64 bits.
pub proof fn lemma_mass_sum_fits(s: Seq<Candidate>, i: int)
    requires
        0 <= i <= s.len() <= u32::MAX,
    ensures
        mass_sum(s.take(i)) <= 0xFFFF_FFFE_0000_0001,
{
    lemma_mass_sum_bound(s.take(i));
    assert(i * 0xFFFF_FFFF <= 0xFFFF_FFFF * 0xFFFF_FFFF) by (nonlinear_arith)
        requires
            0 <= i <= 0xFFFF_FFFF,
    ;
}

/// The candidates of a distribution, in token order, and their whole mass.
pub fn list_candidates(masses: &Vec<u32>) -> (r: (Vec<Candidate>, u64))
    requires
        masses.len() <= u32::MAX,
    ensures
        r.0@ == candidates_of(masses@),
        r.1 == mass_sum(candidates_of(masses@)),
{
    let mut list: Vec<Candidate> = Vec::new();
    let mut total: u64 = 0;
    let mut i: usize = 0;
    while i < masses.len()
        invariant
            i <= masses.len() <= u32::MAX,
            list@ == candidates_of(masses@).take(i as int),
            total == mass_sum(candidates_of(masses@).take(i as int)),
        decreases masses.len() - i,
    {
        proof {
            lemma_mass_sum_step(candidates_of(masses@), i as int);
            lemma_mass_sum_fits(candidates_of(masses@), i + 1);
        }
        let mass = masses[i];
        list.push(Candidate { token: i as u32, mass });
        total = total + mass as u64;
        i = i + 1;
        assert(list@ =~= candidates_of(masses@).take(i as int));
    }
    assert(candidates_of(masses@).take(i as int) =~= candidates_of(masses@));
    (list, total)
}

/// The key by which the candidates are ordered: ascending keys rank the
/// candidates best first.
pub fn rank_key(c: &Candidate) -> (key: (u32, u32))
    ensures
        key == (((u32::MAX - c.mass) as u32, c.token)),
{
    (u32::MAX - c.mass, c.token)
}

/// Calls `sort_by_key` of std on the list, with `rank_key` as the key. The
/// list keeps its items; afterwards no item is followed by one with a smaller
/// key, that is, by one that ranks before it.
#[verifier::external_body]
fn sort_by_rank(list: &mut Vec<Candidate>)
    ensures
        final(list)@.to_multiset() == old(list)@.to_multiset(),
        forall|i: int, j: int|
            0 <= i < j < final(list)@.len() ==> !ranks_before(final(list)@[j], final(list)@[i]),
{
    list.sort_by_key(|c| rank_key(c));
}

/// The candidates of a distribution hold every token once.
proof fn lemma_candidates_distinct(masses: Seq<u32>)
    requires
        masses.len() <= u32::MAX,
    ensures
        candidates_of(masses).no_duplicates(),
{
}

/// The candidates of a distribution, best first.
pub fn rank_candidates(masses: &Vec<u32>) -> (r: (Vec<Candidate>, u64))
    requires
        masses.len() <= u32::MAX,
    ensures
        is_ranking_of(r.0@, masses@),
        r.1 == mass_sum(candidates_of(masses@)),
{
    let (mut list, total) = list_candidates(masses);
    sort_by_rank(&mut list);
    proof {
        let all = candidates_of(masses@);
        lemma_candidates_distinct(masses@);
        all.lemma_multiset_has_no_duplicates();
        list@.lemma_multiset_has_no_duplicates_conv();
        assert forall|i: int, j: int| 0 <= i < j < list@.len() implies ranks_before(
            list@[i],
            list@[j],
        ) by {
            assert(list@[i] != list@[j]);
            assert(!ranks_before(list@[j], list@[i]));
        }
    }
    (list, total)
}

/// The nucleus filter: the number of leading candidates to keep so that
/// their mass just reaches `share` millionths of `total`.
pub fn nucleus_cutoff(list: &Vec<Candidate>, share: u32, total: u64) -> (cut: usize)
    requires
        list.len() <= u32::MAX,
    ensures
        cut == nucleus_len(list@, share as nat, total as nat),
        cut <= list.len(),
{
    assert(share as nat * total as nat <= 0xFFFF_FFFF * 0xFFFF_FFFF_FFFF_FFFF) by (nonlinear_arith)
        requires
            share <= 0xFFFF_FFFF,
            total <= 0xFFFF_FFFF_FFFF_FFFF,
    ;
    let goal: u128 = (share as u128) * (total as u128);
    let mut sum: u64 = 0;
    let mut i: usize = 0;
    while i < list.len()
        invariant
            i <= list.len() <= u32::MAX,
            goal == share as nat * total as nat,
            sum == mass_sum(list@.take(i as int)),
            nucleus_len(list@, share as nat, total as nat) == nucleus_scan(
                list@,
                share as nat,
                total as nat,
                i as nat,
            ),
        decreases list.len() - i,
    {
        proof {
            lemma_mass_sum_step(list@, i as int);
            lemma_mass_sum_fits(list@, i + 1);
        }
        sum = sum + list[i].mass as u64;
        assert(sum as nat * UNIT as nat <= 0xFFFF_FFFF_FFFF_FFFF * 1_000_000) by (nonlinear_arith)
            requires
                sum <= 0xFFFF_FFFF_FFFF_FFFF,
                UNIT == 1_000_000,
        ;
        if (sum as u128) * (UNIT as u128) >= goal {
            return i + 1;
        }
        i = i + 1;
    }
    i
}

/// The whole mass of a list of candidates.
pub fn total_mass(list: &Vec<Candidate>) -> (total: u64)
    requires
        list.len() <= u32::MAX,
    ensures
        total == mass_sum(list@),
{
    let mut total: u64 = 0;
    let mut i: usize = 0;
    while i < list.len()
        invariant
            i <= list.len() <= u32::MAX,
            total == mass_sum(list@.take(i as int)),
        decreases list.len() - i,
    {
        proof {
            lemma_mass_sum_step(list@, i as int);
            lemma_mass_sum_fits(list@, i + 1);
        }
        total = total + list[i].mass as u64;
        i = i + 1;
    }
    assert(list@.take(i as int) =~= list@);
    total
}

/// Position of the candidate with the largest mass, the earliest among
/// equals.
pub fn find_best(list: &Vec<Candidate>) -> (best: usize)
    ensures
        best == best_index(list@),
        list.len() > 0 ==> best < list.len(),
{
    let mut best: usize = 0;
    let mut i: usize = 1;
    if list.len() <= 1 {
        return 0;
    }
    assert(list@.take(1).drop_last().len() == 0);
    while i < list.len()
        invariant
            1 <= i <= list.len(),
            best < i,
            best == best_index(list@.take(i as int)),
        decreases list.len() - i,
    {
        assert(list@.take(i + 1).drop_last() =~= list@.take(i as int));
        if list[i].mass > list[best].mass {
            best = i;
        }
        i = i + 1;
    }
    assert(list@.take(i as int) =~= list@);
    best
}

/// Position of the candidate that a drawn number falls on.
pub fn find_drawn(list: &Vec<Candidate>, draw: u64) -> (at: usize)
    requires
        0 < list.len() <= u32::MAX,
    ensures
        at == draw_scan(list@, draw as nat, 0),
        at < list.len(),
{
    let mut sum: u64 = 0;
    let mut i: usize = 0;
    while i < list.len()
        invariant
            i <= list.len() <= u32::MAX,
            0 < list.len(),
            sum == mass_sum(list@.take(i as int)),
            draw_scan(list@, draw as nat, 0) == draw_scan(list@, draw as nat, i as nat),
        decreases list.len() - i,
    {
        proof {
            lemma_mass_sum_step(list@, i as int);
            lemma_mass_sum_fits(list@, i + 1);
        }
        sum = sum + list[i].mass as u64;
        if draw < sum {
            return i;
        }
        i = i + 1;
    }
    list.len() - 1
}

/// The token chosen from the kept candidates: the most probable one when
/// `greedy`, else the one that `draw` falls on.
pub fn choose_token(kept: &Vec<Candidate>, greedy: bool, draw: u64) -> (token: u32)
    requires
        kept.len() <= u32::MAX,
    ensures
        token == chosen_token(kept@, greedy, draw as nat),
{
    if kept.len() == 0 {
        0
    } else if greedy {
        kept[find_best(kept)].token
    } else {
        kept[find_drawn(kept, draw)].token
    }
}

/// The nucleus filter keeps at least one candidate of a list that has one,
/// and never more than the list holds.
pub proof fn lemma_nucleus_scan_bounds(s: Seq<Candidate>, share: nat, total: nat, from: nat)
    requires
        from <= s.len(),
    ensures
        nucleus_scan(s, share, total, from) <= s.len(),
        from < s.len() ==> nucleus_scan(s, share, total, from) > from,
    decreases s.len() - from,
{
    if from < s.len() && !reaches(s, from + 1 as int, share, total) {
        lemma_nucleus_scan_bounds(s, share, total, from + 1);
    }
}

proof fn lemma_nucleus_scan_minimal(s: Seq<Candidate>, share: nat, total: nat, from: nat)
    requires
        from <= s.len(),
        !reaches(s, from as int, share, total),
        reaches(s, s.len() as int, share, total),
    ensures
        from < nucleus_scan(s, share, total, from) <= s.len(),
        reaches(s, nucleus_scan(s, share, total, from) as int, share, total),
        !reaches(s, nucleus_scan(s, share, total, from) - 1, share, total),
    decreases s.len() - from,
{
    if !reaches(s, from + 1 as int, share, total) {
        lemma_nucleus_scan_minimal(s, share, total, from + 1);
    }
}

/// The candidates that the nucleus filter keeps hold at least the share of
/// the whole mass that was asked for, and without the last of them they hold
/// less. This is stated of a list whose own mass reaches that share, and of a
/// distribution that has any mass at all.
pub proof fn lemma_nucleus_is_shortest(s: Seq<Candidate>, share: nat, total: nat)
    requires
        0 < share,
        0 < total,
        reaches(s, s.len() as int, share, total),
    ensures
        1 <= nucleus_len(s, share, total) <= s.len(),
        reaches(s, nucleus_len(s, share, total) as int, share, total),
        !reaches(s, nucleus_len(s, share, total) - 1, share, total),
{
    assert(share * total > 0) by (nonlinear_arith)
        requires
            0 < share,
            0 < total,
    ;
    assert(s.take(0).len() == 0);
    lemma_nucleus_scan_minimal(s, share, total, 0);
}

/// Out of `n` candidates the top-k filter leaves at most `top_k`, and exactly
/// `top_k` where there were more.
pub proof fn lemma_top_k_len(params: SamplingParams, n: nat)
    requires
        params.top_k > 0,
    ensures
        params.top_k_len(n) <= params.top_k,
        params.top_k < n ==> params.top_k_len(n) == params.top_k,
        params.top_k_len(n) <= n,
{
}

/// In a ranked list the first candidate is the best.
pub proof fn lemma_best_of_ranked(s: Seq<Candidate>)
    requires
        is_ranked(s),
    ensures
        best_index(s) == 0,
    decreases s.len(),
{
    if s.len() > 1 {
        let front = s.drop_last();
        assert forall|i: int, j: int| 0 <= i < j < front.len() implies ranks_before(
            front[i],
            front[j],
        ) by {
            assert(ranks_before(s[i], s[j]));
        }
        lemma_best_of_ranked(front);
        assert(ranks_before(s[0], s[s.len() - 1]));
    }
}

/// The best candidate has the largest mass, and a larger one than all
/// before it.
pub proof fn lemma_best_is_largest(s: Seq<Candidate>)
    requires
        s.len() > 0,
    ensures
        0 <= best_index(s) < s.len(),
        forall|j: int| 0 <= j < s.len() ==> (#[trigger] s[j]).mass <= s[best_index(s)].mass,
        forall|j: int| 0 <= j < best_index(s) ==> (#[trigger] s[j]).mass < s[best_index(s)].mass,
    decreases s.len(),
{
    if s.len() > 1 {
        let front = s.drop_last();
        lemma_best_is_largest(front);
        assert forall|j: int| 0 <= j < s.len() implies (#[trigger] s[j]).mass <= s[best_index(
            s,
        )].mass by {
            if j < front.len() {
                assert(front[j] == s[j]);
            }
        }
        assert forall|j: int| 0 <= j < best_index(s) implies (#[trigger] s[j]).mass < s[best_index(
            s,
        )].mass by {
            assert(front[j] == s[j]);
        }
    }
}

/// A ranking of a distribution starts with its most probable token.
pub proof fn lemma_ranking_starts_with_best(ranked: Seq<Candidate>, masses: Seq<u32>)
    requires
        0 < masses.len() <= u32::MAX,
        is_ranking_of(ranked, masses),
    ensures
        ranked.len() == masses.len(),
        ranked[0].token == argmax_first(masses),
{
    broadcast use vstd::seq_lib::group_to_multiset_ensures;

    let all = candidates_of(masses);
    let b = best_index(all);
    lemma_best_is_largest(all);
    all.to_multiset_ensures();
    ranked.to_multiset_ensures();
    assert(ranked.to_multiset().len() == all.to_multiset().len());
    assert(all.contains(all[b]));
    assert(all.to_multiset().count(all[b]) > 0);
    assert(ranked.to_multiset().count(all[b]) > 0);
    assert(ranked.contains(all[b]));
    let s = choose|s: int| 0 <= s < ranked.len() && ranked[s] == all[b];
    assert(ranked.contains(ranked[0]));
    assert(ranked.to_multiset().count(ranked[0]) > 0);
    assert(all.to_multiset().count(ranked[0]) > 0);
    assert(all.contains(ranked[0]));
    let t = choose|t: int| 0 <= t < all.len() && all[t] == ranked[0];
    if s > 0 {
        assert(ranks_before(ranked[0], ranked[s]));
        assert(all[t].mass <= all[b].mass);
        assert(t < b);
    }
}

/// Two ranked lists that hold the same candidates are the same list.
pub proof fn lemma_ranked_is_unique(a: Seq<Candidate>, b: Seq<Candidate>)
    requires
        is_ranked(a),
        is_ranked(b),
        a.to_multiset() == b.to_multiset(),
    ensures
        a == b,
    decreases a.len(),
{
    a.to_multiset_ensures();
    b.to_multiset_ensures();
    assert(a.len() == b.len());
    if a.len() > 0 {
        assert(a.contains(a[0]));
        assert(b.to_multiset().count(a[0]) > 0);
        assert(b.contains(a[0]));
        let t = choose|t: int| 0 <= t < b.len() && b[t] == a[0];
        assert(b.contains(b[0]));
        assert(a.to_multiset().count(b[0]) > 0);
        assert(a.contains(b[0]));
        let s = choose|s: int| 0 <= s < a.len() && a[s] == b[0];
        if t > 0 && s > 0 {
            assert(ranks_before(b[0], b[t]));
            assert(ranks_before(a[0], a[s]));
        }
        assert(a[0] == b[0]);
        let a_rest = a.remove(0);
        let b_rest = b.remove(0);
        assert(a_rest.to_multiset() == b_rest.to_multiset());
        assert forall|i: int, j: int| 0 <= i < j < a_rest.len() implies ranks_before(
            a_rest[i],
            a_rest[j],
        ) by {
            assert(ranks_before(a[i + 1], a[j + 1]));
        }
        assert forall|i: int, j: int| 0 <= i < j < b_rest.len() implies ranks_before(
            b_rest[i],
            b_rest[j],
        ) by {
            assert(ranks_before(b[i + 1], b[j + 1]));
        }
        lemma_ranked_is_unique(a_rest, b_rest);
        assert(a =~= seq![a[0]] + a_rest);
        assert(b =~= seq![b[0]] + b_rest);
    }
}

/// A distribution has one ranking only, so that what the filters leave of it
/// is one list only.
pub proof fn lemma_kept_is_unique(
    params: SamplingParams,
    first: Seq<Candidate>,
    second: Seq<Candidate>,
    masses: Seq<u32>,
)
    requires
        params.keeps(first, masses),
        params.keeps(second, masses),
    ensures
        first == second,
{
    if params.top_k_cuts(masses.len()) || params.nucleus_on() {
        let total = mass_sum(candidates_of(masses));
        let r1 = choose|ranked: Seq<Candidate>|
            #![trigger is_ranking_of(ranked, masses)]
            is_ranking_of(ranked, masses) && first == params.shortlist(ranked, total);
        let r2 = choose|ranked: Seq<Candidate>|
            #![trigger is_ranking_of(ranked, masses)]
            is_ranking_of(ranked, masses) && second == params.shortlist(ranked, total);
        lemma_ranked_is_unique(r1, r2);
    }
}

/// With temperature zero the token chosen is the most probable one of the
/// distribution, the lowest among equals, whatever `top_k` and `top_p` are
/// and whatever number was drawn.
pub proof fn lemma_greedy_is_argmax(
    params: SamplingParams,
    kept: Seq<Candidate>,
    masses: Seq<u32>,
    draw: nat,
)
    requires
        masses.len() <= u32::MAX,
        params.keeps(kept, masses),
    ensures
        chosen_token(kept, true, draw) == argmax_first(masses),
{
    broadcast use vstd::seq_lib::group_to_multiset_ensures;

    if params.top_k_cuts(masses.len()) || params.nucleus_on() {
        let total = mass_sum(candidates_of(masses));
        let ranked = choose|ranked: Seq<Candidate>|
            #![trigger is_ranking_of(ranked, masses)]
            is_ranking_of(ranked, masses) && kept == params.shortlist(ranked, total);
        assert(ranked.to_multiset().len() == candidates_of(masses).to_multiset().len());
        if masses.len() > 0 {
            lemma_ranking_starts_with_best(ranked, masses);
            let top = ranked.take(params.top_k_len(ranked.len()) as int);
            lemma_nucleus_scan_bounds(top, params.top_p as nat, total, 0);
            assert(kept.len() > 0);
            assert(kept[0] == ranked[0]);
            assert(is_ranked(kept));
            lemma_best_of_ranked(kept);
        }
    }
}

/// The position on which a draw falls lies in the list.
pub proof fn lemma_draw_scan_bounds(s: Seq<Candidate>, draw: nat, from: nat)
    requires
        s.len() > 0,
        from <= s.len(),
    ensures
        0 <= draw_scan(s, draw, from) < s.len(),
    decreases s.len() - from,
{
    if from < s.len() && !(draw < mass_sum(s.take(from + 1 as int))) {
        lemma_draw_scan_bounds(s, draw, from + 1);
    }
}

/// Every candidate that the filters leave is a token of the distribution,
/// with its own mass.
pub proof fn lemma_kept_are_candidates(params: SamplingParams, kept: Seq<Candidate>, masses: Seq<u32>)
    requires
        masses.len() <= u32::MAX,
        params.keeps(kept, masses),
    ensures
        forall|i: int|
            0 <= i < kept.len() ==> (#[trigger] kept[i]).token < masses.len() && kept[i].mass
                == masses[kept[i].token as int],
{
    let all = candidates_of(masses);
    if params.top_k_cuts(masses.len()) || params.nucleus_on() {
        let total = mass_sum(all);
        let ranked = choose|ranked: Seq<Candidate>|
            #![trigger is_ranking_of(ranked, masses)]
            is_ranking_of(ranked, masses) && kept == params.shortlist(ranked, total);
        all.to_multiset_ensures();
        ranked.to_multiset_ensures();
        let top = ranked.take(params.top_k_len(ranked.len()) as int);
        lemma_nucleus_scan_bounds(top, params.top_p as nat, total, 0);
        assert forall|i: int| 0 <= i < kept.len() implies (#[trigger] kept[i]).token
            < masses.len() && kept[i].mass == masses[kept[i].token as int] by {
            assert(kept[i] == ranked[i]);
            assert(ranked.contains(ranked[i]));
            assert(ranked.to_multiset().count(ranked[i]) > 0);
            assert(all.to_multiset().count(ranked[i]) > 0);
            assert(all.contains(ranked[i]));
            let j = choose|j: int| 0 <= j < all.len() && all[j] == ranked[i];
            assert(all[j].token == j);
        }
    }
}

/// The token that is chosen is a token of the distribution: no token beyond
/// the vocabulary is ever sampled.
pub proof fn lemma_chosen_is_in_vocabulary(
    params: SamplingParams,
    kept: Seq<Candidate>,
    masses: Seq<u32>,
    greedy: bool,
    draw: nat,
)
    requires
        0 < masses.len() <= u32::MAX,
        params.keeps(kept, masses),
    ensures
        chosen_token(kept, greedy, draw) < masses.len(),
{
    lemma_kept_are_candidates(params, kept, masses);
    if kept.len() > 0 {
        lemma_best_is_largest(kept);
        lemma_draw_scan_bounds(kept, draw, 0);
    }
}

/// The mass of the head of a list grows with the head.
pub proof fn lemma_prefix_mass_grows(s: Seq<Candidate>, a: int, b: int)
    requires
        0 <= a <= b <= s.len(),
    ensures
        mass_sum(s.take(a)) <= mass_sum(s.take(b)),
    decreases b - a,
{
    if a < b {
        lemma_mass_sum_step(s, b - 1);
        lemma_prefix_mass_grows(s, a, b - 1);
    }
}

proof fn lemma_draw_lands(s: Seq<Candidate>, i: int, from: int)
    requires
        0 <= from <= i < s.len(),
        s[i].mass > 0,
    ensures
        draw_scan(s, mass_sum(s.take(i)), from as nat) == i,
    decreases i - from,
{
    lemma_mass_sum_step(s, i);
    if from < i {
        lemma_prefix_mass_grows(s, from + 1, i);
        lemma_draw_lands(s, i, from + 1);
    }
}

/// Every candidate that has any mass is drawn: the number that the
/// candidates before it weigh together is below the whole mass and falls on
/// it. So the tokens that are returned for some number drawn are exactly
/// the tokens that are kept and have mass.
pub proof fn lemma_every_candidate_is_drawn(kept: Seq<Candidate>, i: int)
    requires
        0 <= i < kept.len(),
        kept[i].mass > 0,
    ensures
        mass_sum(kept.take(i)) < mass_sum(kept),
        chosen_token(kept, false, mass_sum(kept.take(i))) == kept[i].token,
{
    lemma_mass_sum_step(kept, i);
    lemma_prefix_mass_grows(kept, i + 1, kept.len() as int);
    assert(kept.take(kept.len() as int) =~= kept);
    lemma_draw_lands(kept, i, 0);
}

/// A candidate without mass is never drawn while the candidates have any
/// mass at all: the number drawn is below the whole mass.
pub proof fn lemma_massless_is_not_drawn(kept: Seq<Candidate>, draw: nat, from: nat)
    requires
        draw < mass_sum(kept),
        from <= kept.len(),
        mass_sum(kept.take(from as int)) <= draw,
    ensures
        0 <= draw_scan(kept, draw, from) < kept.len(),
        kept[draw_scan(kept, draw, from)].mass > 0,
    decreases kept.len() - from,
{
    assert(kept.take(kept.len() as int) =~= kept);
    if from < kept.len() {
        lemma_mass_sum_step(kept, from as int);
        if !(draw < mass_sum(kept.take(from + 1 as int))) {
            lemma_massless_is_not_drawn(kept, draw, from + 1);
        }
    }
}

/// The candidates that the filters leave are different tokens.
pub proof fn lemma_kept_tokens_differ(
    params: SamplingParams,
    kept: Seq<Candidate>,
    masses: Seq<u32>,
    i: int,
    j: int,
)
    requires
        masses.len() <= u32::MAX,
        params.keeps(kept, masses),
        0 <= i < j < kept.len(),
    ensures
        kept[i].token != kept[j].token,
{
    lemma_kept_are_candidates(params, kept, masses);
    if params.top_k_cuts(masses.len()) || params.nucleus_on() {
        let total = mass_sum(candidates_of(masses));
        let ranked = choose|ranked: Seq<Candidate>|
            #![trigger is_ranking_of(ranked, masses)]
            is_ranking_of(ranked, masses) && kept == params.shortlist(ranked, total);
        let top = ranked.take(params.top_k_len(ranked.len()) as int);
        lemma_nucleus_scan_bounds(top, params.top_p as nat, total, 0);
        assert(kept[i] == ranked[i] && kept[j] == ranked[j]);
        assert(ranks_before(ranked[i], ranked[j]));
    }
}

/// With the nucleus filter off and a `top_k` below the size of the
/// vocabulary, the tokens that can be returned are the `top_k` best: that
/// many candidates are kept, they are the head of the ranking and
/// different tokens, and each of them that has any mass is returned for some
/// number drawn below the mass of the kept.
pub proof fn lemma_top_k_are_drawn(
    params: SamplingParams,
    kept: Seq<Candidate>,
    ranked: Seq<Candidate>,
    masses: Seq<u32>,
    i: int,
)
    requires
        masses.len() <= u32::MAX,
        0 < params.top_k < masses.len(),
        !params.nucleus_on(),
        params.keeps(kept, masses),
        is_ranking_of(ranked, masses),
        0 <= i < params.top_k,
    ensures
        kept.len() == params.top_k,
        kept == ranked.take(params.top_k as int),
        kept[i].mass > 0 ==> mass_sum(kept.take(i)) < mass_sum(kept) && chosen_token(
            kept,
            false,
            mass_sum(kept.take(i)),
        ) == kept[i].token,
{
    let total = mass_sum(candidates_of(masses));
    let other = choose|other: Seq<Candidate>|
        #![trigger is_ranking_of(other, masses)]
        is_ranking_of(other, masses) && kept == params.shortlist(other, total);
    lemma_ranked_is_unique(other, ranked);
    ranked.to_multiset_ensures();
    candidates_of(masses).to_multiset_ensures();
    assert(ranked.len() == masses.len());
    if kept[i].mass > 0 {
        lemma_every_candidate_is_drawn(kept, i);
    }
}

proof fn lemma_mass_sum_without(s: Seq<Candidate>, j: int)
    requires
        0 <= j < s.len(),
    ensures
        mass_sum(s) == mass_sum(s.remove(j)) + s[j].mass,
    decreases s.len(),
{
    if j == s.len() - 1 {
        assert(s.remove(j) =~= s.drop_last());
    } else {
        assert(s.remove(j).drop_last() =~= s.drop_last().remove(j));
        assert(s.remove(j).last() == s.last());
        lemma_mass_sum_without(s.drop_last(), j);
    }
}

/// Two lists that hold the same candidates weigh the same.
pub proof fn lemma_same_candidates_same_mass(a: Seq<Candidate>, b: Seq<Candidate>)
    requires
        a.to_multiset() == b.to_multiset(),
    ensures
        mass_sum(a) == mass_sum(b),
    decreases a.len(),
{
    a.to_multiset_ensures();
    b.to_multiset_ensures();
    if a.len() > 0 {
        let x = a.last();
        assert(a.contains(x));
        assert(b.to_multiset().count(x) > 0);
        assert(b.contains(x));
        let j = choose|j: int| 0 <= j < b.len() && b[j] == x;
        assert(a.drop_last() =~= a.remove(a.len() - 1));
        assert(a.drop_last().to_multiset() =~= b.remove(j).to_multiset());
        lemma_same_candidates_same_mass(a.drop_last(), b.remove(j));
        lemma_mass_sum_without(b, j);
    }
}

/// With the nucleus filter on and the top-k filter off, the candidates that
/// are kept hold at least the share `top_p` of the whole mass, and without
/// the last of them they hold less; they are the head of the ranking, so
/// that with a token every token that ranks before it is kept. This holds of
/// every distribution that has any mass.
pub proof fn lemma_nucleus_of_a_ranking(
    params: SamplingParams,
    kept: Seq<Candidate>,
    ranked: Seq<Candidate>,
    masses: Seq<u32>,
)
    requires
        masses.len() <= u32::MAX,
        params.nucleus_on(),
        !params.top_k_cuts(masses.len()),
        params.keeps(kept, masses),
        is_ranking_of(ranked, masses),
        mass_sum(candidates_of(masses)) > 0,
    ensures
        1 <= kept.len() <= ranked.len(),
        kept == ranked.take(kept.len() as int),
        mass_sum(kept) * UNIT >= params.top_p * mass_sum(candidates_of(masses)),
        mass_sum(kept.drop_last()) * UNIT < params.top_p * mass_sum(candidates_of(masses)),
{
    let total = mass_sum(candidates_of(masses));
    let other = choose|other: Seq<Candidate>|
        #![trigger is_ranking_of(other, masses)]
        is_ranking_of(other, masses) && kept == params.shortlist(other, total);
    lemma_ranked_is_unique(other, ranked);
    ranked.to_multiset_ensures();
    candidates_of(masses).to_multiset_ensures();
    assert(ranked.len() == masses.len());
    let top = ranked.take(params.top_k_len(ranked.len()) as int);
    assert(top =~= ranked);
    lemma_same_candidates_same_mass(ranked, candidates_of(masses));
    assert(ranked.take(ranked.len() as int) =~= ranked);
    assert(mass_sum(ranked) * UNIT >= params.top_p * total) by (nonlinear_arith)
        requires
            mass_sum(ranked) == total,
            params.top_p < UNIT,
    ;
    lemma_nucleus_is_shortest(ranked, params.top_p as nat, total);
    let n = nucleus_len(ranked, params.top_p as nat, total);
    assert(kept == ranked.take(n as int));
    assert(kept.drop_last() =~= ranked.take(n - 1));
}

/// The candidates that the filters leave of a distribution: all of them, in
/// token order, where no filter applies; else the best `top_k` of them, cut
/// down to the shortest head that holds the share `top_p` of the whole mass.
pub fn filter_candidates(masses: &Vec<u32>, params: &SamplingParams) -> (kept: Vec<Candidate>)
    requires
        masses.len() <= u32::MAX,
    ensures
        params.keeps(kept@, masses@),
        kept.len() <= masses.len(),
        masses.len() > 0 ==> kept.len() > 0,
        params.top_k > 0 ==> kept.len() <= params.top_k,
        !params.nucleus_on() ==> kept.len() == params.top_k_len(masses@.len()),
{
    broadcast use vstd::seq_lib::group_to_multiset_ensures;

    let n = masses.len();
    let cuts = params.top_k > 0 && params.top_k < n;
    let nucleus = params.top_p > 0 && params.top_p < UNIT;
    if !cuts && !nucleus {
        let (list, _total) = list_candidates(masses);
        return list;
    }
    let (mut list, total) = rank_candidates(masses);
    let ghost ranked = list@;
    assert(ranked.to_multiset().len() == candidates_of(masses@).to_multiset().len());
    if cuts {
        list.truncate(params.top_k);
    }
    assert(list@ == ranked.take(params.top_k_len(ranked.len()) as int));
    if nucleus {
        let cut = nucleus_cutoff(&list, params.top_p, total);
        proof {
            lemma_nucleus_scan_bounds(list@, params.top_p as nat, total as nat, 0);
        }
        list.truncate(cut);
    }
    assert(list@ == params.shortlist(ranked, total as nat));
    assert(is_ranking_of(ranked, masses@));
    list
}

/// The next token for a distribution: the filters of `params` are applied,
/// and of what they leave the most probable token is taken at temperature
/// zero, else the one on which `draw` falls.
pub fn sample(masses: &Vec<u32>, params: &SamplingParams, draw: u64) -> (token: u32)
    requires
        masses.len() <= u32::MAX,
    ensures
        exists|kept: Seq<Candidate>|
            #![trigger params.keeps(kept, masses@)]
            params.keeps(kept, masses@) && token == chosen_token(
                kept,
                params.is_greedy(),
                draw as nat,
            ),
        params.is_greedy() ==> token == argmax_first(masses@),
        masses.len() > 0 ==> token < masses.len(),
{
    let kept = filter_candidates(masses, params);
    let token = choose_token(&kept, params.greedy(), draw);
    proof {
        if params.is_greedy() {
            lemma_greedy_is_argmax(*params, kept@, masses@, draw as nat);
        }
        if masses.len() > 0 {
            lemma_chosen_is_in_vocabulary(
                *params,
                kept@,
                masses@,
                params.is_greedy(),
                draw as nat,
            );
        }
    }
    token
}

} // verus!
