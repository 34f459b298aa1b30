//! The population layer: a generation is a round robin in which every
//! distinct pair of players meets a given number of times.

use vstd::prelude::*;

use crate::config::{is_player_entry, AgentEntry, Config};

verus! {

/// The meetings of player `i` with the players `j..n` that come after it,
/// each pair `per` times.
pub open spec fn row(i: int, j: int, n: int, per: nat) -> Seq<(int, int)>
    decreases n - j, per,
{
    if j >= n {
        Seq::empty()
    } else {
        Seq::new(per, |_k: int| (i, j)) + row(i, j + 1, n, per)
    }
}

/// All meetings of a generation among players `i..n`: every pair `(i, j)`
/// with `i < j < n`, each `per` times, in lexicographic order.
pub open spec fn schedule(i: int, n: int, per: nat) -> Seq<(int, int)>
    decreases n - i,
{
    if i >= n {
        Seq::empty()
    } else {
        row(i, i + 1, n, per) + schedule(i + 1, n, per)
    }
}

/// The number of distinct pairs among `n` players.
pub open spec fn pair_count(n: nat) -> nat
    decreases n,
{
    if n == 0 {
        0
    } else {
        pair_count((n - 1) as nat) + (n - 1) as nat
    }
}

/// How many times each pair meets: as asked, but at least once.
pub open spec fn meetings_per_pair(k: u32) -> nat {
    if k == 0 {
        1
    } else {
        k as nat
    }
}

proof fn lemma_row_len(i: int, j: int, n: int, per: nat)
    ensures
        row(i, j, n, per).len() == if j >= n {
            0
        } else {
            per * ((n - j) as nat)
        },
    decreases n - j,
{
    if j < n {
        lemma_row_len(i, j + 1, n, per);
        assert(per * ((n - j) as nat) == per + per * ((n - j - 1) as nat)) by (nonlinear_arith)
            requires
                j < n,
        ;
        assert(per * 0 == 0) by (nonlinear_arith);
    }
}

proof fn lemma_schedule_len(i: int, n: int, per: nat)
    requires
        0 <= i <= n,
    ensures
        schedule(i, n, per).len() == per * pair_count((n - i) as nat),
    decreases n - i,
{
    if i < n {
        lemma_schedule_len(i + 1, n, per);
        lemma_row_len(i, i + 1, n, per);
        let m: nat = (n - i - 1) as nat;
        assert(pair_count((n - i) as nat) == pair_count(m) + m);
        assert(per * (pair_count(m) + m) == per * pair_count(m) + per * m) by (nonlinear_arith);
        assert(per * 0 == 0) by (nonlinear_arith);
    }
}

/// How many times `x` occurs in `s`.
pub open spec fn occurrences<A>(s: Seq<A>, x: A) -> nat
    decreases s.len(),
{
    if s.len() == 0 {
        0
    } else {
        occurrences(s.drop_last(), x) + if s.last() == x {
            1nat
        } else {
            0nat
        }
    }
}

proof fn lemma_occurrences_concat<A>(a: Seq<A>, b: Seq<A>, x: A)
    ensures
        occurrences(a + b, x) == occurrences(a, x) + occurrences(b, x),
    decreases b.len(),
{
    if b.len() == 0 {
        assert(a + b =~= a);
    } else {
        lemma_occurrences_concat(a, b.drop_last(), x);
        assert((a + b).drop_last() =~= a + b.drop_last());
        assert((a + b).last() == b.last());
    }
}

proof fn lemma_occurrences_repeat<A>(per: nat, c: A, x: A)
    ensures
        occurrences(Seq::new(per, |_k: int| c), x) == if x == c {
            per
        } else {
            0
        },
    decreases per,
{
    if per > 0 {
        lemma_occurrences_repeat((per - 1) as nat, c, x);
        assert(Seq::new(per, |_k: int| c).drop_last() =~= Seq::new((per - 1) as nat, |_k: int| c));
    }
}

proof fn lemma_row_occurrences(i: int, j: int, n: int, per: nat, p: (int, int))
    ensures
        occurrences(row(i, j, n, per), p) == if p.0 == i && j <= p.1 < n {
            per
        } else {
            0
        },
    decreases n - j,
{
    if j < n {
        lemma_row_occurrences(i, j + 1, n, per, p);
        lemma_occurrences_repeat(per, (i, j), p);
        lemma_occurrences_concat(Seq::new(per, |_k: int| (i, j)), row(i, j + 1, n, per), p);
    }
}

proof fn lemma_schedule_occurrences(i: int, n: int, per: nat, p: (int, int))
    ensures
        occurrences(schedule(i, n, per), p) == if i <= p.0 && p.0 < p.1 && p.1 < n {
            per
        } else {
            0
        },
    decreases n - i,
{
    if i < n {
        lemma_schedule_occurrences(i + 1, n, per, p);
        lemma_row_occurrences(i, i + 1, n, per, p);
        lemma_occurrences_concat(row(i, i + 1, n, per), schedule(i + 1, n, per), p);
    }
}

/// A generation among `n` players, each pair meeting `per` times, holds
/// `per` times as many matches as there are pairs, `per * n * (n - 1) / 2`.
pub proof fn generation_size(n: nat, per: nat)
    ensures
        schedule(0, n as int, per).len() == per * pair_count(n),
        2 * pair_count(n) == n * (n - 1),
{
    lemma_schedule_len(0, n as int, per);
    lemma_pair_count_closed(n);
}

proof fn lemma_pair_count_closed(n: nat)
    ensures
        2 * pair_count(n) == n * (n - 1),
    decreases n,
{
    if n > 0 {
        lemma_pair_count_closed((n - 1) as nat);
        let m: nat = (n - 1) as nat;
        let p: nat = pair_count(m);
        assert(pair_count(n) == p + m);
        assert(2 * p == m * (m - 1));
        assert(2 * (p + m) == n * (n - 1)) by (nonlinear_arith)
            requires
                m == n - 1,
                2 * p == m * (m - 1),
        ;
    } else {
        assert(n * (n - 1) == 0) by (nonlinear_arith)
            requires
                n == 0,
        ;
    }
}

/// In a generation, every distinct pair of players meets exactly `per` times
/// (the first-listed player before the second) and no player meets itself.
pub proof fn generation_pairs_meet(n: nat, per: nat, a: int, b: int)
    ensures
        occurrences(schedule(0, n as int, per), (a, b)) == if 0 <= a < b < n {
            per
        } else {
            0
        },
{
    lemma_schedule_occurrences(0, n as int, per, (a, b));
}

/// The meetings as pairs of integers.
pub open spec fn pairs_view(v: Seq<(usize, usize)>) -> Seq<(int, int)> {
    v.map_values(|p: (usize, usize)| (p.0 as int, p.1 as int))
}

proof fn lemma_concat_assoc<A>(a: Seq<A>, b: Seq<A>, c: Seq<A>)
    ensures
        a + b + c == a + (b + c),
{
    assert(a + b + c =~= a + (b + c));
}

/// The meetings of a generation among `num_players` players, each pair
/// meeting `matches_per_pairing` times (at least once), in order of the
/// first player, then the second.
pub fn pairings(num_players: usize, matches_per_pairing: u32) -> (r: Vec<(usize, usize)>)
    ensures
        pairs_view(r@) == schedule(0, num_players as int, meetings_per_pair(matches_per_pairing)),
{
    let per: u32 = if matches_per_pairing == 0 {
        1
    } else {
        matches_per_pairing
    };
    let ghost pn: nat = per as nat;
    let ghost n: int = num_players as int;
    let ghost total = schedule(0, n, pn);
    let mut r: Vec<(usize, usize)> = Vec::new();
    let mut i: usize = 0;
    assert(pairs_view(r@) + schedule(0, n, pn) =~= total);
    while i < num_players
        invariant
            i <= num_players,
            n == num_players,
            pn == per,
            total == schedule(0, n, pn),
            pairs_view(r@) + schedule(i as int, n, pn) == total,
        decreases num_players - i,
    {
        let mut j: usize = i + 1;
        proof {
            lemma_concat_assoc(pairs_view(r@), row(i as int, j as int, n, pn), schedule(i + 1, n, pn));
        }
        while j < num_players
            invariant
                i < num_players,
                i + 1 <= j <= num_players,
                n == num_players,
                pn == per,
                total == schedule(0, n, pn),
                pairs_view(r@) + (row(i as int, j as int, n, pn) + schedule(i + 1, n, pn)) == total,
            decreases num_players - j,
        {
            let mut k: u32 = 0;
            proof {
                let rep = Seq::new(pn, |_k: int| (i as int, j as int));
                assert(row(i as int, j as int, n, pn) == rep + row(i as int, j + 1, n, pn));
                assert(Seq::new((pn - 0) as nat, |_k: int| (i as int, j as int)) =~= rep);
                assert(pairs_view(r@) + (row(i as int, j as int, n, pn) + schedule(i + 1, n, pn))
                    =~= pairs_view(r@) + (Seq::new((pn - 0) as nat, |_k: int| (i as int, j as int))
                    + (row(i as int, j + 1, n, pn) + schedule(i + 1, n, pn))));
            }
            while k < per
                invariant
                    i < j < num_players,
                    k <= per,
                    n == num_players,
                    pn == per,
                    total == schedule(0, n, pn),
                    pairs_view(r@) + (Seq::new((pn - k) as nat, |_k: int| (i as int, j as int)) + (
                    row(i as int, j + 1, n, pn) + schedule(i + 1, n, pn))) == total,
                decreases per - k,
            {
                let ghost before = pairs_view(r@);
                r.push((i, j));
                proof {
                    let rest = row(i as int, j + 1, n, pn) + schedule(i + 1, n, pn);
                    let s1 = Seq::new((pn - k) as nat, |_k: int| (i as int, j as int));
                    let s2 = Seq::new((pn - k - 1) as nat, |_k: int| (i as int, j as int));
                    assert(pairs_view(r@) =~= before.push((i as int, j as int)));
                    assert(s1 =~= seq![(i as int, j as int)] + s2);
                    assert(before + (s1 + rest) =~= pairs_view(r@) + (s2 + rest));
                }
                k = k + 1;
            }
            proof {
                let rest = row(i as int, j + 1, n, pn) + schedule(i + 1, n, pn);
                assert(Seq::new((pn - k) as nat, |_k: int| (i as int, j as int)) + rest =~= rest);
            }
            j = j + 1;
        }
        proof {
            assert(row(i as int, j as int, n, pn) =~= Seq::<(int, int)>::empty());
            assert(row(i as int, j as int, n, pn) + schedule(i + 1, n, pn) =~= schedule(
                i + 1,
                n,
                pn,
            ));
        }
        i = i + 1;
    }
    proof {
        assert(schedule(i as int, n, pn) =~= Seq::<(int, int)>::empty());
        assert(pairs_view(r@) + schedule(i as int, n, pn) =~= pairs_view(r@));
    }
    r
}

/// Why a generation cannot start.
pub enum PopulationError {
    NoGameMaster,
}

impl PopulationError {
    pub fn message(&self) -> (r: String)
        ensures
            r@ == "no game_master agent configured"@,
    {
        String::from_str("no game_master agent configured")
    }
}

/// The number of the generation after `current`; `None` where the counter
/// cannot grow.
pub fn next_generation(current: u32) -> (r: Option<u32>)
    ensures
        r == if current < u32::MAX {
            Some((current + 1) as u32)
        } else {
            None::<u32>
        },
{
    if current < u32::MAX {
        Some(current + 1)
    } else {
        None
    }
}

/// The matches of a generation: who plays whom, and which game master runs
/// the games.
pub struct GenerationPlan {
    pub gm_id: String,
    /// The players of each match, by id.
    pub matches: Vec<(String, String)>,
}

/// The players of a configuration, in configuration order.
pub open spec fn players_of(config: &Config) -> Seq<AgentEntry> {
    config.agents@.filter(|a: AgentEntry| is_player_entry(a))
}

/// `matches` holds, in order, the meetings of the schedule among `players`,
/// by id.
pub open spec fn matches_follow(
    matches: Seq<(String, String)>,
    players: Seq<AgentEntry>,
    per: nat,
) -> bool {
    let s = schedule(0, players.len() as int, per);
    &&& matches.len() == s.len()
    &&& forall|t: int|
        #![trigger matches[t]]
        0 <= t < s.len() ==> matches[t].0@ == players[s[t].0].id@ && matches[t].1@
            == players[s[t].1].id@
}

/// Plans a generation: every distinct pair of players meets
/// `matches_per_pairing` times (at least once), under the first configured
/// game master. Refused when no game master is configured.
pub fn plan_generation(config: &Config, matches_per_pairing: u32) -> (r: Result<
    GenerationPlan,
    PopulationError,
>)
    ensures
        match crate::config::gm_flags(config.agents@).index_of_first(true) {
            None => r is Err,
            Some(g) => r matches Ok(plan) && plan.gm_id@ == config.agents@[g].id@ && matches_follow(
                plan.matches@,
                players_of(config),
                meetings_per_pair(matches_per_pairing),
            ),
        },
{
    let players = config.players();
    proof {
        assert(players@.map_values(|a: &AgentEntry| *a) == players_of(config));
    }
    let gm = match config.default_gm() {
        Some(g) => g,
        None => {
            return Err(PopulationError::NoGameMaster);
        },
    };
    let pairs = pairings(players.len(), matches_per_pairing);
    let ghost s = schedule(0, players@.len() as int, meetings_per_pair(matches_per_pairing));
    let ghost ps = players_of(config);
    let mut matches: Vec<(String, String)> = Vec::new();
    let mut t: usize = 0;
    while t < pairs.len()
        invariant
            t <= pairs@.len(),
            pairs_view(pairs@) == s,
            s == schedule(0, players@.len() as int, meetings_per_pair(matches_per_pairing)),
            players@.map_values(|a: &AgentEntry| *a) == ps,
            matches@.len() == t,
            forall|u: int|
                #![trigger matches@[u]]
                0 <= u < t ==> matches@[u].0@ == ps[s[u].0].id@ && matches@[u].1@ == ps[s[u].1].id@,
        decreases pairs@.len() - t,
    {
        let (i, j) = pairs[t];
        proof {
            assert(pairs_view(pairs@)[t as int] == (i as int, j as int));
            lemma_schedule_occurrences(0, players@.len() as int, meetings_per_pair(matches_per_pairing), (i as int, j as int));
            lemma_member_occurs(s, t as int);
        }
        let a = players[i].id.clone();
        let b = players[j].id.clone();
        matches.push((a, b));
        t = t + 1;
    }
    Ok(GenerationPlan { gm_id: gm.id.clone(), matches })
}

proof fn lemma_member_occurs<A>(s: Seq<A>, t: int)
    requires
        0 <= t < s.len(),
    ensures
        occurrences(s, s[t]) > 0,
    decreases s.len(),
{
    if t < s.len() - 1 {
        lemma_member_occurs(s.drop_last(), t);
        assert(s.drop_last()[t] == s[t]);
    }
}

} // verus!
