//! The filter-rank pipeline: the filter predicate, the survivor set,
//! and the ordering of survivors by descending score.

use vstd::prelude::*;

use crate::player::Config;
use crate::player::Player;
use crate::player::Profile;
use crate::score::spec_profile;
use crate::score::spec_score;
use crate::score::profile_of;
use crate::text::spec_position_matches;
use crate::text::position_matches;

verus! {

broadcast use vstd::seq_lib::group_to_multiset_ensures;

/// The filter predicate: a record is kept iff all four clauses hold.
pub open spec fn spec_passes(p: Player, cfg: Config) -> bool {
    &&& p.age <= cfg.max_age
    &&& p.value <= cfg.max_value
    &&& p.potential_ability >= cfg.min_potential
    &&& spec_position_matches(p.position@, cfg.target_position@)
}

/// The survivors of a record sequence under a configuration, in input
/// order.
pub open spec fn survivors(players: Seq<Player>, cfg: Config) -> Seq<Player> {
    players.filter(|p: Player| spec_passes(p, cfg))
}

/// The sequence is ordered by non-increasing score under a profile.
pub open spec fn sorted_desc(s: Seq<Player>, profile: Profile) -> bool {
    forall|i: int, j: int|
        0 <= i < j < s.len() ==> spec_score(s[i], profile) >= spec_score(s[j], profile)
}

/// Evaluates the filter predicate on one record: age at most the
/// maximum, value at most the maximum, potential at least the minimum,
/// and a case-insensitive substring match of the target position.
pub fn passes_filter(p: &Player, cfg: &Config) -> (b: bool)
    ensures
        b == spec_passes(*p, *cfg),
{
    p.age <= cfg.max_age && p.value <= cfg.max_value && p.potential_ability >= cfg.min_potential
        && position_matches(p.position.as_str(), cfg.target_position.as_str())
}

/// The index of a record of maximal score.
fn max_index(v: &Vec<Player>, profile: Profile) -> (m: usize)
    requires
        v@.len() > 0,
    ensures
        m < v@.len(),
        forall|k: int| 0 <= k < v@.len() ==> spec_score(v@[m as int], profile) >= spec_score(
            v@[k],
            profile,
        ),
{
    let mut m: usize = 0;
    let mut best: u64 = v[0].score_for_profile(profile);
    let mut i: usize = 1;
    while i < v.len()
        invariant
            m < i <= v@.len(),
            best == spec_score(v@[m as int], profile),
            forall|k: int| 0 <= k < i ==> best >= spec_score(v@[k], profile),
        decreases v@.len() - i,
    {
        let s = v[i].score_for_profile(profile);
        if s > best {
            m = i;
            best = s;
        }
        i += 1;
    }
    m
}

/// Orders the records by non-increasing score under a profile. The
/// result is a permutation of the input: it holds exactly the input
/// records, with multiplicity.
fn sort_by_score(players: Vec<Player>, profile: Profile) -> (r: Vec<Player>)
    ensures
        r@.to_multiset() == players@.to_multiset(),
        r@.len() == players@.len(),
        sorted_desc(r@, profile),
{
    let mut rest = players;
    let ghost orig = rest@;
    let mut out: Vec<Player> = Vec::new();
    proof {
        assert(out@.to_multiset().add(rest@.to_multiset()) =~= orig.to_multiset());
    }
    while rest.len() > 0
        invariant
            out@.to_multiset().add(rest@.to_multiset()) == orig.to_multiset(),
            out@.len() + rest@.len() == orig.len(),
            sorted_desc(out@, profile),
            forall|i: int, k: int|
                0 <= i < out@.len() && 0 <= k < rest@.len() ==> spec_score(out@[i], profile)
                    >= spec_score(rest@[k], profile),
        decreases rest@.len(),
    {
        let ghost out0 = out@;
        let ghost rest0 = rest@;
        let m = max_index(&rest, profile);
        let p = rest.remove(m);
        out.push(p);
        proof {
            assert(rest0.to_multiset().count(p) > 0) by {
                assert(rest0.contains(rest0[m as int]));
            }
            assert(out@.to_multiset().add(rest@.to_multiset()) =~= orig.to_multiset());
            assert forall|i: int, k: int|
                0 <= i < out@.len() && 0 <= k < rest@.len() implies spec_score(out@[i], profile)
                >= spec_score(rest@[k], profile) by {
                assert(rest@[k] == if k < m { rest0[k] } else { rest0[k + 1] });
            }
            assert forall|i: int, j: int| 0 <= i < j < out@.len() implies spec_score(
                out@[i],
                profile,
            ) >= spec_score(out@[j], profile) by {
                if j == out@.len() - 1 {
                    assert(out@[i] == out0[i]);
                }
            }
        }
    }
    proof {
        assert(out@.to_multiset().add(rest@.to_multiset()) =~= out@.to_multiset());
    }
    out
}

/// Orders a set of records by non-increasing score against a target
/// position: the ranking phase of the pipeline. The result is a
/// permutation of the input.
pub fn rank(players: Vec<Player>, position: &str) -> (r: Vec<Player>)
    ensures
        r@.to_multiset() == players@.to_multiset(),
        r@.len() == players@.len(),
        sorted_desc(r@, spec_profile(position@)),
{
    let profile = profile_of(position);
    sort_by_score(players, profile)
}

/// Filters a record set against a configuration and ranks the
/// survivors by non-increasing score against the configured target
/// position. The result holds exactly the records that pass the filter
/// predicate, with multiplicity, most suitable first; an empty
/// survivor set yields an empty result.
pub fn find_gems(players: Vec<Player>, cfg: &Config) -> (r: Vec<Player>)
    ensures
        r@.to_multiset() == survivors(players@, *cfg).to_multiset(),
        r@.len() == survivors(players@, *cfg).len(),
        sorted_desc(r@, spec_profile(cfg.target_position@)),
        forall|i: int| 0 <= i < r@.len() ==> spec_passes(r@[i], *cfg),
{
    let mut remaining = players;
    let ghost orig = remaining@;
    let total = remaining.len();
    let mut kept: Vec<Player> = Vec::new();
    let mut idx: usize = 0;
    proof {
        assert(orig.take(0) =~= Seq::<Player>::empty());
        assert(remaining@ =~= orig.skip(0));
        lemma_survivors_empty(*cfg);
    }
    while remaining.len() > 0
        invariant
            orig.len() == total,
            idx + remaining@.len() == orig.len(),
            remaining@ == orig.skip(idx as int),
            kept@ == survivors(orig.take(idx as int), *cfg),
        decreases remaining@.len(),
    {
        let p = remaining.remove(0);
        proof {
            assert(p == orig[idx as int]);
            assert(remaining@ =~= orig.skip(idx + 1));
        }
        let pass = passes_filter(&p, cfg);
        if pass {
            kept.push(p);
        }
        proof {
            lemma_survivors_step(orig, *cfg, idx as int);
            assert(kept@ == survivors(orig.take(idx + 1), *cfg));
        }
        idx += 1;
    }
    proof {
        assert(orig.take(idx as int) =~= orig);
    }
    let profile = profile_of(cfg.target_position.as_str());
    let ranked = sort_by_score(kept, profile);
    proof {
        assert forall|i: int| 0 <= i < ranked@.len() implies spec_passes(
            ranked@[i],
            *cfg,
        ) by {
            let s = survivors(orig, *cfg);
            assert(ranked@.contains(ranked@[i]));
            assert(ranked@.to_multiset().count(ranked@[i]) > 0);
            assert(s.contains(ranked@[i]));
            let j = choose|j: int| 0 <= j < s.len() && s[j] == ranked@[i];
            orig.lemma_filter_pred(|q: Player| spec_passes(q, *cfg), j);
        }
    }
    ranked
}

/// The survivors of the empty record sequence are the empty sequence.
proof fn lemma_survivors_empty(cfg: Config)
    ensures
        survivors(Seq::<Player>::empty(), cfg) == Seq::<Player>::empty(),
{
    reveal(Seq::filter);
}

/// Filtering one more record appends it to the survivors exactly when
/// it passes the predicate.
proof fn lemma_survivors_step(players: Seq<Player>, cfg: Config, i: int)
    requires
        0 <= i < players.len(),
    ensures
        survivors(players.take(i + 1), cfg) == if spec_passes(players[i], cfg) {
            survivors(players.take(i), cfg).push(players[i])
        } else {
            survivors(players.take(i), cfg)
        },
{
    reveal(Seq::filter);
    let s = players.take(i + 1);
    assert(s.len() == i + 1);
    assert(s.last() == players[i]);
    assert(s.drop_last() =~= players.take(i));
}

/// A record set in which no record satisfies the predicate has no
/// survivors: the ranked result of such a set is empty, not an error.
pub proof fn lemma_no_survivors(players: Seq<Player>, cfg: Config)
    requires
        forall|i: int| 0 <= i < players.len() ==> !spec_passes(players[i], cfg),
    ensures
        survivors(players, cfg).len() == 0,
    decreases players.len(),
{
    reveal(Seq::filter);
    if players.len() > 0 {
        assert(players.drop_last() =~= players.take(players.len() - 1));
        lemma_no_survivors(players.drop_last(), cfg);
    }
}

/// Filter correctness as a membership law: a record value occurs among
/// the survivors iff it occurs in the input and satisfies all four
/// predicate clauses.
pub proof fn lemma_filter_correct(players: Seq<Player>, cfg: Config, p: Player)
    ensures
        survivors(players, cfg).contains(p) <==> (players.contains(p) && spec_passes(p, cfg)),
    decreases players.len(),
{
    reveal(Seq::filter);
    if players.len() == 0 {
    } else {
        let prefix = players.drop_last();
        lemma_filter_correct(prefix, cfg, p);
        assert(players.contains(p) <==> (prefix.contains(p) || players.last() == p)) by {
            if players.contains(p) {
                let i = choose|i: int| 0 <= i < players.len() && players[i] == p;
                if i < players.len() - 1 {
                    assert(prefix[i] == p);
                }
            }
            if prefix.contains(p) {
                let i = choose|i: int| 0 <= i < prefix.len() && prefix[i] == p;
                assert(players[i] == p);
            }
        }
        if survivors(players, cfg).contains(p) {
            let s = survivors(players, cfg);
            let sp = survivors(prefix, cfg);
            if spec_passes(players.last(), cfg) {
                assert(s == sp.push(players.last()));
                let i = choose|i: int| 0 <= i < s.len() && s[i] == p;
                if i < s.len() - 1 {
                    assert(sp[i] == p);
                }
            }
        }
    }
}

} // verus!
