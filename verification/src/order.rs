//! The deterministic order of the player list: ascending by bus
//! identifier. The order must be identical across invocations over the
//! same live set, so that index-based cycling is reproducible.

use crate::model::PlayerInfo;
use vstd::prelude::*;
use vstd::string::StrSliceExecFns;

verus! {

/// Lexicographic order on text, by unicode code point.
pub open spec fn lex_le(a: Seq<char>, b: Seq<char>) -> bool
    decreases a.len(),
{
    if a.len() == 0 {
        true
    } else if b.len() == 0 {
        false
    } else if (a[0] as u32) < (b[0] as u32) {
        true
    } else if (b[0] as u32) < (a[0] as u32) {
        false
    } else {
        lex_le(a.drop_first(), b.drop_first())
    }
}

/// The order is total.
pub proof fn lemma_lex_le_total(a: Seq<char>, b: Seq<char>)
    ensures
        lex_le(a, b) || lex_le(b, a),
    decreases a.len(),
{
    if a.len() > 0 && b.len() > 0 && (a[0] as u32) == (b[0] as u32) {
        lemma_lex_le_total(a.drop_first(), b.drop_first());
    }
}

/// The order is transitive.
pub proof fn lemma_lex_le_trans(a: Seq<char>, b: Seq<char>, c: Seq<char>)
    requires
        lex_le(a, b),
        lex_le(b, c),
    ensures
        lex_le(a, c),
    decreases a.len(),
{
    if a.len() > 0 && b.len() > 0 && c.len() > 0 && (a[0] as u32) == (b[0] as u32) && (b[0] as u32)
        == (c[0] as u32) {
        lemma_lex_le_trans(a.drop_first(), b.drop_first(), c.drop_first());
    }
}

/// Whether `a` sorts at or before `b`.
pub fn str_le(a: &str, b: &str) -> (r: bool)
    ensures
        r == lex_le(a@, b@),
{
    let alen = a.unicode_len();
    let blen = b.unicode_len();
    let mut i: usize = 0;
    proof {
        assert(a@.skip(0) =~= a@);
        assert(b@.skip(0) =~= b@);
    }
    while i < alen && i < blen
        invariant
            i <= alen,
            i <= blen,
            alen == a@.len(),
            blen == b@.len(),
            lex_le(a@, b@) == lex_le(a@.skip(i as int), b@.skip(i as int)),
        decreases alen - i,
    {
        let ca = a.get_char(i);
        let cb = b.get_char(i);
        proof {
            assert(a@.skip(i as int)[0] == a@[i as int]);
            assert(b@.skip(i as int)[0] == b@[i as int]);
        }
        if (ca as u32) < (cb as u32) {
            return true;
        }
        if (cb as u32) < (ca as u32) {
            return false;
        }
        proof {
            assert(a@.skip(i as int).drop_first() =~= a@.skip(i + 1));
            assert(b@.skip(i as int).drop_first() =~= b@.skip(i + 1));
        }
        i = i + 1;
    }
    proof {
        if alen <= blen {
            assert(a@.skip(i as int).len() == 0);
        } else {
            assert(b@.skip(i as int).len() == 0);
            assert(a@.skip(i as int).len() > 0);
        }
    }
    alen <= blen
}

/// The player list in its kept order: ascending by bus identifier.
pub open spec fn sorted_by_name(s: Seq<PlayerInfo>) -> bool {
    forall|p: int, q: int| 0 <= p < q < s.len() ==> lex_le(s[p].bus_name@, s[q].bus_name@)
}

/// Sorts the live player list by bus identifier, keeping exactly the
/// same players.
pub fn sort_players(players: &mut Vec<PlayerInfo>)
    ensures
        final (players)@.len() == old(players)@.len(),
        final (players)@.to_multiset() == old(players)@.to_multiset(),
        sorted_by_name(final (players)@),
{
    broadcast use vstd::multiset::group_multiset_axioms;

    if players.len() <= 1 {
        return ;
    }
    let mut i: usize = 1;
    while i < players.len()
        invariant
            1 <= i <= players@.len(),
            players@.len() == old(players)@.len(),
            players@.to_multiset() == old(players)@.to_multiset(),
            sorted_by_name(players@.take(i as int)),
        decreases players@.len() - i,
    {
        let mut j: usize = i;
        proof {
            assert(players@.take(i + 1).remove(i as int) =~= players@.take(i as int));
        }
        while j > 0 && !str_le(players[j - 1].bus_name.as_str(), players[j].bus_name.as_str())
            invariant
                j <= i < players@.len(),
                players@.len() == old(players)@.len(),
                players@.to_multiset() == old(players)@.to_multiset(),
                sorted_by_name(players@.take(i + 1).remove(j as int)),
                forall|q: int|
                    j < q <= i ==> lex_le(
                        players@[j as int].bus_name@,
                        #[trigger] players@[q].bus_name@,
                    ),
            decreases j,
        {
            let ghost before = players@;
            proof {
                lemma_lex_le_total(before[j - 1].bus_name@, before[j as int].bus_name@);
            }
            let moving = players.remove(j);
            let ghost mid = players@;
            players.insert(j - 1, moving);
            proof {
                assert(players@ =~= before.update(j - 1, before[j as int]).update(
                    j as int,
                    before[j - 1],
                ));
                assert(players@.take(i + 1).remove(j - 1) =~= before.take(i + 1).remove(j as int));
                vstd::seq_lib::to_multiset_remove::<PlayerInfo>(before, j as int);
                vstd::seq_lib::to_multiset_insert::<PlayerInfo>(mid, j - 1, before[j as int]);
                vstd::seq_lib::to_multiset_contains::<PlayerInfo>(before, before[j as int]);
                assert(before.contains(before[j as int]));
                assert(before.to_multiset().count(before[j as int]) > 0);
                assert(players@.to_multiset() =~= before.to_multiset());
            }
            j = j - 1;
        }
        proof {
            let t = players@.take(i + 1);
            let others = t.remove(j as int);
            assert forall|p: int, q: int|
                0 <= p < q < t.len() implies lex_le(t[p].bus_name@, t[q].bus_name@) by {
                assert(forall|k: int| 0 <= k < j ==> others[k] == t[k]);
                assert(forall|k: int| j <= k < others.len() ==> others[k] == t[k + 1]);
                if p == j as int {
                    assert(lex_le(t[p].bus_name@, t[q].bus_name@));
                } else if q == j as int {
                    // the inner loop stopped, so the element before the
                    // moving one is at or below it; everything earlier is
                    // below that by the sortedness of the rest
                    assert(lex_le(t[j - 1].bus_name@, t[j as int].bus_name@));
                    if p < j - 1 {
                        assert(lex_le(others[p].bus_name@, others[j - 1].bus_name@));
                        lemma_lex_le_trans(t[p].bus_name@, t[j - 1].bus_name@, t[q].bus_name@);
                    }
                } else {
                    let pp = if p < j as int {
                        p
                    } else {
                        p - 1
                    };
                    let qq = if q < j as int {
                        q
                    } else {
                        q - 1
                    };
                    assert(others[pp] == t[p]);
                    assert(others[qq] == t[q]);
                    assert(lex_le(others[pp].bus_name@, others[qq].bus_name@));
                }
            };
            assert(sorted_by_name(players@.take(i + 1)));
        }
        i = i + 1;
    }
    proof {
        assert(players@.take(players@.len() as int) =~= players@);
    }
}

} // verus!
