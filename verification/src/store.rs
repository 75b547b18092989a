//! The in-memory store of the latest state of every known player, keyed
//! by player id.
use vstd::prelude::*;
use crate::protocol::{PlayerState, PlayerStateView};
use crate::text::same_text;

verus! {

pub open spec fn state_views(ps: Seq<PlayerState>) -> Seq<PlayerStateView> {
    ps.map_values(|p: PlayerState| p@)
}

/// No two entries share a player id.
pub open spec fn ids_unique(ps: Seq<PlayerStateView>) -> bool {
    forall|i: int, j: int|
        0 <= i < ps.len() && 0 <= j < ps.len() && i != j ==> #[trigger] ps[i].player_id
            != #[trigger] ps[j].player_id
}

/// Some entry has the player id `k`.
pub open spec fn has_id(ps: Seq<PlayerStateView>, k: Seq<char>) -> bool {
    exists|i: int| 0 <= i < ps.len() && #[trigger] ps[i].player_id == k
}

/// The entries as a map from player id to state.
pub open spec fn map_of(ps: Seq<PlayerStateView>) -> Map<Seq<char>, PlayerStateView> {
    Map::new(
        |k: Seq<char>| has_id(ps, k),
        |k: Seq<char>| ps[choose|i: int| 0 <= i < ps.len() && #[trigger] ps[i].player_id == k],
    )
}

pub proof fn lemma_map_of(ps: Seq<PlayerStateView>)
    requires
        ids_unique(ps),
    ensures
        forall|i: int|
            0 <= i < ps.len() ==> map_of(ps).contains_key(#[trigger] ps[i].player_id)
                && map_of(ps)[ps[i].player_id] == ps[i],
        forall|k: Seq<char>| #[trigger] map_of(ps).contains_key(k) <==> has_id(ps, k),
{
    assert forall|i: int| 0 <= i < ps.len() implies map_of(ps).contains_key(
        #[trigger] ps[i].player_id,
    ) && map_of(ps)[ps[i].player_id] == ps[i] by {
        let k = ps[i].player_id;
        assert(has_id(ps, k));
        let c = choose|j: int| 0 <= j < ps.len() && #[trigger] ps[j].player_id == k;
        assert(0 <= c < ps.len() && ps[c].player_id == k);
        assert(c == i);
    }
}

/// `t` is the newest tick among the states in `m`.
pub open spec fn is_newest(m: Map<Seq<char>, PlayerStateView>, t: u64) -> bool {
    &&& exists|k: Seq<char>| #[trigger] m.contains_key(k) && m[k].tick == t
    &&& forall|k: Seq<char>| #[trigger] m.contains_key(k) ==> m[k].tick <= t
}

/// The states of `m` at most `max_age` ticks older than the tick `newest`.
pub open spec fn recent(m: Map<Seq<char>, PlayerStateView>, newest: u64, max_age: u64) -> Map<Seq<char>, PlayerStateView> {
    m.restrict(Set::new(|k: Seq<char>| m.contains_key(k) && newest - m[k].tick <= max_age))
}

/// The latest state of every known player.
pub struct PlayerStore {
    players: Vec<PlayerState>,
}

impl View for PlayerStore {
    type V = Map<Seq<char>, PlayerStateView>;

    closed spec fn view(&self) -> Map<Seq<char>, PlayerStateView> {
        map_of(state_views(self.players@))
    }
}

impl PlayerStore {
    /// The stored states in the order the store lists them.
    pub closed spec fn entries(&self) -> Seq<PlayerStateView> {
        state_views(self.players@)
    }

    /// The store's invariant: one entry per player id.
    pub closed spec fn wf(&self) -> bool {
        ids_unique(self.entries())
    }

    /// The listing holds each stored player once, and nothing else.
    pub proof fn lemma_entries(&self)
        requires
            self.wf(),
        ensures
            ids_unique(self.entries()),
            map_of(self.entries()) == self@,
    {
    }

    pub fn new() -> (s: Self)
        ensures
            s.wf(),
            s@ == Map::<Seq<char>, PlayerStateView>::empty(),
            s.entries().len() == 0,
    {
        let s = PlayerStore { players: Vec::new() };
        assert(s@ =~= Map::<Seq<char>, PlayerStateView>::empty());
        s
    }

    /// Where the entry of `id` stands, if there is one.
    fn position(&self, id: &str) -> (r: Option<usize>)
        requires
            self.wf(),
        ensures
            match r {
                Some(i) => i < self.players@.len() && self.players@[i as int]@.player_id == id@,
                None => !has_id(self.entries(), id@),
            },
    {
        let mut i: usize = 0;
        while i < self.players.len()
            invariant
                i <= self.players@.len(),
                forall|j: int| 0 <= j < i ==> self.players@[j]@.player_id != id@,
            decreases self.players@.len() - i,
        {
            if same_text(self.players[i].player_id.as_str(), id) {
                return Some(i);
            }
            i = i + 1;
        }
        assert(!has_id(self.entries(), id@)) by {
            if has_id(self.entries(), id@) {
                let j = choose|j: int| 0 <= j < self.entries().len() && #[trigger] self.entries()[j].player_id == id@;
                assert(self.entries()[j] == self.players@[j]@);
            }
        }
        None
    }

    /// Stores `state` as the latest state of its player.
    pub fn update(&mut self, state: PlayerState)
        requires
            old(self).wf(),
        ensures
            final(self).wf(),
            final(self)@ == old(self)@.insert(state@.player_id, state@),
    {
        let ghost before = self.entries();
        let ghost sv = state@;
        proof {
            lemma_map_of(before);
        }
        match self.position(state.player_id.as_str()) {
            Some(i) => {
                self.players.set(i, state);
                let ghost after = self.entries();
                assert(after =~= before.update(i as int, sv));
                assert(ids_unique(after)) by {
                    assert forall|a: int, b: int|
                        0 <= a < after.len() && 0 <= b < after.len() && a != b implies #[trigger] after[a].player_id
                            != #[trigger] after[b].player_id by {
                        if a != i && b != i {
                            assert(before[a].player_id != before[b].player_id);
                        } else if a == i {
                            assert(before[i as int].player_id != before[b].player_id);
                        } else {
                            assert(before[a].player_id != before[i as int].player_id);
                        }
                    }
                }
                proof {
                    lemma_map_of(after);
                }
                assert(self@ =~= old(self)@.insert(sv.player_id, sv)) by {
                    assert forall|k: Seq<char>| #[trigger] self@.contains_key(k) <==> old(self)@.insert(sv.player_id, sv).contains_key(k) by {
                        if has_id(after, k) {
                            let j = choose|j: int| 0 <= j < after.len() && #[trigger] after[j].player_id == k;
                            if j != i {
                                assert(before[j].player_id == k);
                            }
                        }
                        if has_id(before, k) && k != sv.player_id {
                            let j = choose|j: int| 0 <= j < before.len() && #[trigger] before[j].player_id == k;
                            assert(after[j].player_id == k);
                        }
                        if k == sv.player_id {
                            assert(after[i as int].player_id == k);
                        }
                    }
                    assert forall|k: Seq<char>| #[trigger] self@.contains_key(k) implies self@[k] == old(self)@.insert(sv.player_id, sv)[k] by {
                        let j = choose|j: int| 0 <= j < after.len() && #[trigger] after[j].player_id == k;
                        if j != i {
                            assert(before[j].player_id == k);
                        }
                    }
                }
            },
            None => {
                self.players.push(state);
                let ghost after = self.entries();
                assert(after =~= before.push(sv));
                assert(ids_unique(after)) by {
                    assert forall|a: int, b: int|
                        0 <= a < after.len() && 0 <= b < after.len() && a != b implies #[trigger] after[a].player_id
                            != #[trigger] after[b].player_id by {
                        if a < before.len() && b < before.len() {
                            assert(before[a].player_id != before[b].player_id);
                        } else if a == before.len() {
                            assert(after[b] == before[b]);
                        } else {
                            assert(after[a] == before[a]);
                        }
                    }
                }
                proof {
                    lemma_map_of(after);
                }
                assert(self@ =~= old(self)@.insert(sv.player_id, sv)) by {
                    assert forall|k: Seq<char>| #[trigger] self@.contains_key(k) <==> old(self)@.insert(sv.player_id, sv).contains_key(k) by {
                        if has_id(after, k) {
                            let j = choose|j: int| 0 <= j < after.len() && #[trigger] after[j].player_id == k;
                            if j < before.len() {
                                assert(before[j].player_id == k);
                            }
                        }
                        if has_id(before, k) {
                            let j = choose|j: int| 0 <= j < before.len() && #[trigger] before[j].player_id == k;
                            assert(after[j].player_id == k);
                        }
                        if k == sv.player_id {
                            assert(after[before.len() as int].player_id == k);
                        }
                    }
                    assert forall|k: Seq<char>| #[trigger] self@.contains_key(k) implies self@[k] == old(self)@.insert(sv.player_id, sv)[k] by {
                        let j = choose|j: int| 0 <= j < after.len() && #[trigger] after[j].player_id == k;
                        if j < before.len() {
                            assert(before[j].player_id == k);
                        }
                    }
                }
            },
        }
    }

    /// Forgets the player `id`; says whether it was known.
    pub fn remove(&mut self, id: &str) -> (r: bool)
        requires
            old(self).wf(),
        ensures
            final(self).wf(),
            final(self)@ == old(self)@.remove(id@),
            r == old(self)@.contains_key(id@),
    {
        let ghost before = self.entries();
        proof {
            lemma_map_of(before);
        }
        match self.position(id) {
            Some(i) => {
                let _gone = self.players.remove(i);
                let ghost after = self.entries();
                assert(after =~= before.remove(i as int));
                assert(ids_unique(after)) by {
                    assert forall|a: int, b: int|
                        0 <= a < after.len() && 0 <= b < after.len() && a != b implies #[trigger] after[a].player_id
                            != #[trigger] after[b].player_id by {
                        let a0 = if a < i { a } else { a + 1 };
                        let b0 = if b < i { b } else { b + 1 };
                        assert(after[a] == before[a0]);
                        assert(after[b] == before[b0]);
                        assert(before[a0].player_id != before[b0].player_id);
                    }
                }
                proof {
                    lemma_map_of(after);
                }
                assert(self@ =~= old(self)@.remove(id@)) by {
                    assert forall|k: Seq<char>| #[trigger] self@.contains_key(k) <==> old(self)@.remove(id@).contains_key(k) by {
                        if has_id(after, k) {
                            let j = choose|j: int| 0 <= j < after.len() && #[trigger] after[j].player_id == k;
                            let j0 = if j < i { j } else { j + 1 };
                            assert(before[j0].player_id == k);
                            assert(j0 != i);
                            assert(before[i as int].player_id != k);
                        }
                        if has_id(before, k) && k != id@ {
                            let j = choose|j: int| 0 <= j < before.len() && #[trigger] before[j].player_id == k;
                            assert(j != i);
                            let j1 = if j < i { j } else { j - 1 };
                            assert(after[j1].player_id == k);
                        }
                    }
                    assert forall|k: Seq<char>| #[trigger] self@.contains_key(k) implies self@[k] == old(self)@.remove(id@)[k] by {
                        let j = choose|j: int| 0 <= j < after.len() && #[trigger] after[j].player_id == k;
                        let j0 = if j < i { j } else { j + 1 };
                        assert(before[j0].player_id == k);
                    }
                }
                true
            },
            None => {
                assert(self@ =~= old(self)@.remove(id@));
                false
            },
        }
    }

    /// The latest state of the player `id`, if known.
    pub fn get(&self, id: &str) -> (r: Option<&PlayerState>)
        requires
            self.wf(),
        ensures
            match r {
                Some(p) => self@.contains_key(id@) && self@[id@] == p@,
                None => !self@.contains_key(id@),
            },
    {
        proof {
            lemma_map_of(self.entries());
        }
        match self.position(id) {
            Some(i) => {
                assert(self.entries()[i as int] == self.players@[i as int]@);
                Some(&self.players[i])
            },
            None => None,
        }
    }

    /// Forgets the players whose tick is more than `max_age_ticks` behind
    /// the newest tick in the store.
    pub fn evict_stale(&mut self, max_age_ticks: u64)
        requires
            old(self).wf(),
        ensures
            final(self).wf(),
            (forall|k: Seq<char>| !old(self)@.contains_key(k)) ==> final(self)@ == old(self)@,
            (exists|k: Seq<char>| old(self)@.contains_key(k)) ==> exists|t: u64|
                is_newest(old(self)@, t) && final(self)@ == recent(old(self)@, t, max_age_ticks),
    {
        let ghost before = self.entries();
        proof {
            lemma_map_of(before);
        }
        if self.players.len() == 0 {
            assert(forall|k: Seq<char>| !old(self)@.contains_key(k));
            return;
        }
        let mut newest = self.players[0].tick;
        assert(before[0] == self.players@[0]@);
        let mut i: usize = 1;
        while i < self.players.len()
            invariant
                before == self.entries(),
                1 <= i <= before.len(),
                exists|j: int| 0 <= j < i && before[j].tick == newest,
                forall|j: int| 0 <= j < i ==> before[j].tick <= newest,
            decreases before.len() - i,
        {
            assert(before[i as int] == self.players@[i as int]@);
            if self.players[i].tick > newest {
                newest = self.players[i].tick;
            }
            i = i + 1;
        }
        let mut pending: Vec<PlayerState> = Vec::new();
        std::mem::swap(&mut pending, &mut self.players);
        assert(state_views(pending@) == before);
        let ghost mut src: Seq<int> = Seq::empty();
        for p in it: pending.into_iter()
            invariant
                it.seq() == pending@,
                state_views(pending@) == before,
                forall|j: int| 0 <= j < before.len() ==> before[j].tick <= newest,
                src.len() == self.players@.len(),
                forall|j: int|
                    0 <= j < src.len() ==> 0 <= #[trigger] src[j] < it.index() && self.players@[j]@
                        == before[src[j]] && newest - before[src[j]].tick <= max_age_ticks,
                forall|a: int, b: int| 0 <= a < b < src.len() ==> #[trigger] src[a] < #[trigger] src[b],
                forall|x: int|
                    0 <= x < it.index() && newest - #[trigger] before[x].tick <= max_age_ticks ==> exists|j: int|
                        0 <= j < src.len() && src[j] == x,
        {
            let ghost x = it.index();
            assert(p@ == before[x]);
            let ghost old_src = src;
            if newest - p.tick <= max_age_ticks {
                self.players.push(p);
                proof {
                    src = src.push(x);
                    assert(src[src.len() - 1] == x);
                }
            }
            assert forall|y: int|
                0 <= y < x + 1 && newest - #[trigger] before[y].tick <= max_age_ticks implies exists|j: int|
                    0 <= j < src.len() && src[j] == y by {
                if y < x {
                    let j = choose|j: int| 0 <= j < old_src.len() && old_src[j] == y;
                    assert(src[j] == y);
                } else {
                    assert(src[src.len() - 1] == y);
                }
            }
        }
        let ghost after = self.entries();
        assert(ids_unique(after)) by {
            assert forall|a: int, b: int|
                0 <= a < after.len() && 0 <= b < after.len() && a != b implies #[trigger] after[a].player_id
                    != #[trigger] after[b].player_id by {
                assert(after[a] == before[src[a]]);
                assert(after[b] == before[src[b]]);
                if a < b {
                    assert(src[a] < src[b]);
                } else {
                    assert(src[b] < src[a]);
                }
            }
        }
        proof {
            lemma_map_of(after);
            let m = old(self)@;
            assert(is_newest(m, newest)) by {
                let j = choose|j: int| 0 <= j < before.len() && before[j].tick == newest;
                assert(m.contains_key(before[j].player_id));
                assert forall|k: Seq<char>| #[trigger] m.contains_key(k) implies m[k].tick <= newest by {
                    let c = choose|c: int| 0 <= c < before.len() && #[trigger] before[c].player_id == k;
                    assert(m[k] == before[c]);
                }
            }
            assert(self@ =~= recent(m, newest, max_age_ticks)) by {
                assert forall|k: Seq<char>| #[trigger] self@.contains_key(k) <==> recent(m, newest, max_age_ticks).contains_key(k) by {
                    if has_id(after, k) {
                        let j = choose|j: int| 0 <= j < after.len() && #[trigger] after[j].player_id == k;
                        assert(after[j] == before[src[j]]);
                        assert(m[k] == before[src[j]]);
                    }
                    if m.contains_key(k) && newest - m[k].tick <= max_age_ticks {
                        let c = choose|c: int| 0 <= c < before.len() && #[trigger] before[c].player_id == k;
                        assert(m[k] == before[c]);
                        let j = choose|j: int| 0 <= j < src.len() && src[j] == c;
                        assert(after[j] == before[c]);
                    }
                }
                assert forall|k: Seq<char>| #[trigger] self@.contains_key(k) implies self@[k] == recent(m, newest, max_age_ticks)[k] by {
                    let j = choose|j: int| 0 <= j < after.len() && #[trigger] after[j].player_id == k;
                    assert(after[j] == before[src[j]]);
                    assert(m[k] == before[src[j]]);
                }
            }
        }
    }

    /// Every stored state, each player once (in the order of `entries`).
    pub fn all(&self) -> (r: &Vec<PlayerState>)
        ensures
            state_views(r@) == self.entries(),
    {
        &self.players
    }
}

} // verus!
