//! The session registry: a lookup table from caller-supplied room code to
//! game session. Sessions are never deleted; `put` either records a new
//! room or replaces the stored state of an existing one, and every call
//! reads the latest stored state and writes back a full replacement.

use crate::session::Game;
use vstd::prelude::*;

verus! {

/// One stored session: the room code and the session state.
pub struct Entry {
    pub room_code: String,
    pub game: Game,
}

/// The registry itself, a list of entries with pairwise distinct room
/// codes.
pub struct SessionRegistry {
    pub entries: Vec<Entry>,
}

/// The registries agree on every room code other than `code`: the same
/// rooms exist and hold the same sessions.
pub open spec fn unchanged_except(pre: SessionRegistry, post: SessionRegistry, code: Seq<char>) -> bool {
    &&& forall|c: Seq<char>|
        c != code ==> (#[trigger] post.contains_key(c)) == pre.contains_key(c)
    &&& forall|c: Seq<char>|
        c != code && pre.contains_key(c) ==> (#[trigger] post.spec_get(c)) == pre.spec_get(c)
}

impl SessionRegistry {
    /// Room codes are recorded at most once.
    pub open spec fn wf(self) -> bool {
        forall|i: int, j: int|
            0 <= i < j < self.entries@.len() ==> self.entries@[i].room_code@
                != self.entries@[j].room_code@
    }

    /// Whether a session is recorded under the given room code.
    pub open spec fn contains_key(self, code: Seq<char>) -> bool {
        exists|i: int| 0 <= i < self.entries@.len() && self.entries@[i].room_code@ == code
    }

    /// The position of the entry recorded under `code`.
    pub open spec fn index_of(self, code: Seq<char>) -> int {
        choose|i: int| 0 <= i < self.entries@.len() && self.entries@[i].room_code@ == code
    }

    /// The session recorded under `code`; meaningful only when
    /// `contains_key` holds.
    pub open spec fn spec_get(self, code: Seq<char>) -> Game
        recommends
            self.contains_key(code),
    {
        self.entries@[self.index_of(code)].game
    }

    /// With room codes unique, any position whose entry carries `code` is
    /// the position `spec_get` reads.
    pub proof fn lemma_get_at(self, code: Seq<char>, i: int)
        requires
            self.wf(),
            0 <= i < self.entries@.len(),
            self.entries@[i].room_code@ == code,
        ensures
            self.contains_key(code),
            self.index_of(code) == i,
            self.spec_get(code) == self.entries@[i].game,
    {
        assert(self.contains_key(code));
        let j = self.index_of(code);
        assert(0 <= j < self.entries@.len() && self.entries@[j].room_code@ == code);
        if i < j {
            assert(self.entries@[i].room_code@ != self.entries@[j].room_code@);
        }
        if j < i {
            assert(self.entries@[j].room_code@ != self.entries@[i].room_code@);
        }
    }

    /// An empty registry.
    pub fn new() -> (registry: SessionRegistry)
        ensures
            registry.wf(),
            forall|code: Seq<char>| !registry.contains_key(code),
    {
        SessionRegistry { entries: Vec::new() }
    }

    /// Look up the session recorded under `room_code`.
    pub fn get(&self, room_code: &String) -> (result: Option<Game>)
        requires
            self.wf(),
        ensures
            match result {
                Some(game) => self.contains_key(room_code@) && game == self.spec_get(room_code@),
                None => !self.contains_key(room_code@),
            },
    {
        let n: usize = self.entries.len();
        let mut i: usize = 0;
        while i < n
            invariant
                n == self.entries@.len(),
                i <= n,
                self.wf(),
                forall|j: int| 0 <= j < i ==> self.entries@[j].room_code@ != room_code@,
            decreases n - i,
        {
            if self.entries[i].room_code == *room_code {
                proof {
                    self.lemma_get_at(room_code@, i as int);
                }
                return Some(self.entries[i].game);
            }
            i = i + 1;
        }
        None
    }

    /// Record `game` under `room_code`, replacing any previous session of
    /// that room and leaving every other room untouched.
    pub fn put(&mut self, room_code: String, game: Game)
        requires
            old(self).wf(),
        ensures
            final(self).wf(),
            final(self).contains_key(room_code@),
            final(self).spec_get(room_code@) == game,
            unchanged_except(*old(self), *final(self), room_code@),
    {
        let ghost pre = *self;
        let ghost key = room_code@;
        let n: usize = self.entries.len();
        let mut i: usize = 0;
        while i < n
            invariant
                *self == pre,
                pre == *old(self),
                pre.wf(),
                key == room_code@,
                n == pre.entries@.len(),
                i <= n,
                forall|j: int| 0 <= j < i ==> pre.entries@[j].room_code@ != key,
            decreases n - i,
        {
            if self.entries[i].room_code == room_code {
                proof {
                    assert(pre.entries@[i as int].room_code@ == key);
                }
                self.entries[i] = Entry { room_code, game };
                proof {
                    assert(self.entries@.len() == pre.entries@.len());
                    assert(self.entries@[i as int].room_code@ == key);
                    assert(self.entries@[i as int].game == game);
                    assert(forall|j: int|
                        0 <= j < pre.entries@.len() && j != i ==> self.entries@[j] == pre.entries@[j]);
                    assert forall|a: int, b: int|
                        0 <= a < b < self.entries@.len() implies self.entries@[a].room_code@
                        != self.entries@[b].room_code@ by {
                        assert(pre.entries@[a].room_code@ != pre.entries@[b].room_code@);
                    }
                    self.lemma_get_at(key, i as int);
                    assert forall|c: Seq<char>| c != key implies (#[trigger] self.contains_key(c))
                        == pre.contains_key(c) by {
                        if pre.contains_key(c) {
                            let w = pre.index_of(c);
                            assert(pre.entries@[w].room_code@ == c);
                            assert(w != i);
                            assert(self.entries@[w].room_code@ == c);
                        }
                        if self.contains_key(c) {
                            let w = self.index_of(c);
                            assert(self.entries@[w].room_code@ == c);
                            assert(w != i);
                            assert(pre.entries@[w].room_code@ == c);
                        }
                    }
                    assert forall|c: Seq<char>| c != key && pre.contains_key(c) implies (
                    #[trigger] self.spec_get(c)) == pre.spec_get(c) by {
                        let w = pre.index_of(c);
                        assert(pre.entries@[w].room_code@ == c);
                        assert(w != i);
                        assert(self.entries@[w].room_code@ == c);
                        self.lemma_get_at(c, w);
                        pre.lemma_get_at(c, w);
                    }
                }
                return ;
            }
            i = i + 1;
        }
        self.entries.push(Entry { room_code, game });
        proof {
            let last = self.entries@.len() - 1;
            assert(self.entries@ =~= pre.entries@.push(self.entries@[last]));
            assert forall|a: int, b: int|
                0 <= a < b < self.entries@.len() implies self.entries@[a].room_code@
                != self.entries@[b].room_code@ by {
                if b < last {
                    assert(pre.entries@[a].room_code@ != pre.entries@[b].room_code@);
                }
            }
            assert(self.entries@[last].room_code@ == key);
            self.lemma_get_at(key, last);
            assert forall|c: Seq<char>| c != key implies (#[trigger] self.contains_key(c))
                == pre.contains_key(c) by {
                if pre.contains_key(c) {
                    let w = pre.index_of(c);
                    assert(pre.entries@[w].room_code@ == c);
                    assert(self.entries@[w].room_code@ == c);
                }
                if self.contains_key(c) {
                    let w = self.index_of(c);
                    assert(self.entries@[w].room_code@ == c);
                    assert(w < last);
                    assert(pre.entries@[w].room_code@ == c);
                }
            }
            assert forall|c: Seq<char>| c != key && pre.contains_key(c) implies (
            #[trigger] self.spec_get(c)) == pre.spec_get(c) by {
                let w = pre.index_of(c);
                assert(pre.entries@[w].room_code@ == c);
                assert(self.entries@[w].room_code@ == c);
                self.lemma_get_at(c, w);
                pre.lemma_get_at(c, w);
            }
        }
    }
}

} // verus!
