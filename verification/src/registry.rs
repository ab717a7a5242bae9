//! The session registry: the one shared table mapping live session ids to
//! the identity they authenticated as. Insertion order is kept, so fan-out
//! order is deterministic; ids never occur twice.
//!
//! The registry is modelled as a map from session id to identity. Every
//! operation states its effect on that map, so callers reason about
//! membership alone; the backing row order is exposed for fan-out.

use vstd::prelude::*;

verus! {

/// One registered session: its id and the identity it authenticated as.
pub struct Entry {
    pub session_id: u64,
    pub identity: Vec<u8>,
}

/// No session id occurs twice among the rows.
pub open spec fn unique_ids(es: Seq<Entry>) -> bool {
    forall|i: int, j: int| 0 <= i < j < es.len() ==> es[i].session_id != es[j].session_id
}

/// The rows read as a map from session id to identity.
pub open spec fn map_of(es: Seq<Entry>) -> Map<u64, Seq<u8>>
    decreases es.len(),
{
    if es.len() == 0 {
        Map::empty()
    } else {
        map_of(es.drop_last()).insert(es.last().session_id, es.last().identity@)
    }
}

proof fn lemma_map_of_contains(es: Seq<Entry>, sid: u64)
    ensures
        map_of(es).contains_key(sid) <==> exists|i: int|
            0 <= i < es.len() && es[i].session_id == sid,
    decreases es.len(),
{
    if es.len() > 0 {
        lemma_map_of_contains(es.drop_last(), sid);
        if es.last().session_id == sid {
            assert(es[es.len() - 1].session_id == sid);
        } else {
            if map_of(es).contains_key(sid) {
                let i = choose|i: int|
                    0 <= i < es.drop_last().len() && es.drop_last()[i].session_id == sid;
                assert(es[i].session_id == sid);
            }
            if exists|i: int| 0 <= i < es.len() && es[i].session_id == sid {
                let i = choose|i: int| 0 <= i < es.len() && es[i].session_id == sid;
                assert(i < es.len() - 1);
                assert(es.drop_last()[i].session_id == sid);
            }
        }
    }
}

proof fn lemma_unique_remove(es: Seq<Entry>, k: int)
    requires
        unique_ids(es),
        0 <= k < es.len(),
    ensures
        unique_ids(es.remove(k)),
{
    let r = es.remove(k);
    assert forall|i: int, j: int|
        0 <= i < j < r.len() implies r[i].session_id != r[j].session_id by {
        let i0 = if i < k { i } else { i + 1 };
        let j0 = if j < k { j } else { j + 1 };
        assert(r[i] == es[i0]);
        assert(r[j] == es[j0]);
    }
}

proof fn lemma_map_of_remove(es: Seq<Entry>, k: int)
    requires
        unique_ids(es),
        0 <= k < es.len(),
    ensures
        map_of(es.remove(k)) == map_of(es).remove(es[k].session_id),
    decreases es.len(),
{
    let sid = es[k].session_id;
    let dl = es.drop_last();
    assert(unique_ids(dl)) by {
        assert(forall|i: int| 0 <= i < dl.len() ==> dl[i] == es[i]);
    }
    if k == es.len() - 1 {
        assert(es.remove(k) =~= dl);
        lemma_map_of_contains(dl, sid);
        assert(!map_of(dl).contains_key(sid)) by {
            if map_of(dl).contains_key(sid) {
                let i = choose|i: int| 0 <= i < dl.len() && dl[i].session_id == sid;
                assert(es[i].session_id == es[k].session_id);
            }
        }
        assert(map_of(es) == map_of(dl).insert(sid, es.last().identity@));
        assert(map_of(es).remove(sid) =~= map_of(dl));
    } else {
        let r = es.remove(k);
        assert(r.last() == es.last());
        assert(r.drop_last() =~= dl.remove(k));
        lemma_map_of_remove(dl, k);
        assert(dl[k] == es[k]);
        assert(map_of(r) == map_of(dl.remove(k)).insert(es.last().session_id,
            es.last().identity@));
        assert(es.last().session_id != sid);
        assert(map_of(dl).remove(sid).insert(es.last().session_id, es.last().identity@)
            =~= map_of(dl).insert(es.last().session_id, es.last().identity@).remove(sid));
        assert(map_of(es) == map_of(dl).insert(es.last().session_id, es.last().identity@));
    }
}

/// The shared table of currently joined sessions.
pub struct Registry {
    entries: Vec<Entry>,
}

impl Registry {
    /// The rows, in insertion order.
    pub closed spec fn rows(&self) -> Seq<Entry> {
        self.entries@
    }

    /// Well-formed: no session id occurs twice.
    pub open spec fn wf(&self) -> bool {
        unique_ids(self.rows())
    }

    /// Membership model: session id to identity.
    pub open spec fn as_map(&self) -> Map<u64, Seq<u8>> {
        map_of(self.rows())
    }

    /// An empty registry.
    pub fn new() -> (r: Registry)
        ensures
            r.wf(),
            r.rows() == Seq::<Entry>::empty(),
            r.as_map() == Map::<u64, Seq<u8>>::empty(),
    {
        Registry { entries: Vec::new() }
    }

    /// How many sessions are registered.
    pub fn len(&self) -> (n: usize)
        ensures
            n == self.rows().len(),
    {
        self.entries.len()
    }

    /// The session id of the row at `k`.
    pub fn entry_id_at(&self, k: usize) -> (r: u64)
        requires
            k < self.rows().len(),
        ensures
            r == self.rows()[k as int].session_id,
    {
        self.entries[k].session_id
    }

    fn index_of(&self, session_id: u64) -> (r: Option<usize>)
        ensures
            match r {
                Some(k) => k < self.rows().len() && self.rows()[k as int].session_id
                    == session_id,
                None => forall|i: int|
                    0 <= i < self.rows().len() ==> self.rows()[i].session_id != session_id,
            },
    {
        let n = self.entries.len();
        let mut k: usize = 0;
        while k < n
            invariant
                0 <= k <= n,
                n == self.rows().len(),
                forall|i: int| 0 <= i < k ==> self.rows()[i].session_id != session_id,
            decreases n - k,
        {
            if self.entries[k].session_id == session_id {
                return Some(k);
            }
            k = k + 1;
        }
        None
    }

    /// Whether `session_id` is currently registered.
    pub fn contains(&self, session_id: u64) -> (r: bool)
        ensures
            r == self.as_map().contains_key(session_id),
    {
        proof {
            lemma_map_of_contains(self.rows(), session_id);
        }
        self.index_of(session_id).is_some()
    }

    /// Registers a session under a fresh id. The new row goes last, so a
    /// fan-out reaches longer-lived sessions first.
    pub fn insert(&mut self, session_id: u64, identity: Vec<u8>)
        requires
            old(self).wf(),
            !old(self).as_map().contains_key(session_id),
        ensures
            final(self).wf(),
            final(self).rows() == old(self).rows().push(
                Entry { session_id, identity },
            ),
            final(self).as_map() == old(self).as_map().insert(session_id, identity@),
    {
        proof {
            lemma_map_of_contains(self.rows(), session_id);
        }
        let ghost es0 = self.rows();
        self.entries.push(Entry { session_id, identity });
        proof {
            let es = self.rows();
            assert(es.drop_last() =~= es0);
            assert(map_of(es) == map_of(es0).insert(session_id, identity@));
            assert(forall|i: int| 0 <= i < es0.len() ==> es[i] == es0[i]);
            assert(forall|i: int| 0 <= i < es0.len() ==> es0[i].session_id != session_id);
            assert(unique_ids(es));
        }
    }

    /// Unregisters a session; registered rows other than it are untouched,
    /// and a remove of an absent id changes nothing.
    pub fn remove(&mut self, session_id: u64)
        requires
            old(self).wf(),
        ensures
            final(self).wf(),
            final(self).as_map() == old(self).as_map().remove(session_id),
            old(self).as_map().contains_key(session_id) ==> exists|k: int|
                0 <= k < old(self).rows().len()
                    && old(self).rows()[k].session_id == session_id
                    && final(self).rows() == old(self).rows().remove(k),
            !old(self).as_map().contains_key(session_id) ==> *final(self) == *old(self),
    {
        proof {
            lemma_map_of_contains(self.rows(), session_id);
        }
        let found = self.index_of(session_id);
        match found {
            Some(k) => {
                proof {
                    lemma_unique_remove(self.rows(), k as int);
                    lemma_map_of_remove(self.rows(), k as int);
                }
                self.entries.remove(k);
            },
            None => {
                proof {
                    assert(!self.as_map().contains_key(session_id));
                    assert(self.as_map().remove(session_id) =~= self.as_map());
                }
            },
        }
    }
}

} // verus!
