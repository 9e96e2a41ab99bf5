//! The table of live sessions, keyed by opaque string handles.
//!
//! The table is generic over what it stores, so that the logic here holds
//! for any transport; callers that share it between threads guard it with
//! one lock and hold that lock for a single operation at a time.
use vstd::prelude::*;

use rand::distributions::{Alphanumeric, DistString};

use crate::handles::{counter_handle, counter_handle_text, is_alnum_text, lemma_counter_handle};
use crate::text::texts_of;

verus! {

/// Length of a generated handle.
pub const HANDLE_LEN: usize = 16;

/// The sessions, as a map from handle text to session.
pub open spec fn map_of<S>(entries: Seq<(String, S)>) -> Map<Seq<char>, S>
    decreases entries.len(),
{
    if entries.len() == 0 {
        Map::<Seq<char>, S>::empty()
    } else {
        map_of(entries.drop_last()).insert(entries.last().0@, entries.last().1)
    }
}

/// No handle occurs twice.
pub open spec fn keys_unique<S>(entries: Seq<(String, S)>) -> bool {
    forall|i: int, j: int|
        0 <= i < j < entries.len() ==> (#[trigger] entries[i]).0@ != (#[trigger] entries[j]).0@
}

/// The map holds exactly the handles of the entries.
proof fn lemma_map_of_keys<S>(entries: Seq<(String, S)>, k: Seq<char>)
    ensures
        map_of(entries).contains_key(k) <==> exists|i: int|
            0 <= i < entries.len() && (#[trigger] entries[i]).0@ == k,
    decreases entries.len(),
{
    if entries.len() > 0 {
        let prev = entries.drop_last();
        lemma_map_of_keys(prev, k);
        if map_of(entries).contains_key(k) {
            if k != entries.last().0@ {
                let i = choose|i: int| 0 <= i < prev.len() && (#[trigger] prev[i]).0@ == k;
                assert(entries[i] == prev[i]);
            } else {
                assert(entries[entries.len() - 1] == entries.last());
            }
        }
        if exists|i: int| 0 <= i < entries.len() && (#[trigger] entries[i]).0@ == k {
            let i = choose|i: int| 0 <= i < entries.len() && (#[trigger] entries[i]).0@ == k;
            if i < prev.len() {
                assert(prev[i] == entries[i]);
            }
        }
    }
}

/// With unique handles, each entry's session is what the map gives for its handle.
proof fn lemma_map_of_index<S>(entries: Seq<(String, S)>, i: int)
    requires
        keys_unique(entries),
        0 <= i < entries.len(),
    ensures
        map_of(entries).contains_key(entries[i].0@),
        map_of(entries)[entries[i].0@] == entries[i].1,
    decreases entries.len(),
{
    let prev = entries.drop_last();
    if i < entries.len() - 1 {
        assert(prev[i] == entries[i]);
        assert(keys_unique(prev)) by {
            assert forall|a: int, b: int| 0 <= a < b < prev.len() implies (#[trigger] prev[a]).0@
                != (#[trigger] prev[b]).0@ by {
                assert(prev[a] == entries[a] && prev[b] == entries[b]);
            }
        }
        lemma_map_of_index(prev, i);
        assert(entries[i].0@ != entries[entries.len() - 1].0@);
    }
}

/// Removing one entry removes its handle from the map and nothing else.
proof fn lemma_map_of_remove<S>(entries: Seq<(String, S)>, i: int)
    requires
        keys_unique(entries),
        0 <= i < entries.len(),
    ensures
        map_of(entries.remove(i)) == map_of(entries).remove(entries[i].0@),
    decreases entries.len(),
{
    let prev = entries.drop_last();
    let last = entries.last();
    assert(keys_unique(prev)) by {
        assert forall|a: int, b: int| 0 <= a < b < prev.len() implies (#[trigger] prev[a]).0@
            != (#[trigger] prev[b]).0@ by {
            assert(prev[a] == entries[a] && prev[b] == entries[b]);
        }
    }
    if i == entries.len() - 1 {
        assert(entries.remove(i) =~= prev);
        lemma_map_of_keys(prev, last.0@);
        assert forall|j: int| 0 <= j < prev.len() implies (#[trigger] prev[j]).0@ != last.0@ by {
            assert(prev[j] == entries[j]);
            assert(entries[entries.len() - 1] == last);
        }
        assert(map_of(entries).remove(last.0@) =~= map_of(prev));
    } else {
        assert(entries.remove(i) =~= prev.remove(i).push(last));
        assert(entries.remove(i).drop_last() =~= prev.remove(i));
        lemma_map_of_remove(prev, i);
        assert(prev[i] == entries[i]);
        assert(entries[i].0@ != entries[entries.len() - 1].0@);
        assert(map_of(entries.remove(i)) =~= map_of(entries).remove(entries[i].0@));
    }
}

/// A table of sessions keyed by handle.
///
/// Besides the live sessions it remembers every handle it has ever stored,
/// so that a generated handle is never one that was issued before.
pub struct SessionRegistry<S> {
    entries: Vec<(String, S)>,
    issued: Vec<String>,
}

impl<S> View for SessionRegistry<S> {
    type V = Map<Seq<char>, S>;

    closed spec fn view(&self) -> Map<Seq<char>, S> {
        map_of(self.entries@)
    }
}

impl<S> SessionRegistry<S> {
    /// Every handle the table has ever stored a session under.
    pub closed spec fn issued(&self) -> Set<Seq<char>> {
        texts_of(self.issued@).to_set()
    }

    /// The table keeps each handle at most once, and each live handle is
    /// among the issued ones.
    pub closed spec fn wf(&self) -> bool {
        &&& keys_unique(self.entries@)
        &&& forall|k: Seq<char>| #[trigger]
            map_of(self.entries@).contains_key(k) ==> self.issued().contains(k)
    }

    /// An empty table that has issued nothing.
    pub fn new() -> (r: SessionRegistry<S>)
        ensures
            r.wf(),
            r@ == Map::<Seq<char>, S>::empty(),
            r.issued() == Set::<Seq<char>>::empty(),
    {
        let r = SessionRegistry { entries: Vec::new(), issued: Vec::new() };
        assert(r.issued() =~= Set::<Seq<char>>::empty());
        r
    }

    /// The position of `handle` in the table, if it is there.
    fn find(&self, handle: &String) -> (r: Option<usize>)
        requires
            self.wf(),
        ensures
            r is None <==> !self@.contains_key(handle@),
            r matches Some(i) ==> i < self.entries@.len() && self.entries@[i as int].0@
                == handle@,
    {
        let mut i: usize = 0;
        while i < self.entries.len()
            invariant
                0 <= i <= self.entries@.len(),
                forall|j: int| 0 <= j < i ==> (#[trigger] self.entries@[j]).0@ != handle@,
            decreases self.entries@.len() - i,
        {
            if self.entries[i].0 == *handle {
                proof {
                    lemma_map_of_keys(self.entries@, handle@);
                }
                return Some(i);
            }
            i = i + 1;
        }
        proof {
            lemma_map_of_keys(self.entries@, handle@);
        }
        None
    }

    /// Whether a session is stored under `handle`.
    pub fn contains(&self, handle: &String) -> (r: bool)
        requires
            self.wf(),
        ensures
            r == self@.contains_key(handle@),
    {
        self.find(handle).is_some()
    }

    /// The session stored under `handle`, if any.
    pub fn get(&self, handle: &String) -> (r: Option<&S>)
        requires
            self.wf(),
        ensures
            r is None <==> !self@.contains_key(handle@),
            r matches Some(s) ==> *s == self@[handle@],
    {
        match self.find(handle) {
            Some(i) => {
                proof {
                    lemma_map_of_index(self.entries@, i as int);
                }
                Some(&self.entries[i].1)
            },
            None => None,
        }
    }

    /// Takes the session stored under `handle` out of the table.
    pub fn remove(&mut self, handle: &String) -> (r: Option<S>)
        requires
            old(self).wf(),
        ensures
            final(self).wf(),
            final(self)@ == old(self)@.remove(handle@),
            final(self).issued() == old(self).issued(),
            r is None <==> !old(self)@.contains_key(handle@),
            r matches Some(s) ==> s == old(self)@[handle@],
    {
        match self.find(handle) {
            Some(i) => {
                proof {
                    lemma_map_of_index(self.entries@, i as int);
                    lemma_map_of_remove(self.entries@, i as int);
                }
                let ghost before = self.entries@;
                let (_, s) = self.entries.remove(i);
                assert(keys_unique(self.entries@)) by {
                    assert forall|a: int, b: int|
                        0 <= a < b < self.entries@.len() implies (#[trigger] self.entries@[a]).0@
                        != (#[trigger] self.entries@[b]).0@ by {
                        let a2 = if a < i { a } else { a + 1 };
                        let b2 = if b < i { b } else { b + 1 };
                        assert(self.entries@[a] == before[a2]);
                        assert(self.entries@[b] == before[b2]);
                    }
                }
                Some(s)
            },
            None => {
                assert(self@.remove(handle@) =~= self@);
                None
            },
        }
    }

    /// Stores `session` under `handle`, handing back the session it replaces.
    pub fn put(&mut self, handle: String, session: S) -> (r: Option<S>)
        requires
            old(self).wf(),
        ensures
            final(self).wf(),
            final(self)@ == old(self)@.insert(handle@, session),
            final(self).issued() == old(self).issued().insert(handle@),
            r is None <==> !old(self)@.contains_key(handle@),
            r matches Some(s) ==> s == old(self)@[handle@],
    {
        self.note_issued(&handle);
        let displaced = self.remove(&handle);
        let ghost before = self.entries@;
        proof {
            lemma_map_of_keys(before, handle@);
        }
        self.entries.push((handle, session));
        assert(self.entries@.drop_last() =~= before);
        assert(keys_unique(self.entries@)) by {
            assert forall|a: int, b: int|
                0 <= a < b < self.entries@.len() implies (#[trigger] self.entries@[a]).0@
                != (#[trigger] self.entries@[b]).0@ by {
                assert(self.entries@[a] == before[a]);
                if b < before.len() {
                    assert(self.entries@[b] == before[b]);
                }
            }
        }
        assert(self@ =~= old(self)@.insert(handle@, session));
        displaced
    }

    /// Whether a session was ever stored under `handle`.
    pub fn was_issued(&self, handle: &String) -> (r: bool)
        ensures
            r == self.issued().contains(handle@),
    {
        let mut i: usize = 0;
        while i < self.issued.len()
            invariant
                0 <= i <= self.issued@.len(),
                forall|j: int| 0 <= j < i ==> (#[trigger] self.issued@[j])@ != handle@,
            decreases self.issued@.len() - i,
        {
            if self.issued[i] == *handle {
                assert(texts_of(self.issued@)[i as int] == handle@);
                return true;
            }
            i = i + 1;
        }
        assert(!texts_of(self.issued@).contains(handle@)) by {
            if texts_of(self.issued@).contains(handle@) {
                let j = choose|j: int|
                    0 <= j < texts_of(self.issued@).len() && texts_of(self.issued@)[j] == handle@;
                assert(self.issued@[j]@ == handle@);
            }
        }
        false
    }

    /// Adds `handle` to the issued handles.
    fn note_issued(&mut self, handle: &String)
        requires
            old(self).wf(),
        ensures
            final(self).wf(),
            final(self)@ == old(self)@,
            final(self).issued() == old(self).issued().insert(handle@),
    {
        if self.was_issued(handle) {
            assert(self.issued() =~= self.issued().insert(handle@));
            return;
        }
        let ghost before = texts_of(self.issued@);
        self.issued.push(handle.clone());
        assert(texts_of(self.issued@) =~= before.push(handle@));
        assert(self.issued() =~= old(self).issued().insert(handle@)) by {
            assert forall|x: Seq<char>| #[trigger] self.issued().contains(x) == old(
                self,
            ).issued().insert(handle@).contains(x) by {
                if before.push(handle@).contains(x) {
                    let j = choose|j: int|
                        0 <= j < before.push(handle@).len() && before.push(handle@)[j] == x;
                    if j < before.len() {
                        assert(before.contains(x));
                    }
                }
                if before.contains(x) {
                    let j = choose|j: int| 0 <= j < before.len() && before[j] == x;
                    assert(before.push(handle@)[j] == x);
                }
                if x == handle@ {
                    assert(before.push(handle@)[before.len() as int] == x);
                }
            }
        }
    }

    /// The number of stored sessions.
    pub fn len(&self) -> (r: usize)
        requires
            self.wf(),
        ensures
            r == self@.len(),
    {
        proof {
            lemma_len_of_unique(self.entries@);
        }
        self.entries.len()
    }
}

/// Relies on rand's `Alphanumeric` distribution and `DistString::sample_string`:
/// `len` characters drawn from the thread-local generator, each an ASCII
/// letter or digit.
#[verifier::external_body]
fn random_handle(len: usize) -> (r: String)
    ensures
        is_alnum_text(r@, len as nat),
{
    Alphanumeric.sample_string(&mut rand::thread_rng(), len)
}

impl<S> SessionRegistry<S> {
    /// A handle that was never issued: `drawn` itself when it is new, else
    /// the first never-issued text of sixteen hexadecimal digits counting up
    /// from zero.
    pub fn fresh_handle(&self, drawn: String) -> (r: String)
        requires
            self.wf(),
        ensures
            !self.issued().contains(r@),
            !self@.contains_key(r@),
            !self.issued().contains(drawn@) ==> r@ == drawn@,
            self.issued().contains(drawn@) ==> is_alnum_text(r@, HANDLE_LEN as nat),
    {
        if !self.was_issued(&drawn) {
            assert(!map_of(self.entries@).contains_key(drawn@));
            return drawn;
        }
        let n = self.issued.len();
        let ghost full = self.issued();
        proof {
            broadcast use vstd::seq_lib::seq_to_set_is_finite;

            texts_of(self.issued@).lemma_cardinality_of_set();
            assert(full.finite());
        }
        let ghost mut seen: Set<Seq<char>> = Set::empty();
        let mut j: usize = 0;
        loop
            invariant
                self.wf(),
                full == self.issued(),
                full.contains(drawn@),
                full.finite(),
                full.len() <= n,
                j <= n,
                seen.finite(),
                seen.len() == j,
                seen.subset_of(full),
                forall|s: Seq<char>|
                    seen.contains(s) ==> exists|i: u64| i < j && s == #[trigger] counter_handle(i),
            decreases n - j,
        {
            let c = counter_handle_text(j as u64);
            proof {
                lemma_counter_handle(j as u64, j as u64);
            }
            if !self.was_issued(&c) {
                assert(!map_of(self.entries@).contains_key(c@));
                return c;
            }
            proof {
                if seen.contains(c@) {
                    let i = choose|i: u64| i < j && c@ == #[trigger] counter_handle(i);
                    lemma_counter_handle(i, j as u64);
                }
                let ghost before = seen;
                seen = seen.insert(c@);
                assert forall|s: Seq<char>| seen.contains(s) implies exists|i: u64|
                    i < j + 1 && s == #[trigger] counter_handle(i) by {
                    if s == c@ {
                        assert(counter_handle(j as u64) == s);
                    } else {
                        assert(before.contains(s));
                    }
                }
            }
            if j == n {
                proof {
                    vstd::set_lib::lemma_len_subset(seen, full);
                }
                assert(false);
                return c;
            }
            j = j + 1;
        }
    }

    /// Stores a newly connected session. An empty `requested` handle gets a
    /// fresh one: sixteen random letters and digits, never issued before; any
    /// other is used as given, and the session it replaces, if any, is handed
    /// back so that it can be closed.
    pub fn insert_session(&mut self, requested: String, session: S) -> (r: (String, Option<S>))
        requires
            old(self).wf(),
        ensures
            final(self).wf(),
            final(self)@ == old(self)@.insert(r.0@, session),
            final(self)@.contains_key(r.0@),
            final(self).issued() == old(self).issued().insert(r.0@),
            requested@.len() == 0 ==> !old(self).issued().contains(r.0@) && !old(self)@.contains_key(
                r.0@,
            ) && is_alnum_text(r.0@, HANDLE_LEN as nat) && r.1 is None,
            requested@.len() > 0 ==> r.0@ == requested@ && (r.1 is None <==> !old(
                self,
            )@.contains_key(requested@)) && (r.1 matches Some(s) ==> s == old(self)@[requested@]),
    {
        if requested.as_str().is_empty() {
            let drawn = random_handle(HANDLE_LEN);
            let handle = self.fresh_handle(drawn);
            let displaced = self.put(handle.clone(), session);
            (handle, displaced)
        } else {
            let displaced = self.put(requested.clone(), session);
            (requested, displaced)
        }
    }
}

/// A session stored under a fresh handle is found under that handle, and
/// taking it out again leaves the table as it was.
pub proof fn lemma_connect_then_exists<S>(table: Map<Seq<char>, S>, handle: Seq<char>, session: S)
    requires
        !table.contains_key(handle),
    ensures
        table.insert(handle, session).contains_key(handle),
        table.insert(handle, session)[handle] == session,
        table.insert(handle, session).remove(handle) == table,
{
    assert(table.insert(handle, session).remove(handle) =~= table);
}

/// After a handle is removed it is no longer found, and removing it a second
/// time finds nothing and changes nothing.
pub proof fn lemma_disconnect_twice<S>(table: Map<Seq<char>, S>, handle: Seq<char>)
    ensures
        !table.remove(handle).contains_key(handle),
        table.remove(handle).remove(handle) == table.remove(handle),
{
    assert(table.remove(handle).remove(handle) =~= table.remove(handle));
}

/// One operation on the table, as a thread performs it while holding the lock.
pub ghost enum TableOp<S> {
    Put { handle: Seq<char>, session: S },
    Remove { handle: Seq<char> },
    Get { handle: Seq<char> },
}

pub open spec fn op_handle<S>(op: TableOp<S>) -> Seq<char> {
    match op {
        TableOp::Put { handle, .. } => handle,
        TableOp::Remove { handle } => handle,
        TableOp::Get { handle } => handle,
    }
}

/// What the operation does to the table, as `put`, `remove` and `get` state it.
pub open spec fn apply_op<S>(table: Map<Seq<char>, S>, op: TableOp<S>) -> Map<Seq<char>, S> {
    match op {
        TableOp::Put { handle, session } => table.insert(handle, session),
        TableOp::Remove { handle } => table.remove(handle),
        TableOp::Get { .. } => table,
    }
}

/// The table after the operations, one after the other.
pub open spec fn apply_ops<S>(table: Map<Seq<char>, S>, ops: Seq<TableOp<S>>) -> Map<Seq<char>, S>
    decreases ops.len(),
{
    if ops.len() == 0 {
        table
    } else {
        apply_op(apply_ops(table, ops.drop_last()), ops.last())
    }
}

/// Whether the operation changes the table.
pub open spec fn is_write<S>(op: TableOp<S>) -> bool {
    !(op is Get)
}

/// No two writes name the same handle.
pub open spec fn writes_distinct<S>(ops: Seq<TableOp<S>>) -> bool {
    forall|i: int, j: int|
        0 <= i < j < ops.len() && is_write(#[trigger] ops[i]) && is_write(#[trigger] ops[j])
            ==> op_handle(ops[i]) != op_handle(ops[j])
}

/// Whether some write names `k`.
pub open spec fn writes_to<S>(ops: Seq<TableOp<S>>, k: Seq<char>) -> bool {
    exists|i: int| 0 <= i < ops.len() && is_write(#[trigger] ops[i]) && op_handle(ops[i]) == k
}

/// Puts, removes and lookups on distinct handles, run in any order, never
/// lose or clobber an entry: afterwards each put handle holds its session,
/// each removed handle is gone, and every other handle is as it was. The
/// outcome does not depend on the order, so every interleaving of threads
/// that take the lock once per operation ends in the same table.
pub proof fn lemma_distinct_operations<S>(table: Map<Seq<char>, S>, ops: Seq<TableOp<S>>)
    requires
        writes_distinct(ops),
    ensures
        forall|i: int|
            0 <= i < ops.len() && (#[trigger] ops[i] is Put) ==> apply_ops(table, ops).contains_key(
                op_handle(ops[i]),
            ) && apply_ops(table, ops)[op_handle(ops[i])] == ops[i]->Put_session,
        forall|i: int|
            0 <= i < ops.len() && (#[trigger] ops[i] is Remove) ==> !apply_ops(
                table,
                ops,
            ).contains_key(op_handle(ops[i])),
        forall|k: Seq<char>|
            !writes_to(ops, k) ==> (#[trigger] apply_ops(table, ops).contains_key(k)
                <==> table.contains_key(k)) && (table.contains_key(k) ==> apply_ops(table, ops)[k]
                == table[k]),
    decreases ops.len(),
{
    if ops.len() > 0 {
        let prev = ops.drop_last();
        let last = ops.last();
        let n = ops.len() - 1;
        assert(writes_distinct(prev)) by {
            assert forall|i: int, j: int|
                0 <= i < j < prev.len() && is_write(#[trigger] prev[i]) && is_write(
                    #[trigger] prev[j],
                ) implies op_handle(prev[i]) != op_handle(prev[j]) by {
                assert(prev[i] == ops[i] && prev[j] == ops[j]);
            }
        }
        lemma_distinct_operations(table, prev);
        assert(ops[n] == last);
        assert forall|i: int| 0 <= i < n && is_write(#[trigger] ops[i]) implies op_handle(ops[i])
            != op_handle(last) || !is_write(last) by {
            if is_write(last) {
                assert(is_write(ops[n]));
            }
        }
        assert forall|i: int| 0 <= i < n implies #[trigger] ops[i] == prev[i] by {}
        assert forall|k: Seq<char>| !writes_to(ops, k) implies (#[trigger] apply_ops(
            table,
            ops,
        ).contains_key(k) <==> table.contains_key(k)) && (table.contains_key(k) ==> apply_ops(
            table,
            ops,
        )[k] == table[k]) by {
            if writes_to(prev, k) {
                let i = choose|i: int|
                    0 <= i < prev.len() && is_write(#[trigger] prev[i]) && op_handle(prev[i]) == k;
                assert(ops[i] == prev[i]);
            }
            if is_write(last) && op_handle(last) == k {
                assert(is_write(ops[n]));
            }
            assert(apply_ops(table, prev).contains_key(k) <==> table.contains_key(k));
        }
    }
}

/// With unique handles the map has one key per entry.
proof fn lemma_len_of_unique<S>(entries: Seq<(String, S)>)
    requires
        keys_unique(entries),
    ensures
        map_of(entries).len() == entries.len(),
        map_of(entries).dom().finite(),
    decreases entries.len(),
{
    if entries.len() > 0 {
        let prev = entries.drop_last();
        assert(keys_unique(prev)) by {
            assert forall|a: int, b: int| 0 <= a < b < prev.len() implies (#[trigger] prev[a]).0@
                != (#[trigger] prev[b]).0@ by {
                assert(prev[a] == entries[a] && prev[b] == entries[b]);
            }
        }
        lemma_len_of_unique(prev);
        lemma_map_of_keys(prev, entries.last().0@);
        assert forall|j: int| 0 <= j < prev.len() implies (#[trigger] prev[j]).0@
            != entries.last().0@ by {
            assert(prev[j] == entries[j]);
            assert(entries[entries.len() - 1] == entries.last());
        }
    }
}

} // verus!
