//! A pool of named sessions with a fixed capacity.
//!
//! Each name owns its own session, so sessions never see each other's
//! state. A session is only created for a name the pool does not hold, and
//! only while the pool is below its capacity.
use vstd::prelude::*;
use crate::string_map::lemma_index_of_unique;
use crate::text::{str_eq, decimal, push_str, push_decimal};

verus! {

/// The message given when the pool is full.
pub open spec fn pool_full_message(count: nat, max: nat) -> Seq<char> {
    "Session pool full ("@ + decimal(count) + "/"@ + decimal(max) + "). Close a session first."@
}

/// Pool of named sessions, at most `max_sessions` of them.
pub struct NeoSessionPool<S> {
    names: Vec<String>,
    sessions: Vec<S>,
    max_sessions: usize,
}


impl<S> NeoSessionPool<S> {
    /// The names of the sessions, in the order they were created.
    pub closed spec fn names(&self) -> Seq<Seq<char>> {
        self.names@.map_values(|s: String| s@)
    }

    /// The sessions, in the same order as their names.
    pub closed spec fn sessions(&self) -> Seq<S> {
        self.sessions@
    }

    /// The capacity the pool was made with.
    pub closed spec fn capacity(&self) -> nat {
        self.max_sessions as nat
    }

    /// No name twice, one session per name, and no more sessions than the
    /// capacity.
    pub open spec fn wf(&self) -> bool {
        &&& self.names().no_duplicates()
        &&& self.sessions().len() == self.names().len()
        &&& self.names().len() <= self.capacity()
    }

    /// The index of the session with the given name.
    pub open spec fn index_of_name(&self, name: Seq<char>) -> int {
        self.names().index_of(name)
    }

    /// The session stored under a name present in the pool.
    pub open spec fn session_of(&self, name: Seq<char>) -> S {
        self.sessions()[self.index_of_name(name)]
    }

    /// Create an empty pool that holds at most `max` sessions.
    pub fn new(max: usize) -> (p: Self)
        ensures
            p.wf(),
            p.names() == Seq::<Seq<char>>::empty(),
            p.sessions() == Seq::<S>::empty(),
            p.capacity() == max,
    {
        let p = NeoSessionPool { names: Vec::new(), sessions: Vec::new(), max_sessions: max };
        assert(p.names() =~= Seq::<Seq<char>>::empty());
        p
    }

    fn position(&self, name: &str) -> (r: Option<usize>)
        requires
            self.wf(),
        ensures
            r matches Some(i) ==> self.names().contains(name@) && i == self.index_of_name(name@)
                && i < self.names().len(),
            r is None ==> !self.names().contains(name@),
    {
        let mut i: usize = 0;
        while i < self.names.len()
            invariant
                i <= self.names@.len(),
                self.wf(),
                forall|j: int| 0 <= j < i ==> self.names()[j] != name@,
            decreases self.names@.len() - i,
        {
            if str_eq(self.names[i].as_str(), name) {
                proof {
                    assert(self.names()[i as int] == name@);
                    lemma_index_of_unique(self.names(), i as int);
                }
                return Some(i);
            }
            i = i + 1;
        }
        proof {
            if self.names().contains(name@) {
                let j = self.names().index_of(name@);
                assert(self.names()[j] == name@);
            }
        }
        None
    }

    /// The session with the given name, to use and change in place.
    pub fn get(&mut self, name: &str) -> (r: Option<&mut S>)
        requires
            old(self).wf(),
        ensures
            final(self).wf(),
            final(self).capacity() == old(self).capacity(),
            final(self).names() == old(self).names(),
            match r {
                Some(m) => old(self).names().contains(name@)
                    && *m == old(self).session_of(name@)
                    && final(self).sessions() == old(self).sessions().update(
                        old(self).index_of_name(name@), *final(m)),
                None => !old(self).names().contains(name@) && final(self).sessions() == old(self).sessions(),
            },
    {
        match self.position(name) {
            Some(i) => {
                let r = &mut self.sessions[i];
                Some(r)
            },
            None => None,
        }
    }

    /// The session with the given name; one made by `make` if the pool has
    /// none of that name. A pool at its capacity makes no new session and
    /// gives an error instead, as does a failing `make`.
    pub fn get_or_create<F: FnOnce() -> Result<S, String>>(&mut self, name: &str, make: F) -> (r: Result<&mut S, String>)
        requires
            old(self).wf(),
            call_requires(make, ()),
        ensures
            final(self).wf(),
            final(self).capacity() == old(self).capacity(),
            old(self).names().contains(name@) ==> (r matches Ok(m)
                && *m == old(self).session_of(name@)
                && final(self).names() == old(self).names()
                && final(self).sessions() == old(self).sessions().update(
                    old(self).index_of_name(name@), *final(m))),
            !old(self).names().contains(name@) && old(self).names().len() >= old(self).capacity() ==> (
                r matches Err(e) && e@ == pool_full_message(old(self).names().len(), old(self).capacity())
                && final(self).names() == old(self).names()
                && final(self).sessions() == old(self).sessions()),
            !old(self).names().contains(name@) && old(self).names().len() < old(self).capacity() ==> (
                match r {
                    Ok(m) => call_ensures(make, (), Ok(*m))
                        && final(self).names() == old(self).names().push(name@)
                        && final(self).sessions() == old(self).sessions().push(*final(m)),
                    Err(e) => call_ensures(make, (), Err(e))
                        && final(self).names() == old(self).names()
                        && final(self).sessions() == old(self).sessions(),
                }),
    {
        match self.position(name) {
            Some(i) => {
                let r = &mut self.sessions[i];
                Ok(r)
            },
            None => {
                let n = self.names.len();
                if n >= self.max_sessions {
                    let mut msg = String::new();
                    push_str(&mut msg, "Session pool full (");
                    push_decimal(&mut msg, n as u64);
                    push_str(&mut msg, "/");
                    push_decimal(&mut msg, self.max_sessions as u64);
                    push_str(&mut msg, "). Close a session first.");
                    return Err(msg);
                }
                let made = make();
                match made {
                    Ok(s) => {
                        self.names.push(name.to_owned());
                        self.sessions.push(s);
                        proof {
                            assert(self.names() =~= old(self).names().push(name@));
                        }
                        let r = &mut self.sessions[n];
                        Ok(r)
                    },
                    Err(e) => Err(e),
                }
            },
        }
    }

    /// Close and remove the session with the given name, if there is one.
    pub fn close(&mut self, name: &str)
        requires
            old(self).wf(),
        ensures
            final(self).wf(),
            final(self).capacity() == old(self).capacity(),
            old(self).names().contains(name@) ==> {
                &&& final(self).names() == old(self).names().remove(old(self).index_of_name(name@))
                &&& final(self).sessions() == old(self).sessions().remove(old(self).index_of_name(name@))
            },
            !old(self).names().contains(name@) ==> final(self).names() == old(self).names()
                && final(self).sessions() == old(self).sessions(),
    {
        match self.position(name) {
            Some(i) => {
                let _name = self.names.remove(i);
                let _closed = self.sessions.remove(i);
                proof {
                    assert(self.names() =~= old(self).names().remove(i as int));
                }
            },
            None => {},
        }
    }

    /// The names of all sessions, in the order they were created.
    pub fn list(&self) -> (r: Vec<String>)
        ensures
            r@.map_values(|s: String| s@) == self.names(),
    {
        let mut r: Vec<String> = Vec::new();
        let mut i: usize = 0;
        while i < self.names.len()
            invariant
                i <= self.names@.len(),
                r@.len() == i,
                forall|j: int| 0 <= j < i ==> #[trigger] r@[j]@ == self.names()[j],
            decreases self.names@.len() - i,
        {
            r.push(self.names[i].clone());
            i = i + 1;
        }
        assert(r@.map_values(|s: String| s@) =~= self.names());
        r
    }

    /// Number of sessions in the pool.
    pub fn count(&self) -> (r: usize)
        requires
            self.wf(),
        ensures
            r == self.names().len(),
    {
        self.names.len()
    }
}

/// A pool never holds more sessions than its capacity.
pub proof fn law_count_within_capacity<S>(p: NeoSessionPool<S>)
    requires
        p.wf(),
    ensures
        p.names().len() <= p.capacity(),
        p.sessions().len() <= p.capacity(),
{
}

/// Changing the session of one name leaves the session of every other name
/// as it was: sessions never see each other's state.
pub proof fn law_sessions_isolated<S>(before: NeoSessionPool<S>, after: NeoSessionPool<S>, name: Seq<char>, other: Seq<char>, s: S)
    requires
        before.wf(),
        before.names().contains(name),
        before.names().contains(other),
        other != name,
        after.names() == before.names(),
        after.sessions() == before.sessions().update(before.index_of_name(name), s),
    ensures
        after.session_of(other) == before.session_of(other),
        after.session_of(name) == s,
{
    let i = before.index_of_name(name);
    let j = before.index_of_name(other);
    assert(before.names()[i] == name);
    assert(before.names()[j] == other);
    assert(i != j);
}

/// After a session is closed, its name is no longer in the pool, and every
/// other name still is, with its own session.
pub proof fn law_closed_name_is_gone<S>(before: NeoSessionPool<S>, after: NeoSessionPool<S>, name: Seq<char>, other: Seq<char>)
    requires
        before.wf(),
        before.names().contains(name),
        after.names() == before.names().remove(before.index_of_name(name)),
        after.sessions() == before.sessions().remove(before.index_of_name(name)),
    ensures
        !after.names().contains(name),
        before.names().contains(other) && other != name ==> after.names().contains(other)
            && after.session_of(other) == before.session_of(other),
{
    let i = before.index_of_name(name);
    let ns = before.names();
    assert(ns[i] == name);
    if after.names().contains(name) {
        let k = choose|k: int| 0 <= k < after.names().len() && after.names()[k] == name;
        if k < i {
            assert(ns[k] == name);
        } else {
            assert(ns[k + 1] == name);
        }
        assert(false);
    }
    if ns.contains(other) && other != name {
        let j = ns.index_of(other);
        assert(ns[j] == other);
        assert(j != i);
        let k = if j < i { j } else { j - 1 };
        assert(after.names()[k] == other);
        assert(after.names().contains(other));
        let k2 = after.names().index_of(other);
        assert(after.names()[k2] == other);
        // names stay free of duplicates after a removal
        assert(after.names().no_duplicates()) by {
            assert forall|a: int, b: int| 0 <= a < b < after.names().len() implies after.names()[a] != after.names()[b] by {
                let a2 = if a < i { a } else { a + 1 };
                let b2 = if b < i { b } else { b + 1 };
                assert(after.names()[a] == ns[a2]);
                assert(after.names()[b] == ns[b2]);
            }
        }
        if k2 != k {
            assert(false);
        }
        assert(after.session_of(other) == after.sessions()[k]);
    }
}

} // verus!
