use vstd::prelude::*;

verus! {

/// Failure of a store operation.
#[derive(Debug, Clone, Copy, PartialEq, Eq, Structural)]
pub enum StoreError {
    /// No connection could be had, or the connection broke.
    Unavailable,
    /// The store answered with a value of an unexpected shape.
    Malformed,
}

/// The string value stored under `k`, if any.
pub open spec fn lookup(m: Map<Seq<char>, Seq<char>>, k: Seq<char>) -> Option<Seq<char>> {
    if m.dom().contains(k) {
        Some(m[k])
    } else {
        None
    }
}

/// The view of an optional string.
pub open spec fn opt_view(o: Option<String>) -> Option<Seq<char>> {
    match o {
        Some(s) => Some(s@),
        None => None,
    }
}

/// A key-value backend with string values and sets of strings.
///
/// The model: `strings` maps string keys to values; `members` holds a pair
/// `(set_key, member)` for each member of each set; `read_ok`, `write_ok` and
/// `add_ok` say whether a read, a write and a set insert can reach the backend
/// now. A failed operation changes nothing and reports `Unavailable`.
///
/// The model functions have constant defaults (empty contents, nothing
/// reachable) only so that a backend outside the verified code, such as a
/// remote Redis server, can implement the three operations alone. Such a
/// backend has no model of its own: nothing proved here holds of it, and its
/// calls are not checked against the contracts below. `MemoryStore` gives the
/// model its real meaning.
pub trait KeyValueStore {
    closed spec fn strings(&self) -> Map<Seq<char>, Seq<char>> {
        Map::empty()
    }

    closed spec fn members(&self) -> Set<(Seq<char>, Seq<char>)> {
        Set::empty()
    }

    closed spec fn read_ok(&self) -> bool {
        false
    }

    closed spec fn write_ok(&self) -> bool {
        false
    }

    closed spec fn add_ok(&self) -> bool {
        false
    }

    /// Reads the string stored under `key`; `None` when the key is absent.
    fn get(&mut self, key: &String) -> (r: Result<Option<String>, StoreError>)
        ensures
            final(self).strings() == old(self).strings(),
            final(self).members() == old(self).members(),
            final(self).read_ok() == old(self).read_ok(),
            final(self).write_ok() == old(self).write_ok(),
            final(self).add_ok() == old(self).add_ok(),
            r is Ok <==> old(self).read_ok(),
            r is Err ==> r == Err::<Option<String>, StoreError>(StoreError::Unavailable),
            r matches Ok(v) ==> opt_view(v) == lookup(old(self).strings(), key@),
    ;

    /// Stores `value` under `key`, replacing any earlier value.
    fn set(&mut self, key: &String, value: &String) -> (r: Result<(), StoreError>)
        ensures
            final(self).members() == old(self).members(),
            final(self).read_ok() == old(self).read_ok(),
            final(self).write_ok() == old(self).write_ok(),
            final(self).add_ok() == old(self).add_ok(),
            r is Ok <==> old(self).write_ok(),
            r is Err ==> r == Err::<(), StoreError>(StoreError::Unavailable),
            r is Ok ==> final(self).strings() == old(self).strings().insert(key@, value@),
            r is Err ==> final(self).strings() == old(self).strings(),
    ;

    /// Adds `member` to the set stored under `set_key`.
    fn add_to_set(&mut self, set_key: &String, member: &String) -> (r: Result<(), StoreError>)
        ensures
            final(self).strings() == old(self).strings(),
            final(self).read_ok() == old(self).read_ok(),
            final(self).write_ok() == old(self).write_ok(),
            final(self).add_ok() == old(self).add_ok(),
            r is Ok <==> old(self).add_ok(),
            r is Err ==> r == Err::<(), StoreError>(StoreError::Unavailable),
            r is Ok ==> final(self).members() == old(self).members().insert((set_key@, member@)),
            r is Err ==> final(self).members() == old(self).members(),
    ;
}

/// `a` and `b` agree on which operations reach the backend.
pub open spec fn same_availability<S: KeyValueStore>(a: S, b: S) -> bool {
    a.read_ok() == b.read_ok() && a.write_ok() == b.write_ok() && a.add_ok() == b.add_ok()
}

/// The map that a log of writes leaves behind: later writes win.
pub open spec fn log_strings(log: Seq<(Seq<char>, Seq<char>)>) -> Map<Seq<char>, Seq<char>>
    decreases log.len(),
{
    if log.len() == 0 {
        Map::empty()
    } else {
        log_strings(log.drop_last()).insert(log.last().0, log.last().1)
    }
}

/// The view of a list of string pairs.
pub open spec fn pairs_view(v: Seq<(String, String)>) -> Seq<(Seq<char>, Seq<char>)> {
    v.map_values(|e: (String, String)| (e.0@, e.1@))
}

/// An in-memory store, for tests and local runs. Each kind of operation can be
/// made to fail on purpose, to observe partial failures.
pub struct MemoryStore {
    writes: Vec<(String, String)>,
    set_adds: Vec<(String, String)>,
    fail_reads: bool,
    fail_writes: bool,
    fail_set_adds: bool,
}

impl MemoryStore {
    /// An empty store on which every operation succeeds until `set_failures` says
    /// otherwise.
    pub fn new() -> (r: MemoryStore)
        ensures
            r.strings() == Map::<Seq<char>, Seq<char>>::empty(),
            r.members() == Set::<(Seq<char>, Seq<char>)>::empty(),
            r.read_ok(),
            r.write_ok(),
            r.add_ok(),
    {
        let r = MemoryStore {
            writes: Vec::new(),
            set_adds: Vec::new(),
            fail_reads: false,
            fail_writes: false,
            fail_set_adds: false,
        };
        assert(pairs_view(r.set_adds@).to_set() =~= Set::empty());
        r
    }

    /// Chooses which kinds of operation fail from now on; the contents stay.
    pub fn set_failures(&mut self, reads: bool, writes: bool, set_adds: bool)
        ensures
            final(self).strings() == old(self).strings(),
            final(self).members() == old(self).members(),
            final(self).read_ok() == !reads,
            final(self).write_ok() == !writes,
            final(self).add_ok() == !set_adds,
    {
        self.fail_reads = reads;
        self.fail_writes = writes;
        self.fail_set_adds = set_adds;
    }

    /// Whether `member` belongs to the set stored under `set_key`.
    pub fn is_member(&self, set_key: &String, member: &String) -> (r: bool)
        ensures
            r == self.members().contains((set_key@, member@)),
    {
        let ghost log = pairs_view(self.set_adds@);
        let mut i: usize = 0;
        while i < self.set_adds.len()
            invariant
                i <= self.set_adds.len(),
                log == pairs_view(self.set_adds@),
                forall|j: int| 0 <= j < i ==> log[j] != (set_key@, member@),
            decreases self.set_adds.len() - i,
        {
            let e = &self.set_adds[i];
            if e.0 == *set_key && e.1 == *member {
                assert(log.contains((set_key@, member@))) by {
                    assert(log[i as int] == (set_key@, member@));
                }
                return true;
            }
            i = i + 1;
        }
        assert(!log.contains((set_key@, member@)));
        false
    }
}

impl KeyValueStore for MemoryStore {
    closed spec fn strings(&self) -> Map<Seq<char>, Seq<char>> {
        log_strings(pairs_view(self.writes@))
    }

    closed spec fn members(&self) -> Set<(Seq<char>, Seq<char>)> {
        pairs_view(self.set_adds@).to_set()
    }

    closed spec fn read_ok(&self) -> bool {
        !self.fail_reads
    }

    closed spec fn write_ok(&self) -> bool {
        !self.fail_writes
    }

    closed spec fn add_ok(&self) -> bool {
        !self.fail_set_adds
    }

    fn get(&mut self, key: &String) -> (r: Result<Option<String>, StoreError>) {
        if self.fail_reads {
            return Err(StoreError::Unavailable);
        }
        let ghost log = pairs_view(self.writes@);
        let mut i: usize = self.writes.len();
        assert(log.subrange(0, i as int) =~= log);
        while i > 0
            invariant
                i <= self.writes.len(),
                !self.fail_reads,
                log == pairs_view(self.writes@),
                lookup(log_strings(log), key@) == lookup(log_strings(log.subrange(0, i as int)), key@),
            decreases i,
        {
            let e = &self.writes[i - 1];
            assert(log.subrange(0, i as int).drop_last() =~= log.subrange(0, i - 1));
            if e.0 == *key {
                return Ok(Some(e.1.clone()));
            }
            i = i - 1;
        }
        assert(log.subrange(0, 0) =~= Seq::<(Seq<char>, Seq<char>)>::empty());
        Ok(None)
    }

    fn set(&mut self, key: &String, value: &String) -> (r: Result<(), StoreError>) {
        if self.fail_writes {
            return Err(StoreError::Unavailable);
        }
        let ghost before = pairs_view(self.writes@);
        self.writes.push((key.clone(), value.clone()));
        assert(pairs_view(self.writes@).drop_last() =~= before);
        Ok(())
    }

    fn add_to_set(&mut self, set_key: &String, member: &String) -> (r: Result<(), StoreError>) {
        if self.fail_set_adds {
            return Err(StoreError::Unavailable);
        }
        let ghost before = pairs_view(self.set_adds@);
        self.set_adds.push((set_key.clone(), member.clone()));
        proof {
            let after = pairs_view(self.set_adds@);
            assert(after =~= before.push((set_key@, member@)));
            assert(after.to_set() =~= before.to_set().insert((set_key@, member@))) by {
                assert forall|p| after.to_set().contains(p) implies before.to_set().insert(
                    (set_key@, member@),
                ).contains(p) by {
                    let j = choose|j: int| 0 <= j < after.len() && after[j] == p;
                    if j < before.len() {
                        assert(before[j] == p);
                    }
                }
                assert forall|p| before.to_set().insert((set_key@, member@)).contains(p) implies after.to_set().contains(p) by {
                    if p == (set_key@, member@) {
                        assert(after[before.len() as int] == p);
                    } else {
                        let j = choose|j: int| 0 <= j < before.len() && before[j] == p;
                        assert(after[j] == p);
                    }
                }
            }
        }
        Ok(())
    }
}

} // verus!
