use crate::error::TunnelError;
use vstd::prelude::*;

verus! {

/// A failure of a fingerprint store.
#[derive(Debug, Clone, PartialEq, Eq)]
pub enum StorageError {
    /// The embedded SQL file reported an error.
    LocalSqlite(String),
    /// The remote SQL cluster reported an error.
    Remote(String),
    /// A fingerprint is already stored for this host.
    DuplicateHost(String),
}

impl StorageError {
    /// The human-readable text of the error.
    pub fn message(&self) -> (m: String)
        ensures
            m@ == storage_message(*self),
    {
        match self {
            StorageError::LocalSqlite(e) => {
                let mut m = "sqlite returned an error: ".to_owned();
                m.append(e.as_str());
                m
            },
            StorageError::Remote(e) => {
                let mut m = "rqlite returned an error: ".to_owned();
                m.append(e.as_str());
                m
            },
            StorageError::DuplicateHost(h) => {
                let mut m = "a fingerprint is already stored for ".to_owned();
                m.append(h.as_str());
                m
            },
        }
    }
}

pub open spec fn storage_message(e: StorageError) -> Seq<char> {
    match e {
        StorageError::LocalSqlite(s) => "sqlite returned an error: "@ + s@,
        StorageError::Remote(s) => "rqlite returned an error: "@ + s@,
        StorageError::DuplicateHost(h) => "a fingerprint is already stored for "@ + h@,
    }
}

/// The error a store failure becomes for the tunnel that met it.
pub fn storage_layer_error(e: &StorageError) -> (r: TunnelError)
    ensures
        r matches TunnelError::StorageLayer(m) && m@ == storage_message(*e),
{
    TunnelError::StorageLayer(e.message())
}

/// A fingerprint store held in memory: at most one fingerprint per host.
pub struct KnownHosts {
    records: Vec<(String, String)>,
    contents: Ghost<Map<Seq<char>, Seq<char>>>,
    writes: Ghost<nat>,
}

impl View for KnownHosts {
    type V = Map<Seq<char>, Seq<char>>;

    closed spec fn view(&self) -> Map<Seq<char>, Seq<char>> {
        self.contents@
    }
}

impl KnownHosts {
    pub closed spec fn wf(&self) -> bool {
        &&& forall|k: Seq<char>|
            #![trigger self.contents@.contains_key(k)]
            self.contents@.contains_key(k) <==> exists|i: int|
                0 <= i < self.records@.len() && (#[trigger] self.records@[i]).0@ == k
        &&& forall|i: int|
            0 <= i < self.records@.len() ==> self.contents@[(#[trigger] self.records@[i]).0@]
                == self.records@[i].1@
        &&& forall|i: int, j: int|
            0 <= i < self.records@.len() && 0 <= j < self.records@.len() && (
            #[trigger] self.records@[i]).0@ == (#[trigger] self.records@[j]).0@ ==> i == j
    }

    /// How many fingerprints were written since the store was made.
    pub closed spec fn write_count(&self) -> nat {
        self.writes@
    }

    pub fn new() -> (s: KnownHosts)
        ensures
            s.wf(),
            s@ == Map::<Seq<char>, Seq<char>>::empty(),
            s.write_count() == 0,
    {
        KnownHosts { records: Vec::new(), contents: Ghost(Map::empty()), writes: Ghost(0) }
    }

    /// Creates the schema: nothing to do in memory, and safe to repeat.
    pub fn ensure(&self) -> (r: Result<(), StorageError>)
        ensures
            r is Ok,
    {
        Ok(())
    }

    /// The fingerprint stored for `host`; absence is `None`, not an error.
    pub fn get_server_fingerprint(&self, host: &str) -> (r: Result<Option<String>, StorageError>)
        requires
            self.wf(),
        ensures
            r matches Ok(found) && match found {
                Some(f) => self@.contains_key(host@) && self@[host@] == f@,
                None => !self@.contains_key(host@),
            },
    {
        let wanted = host.to_owned();
        let mut i: usize = 0;
        while i < self.records.len()
            invariant
                self.wf(),
                i <= self.records@.len(),
                wanted@ == host@,
                forall|j: int| 0 <= j < i ==> (#[trigger] self.records@[j]).0@ != host@,
            decreases self.records@.len() - i,
        {
            if self.records[i].0 == wanted {
                return Ok(Some(self.records[i].1.clone()));
            }
            i = i + 1;
        }
        Ok(None)
    }

    /// Stores the fingerprint of a host that has none yet. A host that has
    /// one is refused with `DuplicateHost`, and the store is left as it was.
    pub fn store_server_fingerprint(&mut self, host: &str, fingerprint: &str) -> (r: Result<
        (),
        StorageError,
    >)
        requires
            old(self).wf(),
        ensures
            final(self).wf(),
            !old(self)@.contains_key(host@) ==> {
                &&& r is Ok
                &&& final(self)@ == old(self)@.insert(host@, fingerprint@)
                &&& final(self).write_count() == old(self).write_count() + 1
            },
            old(self)@.contains_key(host@) ==> {
                &&& r matches Err(StorageError::DuplicateHost(h)) && h@ == host@
                &&& final(self)@ == old(self)@
                &&& final(self).write_count() == old(self).write_count()
            },
    {
        match self.get_server_fingerprint(host) {
            Ok(Some(_)) => Err(StorageError::DuplicateHost(host.to_owned())),
            _ => {
                let ghost old_records = self.records@;
                self.records.push((host.to_owned(), fingerprint.to_owned()));
                self.contents = Ghost(self.contents@.insert(host@, fingerprint@));
                self.writes = Ghost(self.writes@ + 1);
                proof {
                    assert forall|k: Seq<char>|
                        #![trigger self.contents@.contains_key(k)]
                        self.contents@.contains_key(k) <==> exists|i: int|
                            0 <= i < self.records@.len() && (#[trigger] self.records@[i]).0@
                                == k by {
                        if k == host@ {
                            assert(self.records@[old_records.len() as int].0@ == k);
                        } else if self.contents@.contains_key(k) {
                            let i = choose|i: int|
                                0 <= i < old_records.len() && (#[trigger] old_records[i]).0@ == k;
                            assert(self.records@[i] == old_records[i]);
                        } else {
                            assert forall|i: int| 0 <= i < self.records@.len() implies (
                            #[trigger] self.records@[i]).0@ != k by {
                                if i < old_records.len() {
                                    assert(self.records@[i] == old_records[i]);
                                }
                            }
                        }
                    }
                    assert forall|i: int|
                        0 <= i < self.records@.len() implies self.contents@[(
                        #[trigger] self.records@[i]).0@] == self.records@[i].1@ by {
                        if i < old_records.len() {
                            assert(self.records@[i] == old_records[i]);
                        }
                    }
                }
                Ok(())
            },
        }
    }
}

} // verus!
