//! The proof-of-build registry: an independent keyed store of build records
//! with a single unverified-to-verified flag transition.
//!
//! Records are keyed by an externally supplied `build_id` (not allocated by a
//! counter). The registry is abstracted as a map from id to record:
//! registering overwrites whatever was stored under that id, and verifying
//! flips the record's flag. Unlike the application store, absence is signalled
//! by `None`, not by a sentinel record.

use vstd::prelude::*;

use crate::error::Error;

verus! {

/// One build proof: who built what, when it was submitted, and whether a
/// judge has verified it. `verified` only moves from `false` to `true`.
#[derive(Debug)]
pub struct BuildRecord {
    /// Externally chosen identifier of the build.
    pub build_id: u64,
    /// Identity label of the builder.
    pub builder: String,
    /// Where the source lives.
    pub repo_url: String,
    /// Free-text description.
    pub description: String,
    /// Registration time as the host's clock gave it.
    pub submitted_at: u64,
    /// Whether the build was verified; never reverts.
    pub verified: bool,
}

impl BuildRecord {
    /// An owned copy equal to this record; lookups hand out copies so that
    /// the registry keeps sole ownership of what it persists.
    pub fn duplicate(&self) -> (r: BuildRecord)
        ensures
            r == *self,
    {
        BuildRecord {
            build_id: self.build_id,
            builder: self.builder.clone(),
            repo_url: self.repo_url.clone(),
            description: self.description.clone(),
            submitted_at: self.submitted_at,
            verified: self.verified,
        }
    }
}

/// No two records share an id.
pub open spec fn unique_ids(s: Seq<BuildRecord>) -> bool {
    forall|i: int, j: int|
        0 <= i < j < s.len() ==> (#[trigger] s[i]).build_id != (#[trigger] s[j]).build_id
}

/// The records as a map from id to record; on duplicate ids the later record
/// wins (the registry keeps ids unique, so this never arises).
pub open spec fn as_map(s: Seq<BuildRecord>) -> Map<u64, BuildRecord>
    decreases s.len(),
{
    if s.len() == 0 {
        Map::<u64, BuildRecord>::empty()
    } else {
        as_map(s.drop_last()).insert(s.last().build_id, s.last())
    }
}

/// An id held by no record is absent from the map.
proof fn lemma_as_map_absent(s: Seq<BuildRecord>, build_id: u64)
    requires
        forall|i: int| 0 <= i < s.len() ==> (#[trigger] s[i]).build_id != build_id,
    ensures
        !as_map(s).contains_key(build_id),
    decreases s.len(),
{
    if s.len() > 0 {
        assert(forall|i: int|
            0 <= i < s.drop_last().len() ==> #[trigger] s.drop_last()[i] == s[i]);
        lemma_as_map_absent(s.drop_last(), build_id);
        assert(s.last() == s[s.len() - 1]);
    }
}

/// With unique ids, the map sends each record's id to that record.
proof fn lemma_as_map_found(s: Seq<BuildRecord>, i: int)
    requires
        unique_ids(s),
        0 <= i < s.len(),
    ensures
        as_map(s).contains_key(s[i].build_id),
        as_map(s)[s[i].build_id] == s[i],
    decreases s.len(),
{
    assert(s.last() == s[s.len() - 1]);
    if i < s.len() - 1 {
        assert(forall|j: int|
            0 <= j < s.drop_last().len() ==> #[trigger] s.drop_last()[j] == s[j]);
        lemma_as_map_found(s.drop_last(), i);
        assert(s[i].build_id != s.last().build_id);
    }
}

/// Appending a record inserts it into the map.
proof fn lemma_as_map_push(s: Seq<BuildRecord>, r: BuildRecord)
    ensures
        as_map(s.push(r)) == as_map(s).insert(r.build_id, r),
{
    assert(s.push(r).drop_last() =~= s);
    assert(s.push(r).last() == r);
}

/// Replacing a record by one with the same id inserts the new record into
/// the map and touches nothing else.
proof fn lemma_as_map_update(s: Seq<BuildRecord>, i: int, r: BuildRecord)
    requires
        unique_ids(s),
        0 <= i < s.len(),
        s[i].build_id == r.build_id,
    ensures
        as_map(s.update(i, r)) == as_map(s).insert(r.build_id, r),
    decreases s.len(),
{
    let u = s.update(i, r);
    assert(s.last() == s[s.len() - 1]);
    assert(u.last() == u[s.len() - 1]);
    if i == s.len() - 1 {
        assert(u.drop_last() =~= s.drop_last());
        assert(u.last() == r);
        assert(as_map(s.drop_last()).insert(s.last().build_id, s.last()).insert(r.build_id, r)
            =~= as_map(s.drop_last()).insert(r.build_id, r));
    } else {
        assert(u.drop_last() =~= s.drop_last().update(i, r));
        assert(u.last() == s.last());
        assert(forall|j: int|
            0 <= j < s.drop_last().len() ==> #[trigger] s.drop_last()[j] == s[j]);
        lemma_as_map_update(s.drop_last(), i, r);
        assert(s[i].build_id != s.last().build_id);
        assert(as_map(s.drop_last()).insert(r.build_id, r).insert(
            s.last().build_id,
            s.last(),
        ) =~= as_map(s.drop_last()).insert(s.last().build_id, s.last()).insert(r.build_id, r));
    }
}

/// The registry itself: owns the build records, keeps their ids unique.
pub struct ProofOfBuildRegistry {
    /// The stored records, one per registered id.
    pub builds: Vec<BuildRecord>,
}

impl View for ProofOfBuildRegistry {
    type V = Map<u64, BuildRecord>;

    open spec fn view(&self) -> Map<u64, BuildRecord> {
        as_map(self.builds@)
    }
}

impl ProofOfBuildRegistry {
    /// Well-formedness: no two stored records share an id.
    pub open spec fn wf(self) -> bool {
        unique_ids(self.builds@)
    }

    /// An empty registry.
    pub fn new() -> (r: ProofOfBuildRegistry)
        ensures
            r.wf(),
            r@ == Map::<u64, BuildRecord>::empty(),
    {
        ProofOfBuildRegistry { builds: Vec::new() }
    }

    /// Where the record with this id sits, if anywhere.
    fn index_of(&self, build_id: u64) -> (r: Option<usize>)
        ensures
            match r {
                Some(i) => i < self.builds@.len() && self.builds@[i as int].build_id == build_id,
                None => forall|j: int|
                    0 <= j < self.builds@.len() ==> (#[trigger] self.builds@[j]).build_id
                        != build_id,
            },
    {
        let n: usize = self.builds.len();
        let mut i: usize = 0;
        while i < n
            invariant
                n == self.builds@.len(),
                0 <= i <= n,
                forall|j: int|
                    0 <= j < i ==> (#[trigger] self.builds@[j]).build_id != build_id,
            decreases n - i,
        {
            if self.builds[i].build_id == build_id {
                return Some(i);
            }
            i = i + 1;
        }
        None
    }

    /// Register a build proof: store a fresh, unverified record under
    /// `build_id`, unconditionally overwriting any record already there.
    /// No authentication and no duplicate check — anyone may (re)register.
    pub fn register_build(
        &mut self,
        build_id: u64,
        builder: String,
        repo_url: String,
        description: String,
        submitted_at: u64,
    )
        requires
            old(self).wf(),
        ensures
            final(self).wf(),
            final(self)@ == old(self)@.insert(
                build_id,
                (BuildRecord {
                    build_id: build_id,
                    builder: builder,
                    repo_url: repo_url,
                    description: description,
                    submitted_at: submitted_at,
                    verified: false,
                }),
            ),
    {
        let record = BuildRecord {
            build_id: build_id,
            builder: builder,
            repo_url: repo_url,
            description: description,
            submitted_at: submitted_at,
            verified: false,
        };
        match self.index_of(build_id) {
            Some(i) => {
                proof {
                    lemma_as_map_update(self.builds@, i as int, record);
                    assert(forall|k: int|
                        0 <= k < self.builds@.len()
                            ==> (#[trigger] self.builds@.update(i as int, record)[k]).build_id
                            == self.builds@[k].build_id);
                }
                self.builds[i] = record;
            },
            None => {
                proof {
                    lemma_as_map_push(self.builds@, record);
                }
                self.builds.push(record);
            },
        }
    }

    /// Mark a registered build as verified (for instance by a judging party;
    /// no authorization is checked). Fails only when no record exists under
    /// the id; verifying an already-verified build succeeds and leaves the
    /// flag set.
    pub fn verify_build(&mut self, build_id: u64) -> (r: Result<(), Error>)
        requires
            old(self).wf(),
        ensures
            final(self).wf(),
            old(self)@.contains_key(build_id) ==> r == Ok::<(), Error>(()) && final(self)@ == old(
                self,
            )@.insert(
                build_id,
                (BuildRecord { verified: true, ..old(self)@[build_id] }),
            ),
            !old(self)@.contains_key(build_id) ==> r == Err::<(), Error>(Error::BuildNotFound)
                && *final(self) == *old(self),
    {
        match self.index_of(build_id) {
            Some(i) => {
                proof {
                    lemma_as_map_found(self.builds@, i as int);
                }
                let current = self.builds[i].duplicate();
                let record = BuildRecord {
                    build_id: current.build_id,
                    builder: current.builder,
                    repo_url: current.repo_url,
                    description: current.description,
                    submitted_at: current.submitted_at,
                    verified: true,
                };
                proof {
                    lemma_as_map_update(self.builds@, i as int, record);
                    assert(forall|k: int|
                        0 <= k < self.builds@.len()
                            ==> (#[trigger] self.builds@.update(i as int, record)[k]).build_id
                            == self.builds@[k].build_id);
                }
                self.builds[i] = record;
                Ok(())
            },
            None => {
                proof {
                    lemma_as_map_absent(self.builds@, build_id);
                }
                Err(Error::BuildNotFound)
            },
        }
    }

    /// Whether a verified build is registered under this id; `false` both for
    /// an unverified build and for an absent one.
    pub fn is_build_verified(&self, build_id: u64) -> (r: bool)
        requires
            self.wf(),
        ensures
            r == (self@.contains_key(build_id) && self@[build_id].verified),
    {
        match self.index_of(build_id) {
            Some(i) => {
                proof {
                    lemma_as_map_found(self.builds@, i as int);
                }
                self.builds[i].verified
            },
            None => {
                proof {
                    lemma_as_map_absent(self.builds@, build_id);
                }
                false
            },
        }
    }

    /// The full record under this id, or `None` when nothing was registered.
    pub fn get_build(&self, build_id: u64) -> (r: Option<BuildRecord>)
        requires
            self.wf(),
        ensures
            self@.contains_key(build_id) ==> r == Some(self@[build_id]),
            !self@.contains_key(build_id) ==> r == None::<BuildRecord>,
    {
        match self.index_of(build_id) {
            Some(i) => {
                proof {
                    lemma_as_map_found(self.builds@, i as int);
                }
                Some(self.builds[i].duplicate())
            },
            None => {
                proof {
                    lemma_as_map_absent(self.builds@, build_id);
                }
                None
            },
        }
    }
}

} // verus!
