use vstd::prelude::*;

use std::sync::{Arc, RwLock};

use crate::env::Rkv;
use crate::error::StoreError;

verus! {

#[verifier::external_type_specification]
#[verifier::external_body]
#[verifier::reject_recursive_types(T)]
pub struct ExRwLock<T: ?Sized>(RwLock<T>);

/// Relies on `std::sync::RwLock::new`: a lock that holds the environment.
#[verifier::external_body]
fn new_lock(env: Rkv) -> (r: RwLock<Rkv>) {
    RwLock::new(env)
}

/// Relies on `Arc::clone`: a new handle to the same shared environment.
#[verifier::external_body]
fn share(h: &Arc<RwLock<Rkv>>) -> (r: Arc<RwLock<Rkv>>)
    ensures
        r == *h,
{
    Arc::clone(h)
}

/// The registry that hands out at most one shared environment per path.
///
/// Paths are expected in canonical form, so that two spellings of one
/// directory meet in one entry.
pub struct Manager {
    environments: Vec<(String, Arc<RwLock<Rkv>>)>,
}

/// No path is registered twice.
pub open spec fn paths_unique(paths: Seq<Seq<char>>) -> bool {
    forall|i: int, j: int| 0 <= i < j < paths.len() ==> #[trigger] paths[i] != #[trigger] paths[j]
}

impl Manager {
    /// The registered paths, in order of registration.
    pub closed spec fn paths(&self) -> Seq<Seq<char>> {
        self.environments@.map_values(|e: (String, Arc<RwLock<Rkv>>)| e.0@)
    }

    /// The handle registered at position `i`.
    pub closed spec fn handle(&self, i: int) -> Arc<RwLock<Rkv>> {
        self.environments@[i].1
    }

    pub open spec fn wf(&self) -> bool {
        paths_unique(self.paths())
    }

    /// An empty registry.
    pub fn new() -> (r: Manager)
        ensures
            r.wf(),
            r.paths() == Seq::<Seq<char>>::empty(),
    {
        let r = Manager { environments: Vec::new() };
        assert(r.paths() =~= Seq::<Seq<char>>::empty());
        r
    }

    fn find(&self, path: &String) -> (r: Option<usize>)
        ensures
            r matches Some(i) ==> i < self.paths().len() && self.paths()[i as int] == path@,
            r is None ==> forall|j: int| 0 <= j < self.paths().len() ==> self.paths()[j] != path@,
    {
        let mut i: usize = 0;
        while i < self.environments.len()
            invariant
                0 <= i <= self.environments@.len(),
                forall|j: int| 0 <= j < i ==> #[trigger] self.paths()[j] != path@,
            decreases self.environments@.len() - i,
        {
            if self.environments[i].0 == *path {
                return Some(i);
            }
            i = i + 1;
        }
        None
    }

    /// The environment registered for `path`, if any.
    pub fn get(&self, path: &str) -> (r: Option<Arc<RwLock<Rkv>>>)
        requires
            self.wf(),
        ensures
            r matches Some(h) ==> exists|i: int|
                0 <= i < self.paths().len() && self.paths()[i] == path@ && h == self.handle(i),
            r is None <==> !self.paths().contains(path@),
    {
        let owned = path.to_string();
        match self.find(&owned) {
            Some(i) => {
                let h = share(&self.environments[i].1);
                assert(self.paths()[i as int] == path@ && h == self.handle(i as int));
                Some(h)
            },
            None => None,
        }
    }

    /// The environment registered for `path`; on a miss, `factory` opens one,
    /// which is registered and returned.
    ///
    /// A hit leaves the registry as it is and does not call `factory`, so one
    /// path never gets two environments.
    pub fn get_or_create<F>(&mut self, path: &str, factory: F) -> (r: Result<Arc<RwLock<Rkv>>, StoreError>)
        where
            F: FnOnce(&str) -> Result<Rkv, StoreError>,
        requires
            old(self).wf(),
            factory.requires((path,)),
        ensures
            final(self).wf(),
            old(self).paths().contains(path@) ==> {
                &&& final(self).paths() == old(self).paths()
                &&& r matches Ok(h) && exists|i: int|
                    0 <= i < old(self).paths().len() && old(self).paths()[i] == path@ && h == old(
                        self,
                    ).handle(i)
            },
            !old(self).paths().contains(path@) ==> {
                &&& r is Ok ==> final(self).paths() == old(self).paths().push(path@)
                &&& r matches Ok(h) ==> h == final(self).handle(old(self).paths().len() as int)
                &&& r is Err ==> final(self).paths() == old(self).paths()
                &&& r matches Err(e) ==> factory.ensures((path,), Err::<Rkv, StoreError>(e))
                &&& r is Ok ==> exists|env: Rkv| factory.ensures((path,), Ok::<Rkv, StoreError>(env))
            },
    {
        let owned = path.to_string();
        match self.find(&owned) {
            Some(i) => {
                let h = share(&self.environments[i].1);
                assert(self.paths()[i as int] == path@ && h == self.handle(i as int));
                Ok(h)
            },
            None => {
                match factory(path) {
                    Ok(env) => {
                        assert(factory.ensures((path,), Ok::<Rkv, StoreError>(env)));
                        let handle = Arc::new(new_lock(env));
                        let ghost before = self.paths();
                        self.environments.push((owned, share(&handle)));
                        assert(self.paths() =~= before.push(path@));
                        Ok(handle)
                    },
                    Err(e) => Err(e),
                }
            },
        }
    }

    /// Forgets the environment registered for `path`, if any; holders of its
    /// handle keep it open until they drop it.
    pub fn remove(&mut self, path: &str) -> (r: bool)
        requires
            old(self).wf(),
        ensures
            final(self).wf(),
            r == old(self).paths().contains(path@),
            !final(self).paths().contains(path@),
            forall|p: Seq<char>| p != path@ ==> (#[trigger] final(self).paths().contains(p) <==> old(
                self,
            ).paths().contains(p)),
    {
        let owned = path.to_string();
        match self.find(&owned) {
            Some(i) => {
                let ghost before = self.paths();
                self.environments.remove(i);
                assert(self.paths() =~= before.remove(i as int));
                proof {
                    assert forall|p: Seq<char>| p != path@ implies (#[trigger] self.paths().contains(p)
                        <==> before.contains(p)) by {
                        if before.contains(p) {
                            let k = choose|k: int| 0 <= k < before.len() && before[k] == p;
                            if k < i {
                                assert(self.paths()[k] == p);
                            } else {
                                assert(k != i);
                                assert(self.paths()[k - 1] == p);
                            }
                        }
                    }
                    if self.paths().contains(path@) {
                        let k = choose|k: int| 0 <= k < self.paths().len() && self.paths()[k] == path@;
                        if k < i {
                            assert(before[k] == before[i as int]);
                        } else {
                            assert(before[k + 1] == before[i as int]);
                        }
                    }
                }
                true
            },
            None => false,
        }
    }
}

/// Registration never gives one path two entries: in a well-formed registry
/// equal paths stand at the same position, so they name one environment.
pub proof fn lemma_one_environment_per_path(m: &Manager, i: int, j: int)
    requires
        m.wf(),
        0 <= i < m.paths().len(),
        0 <= j < m.paths().len(),
        m.paths()[i] == m.paths()[j],
    ensures
        i == j,
        m.handle(i) == m.handle(j),
{
    if i < j {
        assert(m.paths()[i] != m.paths()[j]);
    } else if j < i {
        assert(m.paths()[j] != m.paths()[i]);
    }
}

} // verus!
