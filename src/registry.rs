use vstd::prelude::*;

use crate::handle::Handle;
use crate::pool::HandlePool;

verus! {

/// Where a resource of the registry stands.
#[derive(Clone, Copy, Debug, PartialEq, Eq)]
pub enum LoadState<P> {
    /// Its content is being fetched.
    Pending,
    /// It exists, with these parameters.
    Ready(P),
    /// Its content could not be fetched or decoded.
    Failed,
}

/// Where the content of a resource comes from: a URL, or a content id.
pub enum Source {
    Url(String),
    Uuid(u128),
}

/// The spec-level picture of a source.
pub enum SourceModel {
    Url(Seq<char>),
    Uuid(u128),
}

pub open spec fn source_model(s: Source) -> SourceModel {
    match s {
        Source::Url(u) => SourceModel::Url(u@),
        Source::Uuid(id) => SourceModel::Uuid(id),
    }
}

impl Source {
    /// Whether the two name the same content.
    pub fn same(&self, other: &Source) -> (r: bool)
        ensures
            r == (source_model(*self) == source_model(*other)),
    {
        match self {
            Source::Url(a) => match other {
                Source::Url(b) => {
                    let r = a.eq(b);
                    proof {
                        if r {
                            assert(source_model(*self) == source_model(*other));
                        }
                    }
                    r
                },
                Source::Uuid(_) => false,
            },
            Source::Uuid(a) => match other {
                Source::Url(_) => false,
                Source::Uuid(b) => *a == *b,
            },
        }
    }

    pub fn duplicate(&self) -> (r: Source)
        ensures
            r == *self,
    {
        match self {
            Source::Url(u) => Source::Url(u.clone()),
            Source::Uuid(id) => Source::Uuid(*id),
        }
    }
}

/// One resource of the registry, and the source its content comes from, if any.
pub struct Entry<P> {
    pub state: LoadState<P>,
    pub source: Option<Source>,
}

/// The spec-level picture of an entry.
pub struct EntryModel<P> {
    pub state: LoadState<P>,
    pub source: Option<SourceModel>,
}

pub open spec fn entry_model<P>(e: Entry<P>) -> EntryModel<P> {
    EntryModel {
        state: e.state,
        source: match e.source {
            Some(s) => Some(source_model(s)),
            None => None,
        },
    }
}

/// A fetch that the host has to perform, for the resource `handle`.
pub struct LoadRequest {
    pub handle: Handle,
    pub source: Source,
}

/// Errors of the registry.
#[derive(Clone, Copy, Debug, PartialEq, Eq, Structural)]
pub enum RegistryError {
    /// The handle names no resource, or one that is not pending.
    NotFound,
    /// No handle is left.
    Exhausted,
}

/// The latest resource, among those recorded in `keys`, that is live, comes from
/// `source` and has not failed.
pub open spec fn lookup<P>(
    keys: Seq<(SourceModel, Handle)>,
    live: Map<Handle, EntryModel<P>>,
    source: SourceModel,
) -> Option<Handle>
    decreases keys.len(),
{
    if keys.len() == 0 {
        None
    } else {
        let (s, h) = keys.last();
        if s == source && live.contains_key(h) && !(live[h].state is Failed) {
            Some(h)
        } else {
            lookup(keys.drop_last(), live, source)
        }
    }
}

/// The spec-level picture of a list of source keys.
pub open spec fn keys_model(v: Seq<(Source, Handle)>) -> Seq<(SourceModel, Handle)> {
    v.map_values(|k: (Source, Handle)| (source_model(k.0), k.1))
}

/// Keeps the source keys that lead to some resource other than `h`.
pub open spec fn other_than(h: Handle) -> spec_fn((SourceModel, Handle)) -> bool {
    |k: (SourceModel, Handle)| k.1 != h
}

/// Resources that come either from data at once or from a source asynchronously.
/// Requests for a source that is pending or ready share one resource and one
/// fetch.
pub struct Registry<P> {
    pool: HandlePool<Entry<P>>,
    keys: Vec<(Source, Handle)>,
    requests: Vec<LoadRequest>,
}

impl<P: Copy> Registry<P> {
    /// The live resources.
    pub closed spec fn entries(&self) -> Map<Handle, EntryModel<P>> {
        self.pool@.map_values(|e: Entry<P>| entry_model(e))
    }

    /// The sources asked for, with the resource each was given, oldest first.
    pub closed spec fn keys(&self) -> Seq<(SourceModel, Handle)> {
        keys_model(self.keys@)
    }

    /// The fetches not yet taken by the host, oldest first.
    pub closed spec fn requests(&self) -> Seq<(Handle, SourceModel)> {
        self.requests@.map_values(|r: LoadRequest| (r.handle, source_model(r.source)))
    }

    pub closed spec fn issued(&self) -> Set<Handle> {
        self.pool.issued()
    }

    pub closed spec fn exhausted(&self) -> bool {
        self.pool.exhausted()
    }

    pub closed spec fn wf(&self) -> bool {
        self.pool.wf()
    }

    pub fn new() -> (r: Registry<P>)
        ensures
            r.wf(),
            r.entries().is_empty(),
            r.keys().len() == 0,
            r.requests().len() == 0,
            r.issued().is_empty(),
            !r.exhausted(),
    {
        let r = Registry { pool: HandlePool::new(), keys: Vec::new(), requests: Vec::new() };
        assert(r.entries() =~= Map::empty());
        r
    }

    /// Makes a resource that is ready at once, with `params`.
    pub fn create(&mut self, params: P) -> (r: Result<Handle, RegistryError>)
        requires
            old(self).wf(),
        ensures
            final(self).wf(),
            final(self).keys() == old(self).keys(),
            final(self).requests() == old(self).requests(),
            match r {
                Ok(h) => !old(self).exhausted() && !old(self).issued().contains(h)
                    && !old(self).entries().contains_key(h)
                    && final(self).entries() == old(self).entries().insert(
                    h,
                    EntryModel { state: LoadState::Ready(params), source: None },
                ) && final(self).issued() == old(self).issued().insert(h),
                Err(e) => old(self).exhausted() && e == RegistryError::Exhausted && final(self).entries() == old(self).entries() && final(self).issued() == old(self).issued(),
            },
    {
        let entry = Entry { state: LoadState::Ready(params), source: None };
        match self.pool.create(entry) {
            Ok(h) => {
                assert(self.entries() =~= old(self).entries().insert(
                    h,
                    EntryModel { state: LoadState::Ready(params), source: None },
                ));
                Ok(h)
            },
            Err(_) => Err(RegistryError::Exhausted),
        }
    }

    /// The live resource that a request for `source` would share, if any.
    fn find(&self, source: &Source) -> (r: Option<Handle>)
        requires
            self.wf(),
        ensures
            r == lookup(self.keys(), self.entries(), source_model(*source)),
    {
        let mut i: usize = self.keys.len();
        assert(self.keys().subrange(0, i as int) =~= self.keys());
        while i > 0
            invariant
                i <= self.keys@.len(),
                self.wf(),
                lookup(self.keys(), self.entries(), source_model(*source)) == lookup(
                    self.keys().subrange(0, i as int),
                    self.entries(),
                    source_model(*source),
                ),
            decreases i,
        {
            let ghost sub = self.keys().subrange(0, i as int);
            assert(sub.drop_last() =~= self.keys().subrange(0, i - 1));
            let h = self.keys[i - 1].1;
            if self.keys[i - 1].0.same(source) {
                match self.pool.get(h) {
                    Some(e) => {
                        if !matches!(e.state, LoadState::Failed) {
                            return Some(h);
                        }
                    },
                    None => {},
                }
            }
            i = i - 1;
        }
        assert(self.keys().subrange(0, 0).len() == 0);
        None
    }

    /// Asks for the resource whose content comes from `source`. A request for a
    /// source that is pending or ready gets the same resource and starts no new
    /// fetch; otherwise a pending resource is made and its fetch queued.
    pub fn create_from(&mut self, source: Source) -> (r: Result<Handle, RegistryError>)
        requires
            old(self).wf(),
        ensures
            final(self).wf(),
            match lookup(old(self).keys(), old(self).entries(), source_model(source)) {
                Some(h) => r == Ok::<Handle, RegistryError>(h) && final(self).entries() == old(self).entries() && final(self).keys() == old(self).keys() && final(self).requests()
                    == old(self).requests() && final(self).issued() == old(self).issued(),
                None => match r {
                    Ok(h) => !old(self).exhausted() && !old(self).issued().contains(h)
                        && !old(self).entries().contains_key(h)
                        && final(self).entries() == old(self).entries().insert(
                        h,
                        EntryModel { state: LoadState::Pending, source: Some(source_model(source)) },
                    ) && final(self).keys() == old(self).keys().push((source_model(source), h))
                        && final(self).requests() == old(self).requests().push((h, source_model(source)))
                        && final(self).issued() == old(self).issued().insert(h),
                    Err(e) => old(self).exhausted() && e == RegistryError::Exhausted
                        && final(self).entries() == old(self).entries() && final(self).keys()
                        == old(self).keys() && final(self).requests() == old(self).requests()
                        && final(self).issued() == old(self).issued(),
                },
            },
    {
        match self.find(&source) {
            Some(h) => Ok(h),
            None => {
                let key = source.duplicate();
                let fetch = source.duplicate();
                let entry = Entry { state: LoadState::Pending, source: Some(source) };
                match self.pool.create(entry) {
                    Ok(h) => {
                        self.keys.push((key, h));
                        self.requests.push(LoadRequest { handle: h, source: fetch });
                        assert(self.entries() =~= old(self).entries().insert(
                            h,
                            EntryModel { state: LoadState::Pending, source: Some(source_model(source)) },
                        ));
                        assert(self.keys() =~= old(self).keys().push((source_model(source), h)));
                        assert(self.requests() =~= old(self).requests().push((h, source_model(source))));
                        Ok(h)
                    },
                    Err(_) => Err(RegistryError::Exhausted),
                }
            },
        }
    }

    /// Hands the queued fetches to the host, oldest first, and forgets them.
    pub fn take_requests(&mut self) -> (r: Vec<LoadRequest>)
        requires
            old(self).wf(),
        ensures
            final(self).wf(),
            r@.map_values(|q: LoadRequest| (q.handle, source_model(q.source))) == old(self).requests(),
            final(self).requests().len() == 0,
            final(self).entries() == old(self).entries(),
            final(self).keys() == old(self).keys(),
            final(self).issued() == old(self).issued(),
    {
        let mut r: Vec<LoadRequest> = Vec::new();
        std::mem::swap(&mut self.requests, &mut r);
        assert(self.requests() =~= Seq::empty());
        r
    }

    /// Settles the pending resource `h` with the outcome of its fetch: the
    /// parameters of its content, or `None` when the fetch failed.
    pub fn complete(&mut self, h: Handle, outcome: Option<P>) -> (r: Result<(), RegistryError>)
        requires
            old(self).wf(),
        ensures
            final(self).wf(),
            final(self).keys() == old(self).keys(),
            final(self).requests() == old(self).requests(),
            final(self).issued() == old(self).issued(),
            (old(self).entries().contains_key(h) && old(self).entries()[h].state is Pending) ==> (
            r is Ok && final(self).entries() == old(self).entries().insert(
                h,
                EntryModel {
                    state: match outcome {
                        Some(p) => LoadState::Ready(p),
                        None => LoadState::Failed,
                    },
                    source: old(self).entries()[h].source,
                },
            )),
            !(old(self).entries().contains_key(h) && old(self).entries()[h].state is Pending) ==> (r
                == Err::<(), RegistryError>(RegistryError::NotFound) && final(self).entries()
                == old(self).entries()),
    {
        let source = match self.pool.get(h) {
            Some(e) => match e.state {
                LoadState::Pending => match &e.source {
                    Some(src) => Some(src.duplicate()),
                    None => None,
                },
                _ => {
                    return Err(RegistryError::NotFound);
                },
            },
            None => {
                return Err(RegistryError::NotFound);
            },
        };
        let state = match outcome {
            Some(p) => LoadState::Ready(p),
            None => LoadState::Failed,
        };
        let entry = Entry { state, source };
        let _ = self.pool.replace(h, entry);
        assert(self.entries() =~= old(self).entries().insert(h, entry_model(entry)));
        Ok(())
    }

    /// What `h` names, if it is live.
    pub fn state(&self, h: Handle) -> (r: Option<LoadState<P>>)
        requires
            self.wf(),
        ensures
            r == if self.entries().contains_key(h) {
                Some(self.entries()[h].state)
            } else {
                None
            },
    {
        match self.pool.get(h) {
            Some(e) => Some(e.state),
            None => None,
        }
    }

    /// The parameters of `h`, if it is live and ready.
    pub fn get(&self, h: Handle) -> (r: Option<P>)
        requires
            self.wf(),
        ensures
            r == if self.entries().contains_key(h) && self.entries()[h].state is Ready {
                Some(self.entries()[h].state->Ready_0)
            } else {
                None
            },
    {
        match self.pool.get(h) {
            Some(e) => match e.state {
                LoadState::Ready(p) => Some(p),
                _ => None,
            },
            None => None,
        }
    }

    /// Frees `h`, forgets the sources that led to it, and says what it was; a
    /// stale or unknown handle changes nothing.
    pub fn delete(&mut self, h: Handle) -> (r: Option<LoadState<P>>)
        requires
            old(self).wf(),
        ensures
            final(self).wf(),
            final(self).entries() == old(self).entries().remove(h),
            final(self).keys() == old(self).keys().filter(other_than(h)),
            final(self).requests() == old(self).requests(),
            final(self).issued() == old(self).issued(),
            !old(self).exhausted() ==> !final(self).exhausted(),
            r == if old(self).entries().contains_key(h) {
                Some(old(self).entries()[h].state)
            } else {
                None
            },
    {
        let r = match self.pool.free(h) {
            Some(e) => Some(e.state),
            None => None,
        };
        assert(self.entries() =~= old(self).entries().remove(h));
        let ghost pred = other_than(h);
        let mut kept: Vec<(Source, Handle)> = Vec::new();
        let mut i: usize = 0;
        while i < self.keys.len()
            invariant
                i <= self.keys@.len(),
                pred == other_than(h),
                keys_model(kept@)
                    == self.keys().subrange(0, i as int).filter(pred),
            decreases self.keys@.len() - i,
        {
            let ghost before = keys_model(kept@);
            assert(self.keys().subrange(0, i + 1).drop_last() =~= self.keys().subrange(0, i as int));
            assert(self.keys().subrange(0, i + 1).last() == self.keys()[i as int]);
            assert(self.keys()[i as int] == (source_model(self.keys@[i as int].0), self.keys@[i as int].1));
            reveal(Seq::filter);
            assert(self.keys().subrange(0, i + 1).filter(pred) == if pred(self.keys()[i as int]) {
                self.keys().subrange(0, i as int).filter(pred).push(self.keys()[i as int])
            } else {
                self.keys().subrange(0, i as int).filter(pred)
            });
            if self.keys[i].1 != h {
                kept.push((self.keys[i].0.duplicate(), self.keys[i].1));
                assert(keys_model(kept@)
                    =~= before.push(self.keys()[i as int]));
            } else {
                assert(keys_model(kept@)
                    =~= before);
            }
            i = i + 1;
        }
        assert(self.keys().subrange(0, i as int) =~= self.keys());
        self.keys = kept;
        r
    }
}

} // verus!
