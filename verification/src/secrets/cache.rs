//! A hot-swappable cache of named secrets.
use vstd::prelude::*;
use std::sync::Arc;
use crate::strmap::{StrMap, share};

verus! {

/// A cache of named secrets (in practice `secrecy::SecretString`s, which stay
/// redacted in logs). Reads hand out a shared handle to the cached value; a
/// write publishes a new snapshot (one entry, or the whole map).
pub struct SecretCache<S> {
    inner: StrMap<Arc<S>>,
}

impl<S> SecretCache<S> {
    #[verifier::type_invariant]
    spec fn inv(&self) -> bool {
        self.inner.wf()
    }

    /// The cached secrets, by name.
    pub closed spec fn view(&self) -> Map<Seq<char>, Arc<S>> {
        self.inner@
    }

    /// An empty cache.
    pub fn new() -> (c: SecretCache<S>)
        ensures
            c@ == Map::<Seq<char>, Arc<S>>::empty(),
    {
        SecretCache { inner: StrMap::new() }
    }

    /// The secret cached under `name`, if any.
    pub fn get(&self, name: &str) -> (r: Option<Arc<S>>)
        ensures
            r is Some <==> self@.contains_key(name@),
            r is Some ==> r->0 == self@[name@],
    {
        proof {
            use_type_invariant(self);
        }
        match self.inner.get(name) {
            Some(s) => Some(share(s)),
            None => None,
        }
    }

    /// Number of cached secrets.
    pub fn len(&self) -> (n: usize)
        ensures
            n == self@.len(),
    {
        proof {
            use_type_invariant(self);
        }
        self.inner.len()
    }

    /// Whether the cache is empty.
    pub fn is_empty(&self) -> (b: bool)
        ensures
            b == (self@.len() == 0),
    {
        proof {
            use_type_invariant(self);
        }
        self.inner.is_empty()
    }

    /// A copy of the cache: the same names, sharing the same secrets. A
    /// writer publishes a new snapshot by updating a copy.
    pub fn copy(&self) -> (c: SecretCache<S>)
        ensures
            c@ == self@,
    {
        proof {
            use_type_invariant(self);
        }
        SecretCache { inner: self.inner.share_all() }
    }

    /// Replace the whole cache (e.g. after reloading a snapshot).
    pub fn replace(&mut self, secrets: StrMap<Arc<S>>)
        requires
            secrets.wf(),
        ensures
            final(self)@ == secrets@,
    {
        self.inner = secrets;
    }

    /// Insert (or overwrite) one secret.
    pub fn insert(&mut self, name: &str, secret: S)
        ensures
            final(self)@ == old(self)@.insert(name@, Arc::new(secret)),
    {
        proof {
            use_type_invariant(&*self);
        }
        let mut next = StrMap::new();
        std::mem::swap(&mut next, &mut self.inner);
        next.insert(String::from_str(name), Arc::new(secret));
        self.inner = next;
    }
}

} // verus!
