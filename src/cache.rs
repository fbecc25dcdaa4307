use vstd::prelude::*;
use crate::error::{Error, ErrorKind};

verus! {

/// The cached value of an attribute: absent until a read or a notification
/// has populated it.
#[derive(Clone, Debug)]
pub struct ValueCache {
    pub stored: Option<Vec<u8>>,
}

impl ValueCache {
    /// The cached bytes, if any have been stored.
    pub open spec fn view(&self) -> Option<Seq<u8>> {
        match self.stored {
            Some(v) => Some(v@),
            None => None,
        }
    }

    /// What reading the cache gives: the bytes, or `NotReady`.
    pub open spec fn cached(&self) -> Result<Seq<u8>, ErrorKind> {
        match self.view() {
            Some(v) => Ok(v),
            None => Err(ErrorKind::NotReady),
        }
    }

    /// An empty cache.
    pub fn new() -> (r: ValueCache)
        ensures
            r.view().is_none(),
    {
        ValueCache { stored: None }
    }

    /// The cached value; `NotReady` before anything was stored.
    pub fn value(&self) -> (r: Result<Vec<u8>, Error>)
        ensures
            outcome(r) == self.cached(),
    {
        match &self.stored {
            Some(v) => Ok(v.clone()),
            None => Err(Error::from_kind(ErrorKind::NotReady)),
        }
    }

    /// Replaces the cached value with `bytes`.
    pub fn store(&mut self, bytes: &[u8])
        ensures
            final(self).view() == Some(bytes@),
    {
        self.stored = Some(copy_bytes(bytes));
    }
}

/// A result seen through its bytes and its error kind.
pub open spec fn outcome(r: Result<Vec<u8>, Error>) -> Result<Seq<u8>, ErrorKind> {
    match r {
        Ok(v) => Ok(v@),
        Err(e) => Err(e.kind),
    }
}

/// A fresh vector holding `bytes`.
pub fn copy_bytes(bytes: &[u8]) -> (r: Vec<u8>)
    ensures
        r@ == bytes@,
{
    let mut v: Vec<u8> = Vec::new();
    let mut i: usize = 0;
    while i < bytes.len()
        invariant
            i <= bytes@.len(),
            v@ == bytes@.subrange(0, i as int),
        decreases bytes.len() - i,
    {
        v.push(bytes[i]);
        i += 1;
    }
    assert(v@ == bytes@);
    v
}

} // verus!
