//! The unit of transfer on a link: a payload and an optional correlation id.

use vstd::prelude::*;

verus! {

/// What a [`Communique`] is, mathematically: the payload it carries and the
/// correlation id it was tagged with, if any.
pub struct Envelope<T> {
    pub id: Option<usize>,
    pub load: T,
}

/// A payload paired with an optional correlation id. Both are fixed at
/// construction and can only be read afterwards.
pub struct Communique<T> {
    id: Option<usize>,
    load: T,
}

impl<T> View for Communique<T> {
    type V = Envelope<T>;

    closed spec fn view(&self) -> Envelope<T> {
        Envelope { id: self.id, load: self.load }
    }
}

impl<T> Communique<T> {
    /// Tags `data` with the correlation id `id`.
    pub fn new(id: usize, data: T) -> (c: Communique<T>)
        ensures
            c@ == (Envelope { id: Some(id), load: data }),
    {
        Communique { id: Some(id), load: data }
    }

    /// Wraps `data` without a correlation id.
    pub fn new_no_id(data: T) -> (c: Communique<T>)
        ensures
            c@ == (Envelope { id: None, load: data }),
    {
        Communique { id: None, load: data }
    }

    /// The correlation id, where one was attached.
    pub fn id(&self) -> (id: Option<usize>)
        ensures
            id == self@.id,
    {
        self.id
    }

    /// The payload, by reference.
    pub fn open(&self) -> (load: &T)
        ensures
            *load == self@.load,
    {
        &self.load
    }
}

} // verus!
