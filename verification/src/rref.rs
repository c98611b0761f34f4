//! Shared references handed between protection domains: a value together
//! with the domain that owns it and a count of outstanding borrows.
use vstd::prelude::*;

verus! {

/// Values that may be placed behind an [`RRef`]: plain data, holding no
/// pointer or reference into a domain's private memory.
pub trait RRefable {

}

impl RRefable for u8 {

}

impl RRefable for u16 {

}

impl RRefable for u32 {

}

impl RRefable for u64 {

}

impl RRefable for usize {

}

impl RRefable for i32 {

}

impl RRefable for i64 {

}

impl RRefable for bool {

}

/// A shared reference: the value, the domain that owns it, and the number of
/// borrows other domains hold.
pub struct RRef<T: RRefable> {
    domain_id: usize,
    borrow_count: usize,
    value: T,
}

impl<T: RRefable> RRef<T> {
    /// The owning domain.
    pub closed spec fn owner(&self) -> usize {
        self.domain_id
    }

    /// The number of outstanding borrows.
    pub closed spec fn borrows(&self) -> usize {
        self.borrow_count
    }

    /// The referenced value.
    pub closed spec fn value(&self) -> T {
        self.value
    }

    /// A reference to `value` owned by domain `domain_id`, not borrowed.
    pub fn new(domain_id: usize, value: T) -> (r: Self)
        ensures
            r.owner() == domain_id,
            r.borrows() == 0,
            r.value() == value,
    {
        Self { domain_id, borrow_count: 0, value }
    }

    /// Records one more borrow.
    pub fn borrow(&mut self)
        requires
            old(self).borrows() < usize::MAX,
        ensures
            final(self).borrows() == old(self).borrows() + 1,
            final(self).owner() == old(self).owner(),
            final(self).value() == old(self).value(),
    {
        self.borrow_count = self.borrow_count + 1;
    }

    /// Gives one borrow back; there must be one outstanding.
    pub fn forfeit(&mut self)
        requires
            old(self).borrows() != 0,
        ensures
            final(self).borrows() == old(self).borrows() - 1,
            final(self).owner() == old(self).owner(),
            final(self).value() == old(self).value(),
    {
        self.borrow_count = self.borrow_count - 1;
    }

    /// The number of outstanding borrows.
    pub fn borrow_count(&self) -> (r: usize)
        ensures
            r == self.borrows(),
    {
        self.borrow_count
    }

    /// Hands the reference over to domain `new_domain_id`.
    pub fn move_to(&mut self, new_domain_id: usize)
        ensures
            final(self).owner() == new_domain_id,
            final(self).borrows() == old(self).borrows(),
            final(self).value() == old(self).value(),
    {
        self.domain_id = new_domain_id;
    }

    /// The owning domain.
    pub fn domain_id(&self) -> (r: usize)
        ensures
            r == self.owner(),
    {
        self.domain_id
    }
}

impl<T: RRefable> core::ops::Deref for RRef<T> {
    type Target = T;

    fn deref(&self) -> (r: &T)
        ensures
            *r == self.value(),
    {
        &self.value
    }
}

impl<T: RRefable> core::ops::DerefMut for RRef<T> {
    fn deref_mut(&mut self) -> (r: &mut T)
        ensures
            *r == old(self).value(),
            final(self).value() == *final(r),
            final(self).owner() == old(self).owner(),
            final(self).borrows() == old(self).borrows(),
    {
        &mut self.value
    }
}

} // verus!
