//! [`CUninit<T>`]: a slot that may not hold a value yet.
use crate::c_type::CZeroed;
use crate::pointer::RawPtr;
use crate::traits::CElem;
use vstd::prelude::*;

verus! {

/// Room for one `T`, initialised or not: a slot as large as a `T`, whose bytes
/// mean nothing before it is written.
///
/// Its view is the value that was written, where there is one.
pub struct CUninit<T> {
    bytes: T,
    written: Ghost<bool>,
}

impl<T> View for CUninit<T> {
    type V = Option<T>;

    closed spec fn view(&self) -> Option<T> {
        if self.written@ {
            Some(self.bytes)
        } else {
            None
        }
    }
}

impl<T> CElem for CUninit<T> {

}

impl<T> CUninit<T> {
    /// A slot that holds `value`.
    pub fn new(value: T) -> (r: Self)
        ensures
            r@ == Some(value),
    {
        CUninit { bytes: value, written: Ghost(true) }
    }

    /// A slot that holds nothing. Its bytes are zero, and are not to be read.
    pub fn uninit() -> (r: Self) where T: CZeroed
        ensures
            r@ is None,
    {
        CUninit { bytes: T::zeroed(), written: Ghost(false) }
    }

    /// Initialise the slot, overwriting what it held.
    pub fn write(&mut self, value: T)
        ensures
            final(self)@ == Some(value),
    {
        self.bytes = value;
        self.written = Ghost(true);
    }

    /// Pointer to the slot, for C to fill it in.
    ///
    /// What is written through the pointer is not known here, so nothing is known
    /// of the slot afterwards.
    pub fn as_mut_ptr(&mut self) -> (r: RawPtr<T>)
        ensures
            old(self)@ matches Some(value) ==> crate::pointer::lies_at(value, r@),
            r@ != 0,
            crate::pointer::fits::<T>(r@, 1),
            crate::pointer::aligned::<T>(r@),
    {
        crate::pointer::pointer_to_mut(&mut self.bytes).as_ptr()
    }

    /// The value of an initialised slot.
    pub fn assume_init(self) -> (r: T)
        requires
            self@ is Some,
        ensures
            Some(r) == self@,
    {
        self.bytes
    }

    /// The value of an initialised slot, borrowed.
    pub fn assume_init_ref(&self) -> (r: &T)
        requires
            self@ is Some,
        ensures
            Some(*r) == self@,
    {
        &self.bytes
    }
}

} // verus!
