use crate::c_type::CType;
use crate::pointer::{CChar, NonNullPtr, RawPtr};
use crate::region::CRegion;
use crate::traits::{CCloned, CDropped};
use core::marker::PhantomData;
use vstd::prelude::*;
use vstd::string::*;

verus! {

/// Owner of a NUL-terminated C string, freed by the deleter class `D`.
///
/// The views read the string out of the memory that holds it and are
/// read-only: a write could clobber the terminator. Its view is the address.
#[must_use]
pub struct CrustifyStr<D: CDropped> {
    ptr: NonNullPtr<CType<CChar>>,
    _deleter: PhantomData<D>,
}

/// Why the bytes of a string are not UTF-8.
#[derive(Clone, Copy, Debug, PartialEq, Eq)]
pub struct StrError {
    /// Length of the longest prefix that is UTF-8.
    pub valid_up_to: usize,
    /// Length of the invalid sequence after it; `None` where the bytes end in
    /// the middle of a character.
    pub error_len: Option<usize>,
}

/// Whether `bytes` holds a C string of length `n`: a NUL at `n` and none before.
pub open spec fn is_strlen(bytes: Seq<CChar>, n: int) -> bool {
    &&& 0 <= n < bytes.len()
    &&& bytes[n] == 0
    &&& forall|i: int| 0 <= i < n ==> bytes[i] != 0
}

/// The length of the C string at the start of `bytes`.
pub open spec fn strlen(bytes: Seq<CChar>) -> int {
    choose|n: int| is_strlen(bytes, n)
}

/// The C string at the start of `bytes`, without its terminator.
pub open spec fn text(bytes: Seq<CChar>) -> Seq<u8> {
    bytes.subrange(0, strlen(bytes))
}

/// A C string has one length.
pub proof fn lemma_strlen(bytes: Seq<CChar>, n: int)
    requires
        is_strlen(bytes, n),
    ensures
        strlen(bytes) == n,
{
    let m = strlen(bytes);
    assert(is_strlen(bytes, m));
    assert(m <= n && n <= m);
}

/// Bytes with a NUL among them start with a C string.
pub proof fn lemma_has_strlen(bytes: Seq<CChar>)
    requires
        bytes.contains(0),
    ensures
        is_strlen(bytes, strlen(bytes)),
    decreases bytes.len(),
{
    assert(exists|n: int| is_strlen(bytes, n)) by {
        if bytes[0] == 0 {
            assert(is_strlen(bytes, 0));
        } else {
            let rest = bytes.skip(1);
            let i = choose|i: int| 0 <= i < bytes.len() && bytes[i] == 0;
            assert(rest[i - 1] == 0);
            lemma_has_strlen(rest);
            let n = strlen(rest) + 1;
            assert(bytes[n] == rest[n - 1]);
            assert forall|j: int| 0 <= j < n implies bytes[j] != 0 by {
                if j > 0 {
                    assert(bytes[j] == rest[j - 1]);
                }
            }
            assert(is_strlen(bytes, n));
        }
    }
}

impl<D: CDropped> View for CrustifyStr<D> {
    type V = usize;

    closed spec fn view(&self) -> usize {
        self.ptr@
    }
}

impl<D: CDropped> CrustifyStr<D> {
    /// Whether this string lies in `region`, terminator included.
    pub open spec fn within(self, region: CRegion<CChar>) -> bool {
        &&& region.holds(self@, 0)
        &&& region.tail(self@).contains(0)
    }

    /// The string as `region` holds it, without its terminator.
    pub open spec fn contents(self, region: CRegion<CChar>) -> Seq<u8> {
        text(region.tail(self@))
    }

    /// Take ownership of a raw C string; `None` if null.
    pub fn from_raw(ptr: RawPtr<CChar>) -> (r: Option<Self>)
        ensures
            r is Some <==> ptr@ != 0,
            r matches Some(s) ==> s@ == ptr@,
    {
        match NonNullPtr::new(CType::cast_from(ptr)) {
            Some(ptr) => Some(CrustifyStr { ptr, _deleter: PhantomData }),
            None => None,
        }
    }

    /// The raw pointer, for passing to C. Ownership is retained.
    pub fn as_ptr(&self) -> (r: RawPtr<CChar>)
        ensures
            r@ == self@,
            r@ != 0,
    {
        CType::cast_into(self.ptr.as_ptr())
    }

    /// Consume the owner without freeing; the caller becomes responsible for
    /// releasing the string.
    #[must_use]
    pub fn into_raw(self) -> (r: RawPtr<CChar>)
        ensures
            r@ == self@,
            r@ != 0,
    {
        CType::cast_into_mut(self.ptr.as_ptr())
    }

    /// The string with its terminating NUL.
    pub fn as_c_str<'m>(&'m self, region: &'m CRegion<CChar>) -> (r: &'m [CChar])
        requires
            self.within(*region),
        ensures
            r@ == self.contents(*region).push(0),
    {
        let rest: &'m [CChar] = region.slice_from(self.as_ptr());
        proof {
            lemma_has_strlen(rest@);
        }
        let mut n: usize = 0;
        while rest[n] != 0
            invariant
                is_strlen(rest@, strlen(rest@)),
                n <= strlen(rest@),
            decreases rest@.len() - n,
        {
            n = n + 1;
        }
        let r: &'m [CChar] = vstd::slice::slice_subrange(rest, 0, n + 1);
        proof {
            assert(n == strlen(rest@));
            assert(r@ =~= text(rest@).push(0));
        }
        r
    }

    /// The bytes of the string, without the terminating NUL.
    pub fn as_bytes<'m>(&'m self, region: &'m CRegion<CChar>) -> (r: &'m [u8])
        requires
            self.within(*region),
        ensures
            r@ == self.contents(*region),
    {
        let s: &'m [CChar] = self.as_c_str(region);
        let n: usize = s.len() - 1;
        let r: &'m [u8] = vstd::slice::slice_subrange(s, 0, n);
        proof {
            assert(r@ =~= self.contents(*region));
        }
        r
    }

    /// The `strlen` of the string.
    pub fn len(&self, region: &CRegion<CChar>) -> (r: usize)
        requires
            self.within(*region),
        ensures
            r == self.contents(*region).len(),
            is_strlen(region.tail(self@), r as int),
    {
        proof {
            lemma_has_strlen(region.tail(self@));
        }
        self.as_bytes(region).len()
    }

    /// Whether the string is empty: its first byte is the terminator.
    pub fn is_empty(&self, region: &CRegion<CChar>) -> (r: bool)
        requires
            self.within(*region),
        ensures
            r == (self.contents(*region).len() == 0),
            r == (region.tail(self@)[0] == 0),
    {
        proof {
            lemma_has_strlen(region.tail(self@));
        }
        self.as_bytes(region).is_empty()
    }

    /// Decode as UTF-8.
    pub fn to_str<'m>(&'m self, region: &'m CRegion<CChar>) -> (r: Result<&'m str, StrError>)
        requires
            self.within(*region),
        ensures
            decoded(self.contents(*region), r),
            r matches Err(e) ==> e.error_len == utf8_error_len(self.contents(*region)),
            r matches Err(e) ==> error_len_fits(self.contents(*region), e),
    {
        from_utf8(self.as_bytes(region))
    }

    /// Release the string: run `D`'s [`CDropped::c_drop`] on its address, once.
    pub fn drop(self, heap: &mut D::Heap)
        requires
            D::debts(*old(heap)).contains(self@),
        ensures
            D::drop_step(*old(heap), self@, *final(heap)),
            D::debts(*final(heap)) == D::debts(*old(heap)).remove(self@),
    {
        D::c_drop(heap, self.ptr.cast::<D>())
    }
}

impl<D: CCloned> CrustifyStr<D> {
    /// Whether no call of `c_clone` on this string can fail on `heap`.
    pub open spec fn clone_succeeds(self, heap: D::Heap) -> bool {
        forall|result: Option<usize>, after: D::Heap| #[trigger]
            D::clone_step(heap, self@, result, after) ==> result is Some
    }

    /// Fallible deep clone: a `strdup` through `D`'s [`CCloned::c_clone`], or
    /// `None` if it failed.
    pub fn try_clone(&self, heap: &mut D::Heap) -> (r: Option<Self>)
        requires
            D::debts(*old(heap)).contains(self@),
        ensures
            D::clone_step(*old(heap), self@, owned_address(r), *final(heap)),
            D::debts(*final(heap)) == crate::traits::owing(
                D::debts(*old(heap)),
                owned_address(r),
            ),
            D::debts(*final(heap)).contains(self@),
    {
        match D::c_clone(heap, self.ptr.cast::<D>()) {
            Some(ptr) => Some(
                CrustifyStr { ptr: ptr.cast::<CType<CChar>>(), _deleter: PhantomData },
            ),
            None => None,
        }
    }

    /// Clone where the C routine cannot fail.
    pub fn clone(&self, heap: &mut D::Heap) -> (r: Self)
        requires
            D::debts(*old(heap)).contains(self@),
            self.clone_succeeds(*old(heap)),
        ensures
            D::clone_step(*old(heap), self@, Some(r@), *final(heap)),
            D::debts(*final(heap)) == D::debts(*old(heap)).insert(r@),
            D::debts(*final(heap)).contains(self@),
    {
        self.try_clone(heap).unwrap()
    }
}

/// The address of a string, where there is one.
pub open spec fn owned_address<D: CDropped>(s: Option<CrustifyStr<D>>) -> Option<usize> {
    match s {
        Some(s) => Some(s@),
        None => None,
    }
}

/// What `core::str::Utf8Error::error_len` reports of `bytes`.
pub uninterp spec fn utf8_error_len(bytes: Seq<u8>) -> Option<usize>;

/// Whether `r` is the text of `bytes` where they are UTF-8, and otherwise names
/// their longest UTF-8 prefix.
pub open spec fn decoded(bytes: Seq<u8>, r: Result<&str, StrError>) -> bool {
    match r {
        Ok(s) => vstd::utf8::valid_utf8(bytes) && s.spec_bytes() == bytes,
        Err(e) => {
            &&& !vstd::utf8::valid_utf8(bytes)
            &&& e.valid_up_to < bytes.len()
            &&& vstd::utf8::valid_utf8(bytes.take(e.valid_up_to as int))
            &&& forall|n: int|
                e.valid_up_to < n <= bytes.len() ==> !vstd::utf8::valid_utf8(
                    #[trigger] bytes.take(n),
                )
        },
    }
}

/// Whether the invalid sequence that `e` reports lies in `bytes`; where it
/// reports none, the bytes break off within three bytes of the valid part.
pub open spec fn error_len_fits(bytes: Seq<u8>, e: StrError) -> bool {
    match e.error_len {
        Some(n) => 1 <= n <= bytes.len() - e.valid_up_to,
        None => 1 <= bytes.len() - e.valid_up_to <= 3,
    }
}

/// `core::str::from_utf8`: the bytes as a string slice where they are UTF-8.
/// Where they are not, its error says in `valid_up_to` how long the longest
/// UTF-8 prefix is, and in `error_len` how long the invalid sequence after it
/// is. That one lies in the bytes; where there is none, the bytes end within
/// three bytes of the prefix. How long it is on given bytes is not described.
#[verifier::external_body]
fn from_utf8(bytes: &[u8]) -> (r: Result<&str, StrError>)
    ensures
        decoded(bytes@, r),
        r matches Err(e) ==> e.error_len == utf8_error_len(bytes@),
        r matches Err(e) ==> error_len_fits(bytes@, e),
{
    match core::str::from_utf8(bytes) {
        Ok(s) => Ok(s),
        Err(e) => Err(StrError { valid_up_to: e.valid_up_to(), error_len: e.error_len() }),
    }
}

} // verus!
