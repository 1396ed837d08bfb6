//! The verification typestate: an email address wrapped together with a
//! zero-sized state marker. The lifecycle is `Unverified` → `Verified` →
//! `Blocked`, and each operation exists only on the state where it is legal,
//! so an illegal sequence (blocking an address that was never verified)
//! fails to compile rather than at run time. Every transition consumes its
//! input, so a stale-state value cannot be used again.

use vstd::prelude::*;
use vstd::string::StrSliceExecFns;
use core::marker::PhantomData;

verus! {

/// Marker for an address that was constructed but not yet verified.
pub struct Unverified;

/// Marker for an address whose verification code was accepted.
pub struct Verified;

/// Marker for a verified address that was subsequently blocked.
pub struct Blocked;

/// Why constructing or verifying an address failed.
#[derive(Debug, Clone, Copy, PartialEq, Eq, Structural)]
pub enum EmailError {
    /// The address fails the minimal structural check: no `@` separator.
    InvalidFormat,
    /// The supplied verification code does not match the expected one.
    InvalidCode,
}

/// Whether the address text contains the `@` separator. This is the whole
/// structural check: no fuller email grammar is enforced.
pub open spec fn contains_at_sign(s: Seq<char>) -> bool {
    exists|i: int| 0 <= i < s.len() && s[i] == '@'
}

/// The verification code that `verify` accepts.
pub open spec fn spec_expected_code() -> Seq<char> {
    "123456"@
}

/// An email address in lifecycle state `State`. The wrapped text never
/// changes once constructed; only the marker changes across transitions.
pub struct Email<State> {
    address: String,
    _state: PhantomData<State>,
}

impl<State> View for Email<State> {
    type V = Seq<char>;

    closed spec fn view(&self) -> Seq<char> {
        self.address@
    }
}

/// Whether `s` holds a `@` character.
fn find_at_sign(s: &str) -> (r: bool)
    ensures
        r == contains_at_sign(s@),
{
    let len: usize = s.unicode_len();
    let mut i: usize = 0;
    while i < len
        invariant
            i <= len,
            len == s@.len(),
            forall|j: int| 0 <= j < i ==> s@[j] != '@',
        decreases len - i,
    {
        if s.get_char(i) == '@' {
            proof {
                assert(s@[i as int] == '@');
            }
            return true;
        }
        i += 1;
    }
    false
}

/// Character-for-character string comparison.
fn str_eq(a: &str, b: &str) -> (r: bool)
    ensures
        r == (a@ == b@),
{
    let a_len: usize = a.unicode_len();
    let b_len: usize = b.unicode_len();
    if a_len != b_len {
        return false;
    }
    let mut i: usize = 0;
    while i < a_len
        invariant
            i <= a_len,
            a_len == a@.len(),
            a_len == b@.len(),
            forall|j: int| 0 <= j < i ==> a@[j] == b@[j],
        decreases a_len - i,
    {
        if a.get_char(i) != b.get_char(i) {
            return false;
        }
        i += 1;
    }
    proof {
        assert(a@ =~= b@);
    }
    true
}

impl Email<Unverified> {
    /// Construct an unverified address. Succeeds exactly when the text
    /// contains the `@` separator; the text is stored unchanged.
    pub fn new(address: String) -> (r: Result<Email<Unverified>, EmailError>)
        ensures
            r is Ok <==> contains_at_sign(address@),
            r is Ok ==> r->Ok_0@ == address@,
            r is Err ==> r->Err_0 == EmailError::InvalidFormat,
    {
        if find_at_sign(address.as_str()) {
            Ok(Email { address, _state: PhantomData })
        } else {
            Err(EmailError::InvalidFormat)
        }
    }

    /// Attempt verification, consuming the unverified value. Succeeds exactly
    /// when `code` is the expected code, and then carries the address over
    /// unchanged. On failure the consumed value is not handed back: a caller
    /// who wants to retry must keep its own copy.
    pub fn verify(self, code: &str) -> (r: Result<Email<Verified>, EmailError>)
        ensures
            r is Ok <==> code@ == spec_expected_code(),
            r is Ok ==> r->Ok_0@ == self@,
            r is Err ==> r->Err_0 == EmailError::InvalidCode,
    {
        if str_eq(code, "123456") {
            Ok(Email { address: self.address, _state: PhantomData })
        } else {
            Err(EmailError::InvalidCode)
        }
    }
}

impl Email<Verified> {
    /// Block a verified address, consuming it and keeping the address text
    /// unchanged. Total: only a `Verified` value has this method, so blocking
    /// an address that was never verified is a compile-time error, and
    /// `verify` is the only way to reach `Verified`.
    pub fn block(self) -> (r: Email<Blocked>)
        ensures
            r@ == self@,
    {
        Email { address: self.address, _state: PhantomData }
    }
}

impl<State> Email<State> {
    /// Read the address text; legal in every state and does not consume.
    pub fn as_str(&self) -> (r: &str)
        ensures
            r@ == self@,
    {
        self.address.as_str()
    }

    /// A fresh owned copy of the address text; legal in every state.
    pub fn into(&self) -> (r: String)
        ensures
            r@ == self@,
    {
        self.address.clone()
    }
}

} // verus!
