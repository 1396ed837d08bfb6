//! Length-bounded strings: wrappers whose character count is constrained by
//! bounds fixed at the type level. Each type has a single validating
//! constructor, and its bound then holds of every value it ever hands out.
//! Lengths are counted in characters, not bytes.

use vstd::prelude::*;
use vstd::string::StrSliceExecFns;

verus! {

/// Why a bounded string could not be constructed.
#[derive(Debug, Clone, Copy, PartialEq, Eq, Structural)]
pub enum LengthError {
    /// Fewer characters than the type's lower bound.
    TooShort { min: usize },
    /// More characters than the type's upper bound.
    TooLong { max: usize },
    /// Not exactly the type's required character count.
    WrongLength { expected: usize },
}

/// A string with at least `N` characters.
#[derive(Debug, Clone, Eq, PartialEq, Hash)]
pub struct MinDefinedString<const N: usize> {
    value: String,
}

/// A string with at least one character.
pub type NonEmptyString = MinDefinedString<1>;

impl<const N: usize> View for MinDefinedString<N> {
    type V = Seq<char>;

    closed spec fn view(&self) -> Seq<char> {
        self.value@
    }
}

impl<const N: usize> MinDefinedString<N> {
    /// Well-formedness: the wrapped string has at least `N` characters.
    /// The constructor establishes it; no operation changes the string.
    pub open spec fn wf(self) -> bool {
        self@.len() >= N
    }

    /// Wrap `s` if it has at least `N` characters; reject it otherwise.
    pub fn try_from(s: &str) -> (r: Result<Self, LengthError>)
        ensures
            r is Ok <==> s@.len() >= N,
            r is Ok ==> r->Ok_0@ == s@ && r->Ok_0.wf(),
            r is Err ==> r->Err_0 == (LengthError::TooShort { min: N }),
    {
        if s.unicode_len() < N {
            Err(LengthError::TooShort { min: N })
        } else {
            Ok(MinDefinedString { value: s.to_owned() })
        }
    }

    /// Give up the wrapper and hand the string back.
    pub fn into_string(self) -> (r: String)
        ensures
            r@ == self@,
    {
        self.value
    }

    /// Read the wrapped string.
    pub fn as_str(&self) -> (r: &str)
        ensures
            r@ == self@,
    {
        self.value.as_str()
    }
}

/// A string with at most `N` characters.
#[derive(Debug, Clone, Eq, PartialEq, Hash)]
pub struct MaxDefinedString<const N: usize> {
    value: String,
}

impl<const N: usize> View for MaxDefinedString<N> {
    type V = Seq<char>;

    closed spec fn view(&self) -> Seq<char> {
        self.value@
    }
}

impl<const N: usize> MaxDefinedString<N> {
    /// Well-formedness: the wrapped string has at most `N` characters.
    /// The constructor establishes it; no operation changes the string.
    pub open spec fn wf(self) -> bool {
        self@.len() <= N
    }

    /// Wrap `s` if it has at most `N` characters; reject it otherwise.
    pub fn try_from(s: &str) -> (r: Result<Self, LengthError>)
        ensures
            r is Ok <==> s@.len() <= N,
            r is Ok ==> r->Ok_0@ == s@ && r->Ok_0.wf(),
            r is Err ==> r->Err_0 == (LengthError::TooLong { max: N }),
    {
        if s.unicode_len() > N {
            Err(LengthError::TooLong { max: N })
        } else {
            Ok(MaxDefinedString { value: s.to_owned() })
        }
    }

    /// Give up the wrapper and hand the string back.
    pub fn into_string(self) -> (r: String)
        ensures
            r@ == self@,
    {
        self.value
    }

    /// Read the wrapped string.
    pub fn as_str(&self) -> (r: &str)
        ensures
            r@ == self@,
    {
        self.value.as_str()
    }
}

/// A string with at least `MIN` and at most `MAX` characters.
#[derive(Debug, Clone, Eq, PartialEq, Hash)]
pub struct MinMaxDefinedString<const MIN: usize, const MAX: usize> {
    value: String,
}

impl<const MIN: usize, const MAX: usize> View for MinMaxDefinedString<MIN, MAX> {
    type V = Seq<char>;

    closed spec fn view(&self) -> Seq<char> {
        self.value@
    }
}

impl<const MIN: usize, const MAX: usize> MinMaxDefinedString<MIN, MAX> {
    /// Well-formedness: the wrapped string's character count lies within
    /// `MIN..=MAX`. The constructor establishes it; no operation changes the
    /// string.
    pub open spec fn wf(self) -> bool {
        MIN <= self@.len() <= MAX
    }

    /// Wrap `s` if its character count lies within `MIN..=MAX`; reject it
    /// otherwise, citing the bound that failed (the lower one first).
    pub fn try_from(s: &str) -> (r: Result<Self, LengthError>)
        ensures
            r is Ok <==> MIN <= s@.len() <= MAX,
            r is Ok ==> r->Ok_0@ == s@ && r->Ok_0.wf(),
            r is Err ==> r->Err_0 == (if s@.len() < MIN {
                LengthError::TooShort { min: MIN }
            } else {
                LengthError::TooLong { max: MAX }
            }),
    {
        let count: usize = s.unicode_len();
        if count < MIN {
            Err(LengthError::TooShort { min: MIN })
        } else if count > MAX {
            Err(LengthError::TooLong { max: MAX })
        } else {
            Ok(MinMaxDefinedString { value: s.to_owned() })
        }
    }

    /// Give up the wrapper and hand the string back.
    pub fn into_string(self) -> (r: String)
        ensures
            r@ == self@,
    {
        self.value
    }

    /// Read the wrapped string.
    pub fn as_str(&self) -> (r: &str)
        ensures
            r@ == self@,
    {
        self.value.as_str()
    }
}

/// A string with exactly `N` characters.
#[derive(Debug, Clone, Eq, PartialEq, Hash)]
pub struct LenDefinedString<const N: usize> {
    value: String,
}

impl<const N: usize> View for LenDefinedString<N> {
    type V = Seq<char>;

    closed spec fn view(&self) -> Seq<char> {
        self.value@
    }
}

impl<const N: usize> LenDefinedString<N> {
    /// Well-formedness: the wrapped string has exactly `N` characters.
    /// The constructor establishes it; no operation changes the string.
    pub open spec fn wf(self) -> bool {
        self@.len() == N
    }

    /// Wrap `s` if it has exactly `N` characters; reject it otherwise.
    pub fn try_from(s: &str) -> (r: Result<Self, LengthError>)
        ensures
            r is Ok <==> s@.len() == N,
            r is Ok ==> r->Ok_0@ == s@ && r->Ok_0.wf(),
            r is Err ==> r->Err_0 == (LengthError::WrongLength { expected: N }),
    {
        if s.unicode_len() != N {
            Err(LengthError::WrongLength { expected: N })
        } else {
            Ok(LenDefinedString { value: s.to_owned() })
        }
    }

    /// Give up the wrapper and hand the string back.
    pub fn into_string(self) -> (r: String)
        ensures
            r@ == self@,
    {
        self.value
    }

    /// Read the wrapped string.
    pub fn as_str(&self) -> (r: &str)
        ensures
            r@ == self@,
    {
        self.value.as_str()
    }
}

} // verus!
