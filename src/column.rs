//! Typed values read from the text of one column or scalar.
use crate::text::{parse_i64, parse_u64, spec_parse_i64, spec_parse_u64};
use vstd::prelude::*;

verus! {

/// Why a value's text does not denote a value of its type.
#[derive(Clone, Copy, Debug, PartialEq, Eq, Structural)]
pub enum ValueError {
    /// The text is not a number of the expected integer type.
    NotANumber,
    /// The text is not one of the codes of an enumeration.
    UnknownCode,
}

/// A type whose values are read from a column's text.
pub trait FromColumn: Sized {
    /// The value that `s` denotes, or why it denotes none.
    spec fn spec_from_column(s: Seq<char>) -> Result<Self, ValueError>;

    fn from_column(s: &str) -> (r: Result<Self, ValueError>)
        ensures
            r == Self::spec_from_column(s@),
    ;
}

impl FromColumn for u64 {
    open spec fn spec_from_column(s: Seq<char>) -> Result<u64, ValueError> {
        match spec_parse_u64(s) {
            Some(v) => Ok(v),
            None => Err(ValueError::NotANumber),
        }
    }

    fn from_column(s: &str) -> (r: Result<u64, ValueError>) {
        match parse_u64(s) {
            Some(v) => Ok(v),
            None => Err(ValueError::NotANumber),
        }
    }
}

/// A quantity that the device reports in tenths of its unit: `tenths / 10`
/// units (raw text `"205"` is 20.5 units).
#[derive(Clone, Copy, Debug, PartialEq, Eq, Structural)]
pub struct Tenths {
    pub tenths: i64,
}

impl FromColumn for Tenths {
    open spec fn spec_from_column(s: Seq<char>) -> Result<Tenths, ValueError> {
        match spec_parse_i64(s) {
            Some(v) => Ok(Tenths { tenths: v }),
            None => Err(ValueError::NotANumber),
        }
    }

    fn from_column(s: &str) -> (r: Result<Tenths, ValueError>) {
        match parse_i64(s) {
            Some(v) => Ok(Tenths { tenths: v }),
            None => Err(ValueError::NotANumber),
        }
    }
}

/// Whether `s` is the one-character code `c`.
pub fn is_code(s: &str, c: char) -> (r: bool)
    ensures
        r == (s@ == seq![c]),
{
    if s.unicode_len() == 1 {
        let d = s.get_char(0);
        if d == c {
            assert(s@ =~= seq![c]);
            true
        } else {
            assert(s@[0] != seq![c][0]);
            false
        }
    } else {
        assert(s@.len() != seq![c].len());
        false
    }
}

} // verus!
