//! The `Datum` word that Postgres passes values and references in, and the
//! `NullableDatum` pair that adds a null flag to it.
use vstd::prelude::*;

verus! {

/// Datum is an abstract value that is effectively a union of all scalar types
/// and all possible pointers in a Postgres context.  It is either
/// "pass-by-value" (when the value fits into a `uintptr_t`) or
/// "pass-by-reference" (when it does not).
///
/// Here a datum is modelled by the machine word it holds: its address, when it
/// is a reference, or its bits, when it is a value.
#[derive(Debug, Copy, Clone, PartialEq, Eq, Structural, Hash)]
pub struct Datum(usize);

impl View for Datum {
    type V = usize;

    closed spec fn view(&self) -> usize {
        self.0
    }
}

impl Datum {
    /// Assume the datum is a value and extract the bits of the word,
    /// interpreting them as an integer.
    pub fn value(self) -> (r: usize)
        ensures
            r == self@,
    {
        self.0
    }

    /// True if the datum is equal to the null pointer.
    pub fn is_null(self) -> (r: bool)
        ensures
            r == (self@ == 0),
    {
        self.0 == 0
    }
}

impl From<usize> for Datum {
    fn from(val: usize) -> (r: Datum)
        ensures
            r@ == val,
    {
        Datum(val)
    }
}

impl vstd::std_specs::convert::FromSpecImpl<usize> for Datum {
    open spec fn obeys_from_spec() -> bool {
        true
    }

    closed spec fn from_spec(v: usize) -> Datum {
        Datum(v)
    }
}

impl From<Datum> for usize {
    fn from(val: Datum) -> (r: usize)
        ensures
            r == val@,
    {
        val.0
    }
}

impl vstd::std_specs::convert::FromSpecImpl<Datum> for usize {
    open spec fn obeys_from_spec() -> bool {
        true
    }

    closed spec fn from_spec(v: Datum) -> usize {
        v.0
    }
}

/// A signed word, reinterpreted as the unsigned word with the same bits.
impl From<isize> for Datum {
    fn from(val: isize) -> (r: Datum)
        ensures
            r@ == val as usize,
    {
        Datum::from(val as usize)
    }
}

impl vstd::std_specs::convert::FromSpecImpl<isize> for Datum {
    open spec fn obeys_from_spec() -> bool {
        true
    }

    closed spec fn from_spec(v: isize) -> Datum {
        Datum(v as usize)
    }
}

/// A byte, zero-extended.
impl From<u8> for Datum {
    fn from(val: u8) -> (r: Datum)
        ensures
            r@ == val as usize,
    {
        Datum::from(usize::from(val))
    }
}

impl vstd::std_specs::convert::FromSpecImpl<u8> for Datum {
    open spec fn obeys_from_spec() -> bool {
        true
    }

    closed spec fn from_spec(v: u8) -> Datum {
        Datum(v as usize)
    }
}

/// A 16-bit unsigned value, zero-extended.
impl From<u16> for Datum {
    fn from(val: u16) -> (r: Datum)
        ensures
            r@ == val as usize,
    {
        Datum::from(usize::from(val))
    }
}

impl vstd::std_specs::convert::FromSpecImpl<u16> for Datum {
    open spec fn obeys_from_spec() -> bool {
        true
    }

    closed spec fn from_spec(v: u16) -> Datum {
        Datum(v as usize)
    }
}

/// A 32-bit unsigned value, zero-extended.
impl From<u32> for Datum {
    fn from(val: u32) -> (r: Datum)
        ensures
            r@ == val as usize,
    {
        Datum::from(val as usize)
    }
}

impl vstd::std_specs::convert::FromSpecImpl<u32> for Datum {
    open spec fn obeys_from_spec() -> bool {
        true
    }

    closed spec fn from_spec(v: u32) -> Datum {
        Datum(v as usize)
    }
}

/// A 64-bit unsigned value; on a 32-bit target its high half is dropped.
impl From<u64> for Datum {
    fn from(val: u64) -> (r: Datum)
        ensures
            r@ == val as usize,
    {
        Datum::from(val as usize)
    }
}

impl vstd::std_specs::convert::FromSpecImpl<u64> for Datum {
    open spec fn obeys_from_spec() -> bool {
        true
    }

    closed spec fn from_spec(v: u64) -> Datum {
        Datum(v as usize)
    }
}

/// An 8-bit signed value, sign-extended to a word.
impl From<i8> for Datum {
    fn from(val: i8) -> (r: Datum)
        ensures
            r@ == val as usize,
    {
        Datum::from(isize::from(val))
    }
}

impl vstd::std_specs::convert::FromSpecImpl<i8> for Datum {
    open spec fn obeys_from_spec() -> bool {
        true
    }

    closed spec fn from_spec(v: i8) -> Datum {
        Datum(v as usize)
    }
}

/// A 16-bit signed value, sign-extended to a word.
impl From<i16> for Datum {
    fn from(val: i16) -> (r: Datum)
        ensures
            r@ == val as usize,
    {
        Datum::from(isize::from(val))
    }
}

impl vstd::std_specs::convert::FromSpecImpl<i16> for Datum {
    open spec fn obeys_from_spec() -> bool {
        true
    }

    closed spec fn from_spec(v: i16) -> Datum {
        Datum(v as usize)
    }
}

/// A 32-bit signed value, sign-extended to a word.
impl From<i32> for Datum {
    fn from(val: i32) -> (r: Datum)
        ensures
            r@ == val as usize,
    {
        Datum::from(val as usize)
    }
}

impl vstd::std_specs::convert::FromSpecImpl<i32> for Datum {
    open spec fn obeys_from_spec() -> bool {
        true
    }

    closed spec fn from_spec(v: i32) -> Datum {
        Datum(v as usize)
    }
}

/// A 64-bit signed value; on a 32-bit target its high half is dropped.
impl From<i64> for Datum {
    fn from(val: i64) -> (r: Datum)
        ensures
            r@ == val as usize,
    {
        Datum::from(val as usize)
    }
}

impl vstd::std_specs::convert::FromSpecImpl<i64> for Datum {
    open spec fn obeys_from_spec() -> bool {
        true
    }

    closed spec fn from_spec(v: i64) -> Datum {
        Datum(v as usize)
    }
}

/// `true` is the word 1 and `false` the word 0.
impl From<bool> for Datum {
    fn from(val: bool) -> (r: Datum)
        ensures
            r@ == (if val { 1usize } else { 0usize }),
    {
        Datum::from(if val { 1usize } else { 0usize })
    }
}

impl vstd::std_specs::convert::FromSpecImpl<bool> for Datum {
    open spec fn obeys_from_spec() -> bool {
        true
    }

    closed spec fn from_spec(v: bool) -> Datum {
        Datum((if v { 1usize } else { 0usize }))
    }
}


/// A Datum and a null flag, matching Postgres's definition as of Postgres 12.
#[derive(Debug, Copy, Clone)]
pub struct NullableDatum {
    pub value: Datum,
    pub isnull: bool,
}

/// The datum of a `NullableDatum`, or `Err(())` when it is null.
impl TryFrom<NullableDatum> for Datum {
    type Error = ();

    fn try_from(nd: NullableDatum) -> (r: Result<Datum, ()>)
        ensures
            r == (if nd.isnull { Err(()) } else { Ok(nd.value) }),
    {
        let NullableDatum { value, isnull } = nd;
        if isnull {
            Err(())
        } else {
            Ok(value)
        }
    }
}

impl vstd::std_specs::convert::TryFromSpecImpl<NullableDatum> for Datum {
    open spec fn obeys_try_from_spec() -> bool {
        true
    }

    open spec fn try_from_spec(nd: NullableDatum) -> Result<Datum, ()> {
        if nd.isnull {
            Err(())
        } else {
            Ok(nd.value)
        }
    }
}

/// The datum of a `NullableDatum`, or `None` when it is null.
impl From<NullableDatum> for Option<Datum> {
    fn from(nd: NullableDatum) -> (r: Option<Datum>)
        ensures
            r == (if nd.isnull { None } else { Some(nd.value) }),
    {
        match Datum::try_from(nd) {
            Ok(d) => Some(d),
            Err(()) => None,
        }
    }
}

impl vstd::std_specs::convert::FromSpecImpl<NullableDatum> for Option<Datum> {
    open spec fn obeys_from_spec() -> bool {
        true
    }

    open spec fn from_spec(nd: NullableDatum) -> Option<Datum> {
        if nd.isnull {
            None
        } else {
            Some(nd.value)
        }
    }
}

/// A datum is its word: two datums with the same word are the same datum, a datum made
/// from a word holds that word, and the word of a datum makes the datum again.
pub proof fn lemma_datum_word_roundtrip(d: Datum, e: Datum, w: usize)
    ensures
        d@ == e@ ==> d == e,
        <Datum as vstd::std_specs::convert::FromSpec<usize>>::from_spec(w)@ == w,
        <Datum as vstd::std_specs::convert::FromSpec<usize>>::from_spec(d@) == d,
        <usize as vstd::std_specs::convert::FromSpec<Datum>>::from_spec(d) == d@,
{
}

/// The two ways of reading a `NullableDatum` agree: the optional datum is the datum
/// that `try_from` gives, and `None` exactly where `try_from` fails.
pub proof fn lemma_nullable_conversions_agree(nd: NullableDatum)
    ensures
        <Option<Datum> as vstd::std_specs::convert::FromSpec<NullableDatum>>::from_spec(nd) == (
        match <Datum as vstd::std_specs::convert::TryFromSpec<NullableDatum>>::try_from_spec(nd) {
            Ok(d) => Some(d),
            Err(_) => None::<Datum>,
        }),
{
}

} // verus!
