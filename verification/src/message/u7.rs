use crate::message::OutOfRange;
use vstd::prelude::*;
use vstd::std_specs::convert::FromSpecImpl;
use vstd::std_specs::convert::TryFromSpecImpl;

verus! {

/// An unsigned integer of seven bits, `0..=127`: what one data byte carries.
///
/// The view is the number itself.
#[derive(Debug, Copy, Clone, PartialEq, Eq)]
pub struct Unsigned7(u8);

impl View for Unsigned7 {
    type V = u8;

    closed spec fn view(&self) -> u8 {
        self.0
    }
}

impl Unsigned7 {
    #[verifier::type_invariant]
    spec fn in_range(self) -> bool {
        self.0 <= 127
    }

    /// The `Unsigned7` whose view is `value`.
    pub closed spec fn of(value: u8) -> Unsigned7 {
        Unsigned7(value)
    }

    /// `of` is the inverse of the view.
    pub broadcast proof fn lemma_view_of(value: u8)
        ensures
            (#[trigger] Unsigned7::of(value))@ == value,
    {
    }
}

impl TryFromSpecImpl<u8> for Unsigned7 {
    open spec fn obeys_try_from_spec() -> bool {
        true
    }

    open spec fn try_from_spec(value: u8) -> Result<Unsigned7, OutOfRange> {
        if value <= 127 {
            Ok(Unsigned7::of(value))
        } else {
            Err(OutOfRange)
        }
    }
}

impl TryFrom<u8> for Unsigned7 {
    type Error = OutOfRange;

    /// Accepts exactly the bytes with the high bit clear.
    fn try_from(value: u8) -> (result: Result<Unsigned7, OutOfRange>)
        ensures
            result is Ok <==> value <= 127,
            result matches Ok(v) ==> v@ == value,
    {
        if value <= 127 {
            Ok(Unsigned7(value))
        } else {
            Err(OutOfRange)
        }
    }
}

impl FromSpecImpl<Unsigned7> for u8 {
    open spec fn obeys_from_spec() -> bool {
        true
    }

    open spec fn from_spec(other: Unsigned7) -> u8 {
        other@
    }
}

impl From<Unsigned7> for u8 {
    /// The number held, which never exceeds 127.
    fn from(other: Unsigned7) -> (result: u8)
        ensures
            result == other@,
            result <= 127,
    {
        proof {
            use_type_invariant(&other);
        }
        other.0
    }
}

} // verus!
