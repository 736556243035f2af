use crate::message::OutOfRange;
use vstd::prelude::*;
use vstd::std_specs::convert::FromSpecImpl;
use vstd::std_specs::convert::TryFromSpecImpl;

verus! {

/// The number that two septets stand for on the wire, least significant first:
/// `(msb << 7) | lsb`.
pub open spec fn septets_value(lsb: u8, msb: u8) -> u16 {
    (msb as int * 128 + lsb as int) as u16
}

/// The least significant seven bits of `value`.
pub open spec fn low_septet(value: u16) -> u8 {
    (value as int % 128) as u8
}

/// The seven bits above the least significant seven of a 14-bit `value`.
pub open spec fn high_septet(value: u16) -> u8 {
    (value as int / 128) as u8
}

/// Splitting a 14-bit number into septets and joining them gives the number back,
/// and both septets are data bytes.
pub proof fn lemma_septets_round_trip(value: u16)
    requires
        value <= 16383,
    ensures
        low_septet(value) <= 127,
        high_septet(value) <= 127,
        septets_value(low_septet(value), high_septet(value)) == value,
{
}

/// Joining two septets and splitting the result gives the septets back,
/// and the number joined fits in 14 bits.
pub proof fn lemma_value_round_trip(lsb: u8, msb: u8)
    requires
        lsb <= 127,
        msb <= 127,
    ensures
        septets_value(lsb, msb) <= 16383,
        low_septet(septets_value(lsb, msb)) == lsb,
        high_septet(septets_value(lsb, msb)) == msb,
{
}

/// An unsigned integer of fourteen bits, `0..=16383`, sent as two data bytes.
///
/// The view is the number itself.
#[derive(Debug, Copy, Clone, PartialEq, Eq)]
pub struct Unsigned14(u16);

impl View for Unsigned14 {
    type V = u16;

    closed spec fn view(&self) -> u16 {
        self.0
    }
}

impl Unsigned14 {
    #[verifier::type_invariant]
    spec fn in_range(self) -> bool {
        self.0 <= 16383
    }

    /// The `Unsigned14` whose view is `value`.
    pub closed spec fn of(value: u16) -> Unsigned14 {
        Unsigned14(value)
    }

    /// `of` is the inverse of the view.
    pub broadcast proof fn lemma_view_of(value: u16)
        ensures
            (#[trigger] Unsigned14::of(value))@ == value,
    {
    }
}

impl TryFromSpecImpl<[u8; 2]> for Unsigned14 {
    open spec fn obeys_try_from_spec() -> bool {
        true
    }

    open spec fn try_from_spec(value: [u8; 2]) -> Result<Unsigned14, OutOfRange> {
        if value[0] <= 127 && value[1] <= 127 {
            Ok(Unsigned14::of(septets_value(value[0], value[1])))
        } else {
            Err(OutOfRange)
        }
    }
}

impl TryFrom<[u8; 2]> for Unsigned14 {
    type Error = OutOfRange;

    /// Joins two wire bytes, least significant first; accepts them exactly when
    /// both have the high bit clear.
    fn try_from(value: [u8; 2]) -> (result: Result<Unsigned14, OutOfRange>)
        ensures
            result is Ok <==> value[0] <= 127 && value[1] <= 127,
            result matches Ok(v) ==> v@ == septets_value(value[0], value[1]),
    {
        let lsb: u8 = value[0];
        let msb: u8 = value[1];
        if lsb <= 127 && msb <= 127 {
            let joined: u16 = (msb as u16) << 7 | (lsb as u16);
            assert(joined == septets_value(lsb, msb) && joined <= 16383) by {
                assert(((msb as u16) << 7 | (lsb as u16)) == (msb as u16) * 128 + (lsb as u16))
                    by (bit_vector)
                    requires
                        lsb <= 127,
                        msb <= 127,
                ;
            }
            Ok(Unsigned14(joined))
        } else {
            Err(OutOfRange)
        }
    }
}

impl FromSpecImpl<Unsigned14> for u16 {
    open spec fn obeys_from_spec() -> bool {
        true
    }

    open spec fn from_spec(other: Unsigned14) -> u16 {
        other@
    }
}

impl From<Unsigned14> for u16 {
    /// The number held, which never exceeds 16383.
    fn from(other: Unsigned14) -> (result: u16)
        ensures
            result == other@,
            result <= 16383,
    {
        proof {
            use_type_invariant(&other);
        }
        other.0
    }
}

impl FromSpecImpl<Unsigned14> for [u8; 2] {
    open spec fn obeys_from_spec() -> bool {
        true
    }

    open spec fn from_spec(other: Unsigned14) -> [u8; 2] {
        [low_septet(other@), high_septet(other@)]
    }
}

impl From<Unsigned14> for [u8; 2] {
    /// The two wire bytes of the number, least significant first: the bytes from
    /// which `try_from` builds the same number.
    fn from(other: Unsigned14) -> (result: [u8; 2])
        ensures
            result[0] == low_septet(other@),
            result[1] == high_septet(other@),
            result[0] <= 127,
            result[1] <= 127,
            septets_value(result[0], result[1]) == other@,
    {
        proof {
            use_type_invariant(&other);
        }
        let value: u16 = other.0;
        let lsb: u8 = (value & 0x7F) as u8;
        let msb: u8 = (value >> 7) as u8;
        assert(lsb == low_septet(value) && msb == high_septet(value)) by {
            assert((value & 0x7F) == value % 128 && (value >> 7) == value / 128 && (value >> 7)
                <= 127) by (bit_vector)
                requires
                    value <= 16383,
            ;
        }
        [lsb, msb]
    }
}

} // verus!
