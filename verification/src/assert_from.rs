use vstd::pervasive::unreached;
use vstd::prelude::*;
use vstd::std_specs::convert::TryFromSpec;

verus! {

/// Conversion from a value that is known to convert.
///
/// Every type with a `TryFrom<Src>` has it: `assert_from` is `try_from` for a
/// caller who has shown that `try_from` succeeds.
pub trait AssertFrom<Src>: Sized {
    /// Whether `value` converts.
    spec fn converts(value: Src) -> bool;

    /// What `value` converts to, where it converts.
    spec fn converted(value: Src) -> Self;

    fn assert_from(value: Src) -> (result: Self)
        requires
            Self::converts(value),
        ensures
            result == Self::converted(value),
    ;
}

impl<T, Src> AssertFrom<Src> for T where T: TryFrom<Src> {
    open spec fn converts(value: Src) -> bool {
        T::obeys_try_from_spec() && T::try_from_spec(value) is Ok
    }

    open spec fn converted(value: Src) -> T {
        T::try_from_spec(value)->Ok_0
    }

    fn assert_from(value: Src) -> (result: T) {
        match T::try_from(value) {
            Ok(converted) => converted,
            Err(_) => unreached(),
        }
    }
}

} // verus!
