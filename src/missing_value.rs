//! A quantity that has a certain value that indicates missing or invalid data.
//!
//! Semantically this is no different than `Option`, but it takes no extra space: one value of the
//! wrapped type is reserved to mean "missing".

use vstd::prelude::*;

use crate::float_bits::{Real, MISSING_REAL_BITS};

verus! {

/// Defines the value used to indicate missing data.
pub trait MissingData<T> where T: Copy {
    /// The value that indicates this quantity is invalid or missing.
    spec fn missing() -> T;

    /// Whether `v` is the missing-data flag.
    fn is_missing(v: &T) -> (r: bool)
        ensures
            r == (*v == Self::missing()),
    ;

    /// The missing-data flag.
    fn missing_value() -> (r: T)
        ensures
            r == Self::missing(),
    ;
}

/// The integer that flags a missing integer value.
pub const MISSING_I32: i32 = -9999;

impl MissingData<Real> for Real {
    open spec fn missing() -> Real {
        Real { bits: MISSING_REAL_BITS }
    }

    fn is_missing(v: &Real) -> (r: bool) {
        v.bits == MISSING_REAL_BITS
    }

    fn missing_value() -> (r: Real) {
        Real { bits: MISSING_REAL_BITS }
    }
}

impl MissingData<i32> for i32 {
    open spec fn missing() -> i32 {
        MISSING_I32
    }

    fn is_missing(v: &i32) -> (r: bool) {
        *v == MISSING_I32
    }

    fn missing_value() -> (r: i32) {
        MISSING_I32
    }
}

/// A value of `T` in which `T::missing()` stands for "no data".
#[derive(Clone, Copy, Debug)]
pub struct OptionVal<T: Copy + MissingData<T>> {
    /// The stored value; `T::missing()` means "no data".
    pub value: T,
}

impl<T: Copy + MissingData<T>> View for OptionVal<T> {
    type V = Option<T>;

    open spec fn view(&self) -> Option<T> {
        if self.value == T::missing() {
            None
        } else {
            Some(self.value)
        }
    }
}

impl<T: Copy + MissingData<T>> OptionVal<T> {
    /// Convert it to an option.
    pub fn as_option(self) -> (r: Option<T>)
        ensures
            r == self@,
    {
        if T::is_missing(&self.value) {
            None
        } else {
            Some(self.value)
        }
    }

    /// Despite its name, this method does not panic: it returns the interior value even if that
    /// value is the missing-data flag.
    pub fn unwrap(self) -> (r: T)
        ensures
            r == self.value,
            self@ == Some(r) || r == T::missing(),
    {
        self.value
    }

    /// Wrap a value; the missing-data flag itself wraps to "missing".
    pub fn from_value(v: T) -> (r: Self)
        ensures
            r == (OptionVal { value: v }),
    {
        OptionVal { value: v }
    }

    /// The cell that holds `o`: `None` becomes the missing-data flag.
    pub open spec fn spec_from_option(o: Option<T>) -> Self {
        match o {
            Some(v) => OptionVal { value: v },
            None => OptionVal { value: T::missing() },
        }
    }

    /// Wrap an option.
    pub fn from_option(o: Option<T>) -> (r: Self)
        ensures
            r == Self::spec_from_option(o),
    {
        match o {
            Some(v) => OptionVal { value: v },
            None => OptionVal { value: T::missing_value() },
        }
    }

    /// The missing value.
    pub fn none() -> (r: Self)
        ensures
            r == Self::spec_from_option(None),
            r@.is_none(),
    {
        OptionVal { value: T::missing_value() }
    }

    /// Whether a value is present.
    pub fn is_some(&self) -> (r: bool)
        ensures
            r == self@.is_some(),
    {
        !T::is_missing(&self.value)
    }
}

impl<T: Copy + MissingData<T>> Default for OptionVal<T> {
    /// The missing value.
    fn default() -> (r: Self)
        ensures
            r@.is_none(),
    {
        OptionVal::none()
    }
}

impl<T: Copy + MissingData<T>> From<Option<T>> for OptionVal<T> {
    fn from(src: Option<T>) -> (r: OptionVal<T>) {
        OptionVal::from_option(src)
    }
}

impl<T: Copy + MissingData<T>> vstd::std_specs::convert::FromSpecImpl<Option<T>> for OptionVal<T> {
    open spec fn obeys_from_spec() -> bool {
        true
    }

    open spec fn from_spec(src: Option<T>) -> OptionVal<T> {
        OptionVal::spec_from_option(src)
    }
}

impl<T: Copy + MissingData<T>> From<T> for OptionVal<T> {
    fn from(src: T) -> (r: OptionVal<T>) {
        OptionVal { value: src }
    }
}

impl<T: Copy + MissingData<T>> vstd::std_specs::convert::FromSpecImpl<T> for OptionVal<T> {
    open spec fn obeys_from_spec() -> bool {
        true
    }

    open spec fn from_spec(src: T) -> OptionVal<T> {
        OptionVal { value: src }
    }
}

impl<T: Copy + MissingData<T>> From<OptionVal<T>> for Option<T> {
    fn from(src: OptionVal<T>) -> (r: Option<T>) {
        src.as_option()
    }
}

impl<T: Copy + MissingData<T>> vstd::std_specs::convert::FromSpecImpl<OptionVal<T>> for Option<T> {
    open spec fn obeys_from_spec() -> bool {
        true
    }

    open spec fn from_spec(src: OptionVal<T>) -> Option<T> {
        src@
    }
}

/// Converting an option to a cell and back gives the option again, for every value but the
/// missing-data flag itself.
pub proof fn lemma_option_round_trip<T: Copy + MissingData<T>>(o: Option<T>)
    requires
        o != Some(T::missing()),
    ensures
        OptionVal::<T>::spec_from_option(o)@ == o,
{
}

} // verus!
