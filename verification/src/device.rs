//! Identifiers tagged with the source that decides whether they are valid.

use vstd::prelude::*;
use vstd::std_specs::convert::FromSpecImpl;
use vstd::string::to_string_from_display_ensures;
use std::fmt::Display;
use std::marker::PhantomData;

verus! {

/// A source of identifiers, with its rule for the shape of a valid one.
pub trait ValidDevice<T> {
    /// Whether the source takes the identifier for valid.
    fn is_valid(value: &T) -> bool;
}

/// An identifier of type `T` that came from the source `U`. The identifier is
/// kept as it came; the source's rule is asked whenever validity is wanted.
pub struct Device<T, U> {
    value: T,
    _phantom: PhantomData<U>,
}

impl<T, U> View for Device<T, U> {
    type V = T;

    /// The identifier as it came.
    closed spec fn view(&self) -> T {
        self.value
    }
}

impl<T, U: ValidDevice<T>> Device<T, U> {
    /// Whether the source takes the identifier for valid: the answer is one
    /// that the source's rule gives for the identifier.
    pub fn is_valid(&self) -> (ok: bool)
        ensures
            call_ensures(U::is_valid, (&self@,), ok),
    {
        U::is_valid(&self.value)
    }
}

impl<T, U> Device<T, U> {
    /// The identifier as it came.
    pub fn value(&self) -> (value: &T)
        ensures
            *value == self@,
    {
        &self.value
    }
}

pub trait IntoDevice<T> {
    /// Tags the identifier with the source `U`.
    fn into_device<U>(self) -> Device<T, U> where U: ValidDevice<T>;
}

impl<T> IntoDevice<T> for T {
    fn into_device<U>(self) -> (device: Device<T, U>) where U: ValidDevice<T>
        ensures
            device@ == self,
    {
        Device { value: self, _phantom: PhantomData }
    }
}

/// The text of a formatted device: the tag `valid` or `invalid` in angle
/// brackets behind the word `Device`, a colon, and the identifier as shown.
pub open spec fn formatted(valid: bool, shown: Seq<char>) -> Seq<char> {
    "Device<"@ + (if valid {
        "valid"@
    } else {
        "invalid"@
    }) + ">: "@ + shown
}

pub trait FormatDevice<T, U> where T: Display, U: ValidDevice<T> {
    /// Renders the identifier with its validity tag.
    fn format_device(&self) -> String;
}

impl<T, U> FormatDevice<T, U> for Device<T, U> where T: Display, U: ValidDevice<T> {
    /// `valid` is an answer of the source's rule for the identifier, and
    /// `shown` is the text that the identifier's own `Display` gives.
    fn format_device(&self) -> (text: String)
        ensures
            exists|valid: bool, shown: String|
                call_ensures(U::is_valid, (&self@,), valid) && to_string_from_display_ensures::<T>(
                    &self@,
                    shown,
                ) && text@ == formatted(valid, shown@),
    {
        let valid = self.is_valid();
        let valid_str = match valid {
            true => "valid",
            false => "invalid",
        };
        let shown = self.value.to_string();
        let mut text = "Device<".to_owned();
        text.append(valid_str);
        text.append(">: ");
        text.append(shown.as_str());
        assert(text@ =~= formatted(valid, shown@));
        assert(call_ensures(U::is_valid, (&self@,), valid) && to_string_from_display_ensures::<T>(
            &self@,
            shown,
        ));
        text
    }
}

impl<T, U> From<T> for Device<T, U> where U: ValidDevice<T> {
    fn from(value: T) -> (device: Self)
        ensures
            device@ == value,
    {
        Self { value, _phantom: PhantomData }
    }
}

impl<T, U> FromSpecImpl<T> for Device<T, U> where U: ValidDevice<T> {
    open spec fn obeys_from_spec() -> bool {
        true
    }

    closed spec fn from_spec(value: T) -> Self {
        Device { value, _phantom: PhantomData }
    }
}

} // verus!
