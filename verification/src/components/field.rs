//! A form input that holds the raw value entered, and what a validator makes of it.
use vstd::prelude::*;

use crate::edge::field::FieldValue;

verus! {

/// A form input: the raw value it holds (text, or a check box's state).
pub struct InputField<R> {
    pub raw: R,
}

pub type TextInput = InputField<String>;

pub type CheckedInput = InputField<bool>;

impl<R: FieldValue> InputField<R> {
    /// An input holding the default raw value.
    pub fn new() -> (f: Self)
        ensures
            f.raw@ == R::spec_default(),
    {
        InputField { raw: R::default_value() }
    }

    /// Sets the raw value, as a reset of the form does.
    pub fn reset(&mut self, raw_value: R)
        ensures
            final(self).raw == raw_value,
    {
        self.raw = raw_value;
    }

    /// Sets the raw value, as an edit does.
    pub fn update(&mut self, value: R)
        ensures
            final(self).raw == value,
    {
        self.raw = value;
    }

    pub fn raw_value(&self) -> (r: R)
        ensures
            r@ == self.raw@,
    {
        self.raw.duplicate()
    }

    /// What `validate` makes of the raw value, if it accepts it.
    pub fn value<S, V: Fn(R) -> Result<S, String>>(&self, validate: &V) -> (r: Option<S>)
        requires
            forall|x: R| call_requires(*validate, (x,)),
        ensures
            exists|x: R, res: Result<S, String>|
                x@ == self.raw@ && call_ensures(*validate, (x,), res) && r == res.ok(),
    {
        validate(self.raw_value()).ok()
    }

    /// The message `validate` gives for the raw value, if it refuses it.
    pub fn error<S, V: Fn(R) -> Result<S, String>>(&self, validate: &V) -> (r: Option<String>)
        requires
            forall|x: R| call_requires(*validate, (x,)),
        ensures
            exists|x: R, res: Result<S, String>|
                x@ == self.raw@ && call_ensures(*validate, (x,), res) && r == res.err(),
    {
        match validate(self.raw_value()) {
            Ok(_) => None,
            Err(e) => Some(e),
        }
    }

    pub fn has_errors<S, V: Fn(R) -> Result<S, String>>(&self, validate: &V) -> (r: bool)
        requires
            forall|x: R| call_requires(*validate, (x,)),
        ensures
            exists|x: R, res: Result<S, String>|
                x@ == self.raw@ && call_ensures(*validate, (x,), res) && r == res is Err,
    {
        validate(self.raw_value()).is_err()
    }

    /// The message `validate` gives for the raw value, or empty text.
    pub fn error_str<S, V: Fn(R) -> Result<S, String>>(&self, validate: &V) -> (r: String)
        requires
            forall|x: R| call_requires(*validate, (x,)),
        ensures
            exists|x: R, res: Result<S, String>|
                x@ == self.raw@ && call_ensures(*validate, (x,), res) && match res {
                    Ok(_) => r@ == Seq::<char>::empty(),
                    Err(e) => r == e,
                },
    {
        match validate(self.raw_value()) {
            Ok(_) => String::new(),
            Err(e) => e,
        }
    }
}

} // verus!
