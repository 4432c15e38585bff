//! The state of a form input: the value it started with, the value the UI state
//! holds, and the value entered since; and what a validator makes of it.
use vstd::prelude::*;

verus! {

/// A value a form input can hold: the text of a text box or the state of a check box.
pub trait FieldValue: View + Sized {
    spec fn spec_default() -> Self::V;

    fn default_value() -> (v: Self)
        ensures
            v@ == Self::spec_default(),
    ;

    fn duplicate(&self) -> (v: Self)
        ensures
            v@ == self@,
    ;

    fn same(&self, other: &Self) -> (b: bool)
        ensures
            b == (self@ == other@),
    ;
}

impl FieldValue for String {
    open spec fn spec_default() -> Seq<char> {
        Seq::empty()
    }

    fn default_value() -> (v: Self) {
        String::new()
    }

    fn duplicate(&self) -> (v: Self) {
        self.clone()
    }

    fn same(&self, other: &Self) -> (b: bool) {
        self.eq(other)
    }
}

impl FieldValue for bool {
    open spec fn spec_default() -> bool {
        false
    }

    fn default_value() -> (v: Self) {
        false
    }

    fn duplicate(&self) -> (v: Self) {
        *self
    }

    fn same(&self, other: &Self) -> (b: bool) {
        *self == *other
    }
}

pub open spec fn opt_view<R: View>(o: Option<R>) -> Option<R::V> {
    match o {
        Some(r) => Some(r@),
        None => None,
    }
}

/// A form input. `value_state` is the value the UI state held when the form was
/// drawn; `raw_value` is the value entered since.
pub struct Field<R> {
    pub initial_value: Option<R>,
    pub value_state: Option<R>,
    pub raw_value: Option<R>,
}

pub type TextField = Field<String>;

pub type CheckedField = Field<bool>;

impl<R: FieldValue> Field<R> {
    /// The value the input shows: the one entered, else the one of the UI state,
    /// else the initial one, else the default.
    pub open spec fn spec_raw(&self) -> R::V {
        match self.raw_value {
            Some(r) => r@,
            None => match self.value_state {
                Some(s) => s@,
                None => match self.initial_value {
                    Some(i) => i@,
                    None => R::spec_default(),
                },
            },
        }
    }

    /// Whether the input differs from what it started with, given whether its value
    /// is in error.
    pub open spec fn spec_dirty(&self, has_errors: bool) -> bool {
        ||| has_errors
        ||| self.raw_value is Some
        ||| (self.value_state is Some && opt_view(self.value_state) != opt_view(self.initial_value))
    }

    pub fn new(initial_value: Option<R>, value_state: Option<R>) -> (f: Self)
        ensures
            f.initial_value == initial_value,
            f.value_state == value_state,
            f.raw_value is None,
    {
        Field { initial_value, value_state, raw_value: None }
    }

    pub fn raw_value(&self) -> (r: R)
        ensures
            r@ == self.spec_raw(),
    {
        match &self.raw_value {
            Some(r) => r.duplicate(),
            None => match &self.value_state {
                Some(s) => s.duplicate(),
                None => match &self.initial_value {
                    Some(i) => i.duplicate(),
                    None => R::default_value(),
                },
            },
        }
    }

    fn opt_same(a: &Option<R>, b: &Option<R>) -> (r: bool)
        ensures
            r == (opt_view(*a) == opt_view(*b)),
    {
        match (a, b) {
            (Some(x), Some(y)) => x.same(y),
            (None, None) => true,
            _ => false,
        }
    }

    /// Whether the input differs from what it started with, given whether its value
    /// is in error.
    pub fn dirty_given(&self, has_errors: bool) -> (r: bool)
        ensures
            r == self.spec_dirty(has_errors),
    {
        has_errors || self.raw_value.is_some() || (self.value_state.is_some() && !Self::opt_same(
            &self.value_state,
            &self.initial_value,
        ))
    }

    /// What `validator` makes of the shown value, if it accepts it.
    pub fn value<S, V: Fn(R) -> Result<S, String>>(&self, validator: &V) -> (r: Option<S>)
        requires
            forall|x: R| call_requires(*validator, (x,)),
        ensures
            exists|x: R, res: Result<S, String>|
                x@ == self.spec_raw() && call_ensures(*validator, (x,), res) && r == res.ok(),
    {
        let x = self.raw_value();
        let res = validator(x);
        res.ok()
    }

    /// The message `validator` gives for the shown value, if it refuses it.
    pub fn error<S, V: Fn(R) -> Result<S, String>>(&self, validator: &V) -> (r: Option<String>)
        requires
            forall|x: R| call_requires(*validator, (x,)),
        ensures
            exists|x: R, res: Result<S, String>|
                x@ == self.spec_raw() && call_ensures(*validator, (x,), res) && r == res.err(),
    {
        let x = self.raw_value();
        let res = validator(x);
        match res {
            Ok(_) => None,
            Err(e) => Some(e),
        }
    }

    pub fn has_errors<S, V: Fn(R) -> Result<S, String>>(&self, validator: &V) -> (r: bool)
        requires
            forall|x: R| call_requires(*validator, (x,)),
        ensures
            exists|x: R, res: Result<S, String>|
                x@ == self.spec_raw() && call_ensures(*validator, (x,), res) && r == res is Err,
    {
        let x = self.raw_value();
        let res = validator(x);
        res.is_err()
    }

    /// Whether the input differs from what it started with: it is in error, a value
    /// was entered, or the UI state holds a value other than the initial one.
    pub fn is_dirty<S, V: Fn(R) -> Result<S, String>>(&self, validator: &V) -> (r: bool)
        requires
            forall|x: R| call_requires(*validator, (x,)),
        ensures
            exists|e: bool| r == self.spec_dirty(e) && (exists|x: R, res: Result<S, String>|
                x@ == self.spec_raw() && call_ensures(*validator, (x,), res) && e == res is Err),
    {
        let e = self.has_errors(validator);
        let r = self.dirty_given(e);
        assert(r == self.spec_dirty(e));
        r
    }

    /// Takes a value entered in the input: it becomes the entered value and the
    /// value of the UI state, and the change is reported to `changed`.
    pub fn do_update<C: Fn(())>(&mut self, value: R, changed: &C)
        requires
            call_requires(*changed, ((),)),
        ensures
            final(self).raw_value == Some(value),
            opt_view(final(self).value_state) == Some(value@),
            final(self).initial_value == old(self).initial_value,
    {
        self.value_state = Some(value.duplicate());
        self.raw_value = Some(value);
        changed(());
    }
}

impl Field<String> {
    pub fn text(initial_value: String, value_state: Option<String>) -> (f: Self)
        ensures
            f.initial_value == Some(initial_value),
            f.value_state == value_state,
            f.raw_value is None,
    {
        Field { initial_value: Some(initial_value), value_state, raw_value: None }
    }
}

impl Field<bool> {
    pub fn checked(initial_value: bool, value_state: Option<bool>) -> (f: Self)
        ensures
            f.initial_value == Some(initial_value),
            f.value_state == value_state,
            f.raw_value is None,
    {
        Field { initial_value: Some(initial_value), value_state, raw_value: None }
    }
}

/// The text shown under an input: the error message, or a non-breaking space.
pub fn error_str(error: Option<String>) -> (r: String)
    ensures
        error matches Some(e) ==> r@ == e@,
        error is None ==> r@ == seq!['\u{a0}'],
{
    match error {
        Some(e) => e,
        None => {
            proof { reveal_strlit("\u{a0}"); }
            String::from_str("\u{a0}")
        },
    }
}

/// Once a value is entered, the input shows it and counts as changed.
pub proof fn law_entered_value_shown<R: FieldValue>(f: Field<R>, value: R, has_errors: bool)
    ensures
        (Field { raw_value: Some(value), ..f }).spec_raw() == value@,
        (Field { raw_value: Some(value), ..f }).spec_dirty(has_errors),
{
}

} // verus!
