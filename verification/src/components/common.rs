//! Shared state of the configuration screens: data that loads from the device,
//! data the user edits, optional values and text inputs bound to a model.
use std::marker::PhantomData;
use vstd::prelude::*;

use vstd::string::*;

use crate::edge::field::opt_view;
use crate::text::{str_eq, trim, trimmed};

verus! {

/// Data fetched from the device: not asked for yet, being fetched (with the data of
/// an earlier fetch, if any), or fetched.
pub enum Loadable<T> {
    Not,
    Loading(Option<T>),
    Loaded(T),
}

/// The data that a loadable holds, whether or not a fetch is under way.
pub open spec fn loadable_data<T>(l: Loadable<T>) -> Option<T> {
    match l {
        Loadable::Loaded(d) => Some(d),
        Loadable::Loading(Some(d)) => Some(d),
        _ => None,
    }
}

/// The state after a fetch starts.
pub open spec fn loadable_loading<T>(l: Loadable<T>) -> Loadable<T> {
    match l {
        Loadable::Not => Loadable::Loading(None),
        Loadable::Loaded(d) => Loadable::Loading(Some(d)),
        other => other,
    }
}

/// The state after a fetch ends with `result`: its data, or, on failure, the data of
/// the earlier fetch, if one was kept.
pub open spec fn loadable_loaded_result<T, E>(l: Loadable<T>, result: Result<T, E>) -> Loadable<T> {
    match result {
        Ok(d) => Loadable::Loaded(d),
        Err(_) => match l {
            Loadable::Loading(Some(d)) => Loadable::Loaded(d),
            other => other,
        },
    }
}

impl<T> Loadable<T> {
    /// Whether data is at hand.
    pub fn is_loaded(&self) -> (r: bool)
        ensures
            r == loadable_data(*self) is Some,
    {
        match self {
            Loadable::Loaded(_) | Loadable::Loading(Some(_)) => true,
            _ => false,
        }
    }

    /// Whether a fetch is under way.
    pub fn is_loading(&self) -> (r: bool)
        ensures
            r == *self is Loading,
    {
        match self {
            Loadable::Loading(_) => true,
            _ => false,
        }
    }

    /// Records that a fetch started, keeping the data at hand.
    pub fn loading(&mut self)
        ensures
            *final(self) == loadable_loading(*old(self)),
    {
        let mut old_self = Loadable::Not;
        std::mem::swap(self, &mut old_self);
        match old_self {
            Loadable::Not => *self = Loadable::Loading(None),
            Loadable::Loaded(data) => *self = Loadable::Loading(Some(data)),
            other => *self = other,
        }
    }

    /// Records fetched data.
    pub fn loaded(&mut self, data: T)
        ensures
            *final(self) == Loadable::Loaded(data),
    {
        *self = Loadable::Loaded(data)
    }

    /// Records how a fetch ended.
    pub fn loaded_result<E>(&mut self, result: Result<T, E>)
        ensures
            *final(self) == loadable_loaded_result(*old(self), result),
    {
        match result {
            Ok(data) => *self = Loadable::Loaded(data),
            Err(_) => {
                let mut old_self = Loadable::Not;
                std::mem::swap(self, &mut old_self);
                match old_self {
                    Loadable::Loading(Some(data)) => *self = Loadable::Loaded(data),
                    other => *self = other,
                }
            },
        }
    }

    /// The data at hand.
    pub fn data_ref(&self) -> (r: Option<&T>)
        ensures
            match loadable_data(*self) {
                Some(d) => r == Some(&d),
                None => r is None,
            },
    {
        match self {
            Loadable::Loaded(data) => Some(data),
            Loadable::Loading(Some(data)) => Some(data),
            _ => None,
        }
    }

    /// The data at hand, to change in place.
    pub fn try_data_mut(&mut self) -> (r: Option<&mut T>)
        ensures
            match *old(self) {
                Loadable::Loaded(d) => (r matches Some(m) && *m == d && *final(self)
                    == Loadable::Loaded(*final(m))),
                Loadable::Loading(Some(d)) => (r matches Some(m) && *m == d && *final(self)
                    == Loadable::Loading(Some(*final(m)))),
                _ => r is None && *final(self) == *old(self),
            },
    {
        match self {
            Loadable::Loaded(data) => Some(data),
            Loadable::Loading(Some(data)) => Some(data),
            _ => None,
        }
    }

    /// The data at hand, to change in place; there must be data.
    pub fn data_mut(&mut self) -> (r: &mut T)
        requires
            loadable_data(*old(self)) is Some,
        ensures
            *r == loadable_data(*old(self))->0,
            *final(self) == match *old(self) {
                Loadable::Loaded(_) => Loadable::Loaded(*final(r)),
                _ => Loadable::Loading(Some(*final(r))),
            },
    {
        match self {
            Loadable::Loaded(data) => data,
            Loadable::Loading(Some(data)) => data,
            _ => vstd::pervasive::unreached(),
        }
    }
}

impl<T> Default for Loadable<T> {
    fn default() -> (r: Self)
        ensures
            r is Not,
    {
        Loadable::Not
    }
}

/// A failed fetch keeps the data of the one before it, and a fetch that succeeds
/// makes its data the data at hand.
pub proof fn law_loading_keeps_data<T, E>(l: Loadable<T>, d: T, e: E)
    ensures
        loadable_data(loadable_loading(l)) == loadable_data(l),
        loadable_data(loadable_loaded_result(loadable_loading(l), Err::<T, E>(e)))
            == loadable_data(l),
        loadable_loaded_result(loadable_loading(l), Ok::<T, E>(d)) == Loadable::<T>::Loaded(d),
{
}

/// Data the user edits, with a mark that it was handed out for change.
pub struct Editable<T> {
    changed: bool,
    data: T,
}

impl<T> Editable<T> {
    pub closed spec fn spec_changed(&self) -> bool {
        self.changed
    }

    pub closed spec fn spec_data(&self) -> T {
        self.data
    }

    /// Unchanged data.
    pub fn new(data: T) -> (r: Self)
        ensures
            r.spec_data() == data,
            !r.spec_changed(),
    {
        Editable { changed: false, data }
    }

    pub fn get(self) -> (r: T)
        ensures
            r == self.spec_data(),
    {
        self.data
    }

    pub fn is_changed(&self) -> (r: bool)
        ensures
            r == self.spec_changed(),
    {
        self.changed
    }

    pub fn as_ref(&self) -> (r: &T)
        ensures
            *r == self.spec_data(),
    {
        &self.data
    }

    /// The data, to change in place; from here on the data counts as changed.
    pub fn as_mut(&mut self) -> (r: &mut T)
        ensures
            *r == old(self).spec_data(),
            final(self).spec_data() == *final(r),
            final(self).spec_changed(),
    {
        self.changed = true;
        &mut self.data
    }
}

/// A value that may be absent; its text is empty when it is.
pub struct Optional<T>(pub Option<T>);

impl<T> Optional<T> {
    pub fn new(v: Option<T>) -> (r: Self)
        ensures
            r.0 == v,
    {
        Optional(v)
    }

    pub fn into_option(self) -> (r: Option<T>)
        ensures
            r == self.0,
    {
        self.0
    }

    /// Reads an optional value from text: blank text is no value, other text is
    /// trimmed and read by `parse`.
    pub fn parse_with<E, P: Fn(&str) -> Result<T, E>>(s: &str, parse: &P) -> (r: Result<
        Self,
        E,
    >)
        requires
            forall|t: &str| call_requires(*parse, (t,)),
        ensures
            trimmed(s@).len() == 0 ==> (r matches Ok(o) && o.0 is None),
            trimmed(s@).len() != 0 ==> exists|w: &str, res: Result<T, E>|
                w@ == trimmed(s@) && call_ensures(*parse, (w,), res) && match res {
                    Ok(v) => (r matches Ok(o) && o.0 == Some(v)),
                    Err(e) => r == Err::<Self, E>(e),
                },
    {
        let t = trim(s);
        if t.unicode_len() == 0 {
            Ok(Optional(None))
        } else {
            match parse(t) {
                Ok(v) => Ok(Optional(Some(v))),
                Err(e) => Err(e),
            }
        }
    }

    /// The text of the value: empty when it is absent, else what `show` writes.
    pub fn to_text<S: Fn(&T) -> String>(&self, show: &S) -> (r: String)
        requires
            forall|v: &T| call_requires(*show, (v,)),
        ensures
            self.0 is None ==> r@ == Seq::<char>::empty(),
            self.0 matches Some(v) ==> call_ensures(*show, (&v,), r),
    {
        match &self.0 {
            None => String::new(),
            Some(v) => show(v),
        }
    }
}

/// A value a text input holds: how text reads as one, and how one is written.
pub trait FieldText: View + Sized {
    /// The value that a text reads as, if it reads as one.
    spec fn spec_read(s: Seq<char>) -> Option<Self::V>;

    /// The text of a value.
    spec fn spec_write(v: Self::V) -> Seq<char>;

    fn read(s: &str) -> (r: Option<Self>)
        ensures
            opt_view(r) == Self::spec_read(s@),
    ;

    fn write(&self) -> (r: String)
        ensures
            r@ == Self::spec_write(self@),
    ;
}

impl FieldText for String {
    open spec fn spec_read(s: Seq<char>) -> Option<Seq<char>> {
        Some(s)
    }

    open spec fn spec_write(v: Seq<char>) -> Seq<char> {
        v
    }

    fn read(s: &str) -> (r: Option<Self>) {
        Some(s.to_string())
    }

    fn write(&self) -> (r: String) {
        self.clone()
    }
}

/// The message of an input whose text reads as no value.
pub open spec fn invalid_format() -> Seq<char> {
    "Invalid format"@
}

/// What an input makes of a text: the value of the trimmed text.
pub open spec fn field_read<T: FieldText>(s: Seq<char>) -> Option<T::V> {
    T::spec_read(trimmed(s))
}

/// The shown text of an input and the error of its last edit.
pub struct FieldView {
    pub text: Seq<char>,
    pub error: Option<Seq<char>>,
}

/// An input after it shows a model's value.
pub open spec fn field_loaded<T: FieldText>(value: Option<T::V>) -> FieldView {
    FieldView {
        text: match value {
            Some(v) => T::spec_write(v),
            None => Seq::empty(),
        },
        error: None,
    }
}

/// An input after an edit to `value`: unchanged when the trimmed text is the shown
/// one, else showing the trimmed text, in error when it reads as no value.
pub open spec fn field_updated<T: FieldText>(f: FieldView, value: Seq<char>) -> FieldView {
    let t = trimmed(value);
    if t == f.text {
        f
    } else {
        FieldView {
            text: t,
            error: if field_read::<T>(t) is Some {
                None
            } else {
                Some(invalid_format())
            },
        }
    }
}

/// The value an edit hands to the model: the one the new text reads as, and nothing
/// when the text did not change.
pub open spec fn field_update_value<T: FieldText>(f: FieldView, value: Seq<char>) -> Option<
    T::V,
> {
    let t = trimmed(value);
    if t == f.text {
        None
    } else {
        field_read::<T>(t)
    }
}

/// A text input bound to a model: the text shown and the error of the last edit.
/// The model's value comes in by `load`; a value read from an edit goes back to the
/// model as the result of `update`.
pub struct Field<T> {
    string: String,
    error: Option<String>,
    marker: PhantomData<T>,
}

impl<T: FieldText> View for Field<T> {
    type V = FieldView;

    closed spec fn view(&self) -> FieldView {
        FieldView {
            text: self.string@,
            error: match self.error {
                Some(e) => Some(e@),
                None => None,
            },
        }
    }
}

impl<T: FieldText> Default for Field<T> {
    fn default() -> (r: Self)
        ensures
            r@ == (FieldView { text: Seq::empty(), error: None }),
    {
        Field { string: String::new(), error: None, marker: PhantomData }
    }
}

impl<T: FieldText> Field<T> {
    fn parse(s: &str) -> (r: Option<T>)
        ensures
            opt_view(r) == field_read::<T>(s@),
    {
        T::read(trim(s))
    }

    /// Shows the model's value, or empty text where it has none; clears the error.
    pub fn load(&mut self, value: Option<T>)
        ensures
            final(self)@ == field_loaded::<T>(opt_view(value)),
    {
        self.error = None;
        self.string = match value {
            None => String::new(),
            Some(d) => d.write(),
        };
    }

    /// Takes an edit, as `field_updated` describes, and returns the value for the
    /// model, as `field_update_value` describes.
    pub fn update(&mut self, value: &str) -> (r: Option<T>)
        ensures
            final(self)@ == field_updated::<T>(old(self)@, value@),
            opt_view(r) == field_update_value::<T>(old(self)@, value@),
    {
        let value = trim(value);
        if str_eq(self.string.as_str(), value) {
            None
        } else {
            self.string = value.to_string();
            match Self::parse(value) {
                Some(data) => {
                    self.error = None;
                    Some(data)
                },
                None => {
                    proof { reveal_strlit("Invalid format"); }
                    self.error = Some(String::from_str("Invalid format"));
                    None
                },
            }
        }
    }

    /// Whether an edit to `value` would hand a value to the model.
    pub fn update_gives_value(&self, value: &str) -> (r: bool)
        ensures
            r == field_update_value::<T>(self@, value@) is Some,
    {
        let value = trim(value);
        if str_eq(self.string.as_str(), value) {
            false
        } else {
            Self::parse(value).is_some()
        }
    }

    pub fn get_value_str(&self) -> (r: &str)
        ensures
            r@ == self@.text,
    {
        self.string.as_str()
    }

    pub fn update_value(&self) -> (r: &str)
        ensures
            r@ == self@.text,
    {
        self.string.as_str()
    }

    /// The value the shown text reads as.
    pub fn get_value(&self) -> (r: Option<T>)
        ensures
            opt_view(r) == field_read::<T>(self@.text),
    {
        Self::parse(self.string.as_str())
    }

    pub fn is_valid(&self) -> (r: bool)
        ensures
            r == self@.error is None,
    {
        self.error.is_none()
    }

    pub fn get_error(&self) -> (r: Option<String>)
        ensures
            opt_view(r) == self@.error,
    {
        match &self.error {
            Some(e) => Some(e.clone()),
            None => None,
        }
    }

    /// The error, or empty text.
    pub fn get_error_str(&self) -> (r: String)
        ensures
            r@ == match self@.error {
                Some(e) => e,
                None => Seq::<char>::empty(),
            },
    {
        match &self.error {
            Some(e) => e.clone(),
            None => String::new(),
        }
    }
}

} // verus!
