//! Reducer-style state: a state that actions replace, and the handle through
//! which actions reach a store.
use vstd::prelude::*;

verus! {

/// A handle through which actions reach a store.
pub trait StoreHandle {
    type Action;

    fn dispatch(&self, action: Self::Action);
}

/// A state that actions turn into the next state.
pub trait Reducible2: Sized {
    type Action;

    spec fn spec_reduce(self, action: Self::Action) -> Self;

    fn reduce(self, action: Self::Action) -> (r: Self)
        ensures
            r == Self::spec_reduce(self, action),
    ;
}

/// A state holding a single value.
#[derive(Clone, Debug, Default, PartialEq)]
pub struct ValueState<S>(pub S);

/// The action on a value state: replace its value.
#[derive(Clone, Debug, PartialEq)]
pub enum ValueAction<S> {
    Update(S),
}

impl<S> ValueState<S> {
    pub fn new(value: S) -> (r: Self)
        ensures
            r.0 == value,
    {
        ValueState(value)
    }

    pub fn get(&self) -> (r: &S)
        ensures
            *r == self.0,
    {
        &self.0
    }
}

impl<S> Reducible2 for ValueState<S> {
    type Action = ValueAction<S>;

    open spec fn spec_reduce(self, action: ValueAction<S>) -> ValueState<S> {
        match action {
            ValueAction::Update(v) => ValueState(v),
        }
    }

    fn reduce(self, action: ValueAction<S>) -> (r: ValueState<S>) {
        match action {
            ValueAction::Update(v) => ValueState(v),
        }
    }
}

/// The value of a value state after an update is the value of the update, whatever
/// the value before.
pub proof fn law_update_replaces<S>(state: ValueState<S>, value: S)
    ensures
        state.spec_reduce(ValueAction::Update(value)).0 == value,
{
}

} // verus!
