//! Shared callbacks for components: a closure that can be called many times, or
//! one that can be called once, behind a reference-counted handle.
use std::marker::PhantomData;
use std::rc::Rc;
use vstd::cell::invcell::InvCell;
use vstd::prelude::*;
use crate::lambda::OnceSlot;

verus! {

/// A closure wrapper: `Callback2` holds a closure that can be called many times,
/// `Callback2Once` one that can be called once. Clones share the closure.
pub enum Callback2<IN, OUT, F, G> {
    Callback2(Rc<F>, PhantomData<(IN, OUT)>),
    Callback2Once(Rc<InvCell<Option<G>, OnceSlot<G>>>),
}

impl<IN, OUT, F: Fn(IN) -> OUT, G: FnOnce(IN) -> OUT> Callback2<IN, OUT, F, G> {
    /// The closure accepts `value`.
    pub open spec fn accepts(&self, value: IN) -> bool {
        match self {
            Callback2::Callback2(f, _) => call_requires(**f, (value,)),
            Callback2::Callback2Once(c) => call_requires(c.predicate().func, (value,)),
        }
    }

    /// The closure may give `out` for `value`.
    pub open spec fn gives(&self, value: IN, out: OUT) -> bool {
        match self {
            Callback2::Callback2(f, _) => call_ensures(**f, (value,), out),
            Callback2::Callback2Once(c) => call_ensures(c.predicate().func, (value,), out),
        }
    }

    /// A wrapper of a closure that can be called many times.
    pub fn from_fn(func: F) -> (l: Self)
        ensures
            l matches Callback2::Callback2(f, _) && *f == func,
    {
        Callback2::Callback2(Rc::new(func), PhantomData)
    }

    /// A wrapper of a closure that can be called once.
    pub fn once(func: G) -> (l: Self)
        ensures
            l matches Callback2::Callback2Once(c) && c.predicate().func == func,
    {
        Callback2::Callback2Once(Rc::new(InvCell::new(Some(func), Ghost(OnceSlot { func }))))
    }

    /// Calls the closure. A once-closure that this wrapper or a clone of it has already
    /// called gives `None` and runs nothing: this library does not panic. Whether a
    /// call is the first on a once-closure is state that its clones share in a cell,
    /// and the contract does not follow it: it promises `Some` only for a closure that
    /// can be called many times, and says of a once-closure's output only that the
    /// closure may give it.
    pub fn call(&self, value: IN) -> (out: Option<OUT>)
        requires
            self.accepts(value),
        ensures
            self is Callback2 ==> out is Some,
            out matches Some(o) ==> self.gives(value, o),
    {
        match self {
            Callback2::Callback2(cb, _) => Some((**cb)(value)),
            Callback2::Callback2Once(rc) => {
                let cb = (**rc).replace(None);
                match cb {
                    Some(f) => Some(f(value)),
                    None => None,
                }
            },
        }
    }

    /// A wrapper sharing the closure of this one.
    pub fn duplicate(&self) -> (r: Self)
        ensures
            r == *self,
    {
        match self {
            Callback2::Callback2(cb, _) => Callback2::Callback2(Rc::clone(cb), PhantomData),
            Callback2::Callback2Once(cb) => Callback2::Callback2Once(Rc::clone(cb)),
        }
    }
}

impl<IN, OUT, F: Fn(IN) -> OUT, G: FnOnce(IN) -> OUT> Callback2<IN, OUT, F, G> {
    /// A wrapper that passes its input through `map_input`, calls this closure, and
    /// passes the output through `map_output`; it gives nothing where this closure, a
    /// once-closure already called, gives nothing.
    pub fn reform<FI, FO, A, R>(&self, map_input: FI, map_output: FO) -> (l: Callback2<
        A,
        Option<R>,
        impl Fn(A) -> Option<R>,
        impl FnOnce(A) -> Option<R>,
    >) where FI: Fn(A) -> IN, FO: Fn(OUT) -> R
        requires
            forall|a: A| call_requires(map_input, (a,)),
            forall|a: A, x: IN| call_ensures(map_input, (a,), x) ==> self.accepts(x),
            forall|o: OUT| call_requires(map_output, (o,)),
        ensures
            l is Callback2,
            forall|a: A| l.accepts(a),
            *self is Callback2 ==> forall|a: A, r: Option<R>| #[trigger] l.gives(a, r) ==> r is Some,
            forall|a: A, r: Option<R>|
                l.gives(a, r) ==> (r matches Some(y) ==> exists|x: IN, o: OUT|
                    call_ensures(map_input, (a,), x) && self.gives(x, o) && call_ensures(
                        map_output,
                        (o,),
                        y,
                    )),
    {
        let this = self.duplicate();
        let ghost orig = *self;
        let ghost many: bool = *self is Callback2;
        let ghost mi = map_input;
        let ghost mo = map_output;
        let func = move |input: A| -> (r: Option<R>)
            ensures
                many ==> r is Some,
                r matches Some(y) ==> exists|x: IN, o: OUT|
                    call_ensures(&mi, (input,), x) && orig.gives(x, o) && call_ensures(
                        &mo,
                        (o,),
                        y,
                    ),
            {
                let x = (&map_input)(input);
                match this.call(x) {
                    Some(o) => Some((&map_output)(o)),
                    None => None,
                }
            };
        shared(func)
    }
}

/// A wrapper of a closure that can be called many times, whose once-variant holds
/// the same closure type.
pub fn shared<IN, OUT, C: Fn(IN) -> OUT>(func: C) -> (l: Callback2<IN, OUT, C, C>)
    ensures
        l matches Callback2::Callback2(f, _) && *f == func,
{
    Callback2::Callback2(Rc::new(func), PhantomData)
}

impl<IN, OUT: Default, F, G> Callback2<IN, OUT, F, G> {
    /// A wrapper of a closure that gives the default output for every input.
    pub fn noop() -> (l: Callback2<IN, OUT, impl Fn(IN) -> OUT, impl FnOnce(IN) -> OUT>)
        ensures
            l is Callback2,
            forall|x: IN| l.accepts(x),
            forall|x: IN, o: OUT| #[trigger] l.gives(x, o) ==> call_ensures(OUT::default, (), o),
    {
        let func = |_x: IN| -> (o: OUT)
            ensures
                call_ensures(OUT::default, (), o),
            { OUT::default() };
        shared(func)
    }
}

} // verus!
