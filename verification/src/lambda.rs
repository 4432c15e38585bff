//! Shared closures: a closure that can be called many times, or one that can be
//! called once, behind a reference-counted handle that clones cheaply.
use std::marker::PhantomData;
use std::rc::Rc;
use vstd::cell::invcell::InvCell;
use vstd::predicate::Predicate;
use vstd::prelude::*;

verus! {

/// The content a once-closure's cell may hold: the closure it was made with, until
/// that is taken.
pub struct OnceSlot<G> {
    pub func: G,
}

impl<G> Predicate<Option<G>> for OnceSlot<G> {
    open spec fn predicate(&self, v: Option<G>) -> bool {
        v matches Some(g) ==> g == self.func
    }
}

/// A closure wrapper: `Lambda` holds a closure that can be called many times,
/// `LambdaOnce` one that can be called once. Clones share the closure.
pub enum Lambda<IN, OUT, F, G> {
    Lambda(Rc<F>, PhantomData<(IN, OUT)>),
    LambdaOnce(Rc<InvCell<Option<G>, OnceSlot<G>>>),
}

impl<IN, OUT, F: Fn(IN) -> OUT, G: FnOnce(IN) -> OUT> Lambda<IN, OUT, F, G> {
    /// The closure accepts `value`.
    pub open spec fn accepts(&self, value: IN) -> bool {
        match self {
            Lambda::Lambda(f, _) => call_requires(**f, (value,)),
            Lambda::LambdaOnce(c) => call_requires(c.predicate().func, (value,)),
        }
    }

    /// The closure may give `out` for `value`.
    pub open spec fn gives(&self, value: IN, out: OUT) -> bool {
        match self {
            Lambda::Lambda(f, _) => call_ensures(**f, (value,), out),
            Lambda::LambdaOnce(c) => call_ensures(c.predicate().func, (value,), out),
        }
    }

    /// A wrapper of a closure that can be called many times.
    pub fn from_fn(func: F) -> (l: Self)
        ensures
            l matches Lambda::Lambda(f, _) && *f == func,
    {
        Lambda::Lambda(Rc::new(func), PhantomData)
    }

    /// A wrapper of a closure that can be called once.
    pub fn once(func: G) -> (l: Self)
        ensures
            l matches Lambda::LambdaOnce(c) && c.predicate().func == func,
    {
        Lambda::LambdaOnce(Rc::new(InvCell::new(Some(func), Ghost(OnceSlot { func }))))
    }

    /// Calls the closure. A once-closure that this wrapper or a clone of it has already
    /// called gives `None` and runs nothing: this library does not panic. Whether a
    /// call is the first on a once-closure is state that its clones share in a cell,
    /// and the contract does not follow it: it promises `Some` only for a closure that
    /// can be called many times, and says of a once-closure's output only that the
    /// closure may give it.
    pub fn call(&self, value: IN) -> (out: Option<OUT>)
        requires
            self.accepts(value),
        ensures
            self is Lambda ==> out is Some,
            out matches Some(o) ==> self.gives(value, o),
    {
        match self {
            Lambda::Lambda(cb, _) => Some((**cb)(value)),
            Lambda::LambdaOnce(rc) => {
                let cb = (**rc).replace(None);
                match cb {
                    Some(f) => Some(f(value)),
                    None => None,
                }
            },
        }
    }

    /// A wrapper sharing the closure of this one.
    pub fn duplicate(&self) -> (r: Self)
        ensures
            r == *self,
    {
        match self {
            Lambda::Lambda(cb, _) => Lambda::Lambda(Rc::clone(cb), PhantomData),
            Lambda::LambdaOnce(cb) => Lambda::LambdaOnce(Rc::clone(cb)),
        }
    }
}

impl<IN, OUT, F: Fn(IN) -> OUT, G: FnOnce(IN) -> OUT> Lambda<IN, OUT, F, G> {
    /// A wrapper that passes its input through `map_input`, calls this closure, and
    /// passes the output through `map_output`; it gives nothing where this closure, a
    /// once-closure already called, gives nothing.
    pub fn reform<FI, FO, A, R>(&self, map_input: FI, map_output: FO) -> (l: Lambda<
        A,
        Option<R>,
        impl Fn(A) -> Option<R>,
        impl FnOnce(A) -> Option<R>,
    >) where FI: Fn(A) -> IN, FO: Fn(OUT) -> R
        requires
            forall|a: A| call_requires(map_input, (a,)),
            forall|a: A, x: IN| call_ensures(map_input, (a,), x) ==> self.accepts(x),
            forall|o: OUT| call_requires(map_output, (o,)),
        ensures
            l is Lambda,
            forall|a: A| l.accepts(a),
            *self is Lambda ==> forall|a: A, r: Option<R>| #[trigger] l.gives(a, r) ==> r is Some,
            forall|a: A, r: Option<R>|
                l.gives(a, r) ==> (r matches Some(y) ==> exists|x: IN, o: OUT|
                    call_ensures(map_input, (a,), x) && self.gives(x, o) && call_ensures(
                        map_output,
                        (o,),
                        y,
                    )),
    {
        let this = self.duplicate();
        let ghost orig = *self;
        let ghost many: bool = *self is Lambda;
        let ghost mi = map_input;
        let ghost mo = map_output;
        let func = move |input: A| -> (r: Option<R>)
            ensures
                many ==> r is Some,
                r matches Some(y) ==> exists|x: IN, o: OUT|
                    call_ensures(&mi, (input,), x) && orig.gives(x, o) && call_ensures(
                        &mo,
                        (o,),
                        y,
                    ),
            {
                let x = (&map_input)(input);
                match this.call(x) {
                    Some(o) => Some((&map_output)(o)),
                    None => None,
                }
            };
        shared(func)
    }
}

/// A wrapper of a closure that can be called many times, whose once-variant holds
/// the same closure type.
pub fn shared<IN, OUT, C: Fn(IN) -> OUT>(func: C) -> (l: Lambda<IN, OUT, C, C>)
    ensures
        l matches Lambda::Lambda(f, _) && *f == func,
{
    Lambda::Lambda(Rc::new(func), PhantomData)
}

impl<IN, OUT: Default, F, G> Lambda<IN, OUT, F, G> {
    /// A wrapper of a closure that gives the default output for every input.
    pub fn noop() -> (l: Lambda<IN, OUT, impl Fn(IN) -> OUT, impl FnOnce(IN) -> OUT>)
        ensures
            l is Lambda,
            forall|x: IN| l.accepts(x),
            forall|x: IN, o: OUT| #[trigger] l.gives(x, o) ==> call_ensures(OUT::default, (), o),
    {
        let func = |_x: IN| -> (o: OUT)
            ensures
                call_ensures(OUT::default, (), o),
            { OUT::default() };
        shared(func)
    }
}

} // verus!
