//! Deferred, composable units of work over a shared environment.
//!
//! A [`Task`] wraps a single-use computation from an environment to a
//! `Result`.  Tasks are assembled declaratively (with `join`, `map`,
//! `sequence` and `serialize`) and executed exactly once, at the point
//! where the environment finally exists.

use vstd::prelude::*;

verus! {

/// An environment that can be handed to several composed tasks.
///
/// Implementors promise that `duplicate` yields a value equal to the
/// original, as a shared handle is: duplicating copies the handle, not
/// the data behind it.
pub trait Environment: Sized {
    /// Produce a second handle to the same environment.
    fn duplicate(&self) -> (r: Self)
        ensures
            r == *self;
}

impl Environment for u64 {
    fn duplicate(&self) -> (r: u64)
        ensures
            r == *self,
    {
        *self
    }
}

/// A one-shot computation from an environment to a result.
///
/// `Ret` is what the computation produces, `Args` the environment it
/// consumes, `E` its error, and `F` the wrapped computation itself.
pub struct Task<Ret, Args, E, F> {
    /// The wrapped computation; contracts speak of it through
    /// `call_requires` and `call_ensures`.
    pub function: F,
    /// Marks the result, environment and error types as part of the
    /// task's type.
    pub shape: core::marker::PhantomData<(Ret, Args, E)>,
}

impl<Ret, Args, E, F> Task<Ret, Args, E, F> where F: FnOnce(Args) -> Result<Ret, E> {
    /// Wrap a single computation step; nothing runs until `execute`.
    pub fn new(f: F) -> (t: Self)
        ensures
            t.function == f,
    {
        Task { function: f, shape: core::marker::PhantomData }
    }

    /// Run the wrapped computation, exactly once.
    pub fn execute(self, args: Args) -> (r: Result<Ret, E>)
        requires
            call_requires(self.function, (args,)),
        ensures
            call_ensures(self.function, (args,), r),
    {
        (self.function)(args)
    }

    /// Chain two tasks and combine their results.
    ///
    /// The combined task first runs `self` on a duplicate of the
    /// environment; an error there is returned at once and `other` is
    /// never run.  Otherwise it runs `other` on the environment, and on
    /// success hands the pair of results to `map`.
    pub fn join<OtherRet, NewRet, G, M>(self, other: Task<OtherRet, Args, E, G>, map: M) -> (t:
        Task<NewRet, Args, E, impl FnOnce(Args) -> Result<NewRet, E>>) where
        Args: Environment,
        G: FnOnce(Args) -> Result<OtherRet, E>,
        M: FnOnce((Ret, OtherRet)) -> NewRet,

        requires
            forall|a: Args| call_requires(self.function, (a,)),
            forall|a: Args| call_requires(other.function, (a,)),
            forall|p: (Ret, OtherRet)| call_requires(map, (p,)),
        ensures
            forall|a: Args| call_requires(t.function, (a,)),
            forall|a: Args, r: Result<NewRet, E>|
                call_ensures(t.function, (a,), r) ==> join_ensures(
                    self.function,
                    other.function,
                    map,
                    a,
                    r,
                ),
    {
        let f = self.function;
        let g = other.function;
        let run = move |args: Args| -> (r: Result<NewRet, E>)
            requires
                forall|a: Args| call_requires(f, (a,)),
                forall|a: Args| call_requires(g, (a,)),
                forall|p: (Ret, OtherRet)| call_requires(map, (p,)),
            ensures
                join_ensures(f, g, map, args, r),
            {
                let first = match f(args.duplicate()) {
                    Result::Ok(x) => x,
                    Result::Err(e) => {
                        return Result::Err(e);
                    },
                };
                let second = match g(args) {
                    Result::Ok(y) => y,
                    Result::Err(e) => {
                        return Result::Err(e);
                    },
                };
                let combined = map((first, second));
                Result::Ok(combined)
            };
        Task::new(run)
    }

    /// Run `self`, discard its result, then run `next` on the same
    /// environment; the first error wins and stops the chain.
    pub fn sequence<NewRet, G>(self, next: Task<NewRet, Args, E, G>) -> (t: Task<
        NewRet,
        Args,
        E,
        impl FnOnce(Args) -> Result<NewRet, E>,
    >) where Args: Environment, G: FnOnce(Args) -> Result<NewRet, E>
        requires
            forall|a: Args| call_requires(self.function, (a,)),
            forall|a: Args| call_requires(next.function, (a,)),
        ensures
            forall|a: Args| call_requires(t.function, (a,)),
            forall|a: Args, r: Result<NewRet, E>|
                call_ensures(t.function, (a,), r) ==> sequence_ensures(
                    self.function,
                    next.function,
                    a,
                    r,
                ),
    {
        let f = self.function;
        let g = next.function;
        let run = move |args: Args| -> (r: Result<NewRet, E>)
            requires
                forall|a: Args| call_requires(f, (a,)),
                forall|a: Args| call_requires(g, (a,)),
            ensures
                sequence_ensures(f, g, args, r),
            {
                match f(args.duplicate()) {
                    Result::Ok(_) => g(args),
                    Result::Err(e) => Result::Err(e),
                }
            };
        Task::new(run)
    }

    /// Run `self`, then hand its result together with the environment to
    /// `next`; the first error wins and stops the chain.
    pub fn serialize<OtherRet, G>(self, next: Task<OtherRet, (Ret, Args), E, G>) -> (t: Task<
        OtherRet,
        Args,
        E,
        impl FnOnce(Args) -> Result<OtherRet, E>,
    >) where Args: Environment, G: FnOnce((Ret, Args)) -> Result<OtherRet, E>
        requires
            forall|a: Args| call_requires(self.function, (a,)),
            forall|p: (Ret, Args)| call_requires(next.function, (p,)),
        ensures
            forall|a: Args| call_requires(t.function, (a,)),
            forall|a: Args, r: Result<OtherRet, E>|
                call_ensures(t.function, (a,), r) ==> serialize_ensures(
                    self.function,
                    next.function,
                    a,
                    r,
                ),
    {
        let f = self.function;
        let g = next.function;
        let run = move |args: Args| -> (r: Result<OtherRet, E>)
            requires
                forall|a: Args| call_requires(f, (a,)),
                forall|p: (Ret, Args)| call_requires(g, (p,)),
            ensures
                serialize_ensures(f, g, args, r),
            {
                match f(args.duplicate()) {
                    Result::Ok(x) => g((x, args)),
                    Result::Err(e) => Result::Err(e),
                }
            };
        Task::new(run)
    }

    /// Run `self`, then post-process a success with `other`, which also
    /// receives the environment; failure is passed along untouched.
    pub fn map<NewRet, M>(self, other: M) -> (t: Task<
        NewRet,
        Args,
        E,
        impl FnOnce(Args) -> Result<NewRet, E>,
    >) where Args: Environment, M: FnOnce(Ret, Args) -> Result<NewRet, E>
        requires
            forall|a: Args| call_requires(self.function, (a,)),
            forall|x: Ret, a: Args| call_requires(other, (x, a)),
        ensures
            forall|a: Args| call_requires(t.function, (a,)),
            forall|a: Args, r: Result<NewRet, E>|
                call_ensures(t.function, (a,), r) ==> map_ensures(self.function, other, a, r),
    {
        let f = self.function;
        let run = move |args: Args| -> (r: Result<NewRet, E>)
            requires
                forall|a: Args| call_requires(f, (a,)),
                forall|x: Ret, a: Args| call_requires(other, (x, a)),
            ensures
                map_ensures(f, other, args, r),
            {
                match f(args.duplicate()) {
                    Result::Ok(x) => other(x, args),
                    Result::Err(e) => Result::Err(e),
                }
            };
        Task::new(run)
    }
}

/// What a task built by [`Task::join`] may return on environment `args`:
/// a success combines a success of `f` and a success of `g`, and an
/// error is an error of `f`, or an error of `g` after `f` succeeded.
pub open spec fn join_ensures<Ret, OtherRet, NewRet, Args, E, F, G, M>(
    f: F,
    g: G,
    map: M,
    args: Args,
    r: Result<NewRet, E>,
) -> bool where
    F: FnOnce(Args) -> Result<Ret, E>,
    G: FnOnce(Args) -> Result<OtherRet, E>,
    M: FnOnce((Ret, OtherRet)) -> NewRet,
 {
    match r {
        Result::Ok(v) => exists|x: Ret, y: OtherRet|
            #[trigger] call_ensures(f, (args,), Result::Ok(x)) && #[trigger] call_ensures(
                g,
                (args,),
                Result::Ok(y),
            ) && call_ensures(map, ((x, y),), v),
        Result::Err(e) => call_ensures(f, (args,), Result::<Ret, E>::Err(e)) || (exists|x: Ret|
            #[trigger] call_ensures(f, (args,), Result::Ok(x)) && call_ensures(
                g,
                (args,),
                Result::<OtherRet, E>::Err(e),
            )),
    }
}

/// Law: when the first part of a join can only succeed, with result
/// `x`, the second can only succeed, with result `y`, and the combining
/// step turns `(x, y)` into `v` and nothing else, then executing the
/// joined task returns exactly `Ok(v)` — the join equals the
/// combination of the parts' results on the same environment.
///
/// `h` is the joined task's computation: `r` any result of running it
/// on `env`, as [`Task::join`]'s contract describes it.
pub proof fn lemma_join_combines<Ret, OtherRet, NewRet, Args, E, F, G, M, H>(
    f: F,
    g: G,
    m: M,
    h: H,
    env: Args,
    r: Result<NewRet, E>,
    x: Ret,
    y: OtherRet,
    v: NewRet,
) where
    F: FnOnce(Args) -> Result<Ret, E>,
    G: FnOnce(Args) -> Result<OtherRet, E>,
    M: FnOnce((Ret, OtherRet)) -> NewRet,
    H: FnOnce(Args) -> Result<NewRet, E>,

    requires
        forall|a: Args, rr: Result<NewRet, E>|
            call_ensures(h, (a,), rr) ==> join_ensures(f, g, m, a, rr),
        call_ensures(h, (env,), r),
        forall|rr: Result<Ret, E>| call_ensures(f, (env,), rr) ==> rr == Result::<Ret, E>::Ok(x),
        forall|rr: Result<OtherRet, E>|
            call_ensures(g, (env,), rr) ==> rr == Result::<OtherRet, E>::Ok(y),
        forall|vv: NewRet| call_ensures(m, ((x, y),), vv) ==> vv == v,
    ensures
        r == Result::<NewRet, E>::Ok(v),
{
    assert(join_ensures(f, g, m, env, r));
}

/// Law: when the first part of a join can only fail, with error `e`,
/// the joined task returns exactly that error — the combined result is
/// the first part's error, whatever the second part and the combining
/// step would do.
///
/// `h` is the joined task's computation: `r` any result of running it
/// on `env`, as [`Task::join`]'s contract describes it.
pub proof fn lemma_join_short_circuits<Ret, OtherRet, NewRet, Args, E, F, G, M, H>(
    f: F,
    g: G,
    m: M,
    h: H,
    env: Args,
    r: Result<NewRet, E>,
    e: E,
) where
    F: FnOnce(Args) -> Result<Ret, E>,
    G: FnOnce(Args) -> Result<OtherRet, E>,
    M: FnOnce((Ret, OtherRet)) -> NewRet,
    H: FnOnce(Args) -> Result<NewRet, E>,

    requires
        forall|a: Args, rr: Result<NewRet, E>|
            call_ensures(h, (a,), rr) ==> join_ensures(f, g, m, a, rr),
        call_ensures(h, (env,), r),
        forall|rr: Result<Ret, E>| call_ensures(f, (env,), rr) ==> rr == Result::<Ret, E>::Err(e),
    ensures
        r == Result::<NewRet, E>::Err(e),
{
    assert(join_ensures(f, g, m, env, r));
}

/// What a task built by [`Task::sequence`] may return on environment
/// `args`: a result of `g` after a success of `f`, or an error of `f`.
pub open spec fn sequence_ensures<Ret, NewRet, Args, E, F, G>(
    f: F,
    g: G,
    args: Args,
    r: Result<NewRet, E>,
) -> bool where F: FnOnce(Args) -> Result<Ret, E>, G: FnOnce(Args) -> Result<NewRet, E> {
    (exists|x: Ret| #[trigger] call_ensures(f, (args,), Result::Ok(x)) && call_ensures(
        g,
        (args,),
        r,
    )) || (r is Err && call_ensures(f, (args,), Result::<Ret, E>::Err(r->Err_0)))
}

/// What a task built by [`Task::serialize`] may return on environment
/// `args`: a result of `g` on a success of `f` paired with the
/// environment, or an error of `f`.
pub open spec fn serialize_ensures<Ret, OtherRet, Args, E, F, G>(
    f: F,
    g: G,
    args: Args,
    r: Result<OtherRet, E>,
) -> bool where F: FnOnce(Args) -> Result<Ret, E>, G: FnOnce((Ret, Args)) -> Result<OtherRet, E> {
    (exists|x: Ret| #[trigger] call_ensures(f, (args,), Result::Ok(x)) && call_ensures(
        g,
        ((x, args),),
        r,
    )) || (r is Err && call_ensures(f, (args,), Result::<Ret, E>::Err(r->Err_0)))
}

/// What a task built by [`Task::map`] may return on environment `args`:
/// a result of the post-processing step on a success of `f`, or an
/// error of `f`.
pub open spec fn map_ensures<Ret, NewRet, Args, E, F, M>(
    f: F,
    m: M,
    args: Args,
    r: Result<NewRet, E>,
) -> bool where F: FnOnce(Args) -> Result<Ret, E>, M: FnOnce(Ret, Args) -> Result<NewRet, E> {
    (exists|x: Ret| #[trigger] call_ensures(f, (args,), Result::Ok(x)) && call_ensures(
        m,
        (x, args),
        r,
    )) || (r is Err && call_ensures(f, (args,), Result::<Ret, E>::Err(r->Err_0)))
}

} // verus!
