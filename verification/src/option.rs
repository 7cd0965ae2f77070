//! Extra combinators for optional values.
//!
//! The combinators chain steps that only care whether a value is present
//! ([`OptionExt::then`], [`OptionExt::remap`], [`OptionExt::void`]) and lead back from
//! absence to presence ([`OptionExt::recover`], [`OptionExt::recover_with`]).
//!
//! Each combinator has a model: a spec function from the receiver and from what the
//! continuation yields to the value that comes out. The contracts say that the result
//! is the model applied to a value that the continuation may yield, and the proof
//! functions at the end of the file state how the models relate.

use vstd::prelude::*;

verus! {

/// `next` where `x` holds a value, nothing otherwise.
pub open spec fn followed_by<A, B>(x: Option<A>, next: Option<B>) -> Option<B> {
    match x {
        Some(_) => next,
        None => None,
    }
}

/// `x` with `b` in place of its payload.
pub open spec fn replaced<A, B>(x: Option<A>, b: B) -> Option<B> {
    match x {
        Some(_) => Some(b),
        None => None,
    }
}

/// `x` with the unit value in place of its payload.
pub open spec fn voided<A>(x: Option<A>) -> Option<()> {
    match x {
        Some(_) => Some(()),
        None => None,
    }
}

/// `x` where it holds a value, `fallback` otherwise.
pub open spec fn or_fallback<A>(x: Option<A>, fallback: Option<A>) -> Option<A> {
    match x {
        Some(a) => Some(a),
        None => fallback,
    }
}

/// `x` where it holds a value, `Some(a)` otherwise.
pub open spec fn or_value<A>(x: Option<A>, a: A) -> Option<A> {
    match x {
        Some(v) => Some(v),
        None => Some(a),
    }
}

/// Extension with a set of extra combinators for `Option<A>`.
///
/// A continuation is run at most once, and only on the side of the receiver that its
/// combinator names: a contract asks that it can be called on that side alone, so on
/// the other side no call of it verifies.
pub trait OptionExt<A>: Sized {
    /// The optional value that `self` is.
    spec fn as_option(self) -> Option<A>;

    /// Applies `f`, yielding yet another option, if `Some(x)`; otherwise propagates `None`.
    ///
    /// The payload is dropped: `f` neither sees nor needs it.
    fn then<F, B>(self, f: F) -> (out: Option<B>) where F: FnOnce() -> Option<B>
        requires
            self.as_option() is Some ==> f.requires(()),
        ensures
            exists|next: Option<B>|
                out == #[trigger] followed_by(self.as_option(), next) && (self.as_option() is Some
                    ==> f.ensures((), next)),
    ;

    /// Applies `f`, yielding a value that is wrapped into another option, if `Some(x)`;
    /// otherwise propagates `None`.
    ///
    /// This is `then` with a continuation that always yields a value.
    fn remap<F, B>(self, f: F) -> (out: Option<B>) where F: FnOnce() -> B
        requires
            self.as_option() is Some ==> f.requires(()),
        ensures
            exists|b: B|
                out == #[trigger] replaced(self.as_option(), b) && (self.as_option() is Some
                    ==> f.ensures((), b)),
    ;

    /// Replaces whatever value of type `A` in `Option<A>` with a unit.
    fn void(self) -> (out: Option<()>)
        ensures
            out == voided(self.as_option()),
    {
        self.remap(|| ())
    }

    /// Runs `f` with a reference to `A` when `Some(a)`, and passes `self` through.
    fn inspect<F>(self, f: F) -> (out: Option<A>) where F: FnOnce(&A)
        requires
            self.as_option() matches Some(a) ==> f.requires((&a,)),
        ensures
            out == self.as_option(),
            self.as_option() matches Some(a) ==> f.ensures((&a,), ()),
    ;

    /// Recovers from an absent value with a total function.
    fn recover<F>(self, f: F) -> (out: Option<A>) where F: FnOnce() -> A
        requires
            self.as_option() is None ==> f.requires(()),
        ensures
            exists|a: A|
                out == #[trigger] or_value(self.as_option(), a) && (self.as_option() is None
                    ==> f.ensures((), a)),
    {
        let ghost x = self.as_option();
        let wrapped = || -> (r: Option<A>)
            requires
                f.requires(()),
            ensures
                r matches Some(a) && f.ensures((), a),
            { Some(f()) };
        let out = self.recover_with(wrapped);
        proof {
            assert(out == or_value(x, out->Some_0));
        }
        out
    }

    /// Recovers from an absent value with a partial function: the recovery may itself
    /// yield `None`.
    fn recover_with<F>(self, f: F) -> (out: Option<A>) where F: FnOnce() -> Option<A>
        requires
            self.as_option() is None ==> f.requires(()),
        ensures
            exists|fallback: Option<A>|
                out == #[trigger] or_fallback(self.as_option(), fallback) && (self.as_option() is None
                    ==> f.ensures((), fallback)),
    ;
}

impl<A> OptionExt<A> for Option<A> {
    open spec fn as_option(self) -> Option<A> {
        self
    }

    fn then<F, B>(self, f: F) -> (out: Option<B>) where F: FnOnce() -> Option<B> {
        let out = match self {
            Some(_) => f(),
            None => None,
        };
        assert(out == followed_by(self, out));
        out
    }

    fn remap<F, B>(self, f: F) -> (out: Option<B>) where F: FnOnce() -> B {
        match self {
            Some(_) => {
                let b = f();
                assert(Some(b) == replaced(self, b));
                Some(b)
            },
            None => {
                assert(None::<B> == replaced(self, arbitrary::<B>()));
                None
            },
        }
    }

    fn inspect<F>(self, f: F) -> (out: Option<A>) where F: FnOnce(&A) {
        match self {
            Some(a) => {
                f(&a);
                Some(a)
            },
            None => None,
        }
    }

    fn recover_with<F>(self, f: F) -> (out: Option<A>) where F: FnOnce() -> Option<A> {
        let out = match self {
            Some(a) => Some(a),
            None => f(),
        };
        assert(out == or_fallback(self, out));
        out
    }
}

/// Absence is absorbing under `then`: whatever the continuation would yield, nothing
/// stays nothing. A present value hands over to the continuation.
pub proof fn then_short_circuits<A, B>(a: A, next: Option<B>)
    ensures
        followed_by(None::<A>, next) == None::<B>,
        followed_by(Some(a), next) == next,
{
}

/// `remap` is `then` with a continuation that wraps its value in `Some`, and `void` is
/// `remap` with the unit value.
pub proof fn remap_is_then<A, B>(x: Option<A>, b: B)
    ensures
        replaced(x, b) == followed_by(x, Some(b)),
        voided(x) == replaced(x, ()),
{
}

/// Discarding a payload that is already the unit value changes nothing, and discarding
/// never changes whether a value is present.
pub proof fn void_is_idempotent<A>(x: Option<A>)
    ensures
        voided(voided(x)) == voided(x),
        voided(x) is Some <==> x is Some,
{
}

/// Recovery leaves a present value as it is, whatever the fallback would yield, and
/// takes the fallback where the value is absent. `recover` is `recover_with` with a
/// fallback that wraps its value in `Some`, so it always ends with a value.
pub proof fn recovery_keeps_present<A>(x: Option<A>, a: A, fallback: Option<A>)
    ensures
        or_fallback(Some(a), fallback) == Some(a),
        or_fallback(None, fallback) == fallback,
        or_value(x, a) == or_fallback(x, Some(a)),
        or_value(x, a) is Some,
{
}

} // verus!
