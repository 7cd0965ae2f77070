//! Extra combinators for results.
//!
//! The success channel and the failure channel mirror each other:
//! [`ResultExt::then`], [`ResultExt::remap`] and [`ResultExt::void`] go on where the
//! receiver is a success, [`ResultExt::then_err`], [`ResultExt::remap_err`] and
//! [`ResultExt::void_err`] where it is a failure, and [`ResultExt::swap`] exchanges the
//! two. [`ResultExt::recover`] and [`ResultExt::recover_with`] hand the failure to a
//! function that leads back to success, [`Merge::merge`] unifies the two channels, and
//! [`IntoOk::into_ok`] and [`IntoErr::into_err`] lift a bare value into a result.
//!
//! Each combinator has a model: a spec function from the receiver and from what the
//! continuation yields to the value that comes out. The contracts say that the result
//! is the model applied to a value that the continuation may yield, and the proof
//! functions at the end of the file state how the models relate.

use vstd::prelude::*;
use vstd::std_specs::convert::FromSpec;

verus! {

/// `next` where `x` is a success, the failure of `x` otherwise.
pub open spec fn followed_by<A, B, E>(x: Result<A, E>, next: Result<B, E>) -> Result<B, E> {
    match x {
        Ok(_) => next,
        Err(e) => Err(e),
    }
}

/// `x` with `b` in place of its success payload.
pub open spec fn replaced<A, B, E>(x: Result<A, E>, b: B) -> Result<B, E> {
    match x {
        Ok(_) => Ok(b),
        Err(e) => Err(e),
    }
}

/// `x` with the unit value in place of its success payload.
pub open spec fn voided<A, E>(x: Result<A, E>) -> Result<(), E> {
    match x {
        Ok(_) => Ok(()),
        Err(e) => Err(e),
    }
}

/// `next` where `x` is a failure, the success of `x` otherwise.
pub open spec fn or_followed_by<A, E, H>(x: Result<A, E>, next: Result<A, H>) -> Result<A, H> {
    match x {
        Ok(a) => Ok(a),
        Err(_) => next,
    }
}

/// `x` with `h` in place of its failure payload.
pub open spec fn replaced_err<A, E, H>(x: Result<A, E>, h: H) -> Result<A, H> {
    match x {
        Ok(a) => Ok(a),
        Err(_) => Err(h),
    }
}

/// `x` with the unit value in place of its failure payload.
pub open spec fn voided_err<A, E>(x: Result<A, E>) -> Result<A, ()> {
    match x {
        Ok(a) => Ok(a),
        Err(_) => Err(()),
    }
}

/// `x` with its two channels exchanged.
pub open spec fn swapped<A, E>(x: Result<A, E>) -> Result<E, A> {
    match x {
        Ok(a) => Err(a),
        Err(e) => Ok(e),
    }
}

/// `x` where it is a success, the success of `a` otherwise.
pub open spec fn or_value<A, E>(x: Result<A, E>, a: A) -> Result<A, E> {
    match x {
        Ok(v) => Ok(v),
        Err(_) => Ok(a),
    }
}

/// Extension with a set of extra combinators for `Result<A, E>`.
///
/// A continuation is run at most once, and only on the channel that its combinator
/// names: a contract asks that it can be called on that channel alone, so on the other
/// channel no call of it verifies.
pub trait ResultExt<A, E>: Sized {
    /// The result that `self` is.
    spec fn as_result(self) -> Result<A, E>;

    /// Applies `f`, yielding yet another result, if `Ok(x)`; otherwise propagates `Err`,
    /// with the error as it is.
    ///
    /// The success payload is dropped: `f` neither sees nor needs it.
    fn then<F, B>(self, f: F) -> (out: Result<B, E>) where F: FnOnce() -> Result<B, E>
        requires
            self.as_result() is Ok ==> f.requires(()),
        ensures
            exists|next: Result<B, E>|
                out == #[trigger] followed_by(self.as_result(), next) && (self.as_result() is Ok
                    ==> f.ensures((), next)),
    ;

    /// Applies `f`, yielding a value that is wrapped into another result, if `Ok(x)`;
    /// otherwise propagates `Err`.
    ///
    /// This is `then` with a continuation that always succeeds.
    fn remap<F, B>(self, f: F) -> (out: Result<B, E>) where F: FnOnce() -> B
        requires
            self.as_result() is Ok ==> f.requires(()),
        ensures
            exists|b: B|
                out == #[trigger] replaced(self.as_result(), b) && (self.as_result() is Ok
                    ==> f.ensures((), b)),
    ;

    /// Replaces whatever value of type `A` in `Result<A, E>` with a unit.
    fn void(self) -> (out: Result<(), E>)
        ensures
            out == voided(self.as_result()),
    {
        self.remap(|| ())
    }

    /// Applies `f`, yielding yet another result, if `Err(x)`; otherwise propagates `Ok`.
    ///
    /// The error is dropped: `f` neither sees nor needs it.
    fn then_err<F, H>(self, f: F) -> (out: Result<A, H>) where F: FnOnce() -> Result<A, H>
        requires
            self.as_result() is Err ==> f.requires(()),
        ensures
            exists|next: Result<A, H>|
                out == #[trigger] or_followed_by(self.as_result(), next) && (self.as_result() is Err
                    ==> f.ensures((), next)),
    ;

    /// Applies `f`, yielding a value that is wrapped into another error, if `Err(x)`;
    /// otherwise propagates `Ok`.
    fn remap_err<F, H>(self, f: F) -> (out: Result<A, H>) where F: FnOnce() -> H
        requires
            self.as_result() is Err ==> f.requires(()),
        ensures
            exists|h: H|
                out == #[trigger] replaced_err(self.as_result(), h) && (self.as_result() is Err
                    ==> f.ensures((), h)),
    {
        let ghost x = self.as_result();
        let wrapped = || -> (r: Result<A, H>)
            requires
                f.requires(()),
            ensures
                r matches Err(h) && f.ensures((), h),
            { f().into_err() };
        let out = self.then_err(wrapped);
        proof {
            if out is Err {
                assert(out == replaced_err(x, out->Err_0));
            } else {
                assert(out == replaced_err(x, arbitrary::<H>()));
            }
        }
        out
    }

    /// Replaces whatever value of type `E` in `Result<A, E>` with a unit.
    fn void_err(self) -> (out: Result<A, ()>)
        ensures
            out == voided_err(self.as_result()),
    {
        self.remap_err(|| ())
    }

    /// Runs `f` with a reference to `A` when `Ok(a)`, and passes `self` through.
    fn inspect<F>(self, f: F) -> (out: Result<A, E>) where F: FnOnce(&A)
        requires
            self.as_result() matches Ok(a) ==> f.requires((&a,)),
        ensures
            out == self.as_result(),
            self.as_result() matches Ok(a) ==> f.ensures((&a,), ()),
    ;

    /// Runs `f` with a reference to `E` when `Err(e)`, and passes `self` through.
    fn inspect_err<F>(self, f: F) -> (out: Result<A, E>) where F: FnOnce(&E)
        requires
            self.as_result() matches Err(e) ==> f.requires((&e,)),
        ensures
            out == self.as_result(),
            self.as_result() matches Err(e) ==> f.ensures((&e,), ()),
    ;

    /// Swaps `Ok(o)` into `Err(o)` and `Err(e)` into `Ok(e)`.
    fn swap(self) -> (out: Result<E, A>)
        ensures
            out == swapped(self.as_result()),
    ;

    /// Recovers from an error of type `E` with a function that cannot fail.
    fn recover<F>(self, f: F) -> (out: Result<A, E>) where F: FnOnce(E) -> A
        requires
            self.as_result() matches Err(e) ==> f.requires((e,)),
        ensures
            exists|a: A|
                out == #[trigger] or_value(self.as_result(), a) && (self.as_result() matches Err(e)
                    ==> f.ensures((e,), a)),
    {
        let ghost x = self.as_result();
        let wrapped = |e: E| -> (r: Result<A, E>)
            requires
                f.requires((e,)),
            ensures
                r matches Ok(a) && f.ensures((e,), a),
            { f(e).into_ok() };
        let out = self.recover_with(wrapped);
        proof {
            assert(out == or_value(x, out->Ok_0));
        }
        out
    }

    /// Recovers from an error of type `E` with a function that may fail, possibly with
    /// a different error of type `H`.
    ///
    /// On `Ok(a)` the function is not run and `Ok(a)` comes out; on `Err(e)` it is run
    /// on `e`, and what it yields comes out.
    fn recover_with<F, H>(self, f: F) -> (out: Result<A, H>) where F: FnOnce(E) -> Result<A, H>
        requires
            self.as_result() matches Err(e) ==> f.requires((e,)),
        ensures
            exists|next: Result<A, H>|
                out == #[trigger] or_followed_by(self.as_result(), next) && (
                self.as_result() matches Err(e) ==> f.ensures((e,), next)),
    ;
}

impl<A, E> ResultExt<A, E> for Result<A, E> {
    open spec fn as_result(self) -> Result<A, E> {
        self
    }

    fn then<F, B>(self, f: F) -> (out: Result<B, E>) where F: FnOnce() -> Result<B, E> {
        let out = match self {
            Ok(_) => f(),
            Err(e) => Err(e),
        };
        assert(out == followed_by(self, out));
        out
    }

    fn remap<F, B>(self, f: F) -> (out: Result<B, E>) where F: FnOnce() -> B {
        match self {
            Ok(_) => {
                let b = f();
                assert(Ok::<B, E>(b) == replaced(self, b));
                b.into_ok()
            },
            Err(e) => {
                assert(Err::<B, E>(e) == replaced(self, arbitrary::<B>()));
                Err(e)
            },
        }
    }

    fn then_err<F, H>(self, f: F) -> (out: Result<A, H>) where F: FnOnce() -> Result<A, H> {
        let out = match self {
            Ok(a) => Ok(a),
            Err(_) => f(),
        };
        assert(out == or_followed_by(self, out));
        out
    }

    fn inspect<F>(self, f: F) -> (out: Result<A, E>) where F: FnOnce(&A) {
        match self {
            Ok(a) => {
                f(&a);
                Ok(a)
            },
            Err(e) => Err(e),
        }
    }

    fn inspect_err<F>(self, f: F) -> (out: Result<A, E>) where F: FnOnce(&E) {
        match self {
            Ok(a) => Ok(a),
            Err(e) => {
                f(&e);
                Err(e)
            },
        }
    }

    fn swap(self) -> (out: Result<E, A>) {
        match self {
            Ok(o) => Err(o),
            Err(e) => Ok(e),
        }
    }

    fn recover_with<F, H>(self, f: F) -> (out: Result<A, H>) where F: FnOnce(E) -> Result<A, H> {
        let out = match self {
            Ok(a) => Ok(a),
            Err(e) => f(e),
        };
        assert(out == or_followed_by(self, out));
        out
    }
}

/// Ability to merge the branches of a `Result<A, E>` when `A` and `E` both convert
/// into `T`.
pub trait Merge<T>: Sized {
    /// Whether `out` is a value that merging `self` may give.
    spec fn merges_into(self, out: T) -> bool;

    /// Merges both branches of a result: the payload of the branch that is active,
    /// converted into `T`.
    fn merge(self) -> (out: T)
        ensures
            self.merges_into(out),
    ;
}

impl<A, E, T> Merge<T> for Result<A, E> where T: From<A> + From<E> {
    /// `out` is what the conversion into `T` may give for the payload of `self`,
    /// whichever channel holds it.
    open spec fn merges_into(self, out: T) -> bool {
        match self {
            Ok(a) => call_ensures(<T as From<A>>::from, (a,), out),
            Err(e) => call_ensures(<T as From<E>>::from, (e,), out),
        }
    }

    fn merge(self) -> (out: T) {
        match self {
            Ok(a) => T::from(a),
            Err(e) => T::from(e),
        }
    }
}

/// The conversion of a value into its own type, `From<T> for T` of std: it returns its
/// argument unchanged. std's documentation of the impl says so; the contract is taken
/// on trust from there.
pub assume_specification<U>[ <U as std::convert::From<U>>::from ](u: U) -> (ret: U)
    ensures
        ret == u,
;

/// Lifter of values into successful results.
pub trait IntoOk<O> {
    /// Lifts a value of type `O` into a `Result<O, E>` by wrapping it into an `Ok`.
    fn into_ok<E>(self) -> Result<O, E>;
}

impl<O> IntoOk<O> for O {
    fn into_ok<E>(self) -> (out: Result<O, E>)
        ensures
            out == Ok::<O, E>(self),
    {
        Ok(self)
    }
}

/// Lifter of values into failed results.
pub trait IntoErr<E> {
    /// Lifts a value of type `E` into a `Result<O, E>` by wrapping it into an `Err`.
    fn into_err<O>(self) -> Result<O, E>;
}

impl<E> IntoErr<E> for E {
    fn into_err<O>(self) -> (out: Result<O, E>)
        ensures
            out == Err::<O, E>(self),
    {
        Err(self)
    }
}

/// A success hands over to the continuation: followed by a continuation that lifts `b`
/// into a success, it is the success of `b`, whatever its own payload was.
pub proof fn then_continues_on_success<A, B, E>(a: A, b: B, next: Result<B, E>)
    ensures
        followed_by(Ok::<A, E>(a), next) == next,
        followed_by(Ok::<A, E>(a), Ok::<B, E>(b)) == Ok::<B, E>(b),
{
}

/// Failure is absorbing under `then`: whatever the continuation would yield, the failure
/// comes out with its error as it was.
pub proof fn then_keeps_failure<A, B, E>(e: E, next: Result<B, E>)
    ensures
        followed_by(Err::<A, E>(e), next) == Err::<B, E>(e),
{
}

/// `then_err` mirrors `then`: with the channels exchanged before and after, either one
/// is the other.
pub proof fn then_err_mirrors_then<A, E, H>(x: Result<A, E>, next: Result<A, H>, h: H)
    ensures
        or_followed_by(x, next) == swapped(followed_by(swapped(x), swapped(next))),
        replaced_err(x, h) == swapped(replaced(swapped(x), h)),
        voided_err(x) == swapped(voided(swapped(x))),
{
}

/// `remap` is `then` with a continuation that wraps its value in `Ok`, `remap_err` is
/// `then_err` with one that wraps its value in `Err`, and `void` and `void_err` are
/// these two with the unit value.
pub proof fn remap_is_then<A, B, E, H>(x: Result<A, E>, b: B, h: H)
    ensures
        replaced(x, b) == followed_by(x, Ok::<B, E>(b)),
        replaced_err(x, h) == or_followed_by(x, Err::<A, H>(h)),
        voided(x) == replaced(x, ()),
        voided_err(x) == replaced_err(x, ()),
{
}

/// `swap` is an involution: swapping twice gives the result back.
pub proof fn swap_is_involutive<A, E>(x: Result<A, E>)
    ensures
        swapped(swapped(x)) == x,
{
}

/// Discarding a payload that is already the unit value changes nothing, on either
/// channel, and discarding never changes which channel is active.
pub proof fn void_is_idempotent<A, E>(x: Result<A, E>)
    ensures
        voided(voided(x)) == voided(x),
        voided_err(voided_err(x)) == voided_err(x),
        voided(x) is Ok <==> x is Ok,
        voided_err(x) is Ok <==> x is Ok,
{
}

/// Recovery leaves a success as it is, whatever the recovering function would yield,
/// and on a failure gives what that function yields. `recover` is `recover_with` with a
/// function that wraps its value in `Ok`, so it always ends in success.
pub proof fn recovery_keeps_success<A, E, H>(x: Result<A, E>, a: A, e: E, next: Result<A, H>)
    ensures
        or_followed_by(Ok::<A, E>(a), next) == Ok::<A, H>(a),
        or_followed_by(Err::<A, E>(e), next) == next,
        or_value(x, a) == or_followed_by(x, Ok::<A, E>(a)),
        or_value(x, a) is Ok,
{
}

/// Where the conversion of the active payload keeps to its specification, merging gives
/// that payload converted as specified.
pub proof fn merge_is_conversion<A, E, T: From<A> + From<E>>(x: Result<A, E>, out: T)
    requires
        x.merges_into(out),
    ensures
        x matches Ok(a) ==> (<T as FromSpec<A>>::obeys_from_spec() ==> out == <T as FromSpec<
            A,
        >>::from_spec(a)),
        x matches Err(e) ==> (<T as FromSpec<E>>::obeys_from_spec() ==> out == <T as FromSpec<
            E,
        >>::from_spec(e)),
{
}

/// Where both payloads already have the type that is merged into, merging gives the
/// active payload itself.
pub proof fn merge_of_one_type_is_payload<V>(x: Result<V, V>, out: V)
    requires
        x.merges_into(out),
    ensures
        x matches Ok(a) ==> out == a,
        x matches Err(e) ==> out == e,
{
}

} // verus!
