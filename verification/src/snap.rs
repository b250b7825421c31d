//! When a scrolling container follows its content's far edge.

use vstd::prelude::*;
use crate::env::Env;

verus! {

/// A rule that says, for the data and settings of a layout pass, whether the window is
/// to snap to the content's far edge when the content's size has changed.
pub trait SnapPredicate<T> {
    /// `snap` is an answer that this rule may give for `data` and `env`.
    spec fn decides(&self, data: &T, env: &Env, snap: bool) -> bool;

    /// Gives the rule's answer for `data` and `env`.
    fn eval(&self, data: &T, env: &Env) -> (snap: bool)
        ensures
            self.decides(data, env, snap),
    ;
}

/// A rule given as a function that can be called on every input.
#[verifier::reject_recursive_types(T)]
pub struct FnPredicate<T, F: Fn(&T, &Env) -> bool> {
    f: F,
    _data: std::marker::PhantomData<T>,
}

impl<T, F: Fn(&T, &Env) -> bool> FnPredicate<T, F> {
    #[verifier::type_invariant]
    spec fn callable_everywhere(self) -> bool {
        forall|data: &T, env: &Env| call_requires(self.f, (data, env))
    }

    /// The function that gives this rule's answers.
    pub closed spec fn function(self) -> F {
        self.f
    }

    /// The rule whose answers `f` gives.
    pub fn new(f: F) -> (rule: Self)
        requires
            forall|data: &T, env: &Env| call_requires(f, (data, env)),
        ensures
            rule.function() == f,
    {
        FnPredicate { f, _data: std::marker::PhantomData }
    }
}

impl<T, F: Fn(&T, &Env) -> bool> SnapPredicate<T> for FnPredicate<T, F> {
    open spec fn decides(&self, data: &T, env: &Env, snap: bool) -> bool {
        call_ensures(self.function(), (data, env), snap)
    }

    fn eval(&self, data: &T, env: &Env) -> (snap: bool) {
        proof {
            use_type_invariant(self);
        }
        (self.f)(data, env)
    }
}

/// Whether a scrolling container snaps along one axis.
#[verifier::reject_recursive_types(T)]
pub enum Snap<T> {
    /// The window stays where it is.
    Never,
    /// The window snaps whenever the rule says so.
    When(Box<dyn SnapPredicate<T>>),
}

impl<T> Snap<T> {
    /// `snap` is an answer that this policy may give for `data` and `env`.
    pub open spec fn decides(&self, data: &T, env: &Env, snap: bool) -> bool {
        match self {
            Snap::Never => !snap,
            Snap::When(rule) => rule.decides(data, env, snap),
        }
    }

    /// Gives the policy's answer for `data` and `env`.
    pub fn eval(&self, data: &T, env: &Env) -> (snap: bool)
        ensures
            self.decides(data, env, snap),
    {
        match self {
            Snap::Never => false,
            Snap::When(rule) => rule.eval(data, env),
        }
    }

    /// The policy that snaps whenever `rule` answers `true`. Its answers are those of
    /// `rule`.
    pub fn when(rule: impl Fn(&T, &Env) -> bool + 'static) -> (snap: Self) where T: 'static
        requires
            forall|data: &T, env: &Env| call_requires(rule, (data, env)),
        ensures
            snap is When,
            forall|data: &T, env: &Env, answer: bool| #[trigger]
                snap.decides(data, env, answer) == call_ensures(rule, (data, env), answer),
    {
        Snap::When(Box::new(FnPredicate::new(rule)))
    }
}

} // verus!
