//! The `if` and `unless` block helpers: one dispatcher, parameterised by its
//! polarity.
use vstd::prelude::*;
use crate::error::RenderError;
use crate::invocation::{unref, Helper};
use crate::render::Renderer;
use crate::value::{spec_truthy, Value};

verus! {

/// Whether a conditional renders its primary block on a truthy value
/// (`if`) or on a falsy one (`unless`).
#[derive(Clone, Copy, Debug, PartialEq, Eq, Structural)]
pub enum Polarity {
    Positive,
    Negated,
}

impl Polarity {
    /// The name the helper of this polarity is registered under.
    pub fn name(&self) -> (r: &'static str)
        ensures
            *self == Polarity::Positive ==> r@ == "if"@,
            *self == Polarity::Negated ==> r@ == "unless"@,
    {
        match self {
            Polarity::Positive => "if",
            Polarity::Negated => "unless",
        }
    }
}

/// The conditional block helper.
#[derive(Clone, Copy, Debug)]
pub struct IfHelper {
    pub polarity: Polarity,
}

/// The `includeZero` hash option: its value where it is a boolean, and
/// `false` where it is absent or of another kind.
pub open spec fn include_zero<T>(h: Helper<T>) -> bool {
    match h.spec_hash_get("includeZero"@) {
        Some(Value::Bool(b)) => b,
        _ => false,
    }
}

impl IfHelper {
    pub fn new(polarity: Polarity) -> (r: IfHelper)
        ensures
            r.polarity == polarity,
    {
        IfHelper { polarity }
    }

    /// The helper registered as `if`.
    pub fn if_helper() -> (r: IfHelper)
        ensures
            r.polarity == Polarity::Positive,
    {
        IfHelper { polarity: Polarity::Positive }
    }

    /// The helper registered as `unless`.
    pub fn unless_helper() -> (r: IfHelper)
        ensures
            r.polarity == Polarity::Negated,
    {
        IfHelper { polarity: Polarity::Negated }
    }

    /// The error for an invocation without a positional value.
    pub open spec fn missing(self) -> RenderError {
        RenderError::MissingArgument { helper: self.polarity }
    }

    /// The primary block is chosen: the first positional value is truthy
    /// under `if`, or falsy under `unless`.
    pub open spec fn takes_primary<T>(self, h: Helper<T>) -> bool
        recommends
            h.params@.len() > 0,
    {
        spec_truthy(h.params@[0], include_zero(h)) == (self.polarity == Polarity::Positive)
    }

    /// The sub-template handle chosen for an invocation that has a positional
    /// value; it may be absent.
    pub open spec fn selected<T>(self, h: Helper<T>) -> Option<T>
        recommends
            h.params@.len() > 0,
    {
        if self.takes_primary(h) {
            h.template
        } else {
            h.inverse
        }
    }

    /// What a call on `h` does to the renderer state `before`: without a
    /// positional value it fails with a missing argument; where the chosen
    /// block is absent it succeeds and renders nothing; otherwise it is
    /// exactly one render of the chosen block.
    pub open spec fn outcome<T, R: Renderer<T>>(
        self,
        h: Helper<T>,
        before: R,
        after: R,
        r: Result<(), RenderError>,
    ) -> bool {
        if h.params@.len() == 0 {
            r == Err::<(), RenderError>(self.missing()) && after == before
        } else {
            match self.selected(h) {
                None => r == Ok::<(), RenderError>(()) && after == before,
                Some(t) => before.renders(t, after, r),
            }
        }
    }

    /// Chooses the sub-template to render for `h`, or fails where `h` has
    /// no positional value.
    pub fn select<'a, T>(&self, h: &'a Helper<T>) -> (r: Result<Option<&'a T>, RenderError>)
        ensures
            h.params@.len() == 0 ==> (r matches Err(e) && e == self.missing()),
            h.params@.len() > 0 ==> (r matches Ok(o) && unref(o) == self.selected(*h)),
    {
        let param = match h.param(0) {
            Some(p) => p,
            None => {
                return Err(RenderError::MissingArgument { helper: self.polarity });
            },
        };
        let include_zero = match h.hash_get("includeZero") {
            Some(Value::Bool(b)) => *b,
            _ => false,
        };
        let mut value = param.is_truthy(include_zero);
        if self.polarity == Polarity::Negated {
            value = !value;
        }
        if value {
            Ok(h.template())
        } else {
            Ok(h.inverse())
        }
    }

    /// Renders the block that `h` selects through `out`, and returns what
    /// that render returned; renders nothing where the block is absent.
    pub fn call<T, R: Renderer<T>>(&self, h: &Helper<T>, out: &mut R) -> (r: Result<(), RenderError>)
        ensures
            self.outcome(*h, *old(out), *final(out), r),
    {
        match self.select(h) {
            Err(e) => Err(e),
            Ok(Some(t)) => out.render(t),
            Ok(None) => Ok(()),
        }
    }
}

/// `unless` on an invocation with a positional value does what `if` does on
/// the same invocation with its primary and inverse blocks exchanged: it
/// chooses the same handle, and so the same render, result and output.
pub proof fn lemma_negation_symmetry<T, R: Renderer<T>>(
    unless_helper: IfHelper,
    if_helper: IfHelper,
    h: Helper<T>,
    before: R,
    after: R,
    r: Result<(), RenderError>,
)
    requires
        unless_helper.polarity == Polarity::Negated,
        if_helper.polarity == Polarity::Positive,
        h.params@.len() > 0,
    ensures
        unless_helper.selected(h) == if_helper.selected(h.swapped()),
        unless_helper.outcome(h, before, after, r) == if_helper.outcome(
            h.swapped(),
            before,
            after,
            r,
        ),
{
}

/// Where the chosen block is absent, a call succeeds and leaves the renderer
/// state, and so its output, as it was.
pub proof fn lemma_missing_branch_silent<T, R: Renderer<T>>(
    helper: IfHelper,
    h: Helper<T>,
    before: R,
    after: R,
    r: Result<(), RenderError>,
)
    requires
        h.params@.len() > 0,
        (helper.selected(h) is None),
    ensures
        helper.outcome(h, before, after, r) <==> (r == Ok::<(), RenderError>(()) && after == before),
{
}

/// An invocation without a positional value fails with a missing argument
/// that names the helper, and leaves the renderer state, and so its output,
/// as it was.
pub proof fn lemma_missing_argument_fails<T, R: Renderer<T>>(
    helper: IfHelper,
    h: Helper<T>,
    before: R,
    after: R,
    r: Result<(), RenderError>,
)
    requires
        h.params@.len() == 0,
    ensures
        helper.outcome(h, before, after, r) <==> (r == Err::<(), RenderError>(helper.missing())
            && after == before),
{
}

} // verus!
