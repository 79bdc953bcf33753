//! Errors of a render call.
use vstd::prelude::*;
use vstd::string::StringExecFns;
use crate::helper_if::Polarity;

verus! {

/// Why a render failed.
#[derive(Debug)]
pub enum RenderError {
    /// A conditional helper was invoked without a positional value.
    MissingArgument { helper: Polarity },
    /// A failure reported by the host renderer, with its description.
    Failed { desc: String },
}

/// The description of a missing argument for the helper of the given
/// polarity.
pub open spec fn missing_argument_desc(helper: Polarity) -> Seq<char> {
    match helper {
        Polarity::Positive => "Param not found for helper \"if\""@,
        Polarity::Negated => "Param not found for helper \"unless\""@,
    }
}

impl RenderError {
    pub fn new(desc: &str) -> (r: RenderError)
        ensures
            r matches RenderError::Failed { desc: d } && d@ == desc@,
    {
        RenderError::Failed { desc: String::from_str(desc) }
    }

    /// A human-readable description of the failure.
    pub fn desc(&self) -> (r: String)
        ensures
            *self matches RenderError::MissingArgument { helper } ==> r@ == missing_argument_desc(helper),
            *self matches RenderError::Failed { desc } ==> r@ == desc@,
    {
        match self {
            RenderError::MissingArgument { helper } => match helper {
                Polarity::Positive => String::from_str("Param not found for helper \"if\""),
                Polarity::Negated => String::from_str("Param not found for helper \"unless\""),
            },
            RenderError::Failed { desc } => desc.clone(),
        }
    }
}

} // verus!
