use vstd::prelude::*;

verus! {

/// The recoverable failures that a model reports to its caller.
#[derive(Clone, Copy, Debug, PartialEq, Eq, Structural)]
pub enum ModelError {
    /// The normal-equation matrix has no inverse.
    SingularMatrix,
    /// An accessor was called before any successful fit or training run.
    NotFitted,
    /// The intercept was requested from a model built without one.
    NoIntercept,
    /// The lengths of the design matrix, the targets or the weights disagree.
    DimensionMismatch,
}

impl ModelError {
    /// The text that describes the failure.
    pub open spec fn text(self) -> Seq<char> {
        match self {
            ModelError::SingularMatrix => "Normal-equation matrix has no inverse."@,
            ModelError::NotFitted => "Data input is unable to be fitted."@,
            ModelError::NoIntercept => "Model was not fitted with intercept."@,
            ModelError::DimensionMismatch => "Dimensions of the inputs do not agree."@,
        }
    }

    /// The failure as a sentence for the caller to show.
    pub fn message(&self) -> (s: String)
        ensures
            s@ == self.text(),
    {
        match self {
            ModelError::SingularMatrix => "Normal-equation matrix has no inverse.".to_owned(),
            ModelError::NotFitted => "Data input is unable to be fitted.".to_owned(),
            ModelError::NoIntercept => "Model was not fitted with intercept.".to_owned(),
            ModelError::DimensionMismatch => "Dimensions of the inputs do not agree.".to_owned(),
        }
    }
}

} // verus!
