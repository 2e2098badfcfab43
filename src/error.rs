use vstd::prelude::*;

verus! {

/// What an inference or embedding call can fail with.
#[derive(Debug, Clone, PartialEq, Eq)]
pub enum LlmError {
    /// The model is not on the allow-list; nothing was sent.
    AccessDenied(String),
    /// Any failure after the access check, with a readable detail.
    RuntimeError(String),
}

impl LlmError {
    /// The error in plain values: `true` and the model for a denial,
    /// `false` and the detail for a runtime failure.
    pub open spec fn view_parts(&self) -> (bool, Seq<char>) {
        match self {
            LlmError::AccessDenied(m) => (true, m@),
            LlmError::RuntimeError(d) => (false, d@),
        }
    }

    /// The detail carried by a runtime failure, or the model of a denial.
    pub fn detail(&self) -> (r: &String)
        ensures
            r@ == self.view_parts().1,
    {
        match self {
            LlmError::AccessDenied(m) => m,
            LlmError::RuntimeError(d) => d,
        }
    }

    /// Whether the call was refused by the allow-list.
    pub fn is_access_denied(&self) -> (r: bool)
        ensures
            r == self.view_parts().0,
    {
        match self {
            LlmError::AccessDenied(_) => true,
            LlmError::RuntimeError(_) => false,
        }
    }
}

} // verus!
