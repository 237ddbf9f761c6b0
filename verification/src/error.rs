use vstd::prelude::*;

verus! {

/// The failure kinds a store operation can report.
///
/// Each variant carries the human-readable reason handed back to the
/// caller. `Validation`, `Conflict` and `NotFound` are client mistakes;
/// `Unauthorized` is a credential mismatch whose message deliberately
/// does not reveal which factor was wrong; `Internal` is a server-side
/// fault (a hashing backend error, an exhausted stamp counter).
#[derive(Debug)]
pub enum StoreError {
    Validation(String),
    Conflict(String),
    NotFound(String),
    Unauthorized(String),
    Internal(String),
}

impl StoreError {
    /// The human-readable reason carried by this error.
    pub fn message(&self) -> (r: String)
        ensures
            r@ == self.message_spec(),
    {
        match self {
            StoreError::Validation(m) => m.clone(),
            StoreError::Conflict(m) => m.clone(),
            StoreError::NotFound(m) => m.clone(),
            StoreError::Unauthorized(m) => m.clone(),
            StoreError::Internal(m) => m.clone(),
        }
    }

    pub open spec fn message_spec(&self) -> Seq<char> {
        match self {
            StoreError::Validation(m) => m@,
            StoreError::Conflict(m) => m@,
            StoreError::NotFound(m) => m@,
            StoreError::Unauthorized(m) => m@,
            StoreError::Internal(m) => m@,
        }
    }
}

} // verus!
