use vstd::prelude::*;

verus! {

/// Why a create or a read did not yield a record.
#[derive(Debug, Clone, Copy, PartialEq, Eq, Structural)]
pub enum ServiceError {
    /// A field that the record requires is missing from the request.
    ValidationFailed,
    /// No stored row has the identifier.
    NotFound,
    /// The identifier text is not one that can be read.
    InvalidIdentifier,
    /// The store failed.
    StorageError,
    /// No connection to the store could be had.
    PoolUnavailable,
}

/// How the store let an operation down.
#[derive(Debug, Clone, Copy, PartialEq, Eq, Structural)]
pub enum StoreFailure {
    /// No connection could be had from the pool.
    NoConnection,
    /// The statement was sent and failed.
    Failed,
}

impl ServiceError {
    /// The status that a client sees for the error.
    pub open spec fn spec_status(self) -> u16 {
        match self {
            ServiceError::ValidationFailed => 422,
            ServiceError::NotFound => 404,
            ServiceError::InvalidIdentifier => 400,
            ServiceError::StorageError => 500,
            ServiceError::PoolUnavailable => 503,
        }
    }

    /// The status that a client sees for the error.
    pub fn status(&self) -> (code: u16)
        ensures
            code == self.spec_status(),
    {
        match self {
            ServiceError::ValidationFailed => 422,
            ServiceError::NotFound => 404,
            ServiceError::InvalidIdentifier => 400,
            ServiceError::StorageError => 500,
            ServiceError::PoolUnavailable => 503,
        }
    }
}

impl StoreFailure {
    /// The error that the failure is reported as.
    pub open spec fn spec_error(self) -> ServiceError {
        match self {
            StoreFailure::NoConnection => ServiceError::PoolUnavailable,
            StoreFailure::Failed => ServiceError::StorageError,
        }
    }

    /// The error that the failure is reported as.
    pub fn error(&self) -> (e: ServiceError)
        ensures
            e == self.spec_error(),
    {
        match self {
            StoreFailure::NoConnection => ServiceError::PoolUnavailable,
            StoreFailure::Failed => ServiceError::StorageError,
        }
    }
}

/// The two operations that a resource offers.
#[derive(Debug, Clone, Copy, PartialEq, Eq, Structural)]
pub enum Operation {
    Create,
    Read,
}

impl Operation {
    /// The status of an answer that carries a result: `Created` for a
    /// creation, `OK` for a read.
    pub open spec fn spec_success_status(self) -> u16 {
        match self {
            Operation::Create => 201,
            Operation::Read => 200,
        }
    }
}

/// The status to answer with: the operation's success status where there is a
/// result, the error's own status where there is none.
pub fn reply_status<T>(operation: Operation, outcome: &Result<T, ServiceError>) -> (code: u16)
    ensures
        code == match outcome {
            Ok(_) => operation.spec_success_status(),
            Err(e) => e.spec_status(),
        },
        200 <= code < 300 <==> outcome is Ok,
{
    match outcome {
        Ok(_) => match operation {
            Operation::Create => 201,
            Operation::Read => 200,
        },
        Err(e) => e.status(),
    }
}

/// No error is reported with a success status, and two different errors are
/// never reported with the same status.
pub proof fn lemma_status_tells_errors_apart(a: ServiceError, b: ServiceError)
    ensures
        400 <= a.spec_status() < 600,
        a.spec_status() == b.spec_status() ==> a == b,
{
}

/// A failure of the store is never reported as a missing record.
pub proof fn lemma_store_failure_is_not_absence(f: StoreFailure)
    ensures
        f.spec_error() != ServiceError::NotFound,
        f.spec_error() != ServiceError::ValidationFailed,
        f.spec_error() != ServiceError::InvalidIdentifier,
{
}

} // verus!
