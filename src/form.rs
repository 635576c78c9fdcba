use vstd::prelude::*;
use crate::error::{AppError, FieldViolation};

verus! {

/// A form payload that was both decoded from the request body and passed its
/// validation. Only `from_decoded` makes one.
#[derive(Debug)]
pub struct ValidatedForm<T>(T);

impl<T> ValidatedForm<T> {
    /// The payload inside.
    pub closed spec fn value(&self) -> T {
        self.0
    }

    /// Hands out the payload.
    pub fn into_inner(self) -> (r: T)
        ensures
            r == self.value(),
    {
        self.0
    }

    /// Finishes the extraction of a form once its body has been decoded.
    /// A body that did not decode is the form-rejection error, carrying the
    /// decoder's detail, and `validate` is not called. A decoded payload is
    /// handed to `validate`; its violations become the validation error, and
    /// a payload with none is wrapped as it came.
    pub fn from_decoded<F>(decoded: Result<T, String>, validate: F) -> (r: Result<
        ValidatedForm<T>,
        AppError,
    >)
        where
            F: FnOnce(&T) -> Result<(), Vec<FieldViolation>>,
        requires
            decoded is Ok ==> call_requires(validate, (&decoded->Ok_0,)),
        ensures
            decoded is Err ==> r == Err::<ValidatedForm<T>, AppError>(
                AppError::AxumFormRejection(decoded->Err_0),
            ),
            decoded is Ok ==> exists|verdict: Result<(), Vec<FieldViolation>>|
                #[trigger] call_ensures(validate, (&decoded->Ok_0,), verdict) && match verdict {
                    Ok(()) => r is Ok && r->Ok_0.value() == decoded->Ok_0,
                    Err(violations) => r == Err::<ValidatedForm<T>, AppError>(
                        AppError::ValidationError(violations),
                    ),
                },
    {
        match decoded {
            Err(detail) => Err(AppError::AxumFormRejection(detail)),
            Ok(value) => {
                match validate(&value) {
                    Ok(()) => Ok(ValidatedForm(value)),
                    Err(violations) => Err(AppError::ValidationError(violations)),
                }
            },
        }
    }
}

} // verus!
