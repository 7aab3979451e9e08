//! General API errors of the paste site.
use vstd::prelude::*;

use crate::bundlesdb::DefaultReturn;

verus! {

/// General API errors
pub enum DatabaseError {
    MustBeUnique,
    NotAllowed,
    ValueError,
    NotFound,
    Other,
}

/// The message of each error.
pub open spec fn database_error_message(e: DatabaseError) -> Seq<char> {
    match e {
        DatabaseError::MustBeUnique => "One or more of the given values must be unique but is not."@,
        DatabaseError::NotAllowed => "You are not allowed to access this resource."@,
        DatabaseError::ValueError => "One of the field values given is invalid."@,
        DatabaseError::NotFound => "No asset with this selector could be found."@,
        DatabaseError::Other => "An unspecified error has occured"@,
    }
}

impl DatabaseError {
    /// The message of the error.
    pub fn to_string(&self) -> (r: String)
        ensures
            r@ == database_error_message(*self),
    {
        match self {
            DatabaseError::MustBeUnique => String::from_str(
                "One or more of the given values must be unique but is not.",
            ),
            DatabaseError::NotAllowed => String::from_str(
                "You are not allowed to access this resource.",
            ),
            DatabaseError::ValueError => String::from_str(
                "One of the field values given is invalid.",
            ),
            DatabaseError::NotFound => String::from_str(
                "No asset with this selector could be found.",
            ),
            DatabaseError::Other => String::from_str("An unspecified error has occured"),
        }
    }

    /// The failed API answer that reports the error, with a default payload.
    pub fn into_default_return<T: Default>(self) -> (r: DefaultReturn<T>)
        ensures
            !r.success,
            r.message@ == database_error_message(self),
    {
        let message = self.to_string();
        DefaultReturn { success: false, message, payload: T::default() }
    }
}

} // verus!
