//! The interface of a statement validator.

use vstd::prelude::*;
use crate::model::rql_valid;

verus! {

/// A validator of RQL statements: `is_valid` answers exactly whether the
/// statement is a grammatically legal RQL expression, as defined by
/// [`rql_valid`].
pub trait ValidatorInterface {
    fn is_valid(&self, data: String) -> (result: bool)
        ensures
            result == rql_valid(data@),
    ;
}

} // verus!
