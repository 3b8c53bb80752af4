//! The request form of a deletion: the post's identifier in the path.

use vstd::prelude::*;
use vstd::string::StringSliceAdditionalSpecFns;

use crate::common::error::{result_view, ApiError, ApiErrorView};
use crate::common::utils::{parse_id, spec_parse_id};
use crate::common::PostId;

verus! {

/// The post a deletion names, from the textual identifier in its path.
pub fn to_input(id: &str) -> (r: Result<PostId, ApiError>)
    requires
        id.spec_bytes().len() <= usize::MAX - 7,
    ensures
        result_view(r) == match spec_parse_id(id.spec_bytes()) {
            Ok(n) => Ok::<PostId, ApiErrorView>(PostId(n)),
            Err(e) => Err(e),
        },
{
    match parse_id(id) {
        Ok(n) => Ok(PostId(n)),
        Err(e) => Err(e),
    }
}

} // verus!
