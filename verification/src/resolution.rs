use vstd::prelude::*;
use crate::error::ConvertError;

verus! {

/// The resolution that is used when none is asked for.
pub const DEFAULT_RESOLUTION: u32 = 100;

/// Accepts a requested number of voxels along each axis of the normalized
/// cube: a positive number is taken as it is, any other is refused.
pub fn validate_resolution(requested: i32) -> (result: Result<u32, ConvertError>)
    ensures
        requested > 0 ==> result == Ok::<u32, ConvertError>(requested as u32),
        requested <= 0 ==> result == Err::<u32, ConvertError>(ConvertError::InvalidResolution),
{
    if requested > 0 {
        Ok(requested as u32)
    } else {
        Err(ConvertError::InvalidResolution)
    }
}

} // verus!
