use vstd::prelude::*;

verus! {

/// Why a conversion stops. Every one of these ends the run.
#[derive(Clone, Copy, Debug, PartialEq, Eq, Structural)]
pub enum ConvertError {
    /// A triangle index, once moved to the merged buffer, names no vertex of it.
    IndexOutOfRange,
    /// The requested number of voxels per axis is zero or negative.
    InvalidResolution,
    /// The grid's bounding box reaches further from the origin than the
    /// shallowest level can address.
    GridTooLarge,
}

} // verus!
