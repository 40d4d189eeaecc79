use vstd::prelude::*;

verus! {

/// Why a shape was not created.
#[derive(Clone, Copy, Debug, PartialEq, Eq, Structural)]
pub enum ShapeError {
    /// An index does not name a vertex, or there are more indices than one
    /// draw call can count.
    InvalidGeometry,
    /// The device has handed out every shape identifier it has.
    RegistryFull,
}

/// Why a frame was not rendered. The error concerns that frame only.
#[derive(Clone, Copy, Debug, PartialEq, Eq, Structural)]
pub enum FrameError {
    /// No target to render into was to be had for this frame.
    AcquisitionFailure,
}

impl ShapeError {
    /// A sentence that describes the error.
    pub fn message(&self) -> (text: &'static str)
        ensures
            text@ == match *self {
                ShapeError::InvalidGeometry => "Invalid geometry"@,
                ShapeError::RegistryFull => "Shape registry is full"@,
            },
    {
        match self {
            ShapeError::InvalidGeometry => "Invalid geometry",
            ShapeError::RegistryFull => "Shape registry is full",
        }
    }
}

impl FrameError {
    /// A sentence that describes the error.
    pub fn message(&self) -> (text: &'static str)
        ensures
            text@ == "Failed to acquire the next frame"@,
    {
        "Failed to acquire the next frame"
    }
}

} // verus!
