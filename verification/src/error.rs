//! The errors that stop the renderer at startup.

use vstd::prelude::*;

verus! {

/// A mesh or an image that cannot be turned into GPU resources.
#[derive(Clone, Copy, Debug, PartialEq, Eq)]
pub enum AssetError {
    /// The mesh source holds no model.
    NoModel,
    /// The normal array is shorter than three words per vertex.
    ShortNormals,
    /// The texture-coordinate array is shorter than two words per vertex.
    ShortTexcoords,
    /// An index refers to a vertex that does not exist.
    IndexOutOfRange,
    /// There are more indices than one indexed draw can address.
    TooManyIndices,
    /// A face does not hold four bytes for each of its pixels.
    BadPixelCount,
    /// A face, once oriented, does not have the dimensions of the first face.
    SizeMismatch,
    /// A row of a face is longer in bytes than a texture upload can describe.
    RowTooWide,
    /// A column of a face is longer in bytes than this machine can address.
    ColumnTooTall,
}

/// No usable combination of adapter, device and surface.
#[derive(Clone, Copy, Debug, PartialEq, Eq)]
pub enum InitializationError {
    /// The surface offers no texture format.
    NoSurfaceFormat,
    /// The surface offers no alpha mode.
    NoAlphaMode,
    /// The surface offers no present mode.
    NoPresentMode,
}

/// Why the renderer could not start.
#[derive(Clone, Copy, Debug, PartialEq, Eq)]
pub enum StartupError {
    /// The surface cannot be configured.
    Initialization(InitializationError),
    /// The mesh or the skybox cannot be used.
    Asset(AssetError),
}

/// Why no image of the surface could be acquired for a frame.
#[derive(Clone, Copy, Debug, PartialEq, Eq)]
pub enum SurfaceError {
    /// The image did not become available in time.
    Timeout,
    /// The surface has changed and must be configured again.
    Outdated,
    /// The surface was lost and must be configured again.
    Lost,
    /// The device has no memory left.
    OutOfMemory,
}

} // verus!
