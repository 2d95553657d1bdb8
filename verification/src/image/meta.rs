//! What is known of an image beyond its samples.

use vstd::prelude::*;

use crate::math::binary32::Binary32;
use crate::math::Mat4x3f;
use crate::noise::NoiseModel;

verus! {

/// The eight ways a sensor frame can lie relative to the scene.
#[derive(Debug, Clone, Copy, PartialEq, Eq, Structural)]
pub enum Orientation {
    Normal,
    MirrorHoriz,
    Rotate180,
    MirrorVert,
    MirrorHorizAndRotate270Cw,
    Rotate90Cw,
    MirrorHorizAndRotate90Cw,
    Rotate270Cw,
}

impl Orientation {
    /// The orientation includes a quarter turn, which exchanges the two axes.
    pub open spec fn spec_swaps_axes(self) -> bool {
        match self {
            Orientation::MirrorHorizAndRotate270Cw
            | Orientation::Rotate90Cw
            | Orientation::MirrorHorizAndRotate90Cw
            | Orientation::Rotate270Cw => true,
            _ => false,
        }
    }

    /// Width and height of a `width` by `height` frame once it is brought
    /// into this orientation.
    pub open spec fn applied_to(self, width: u32, height: u32) -> (u32, u32) {
        if self.spec_swaps_axes() {
            (height, width)
        } else {
            (width, height)
        }
    }

    /// The orientation includes a quarter turn, which exchanges the two axes.
    #[verifier::when_used_as_spec(spec_swaps_axes)]
    pub fn swaps_axes(self) -> (swaps: bool)
        ensures
            swaps == self.spec_swaps_axes(),
    {
        match self {
            Orientation::MirrorHorizAndRotate270Cw
            | Orientation::Rotate90Cw
            | Orientation::MirrorHorizAndRotate90Cw
            | Orientation::Rotate270Cw => true,
            _ => false,
        }
    }

    /// Width and height of a `width` by `height` frame once it is brought
    /// into this orientation.
    pub fn oriented_extent(self, width: u32, height: u32) -> (extent: (u32, u32))
        ensures
            extent == self.applied_to(width, height),
    {
        if self.swaps_axes() {
            (height, width)
        } else {
            (width, height)
        }
    }
}

/// Describes a colour-filter-array mosaic.
#[derive(Debug, Clone)]
pub struct CfaPattern {}

/// How the samples of a pixel are laid out.
#[derive(Debug, Clone)]
pub enum PatternFormat {
    Cfa(CfaPattern),
    Rgba,
}

impl PatternFormat {
    /// Samples per pixel: one for a mosaic, four for RGBA.
    pub open spec fn spec_channels(&self) -> u32 {
        match self {
            PatternFormat::Cfa(..) => 1,
            PatternFormat::Rgba => 4,
        }
    }

    /// Samples per pixel: one for a mosaic, four for RGBA.
    #[verifier::when_used_as_spec(spec_channels)]
    pub fn channels(&self) -> (n: u32)
        ensures
            n == self.spec_channels(),
    {
        match self {
            PatternFormat::Cfa(..) => 1,
            PatternFormat::Rgba => 4,
        }
    }
}

/// Capture-time facts about a frame.
#[derive(Debug, Clone)]
pub struct ImageMetadata {
    /// Bayer (or XTrans or other) mosaic pattern kind
    pub cfa: CfaPattern,
    /// ISO value used to capture the image
    pub iso_speed: u32,
    /// Shutter speed used to capture image
    pub shutter_speed: Binary32,
    /// Time in milliseconds of exposure
    pub exposure_time: Binary32,
    /// Exposure bias value (e.g. -1EV)
    pub exposure_bias: i32,
    /// Aperture value of the image
    pub aperture_value: Binary32,
    /// Colour conversion matrix: xyz to rgb
    pub ccm: Mat4x3f,
    /// Image Noise Model
    pub noise_model: NoiseModel,
}

} // verus!
