//! What a compute target must offer for the pipeline to run on it.

use std::sync::Arc;
use vstd::prelude::*;

use crate::error::Error;
use crate::image::meta::Orientation;
use crate::math::binary32::Binary32;
use crate::math::KernelKind;

verus! {

/// How one sample is stored.
#[derive(Debug, Clone, Copy, PartialEq, Eq, Structural)]
pub enum PixelFormat {
    HalfFloat,
    Float,
    Double,
    UnsignedByte,
    UnsignedShort,
    UnsignedInt,
    SignedByte,
    SignedShort,
    SignedInt,
}

/// What a buffer was allocated for: its two sample formats and its extent.
#[derive(Debug, Clone, Copy, PartialEq, Eq, Structural)]
pub struct BufferLayout {
    pub stored: PixelFormat,
    pub mapped: PixelFormat,
    pub width: u32,
    pub height: u32,
    pub channels: u32,
}

/// A compute target. It owns buffers of one type and may or may not be able to
/// work on images.
pub trait Backend {
    /// The buffers this target owns.
    type ImageBuffer;

    /// The handle this target turns into when it is asked to work on images.
    type Imaging;

    /// Tries to obtain the image-capable form of this target. A target without
    /// image support answers with an error.
    fn as_image_backend(self: Arc<Self>) -> (upgraded: Result<Arc<Self::Imaging>, Error>);
}

/// A compute target that allocates image buffers and works on them.
///
/// Every operation writes to the destination it is given and to nothing else,
/// and leaves the destination's layout as it was. What a successful operation
/// leaves in the destination is a function of the target and the arguments;
/// each such function has a name here, so that callers can say what they
/// asked for.
pub trait ImageBackend: Backend {
    /// The layout a buffer was allocated with.
    spec fn layout(buffer: &Self::ImageBuffer) -> BufferLayout;

    /// The destination after a successful [`Self::downsample`].
    spec fn downsampled(
        &self,
        dst: Self::ImageBuffer,
        from: Self::ImageBuffer,
        kernel: KernelKind,
        factor: Binary32,
    ) -> Self::ImageBuffer;

    /// The destination after a successful [`Self::add`].
    spec fn added(
        &self,
        dst: Self::ImageBuffer,
        lhs: Self::ImageBuffer,
        rhs: Self::ImageBuffer,
    ) -> Self::ImageBuffer;

    /// The destination after a successful [`Self::div`].
    spec fn divided(
        &self,
        dst: Self::ImageBuffer,
        lhs: Self::ImageBuffer,
        rhs: Self::ImageBuffer,
    ) -> Self::ImageBuffer;

    /// The destination after a successful [`Self::apply_orientation`].
    spec fn oriented(
        &self,
        dst: Self::ImageBuffer,
        from: Self::ImageBuffer,
        orientation: Orientation,
    ) -> Self::ImageBuffer;

    /// The destination after a successful [`Self::to_gray`].
    spec fn grayed(
        &self,
        dst: Self::ImageBuffer,
        from: Self::ImageBuffer,
        use_fft: bool,
    ) -> Self::ImageBuffer;

    /// The destination after a successful [`Self::upscale`].
    spec fn upscaled(&self, dst: Self::ImageBuffer, from: Self::ImageBuffer) -> Self::ImageBuffer;

    /// Allocates a buffer. On success the buffer has exactly the layout asked for.
    fn create_image_buffer(
        &self,
        stored_px_fmt: PixelFormat,
        mapped_px_fmt: PixelFormat,
        width: u32,
        height: u32,
        channels: u32,
    ) -> (allocated: Result<Self::ImageBuffer, Error>)
        ensures
            allocated matches Ok(buffer) ==> Self::layout(&buffer) == (BufferLayout {
                stored: stored_px_fmt,
                mapped: mapped_px_fmt,
                width,
                height,
                channels,
            }),
    ;

    /// Takes in raw integer samples.
    fn load_image_data_int(&self, data: &[u16]);

    /// Takes in raw single-precision samples.
    fn load_image_data_float(&self, data: &[Binary32]);

    /// Convolves `from` with `kernel`, reduces its resolution by `factor`, and
    /// writes the outcome to `dst`. Meant for single-channel sources.
    fn downsample(
        &self,
        dst: &mut Self::ImageBuffer,
        from: &Self::ImageBuffer,
        kernel: KernelKind,
        factor: Binary32,
    ) -> (done: Result<(), Error>)
        ensures
            Self::layout(final(dst)) == Self::layout(old(dst)),
            done is Ok ==> *final(dst) == self.downsampled(*old(dst), *from, kernel, factor),
    ;

    /// Writes the sample-wise sum of `lhs` and `rhs` to `dst`.
    fn add(
        &self,
        dst: &mut Self::ImageBuffer,
        lhs: &Self::ImageBuffer,
        rhs: &Self::ImageBuffer,
    ) -> (done: Result<(), Error>)
        ensures
            Self::layout(final(dst)) == Self::layout(old(dst)),
            done is Ok ==> *final(dst) == self.added(*old(dst), *lhs, *rhs),
    ;

    /// Writes the sample-wise quotient of `lhs` by `rhs` to `dst`.
    fn div(
        &self,
        dst: &mut Self::ImageBuffer,
        lhs: &Self::ImageBuffer,
        rhs: &Self::ImageBuffer,
    ) -> (done: Result<(), Error>)
        ensures
            Self::layout(final(dst)) == Self::layout(old(dst)),
            done is Ok ==> *final(dst) == self.divided(*old(dst), *lhs, *rhs),
    ;

    /// Writes `from`, turned or mirrored as `orientation` says, to `dst`.
    fn apply_orientation(
        &self,
        dst: &mut Self::ImageBuffer,
        from: &Self::ImageBuffer,
        orientation: Orientation,
    ) -> (done: Result<(), Error>)
        ensures
            Self::layout(final(dst)) == Self::layout(old(dst)),
            done is Ok ==> *final(dst) == self.oriented(*old(dst), *from, orientation),
    ;

    /// Writes the luminance of `from` to the single-channel `dst`, by way of
    /// the frequency domain if `use_fft` is set.
    fn to_gray(
        &self,
        dst: &mut Self::ImageBuffer,
        from: &Self::ImageBuffer,
        use_fft: bool,
    ) -> (done: Result<(), Error>)
        ensures
            Self::layout(final(dst)) == Self::layout(old(dst)),
            done is Ok ==> *final(dst) == self.grayed(*old(dst), *from, use_fft),
    ;

    /// Resamples `from` to the larger extent of `dst`.
    fn upscale(&self, dst: &mut Self::ImageBuffer, from: &Self::ImageBuffer) -> (done: Result<
        (),
        Error,
    >)
        ensures
            Self::layout(final(dst)) == Self::layout(old(dst)),
            done is Ok ==> *final(dst) == self.upscaled(*old(dst), *from),
    ;
}

} // verus!
