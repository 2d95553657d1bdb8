//! Images: one backend-owned pixel buffer with its format and geometry.

use std::marker::PhantomData;
use std::sync::Arc;
use vstd::prelude::*;

pub mod meta;
pub mod pyramid;

use crate::backend::{BufferLayout, ImageBackend, PixelFormat};
use crate::error::Error;
use crate::image::meta::{ImageMetadata, Orientation, PatternFormat};
use crate::math::binary32::Binary32;
use crate::math::KernelKind;

verus! {

/// The kinds of image the pipeline tells apart.
#[derive(Debug, Clone, Copy, PartialEq, Eq, Structural)]
pub enum ImageKindVariants {
    Bayer,
    Rgba,
    Gray,
}

impl ImageKindVariants {
    /// The lower-case name of the kind.
    pub open spec fn name_text(self) -> Seq<char> {
        match self {
            ImageKindVariants::Bayer => "bayer"@,
            ImageKindVariants::Rgba => "rgba"@,
            ImageKindVariants::Gray => "gray"@,
        }
    }

    /// The lower-case name of the kind, as messages print it.
    pub fn name(&self) -> (text: &'static str)
        ensures
            text@ == self.name_text(),
    {
        match self {
            ImageKindVariants::Bayer => "bayer",
            ImageKindVariants::Rgba => "rgba",
            ImageKindVariants::Gray => "gray",
        }
    }
}

/// A marker type that stands for one kind of image.
pub trait ImageKind {
    /// The kind this marker stands for.
    spec fn spec_kind() -> ImageKindVariants;

    /// The kind this marker stands for.
    fn kind() -> (k: ImageKindVariants)
        ensures
            k == Self::spec_kind(),
    ;
}

/// Marks a raw colour-filter-array mosaic.
pub struct BayerImage;

impl ImageKind for BayerImage {
    open spec fn spec_kind() -> ImageKindVariants {
        ImageKindVariants::Bayer
    }

    fn kind() -> ImageKindVariants {
        ImageKindVariants::Bayer
    }
}

/// Marks interleaved red, green, blue and alpha.
pub struct RgbaImage;

impl ImageKind for RgbaImage {
    open spec fn spec_kind() -> ImageKindVariants {
        ImageKindVariants::Rgba
    }

    fn kind() -> ImageKindVariants {
        ImageKindVariants::Rgba
    }
}

/// Marks a single luminance plane.
pub struct GrayImage;

impl ImageKind for GrayImage {
    open spec fn spec_kind() -> ImageKindVariants {
        ImageKindVariants::Gray
    }

    fn kind() -> ImageKindVariants {
        ImageKindVariants::Gray
    }
}

/// One backend-owned pixel buffer together with its sample format, its
/// channel pattern, its extent, and what is known of the capture.
///
/// The marker `K` says what kind of image this is; operations that make sense
/// for one kind only look at it.
pub struct Image<K: ImageKind, B: ImageBackend> {
    meta: Option<Arc<ImageMetadata>>,
    pixfmt: PixelFormat,
    pattern: PatternFormat,
    width: u32,
    height: u32,
    buffer: B::ImageBuffer,
    backend: Arc<B>,
    _k: PhantomData<K>,
}

impl<K: ImageKind, B: ImageBackend> Image<K, B> {
    pub closed spec fn spec_meta(&self) -> Option<Arc<ImageMetadata>> {
        self.meta
    }

    pub closed spec fn spec_pixel_format(&self) -> PixelFormat {
        self.pixfmt
    }

    pub closed spec fn spec_pattern(&self) -> PatternFormat {
        self.pattern
    }

    pub closed spec fn spec_width(&self) -> u32 {
        self.width
    }

    pub closed spec fn spec_height(&self) -> u32 {
        self.height
    }

    pub closed spec fn spec_buffer(&self) -> B::ImageBuffer {
        self.buffer
    }

    pub closed spec fn spec_backend(&self) -> Arc<B> {
        self.backend
    }

    /// Samples per pixel, as the pattern gives them.
    pub open spec fn spec_channels(&self) -> u32 {
        self.spec_pattern().spec_channels()
    }

    /// The layout that the declared format and extent call for.
    pub open spec fn declared_layout(&self) -> BufferLayout {
        BufferLayout {
            stored: self.spec_pixel_format(),
            mapped: self.spec_pixel_format(),
            width: self.spec_width(),
            height: self.spec_height(),
            channels: self.spec_channels(),
        }
    }

    /// The buffer was allocated for exactly the declared format and extent.
    pub open spec fn wf(&self) -> bool {
        B::layout(&self.spec_buffer()) == self.declared_layout()
    }

    /// Everything but the samples is the same in `self` and `other`.
    pub open spec fn same_frame(&self, other: &Self) -> bool {
        &&& self.spec_meta() == other.spec_meta()
        &&& self.spec_pixel_format() == other.spec_pixel_format()
        &&& self.spec_pattern() == other.spec_pattern()
        &&& self.spec_width() == other.spec_width()
        &&& self.spec_height() == other.spec_height()
        &&& self.spec_backend() == other.spec_backend()
        &&& B::layout(&self.spec_buffer()) == B::layout(&other.spec_buffer())
    }

    /// Allocates the buffer for an image of the given extent through `backend`.
    /// Stored and mapped sample formats are both `pixfmt`. Fails exactly when
    /// the allocation does, with the backend's error.
    ///
    /// In the contract: the backend is asked once, for a buffer of `width` by
    /// `height` with the channels of `pattern` and with `pixfmt` as both
    /// formats, and what comes back is the image around the buffer it gave,
    /// or the error it gave.
    pub fn new(
        backend: Arc<B>,
        width: u32,
        height: u32,
        pixfmt: PixelFormat,
        pattern: PatternFormat,
        meta: Option<Arc<ImageMetadata>>,
    ) -> (made: Result<Self, Error>)
        ensures
            exists|allocated: Result<B::ImageBuffer, Error>|
                {
                    &&& #[trigger] call_ensures(
                        B::create_image_buffer,
                        (&*backend, pixfmt, pixfmt, width, height, pattern.spec_channels()),
                        allocated,
                    )
                    &&& Self::wraps(made, allocated, backend, width, height, pixfmt, pattern, meta)
                },
            made matches Ok(image) ==> {
                &&& image.wf()
                &&& image.spec_backend() == backend
                &&& image.spec_width() == width
                &&& image.spec_height() == height
                &&& image.spec_pixel_format() == pixfmt
                &&& image.spec_pattern() == pattern
                &&& image.spec_meta() == meta
            },
    {
        let allocated = backend.create_image_buffer(
            pixfmt,
            pixfmt,
            width,
            height,
            pattern.channels(),
        );
        Self::from_allocation(backend, width, height, pixfmt, pattern, meta, allocated)
    }

    /// Makes the image that owns an allocated buffer, or hands on the error
    /// that the allocation ended in.
    pub fn from_allocation(
        backend: Arc<B>,
        width: u32,
        height: u32,
        pixfmt: PixelFormat,
        pattern: PatternFormat,
        meta: Option<Arc<ImageMetadata>>,
        allocated: Result<B::ImageBuffer, Error>,
    ) -> (made: Result<Self, Error>)
        requires
            allocated matches Ok(buffer) ==> B::layout(&buffer) == (BufferLayout {
                stored: pixfmt,
                mapped: pixfmt,
                width,
                height,
                channels: pattern.spec_channels(),
            }),
        ensures
            Self::wraps(made, allocated, backend, width, height, pixfmt, pattern, meta),
            made matches Ok(image) ==> image.wf(),
    {
        match allocated {
            Ok(buffer) => Ok(
                Self { meta, width, height, buffer, backend, pixfmt, pattern, _k: PhantomData },
            ),
            Err(error) => Err(error),
        }
    }

    #[verifier::when_used_as_spec(spec_width)]
    pub fn width(&self) -> (w: u32)
        ensures
            w == self.spec_width(),
    {
        self.width
    }

    #[verifier::when_used_as_spec(spec_height)]
    pub fn height(&self) -> (h: u32)
        ensures
            h == self.spec_height(),
    {
        self.height
    }

    #[verifier::when_used_as_spec(spec_channels)]
    pub fn channels(&self) -> (n: u32)
        ensures
            n == self.spec_channels(),
    {
        self.pattern.channels()
    }

    /// The sample format, stored and mapped alike.
    #[verifier::when_used_as_spec(spec_pixel_format)]
    pub fn pixel_format(&self) -> (format: PixelFormat)
        ensures
            format == self.spec_pixel_format(),
    {
        self.pixfmt
    }

    pub fn pattern(&self) -> (pattern: &PatternFormat)
        ensures
            *pattern == self.spec_pattern(),
    {
        &self.pattern
    }

    /// What is known of the capture, shared with the images derived from it.
    pub fn meta(&self) -> (meta: &Option<Arc<ImageMetadata>>)
        ensures
            *meta == self.spec_meta(),
    {
        &self.meta
    }

    pub fn buffer(&self) -> (buffer: &B::ImageBuffer)
        ensures
            *buffer == self.spec_buffer(),
    {
        &self.buffer
    }

    /// The backend that owns the buffer.
    pub fn backend(&self) -> (backend: &Arc<B>)
        ensures
            *backend == self.spec_backend(),
    {
        &self.backend
    }

    /// Writes the sample-wise sum of this image and `other` to `dst`,
    /// replacing what `dst` held.
    ///
    /// In the contract: the backend is asked once, with the buffer of `dst`
    /// lent to it, and its answer is what is returned; what the call leaves
    /// in the lent buffer is what `dst` holds afterwards.
    pub fn add(&self, dst: &mut Image<K, B>, other: &Image<K, B>) -> (done: Result<(), Error>)
        requires
            self.spec_width() == other.spec_width(),
            self.spec_height() == other.spec_height(),
        ensures
            final(dst).same_frame(old(dst)),
            exists|lent: &mut B::ImageBuffer|
                {
                    &&& *lent == old(dst).spec_buffer()
                    &&& *final(lent) == final(dst).spec_buffer()
                    &&& call_ensures(
                        B::add,
                        (&*self.spec_backend(), lent, &self.spec_buffer(), &other.spec_buffer()),
                        done,
                    )
                },
            done is Ok ==> final(dst).spec_buffer() == self.spec_backend().added(
                old(dst).spec_buffer(),
                self.spec_buffer(),
                other.spec_buffer(),
            ),
    {
        self.backend.add(&mut dst.buffer, &self.buffer, &other.buffer)
    }

    /// Writes the sample-wise quotient of this image by `other` to `dst`,
    /// replacing what `dst` held.
    ///
    /// In the contract: the backend is asked once, with the buffer of `dst`
    /// lent to it, and its answer is what is returned; what the call leaves
    /// in the lent buffer is what `dst` holds afterwards.
    pub fn div(&self, dst: &mut Image<K, B>, other: &Image<K, B>) -> (done: Result<(), Error>)
        requires
            self.spec_width() == other.spec_width(),
            self.spec_height() == other.spec_height(),
        ensures
            final(dst).same_frame(old(dst)),
            exists|lent: &mut B::ImageBuffer|
                {
                    &&& *lent == old(dst).spec_buffer()
                    &&& *final(lent) == final(dst).spec_buffer()
                    &&& call_ensures(
                        B::div,
                        (&*self.spec_backend(), lent, &self.spec_buffer(), &other.spec_buffer()),
                        done,
                    )
                },
            done is Ok ==> final(dst).spec_buffer() == self.spec_backend().divided(
                old(dst).spec_buffer(),
                self.spec_buffer(),
                other.spec_buffer(),
            ),
    {
        self.backend.div(&mut dst.buffer, &self.buffer, &other.buffer)
    }

    /// Writes this image, turned or mirrored as `orientation` says, to `dst`.
    /// A quarter turn exchanges width and height, so `dst` must have the
    /// extent that [`Orientation::applied_to`] gives.
    ///
    /// In the contract: the backend is asked once, with the buffer of `dst`
    /// lent to it, and its answer is what is returned; what the call leaves
    /// in the lent buffer is what `dst` holds afterwards.
    pub fn apply_orientation(&self, dst: &mut Image<K, B>, orientation: Orientation) -> (done:
        Result<(), Error>)
        requires
            (old(dst).spec_width(), old(dst).spec_height()) == orientation.applied_to(
                self.spec_width(),
                self.spec_height(),
            ),
        ensures
            final(dst).same_frame(old(dst)),
            exists|lent: &mut B::ImageBuffer|
                {
                    &&& *lent == old(dst).spec_buffer()
                    &&& *final(lent) == final(dst).spec_buffer()
                    &&& call_ensures(
                        B::apply_orientation,
                        (&*self.spec_backend(), lent, &self.spec_buffer(), orientation),
                        done,
                    )
                },
            done is Ok ==> final(dst).spec_buffer() == self.spec_backend().oriented(
                old(dst).spec_buffer(),
                self.spec_buffer(),
                orientation,
            ),
    {
        self.backend.apply_orientation(&mut dst.buffer, &self.buffer, orientation)
    }

    /// Writes the luminance of this image to `dst`. With `use_fft` the backend
    /// goes through the frequency domain, without it stays in the spatial one.
    ///
    /// In the contract: the backend is asked once, with the buffer of `dst`
    /// lent to it, and its answer is what is returned; what the call leaves
    /// in the lent buffer is what `dst` holds afterwards.
    pub fn to_gray(&self, dst: &mut Image<GrayImage, B>, use_fft: bool) -> (done: Result<(), Error>)
        ensures
            final(dst).same_frame(old(dst)),
            exists|lent: &mut B::ImageBuffer|
                {
                    &&& *lent == old(dst).spec_buffer()
                    &&& *final(lent) == final(dst).spec_buffer()
                    &&& call_ensures(
                        B::to_gray,
                        (&*self.spec_backend(), lent, &self.spec_buffer(), use_fft),
                        done,
                    )
                },
            done is Ok ==> final(dst).spec_buffer() == self.spec_backend().grayed(
                old(dst).spec_buffer(),
                self.spec_buffer(),
                use_fft,
            ),
    {
        self.backend.to_gray(&mut dst.buffer, &self.buffer, use_fft)
    }

    /// Resamples this image to the larger extent of `dst`.
    ///
    /// In the contract: the backend is asked once, with the buffer of `dst`
    /// lent to it, and its answer is what is returned; what the call leaves
    /// in the lent buffer is what `dst` holds afterwards.
    pub fn upscale(&self, dst: &mut Image<K, B>) -> (done: Result<(), Error>)
        requires
            self.spec_width() <= old(dst).spec_width(),
            self.spec_height() <= old(dst).spec_height(),
        ensures
            final(dst).same_frame(old(dst)),
            exists|lent: &mut B::ImageBuffer|
                {
                    &&& *lent == old(dst).spec_buffer()
                    &&& *final(lent) == final(dst).spec_buffer()
                    &&& call_ensures(
                        B::upscale,
                        (&*self.spec_backend(), lent, &self.spec_buffer()),
                        done,
                    )
                },
            done is Ok ==> final(dst).spec_buffer() == self.spec_backend().upscaled(
                old(dst).spec_buffer(),
                self.spec_buffer(),
            ),
    {
        self.backend.upscale(&mut dst.buffer, &self.buffer)
    }

    /// Reduces the resolution of this image by `factor` into `dst`, after a
    /// Gaussian blur. Only a single luminance plane can be reduced: for any
    /// other kind the call fails and leaves `dst` as it was.
    ///
    /// In the contract, for a luminance plane: the backend is asked once,
    /// with the buffer of `dst` lent to it, for the Gaussian kernel and
    /// `factor`, and its answer is what is returned; what the call leaves in
    /// the lent buffer is what `dst` holds afterwards.
    pub fn downsample(&self, dst: &mut Image<K, B>, factor: Binary32) -> (done: Result<(), Error>)
        ensures
            K::spec_kind() != ImageKindVariants::Gray ==> {
                &&& done == Err::<(), Error>(
                    Error::UnsupportedImageKind("downsample", K::spec_kind()),
                )
                &&& *final(dst) == *old(dst)
            },
            K::spec_kind() == ImageKindVariants::Gray ==> exists|lent: &mut B::ImageBuffer|
                {
                    &&& *lent == old(dst).spec_buffer()
                    &&& *final(lent) == final(dst).spec_buffer()
                    &&& call_ensures(
                        B::downsample,
                        (
                            &*self.spec_backend(),
                            lent,
                            &self.spec_buffer(),
                            KernelKind::Gaussian,
                            factor,
                        ),
                        done,
                    )
                },
            K::spec_kind() == ImageKindVariants::Gray ==> {
                &&& final(dst).same_frame(old(dst))
                &&& done is Ok ==> final(dst).spec_buffer() == self.spec_backend().downsampled(
                    old(dst).spec_buffer(),
                    self.spec_buffer(),
                    KernelKind::Gaussian,
                    factor,
                )
            },
    {
        let kind = K::kind();
        if !matches!(kind, ImageKindVariants::Gray) {
            return Err(Error::UnsupportedImageKind("downsample", kind));
        }
        self.backend.downsample(&mut dst.buffer, &self.buffer, KernelKind::Gaussian, factor)
    }

    /// `made` is what comes of the outcome `allocated` of an allocation: the
    /// image that owns the buffer and holds everything else as given, where
    /// the allocation gave a buffer, and the allocation's error where it
    /// failed.
    pub open spec fn wraps(
        made: Result<Self, Error>,
        allocated: Result<B::ImageBuffer, Error>,
        backend: Arc<B>,
        width: u32,
        height: u32,
        pixfmt: PixelFormat,
        pattern: PatternFormat,
        meta: Option<Arc<ImageMetadata>>,
    ) -> bool {
        match allocated {
            Ok(buffer) => {
                &&& made matches Ok(image)
                &&& image.spec_buffer() == buffer
                &&& image.spec_backend() == backend
                &&& image.spec_width() == width
                &&& image.spec_height() == height
                &&& image.spec_pixel_format() == pixfmt
                &&& image.spec_pattern() == pattern
                &&& image.spec_meta() == meta
            },
            Err(error) => made == Err::<Self, Error>(error),
        }
    }
}

} // verus!
