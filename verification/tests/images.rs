use burst_pyramid::backend::{Backend, BufferLayout, ImageBackend, PixelFormat};
use burst_pyramid::error::Error;
use burst_pyramid::image::meta::{CfaPattern, ImageMetadata, Orientation, PatternFormat};
use burst_pyramid::image::pyramid::ImagePyramid;
use burst_pyramid::image::{
    BayerImage, GrayImage, Image, ImageKind, ImageKindVariants, RgbaImage,
};
use burst_pyramid::math::binary32::Binary32;
use burst_pyramid::math::{KernelKind, Mat, Mat4x3f};
use burst_pyramid::noise::NoiseModel;
use std::cell::{Cell, RefCell};
use std::sync::Arc;

fn b32(value: f32) -> Binary32 {
    Binary32::from_bits(value.to_bits())
}

fn factors(values: &[f32]) -> Vec<Binary32> {
    values.iter().map(|value| b32(*value)).collect()
}

/// A buffer that records its layout and, as a formula, what was written to it.
#[derive(Debug, Clone, PartialEq)]
struct Plane {
    layout: BufferLayout,
    content: String,
}

/// A backend that computes nothing and keeps a record of what it was asked.
struct Recorder {
    image_capable: bool,
    /// The allocation that fails, counted from 0; none fails if `None`.
    failing_allocation: Option<usize>,
    /// The operation that fails, counted from 0; none fails if `None`.
    failing_operation: Option<usize>,
    allocations: RefCell<Vec<BufferLayout>>,
    operations: Cell<usize>,
    upgrades: Cell<usize>,
}

impl Recorder {
    fn new() -> Recorder {
        Recorder {
            image_capable: true,
            failing_allocation: None,
            failing_operation: None,
            allocations: RefCell::new(Vec::new()),
            operations: Cell::new(0),
            upgrades: Cell::new(0),
        }
    }

    fn compute_only() -> Recorder {
        Recorder { image_capable: false, ..Recorder::new() }
    }

    fn failing_allocation(index: usize) -> Recorder {
        Recorder { failing_allocation: Some(index), ..Recorder::new() }
    }

    fn failing_operation(index: usize) -> Recorder {
        Recorder { failing_operation: Some(index), ..Recorder::new() }
    }

    fn operate(&self, dst: &mut Plane, outcome: Plane) -> Result<(), Error> {
        let index = self.operations.get();
        self.operations.set(index + 1);
        if self.failing_operation == Some(index) {
            return Err(Error::BackendFailure(format!("operation {} failed", index)));
        }
        *dst = outcome;
        Ok(())
    }
}

impl Backend for Recorder {
    type ImageBuffer = Plane;
    type Imaging = Recorder;

    fn as_image_backend(self: Arc<Self>) -> Result<Arc<Recorder>, Error> {
        self.upgrades.set(self.upgrades.get() + 1);
        if self.image_capable {
            Ok(self)
        } else {
            Err(Error::ImageBackendUnavailable)
        }
    }
}

impl ImageBackend for Recorder {
    fn layout(buffer: &Plane) -> BufferLayout {
        buffer.layout
    }

    fn downsampled(&self, dst: Plane, from: Plane, kernel: KernelKind, factor: Binary32) -> Plane {
        Plane {
            layout: dst.layout,
            content: format!(
                "downsample({}, {:?}, {})",
                from.content,
                kernel,
                f32::from_bits(factor.to_bits())
            ),
        }
    }

    fn added(&self, dst: Plane, lhs: Plane, rhs: Plane) -> Plane {
        Plane { layout: dst.layout, content: format!("({} + {})", lhs.content, rhs.content) }
    }

    fn divided(&self, dst: Plane, lhs: Plane, rhs: Plane) -> Plane {
        Plane { layout: dst.layout, content: format!("({} / {})", lhs.content, rhs.content) }
    }

    fn oriented(&self, dst: Plane, from: Plane, orientation: Orientation) -> Plane {
        let content = format!("orient({}, {:?})", from.content, orientation);
        Plane { layout: dst.layout, content }
    }

    fn grayed(&self, dst: Plane, from: Plane, use_fft: bool) -> Plane {
        Plane { layout: dst.layout, content: format!("gray({}, fft={})", from.content, use_fft) }
    }

    fn upscaled(&self, dst: Plane, from: Plane) -> Plane {
        Plane { layout: dst.layout, content: format!("upscale({})", from.content) }
    }

    fn create_image_buffer(
        &self,
        stored_px_fmt: PixelFormat,
        mapped_px_fmt: PixelFormat,
        width: u32,
        height: u32,
        channels: u32,
    ) -> Result<Plane, Error> {
        let index = self.allocations.borrow().len();
        let layout =
            BufferLayout { stored: stored_px_fmt, mapped: mapped_px_fmt, width, height, channels };
        self.allocations.borrow_mut().push(layout);
        if self.failing_allocation == Some(index) {
            return Err(Error::BackendFailure(format!("allocation {} failed", index)));
        }
        Ok(Plane { layout, content: format!("fresh{}", index) })
    }

    fn load_image_data_int(&self, _data: &[u16]) {}

    fn load_image_data_float(&self, _data: &[Binary32]) {}

    fn downsample(
        &self,
        dst: &mut Plane,
        from: &Plane,
        kernel: KernelKind,
        factor: Binary32,
    ) -> Result<(), Error> {
        let outcome = self.downsampled(dst.clone(), from.clone(), kernel, factor);
        self.operate(dst, outcome)
    }

    fn add(&self, dst: &mut Plane, lhs: &Plane, rhs: &Plane) -> Result<(), Error> {
        let outcome = self.added(dst.clone(), lhs.clone(), rhs.clone());
        self.operate(dst, outcome)
    }

    fn div(&self, dst: &mut Plane, lhs: &Plane, rhs: &Plane) -> Result<(), Error> {
        let outcome = self.divided(dst.clone(), lhs.clone(), rhs.clone());
        self.operate(dst, outcome)
    }

    fn apply_orientation(
        &self,
        dst: &mut Plane,
        from: &Plane,
        orientation: Orientation,
    ) -> Result<(), Error> {
        let outcome = self.oriented(dst.clone(), from.clone(), orientation);
        self.operate(dst, outcome)
    }

    fn to_gray(&self, dst: &mut Plane, from: &Plane, use_fft: bool) -> Result<(), Error> {
        let outcome = self.grayed(dst.clone(), from.clone(), use_fft);
        self.operate(dst, outcome)
    }

    fn upscale(&self, dst: &mut Plane, from: &Plane) -> Result<(), Error> {
        let outcome = self.upscaled(dst.clone(), from.clone());
        self.operate(dst, outcome)
    }
}

fn layout(format: PixelFormat, width: u32, height: u32, channels: u32) -> BufferLayout {
    BufferLayout { stored: format, mapped: format, width, height, channels }
}

fn mosaic() -> PatternFormat {
    PatternFormat::Cfa(CfaPattern {})
}

fn image<K: ImageKind>(
    backend: &Arc<Recorder>,
    width: u32,
    height: u32,
    pattern: PatternFormat,
) -> Image<K, Recorder> {
    match Image::new(backend.clone(), width, height, PixelFormat::Float, pattern, None) {
        Ok(image) => image,
        Err(error) => panic!("allocation failed: {}", error.message()),
    }
}

fn pyramid(
    backend: &Arc<Recorder>,
    width: u32,
    height: u32,
    tile_size: u32,
    values: &[f32],
) -> ImagePyramid<Recorder> {
    match ImagePyramid::new(backend.clone(), width, height, tile_size, factors(values)) {
        Ok(pyramid) => pyramid,
        Err(error) => panic!("construction failed: {}", error.message()),
    }
}

fn level_extents(pyramid: &ImagePyramid<Recorder>) -> Vec<(u32, u32)> {
    (0..pyramid.len())
        .map(|level| match pyramid.level(level) {
            Some(plane) => (plane.layout.width, plane.layout.height),
            None => panic!("level {} is missing", level),
        })
        .collect()
}

fn level_contents(pyramid: &ImagePyramid<Recorder>) -> Vec<String> {
    (0..pyramid.len())
        .map(|level| match pyramid.level(level) {
            Some(plane) => plane.content.clone(),
            None => panic!("level {} is missing", level),
        })
        .collect()
}

#[test]
fn image_kinds_name_themselves() {
    assert_eq!(BayerImage::kind(), ImageKindVariants::Bayer);
    assert_eq!(RgbaImage::kind(), ImageKindVariants::Rgba);
    assert_eq!(GrayImage::kind(), ImageKindVariants::Gray);
    assert_eq!(ImageKindVariants::Bayer.name(), "bayer");
    assert_eq!(ImageKindVariants::Rgba.name(), "rgba");
    assert_eq!(ImageKindVariants::Gray.name(), "gray");
}

#[test]
fn error_messages() {
    assert_eq!(
        Error::UnsupportedImageKind("downsample", ImageKindVariants::Bayer).message(),
        "Operation (downsample) does not support given image kind bayer"
    );
    assert_eq!(
        Error::UnsupportedImageKind("load_image", ImageKindVariants::Rgba).message(),
        "Operation (load_image) does not support given image kind rgba"
    );
    assert_eq!(
        Error::UnsupportedImageKind("", ImageKindVariants::Gray).message(),
        "Operation () does not support given image kind gray"
    );
    assert_eq!(
        Error::ImageBackendUnavailable.message(),
        "Backend does not support image operations"
    );
    assert_eq!(
        Error::BackendFailure(String::from("out of memory")).message(),
        "Backend failure: out of memory"
    );
}

#[test]
fn image_new_allocates_for_the_declared_format_and_extent() {
    let backend = Arc::new(Recorder::new());
    let made = Image::<RgbaImage, Recorder>::new(
        backend.clone(),
        64,
        64,
        PixelFormat::UnsignedShort,
        PatternFormat::Rgba,
        None,
    );
    let image = match made {
        Ok(image) => image,
        Err(error) => panic!("allocation failed: {}", error.message()),
    };
    assert_eq!(image.width(), 64);
    assert_eq!(image.height(), 64);
    assert_eq!(image.channels(), 4);
    assert_eq!(image.pixel_format(), PixelFormat::UnsignedShort);
    assert!(matches!(image.pattern(), PatternFormat::Rgba));
    assert!(image.meta().is_none());
    assert!(Arc::ptr_eq(image.backend(), &backend));
    assert_eq!(image.buffer().layout, layout(PixelFormat::UnsignedShort, 64, 64, 4));
    assert_eq!(
        *backend.allocations.borrow(),
        vec![layout(PixelFormat::UnsignedShort, 64, 64, 4)]
    );
}

#[test]
fn image_new_allocates_one_channel_for_a_mosaic() {
    let backend = Arc::new(Recorder::new());
    let image: Image<BayerImage, Recorder> = image(&backend, 4032, 3024, mosaic());
    assert_eq!(image.width(), 4032);
    assert_eq!(image.height(), 3024);
    assert_eq!(image.channels(), 1);
    assert_eq!(image.buffer().layout, layout(PixelFormat::Float, 4032, 3024, 1));
}

#[test]
fn image_new_keeps_the_metadata_it_is_given() {
    let backend = Arc::new(Recorder::new());
    let meta = Arc::new(ImageMetadata {
        cfa: CfaPattern {},
        iso_speed: 800,
        shutter_speed: b32(0.01),
        exposure_time: b32(10.0),
        exposure_bias: -1,
        aperture_value: b32(1.8),
        ccm: unit_matrix(),
        noise_model: NoiseModel {},
    });
    let made = Image::<BayerImage, Recorder>::new(
        backend,
        8,
        6,
        PixelFormat::UnsignedShort,
        mosaic(),
        Some(meta.clone()),
    );
    let image = match made {
        Ok(image) => image,
        Err(error) => panic!("allocation failed: {}", error.message()),
    };
    match image.meta() {
        Some(kept) => {
            assert!(Arc::ptr_eq(kept, &meta));
            assert_eq!(kept.iso_speed, 800);
            assert_eq!(kept.exposure_bias, -1);
            assert_eq!(f32::from_bits(kept.aperture_value.to_bits()), 1.8);
            assert_eq!(kept.ccm.rows()[1][1], b32(1.0));
            assert_eq!(kept.ccm.rows()[2][3], b32(0.0));
        },
        None => panic!("the metadata was dropped"),
    }
}

fn unit_matrix() -> Mat4x3f {
    Mat::new([
        [b32(1.0), b32(0.0), b32(0.0), b32(0.0)],
        [b32(0.0), b32(1.0), b32(0.0), b32(0.0)],
        [b32(0.0), b32(0.0), b32(1.0), b32(0.0)],
    ])
}

#[test]
fn image_new_hands_on_the_error_of_the_allocation() {
    let backend = Arc::new(Recorder::failing_allocation(0));
    let made =
        Image::<GrayImage, Recorder>::new(backend, 8, 8, PixelFormat::Float, mosaic(), None);
    match made {
        Err(Error::BackendFailure(reason)) => assert_eq!(reason, "allocation 0 failed"),
        _ => panic!("expected the backend's error"),
    }
}

#[test]
fn image_from_allocation_wraps_a_buffer() {
    let backend = Arc::new(Recorder::new());
    let plane = Plane { layout: layout(PixelFormat::Double, 3, 5, 4), content: String::from("p") };
    let made = Image::<RgbaImage, Recorder>::from_allocation(
        backend.clone(),
        3,
        5,
        PixelFormat::Double,
        PatternFormat::Rgba,
        None,
        Ok(plane.clone()),
    );
    match made {
        Ok(image) => {
            assert_eq!(*image.buffer(), plane);
            assert_eq!((image.width(), image.height(), image.channels()), (3, 5, 4));
            assert_eq!(image.pixel_format(), PixelFormat::Double);
            assert!(Arc::ptr_eq(image.backend(), &backend));
        },
        Err(error) => panic!("unexpected error: {}", error.message()),
    }
    assert!(backend.allocations.borrow().is_empty());
}

#[test]
fn image_from_allocation_hands_on_an_error() {
    let backend = Arc::new(Recorder::new());
    let made = Image::<RgbaImage, Recorder>::from_allocation(
        backend,
        3,
        5,
        PixelFormat::Double,
        PatternFormat::Rgba,
        None,
        Err(Error::BackendFailure(String::from("no room"))),
    );
    match made {
        Err(Error::BackendFailure(reason)) => assert_eq!(reason, "no room"),
        _ => panic!("expected the error that was handed in"),
    }
    let made = Image::<RgbaImage, Recorder>::from_allocation(
        Arc::new(Recorder::new()),
        3,
        5,
        PixelFormat::Double,
        PatternFormat::Rgba,
        None,
        Err(Error::ImageBackendUnavailable),
    );
    assert!(matches!(made, Err(Error::ImageBackendUnavailable)));
}

#[test]
fn downsample_of_a_bayer_image_is_refused() {
    let backend = Arc::new(Recorder::new());
    let source: Image<BayerImage, Recorder> = image(&backend, 16, 16, mosaic());
    let mut dst: Image<BayerImage, Recorder> = image(&backend, 8, 8, mosaic());
    let before = dst.buffer().clone();
    let done = source.downsample(&mut dst, b32(2.0));
    match done {
        Err(Error::UnsupportedImageKind(operation, kind)) => {
            assert_eq!(operation, "downsample");
            assert_eq!(kind, ImageKindVariants::Bayer);
        },
        _ => panic!("expected the call to be refused"),
    }
    assert_eq!(*dst.buffer(), before);
    assert_eq!((dst.width(), dst.height()), (8, 8));
    assert_eq!(backend.operations.get(), 0);
}

#[test]
fn downsample_of_an_rgba_image_is_refused() {
    let backend = Arc::new(Recorder::new());
    let source: Image<RgbaImage, Recorder> = image(&backend, 16, 16, PatternFormat::Rgba);
    let mut dst: Image<RgbaImage, Recorder> = image(&backend, 8, 8, PatternFormat::Rgba);
    let before = dst.buffer().clone();
    let done = source.downsample(&mut dst, b32(2.0));
    match done {
        Err(error) => {
            assert!(matches!(
                error,
                Error::UnsupportedImageKind("downsample", ImageKindVariants::Rgba)
            ));
            assert_eq!(
                error.message(),
                "Operation (downsample) does not support given image kind rgba"
            );
        },
        Ok(()) => panic!("expected the call to be refused"),
    }
    assert_eq!(*dst.buffer(), before);
    assert_eq!(backend.operations.get(), 0);
}

#[test]
fn downsample_of_a_gray_image_goes_to_the_backend() {
    let backend = Arc::new(Recorder::new());
    let source: Image<GrayImage, Recorder> = image(&backend, 16, 16, mosaic());
    let mut dst: Image<GrayImage, Recorder> = image(&backend, 16, 16, mosaic());
    let before = dst.buffer().clone();
    let done = source.downsample(&mut dst, b32(2.0));
    assert!(matches!(done, Ok(())));
    assert_eq!(backend.operations.get(), 1);
    assert_eq!(dst.buffer().content, "downsample(fresh0, Gaussian, 2)");
    assert_eq!(
        *dst.buffer(),
        backend.downsampled(before, source.buffer().clone(), KernelKind::Gaussian, b32(2.0))
    );
    assert_eq!(dst.buffer().layout, layout(PixelFormat::Float, 16, 16, 1));
    assert_eq!(source.buffer().content, "fresh0");
}

#[test]
fn downsample_hands_on_the_error_of_the_backend() {
    let backend = Arc::new(Recorder::failing_operation(0));
    let source: Image<GrayImage, Recorder> = image(&backend, 16, 16, mosaic());
    let mut dst: Image<GrayImage, Recorder> = image(&backend, 8, 8, mosaic());
    match source.downsample(&mut dst, b32(2.0)) {
        Err(Error::BackendFailure(reason)) => assert_eq!(reason, "operation 0 failed"),
        _ => panic!("expected the backend's error"),
    }
    assert_eq!(dst.buffer().layout, layout(PixelFormat::Float, 8, 8, 1));
}

#[test]
fn add_and_div_write_to_the_destination_only() {
    let backend = Arc::new(Recorder::new());
    let lhs: Image<RgbaImage, Recorder> = image(&backend, 4, 4, PatternFormat::Rgba);
    let rhs: Image<RgbaImage, Recorder> = image(&backend, 4, 4, PatternFormat::Rgba);
    let mut dst: Image<RgbaImage, Recorder> = image(&backend, 4, 4, PatternFormat::Rgba);
    assert!(matches!(lhs.add(&mut dst, &rhs), Ok(())));
    assert_eq!(dst.buffer().content, "(fresh0 + fresh1)");
    assert!(matches!(lhs.div(&mut dst, &rhs), Ok(())));
    assert_eq!(dst.buffer().content, "(fresh0 / fresh1)");
    assert_eq!(lhs.buffer().content, "fresh0");
    assert_eq!(rhs.buffer().content, "fresh1");
    assert_eq!(dst.buffer().layout, layout(PixelFormat::Float, 4, 4, 4));
    assert_eq!(backend.operations.get(), 2);
}

#[test]
fn add_hands_on_the_error_of_the_backend() {
    let backend = Arc::new(Recorder::failing_operation(0));
    let lhs: Image<GrayImage, Recorder> = image(&backend, 4, 4, mosaic());
    let rhs: Image<GrayImage, Recorder> = image(&backend, 4, 4, mosaic());
    let mut dst: Image<GrayImage, Recorder> = image(&backend, 4, 4, mosaic());
    assert!(matches!(lhs.add(&mut dst, &rhs), Err(Error::BackendFailure(_))));
    assert_eq!(dst.buffer().content, "fresh2");
    assert!(matches!(lhs.div(&mut dst, &rhs), Ok(())));
}

#[test]
fn apply_orientation_writes_the_turned_image_to_the_destination() {
    let backend = Arc::new(Recorder::new());
    let source: Image<RgbaImage, Recorder> = image(&backend, 6, 4, PatternFormat::Rgba);
    let (width, height) = Orientation::Rotate90Cw.oriented_extent(source.width(), source.height());
    let mut dst: Image<RgbaImage, Recorder> = image(&backend, width, height, PatternFormat::Rgba);
    assert!(matches!(source.apply_orientation(&mut dst, Orientation::Rotate90Cw), Ok(())));
    assert_eq!(dst.buffer().content, "orient(fresh0, Rotate90Cw)");
    assert_eq!((dst.width(), dst.height()), (4, 6));
    assert_eq!(dst.buffer().layout, layout(PixelFormat::Float, 4, 6, 4));
    assert_eq!((source.width(), source.height()), (6, 4));
    assert_eq!(source.buffer().content, "fresh0");
}

#[test]
fn to_gray_passes_the_strategy_on() {
    let backend = Arc::new(Recorder::new());
    let source: Image<BayerImage, Recorder> = image(&backend, 8, 8, mosaic());
    let mut dst: Image<GrayImage, Recorder> = image(&backend, 8, 8, mosaic());
    assert!(matches!(source.to_gray(&mut dst, true), Ok(())));
    assert_eq!(dst.buffer().content, "gray(fresh0, fft=true)");
    assert!(matches!(source.to_gray(&mut dst, false), Ok(())));
    assert_eq!(dst.buffer().content, "gray(fresh0, fft=false)");
    assert_eq!(dst.buffer().layout, layout(PixelFormat::Float, 8, 8, 1));
}

#[test]
fn upscale_writes_to_the_larger_destination() {
    let backend = Arc::new(Recorder::new());
    let source: Image<GrayImage, Recorder> = image(&backend, 8, 8, mosaic());
    let mut dst: Image<GrayImage, Recorder> = image(&backend, 16, 16, mosaic());
    assert!(matches!(source.upscale(&mut dst), Ok(())));
    assert_eq!(dst.buffer().content, "upscale(fresh0)");
    assert_eq!(dst.buffer().layout, layout(PixelFormat::Float, 16, 16, 1));
    assert_eq!((dst.width(), dst.height()), (16, 16));
}

#[test]
fn pyramid_of_a_100_by_60_image() {
    let backend = Arc::new(Recorder::new());
    let pyramid = pyramid(&backend, 100, 60, 32, &[2.0, 2.0]);
    assert_eq!((pyramid.width(), pyramid.height()), (128, 64));
    assert_eq!(pyramid.tile_size(), 32);
    assert_eq!(pyramid.len(), 2);
    assert_eq!(level_extents(&pyramid), vec![(64, 32), (32, 16)]);
    assert_eq!(
        *backend.allocations.borrow(),
        vec![layout(PixelFormat::Float, 64, 32, 1), layout(PixelFormat::Float, 32, 16, 1)]
    );
    assert_eq!(backend.upgrades.get(), 1);
    assert!(pyramid.level(2).is_none());
    assert!(Arc::ptr_eq(pyramid.backend(), &backend));
}

#[test]
fn pyramid_keeps_the_source_rectangle_and_the_factors() {
    let backend = Arc::new(Recorder::new());
    let pyramid = pyramid(&backend, 100, 60, 32, &[1.0, 2.0, 4.0, 4.0]);
    let rect = pyramid.img_rect();
    assert_eq!((rect.left, rect.right, rect.top, rect.bottom), (0, 100, 0, 60));
    assert_eq!(*pyramid.factors(), factors(&[1.0, 2.0, 4.0, 4.0]));
    assert_eq!(pyramid.len(), pyramid.factors().len());
    assert_eq!(level_extents(&pyramid), vec![(128, 64), (64, 32), (16, 8), (4, 2)]);
}

#[test]
fn pyramid_level_extents_can_be_worked_out_again() {
    let backend = Arc::new(Recorder::new());
    let pyramid = pyramid(&backend, 100, 60, 32, &[1.0, 2.0, 4.0, 4.0]);
    assert_eq!(pyramid.level_extent(0), Some((128, 64)));
    assert_eq!(pyramid.level_extent(1), Some((64, 32)));
    assert_eq!(pyramid.level_extent(2), Some((16, 8)));
    assert_eq!(pyramid.level_extent(3), Some((4, 2)));
    assert_eq!(pyramid.level_extent(4), None);
    let extents: Vec<(u32, u32)> =
        (0..pyramid.len()).filter_map(|level| pyramid.level_extent(level)).collect();
    assert_eq!(extents, level_extents(&pyramid));
    let empty = self::pyramid(&backend, 100, 60, 32, &[]);
    assert_eq!(empty.level_extent(0), None);
}

#[test]
fn pyramid_levels_round_down() {
    let backend = Arc::new(Recorder::new());
    let pyramid = pyramid(&backend, 100, 50, 10, &[3.0, 1.5, 2.5]);
    assert_eq!((pyramid.width(), pyramid.height()), (100, 50));
    assert_eq!(level_extents(&pyramid), vec![(33, 16), (22, 10), (8, 4)]);
}

#[test]
fn pyramid_levels_do_not_grow_under_factors_of_one_or_more() {
    let backend = Arc::new(Recorder::new());
    let pyramid = pyramid(&backend, 1000, 700, 16, &[1.0, 1.0000001, 1.5, 2.0, 3.75, 1e9]);
    let mut before = (pyramid.width(), pyramid.height());
    assert_eq!(before, (1008, 704));
    for extent in level_extents(&pyramid) {
        assert!(extent.0 <= before.0 && extent.1 <= before.1);
        before = extent;
    }
    assert_eq!(
        level_extents(&pyramid),
        vec![(1008, 704), (1007, 703), (671, 468), (335, 234), (89, 62), (0, 0)]
    );
    // A factor below one makes a level larger.
    let grown = self::pyramid(&backend, 10, 10, 1, &[0.5]);
    assert_eq!(level_extents(&grown), vec![(20, 20)]);
}

#[test]
fn pyramid_without_factors_has_no_levels() {
    let backend = Arc::new(Recorder::new());
    let pyramid = pyramid(&backend, 100, 60, 32, &[]);
    assert_eq!(pyramid.len(), 0);
    assert_eq!((pyramid.width(), pyramid.height()), (128, 64));
    assert!(pyramid.level(0).is_none());
    assert!(backend.allocations.borrow().is_empty());
}

#[test]
fn pyramid_of_an_image_of_whole_tiles_is_not_padded() {
    let backend = Arc::new(Recorder::new());
    let pyramid = pyramid(&backend, 128, 64, 32, &[2.0]);
    assert_eq!((pyramid.width(), pyramid.height()), (128, 64));
    assert_eq!(level_extents(&pyramid), vec![(64, 32)]);
    let empty = self::pyramid(&backend, 0, 0, 16, &[2.0]);
    assert_eq!((empty.width(), empty.height()), (0, 0));
    assert_eq!(level_extents(&empty), vec![(0, 0)]);
}

#[test]
fn pyramid_with_factors_that_have_no_quotient() {
    let backend = Arc::new(Recorder::new());
    let pyramid = pyramid(&backend, 64, 64, 32, &[0.0, f32::NAN, 2.0]);
    assert_eq!(level_extents(&pyramid), vec![(u32::MAX, u32::MAX), (0, 0), (0, 0)]);
    let pyramid = self::pyramid(&backend, 64, 0, 32, &[-2.0, f32::INFINITY]);
    assert_eq!(level_extents(&pyramid), vec![(0, 0), (0, 0)]);
    let pyramid = self::pyramid(&backend, 64, 0, 32, &[0.0]);
    assert_eq!(level_extents(&pyramid), vec![(u32::MAX, 0)]);
}

#[test]
fn pyramid_on_a_backend_without_image_support() {
    let backend = Arc::new(Recorder::compute_only());
    let made = ImagePyramid::new(backend.clone(), 100, 60, 32, factors(&[2.0, 2.0]));
    assert!(matches!(made, Err(Error::ImageBackendUnavailable)));
    assert_eq!(backend.upgrades.get(), 1);
    assert!(backend.allocations.borrow().is_empty());
}

#[test]
fn pyramid_on_a_backend_without_image_support_looks_at_no_extent() {
    let backend = Arc::new(Recorder::compute_only());
    let made = ImagePyramid::new(backend.clone(), u32::MAX, u32::MAX, 0, factors(&[2.0]));
    assert!(matches!(made, Err(Error::ImageBackendUnavailable)));
    assert!(backend.allocations.borrow().is_empty());
    let made = ImagePyramid::<Recorder>::from_upgrade(
        Err(Error::ImageBackendUnavailable),
        u32::MAX,
        7,
        2,
        factors(&[2.0]),
    );
    assert!(matches!(made, Err(Error::ImageBackendUnavailable)));
    let made = ImagePyramid::<Recorder>::from_levels(
        backend,
        7,
        u32::MAX,
        0,
        factors(&[2.0]),
        Err(Error::BackendFailure(String::from("no room"))),
    );
    assert!(matches!(made, Err(Error::BackendFailure(_))));
}

#[test]
fn pyramid_from_a_failed_upgrade_hands_on_its_error() {
    let made = ImagePyramid::<Recorder>::from_upgrade(
        Err(Error::BackendFailure(String::from("device lost"))),
        100,
        60,
        32,
        factors(&[2.0, 2.0]),
    );
    match made {
        Err(Error::BackendFailure(reason)) => assert_eq!(reason, "device lost"),
        _ => panic!("expected the error that was handed in"),
    }
}

#[test]
fn pyramid_from_a_successful_upgrade_allocates_through_it() {
    let backend = Arc::new(Recorder::new());
    let made = ImagePyramid::<Recorder>::from_upgrade(
        Ok(backend.clone()),
        100,
        60,
        32,
        factors(&[2.0, 2.0]),
    );
    match made {
        Ok(pyramid) => {
            assert_eq!(level_extents(&pyramid), vec![(64, 32), (32, 16)]);
            assert!(Arc::ptr_eq(pyramid.backend(), &backend));
        },
        Err(error) => panic!("unexpected error: {}", error.message()),
    }
    assert_eq!(backend.upgrades.get(), 0);
    assert_eq!(backend.allocations.borrow().len(), 2);
}

#[test]
fn allocate_levels_asks_for_one_buffer_for_each_factor() {
    let backend = Arc::new(Recorder::new());
    let allocated =
        ImagePyramid::<Recorder>::allocate_levels(&backend, 128, 64, &factors(&[2.0, 2.0, 1.5]));
    match allocated {
        Ok(levels) => {
            let layouts: Vec<BufferLayout> = levels.iter().map(|plane| plane.layout).collect();
            assert_eq!(
                layouts,
                vec![
                    layout(PixelFormat::Float, 64, 32, 1),
                    layout(PixelFormat::Float, 32, 16, 1),
                    layout(PixelFormat::Float, 21, 10, 1),
                ]
            );
            assert_eq!(layouts, *backend.allocations.borrow());
        },
        Err(error) => panic!("unexpected error: {}", error.message()),
    }
    let none = ImagePyramid::<Recorder>::allocate_levels(&backend, 128, 64, &factors(&[]));
    assert!(matches!(none, Ok(levels) if levels.is_empty()));
}

#[test]
fn allocate_levels_stops_at_the_allocation_that_fails() {
    let backend = Arc::new(Recorder::failing_allocation(0));
    let allocated =
        ImagePyramid::<Recorder>::allocate_levels(&backend, 128, 64, &factors(&[2.0, 2.0]));
    match allocated {
        Err(Error::BackendFailure(reason)) => assert_eq!(reason, "allocation 0 failed"),
        _ => panic!("expected the backend's error"),
    }
    assert_eq!(backend.allocations.borrow().len(), 1);
}

#[test]
fn pyramid_from_levels_owns_the_levels_it_is_given() {
    let backend = Arc::new(Recorder::new());
    let levels = vec![
        Plane { layout: layout(PixelFormat::Float, 64, 32, 1), content: String::from("a") },
        Plane { layout: layout(PixelFormat::Float, 32, 16, 1), content: String::from("b") },
    ];
    let made = ImagePyramid::<Recorder>::from_levels(
        backend.clone(),
        100,
        60,
        32,
        factors(&[2.0, 2.0]),
        Ok(levels.clone()),
    );
    match made {
        Ok(pyramid) => {
            assert_eq!((pyramid.width(), pyramid.height()), (128, 64));
            assert_eq!(pyramid.tile_size(), 32);
            assert_eq!(pyramid.len(), 2);
            assert_eq!(pyramid.level(0), Some(&levels[0]));
            assert_eq!(pyramid.level(1), Some(&levels[1]));
            assert_eq!(*pyramid.factors(), factors(&[2.0, 2.0]));
            let rect = pyramid.img_rect();
            assert_eq!((rect.left, rect.right, rect.top, rect.bottom), (0, 100, 0, 60));
            assert!(Arc::ptr_eq(pyramid.backend(), &backend));
        },
        Err(error) => panic!("unexpected error: {}", error.message()),
    }
    assert!(backend.allocations.borrow().is_empty());
}

#[test]
fn pyramid_from_levels_hands_on_an_error() {
    let made = ImagePyramid::<Recorder>::from_levels(
        Arc::new(Recorder::new()),
        100,
        60,
        32,
        factors(&[2.0, 2.0]),
        Err(Error::BackendFailure(String::from("no room"))),
    );
    match made {
        Err(Error::BackendFailure(reason)) => assert_eq!(reason, "no room"),
        _ => panic!("expected the error that was handed in"),
    }
}

#[test]
fn pyramid_hands_on_the_error_of_an_allocation() {
    let backend = Arc::new(Recorder::failing_allocation(1));
    let made = ImagePyramid::new(backend.clone(), 100, 60, 32, factors(&[2.0, 2.0, 2.0]));
    match made {
        Err(Error::BackendFailure(reason)) => assert_eq!(reason, "allocation 1 failed"),
        _ => panic!("expected the backend's error"),
    }
    // The third level was never asked for.
    assert_eq!(backend.allocations.borrow().len(), 2);
}

#[test]
fn load_image_fills_every_level_from_the_one_before() {
    let backend = Arc::new(Recorder::new());
    let source: Image<GrayImage, Recorder> = image(&backend, 100, 60, mosaic());
    let mut pyramid = pyramid(&backend, 100, 60, 32, &[1.0, 2.0, 4.0]);
    assert_eq!(level_contents(&pyramid), vec!["fresh1", "fresh2", "fresh3"]);
    assert!(matches!(pyramid.load_image(&source), Ok(())));
    assert_eq!(
        level_contents(&pyramid),
        vec![
            "downsample(fresh0, Gaussian, 1)",
            "downsample(downsample(fresh0, Gaussian, 1), Gaussian, 2)",
            "downsample(downsample(downsample(fresh0, Gaussian, 1), Gaussian, 2), Gaussian, 4)",
        ]
    );
    assert_eq!(level_extents(&pyramid), vec![(128, 64), (64, 32), (16, 8)]);
    assert_eq!(backend.operations.get(), 3);
    assert_eq!(source.buffer().content, "fresh0");
    assert_eq!(pyramid.len(), 3);
}

#[test]
fn load_image_can_be_repeated() {
    let backend = Arc::new(Recorder::new());
    let first: Image<GrayImage, Recorder> = image(&backend, 64, 64, mosaic());
    let second: Image<GrayImage, Recorder> = image(&backend, 64, 64, mosaic());
    let mut pyramid = pyramid(&backend, 64, 64, 16, &[2.0, 2.0]);
    assert!(matches!(pyramid.load_image(&first), Ok(())));
    assert!(matches!(pyramid.load_image(&second), Ok(())));
    assert_eq!(
        level_contents(&pyramid),
        vec![
            "downsample(fresh1, Gaussian, 2)",
            "downsample(downsample(fresh1, Gaussian, 2), Gaussian, 2)",
        ]
    );
    assert_eq!(level_extents(&pyramid), vec![(32, 32), (16, 16)]);
}

#[test]
fn load_image_into_a_pyramid_without_levels() {
    let backend = Arc::new(Recorder::new());
    let source: Image<GrayImage, Recorder> = image(&backend, 64, 64, mosaic());
    let mut pyramid = pyramid(&backend, 64, 64, 16, &[]);
    assert!(matches!(pyramid.load_image(&source), Ok(())));
    assert_eq!(pyramid.len(), 0);
    assert_eq!(backend.operations.get(), 0);
}

#[test]
fn load_image_refuses_an_image_that_is_not_gray() {
    let backend = Arc::new(Recorder::new());
    let bayer: Image<BayerImage, Recorder> = image(&backend, 64, 64, mosaic());
    let rgba: Image<RgbaImage, Recorder> = image(&backend, 64, 64, PatternFormat::Rgba);
    let mut pyramid = pyramid(&backend, 64, 64, 16, &[2.0, 2.0]);
    let before = level_contents(&pyramid);
    match pyramid.load_image(&bayer) {
        Err(Error::UnsupportedImageKind(operation, kind)) => {
            assert_eq!(operation, "load_image");
            assert_eq!(kind, ImageKindVariants::Bayer);
        },
        _ => panic!("expected the call to be refused"),
    }
    assert!(matches!(
        pyramid.load_image(&rgba),
        Err(Error::UnsupportedImageKind("load_image", ImageKindVariants::Rgba))
    ));
    assert_eq!(level_contents(&pyramid), before);
    assert_eq!(backend.operations.get(), 0);
}

#[test]
fn load_image_stops_at_the_level_that_fails() {
    let backend = Arc::new(Recorder::failing_operation(1));
    let source: Image<GrayImage, Recorder> = image(&backend, 64, 64, mosaic());
    let mut pyramid = pyramid(&backend, 64, 64, 16, &[2.0, 2.0, 2.0]);
    match pyramid.load_image(&source) {
        Err(Error::BackendFailure(reason)) => assert_eq!(reason, "operation 1 failed"),
        _ => panic!("expected the backend's error"),
    }
    assert_eq!(
        level_contents(&pyramid),
        vec!["downsample(fresh0, Gaussian, 2)", "fresh2", "fresh3"]
    );
    assert_eq!(level_extents(&pyramid), vec![(32, 32), (16, 16), (8, 8)]);
    assert_eq!(backend.operations.get(), 2);
    assert_eq!(pyramid.len(), 3);
}
