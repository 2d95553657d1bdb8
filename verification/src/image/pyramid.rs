//! The multi-resolution ladder that block matching searches from coarse to fine.

use std::sync::Arc;
use vstd::arithmetic::div_mod::{
    lemma_fundamental_div_mod,
    lemma_mod_bound,
    lemma_mod_multiples_basic,
};
use vstd::arithmetic::power2::lemma_pow2_pos;
use vstd::prelude::*;

use crate::backend::{Backend, BufferLayout, ImageBackend, PixelFormat};
use crate::error::Error;
use crate::image::{Image, ImageKind, ImageKindVariants};
use crate::math::binary32::{
    divide_floor,
    floor_quotient,
    floor_quotient_by_one_or_more,
    saturating_floor_quotient,
    Binary32,
};
use crate::math::{KernelKind, Rect};

verus! {

/// `dim` with padding added on one side until it is a multiple of `tile`: the
/// padding is `tile - dim % tile` where the remainder is not zero, and nothing
/// where it is.
pub open spec fn padded(dim: nat, tile: nat) -> nat {
    if dim % tile == 0 {
        dim
    } else {
        (dim + (tile - dim % tile)) as nat
    }
}

/// The extent along one axis that is left of `base` once the first `steps`
/// entries of `factors` have been applied in turn, each dividing what the one
/// before it left and rounding down.
pub open spec fn extent_after(base: u32, factors: Seq<Binary32>, steps: nat) -> u32
    decreases steps,
{
    if steps == 0 {
        base
    } else {
        saturating_floor_quotient(
            extent_after(base, factors, (steps - 1) as nat),
            factors[steps - 1],
        )
    }
}

/// The layout of level `level` of a pyramid whose padded base is `width` by
/// `height`: one channel of single-precision samples, of the extent that the
/// factors up to and including the level's own leave.
pub open spec fn level_layout(
    width: u32,
    height: u32,
    factors: Seq<Binary32>,
    level: int,
) -> BufferLayout {
    BufferLayout {
        stored: PixelFormat::Float,
        mapped: PixelFormat::Float,
        width: extent_after(width, factors, (level + 1) as nat),
        height: extent_after(height, factors, (level + 1) as nat),
        channels: 1,
    }
}

/// Rounds `dim` up to the next multiple of `tile_size`.
pub fn pad_to_tile(dim: u32, tile_size: u32) -> (out: u32)
    requires
        tile_size > 0,
        padded(dim as nat, tile_size as nat) <= u32::MAX,
    ensures
        out == padded(dim as nat, tile_size as nat),
{
    let rem: u32 = dim % tile_size;
    if rem == 0 {
        dim
    } else {
        dim + (tile_size - rem)
    }
}

/// Rounds `dim` up to the next multiple of `tile_size`, if there are tiles to
/// speak of and a `u32` holds the outcome.
pub fn checked_pad_to_tile(dim: u32, tile_size: u32) -> (out: Option<u32>)
    ensures
        match out {
            Some(extent) => tile_size > 0 && extent == padded(dim as nat, tile_size as nat),
            None => tile_size == 0 || padded(dim as nat, tile_size as nat) > u32::MAX,
        },
{
    if tile_size == 0 {
        return None;
    }
    let rem: u32 = dim % tile_size;
    if rem == 0 {
        Some(dim)
    } else if tile_size - rem <= u32::MAX - dim {
        Some(dim + (tile_size - rem))
    } else {
        None
    }
}

/// `padded(dim, tile)` is the smallest multiple of `tile` that is not below
/// `dim`: it is a multiple of `tile`, it is not below `dim`, and no multiple
/// of `tile` that is not below `dim` is smaller.
pub proof fn padded_is_least_multiple(dim: nat, tile: nat, multiple: nat)
    requires
        tile > 0,
    ensures
        padded(dim, tile) % tile == 0,
        dim <= padded(dim, tile) < dim + tile,
        multiple % tile == 0 && dim <= multiple ==> padded(dim, tile) <= multiple,
{
    let p = padded(dim, tile);
    let t = tile as int;
    lemma_fundamental_div_mod(dim as int, t);
    lemma_mod_bound(dim as int, t);
    if dim % tile != 0 {
        // p = tile * (dim / tile + 1)
        assert(p == t * (dim as int / t + 1)) by (nonlinear_arith)
            requires
                p == dim + (t - dim as int % t),
                dim as int == t * (dim as int / t) + dim as int % t,
        ;
        lemma_mod_multiples_basic(dim as int / t + 1, t);
        assert(t * (dim as int / t + 1) == (dim as int / t + 1) * t) by (nonlinear_arith);
    }
    if multiple % tile == 0 && dim <= multiple && p > multiple {
        // Two multiples of `tile` that differ by less than `tile` are equal.
        lemma_fundamental_div_mod(multiple as int, t);
        lemma_fundamental_div_mod(p as int, t);
        let a = p as int / t;
        let b = multiple as int / t;
        assert(false) by (nonlinear_arith)
            requires
                p == t * a,
                multiple == t * b,
                0 < p - multiple < t,
                t > 0,
        ;
    }
}

/// A ladder of single-channel buffers, one for each resampling factor, each
/// smaller than the one before by its factor. The first is reduced from the
/// base extent, which is the extent of the source image padded to whole tiles.
pub struct ImagePyramid<B: ImageBackend> {
    img_rect: Rect<u32>,
    height: u32,
    width: u32,
    tile_size: u32,
    pyramid: Vec<B::ImageBuffer>,
    factors: Vec<Binary32>,
    backend: Arc<B::Imaging>,
}

impl<B: ImageBackend> ImagePyramid<B> where B::Imaging: ImageBackend<ImageBuffer = B::ImageBuffer> {
    /// The rectangle of the source image, before padding.
    pub closed spec fn spec_img_rect(&self) -> Rect<u32> {
        self.img_rect
    }

    /// Width of the padded base.
    pub closed spec fn spec_width(&self) -> u32 {
        self.width
    }

    /// Height of the padded base.
    pub closed spec fn spec_height(&self) -> u32 {
        self.height
    }

    pub closed spec fn spec_tile_size(&self) -> u32 {
        self.tile_size
    }

    /// The buffers, from the finest level to the coarsest.
    pub closed spec fn levels(&self) -> Seq<B::ImageBuffer> {
        self.pyramid@
    }

    pub closed spec fn spec_factors(&self) -> Seq<Binary32> {
        self.factors@
    }

    /// The image backend that allocated the levels and fills them.
    pub closed spec fn spec_backend(&self) -> Arc<B::Imaging> {
        self.backend
    }

    /// There is one level for each factor; the base extent is the source
    /// extent padded to whole tiles; and each level was allocated with the
    /// layout that [`level_layout`] gives it.
    pub open spec fn wf(&self) -> bool {
        &&& self.spec_tile_size() > 0
        &&& self.spec_img_rect().left == 0
        &&& self.spec_img_rect().top == 0
        &&& self.spec_width() == padded(
            self.spec_img_rect().right as nat,
            self.spec_tile_size() as nat,
        )
        &&& self.spec_height() == padded(
            self.spec_img_rect().bottom as nat,
            self.spec_tile_size() as nat,
        )
        &&& Self::levels_fit(
            self.levels(),
            self.spec_width(),
            self.spec_height(),
            self.spec_factors(),
        )
    }

    /// There is one buffer in `levels` for each factor, and each has the
    /// layout that [`level_layout`] gives its level in a pyramid whose padded
    /// base is `width` by `height`.
    pub open spec fn levels_fit(
        levels: Seq<B::ImageBuffer>,
        width: u32,
        height: u32,
        factors: Seq<Binary32>,
    ) -> bool {
        &&& levels.len() == factors.len()
        &&& forall|level: int|
            0 <= level < levels.len() ==> #[trigger] <B::Imaging as ImageBackend>::layout(
                &levels[level],
            ) == level_layout(width, height, factors, level)
    }

    /// Everything but the samples of the levels is the same in `self` and `other`.
    pub open spec fn same_frame(&self, other: &Self) -> bool {
        &&& self.spec_img_rect() == other.spec_img_rect()
        &&& self.spec_width() == other.spec_width()
        &&& self.spec_height() == other.spec_height()
        &&& self.spec_tile_size() == other.spec_tile_size()
        &&& self.spec_factors() == other.spec_factors()
        &&& self.spec_backend() == other.spec_backend()
        &&& self.levels().len() == other.levels().len()
        &&& forall|level: int|
            0 <= level < self.levels().len() ==> #[trigger] <B::Imaging as ImageBackend>::layout(
                &self.levels()[level],
            ) == <B::Imaging as ImageBackend>::layout(&other.levels()[level])
    }

    /// What level `level` holds once the pyramid has been filled from
    /// `source`: the first level is `source` reduced by the first factor, and
    /// every later level is the level before it reduced by its own factor,
    /// always after a Gaussian blur and into the buffer the level had.
    pub open spec fn filled_level(
        backend: B::Imaging,
        levels: Seq<B::ImageBuffer>,
        factors: Seq<Binary32>,
        source: B::ImageBuffer,
        level: int,
    ) -> B::ImageBuffer
        decreases level,
    {
        backend.downsampled(
            levels[level],
            if level <= 0 {
                source
            } else {
                Self::filled_level(backend, levels, factors, source, level - 1)
            },
            KernelKind::Gaussian,
            factors[level],
        )
    }

    /// Width and height that level `level` is reduced from: the padded base for
    /// the first level, the level before it for every other.
    pub open spec fn extent_before(&self, level: int) -> (u32, u32) {
        if level <= 0 {
            (self.spec_width(), self.spec_height())
        } else {
            (
                <B::Imaging as ImageBackend>::layout(&self.levels()[level - 1]).width,
                <B::Imaging as ImageBackend>::layout(&self.levels()[level - 1]).height,
            )
        }
    }

    /// The base of a pyramid is the source extent brought up to whole tiles:
    /// along each axis the smallest multiple of the tile size that is not
    /// below the extent of the source image.
    pub proof fn base_is_least_tile_multiple(&self, multiple: nat)
        requires
            self.wf(),
        ensures
            self.spec_width() % self.spec_tile_size() == 0,
            self.spec_height() % self.spec_tile_size() == 0,
            self.spec_img_rect().right <= self.spec_width(),
            self.spec_img_rect().bottom <= self.spec_height(),
            multiple % (self.spec_tile_size() as nat) == 0 && self.spec_img_rect().right
                <= multiple ==> self.spec_width() <= multiple,
            multiple % (self.spec_tile_size() as nat) == 0 && self.spec_img_rect().bottom
                <= multiple ==> self.spec_height() <= multiple,
    {
        padded_is_least_multiple(
            self.spec_img_rect().right as nat,
            self.spec_tile_size() as nat,
            multiple,
        );
        padded_is_least_multiple(
            self.spec_img_rect().bottom as nat,
            self.spec_tile_size() as nat,
            multiple,
        );
    }

    /// A pyramid has one level for each factor, and the extent of each level
    /// is the extent it is reduced from, divided by the level's factor and
    /// rounded down. This holds of every factor that has a quotient, which
    /// leaves out the zeros and the NaNs, and of every level whose exact
    /// extent is one that a `u32` can hold.
    pub proof fn level_extent_is_floor_of_quotient(&self, level: int)
        requires
            self.wf(),
            0 <= level < self.levels().len(),
            !self.spec_factors()[level].is_nan(),
            !self.spec_factors()[level].is_zero(),
            0 <= floor_quotient(self.extent_before(level).0 as nat, self.spec_factors()[level])
                <= u32::MAX,
            0 <= floor_quotient(self.extent_before(level).1 as nat, self.spec_factors()[level])
                <= u32::MAX,
        ensures
            self.levels().len() == self.spec_factors().len(),
            <B::Imaging as ImageBackend>::layout(&self.levels()[level]).width == floor_quotient(
                self.extent_before(level).0 as nat,
                self.spec_factors()[level],
            ),
            <B::Imaging as ImageBackend>::layout(&self.levels()[level]).height == floor_quotient(
                self.extent_before(level).1 as nat,
                self.spec_factors()[level],
            ),
    {
        let factors = self.spec_factors();
        if level > 0 {
            assert(<B::Imaging as ImageBackend>::layout(&self.levels()[level - 1]) == level_layout(
                self.spec_width(),
                self.spec_height(),
                factors,
                level - 1,
            ));
        }
        assert(<B::Imaging as ImageBackend>::layout(&self.levels()[level]) == level_layout(
            self.spec_width(),
            self.spec_height(),
            factors,
            level,
        ));
        assert(extent_after(self.spec_width(), factors, 0) == self.spec_width());
        assert(extent_after(self.spec_height(), factors, 0) == self.spec_height());
    }

    /// A level whose factor is not below one is not larger than what it is
    /// reduced from.
    pub proof fn level_is_not_larger_than_the_one_before(&self, level: int)
        requires
            self.wf(),
            0 <= level < self.levels().len(),
            self.spec_factors()[level].is_finite(),
            !self.spec_factors()[level].sign_bit(),
            self.spec_factors()[level].denominator() <= self.spec_factors()[level].numerator(),
        ensures
            <B::Imaging as ImageBackend>::layout(&self.levels()[level]).width
                <= self.extent_before(level).0,
            <B::Imaging as ImageBackend>::layout(&self.levels()[level]).height
                <= self.extent_before(level).1,
    {
        let factor = self.spec_factors()[level];
        floor_quotient_by_one_or_more(self.extent_before(level).0 as nat, factor);
        floor_quotient_by_one_or_more(self.extent_before(level).1 as nat, factor);
        assert(!factor.is_zero()) by {
            lemma_pow2_pos((-factor.exponent()) as nat);
        }
        self.level_extent_is_floor_of_quotient(level);
    }

    /// The number of levels.
    pub fn len(&self) -> (count: usize)
        ensures
            count == self.levels().len(),
    {
        self.pyramid.len()
    }

    /// Width of the padded base.
    #[verifier::when_used_as_spec(spec_width)]
    pub fn width(&self) -> (width: u32)
        ensures
            width == self.spec_width(),
    {
        self.width
    }

    /// Height of the padded base.
    #[verifier::when_used_as_spec(spec_height)]
    pub fn height(&self) -> (height: u32)
        ensures
            height == self.spec_height(),
    {
        self.height
    }

    #[verifier::when_used_as_spec(spec_tile_size)]
    pub fn tile_size(&self) -> (tile_size: u32)
        ensures
            tile_size == self.spec_tile_size(),
    {
        self.tile_size
    }

    /// The rectangle of the source image, before padding.
    #[verifier::when_used_as_spec(spec_img_rect)]
    pub fn img_rect(&self) -> (rect: Rect<u32>)
        ensures
            rect == self.spec_img_rect(),
    {
        self.img_rect
    }

    /// The resampling factors, in the order in which they are applied.
    pub fn factors(&self) -> (factors: &Vec<Binary32>)
        ensures
            factors@ == self.spec_factors(),
    {
        &self.factors
    }

    /// The buffer of level `level`, if there is such a level.
    pub fn level(&self, level: usize) -> (buffer: Option<&B::ImageBuffer>)
        ensures
            level < self.levels().len() ==> buffer == Some(&self.levels()[level as int]),
            level >= self.levels().len() ==> buffer is None,
    {
        if level < self.pyramid.len() {
            Some(&self.pyramid[level])
        } else {
            None
        }
    }

    /// Width and height of level `level`, if there is such a level, worked
    /// out again from the padded base and the factors.
    pub fn level_extent(&self, level: usize) -> (extent: Option<(u32, u32)>)
        requires
            self.wf(),
        ensures
            level < self.levels().len() ==> extent == Some(
                (
                    <B::Imaging as ImageBackend>::layout(&self.levels()[level as int]).width,
                    <B::Imaging as ImageBackend>::layout(&self.levels()[level as int]).height,
                ),
            ),
            level >= self.levels().len() ==> extent is None,
    {
        if level >= self.pyramid.len() {
            return None;
        }
        let mut width: u32 = self.width;
        let mut height: u32 = self.height;
        let mut step: usize = 0;
        while step <= level
            invariant
                self.wf(),
                level < self.factors.len(),
                step <= level + 1,
                width == extent_after(self.width, self.factors@, step as nat),
                height == extent_after(self.height, self.factors@, step as nat),
            decreases level + 1 - step,
        {
            let factor = self.factors[step];
            width = divide_floor(width, factor);
            height = divide_floor(height, factor);
            step = step + 1;
        }
        proof {
            assert(<B::Imaging as ImageBackend>::layout(&self.levels()[level as int])
                == level_layout(self.width, self.height, self.factors@, level as int));
        }
        Some((width, height))
    }

    /// The image backend that allocated the levels and fills them.
    pub fn backend(&self) -> (backend: &Arc<B::Imaging>)
        ensures
            *backend == self.spec_backend(),
    {
        &self.backend
    }

    /// The levels below `filled` hold what filling the pyramid `before` from
    /// `source` puts there, and the levels above `filled` are as they were in
    /// `before`.
    pub open spec fn filled_below(
        &self,
        before: &Self,
        source: B::ImageBuffer,
        filled: int,
    ) -> bool {
        &&& self.levels().len() == before.levels().len()
        &&& forall|level: int|
            0 <= level < filled && level < self.levels().len() ==> #[trigger] self.levels()[level]
                == Self::filled_level(
                *before.spec_backend(),
                before.levels(),
                before.spec_factors(),
                source,
                level,
            )
        &&& forall|level: int|
            filled < level < self.levels().len() ==> #[trigger] self.levels()[level]
                == before.levels()[level]
    }

    /// Builds the pyramid for a source image of `width` by `height` on the
    /// image-capable form of `b`.
    ///
    /// Fails with the error of the upgrade if `b` has no such form, before
    /// anything is allocated, and with the error of the allocation if one of
    /// the levels cannot be allocated.
    ///
    /// A tile size above zero and padded extents that a `u32` holds are
    /// demanded only where `b` can answer with an image-capable form: a
    /// failed upgrade is handed on whatever the extent.
    ///
    /// In the contract: `b` is asked once for its image-capable form, and
    /// what comes back is what [`Self::from_upgrade`] builds on the answer.
    pub fn new(b: Arc<B>, width: u32, height: u32, tile_size: u32, factors: Vec<Binary32>) -> (made:
        Result<Self, Error>)
        requires
            forall|upgraded: Result<Arc<B::Imaging>, Error>|
                #[trigger] call_ensures(B::as_image_backend, (b,), upgraded) && upgraded is Ok ==> {
                    &&& tile_size > 0
                    &&& padded(width as nat, tile_size as nat) <= u32::MAX
                    &&& padded(height as nat, tile_size as nat) <= u32::MAX
                },
        ensures
            exists|upgraded: Result<Arc<B::Imaging>, Error>|
                {
                    &&& #[trigger] call_ensures(B::as_image_backend, (b,), upgraded)
                    &&& Self::built_on(made, upgraded, width, height, tile_size, factors@)
                },
            made matches Ok(pyramid) ==> {
                &&& pyramid.wf()
                &&& pyramid.levels().len() == factors@.len()
                &&& pyramid.spec_img_rect() == (Rect::<u32> {
                    left: 0,
                    right: width,
                    top: 0,
                    bottom: height,
                })
                &&& pyramid.spec_tile_size() == tile_size
                &&& pyramid.spec_factors() == factors@
            },
    {
        let upgraded = b.as_image_backend();
        Self::from_upgrade(upgraded, width, height, tile_size, factors)
    }

    /// Builds the pyramid on what an upgrade to an image backend came to:
    /// hands on the error of a failed upgrade, whatever the extent and the
    /// tile size, and allocates the levels through the backend of a
    /// successful one.
    pub fn from_upgrade(
        upgraded: Result<Arc<B::Imaging>, Error>,
        width: u32,
        height: u32,
        tile_size: u32,
        factors: Vec<Binary32>,
    ) -> (made: Result<Self, Error>)
        requires
            upgraded is Ok ==> tile_size > 0,
            upgraded is Ok ==> padded(width as nat, tile_size as nat) <= u32::MAX,
            upgraded is Ok ==> padded(height as nat, tile_size as nat) <= u32::MAX,
        ensures
            Self::built_on(made, upgraded, width, height, tile_size, factors@),
    {
        match upgraded {
            Ok(img_back) => {
                let levels = Self::allocate_levels(
                    &img_back,
                    pad_to_tile(width, tile_size),
                    pad_to_tile(height, tile_size),
                    &factors,
                );
                Self::from_levels(img_back, width, height, tile_size, factors, levels)
            },
            Err(error) => Err(error),
        }
    }

    /// Allocates the levels of a pyramid whose padded base is `width` by
    /// `height`: for each factor in turn one channel of single-precision
    /// samples, of the extent that the factor leaves of the extent before.
    /// Stops at the first allocation that fails and hands on its error.
    ///
    /// In the contract: what is returned on success are the buffers that
    /// `backend` gave, level by level, each for the arguments of its level;
    /// an error is the one that `backend` gave at some level, after it had
    /// granted the levels before.
    pub fn allocate_levels(
        backend: &Arc<B::Imaging>,
        width: u32,
        height: u32,
        factors: &Vec<Binary32>,
    ) -> (allocated: Result<Vec<B::ImageBuffer>, Error>)
        ensures
            factors@.len() == 0 ==> allocated is Ok,
            allocated matches Ok(levels) ==> {
                &&& Self::levels_fit(levels@, width, height, factors@)
                &&& Self::all_allocated(**backend, width, height, factors@, levels@)
            },
            allocated matches Err(error) ==> Self::refused_at_some_level(
                **backend,
                width,
                height,
                factors@,
                error,
            ),
    {
        let mut pyramid: Vec<B::ImageBuffer> = Vec::with_capacity(factors.len());
        let mut pw: u32 = width;
        let mut ph: u32 = height;
        let mut level: usize = 0;
        while level < factors.len()
            invariant
                level <= factors.len(),
                pyramid.len() == level,
                pw == extent_after(width, factors@, level as nat),
                ph == extent_after(height, factors@, level as nat),
                forall|l: int|
                    0 <= l < level ==> #[trigger] <B::Imaging as ImageBackend>::layout(
                        &pyramid@[l],
                    ) == level_layout(width, height, factors@, l),
                forall|l: int|
                    0 <= l < level ==> #[trigger] Self::level_answer(
                        **backend,
                        width,
                        height,
                        factors@,
                        l,
                        Ok(pyramid@[l]),
                    ),
            decreases factors.len() - level,
        {
            let factor = factors[level];
            let w = divide_floor(pw, factor);
            let h = divide_floor(ph, factor);
            let answer = backend.create_image_buffer(
                PixelFormat::Float,
                PixelFormat::Float,
                w,
                h,
                1,
            );
            assert(Self::level_answer(**backend, width, height, factors@, level as int, answer));
            match answer {
                Ok(buffer) => {
                    pyramid.push(buffer);
                },
                Err(error) => {
                    assert(Self::allocated_below(
                        **backend,
                        width,
                        height,
                        factors@,
                        level as int,
                        pyramid@,
                    ));
                    return Err(error);
                },
            }
            pw = w;
            ph = h;
            level = level + 1;
        }
        Ok(pyramid)
    }

    /// Makes the pyramid that owns levels already allocated, or hands on the
    /// error that their allocation ended in.
    pub fn from_levels(
        backend: Arc<B::Imaging>,
        width: u32,
        height: u32,
        tile_size: u32,
        factors: Vec<Binary32>,
        levels: Result<Vec<B::ImageBuffer>, Error>,
    ) -> (made: Result<Self, Error>)
        requires
            levels is Ok ==> tile_size > 0,
            levels is Ok ==> padded(width as nat, tile_size as nat) <= u32::MAX,
            levels is Ok ==> padded(height as nat, tile_size as nat) <= u32::MAX,
            levels matches Ok(buffers) ==> Self::levels_fit(
                buffers@,
                padded(width as nat, tile_size as nat) as u32,
                padded(height as nat, tile_size as nat) as u32,
                factors@,
            ),
        ensures
            match levels {
                Ok(buffers) => {
                    &&& made matches Ok(pyramid)
                    &&& pyramid.wf()
                    &&& pyramid.levels() == buffers@
                    &&& pyramid.spec_backend() == backend
                    &&& pyramid.spec_img_rect() == (Rect::<u32> {
                        left: 0,
                        right: width,
                        top: 0,
                        bottom: height,
                    })
                    &&& pyramid.spec_tile_size() == tile_size
                    &&& pyramid.spec_factors() == factors@
                },
                Err(error) => made == Err::<Self, Error>(error),
            },
    {
        match levels {
            Ok(pyramid) => Ok(
                Self {
                    img_rect: Rect::new(0, width, 0, height),
                    width: pad_to_tile(width, tile_size),
                    height: pad_to_tile(height, tile_size),
                    factors,
                    tile_size,
                    pyramid,
                    backend,
                },
            ),
            Err(error) => Err(error),
        }
    }

    /// Fills every level from `img`: the first level is `img` reduced by the
    /// first factor, each later level the one before it reduced by its own
    /// factor. Only a single luminance plane can fill a pyramid: for any other
    /// kind the call fails and leaves the pyramid as it was. Where the backend
    /// fails at a level, its error is handed on: the levels before that one
    /// are filled, and the levels after it are as they were.
    ///
    /// In the contract, for a luminance plane: success means that the
    /// backend was asked for every level and granted each; an error is the
    /// one that the backend gave when it was asked for some level, whose
    /// buffer then holds what that call left in it, after it had granted the
    /// levels before.
    pub fn load_image<K: ImageKind>(&mut self, img: &Image<K, B>) -> (done: Result<(), Error>)
        requires
            old(self).wf(),
        ensures
            K::spec_kind() != ImageKindVariants::Gray ==> {
                &&& done == Err::<(), Error>(
                    Error::UnsupportedImageKind("load_image", K::spec_kind()),
                )
                &&& *final(self) == *old(self)
            },
            K::spec_kind() == ImageKindVariants::Gray ==> {
                &&& final(self).wf()
                &&& final(self).same_frame(old(self))
                &&& done is Ok ==> {
                    &&& final(self).filled_below(
                        old(self),
                        img.spec_buffer(),
                        old(self).levels().len() as int,
                    )
                    &&& final(self).fills_granted_below(
                        old(self),
                        img.spec_buffer(),
                        old(self).levels().len() as int,
                    )
                }
            },
            K::spec_kind() == ImageKindVariants::Gray ==> (done matches Err(error)
                ==> exists|failed: int, lent: &mut B::ImageBuffer|
                {
                    &&& 0 <= failed < old(self).levels().len()
                    &&& final(self).filled_below(old(self), img.spec_buffer(), failed)
                    &&& final(self).fills_granted_below(old(self), img.spec_buffer(), failed)
                    &&& *lent == old(self).levels()[failed]
                    &&& *final(lent) == final(self).levels()[failed]
                    &&& #[trigger] call_ensures(
                        <B::Imaging as ImageBackend>::downsample,
                        (
                            &*old(self).spec_backend(),
                            lent,
                            &Self::read_for(final(self).levels(), img.spec_buffer(), failed),
                            KernelKind::Gaussian,
                            old(self).spec_factors()[failed],
                        ),
                        Err::<(), Error>(error),
                    )
                }),
    {
        let kind = K::kind();
        if !matches!(kind, ImageKindVariants::Gray) {
            return Err(Error::UnsupportedImageKind("load_image", kind));
        }
        let count = self.pyramid.len();
        let mut level: usize = 0;
        while level < count
            invariant
                K::spec_kind() == ImageKindVariants::Gray,
                old(self).wf(),
                level <= count,
                count == old(self).pyramid.len(),
                self.pyramid.len() == count,
                self.factors.len() == count,
                self.same_frame(old(self)),
                self.filled_below(old(self), img.spec_buffer(), level as int),
                level < count ==> self.pyramid@[level as int] == old(self).pyramid@[level as int],
                forall|l: int|
                    0 <= l < level ==> #[trigger] Self::fill_granted(
                        *old(self).backend,
                        old(self).pyramid@[l],
                        Self::filled_source(
                            *old(self).backend,
                            old(self).pyramid@,
                            old(self).factors@,
                            img.spec_buffer(),
                            l,
                        ),
                        old(self).factors@[l],
                    ),
            decreases count - level,
        {
            let factor = self.factors[level];
            let source: Ghost<B::ImageBuffer> = Ghost(
                old(self).source_of(img.spec_buffer(), level as int),
            );
            let mut current = self.pyramid.remove(level);
            let answer = if level == 0 {
                self.backend.downsample(&mut current, img.buffer(), KernelKind::Gaussian, factor)
            } else {
                assert(self.pyramid@[level - 1] == source@);
                self.backend.downsample(
                    &mut current,
                    &self.pyramid[level - 1],
                    KernelKind::Gaussian,
                    factor,
                )
            };
            self.pyramid.insert(level, current);
            proof {
                assert(self.pyramid@[level as int] == current);
                assert(Self::read_for(self.pyramid@, img.spec_buffer(), level as int) == source@);
                assert(exists|lent: &mut B::ImageBuffer|
                    {
                        &&& *lent == old(self).pyramid@[level as int]
                        &&& *final(lent) == self.pyramid@[level as int]
                        &&& #[trigger] call_ensures(
                            <B::Imaging as ImageBackend>::downsample,
                            (&*self.backend, lent, &source@, KernelKind::Gaussian, factor),
                            answer,
                        )
                    });
            }
            match answer {
                Ok(()) => {
                    assert(answer->Ok_0 == ());
                    assert(Self::fill_granted(
                        *old(self).spec_backend(),
                        old(self).pyramid@[level as int],
                        source@,
                        factor,
                    ));
                },
                Err(error) => {
                    proof {
                        self.lemma_fills_granted_below(
                            old(self),
                            img.spec_buffer(),
                            level as int,
                        );
                    }
                    return Err(error);
                },
            }
            level = level + 1;
        }
        proof {
            self.lemma_fills_granted_below(old(self), img.spec_buffer(), count as int);
        }
        Ok(())
    }

    /// `answer` is an answer of `backend` to the request for the buffer of
    /// level `level` of a pyramid whose padded base is `width` by `height`:
    /// one channel of single-precision samples, of the extent that the
    /// factors up to and including the level's own leave.
    pub open spec fn level_answer(
        backend: B::Imaging,
        width: u32,
        height: u32,
        factors: Seq<Binary32>,
        level: int,
        answer: Result<B::ImageBuffer, Error>,
    ) -> bool {
        call_ensures(
            <B::Imaging as ImageBackend>::create_image_buffer,
            (
                &backend,
                PixelFormat::Float,
                PixelFormat::Float,
                extent_after(width, factors, (level + 1) as nat),
                extent_after(height, factors, (level + 1) as nat),
                1u32,
            ),
            answer,
        )
    }

    /// The first `count` levels were asked of `backend`, each with the
    /// arguments of its level, and `levels` holds the buffers it gave, in
    /// order.
    pub open spec fn allocated_below(
        backend: B::Imaging,
        width: u32,
        height: u32,
        factors: Seq<Binary32>,
        count: int,
        levels: Seq<B::ImageBuffer>,
    ) -> bool {
        &&& levels.len() == count
        &&& forall|level: int|
            0 <= level < count ==> #[trigger] Self::level_answer(
                backend,
                width,
                height,
                factors,
                level,
                Ok(levels[level]),
            )
    }

    /// Every level was asked of `backend`, each with the arguments of its
    /// level, and `levels` holds the buffers it gave, in order.
    pub open spec fn all_allocated(
        backend: B::Imaging,
        width: u32,
        height: u32,
        factors: Seq<Binary32>,
        levels: Seq<B::ImageBuffer>,
    ) -> bool {
        Self::allocated_below(backend, width, height, factors, factors.len() as int, levels)
    }

    /// The levels were asked of `backend` in order, each with the arguments of
    /// its level, until at one of them `backend` answered with `error`; the
    /// levels before that one it had granted.
    pub open spec fn refused_at_some_level(
        backend: B::Imaging,
        width: u32,
        height: u32,
        factors: Seq<Binary32>,
        error: Error,
    ) -> bool {
        exists|refused: int, earlier: Seq<B::ImageBuffer>|
            {
                &&& 0 <= refused < factors.len()
                &&& #[trigger] Self::allocated_below(
                    backend,
                    width,
                    height,
                    factors,
                    refused,
                    earlier,
                )
                &&& Self::level_answer(backend, width, height, factors, refused, Err(error))
            }
    }

    /// What the backend reads to fill level `level`: `source` for the first
    /// level, the level before it for every other.
    pub open spec fn read_for(
        levels: Seq<B::ImageBuffer>,
        source: B::ImageBuffer,
        level: int,
    ) -> B::ImageBuffer {
        if level <= 0 {
            source
        } else {
            levels[level - 1]
        }
    }

    /// What the backend reads to fill level `level` when every level before
    /// it has been filled from `source`: `source` for the first level, what
    /// [`Self::filled_level`] gives the level before for every other.
    pub open spec fn filled_source(
        backend: B::Imaging,
        levels: Seq<B::ImageBuffer>,
        factors: Seq<Binary32>,
        source: B::ImageBuffer,
        level: int,
    ) -> B::ImageBuffer {
        if level <= 0 {
            source
        } else {
            Self::filled_level(backend, levels, factors, source, level - 1)
        }
    }

    /// What the backend of this pyramid reads to fill level `level` from
    /// `source`; see [`Self::filled_source`].
    pub open spec fn source_of(&self, source: B::ImageBuffer, level: int) -> B::ImageBuffer {
        Self::filled_source(
            *self.spec_backend(),
            self.levels(),
            self.spec_factors(),
            source,
            level,
        )
    }

    /// `backend` was asked to reduce `source` by `factor`, after a Gaussian
    /// blur, into a buffer lent to it that held `before`, and answered that
    /// it had done so.
    pub open spec fn fill_granted(
        backend: B::Imaging,
        before: B::ImageBuffer,
        source: B::ImageBuffer,
        factor: Binary32,
    ) -> bool {
        exists|lent: &mut B::ImageBuffer|
            {
                &&& *lent == before
                &&& #[trigger] call_ensures(
                    <B::Imaging as ImageBackend>::downsample,
                    (&backend, lent, &source, KernelKind::Gaussian, factor),
                    Ok::<(), Error>(()),
                )
            }
    }

    /// For each level below `count`, the backend of `before` was asked to fill
    /// it, with the level's buffer as `before` held it lent to the call, from
    /// what [`Self::read_for`] names in this pyramid and by the level's
    /// factor, and answered that it had done so.
    pub open spec fn fills_granted_below(
        &self,
        before: &Self,
        source: B::ImageBuffer,
        count: int,
    ) -> bool {
        forall|level: int|
            0 <= level < count && level < before.levels().len() ==> #[trigger] Self::fill_granted(
                *before.spec_backend(),
                before.levels()[level],
                Self::read_for(self.levels(), source, level),
                before.spec_factors()[level],
            )
    }

    /// In a pyramid whose levels below `count` are filled, what each of them
    /// was filled from is what the pyramid holds one level further down.
    proof fn lemma_fills_granted_below(
        &self,
        before: &Self,
        source: B::ImageBuffer,
        count: int,
    )
        requires
            0 <= count <= before.levels().len(),
            self.filled_below(before, source, count),
            forall|level: int|
                0 <= level < count ==> #[trigger] Self::fill_granted(
                    *before.spec_backend(),
                    before.levels()[level],
                    before.source_of(source, level),
                    before.spec_factors()[level],
                ),
        ensures
            self.fills_granted_below(before, source, count),
    {
        assert forall|level: int| 0 <= level < count implies #[trigger] Self::fill_granted(
            *before.spec_backend(),
            before.levels()[level],
            Self::read_for(self.levels(), source, level),
            before.spec_factors()[level],
        ) by {
            assert(Self::read_for(self.levels(), source, level) == before.source_of(
                source,
                level,
            ));
        }
    }

    /// `made` is what building on the outcome `upgraded` of an upgrade comes
    /// to. A failed upgrade fails the construction with its own error. On a
    /// successful one the levels are asked of the upgraded backend in order:
    /// the construction succeeds if there are none to ask for; where it
    /// fails, it fails with the error that the backend gave at some level;
    /// and what it makes, where it succeeds, is a well-formed pyramid on the
    /// upgraded backend that holds the buffers the backend gave, for the
    /// source rectangle, the tile size and the factors given.
    pub open spec fn built_on(
        made: Result<Self, Error>,
        upgraded: Result<Arc<B::Imaging>, Error>,
        width: u32,
        height: u32,
        tile_size: u32,
        factors: Seq<Binary32>,
    ) -> bool {
        let padded_width = padded(width as nat, tile_size as nat) as u32;
        let padded_height = padded(height as nat, tile_size as nat) as u32;
        &&& upgraded matches Err(error) ==> made == Err::<Self, Error>(error)
        &&& upgraded is Ok && factors.len() == 0 ==> made is Ok
        &&& upgraded matches Ok(backend) ==> {
            made matches Err(error) ==> Self::refused_at_some_level(
                *backend,
                padded_width,
                padded_height,
                factors,
                error,
            )
        }
        &&& made matches Ok(pyramid) ==> {
            &&& upgraded matches Ok(backend)
            &&& pyramid.spec_backend() == backend
            &&& Self::all_allocated(
                *backend,
                padded_width,
                padded_height,
                factors,
                pyramid.levels(),
            )
            &&& pyramid.wf()
            &&& pyramid.levels().len() == factors.len()
            &&& pyramid.spec_img_rect() == (Rect::<u32> {
                left: 0,
                right: width,
                top: 0,
                bottom: height,
            })
            &&& pyramid.spec_tile_size() == tile_size
            &&& pyramid.spec_factors() == factors
        }
    }
}

} // verus!
