//! Preview dimensions, and an image that keeps its preview beside the
//! original.
//!
//! All arithmetic is exact: a scale is a whole number of hundredths, a fit is
//! decided by cross-multiplying, and every target length is rounded down.

use crate::preview_size::PreviewSize;
use vstd::prelude::*;

verus! {

/// Why an operation on an [`Image`] was refused.
#[derive(Clone, Copy, PartialEq, Eq, Structural, Debug)]
pub enum ImageError {
    /// No raster with a positive width and height was produced.
    DecodeError,
    /// The preview could not be resampled to the dimensions asked for.
    ScaleFailure,
}

/// What has to be done to the original to obtain a preview.
#[derive(Clone, Copy, PartialEq, Eq, Structural, Debug)]
pub enum PreviewPlan {
    /// Take a copy of the original; nothing is resampled.
    Original,
    /// Resample the original smoothly to exactly this width and height.
    Scaled { width: i32, height: i32 },
}

/// `length` scaled by `percent` hundredths, rounded down.
pub open spec fn scaled_length(length: int, percent: int) -> int {
    (length * percent) / 100
}

/// The dimensions of a `width` by `height` image that is scaled, keeping its
/// aspect ratio, by the smaller of the two ratios canvas to image, each side
/// rounded down. The side that decides is scaled to exactly the canvas.
pub open spec fn fit_dimensions(width: int, height: int, canvas_width: int, canvas_height: int) -> (
    int,
    int,
) {
    if canvas_width * height <= canvas_height * width {
        (canvas_width, (height * canvas_width) / width)
    } else {
        ((width * canvas_height) / height, canvas_height)
    }
}

/// The dimensions that a preview of the given size has, for an image of
/// `width` by `height`.
pub open spec fn target_dimensions(width: int, height: int, size: PreviewSize) -> (int, int) {
    match size {
        PreviewSize::BestFit(canvas_width, canvas_height) => fit_dimensions(
            width,
            height,
            canvas_width as int,
            canvas_height as int,
        ),
        PreviewSize::OriginalSize => (width, height),
        PreviewSize::Resized(percent) => (
            scaled_length(width, percent as int),
            scaled_length(height, percent as int),
        ),
    }
}

/// Dimensions that a raster can have: both sides at least one pixel and
/// within the range of a pixel count.
pub open spec fn renderable(dimensions: (int, int)) -> bool {
    1 <= dimensions.0 <= i32::MAX && 1 <= dimensions.1 <= i32::MAX
}

/// The plan for a preview of the given size. The unscaled image is always
/// copied. A scaled preview is planned where its dimensions are renderable;
/// a side that would round to zero is refused, not clamped.
pub open spec fn spec_plan(width: int, height: int, size: PreviewSize) -> Result<
    PreviewPlan,
    ImageError,
> {
    let target = target_dimensions(width, height, size);
    if size is OriginalSize {
        Ok(PreviewPlan::Original)
    } else if renderable(target) {
        Ok(PreviewPlan::Scaled { width: target.0 as i32, height: target.1 as i32 })
    } else {
        Err(ImageError::ScaleFailure)
    }
}

/// Scales a length by a number of hundredths and rounds down.
pub fn scale_length(length: i32, percent: u32) -> (scaled: i64)
    requires
        0 <= length,
    ensures
        scaled == scaled_length(length as int, percent as int),
{
    assert(0 <= length * percent <= 0x7fff_ffff * 0xffff_ffff) by (nonlinear_arith)
        requires
            0 <= length <= 0x7fff_ffff,
            0 <= percent <= 0xffff_ffff,
    ;
    let product: i64 = (length as i64) * (percent as i64);
    product / 100
}

/// Fits an image of `width` by `height` into a canvas, keeping its aspect
/// ratio.
pub fn fit_to_canvas(width: i32, height: i32, canvas_width: i32, canvas_height: i32) -> (fitted: (
    i32,
    i32,
))
    requires
        1 <= width,
        1 <= height,
        0 <= canvas_width,
        0 <= canvas_height,
    ensures
        (fitted.0 as int, fitted.1 as int) == fit_dimensions(
            width as int,
            height as int,
            canvas_width as int,
            canvas_height as int,
        ),
{
    proof {
        lemma_fit_stays_inside(
            width as int,
            height as int,
            canvas_width as int,
            canvas_height as int,
        );
        lemma_product_fits(canvas_width as int, height as int);
        lemma_product_fits(canvas_height as int, width as int);
    }
    let across: i64 = (canvas_width as i64) * (height as i64);
    let down: i64 = (canvas_height as i64) * (width as i64);
    if across <= down {
        assert(height * canvas_width == canvas_width * height) by (nonlinear_arith);
        let fitted_height: i64 = across / (width as i64);
        (canvas_width, fitted_height as i32)
    } else {
        assert(width * canvas_height == canvas_height * width) by (nonlinear_arith);
        let fitted_width: i64 = down / (height as i64);
        (fitted_width as i32, canvas_height)
    }
}

/// The product of two pixel counts stays far inside the 64-bit range.
proof fn lemma_product_fits(a: int, b: int)
    requires
        0 <= a <= i32::MAX,
        0 <= b <= i32::MAX,
    ensures
        0 <= a * b <= 0x3fff_ffff_0000_0001,
{
    assert(0 <= a * b <= 0x7fff_ffff * 0x7fff_ffff) by (nonlinear_arith)
        requires
            0 <= a <= 0x7fff_ffff,
            0 <= b <= 0x7fff_ffff,
    ;
}

/// A fitted image lies inside its canvas and touches it on the side that
/// decides the scale.
pub proof fn lemma_fit_stays_inside(width: int, height: int, canvas_width: int, canvas_height: int)
    requires
        1 <= width,
        1 <= height,
        0 <= canvas_width,
        0 <= canvas_height,
    ensures
        0 <= fit_dimensions(width, height, canvas_width, canvas_height).0 <= canvas_width,
        0 <= fit_dimensions(width, height, canvas_width, canvas_height).1 <= canvas_height,
        fit_dimensions(width, height, canvas_width, canvas_height).0 == canvas_width
            || fit_dimensions(width, height, canvas_width, canvas_height).1 == canvas_height,
{
    if canvas_width * height <= canvas_height * width {
        let q = (height * canvas_width) / width;
        assert(0 <= q <= canvas_height) by (nonlinear_arith)
            requires
                q == (height * canvas_width) / width,
                canvas_width * height <= canvas_height * width,
                1 <= width,
                1 <= height,
                0 <= canvas_width,
                0 <= canvas_height,
        ;
    } else {
        let q = (width * canvas_height) / height;
        assert(0 <= q <= canvas_width) by (nonlinear_arith)
            requires
                q == (width * canvas_height) / height,
                canvas_width * height > canvas_height * width,
                1 <= width,
                1 <= height,
                0 <= canvas_width,
                0 <= canvas_height,
        ;
    }
}

/// Scaling by a hundred hundredths changes nothing, so a preview resized to
/// full scale has the dimensions of the original.
pub proof fn lemma_full_scale_keeps_length(length: int)
    ensures
        scaled_length(length, 100) == length,
{
    assert((length * 100) / 100 == length) by (nonlinear_arith);
}

/// A larger scale never gives a shorter side.
pub proof fn lemma_scale_is_monotone(length: int, lower: int, higher: int)
    requires
        0 <= length,
        lower <= higher,
    ensures
        scaled_length(length, lower) <= scaled_length(length, higher),
{
    assert((length * lower) / 100 <= (length * higher) / 100) by (nonlinear_arith)
        requires
            0 <= length,
            lower <= higher,
    ;
}

/// A fit keeps the aspect ratio: the side that does not decide the scale is
/// the exact proportional length, rounded down, so it misses the exact
/// proportion by less than one pixel.
pub proof fn lemma_fit_keeps_aspect_ratio(
    width: int,
    height: int,
    canvas_width: int,
    canvas_height: int,
)
    requires
        1 <= width,
        1 <= height,
        0 <= canvas_width,
        0 <= canvas_height,
    ensures
        ({
            let fitted = fit_dimensions(width, height, canvas_width, canvas_height);
            if canvas_width * height <= canvas_height * width {
                fitted.1 * width <= height * fitted.0 < (fitted.1 + 1) * width
            } else {
                fitted.0 * height <= width * fitted.1 < (fitted.0 + 1) * height
            }
        }),
{
    if canvas_width * height <= canvas_height * width {
        let q = (height * canvas_width) / width;
        assert(q * width <= height * canvas_width < (q + 1) * width) by (nonlinear_arith)
            requires
                q == (height * canvas_width) / width,
                1 <= width,
        ;
    } else {
        let q = (width * canvas_height) / height;
        assert(q * height <= width * canvas_height < (q + 1) * height) by (nonlinear_arith)
            requires
                q == (width * canvas_height) / height,
                1 <= height,
        ;
    }
}

/// A canvas with a side below one pixel admits no preview: the fitted
/// dimensions are not renderable.
pub proof fn lemma_empty_canvas_fits_nothing(
    width: int,
    height: int,
    canvas_width: int,
    canvas_height: int,
)
    requires
        1 <= width,
        1 <= height,
        canvas_width < 1 || canvas_height < 1,
    ensures
        !renderable(fit_dimensions(width, height, canvas_width, canvas_height)),
{
    if canvas_width * height <= canvas_height * width {
        assert(canvas_width < 1) by (nonlinear_arith)
            requires
                canvas_width * height <= canvas_height * width,
                canvas_width < 1 || canvas_height < 1,
                1 <= width,
                1 <= height,
        ;
    } else {
        assert(canvas_height < 1) by (nonlinear_arith)
            requires
                canvas_width * height > canvas_height * width,
                canvas_width < 1 || canvas_height < 1,
                1 <= width,
                1 <= height,
        ;
    }
}

/// Plans the preview of a `width` by `height` image at the given size.
pub fn plan_preview(width: i32, height: i32, size: PreviewSize) -> (plan: Result<
    PreviewPlan,
    ImageError,
>)
    requires
        1 <= width,
        1 <= height,
    ensures
        plan == spec_plan(width as int, height as int, size),
{
    match size {
        PreviewSize::OriginalSize => Ok(PreviewPlan::Original),
        PreviewSize::BestFit(canvas_width, canvas_height) => {
            if canvas_width < 1 || canvas_height < 1 {
                proof {
                    lemma_empty_canvas_fits_nothing(
                        width as int,
                        height as int,
                        canvas_width as int,
                        canvas_height as int,
                    );
                }
                return Err(ImageError::ScaleFailure);
            }
            let fitted: (i32, i32) = fit_to_canvas(width, height, canvas_width, canvas_height);
            if fitted.0 < 1 || fitted.1 < 1 {
                Err(ImageError::ScaleFailure)
            } else {
                Ok(PreviewPlan::Scaled { width: fitted.0, height: fitted.1 })
            }
        },
        PreviewSize::Resized(percent) => {
            let scaled_width: i64 = scale_length(width, percent);
            let scaled_height: i64 = scale_length(height, percent);
            if scaled_width < 1 || scaled_width > 0x7fff_ffff || scaled_height < 1 || scaled_height
                > 0x7fff_ffff {
                Err(ImageError::ScaleFailure)
            } else {
                Ok(PreviewPlan::Scaled { width: scaled_width as i32, height: scaled_height as i32 })
            }
        },
    }
}

/// What an [`Image`] holds, as contracts see it.
pub struct ImageState<R> {
    /// The full-resolution raster.
    pub original: R,
    /// The raster currently shown.
    pub preview: R,
    /// Width of the original, in pixels.
    pub width: int,
    /// Height of the original, in pixels.
    pub height: int,
    /// Width of the preview, in pixels.
    pub preview_width: int,
    /// Height of the preview, in pixels.
    pub preview_height: int,
}

/// The state after the preview of `state` was recomputed at `size`, where
/// `rendered` is what resampling (or copying) the original gave, if it gave
/// anything. With a plan and a raster the preview is replaced whole and takes
/// the planned dimensions. Otherwise nothing changes. The original is never
/// touched.
pub open spec fn spec_recompute<R>(
    state: ImageState<R>,
    size: PreviewSize,
    rendered: Option<R>,
) -> ImageState<R> {
    match (spec_plan(state.width, state.height, size), rendered) {
        (Ok(PreviewPlan::Original), Some(raster)) => ImageState {
            preview: raster,
            preview_width: state.width,
            preview_height: state.height,
            ..state
        },
        (Ok(PreviewPlan::Scaled { width, height }), Some(raster)) => ImageState {
            preview: raster,
            preview_width: width as int,
            preview_height: height as int,
            ..state
        },
        _ => state,
    }
}

/// A full-resolution raster of type `R` together with the preview derived
/// from it, and the pixel dimensions of both.
pub struct Image<R> {
    image_buffer: R,
    preview_image_buffer: R,
    width: i32,
    height: i32,
    preview_width: i32,
    preview_height: i32,
}

impl<R> View for Image<R> {
    type V = ImageState<R>;

    closed spec fn view(&self) -> ImageState<R> {
        ImageState {
            original: self.image_buffer,
            preview: self.preview_image_buffer,
            width: self.width as int,
            height: self.height as int,
            preview_width: self.preview_width as int,
            preview_height: self.preview_height as int,
        }
    }
}

impl<R> Image<R> {
    /// Both rasters have at least one pixel on each side.
    #[verifier::type_invariant]
    spec fn has_pixels(&self) -> bool {
        &&& 1 <= self.width
        &&& 1 <= self.height
        &&& 1 <= self.preview_width
        &&& 1 <= self.preview_height
    }

    /// Takes over a freshly decoded raster of `width` by `height` pixels and
    /// a copy of it, which serves as the first preview. Dimensions without a
    /// pixel are no image and are refused with `DecodeError`.
    pub fn new(image_buffer: R, preview_image_buffer: R, width: i32, height: i32) -> (loaded:
        Result<Image<R>, ImageError>)
        ensures
            (width < 1 || height < 1) ==> loaded == Err::<Image<R>, ImageError>(
                ImageError::DecodeError,
            ),
            (1 <= width && 1 <= height) ==> loaded is Ok && loaded->Ok_0@ == (ImageState {
                original: image_buffer,
                preview: preview_image_buffer,
                width: width as int,
                height: height as int,
                preview_width: width as int,
                preview_height: height as int,
            }),
    {
        if width < 1 || height < 1 {
            Err(ImageError::DecodeError)
        } else {
            Ok(
                Image {
                    image_buffer,
                    preview_image_buffer,
                    width,
                    height,
                    preview_width: width,
                    preview_height: height,
                },
            )
        }
    }

    /// The full-resolution raster.
    pub fn image_buffer(&self) -> (raster: &R)
        ensures
            *raster == self@.original,
    {
        &self.image_buffer
    }

    /// The current preview.
    pub fn preview_image_buffer(&self) -> (raster: &R)
        ensures
            *raster == self@.preview,
    {
        &self.preview_image_buffer
    }

    /// Width of the original, in pixels.
    pub fn width(&self) -> (pixels: i32)
        ensures
            pixels == self@.width,
            1 <= pixels,
    {
        proof {
            use_type_invariant(self);
        }
        self.width
    }

    /// Height of the original, in pixels.
    pub fn height(&self) -> (pixels: i32)
        ensures
            pixels == self@.height,
            1 <= pixels,
    {
        proof {
            use_type_invariant(self);
        }
        self.height
    }

    /// Width of the current preview, in pixels.
    pub fn preview_width(&self) -> (pixels: i32)
        ensures
            pixels == self@.preview_width,
            1 <= pixels,
    {
        proof {
            use_type_invariant(self);
        }
        self.preview_width
    }

    /// Height of the current preview, in pixels.
    pub fn preview_height(&self) -> (pixels: i32)
        ensures
            pixels == self@.preview_height,
            1 <= pixels,
    {
        proof {
            use_type_invariant(self);
        }
        self.preview_height
    }

    /// The plan for a preview that fits a canvas of the given size.
    pub fn image_buffer_scale_to_fit(&self, canvas_width: i32, canvas_height: i32) -> (plan:
        Result<PreviewPlan, ImageError>)
        ensures
            plan == spec_plan(
                self@.width,
                self@.height,
                PreviewSize::BestFit(canvas_width, canvas_height),
            ),
    {
        proof {
            use_type_invariant(self);
        }
        plan_preview(self.width, self.height, PreviewSize::BestFit(canvas_width, canvas_height))
    }

    /// The plan for a preview scaled by `percent` hundredths.
    pub fn image_buffer_resize(&self, percent: u32) -> (plan: Result<PreviewPlan, ImageError>)
        ensures
            plan == spec_plan(self@.width, self@.height, PreviewSize::Resized(percent)),
    {
        proof {
            use_type_invariant(self);
        }
        plan_preview(self.width, self.height, PreviewSize::Resized(percent))
    }

    /// The plan for a preview of the given size: what to ask of the raster
    /// backend before [`Image::create_preview_image_buffer`] is called.
    pub fn preview_plan(&self, preview_size: PreviewSize) -> (plan: Result<
        PreviewPlan,
        ImageError,
    >)
        ensures
            plan == spec_plan(self@.width, self@.height, preview_size),
    {
        match preview_size {
            PreviewSize::BestFit(canvas_width, canvas_height) => self.image_buffer_scale_to_fit(
                canvas_width,
                canvas_height,
            ),
            PreviewSize::OriginalSize => Ok(PreviewPlan::Original),
            PreviewSize::Resized(percent) => self.image_buffer_resize(percent),
        }
    }

    /// Replaces the preview by `rendered`, the raster that carrying out the
    /// plan for `preview_size` gave. Where there is no plan, or the backend
    /// gave no raster, the call fails with `ScaleFailure` and the previous
    /// preview stays.
    pub fn create_preview_image_buffer(
        &mut self,
        preview_size: PreviewSize,
        rendered: Option<R>,
    ) -> (done: Result<(), ImageError>)
        ensures
            final(self)@ == spec_recompute(old(self)@, preview_size, rendered),
            done is Ok <==> (spec_plan(old(self)@.width, old(self)@.height, preview_size) is Ok
                && rendered is Some),
            done is Err ==> done == Err::<(), ImageError>(ImageError::ScaleFailure),
    {
        proof {
            use_type_invariant(&*self);
        }
        let plan = self.preview_plan(preview_size);
        match (plan, rendered) {
            (Ok(PreviewPlan::Original), Some(raster)) => {
                self.preview_image_buffer = raster;
                self.preview_width = self.width;
                self.preview_height = self.height;
                Ok(())
            },
            (Ok(PreviewPlan::Scaled { width, height }), Some(raster)) => {
                self.preview_image_buffer = raster;
                self.preview_width = width;
                self.preview_height = height;
                Ok(())
            },
            _ => Err(ImageError::ScaleFailure),
        }
    }
}

/// Recomputing the preview never touches the original, and the preview it
/// leaves depends on the original's dimensions, the size and the raster
/// handed in, not on the preview that was there before.
pub proof fn lemma_recompute_keeps_original<R>(
    state: ImageState<R>,
    size: PreviewSize,
    rendered: Option<R>,
)
    ensures
        spec_recompute(state, size, rendered).original == state.original,
        spec_recompute(state, size, rendered).width == state.width,
        spec_recompute(state, size, rendered).height == state.height,
        (spec_plan(state.width, state.height, size) is Ok && rendered is Some) ==> {
            &&& spec_recompute(state, size, rendered).preview == rendered->Some_0
            &&& !(size is OriginalSize) ==> (
                spec_recompute(state, size, rendered).preview_width,
                spec_recompute(state, size, rendered).preview_height,
            ) == target_dimensions(state.width, state.height, size)
        },
        !(spec_plan(state.width, state.height, size) is Ok && rendered is Some)
            ==> spec_recompute(state, size, rendered) == state,
{
}

/// Recomputing at the unscaled size with a copy of the original gives a
/// preview with the original's dimensions, and doing so twice in a row
/// leaves the preview as it was after the first time.
pub proof fn lemma_original_size_is_idempotent<R>(state: ImageState<R>, copy: R)
    ensures
        spec_recompute(state, PreviewSize::OriginalSize, Some(copy)).preview == copy,
        spec_recompute(state, PreviewSize::OriginalSize, Some(copy)).preview_width == state.width,
        spec_recompute(state, PreviewSize::OriginalSize, Some(copy)).preview_height
            == state.height,
        spec_recompute(
            spec_recompute(state, PreviewSize::OriginalSize, Some(copy)),
            PreviewSize::OriginalSize,
            Some(copy),
        ) == spec_recompute(state, PreviewSize::OriginalSize, Some(copy)),
{
}

/// At any size, recomputing again with the same outcome changes nothing.
pub proof fn lemma_recompute_is_idempotent<R>(
    state: ImageState<R>,
    size: PreviewSize,
    rendered: Option<R>,
)
    ensures
        spec_recompute(spec_recompute(state, size, rendered), size, rendered) == spec_recompute(
            state,
            size,
            rendered,
        ),
{
}

} // verus!
