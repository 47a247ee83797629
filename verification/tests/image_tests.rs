use image_preview::image::{
    fit_to_canvas, plan_preview, scale_length, Image, ImageError, PreviewPlan,
};
use image_preview::preview_size::PreviewSize;

/// A stand-in raster: its dimensions and a tag that tells copies apart.
#[derive(Clone, Debug, PartialEq)]
struct Raster {
    width: i32,
    height: i32,
    tag: &'static str,
}

fn raster(width: i32, height: i32, tag: &'static str) -> Raster {
    Raster { width, height, tag }
}

fn loaded(width: i32, height: i32) -> Image<Raster> {
    let original = raster(width, height, "original");
    Image::new(original.clone(), original, width, height).unwrap()
}

/// Does what a raster backend does with a plan.
fn carry_out(image: &Image<Raster>, plan: Result<PreviewPlan, ImageError>) -> Option<Raster> {
    match plan {
        Ok(PreviewPlan::Original) => Some(image.image_buffer().clone()),
        Ok(PreviewPlan::Scaled { width, height }) => Some(raster(width, height, "scaled")),
        Err(_) => None,
    }
}

fn recompute(image: &mut Image<Raster>, size: PreviewSize) -> Result<(), ImageError> {
    let rendered = carry_out(image, image.preview_plan(size));
    image.create_preview_image_buffer(size, rendered)
}

#[test]
fn scale_length_rounds_down() {
    assert_eq!(scale_length(800, 25), 200);
    assert_eq!(scale_length(600, 25), 150);
    assert_eq!(scale_length(800, 33), 264);
    assert_eq!(scale_length(10, 33), 3);
    assert_eq!(scale_length(1, 99), 0);
    assert_eq!(scale_length(1, 100), 1);
    assert_eq!(scale_length(3, 150), 4);
    assert_eq!(scale_length(0, 200), 0);
    assert_eq!(scale_length(7, 0), 0);
    assert_eq!(scale_length(i32::MAX, 200), 4294967294);
    assert_eq!(scale_length(i32::MAX, u32::MAX), 92233720304123248);
}

#[test]
fn fit_to_canvas_scales_by_the_smaller_ratio() {
    assert_eq!(fit_to_canvas(800, 600, 400, 400), (400, 300));
    assert_eq!(fit_to_canvas(600, 800, 400, 400), (300, 400));
    assert_eq!(fit_to_canvas(800, 600, 1600, 1200), (1600, 1200));
    assert_eq!(fit_to_canvas(800, 600, 1600, 5000), (1600, 1200));
    assert_eq!(fit_to_canvas(800, 600, 5000, 1200), (1600, 1200));
    assert_eq!(fit_to_canvas(3, 2, 100, 100), (100, 66));
    assert_eq!(fit_to_canvas(2, 3, 100, 100), (66, 100));
    assert_eq!(fit_to_canvas(1000, 1, 10, 10), (10, 0));
    assert_eq!(fit_to_canvas(800, 600, 0, 0), (0, 0));
    assert_eq!(fit_to_canvas(800, 600, 0, 400), (0, 0));
    assert_eq!(fit_to_canvas(1, 1, i32::MAX, i32::MAX), (i32::MAX, i32::MAX));
    assert_eq!(fit_to_canvas(i32::MAX, i32::MAX, 7, 9), (7, 7));
    assert_eq!(fit_to_canvas(i32::MAX, 1, i32::MAX, i32::MAX), (i32::MAX, 1));
}

#[test]
fn fit_stays_inside_the_canvas_and_touches_it() {
    for (width, height) in [(800, 600), (600, 800), (1, 1), (1, 1000), (1000, 1), (37, 91)] {
        for (canvas_width, canvas_height) in [(400, 400), (1, 1), (0, 5), (123, 7), (7, 123)] {
            let (w, h) = fit_to_canvas(width, height, canvas_width, canvas_height);
            assert!(0 <= w && w <= canvas_width);
            assert!(0 <= h && h <= canvas_height);
            assert!(w == canvas_width || h == canvas_height);
        }
    }
}

#[test]
fn plan_for_best_fit() {
    assert_eq!(
        plan_preview(800, 600, PreviewSize::BestFit(400, 400)),
        Ok(PreviewPlan::Scaled { width: 400, height: 300 })
    );
    assert_eq!(plan_preview(800, 600, PreviewSize::BestFit(0, 0)), Err(ImageError::ScaleFailure));
    assert_eq!(plan_preview(800, 600, PreviewSize::BestFit(-4, 400)), Err(ImageError::ScaleFailure));
    assert_eq!(plan_preview(800, 600, PreviewSize::BestFit(400, -4)), Err(ImageError::ScaleFailure));
    assert_eq!(plan_preview(1000, 1, PreviewSize::BestFit(10, 10)), Err(ImageError::ScaleFailure));
}

#[test]
fn plan_for_resized() {
    assert_eq!(
        plan_preview(800, 600, PreviewSize::Resized(25)),
        Ok(PreviewPlan::Scaled { width: 200, height: 150 })
    );
    assert_eq!(
        plan_preview(800, 600, PreviewSize::Resized(100)),
        Ok(PreviewPlan::Scaled { width: 800, height: 600 })
    );
    assert_eq!(
        plan_preview(800, 600, PreviewSize::Resized(133)),
        Ok(PreviewPlan::Scaled { width: 1064, height: 798 })
    );
    assert_eq!(plan_preview(800, 1, PreviewSize::Resized(10)), Err(ImageError::ScaleFailure));
    assert_eq!(plan_preview(800, 600, PreviewSize::Resized(0)), Err(ImageError::ScaleFailure));
    assert_eq!(plan_preview(i32::MAX, 1, PreviewSize::Resized(200)), Err(ImageError::ScaleFailure));
    assert_eq!(
        plan_preview(i32::MAX, i32::MAX, PreviewSize::Resized(100)),
        Ok(PreviewPlan::Scaled { width: i32::MAX, height: i32::MAX })
    );
}

#[test]
fn plan_for_original_size() {
    assert_eq!(plan_preview(800, 600, PreviewSize::OriginalSize), Ok(PreviewPlan::Original));
    assert_eq!(plan_preview(1, 1, PreviewSize::OriginalSize), Ok(PreviewPlan::Original));
}

#[test]
fn new_image_previews_the_original() {
    let image = loaded(800, 600);
    assert_eq!(image.width(), 800);
    assert_eq!(image.height(), 600);
    assert_eq!(image.preview_width(), 800);
    assert_eq!(image.preview_height(), 600);
    assert_eq!(image.image_buffer(), &raster(800, 600, "original"));
    assert_eq!(image.preview_image_buffer(), &raster(800, 600, "original"));
}

#[test]
fn new_image_needs_pixels() {
    for (width, height) in [(0, 0), (0, 600), (800, 0), (-1, 5), (5, i32::MIN)] {
        let made = Image::new(raster(width, height, "a"), raster(width, height, "b"), width, height);
        assert!(matches!(made, Err(ImageError::DecodeError)));
    }
    assert!(Image::new(raster(1, 1, "a"), raster(1, 1, "b"), 1, 1).is_ok());
}

#[test]
fn best_fit_400_by_400_of_800_by_600() {
    let mut image = loaded(800, 600);
    assert_eq!(
        image.image_buffer_scale_to_fit(400, 400),
        Ok(PreviewPlan::Scaled { width: 400, height: 300 })
    );
    assert_eq!(recompute(&mut image, PreviewSize::BestFit(400, 400)), Ok(()));
    assert_eq!(image.preview_width(), 400);
    assert_eq!(image.preview_height(), 300);
    assert_eq!(image.preview_image_buffer(), &raster(400, 300, "scaled"));
    assert_eq!(image.image_buffer(), &raster(800, 600, "original"));
}

#[test]
fn resized_to_a_quarter_of_800_by_600() {
    let mut image = loaded(800, 600);
    assert_eq!(image.image_buffer_resize(25), Ok(PreviewPlan::Scaled { width: 200, height: 150 }));
    assert_eq!(recompute(&mut image, PreviewSize::Resized(25)), Ok(()));
    assert_eq!(image.preview_width(), 200);
    assert_eq!(image.preview_height(), 150);
    assert_eq!(image.preview_image_buffer(), &raster(200, 150, "scaled"));
    assert_eq!((image.width(), image.height()), (800, 600));
}

#[test]
fn original_size_of_800_by_600() {
    let mut image = loaded(800, 600);
    assert_eq!(recompute(&mut image, PreviewSize::Resized(25)), Ok(()));
    assert_eq!(recompute(&mut image, PreviewSize::OriginalSize), Ok(()));
    assert_eq!(image.preview_width(), 800);
    assert_eq!(image.preview_height(), 600);
    assert_eq!(image.preview_image_buffer(), image.image_buffer());
}

#[test]
fn original_size_twice_changes_nothing() {
    let mut image = loaded(800, 600);
    assert_eq!(recompute(&mut image, PreviewSize::OriginalSize), Ok(()));
    let first = (image.preview_image_buffer().clone(), image.preview_width(), image.preview_height());
    assert_eq!(recompute(&mut image, PreviewSize::OriginalSize), Ok(()));
    let second = (
        image.preview_image_buffer().clone(),
        image.preview_width(),
        image.preview_height(),
    );
    assert_eq!(first, second);
    assert_eq!(second, (raster(800, 600, "original"), 800, 600));
}

#[test]
fn degenerate_preview_fails_and_keeps_the_old_one() {
    let mut image = loaded(800, 1);
    assert_eq!(recompute(&mut image, PreviewSize::Resized(200)), Ok(()));
    assert_eq!((image.preview_width(), image.preview_height()), (1600, 2));
    assert_eq!(recompute(&mut image, PreviewSize::Resized(10)), Err(ImageError::ScaleFailure));
    assert_eq!((image.preview_width(), image.preview_height()), (1600, 2));
    assert_eq!(image.preview_image_buffer(), &raster(1600, 2, "scaled"));
    assert_eq!(recompute(&mut image, PreviewSize::BestFit(0, 0)), Err(ImageError::ScaleFailure));
    assert_eq!(image.preview_image_buffer(), &raster(1600, 2, "scaled"));
}

#[test]
fn backend_failure_keeps_the_old_preview() {
    let mut image = loaded(800, 600);
    assert_eq!(recompute(&mut image, PreviewSize::Resized(50)), Ok(()));
    assert_eq!(
        image.create_preview_image_buffer(PreviewSize::Resized(25), None),
        Err(ImageError::ScaleFailure)
    );
    assert_eq!(
        image.create_preview_image_buffer(PreviewSize::OriginalSize, None),
        Err(ImageError::ScaleFailure)
    );
    assert_eq!((image.preview_width(), image.preview_height()), (400, 300));
    assert_eq!(image.preview_image_buffer(), &raster(400, 300, "scaled"));
    assert_eq!(image.image_buffer(), &raster(800, 600, "original"));
}

#[test]
fn raster_without_plan_is_not_installed() {
    let mut image = loaded(800, 1);
    let stray = raster(80, 1, "stray");
    assert_eq!(
        image.create_preview_image_buffer(PreviewSize::Resized(10), Some(stray)),
        Err(ImageError::ScaleFailure)
    );
    assert_eq!(image.preview_image_buffer(), &raster(800, 1, "original"));
    assert_eq!((image.preview_width(), image.preview_height()), (800, 1));
}

#[test]
fn preview_plan_agrees_with_plan_preview() {
    let image = loaded(1920, 1080);
    let sizes = [
        PreviewSize::BestFit(0, 0),
        PreviewSize::BestFit(640, 480),
        PreviewSize::BestFit(480, 640),
        PreviewSize::OriginalSize,
        PreviewSize::Resized(10),
        PreviewSize::Resized(33),
        PreviewSize::Resized(66),
        PreviewSize::Resized(150),
        PreviewSize::Resized(200),
    ];
    for size in sizes {
        assert_eq!(image.preview_plan(size), plan_preview(1920, 1080, size));
    }
    assert_eq!(
        image.preview_plan(PreviewSize::BestFit(640, 480)),
        Ok(PreviewPlan::Scaled { width: 640, height: 360 })
    );
    assert_eq!(
        image.preview_plan(PreviewSize::Resized(33)),
        Ok(PreviewPlan::Scaled { width: 633, height: 356 })
    );
}

#[test]
fn walking_the_ladder_grows_the_preview() {
    let mut image = loaded(800, 600);
    let mut size = PreviewSize::Resized(10);
    let mut last = (0, 0);
    loop {
        assert_eq!(recompute(&mut image, size), Ok(()));
        let now = (image.preview_width(), image.preview_height());
        assert!(now.0 > last.0 && now.1 > last.1);
        last = now;
        if !size.can_be_larger() {
            break;
        }
        size = size.larger().unwrap();
    }
    assert_eq!(last, (1600, 1200));
}
