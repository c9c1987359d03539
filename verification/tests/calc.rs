use imgconv::{
    add_missing_edge, crop, crop_and_zoom, crop_box, fit, resize_and_zoom, true_focal_point,
    try_crop, try_fit, Box, CropBox, OptionBox, RelativePoint,
};

#[test]
fn test_option_box_is_ok() {
    assert!(OptionBox::build(Some(100), Some(200)).is_ok());
    assert!(OptionBox::build(None, Some(200)).is_ok());
    assert!(OptionBox::build(Some(100), None).is_ok());
}

#[test]
fn test_option_box_is_err() {
    assert!(OptionBox::build(None, None).is_err());
}

#[test]
fn test_relative_point_validates() {
    assert!(RelativePoint::build(0, 10000).is_ok());
}

#[test]
fn test_relative_point_does_not_validate() {
    assert!(RelativePoint::build(0, 10010).is_err());
    assert!(RelativePoint::build(-10, 10000).is_err());
}

#[test]
fn test_true_focal_point_out_of_bounds_upper() {
    assert_eq!(true_focal_point(1536, 1280, 10000), 896);
}

#[test]
fn test_true_focal_point_out_of_bounds_lower() {
    assert_eq!(true_focal_point(1536, 1280, 0), 640);
}

#[test]
fn test_true_focal_point_middle() {
    assert_eq!(true_focal_point(1536, 1280, 5000), 768);
}

#[test]
fn test_true_focal_point_crop_is_larger_than_image_centers_focal_point() {
    assert_eq!(true_focal_point(1024, 1280, 10000), 512);
}

#[test]
fn test_crop_box_out_of_bounds_upper() {
    assert_eq!(
        crop_box(
            &Box { w: 1536, h: 1152 },
            &Box { w: 1280, h: 720 },
            &RelativePoint::build(10000, 10000).unwrap()
        ),
        CropBox {
            top: 256,
            left: 432,
            bottom: 1536,
            right: 1152,
        }
    );
}

#[test]
fn test_crop_box_out_of_bounds_lower() {
    assert_eq!(
        crop_box(
            &Box { w: 1536, h: 1152 },
            &Box { w: 1280, h: 720 },
            &RelativePoint::build(0, 0).unwrap()
        ),
        CropBox {
            top: 0,
            left: 0,
            bottom: 1280,
            right: 720,
        }
    );
}

#[test]
fn test_crop_box_middle() {
    assert_eq!(
        crop_box(
            &Box { w: 1536, h: 1152 },
            &Box { w: 1280, h: 720 },
            &RelativePoint::build(5000, 5000).unwrap()
        ),
        CropBox {
            top: 128,
            left: 216,
            bottom: 1408,
            right: 936,
        }
    );
}

#[test]
fn test_add_missing_edge_height() {
    assert_eq!(
        add_missing_edge(
            &Box { w: 100, h: 50 },
            &OptionBox::build(Some(50), None).unwrap()
        ),
        Box { w: 50, h: 25 }
    );
}

#[test]
fn test_add_missing_edge_width() {
    assert_eq!(
        add_missing_edge(
            &Box { w: 100, h: 50 },
            &OptionBox::build(None, Some(250)).unwrap()
        ),
        Box { w: 500, h: 250 }
    );
}

#[test]
fn test_resize_and_zoom() {
    assert_eq!(
        resize_and_zoom(&Box { w: 1920, h: 1440 }, &Box { w: 1280, h: 720 }, Some(120)),
        Box { w: 1152, h: 864 }
    );
}

#[test]
fn test_crop_and_zoom() {
    assert_eq!(
        crop_and_zoom(&Box { w: 1920, h: 1440 }, &Box { w: 1280, h: 720 }, Some(120)),
        Box { w: 1536, h: 1152 }
    );
}

#[test]
fn test_fit_same_aspect_ratio() {
    assert_eq!(
        fit(
            &Box { w: 1920, h: 1440 },
            &OptionBox::build(Some(640), Some(480)).unwrap(),
            &RelativePoint::build(5000, 5000).unwrap(),
            None,
        ),
        (
            Box { w: 640, h: 480 },
            CropBox {
                top: 0,
                left: 0,
                bottom: 640,
                right: 480
            }
        )
    );
}

#[test]
fn test_fit_yields_narrower_image() {
    assert_eq!(
        fit(
            &Box { w: 1920, h: 1440 },
            &OptionBox::build(Some(1280), Some(720)).unwrap(),
            &RelativePoint::build(5000, 5000).unwrap(),
            None
        ),
        (
            Box { w: 960, h: 720 },
            CropBox {
                top: 0,
                left: 0,
                bottom: 960,
                right: 720
            },
        )
    );
}

#[test]
fn test_fit_yields_shorter_image() {
    assert_eq!(
        fit(
            &Box { w: 1920, h: 1440 },
            &OptionBox::build(Some(1280), Some(1280)).unwrap(),
            &RelativePoint::build(5000, 5000).unwrap(),
            None
        ),
        (
            Box { w: 1280, h: 960 },
            CropBox {
                top: 0,
                left: 0,
                bottom: 1280,
                right: 960
            }
        )
    );
}

#[test]
fn test_fit_with_zoom_removes_top_and_bottom() {
    assert_eq!(
        fit(
            &Box { w: 1920, h: 1440 },
            &OptionBox::build(Some(1280), Some(720)).unwrap(),
            &RelativePoint::build(5000, 5000).unwrap(),
            Some(120)
        ),
        (
            Box { w: 1152, h: 864 },
            CropBox {
                top: 0,
                left: 72,
                bottom: 1152,
                right: 792
            }
        )
    );
}

#[test]
fn test_fit_without_width_calculates_width() {
    assert_eq!(
        fit(
            &Box { w: 1920, h: 1440 },
            &OptionBox::build(Some(1280), None).unwrap(),
            &RelativePoint::build(5000, 5000).unwrap(),
            None
        ),
        (
            Box { w: 1280, h: 960 },
            CropBox {
                top: 0,
                left: 0,
                bottom: 1280,
                right: 960
            }
        )
    );
}

#[test]
fn test_crop_same_aspect_ratio() {
    assert_eq!(
        crop(
            &Box { w: 1920, h: 1440 },
            &Box { w: 640, h: 480 },
            &RelativePoint::build(5000, 5000).unwrap(),
            None
        ),
        (
            Box { w: 640, h: 480 },
            CropBox {
                top: 0,
                left: 0,
                bottom: 640,
                right: 480
            }
        )
    );
}

#[test]
fn test_crop_removes_top_and_bottom() {
    assert_eq!(
        crop(
            &Box { w: 1920, h: 1440 },
            &Box { w: 1280, h: 720 },
            &RelativePoint::build(5000, 5000).unwrap(),
            None
        ),
        (
            Box { w: 1280, h: 960 },
            CropBox {
                top: 0,
                left: 120,
                bottom: 1280,
                right: 840
            }
        )
    );
}

#[test]
fn test_crop_removes_sides() {
    assert_eq!(
        crop(
            &Box { w: 1920, h: 1440 },
            &Box { w: 960, h: 960 },
            &RelativePoint::build(5000, 5000).unwrap(),
            None,
        ),
        (
            Box { w: 1280, h: 960 },
            CropBox {
                top: 160,
                left: 0,
                bottom: 1120,
                right: 960,
            },
        ),
    );
}

#[test]
fn test_crop_with_zoom_removes_sides_and_top_and_bottom() {
    assert_eq!(
        crop(
            &Box { w: 1920, h: 1440 },
            &Box { w: 1280, h: 720 },
            &RelativePoint::build(5000, 5000).unwrap(),
            Some(120)
        ),
        (
            Box { w: 1536, h: 1152 },
            CropBox {
                top: 128,
                left: 216,
                bottom: 1408,
                right: 936
            }
        )
    );
}

#[test]
fn test_focal_clamp_keeps_window_inside_image() {
    // An extreme focal request is pulled back just enough for the window to fit.
    let p = true_focal_point(1000, 300, 9900);
    assert_eq!(p, 850);
    assert!(p >= 300 / 2);
    assert!(p + 300 / 2 <= 1000);
    let q = true_focal_point(1000, 300, 100);
    assert_eq!(q, 150);
}

#[test]
fn test_degenerate_crop_centers_on_odd_length() {
    // The crop is longer than the image: the focal percentage is ignored.
    assert_eq!(true_focal_point(101, 500, 1234), 50);
    assert_eq!(true_focal_point(101, 500, 9876), 50);
}

#[test]
fn test_true_focal_point_zero_length_image() {
    assert_eq!(true_focal_point(0, 0, 5000), 0);
    assert_eq!(true_focal_point(0, 7, 5000), 0);
}

#[test]
fn test_true_focal_point_largest_image() {
    assert_eq!(true_focal_point(u32::MAX, u32::MAX, 10000), u32::MAX / 2);
}

#[test]
fn test_add_missing_edge_complete_box_unchanged() {
    // Completing a box that already has both sides returns it unchanged.
    assert_eq!(
        add_missing_edge(
            &Box { w: 333, h: 77 },
            &OptionBox::build(Some(10), Some(20)).unwrap()
        ),
        Box { w: 10, h: 20 }
    );
}

#[test]
fn test_fit_never_exceeds_and_crop_never_falls_short_of_target() {
    // Contain-vs-cover duality at zoom 1 on an awkward aspect ratio.
    let image = Box { w: 1013, h: 771 };
    let fitted = resize_and_zoom(&image, &Box { w: 400, h: 300 }, None);
    assert_eq!(fitted, Box { w: 394, h: 300 });
    assert!(fitted.w <= 400 && fitted.h <= 300);
    let covered = crop_and_zoom(&image, &Box { w: 400, h: 300 }, None);
    assert_eq!(covered, Box { w: 400, h: 304 });
    assert!(covered.w >= 400 && covered.h >= 300);
}

#[test]
fn test_zoom_monotonicity() {
    let image = Box { w: 1920, h: 1440 };
    let target = Box { w: 1280, h: 720 };
    let plain = resize_and_zoom(&image, &target, None);
    let zoomed = resize_and_zoom(&image, &target, Some(150));
    assert_eq!(plain, Box { w: 960, h: 720 });
    assert_eq!(zoomed, Box { w: 1440, h: 1080 });
    assert!(zoomed.w > plain.w && zoomed.h > plain.h);
    // A one-hundredth zoom step on a one-pixel target is lost to truncation.
    let tiny = Box { w: 1, h: 1 };
    assert_eq!(resize_and_zoom(&tiny, &tiny, Some(101)), Box { w: 1, h: 1 });
    assert_eq!(resize_and_zoom(&tiny, &tiny, Some(200)), Box { w: 2, h: 2 });
}

#[test]
fn test_try_fit_matches_fit_and_guards() {
    let image = Box { w: 1920, h: 1440 };
    let target = OptionBox::build(Some(640), Some(480)).unwrap();
    let focal = RelativePoint::build(5000, 5000).unwrap();
    assert_eq!(
        try_fit(&image, &target, &focal, None),
        Some((
            Box { w: 640, h: 480 },
            CropBox {
                top: 0,
                left: 0,
                bottom: 640,
                right: 480
            }
        ))
    );
    let degenerate = Box { w: 0, h: 1440 };
    assert_eq!(try_fit(&degenerate, &target, &focal, None), None);
    // A completed side that truncates to zero pixels is refused.
    let extreme = OptionBox::build(Some(1), None).unwrap();
    let wide = Box { w: 100000, h: 10 };
    assert_eq!(try_fit(&wide, &extreme, &focal, None), None);
}

#[test]
fn test_try_crop_matches_crop_and_guards() {
    let image = Box { w: 1920, h: 1440 };
    let focal = RelativePoint::build(5000, 5000).unwrap();
    assert_eq!(
        try_crop(&image, &Box { w: 960, h: 960 }, &focal, None),
        Some((
            Box { w: 1280, h: 960 },
            CropBox {
                top: 160,
                left: 0,
                bottom: 1120,
                right: 960
            }
        ))
    );
    assert_eq!(try_crop(&image, &Box { w: 0, h: 960 }, &focal, None), None);
    // A result dimension that overflows a pixel count is refused.
    assert_eq!(
        try_crop(
            &Box { w: u32::MAX, h: 1 },
            &Box { w: 1, h: 1 },
            &focal,
            Some(200)
        ),
        None
    );
}

#[test]
fn test_relative_point_accessors() {
    let p = RelativePoint::build(1234, 9876).unwrap();
    assert_eq!(p.x(), 1234);
    assert_eq!(p.y(), 9876);
}

#[test]
fn test_option_box_accessors() {
    let b = OptionBox::build(Some(100), None).unwrap();
    assert_eq!(b.w(), Some(100));
    assert_eq!(b.h(), None);
}
