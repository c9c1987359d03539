//! The following functions provide the tools to fit and crop images into given
//! dimensions, allowing zoom and focal points as a percentage of the original
//! image.
//!
//! The `fit` and `crop` functions work roughly identical apart from the fact that
//! `fit` never deletes data at zoom 1, while `crop` might. Both return a resize
//! box and a crop rectangle.
//!
//! Percentages (focal points) and zoom factors are fixed-point integers in
//! hundredths: `5000` is 50%, a zoom of `120` is a factor of 1.2. All geometry
//! is exact integer arithmetic; fractional pixel values are truncated toward
//! zero, which for the non-negative quantities here is the same as rounding
//! down.

use vstd::arithmetic::div_mod::{
    lemma_div_by_multiple, lemma_div_denominator, lemma_div_is_ordered, lemma_div_multiples_vanish,
    lemma_div_pos_is_pos, lemma_fundamental_div_mod, lemma_mod_division_less_than_divisor,
    lemma_multiply_divide_le,
};
use vstd::arithmetic::mul::{lemma_mul_left_inequality, lemma_mul_nonnegative, lemma_mul_upper_bound};
use vstd::math::{max, min};
use vstd::prelude::*;

verus! {

/// Error raised when a user-supplied value fails validation at construction.
#[derive(Debug)]
pub struct ValidationErr;

/// An x, y point expressed in pixels.
pub struct Point {
    x: u32,
    y: u32,
}

/// An x, y point expressed in percentages, stored in hundredths of a percent.
///
/// Coordinates are validated to lie in `[0, 10000]` (that is, 0% to 100%) at
/// construction; an instance outside that range cannot be built.
#[derive(Debug)]
pub struct RelativePoint {
    x: u32,
    y: u32,
}

impl RelativePoint {
    /// The x coordinate, in hundredths of a percent.
    pub closed spec fn spec_x(&self) -> u32 {
        self.x
    }

    /// The y coordinate, in hundredths of a percent.
    pub closed spec fn spec_y(&self) -> u32 {
        self.y
    }

    /// Both coordinates lie in the closed percentage range [0, 100].
    pub open spec fn wf(&self) -> bool {
        self.spec_x() <= 10000 && self.spec_y() <= 10000
    }

    /// Builds a relative point from coordinates in hundredths of a percent,
    /// rejecting any coordinate outside the closed range [0, 100] percent.
    pub fn build(x: i64, y: i64) -> (r: Result<Self, ValidationErr>)
        ensures
            r is Ok <==> (0 <= x <= 10000 && 0 <= y <= 10000),
            r matches Ok(p) ==> p.spec_x() as i64 == x && p.spec_y() as i64 == y && p.wf(),
    {
        if x < 0 || x > 10000 || y < 0 || y > 10000 {
            return Err(ValidationErr);
        }
        Ok(Self { x: x as u32, y: y as u32 })
    }

    pub fn x(&self) -> (r: u32)
        ensures
            r == self.spec_x(),
    {
        self.x
    }

    pub fn y(&self) -> (r: u32)
        ensures
            r == self.spec_y(),
    {
        self.y
    }
}

/// A pixel box: a width and a height.
#[derive(Debug, PartialEq, Eq, Structural)]
pub struct Box {
    pub w: u32,
    pub h: u32,
}

/// A box whose sides may be missing, though never both: construction fails
/// when neither width nor height is present.
pub struct OptionBox {
    w: Option<u32>,
    h: Option<u32>,
}

impl OptionBox {
    pub closed spec fn spec_w(&self) -> Option<u32> {
        self.w
    }

    pub closed spec fn spec_h(&self) -> Option<u32> {
        self.h
    }

    /// At least one side is present.
    pub open spec fn wf(&self) -> bool {
        self.spec_w() is Some || self.spec_h() is Some
    }

    pub fn build(w: Option<u32>, h: Option<u32>) -> (r: Result<Self, ValidationErr>)
        ensures
            r is Ok <==> (w is Some || h is Some),
            r matches Ok(b) ==> b.spec_w() == w && b.spec_h() == h && b.wf(),
    {
        if w.is_some() || h.is_some() {
            return Ok(Self { w, h });
        }
        Err(ValidationErr)
    }

    pub fn w(&self) -> (r: Option<u32>)
        ensures
            r == self.spec_w(),
    {
        self.w
    }

    pub fn h(&self) -> (r: Option<u32>)
        ensures
            r == self.spec_h(),
    {
        self.h
    }
}

/// A crop rectangle: four pixel offsets describing the rectangle's edges,
/// each bounded by the dimension of the image it was derived from.
#[derive(Debug, PartialEq, Eq, Structural)]
pub struct CropBox {
    pub top: u32,
    pub left: u32,
    pub right: u32,
    pub bottom: u32,
}

/// `v` clamped to the closed interval `[lo, hi]`.
pub open spec fn clamped(v: int, lo: int, hi: int) -> int {
    if v < lo {
        lo
    } else if v > hi {
        hi
    } else {
        v
    }
}

/// The space between the edge of the image and the crop window, as a
/// percentage of the image length scaled by `100 * image_length`: this equals
/// `(image_length - crop_length) / (image_length / 100) / 2` times
/// `100 * image_length`. Negative when the crop is longer than the image.
pub open spec fn slack_scaled(image_length: int, crop_length: int) -> int {
    5000 * (image_length - crop_length)
}

/// The focal position as a percentage of the image length, scaled by
/// `100 * image_length`. The requested focal percentage is clamped to
/// [0, 100], re-centered around the midpoint, limited to the slack on either
/// side (or forced to the midpoint when the slack is negative), and shifted
/// back.
pub open spec fn focal_rel_scaled(image_length: int, crop_length: int, focal: int) -> int {
    let f = clamped(focal, 0, 10000);
    let m = max(slack_scaled(image_length, crop_length), 0);
    clamped(image_length * f - 5000 * image_length, -m, m) + 5000 * image_length
}

/// The focal position in pixels on one axis: the relative position times
/// `image_length / 100`, truncated. Arguments are in pixels, pixels, and
/// hundredths of a percent.
pub open spec fn focal_position(image_length: int, crop_length: int, focal: int) -> int {
    focal_rel_scaled(image_length, crop_length, focal) / 10000
}

/// The scaled relative focal position lies between 0% and 100%, scaled by
/// `100 * image_length`.
pub proof fn lemma_focal_rel_scaled_bounds(image_length: int, crop_length: int, focal: int)
    requires
        0 <= image_length,
        0 <= crop_length,
    ensures
        0 <= focal_rel_scaled(image_length, crop_length, focal) <= 10000 * image_length,
{
    let l = image_length;
    let m = max(slack_scaled(l, crop_length), 0);
    assert(0 <= m <= 5000 * l);
}

/// The focal position on one axis always lies inside the image.
pub proof fn lemma_focal_position_bounds(image_length: int, crop_length: int, focal: int)
    requires
        0 <= image_length,
        0 <= crop_length,
    ensures
        0 <= focal_position(image_length, crop_length, focal) <= image_length,
{
    let l = image_length;
    let rel = focal_rel_scaled(l, crop_length, focal);
    lemma_focal_rel_scaled_bounds(l, crop_length, focal);
    lemma_div_pos_is_pos(rel, 10000);
    lemma_div_is_ordered(rel, 10000 * l, 10000);
    lemma_div_multiples_vanish(l, 10000);
}

/// Returns the space between the edge of the image and the bounding box as a
/// percentage of the image length, scaled by `100 * image_length`.
fn get_space(image_length: u32, crop_length: u32) -> (r: i64)
    ensures
        r as int == slack_scaled(image_length as int, crop_length as int),
{
    (image_length as i64 - crop_length as i64) * 5000
}

/// Clamps the requested focal percentage, re-centers it around the image
/// midpoint, limits it to the available space on either side, and shifts it
/// back; everything scaled by `100 * image_length`.
fn true_focal_point_rel(focal_point: i64, space: i64, image_length: u32) -> (r: i64)
    requires
        space <= 5000 * (image_length as int),
    ensures
        r as int == clamped(
            image_length as int * clamped(focal_point as int, 0, 10000) - 5000 * (
            image_length as int),
            -max(space as int, 0),
            max(space as int, 0),
        ) + 5000 * (image_length as int),
{
    let l = image_length as i64;
    let f: i64 = if focal_point < 0 {
        0
    } else if focal_point > 10000 {
        10000
    } else {
        focal_point
    };
    proof {
        lemma_mul_upper_bound(l as int, u32::MAX as int, f as int, 10000);
    }
    let d = l * f - 5000 * l;
    let m: i64 = if space > 0 {
        space
    } else {
        0
    };
    let off: i64 = if d < -m {
        -m
    } else if d > m {
        m
    } else {
        d
    };
    off + 5000 * l
}

/// Calculates the focal point as an absolute pixel position on a
/// one-dimensional axis (either width or height). It attempts to make the crop
/// area not exceed the image's edge – if however the crop area is larger than
/// the image itself, this function will always yield the center of the axis.
///
/// The focal point is given in hundredths of a percent and may lie outside
/// [0, 100] percent; it is clamped before use.
pub fn true_focal_point(image_length: u32, crop_length: u32, focal_point: i64) -> (r: u32)
    ensures
        r as int == focal_position(image_length as int, crop_length as int, focal_point as int),
{
    let space = get_space(image_length, crop_length);
    let rel = true_focal_point_rel(focal_point, space, image_length);
    proof {
        let l = image_length as int;
        let c = crop_length as int;
        let fp = focal_point as int;
        assert(rel as int == focal_rel_scaled(l, c, fp));
        lemma_focal_rel_scaled_bounds(l, c, fp);
        lemma_focal_position_bounds(l, c, fp);
        lemma_div_multiples_vanish(l, 10000);
    }
    (rel as u64 / 10000) as u32
}

/// The low edge of a crop window of length `extent` centered at `pos`,
/// floor-clamped at zero.
pub open spec fn crop_edge_low(pos: int, extent: int) -> int {
    max(pos - extent / 2, 0)
}

/// The high edge of a crop window of length `extent` centered at `pos`,
/// capped at the image dimension `limit`.
pub open spec fn crop_edge_high(pos: int, extent: int, limit: int) -> int {
    min(pos + extent / 2, limit)
}

/// Given an image box (w, h), a crop box (w, h), and a focal point as a
/// percentage, returns the crop coordinates as pixels relative to the image's
/// dimensions.
///
/// Note the crossed pairing of axes and edge names: the horizontal (width)
/// projection sets `top` and `bottom`, and the vertical (height) projection
/// sets `left` and `right`. Consumers rely on this exact pairing, so it is
/// kept as is rather than renamed to the conventional meaning of the edges.
pub fn crop_box(image_box: &Box, crop: &Box, focal_point: &RelativePoint) -> (r: CropBox)
    ensures
        ({
            let px = focal_position(
                image_box.w as int,
                crop.w as int,
                focal_point.spec_x() as int,
            );
            let py = focal_position(
                image_box.h as int,
                crop.h as int,
                focal_point.spec_y() as int,
            );
            &&& r.top as int == crop_edge_low(px, crop.w as int)
            &&& r.bottom as int == crop_edge_high(px, crop.w as int, image_box.w as int)
            &&& r.left as int == crop_edge_low(py, crop.h as int)
            &&& r.right as int == crop_edge_high(py, crop.h as int, image_box.h as int)
            &&& r.top <= r.bottom <= image_box.w
            &&& r.left <= r.right <= image_box.h
        }),
{
    let true_focal_point = Point {
        x: true_focal_point(image_box.w, crop.w, focal_point.x() as i64),
        y: true_focal_point(image_box.h, crop.h, focal_point.y() as i64),
    };
    proof {
        lemma_focal_position_bounds(
            image_box.w as int,
            crop.w as int,
            focal_point.spec_x() as int,
        );
        lemma_focal_position_bounds(
            image_box.h as int,
            crop.h as int,
            focal_point.spec_y() as int,
        );
    }
    let half_w = crop.w / 2;
    let half_h = crop.h / 2;
    let top = if true_focal_point.x >= half_w {
        true_focal_point.x - half_w
    } else {
        0
    };
    let bottom_wide = true_focal_point.x as u64 + half_w as u64;
    let bottom = if bottom_wide >= image_box.w as u64 {
        image_box.w
    } else {
        bottom_wide as u32
    };
    let left = if true_focal_point.y >= half_h {
        true_focal_point.y - half_h
    } else {
        0
    };
    let right_wide = true_focal_point.y as u64 + half_h as u64;
    let right = if right_wide >= image_box.h as u64 {
        image_box.h
    } else {
        right_wide as u32
    };
    CropBox { top, left, right, bottom }
}

/// One side of a completed resize box: the given width when present, else the
/// given height scaled by the image's width-to-height ratio, truncated.
pub open spec fn completed_w(iw: int, ih: int, w: Option<u32>, h: Option<u32>) -> int {
    match w {
        Some(wv) => wv as int,
        None => match h {
            Some(hv) => iw * hv / ih,
            None => 0,
        },
    }
}

/// One side of a completed resize box: the given height when present, else
/// the given width scaled by the image's height-to-width ratio, truncated.
pub open spec fn completed_h(iw: int, ih: int, w: Option<u32>, h: Option<u32>) -> int {
    match h {
        Some(hv) => hv as int,
        None => match w {
            Some(wv) => ih * wv / iw,
            None => 0,
        },
    }
}

/// Completing a resize box that already has both of its sides returns those
/// sides unchanged, whatever the image's aspect ratio.
pub proof fn lemma_completion_idempotent(iw: int, ih: int, w: u32, h: u32)
    ensures
        completed_w(iw, ih, Some(w), Some(h)) == w as int,
        completed_h(iw, ih, Some(w), Some(h)) == h as int,
{
}

/// If any of the sides in `resize_box` is absent, calculates its length based
/// on the aspect ratio of `image_box` and the length of the present edge.
pub fn add_missing_edge(image_box: &Box, resize_box: &OptionBox) -> (r: Box)
    requires
        image_box.w >= 1,
        image_box.h >= 1,
        resize_box.wf(),
        completed_w(
            image_box.w as int,
            image_box.h as int,
            resize_box.spec_w(),
            resize_box.spec_h(),
        ) <= u32::MAX,
        completed_h(
            image_box.w as int,
            image_box.h as int,
            resize_box.spec_w(),
            resize_box.spec_h(),
        ) <= u32::MAX,
    ensures
        r.w as int == completed_w(
            image_box.w as int,
            image_box.h as int,
            resize_box.spec_w(),
            resize_box.spec_h(),
        ),
        r.h as int == completed_h(
            image_box.w as int,
            image_box.h as int,
            resize_box.spec_w(),
            resize_box.spec_h(),
        ),
{
    let w: u32 = match resize_box.w() {
        Some(wv) => wv,
        None => match resize_box.h() {
            Some(hv) => {
                proof {
                    lemma_mul_upper_bound(
                        image_box.w as int,
                        u32::MAX as int,
                        hv as int,
                        u32::MAX as int,
                    );
                }
                ((image_box.w as u64 * hv as u64) / (image_box.h as u64)) as u32
            },
            None => unreached(),
        },
    };
    let h: u32 = match resize_box.h() {
        Some(hv) => hv,
        None => match resize_box.w() {
            Some(wv) => {
                proof {
                    lemma_mul_upper_bound(
                        image_box.h as int,
                        u32::MAX as int,
                        wv as int,
                        u32::MAX as int,
                    );
                }
                ((image_box.h as u64 * wv as u64) / (image_box.w as u64)) as u32
            },
            None => unreached(),
        },
    };
    Box { w, h }
}

/// The zoom multiplier in hundredths: 100 (a factor of 1) when absent.
pub open spec fn zoom_factor(zoom: Option<u32>) -> int {
    match zoom {
        Some(z) => z as int,
        None => 100,
    }
}

/// A dimension whose exact value is `num / den`, zoomed by `z` hundredths and
/// truncated to whole pixels.
pub open spec fn zoomed_dim(num: int, den: int, z: int) -> int {
    num * z / (den * 100)
}

/// Width after contain ("fit") scaling: the image is scaled so that its
/// larger-relative-to-target axis matches the target exactly, then zoomed.
pub open spec fn contain_w(iw: int, ih: int, rw: int, rh: int, z: int) -> int {
    if iw * rh >= ih * rw {
        zoomed_dim(rw, 1, z)
    } else {
        zoomed_dim(iw * rh, ih, z)
    }
}

/// Height after contain ("fit") scaling.
pub open spec fn contain_h(iw: int, ih: int, rw: int, rh: int, z: int) -> int {
    if iw * rh >= ih * rw {
        zoomed_dim(ih * rw, iw, z)
    } else {
        zoomed_dim(rh, 1, z)
    }
}

/// Width after cover ("crop") scaling: the image is scaled so that its
/// smaller-relative-to-target axis matches the target exactly, then zoomed.
pub open spec fn cover_w(iw: int, ih: int, cw: int, ch: int, z: int) -> int {
    if iw * ch <= ih * cw {
        zoomed_dim(cw, 1, z)
    } else {
        zoomed_dim(iw * ch, ih, z)
    }
}

/// Height after cover ("crop") scaling.
pub open spec fn cover_h(iw: int, ih: int, cw: int, ch: int, z: int) -> int {
    if iw * ch <= ih * cw {
        zoomed_dim(ih * cw, iw, z)
    } else {
        zoomed_dim(ch, 1, z)
    }
}

/// Resizes (fits) an image into a resize box, then zooms the result.
pub fn resize_and_zoom(image_box: &Box, resize_box: &Box, zoom: Option<u32>) -> (r: Box)
    requires
        image_box.w >= 1,
        image_box.h >= 1,
        resize_box.w >= 1,
        resize_box.h >= 1,
        contain_w(
            image_box.w as int,
            image_box.h as int,
            resize_box.w as int,
            resize_box.h as int,
            zoom_factor(zoom),
        ) <= u32::MAX,
        contain_h(
            image_box.w as int,
            image_box.h as int,
            resize_box.w as int,
            resize_box.h as int,
            zoom_factor(zoom),
        ) <= u32::MAX,
    ensures
        r.w as int == contain_w(
            image_box.w as int,
            image_box.h as int,
            resize_box.w as int,
            resize_box.h as int,
            zoom_factor(zoom),
        ),
        r.h as int == contain_h(
            image_box.w as int,
            image_box.h as int,
            resize_box.w as int,
            resize_box.h as int,
            zoom_factor(zoom),
        ),
{
    let z: u128 = match zoom {
        Some(z) => z as u128,
        None => 100,
    };
    let iw = image_box.w as u128;
    let ih = image_box.h as u128;
    let rw = resize_box.w as u128;
    let rh = resize_box.h as u128;
    proof {
        lemma_mul_upper_bound(iw as int, u32::MAX as int, rh as int, u32::MAX as int);
        lemma_mul_upper_bound(ih as int, u32::MAX as int, rw as int, u32::MAX as int);
        lemma_mul_upper_bound(
            (ih * rw) as int,
            u32::MAX as int * u32::MAX as int,
            z as int,
            u32::MAX as int,
        );
        lemma_mul_upper_bound(
            (iw * rh) as int,
            u32::MAX as int * u32::MAX as int,
            z as int,
            u32::MAX as int,
        );
        lemma_mul_upper_bound(rw as int, u32::MAX as int, z as int, u32::MAX as int);
        lemma_mul_upper_bound(rh as int, u32::MAX as int, z as int, u32::MAX as int);
    }
    if iw * rh >= ih * rw {
        let w = (rw * z / 100) as u32;
        let h = (ih * rw * z / (iw * 100)) as u32;
        Box { w, h }
    } else {
        let w = (iw * rh * z / (ih * 100)) as u32;
        let h = (rh * z / 100) as u32;
        Box { w, h }
    }
}

/// Crops an image into a crop box, then zooms the result: the image is
/// cover-scaled onto the crop box and the overflowing axis kept.
pub fn crop_and_zoom(image_box: &Box, crop: &Box, zoom: Option<u32>) -> (r: Box)
    requires
        image_box.w >= 1,
        image_box.h >= 1,
        crop.w >= 1,
        crop.h >= 1,
        cover_w(
            image_box.w as int,
            image_box.h as int,
            crop.w as int,
            crop.h as int,
            zoom_factor(zoom),
        ) <= u32::MAX,
        cover_h(
            image_box.w as int,
            image_box.h as int,
            crop.w as int,
            crop.h as int,
            zoom_factor(zoom),
        ) <= u32::MAX,
    ensures
        r.w as int == cover_w(
            image_box.w as int,
            image_box.h as int,
            crop.w as int,
            crop.h as int,
            zoom_factor(zoom),
        ),
        r.h as int == cover_h(
            image_box.w as int,
            image_box.h as int,
            crop.w as int,
            crop.h as int,
            zoom_factor(zoom),
        ),
{
    let z: u128 = match zoom {
        Some(z) => z as u128,
        None => 100,
    };
    let iw = image_box.w as u128;
    let ih = image_box.h as u128;
    let cw = crop.w as u128;
    let ch = crop.h as u128;
    proof {
        lemma_mul_upper_bound(iw as int, u32::MAX as int, ch as int, u32::MAX as int);
        lemma_mul_upper_bound(ih as int, u32::MAX as int, cw as int, u32::MAX as int);
        lemma_mul_upper_bound(
            (ih * cw) as int,
            u32::MAX as int * u32::MAX as int,
            z as int,
            u32::MAX as int,
        );
        lemma_mul_upper_bound(
            (iw * ch) as int,
            u32::MAX as int * u32::MAX as int,
            z as int,
            u32::MAX as int,
        );
        lemma_mul_upper_bound(cw as int, u32::MAX as int, z as int, u32::MAX as int);
        lemma_mul_upper_bound(ch as int, u32::MAX as int, z as int, u32::MAX as int);
    }
    if iw * ch <= ih * cw {
        let w = (cw * z / 100) as u32;
        let h = (ih * cw * z / (iw * 100)) as u32;
        Box { w, h }
    } else {
        let w = (iw * ch * z / (ih * 100)) as u32;
        let h = (ch * z / 100) as u32;
        Box { w, h }
    }
}

/// The preconditions of `fit`: a positive image, a completed resize box with
/// positive sides, and results that fit in pixel counts.
pub open spec fn fit_ok(image: Box, w: Option<u32>, h: Option<u32>, z: int) -> bool {
    let iw = image.w as int;
    let ih = image.h as int;
    let cw = completed_w(iw, ih, w, h);
    let ch = completed_h(iw, ih, w, h);
    &&& iw >= 1
    &&& ih >= 1
    &&& 1 <= cw <= u32::MAX as int
    &&& 1 <= ch <= u32::MAX as int
    &&& contain_w(iw, ih, cw, ch, z) <= u32::MAX as int
    &&& contain_h(iw, ih, cw, ch, z) <= u32::MAX as int
}

/// The preconditions of `crop`: a positive image, a positive crop box, and
/// results that fit in pixel counts.
pub open spec fn crop_ok(image: Box, target: Box, z: int) -> bool {
    let iw = image.w as int;
    let ih = image.h as int;
    let cw = target.w as int;
    let ch = target.h as int;
    &&& iw >= 1
    &&& ih >= 1
    &&& cw >= 1
    &&& ch >= 1
    &&& cover_w(iw, ih, cw, ch, z) <= u32::MAX as int
    &&& cover_h(iw, ih, cw, ch, z) <= u32::MAX as int
}

/// Fits, then crops: completes the resize box from the image's aspect ratio,
/// contain-scales the image into it (with zoom), and derives the crop
/// rectangle of the pre-zoom resize box around the focal point. At zoom 1 the
/// crop covers the whole scaled image; beyond 1 it trims the excess
/// symmetrically around the focal point.
pub fn fit(
    image_box: &Box,
    resize_box: &OptionBox,
    focal_point: &RelativePoint,
    zoom: Option<u32>,
) -> (r: (Box, CropBox))
    requires
        fit_ok(*image_box, resize_box.spec_w(), resize_box.spec_h(), zoom_factor(zoom)),
    ensures
        ({
            let iw = image_box.w as int;
            let ih = image_box.h as int;
            let cw = completed_w(iw, ih, resize_box.spec_w(), resize_box.spec_h());
            let ch = completed_h(iw, ih, resize_box.spec_w(), resize_box.spec_h());
            let z = zoom_factor(zoom);
            let px = focal_position(contain_w(iw, ih, cw, ch, z), cw, focal_point.spec_x() as int);
            let py = focal_position(contain_h(iw, ih, cw, ch, z), ch, focal_point.spec_y() as int);
            &&& r.0.w as int == contain_w(iw, ih, cw, ch, z)
            &&& r.0.h as int == contain_h(iw, ih, cw, ch, z)
            &&& r.1.top as int == crop_edge_low(px, cw)
            &&& r.1.bottom as int == crop_edge_high(px, cw, contain_w(iw, ih, cw, ch, z))
            &&& r.1.left as int == crop_edge_low(py, ch)
            &&& r.1.right as int == crop_edge_high(py, ch, contain_h(iw, ih, cw, ch, z))
            &&& r.1.top <= r.1.bottom <= r.0.w
            &&& r.1.left <= r.1.right <= r.0.h
        }),
{
    let completed = add_missing_edge(image_box, resize_box);
    let resized_and_zoomed = resize_and_zoom(image_box, &completed, zoom);
    let cropped = crop_box(&resized_and_zoomed, &completed, focal_point);
    (resized_and_zoomed, cropped)
}

/// Crop resizes, then crops: cover-scales the image onto the crop box (with
/// zoom) and derives the crop rectangle of the crop box around the focal
/// point. The overflowing axis is trimmed to the crop box.
pub fn crop(
    image_box: &Box,
    resize_box: &Box,
    focal_point: &RelativePoint,
    zoom: Option<u32>,
) -> (r: (Box, CropBox))
    requires
        crop_ok(*image_box, *resize_box, zoom_factor(zoom)),
    ensures
        ({
            let iw = image_box.w as int;
            let ih = image_box.h as int;
            let cw = resize_box.w as int;
            let ch = resize_box.h as int;
            let z = zoom_factor(zoom);
            let px = focal_position(cover_w(iw, ih, cw, ch, z), cw, focal_point.spec_x() as int);
            let py = focal_position(cover_h(iw, ih, cw, ch, z), ch, focal_point.spec_y() as int);
            &&& r.0.w as int == cover_w(iw, ih, cw, ch, z)
            &&& r.0.h as int == cover_h(iw, ih, cw, ch, z)
            &&& r.1.top as int == crop_edge_low(px, cw)
            &&& r.1.bottom as int == crop_edge_high(px, cw, cover_w(iw, ih, cw, ch, z))
            &&& r.1.left as int == crop_edge_low(py, ch)
            &&& r.1.right as int == crop_edge_high(py, ch, cover_h(iw, ih, cw, ch, z))
            &&& r.1.top <= r.1.bottom <= r.0.w
            &&& r.1.left <= r.1.right <= r.0.h
        }),
{
    let resized_and_zoomed = crop_and_zoom(image_box, resize_box, zoom);
    let cropped = crop_box(&resized_and_zoomed, resize_box, focal_point);
    (resized_and_zoomed, cropped)
}

/// `fit` behind a total interface: tests `fit`'s preconditions and returns
/// `None` instead of demanding them from the caller.
pub fn try_fit(
    image_box: &Box,
    resize_box: &OptionBox,
    focal_point: &RelativePoint,
    zoom: Option<u32>,
) -> (r: Option<(Box, CropBox)>)
    ensures
        r is Some <==> fit_ok(
            *image_box,
            resize_box.spec_w(),
            resize_box.spec_h(),
            zoom_factor(zoom),
        ),
        r matches Some(v) ==> ({
            let iw = image_box.w as int;
            let ih = image_box.h as int;
            let cw = completed_w(iw, ih, resize_box.spec_w(), resize_box.spec_h());
            let ch = completed_h(iw, ih, resize_box.spec_w(), resize_box.spec_h());
            let z = zoom_factor(zoom);
            let px = focal_position(contain_w(iw, ih, cw, ch, z), cw, focal_point.spec_x() as int);
            let py = focal_position(contain_h(iw, ih, cw, ch, z), ch, focal_point.spec_y() as int);
            &&& v.0.w as int == contain_w(iw, ih, cw, ch, z)
            &&& v.0.h as int == contain_h(iw, ih, cw, ch, z)
            &&& v.1.top as int == crop_edge_low(px, cw)
            &&& v.1.bottom as int == crop_edge_high(px, cw, contain_w(iw, ih, cw, ch, z))
            &&& v.1.left as int == crop_edge_low(py, ch)
            &&& v.1.right as int == crop_edge_high(py, ch, contain_h(iw, ih, cw, ch, z))
        }),
{
    if image_box.w < 1 || image_box.h < 1 {
        return None;
    }
    let iw = image_box.w as u128;
    let ih = image_box.h as u128;
    let (cw, ch): (u128, u128) = match (resize_box.w(), resize_box.h()) {
        (Some(wv), Some(hv)) => (wv as u128, hv as u128),
        (Some(wv), None) => {
            proof {
                lemma_mul_upper_bound(ih as int, u32::MAX as int, wv as int, u32::MAX as int);
            }
            (wv as u128, ih * (wv as u128) / iw)
        },
        (None, Some(hv)) => {
            proof {
                lemma_mul_upper_bound(iw as int, u32::MAX as int, hv as int, u32::MAX as int);
            }
            (iw * (hv as u128) / ih, hv as u128)
        },
        (None, None) => {
            return None;
        },
    };
    if cw < 1 || ch < 1 || cw > u32::MAX as u128 || ch > u32::MAX as u128 {
        return None;
    }
    let z: u128 = match zoom {
        Some(z) => z as u128,
        None => 100,
    };
    proof {
        lemma_mul_upper_bound(iw as int, u32::MAX as int, ch as int, u32::MAX as int);
        lemma_mul_upper_bound(ih as int, u32::MAX as int, cw as int, u32::MAX as int);
        lemma_mul_upper_bound(
            (ih * cw) as int,
            u32::MAX as int * u32::MAX as int,
            z as int,
            u32::MAX as int,
        );
        lemma_mul_upper_bound(
            (iw * ch) as int,
            u32::MAX as int * u32::MAX as int,
            z as int,
            u32::MAX as int,
        );
        lemma_mul_upper_bound(cw as int, u32::MAX as int, z as int, u32::MAX as int);
        lemma_mul_upper_bound(ch as int, u32::MAX as int, z as int, u32::MAX as int);
    }
    let (rw, rh): (u128, u128) = if iw * ch >= ih * cw {
        (cw * z / 100, ih * cw * z / (iw * 100))
    } else {
        (iw * ch * z / (ih * 100), ch * z / 100)
    };
    if rw > u32::MAX as u128 || rh > u32::MAX as u128 {
        return None;
    }
    Some(fit(image_box, resize_box, focal_point, zoom))
}

/// `crop` behind a total interface: tests `crop`'s preconditions and returns
/// `None` instead of demanding them from the caller.
pub fn try_crop(
    image_box: &Box,
    resize_box: &Box,
    focal_point: &RelativePoint,
    zoom: Option<u32>,
) -> (r: Option<(Box, CropBox)>)
    ensures
        r is Some <==> crop_ok(*image_box, *resize_box, zoom_factor(zoom)),
        r matches Some(v) ==> ({
            let iw = image_box.w as int;
            let ih = image_box.h as int;
            let cw = resize_box.w as int;
            let ch = resize_box.h as int;
            let z = zoom_factor(zoom);
            let px = focal_position(cover_w(iw, ih, cw, ch, z), cw, focal_point.spec_x() as int);
            let py = focal_position(cover_h(iw, ih, cw, ch, z), ch, focal_point.spec_y() as int);
            &&& v.0.w as int == cover_w(iw, ih, cw, ch, z)
            &&& v.0.h as int == cover_h(iw, ih, cw, ch, z)
            &&& v.1.top as int == crop_edge_low(px, cw)
            &&& v.1.bottom as int == crop_edge_high(px, cw, cover_w(iw, ih, cw, ch, z))
            &&& v.1.left as int == crop_edge_low(py, ch)
            &&& v.1.right as int == crop_edge_high(py, ch, cover_h(iw, ih, cw, ch, z))
        }),
{
    if image_box.w < 1 || image_box.h < 1 || resize_box.w < 1 || resize_box.h < 1 {
        return None;
    }
    let iw = image_box.w as u128;
    let ih = image_box.h as u128;
    let cw = resize_box.w as u128;
    let ch = resize_box.h as u128;
    let z: u128 = match zoom {
        Some(z) => z as u128,
        None => 100,
    };
    proof {
        lemma_mul_upper_bound(iw as int, u32::MAX as int, ch as int, u32::MAX as int);
        lemma_mul_upper_bound(ih as int, u32::MAX as int, cw as int, u32::MAX as int);
        lemma_mul_upper_bound(
            (ih * cw) as int,
            u32::MAX as int * u32::MAX as int,
            z as int,
            u32::MAX as int,
        );
        lemma_mul_upper_bound(
            (iw * ch) as int,
            u32::MAX as int * u32::MAX as int,
            z as int,
            u32::MAX as int,
        );
        lemma_mul_upper_bound(cw as int, u32::MAX as int, z as int, u32::MAX as int);
        lemma_mul_upper_bound(ch as int, u32::MAX as int, z as int, u32::MAX as int);
    }
    let (rw, rh): (u128, u128) = if iw * ch <= ih * cw {
        (cw * z / 100, ih * cw * z / (iw * 100))
    } else {
        (iw * ch * z / (ih * 100), ch * z / 100)
    };
    if rw > u32::MAX as u128 || rh > u32::MAX as u128 {
        return None;
    }
    Some(crop(image_box, resize_box, focal_point, zoom))
}

/// Focal clamp law: whenever the crop window is shorter than the image, the
/// projected focal position `p` keeps the window inside the image for every
/// requested focal percentage: `0 <= p - crop_length / 2` and
/// `p + crop_length / 2 <= image_length`.
pub proof fn lemma_focal_clamp(image_length: int, crop_length: int, focal: int)
    requires
        0 <= crop_length < image_length,
        0 <= focal <= 10000,
    ensures
        crop_length / 2 <= focal_position(image_length, crop_length, focal),
        focal_position(image_length, crop_length, focal) + crop_length / 2 <= image_length,
{
    let l = image_length;
    let c = crop_length;
    let rel = focal_rel_scaled(l, c, focal);
    let p = focal_position(l, c, focal);
    assert(5000 * c <= rel <= 10000 * l - 5000 * c);
    lemma_fundamental_div_mod(rel, 10000);
    lemma_mod_division_less_than_divisor(rel, 10000);
    lemma_fundamental_div_mod(c, 2);
    lemma_mod_division_less_than_divisor(c, 2);
    assert(10000 * (c / 2) <= 5000 * c);
    assert(10000 * (c / 2) < 10000 * (p + 1));
    assert(10000 * (p + (c / 2)) <= 10000 * l);
}

/// Degenerate centering law: when the crop window is longer than the image,
/// the focal percentage is ignored and the projection is the image midpoint.
pub proof fn lemma_degenerate_centering(image_length: int, crop_length: int, focal: int)
    requires
        0 <= image_length < crop_length,
    ensures
        focal_position(image_length, crop_length, focal) == image_length / 2,
{
    let l = image_length;
    assert(focal_rel_scaled(l, crop_length, focal) == 5000 * l);
    lemma_div_denominator(5000 * l, 5000, 2);
    lemma_div_multiples_vanish(l, 5000);
}

/// Contain half of the duality law: at zoom 1, the contain ("fit") scaled
/// dimensions never exceed the target box on either axis.
pub proof fn lemma_contain_within_target(iw: int, ih: int, rw: int, rh: int)
    requires
        1 <= iw,
        1 <= ih,
        1 <= rw,
        1 <= rh,
    ensures
        contain_w(iw, ih, rw, rh, 100) <= rw,
        contain_h(iw, ih, rw, rh, 100) <= rh,
{
    lemma_div_by_multiple(rw, 100);
    lemma_div_by_multiple(rh, 100);
    if iw * rh >= ih * rw {
        assert((ih * rw) * 100 <= (iw * 100) * rh) by (nonlinear_arith)
            requires
                ih * rw <= iw * rh,
        ;
        lemma_multiply_divide_le((ih * rw) * 100, iw * 100, rh);
        assert(contain_h(iw, ih, rw, rh, 100) == (ih * rw) * 100 / (iw * 100));
    } else {
        assert((iw * rh) * 100 <= (ih * 100) * rw) by (nonlinear_arith)
            requires
                iw * rh <= ih * rw,
        ;
        lemma_multiply_divide_le((iw * rh) * 100, ih * 100, rw);
        assert(contain_w(iw, ih, rw, rh, 100) == (iw * rh) * 100 / (ih * 100));
    }
}

/// Cover half of the duality law: at zoom 1, the cover ("crop") scaled
/// dimensions never fall short of the target box on either axis.
pub proof fn lemma_cover_fills_target(iw: int, ih: int, cw: int, ch: int)
    requires
        1 <= iw,
        1 <= ih,
        1 <= cw,
        1 <= ch,
    ensures
        cover_w(iw, ih, cw, ch, 100) >= cw,
        cover_h(iw, ih, cw, ch, 100) >= ch,
{
    lemma_div_by_multiple(cw, 100);
    lemma_div_by_multiple(ch, 100);
    if iw * ch <= ih * cw {
        assert((ih * cw) * 100 >= (iw * 100) * ch) by (nonlinear_arith)
            requires
                ih * cw >= iw * ch,
        ;
        lemma_div_multiples_vanish(ch, iw * 100);
        lemma_div_is_ordered((iw * 100) * ch, (ih * cw) * 100, iw * 100);
        assert(cover_h(iw, ih, cw, ch, 100) == (ih * cw) * 100 / (iw * 100));
    } else {
        assert((iw * ch) * 100 >= (ih * 100) * cw) by (nonlinear_arith)
            requires
                iw * ch >= ih * cw,
        ;
        lemma_div_multiples_vanish(cw, ih * 100);
        lemma_div_is_ordered((ih * 100) * cw, (iw * ch) * 100, ih * 100);
        assert(cover_w(iw, ih, cw, ch, 100) == (iw * ch) * 100 / (ih * 100));
    }
}

/// A zoomed dimension is the exact proportional value `num * z / den / 100`
/// up to truncation: it differs from it by less than one pixel.
pub proof fn lemma_zoomed_dim_bounds(num: int, den: int, z: int)
    requires
        0 <= num,
        1 <= den,
        0 <= z,
    ensures
        (den * 100) * zoomed_dim(num, den, z) <= num * z,
        num * z < (den * 100) * (zoomed_dim(num, den, z) + 1),
{
    lemma_mul_nonnegative(num, z);
    lemma_fundamental_div_mod(num * z, den * 100);
    lemma_mod_division_less_than_divisor(num * z, den * 100);
    assert((den * 100) * (zoomed_dim(num, den, z) + 1) == (den * 100) * zoomed_dim(num, den, z) + (
    den * 100)) by (nonlinear_arith);
}

/// A larger zoom never shrinks a zoomed dimension.
pub proof fn lemma_zoomed_dim_monotonic(num: int, den: int, z1: int, z2: int)
    requires
        0 <= num,
        1 <= den,
        0 <= z1 <= z2,
    ensures
        zoomed_dim(num, den, z1) <= zoomed_dim(num, den, z2),
{
    if num > 0 {
        lemma_mul_left_inequality(num, z1, z2);
    }
    lemma_div_is_ordered(num * z1, num * z2, den * 100);
}

/// A zoom increase that is worth at least one whole pixel for a dimension
/// with exact value `num / den` strictly increases the zoomed dimension.
pub proof fn lemma_zoomed_dim_strict(num: int, den: int, z1: int, z2: int)
    requires
        0 <= num,
        1 <= den,
        0 <= z1 <= z2,
        num * (z2 - z1) >= 100 * den,
    ensures
        zoomed_dim(num, den, z1) < zoomed_dim(num, den, z2),
{
    let d = den * 100;
    let q1 = zoomed_dim(num, den, z1);
    lemma_mul_nonnegative(num, z1);
    lemma_fundamental_div_mod(num * z1, d);
    lemma_mod_division_less_than_divisor(num * z1, d);
    assert(num * z2 == num * z1 + num * (z2 - z1)) by (nonlinear_arith);
    assert(d * (q1 + 1) == d * q1 + d) by (nonlinear_arith);
    assert(num * z2 >= d * (q1 + 1));
    lemma_div_multiples_vanish(q1 + 1, d);
    lemma_div_is_ordered(d * (q1 + 1), num * z2, d);
}

/// Zoom monotonicity law: for a fixed image and target, increasing the zoom
/// never decreases any dimension that contain or cover scaling yields.
pub proof fn lemma_zoom_monotonic(iw: int, ih: int, rw: int, rh: int, z1: int, z2: int)
    requires
        1 <= iw,
        1 <= ih,
        1 <= rw,
        1 <= rh,
        0 <= z1 <= z2,
    ensures
        contain_w(iw, ih, rw, rh, z1) <= contain_w(iw, ih, rw, rh, z2),
        contain_h(iw, ih, rw, rh, z1) <= contain_h(iw, ih, rw, rh, z2),
        cover_w(iw, ih, rw, rh, z1) <= cover_w(iw, ih, rw, rh, z2),
        cover_h(iw, ih, rw, rh, z1) <= cover_h(iw, ih, rw, rh, z2),
{
    lemma_mul_nonnegative(iw, rh);
    lemma_mul_nonnegative(ih, rw);
    lemma_zoomed_dim_monotonic(rw, 1, z1, z2);
    lemma_zoomed_dim_monotonic(rh, 1, z1, z2);
    lemma_zoomed_dim_monotonic(iw * rh, ih, z1, z2);
    lemma_zoomed_dim_monotonic(ih * rw, iw, z1, z2);
}

/// Zoom strict monotonicity law: increasing the zoom strictly increases both
/// resulting dimensions of contain and cover scaling, provided the increase
/// is worth at least one whole pixel on each axis (with an exact dimension of
/// `num / den` pixels, that is `num * (z2 - z1) >= 100 * den`). An increase
/// below that threshold can be lost to pixel truncation.
pub proof fn lemma_zoom_strictly_monotonic(iw: int, ih: int, rw: int, rh: int, z1: int, z2: int)
    requires
        1 <= iw,
        1 <= ih,
        1 <= rw,
        1 <= rh,
        0 <= z1 <= z2,
        rw * (z2 - z1) >= 100,
        rh * (z2 - z1) >= 100,
        (iw * rh) * (z2 - z1) >= 100 * ih,
        (ih * rw) * (z2 - z1) >= 100 * iw,
    ensures
        contain_w(iw, ih, rw, rh, z1) < contain_w(iw, ih, rw, rh, z2),
        contain_h(iw, ih, rw, rh, z1) < contain_h(iw, ih, rw, rh, z2),
        cover_w(iw, ih, rw, rh, z1) < cover_w(iw, ih, rw, rh, z2),
        cover_h(iw, ih, rw, rh, z1) < cover_h(iw, ih, rw, rh, z2),
{
    lemma_mul_nonnegative(iw, rh);
    lemma_mul_nonnegative(ih, rw);
    lemma_zoomed_dim_strict(rw, 1, z1, z2);
    lemma_zoomed_dim_strict(rh, 1, z1, z2);
    lemma_zoomed_dim_strict(iw * rh, ih, z1, z2);
    lemma_zoomed_dim_strict(ih * rw, iw, z1, z2);
}

} // verus!
