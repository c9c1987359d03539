//! Pixel geometry for resizing and cropping images.
//!
//! Given an image's pixel dimensions, a target box, an optional zoom factor
//! and a focal point expressed as percentages, the crate computes the exact
//! resize dimensions and crop rectangle an image pipeline should apply.
//! Percentages and zoom factors are carried as fixed-point integers in
//! hundredths, so every computation is exact integer arithmetic.

pub mod calc;
pub mod media;

pub use media::MediaType;
pub use media::QueryInfo;
pub use calc::Box;
pub use calc::CropBox;
pub use calc::OptionBox;
pub use calc::Point;
pub use calc::RelativePoint;
pub use calc::ValidationErr;
pub use calc::add_missing_edge;
pub use calc::crop;
pub use calc::crop_and_zoom;
pub use calc::crop_box;
pub use calc::fit;
pub use calc::resize_and_zoom;
pub use calc::true_focal_point;
pub use calc::try_crop;
pub use calc::try_fit;
