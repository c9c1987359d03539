//! Media types and the cross-field rules of a resize request.
//!
//! A request names a resize strategy (`fit` or `crop`), a target box that may
//! miss one side, an optional media type and quality, an optional zoom and an
//! optional focal point. The checks here decide which combinations are
//! accepted, mirroring the decisions the transcoding endpoint makes before it
//! touches any pixels.

use vstd::prelude::*;
use vstd::string::StrSliceExecFns;

verus! {

/// Compares two string slices by length and characters.
fn eq_str(a: &str, b: &str) -> (r: bool)
    ensures
        r == (a@ == b@),
{
    let alen = a.unicode_len();
    let blen = b.unicode_len();
    if alen != blen {
        return false;
    }
    let mut i: usize = 0;
    while i < alen
        invariant
            0 <= i <= alen,
            alen == a@.len(),
            blen == b@.len(),
            alen == blen,
            forall|j: int| 0 <= j < i ==> a@[j] == b@[j],
        decreases alen - i,
    {
        let ca = a.get_char(i);
        let cb = b.get_char(i);
        if ca != cb {
            return false;
        }
        i += 1;
    }
    proof {
        assert(a@ =~= b@);
    }
    true
}

/// An output image format the endpoint can produce.
#[derive(Debug, PartialEq, Eq, Structural)]
pub enum MediaType {
    JPEG,
    WEBP,
    PNG,
}

/// The media type a format name denotes: `jpeg`, `png` and `webp` are
/// recognised, anything else is refused.
pub open spec fn media_type_from_str(s: Seq<char>) -> Result<MediaType, ()> {
    if s == "jpeg"@ {
        Ok(MediaType::JPEG)
    } else if s == "png"@ {
        Ok(MediaType::PNG)
    } else if s == "webp"@ {
        Ok(MediaType::WEBP)
    } else {
        Err(())
    }
}

impl MediaType {
    /// Parses a media type name.
    pub fn from_str(input: &str) -> (r: Result<MediaType, ()>)
        ensures
            r == media_type_from_str(input@),
    {
        if eq_str(input, "jpeg") {
            Ok(MediaType::JPEG)
        } else if eq_str(input, "png") {
            Ok(MediaType::PNG)
        } else if eq_str(input, "webp") {
            Ok(MediaType::WEBP)
        } else {
            Err(())
        }
    }

    /// The media type used when a request names none.
    pub fn default_media_type() -> (r: MediaType)
        ensures
            r == MediaType::WEBP,
    {
        MediaType::WEBP
    }
}

/// The query parameters of a resize request, as plain values: zoom in
/// hundredths of a factor, focal coordinates in hundredths of a percent.
pub struct QueryInfo {
    pub resize: Option<String>,
    pub w: Option<u32>,
    pub h: Option<u32>,
    pub zoom: Option<u32>,
    pub media_type: Option<String>,
    pub quality: Option<u8>,
    pub fx: Option<i64>,
    pub fy: Option<i64>,
}

impl QueryInfo {
    /// The default quality for a media type, or an error for a media type
    /// that does not take a quality setting.
    pub fn get_default_quality_for_media_type(media_type: &MediaType) -> (r: Result<
        u8,
        &'static str,
    >)
        ensures
            r is Ok <==> *media_type != MediaType::PNG,
            *media_type == MediaType::JPEG ==> r == Ok::<u8, &'static str>(70u8),
            *media_type == MediaType::WEBP ==> r == Ok::<u8, &'static str>(60u8),
            *media_type == MediaType::PNG ==> (r matches Err(e) && e@
                == "Media type does not support quality"@),
    {
        match media_type {
            MediaType::JPEG => Ok(70),
            MediaType::WEBP => Ok(60),
            MediaType::PNG => Err("Media type does not support quality"),
        }
    }
}

/// Whether the request names the crop strategy.
pub open spec fn resize_is_crop(resize: Option<String>) -> bool {
    match resize {
        Some(s) => s@ == "crop"@,
        None => false,
    }
}

/// The media type a request denotes: the named one when it parses, else the
/// default.
pub open spec fn effective_media_type(media_type: Option<String>) -> MediaType {
    match media_type {
        Some(s) => match media_type_from_str(s@) {
            Ok(m) => m,
            Err(_) => MediaType::WEBP,
        },
        None => MediaType::WEBP,
    }
}

/// Neither a width nor a height was requested.
pub open spec fn missing_both_sides(q: QueryInfo) -> bool {
    q.w is None && q.h is None
}

/// The crop strategy was requested without both sides of the target box.
pub open spec fn crop_missing_side(q: QueryInfo) -> bool {
    resize_is_crop(q.resize) && (q.w is None || q.h is None)
}

/// A quality was requested together with a media type that takes none.
pub open spec fn quality_unsupported(q: QueryInfo) -> bool {
    effective_media_type(q.media_type) == MediaType::PNG && q.quality is Some
}

/// Checks the cross-field rules of a resize request: at least one of `w`,
/// `h` present; both present when the crop strategy is requested; a quality
/// only together with a media type that supports one. A media type, when
/// named, must be a recognised one.
pub fn validate_query_info(q: &QueryInfo) -> (r: Result<(), &'static str>)
    requires
        q.media_type matches Some(m) ==> media_type_from_str(m@) is Ok,
    ensures
        r is Ok <==> (!missing_both_sides(*q) && !crop_missing_side(*q) && !quality_unsupported(
            *q,
        )),
        missing_both_sides(*q) ==> (r matches Err(e) && e@
            == "At least one of `w`, `h` must be provided"@),
        !missing_both_sides(*q) && crop_missing_side(*q) ==> (r matches Err(e) && e@
            == "For resize `crop` both `w` and `h` must be provided"@),
        !missing_both_sides(*q) && !crop_missing_side(*q) && quality_unsupported(*q) ==> (r matches
            Err(e) && e@ == "Media type does not support quality"@),
{
    if q.w.is_none() && q.h.is_none() {
        return Err("At least one of `w`, `h` must be provided");
    }
    let is_crop = match &q.resize {
        Some(s) => eq_str(s.as_str(), "crop"),
        None => false,
    };
    if is_crop && (q.h.is_none() || q.w.is_none()) {
        return Err("For resize `crop` both `w` and `h` must be provided");
    }
    let media_type = match &q.media_type {
        Some(m) => match MediaType::from_str(m.as_str()) {
            Ok(t) => t,
            Err(_) => unreached(),
        },
        None => MediaType::default_media_type(),
    };
    if QueryInfo::get_default_quality_for_media_type(&media_type).is_err() && q.quality.is_some() {
        return Err("Media type does not support quality");
    }
    Ok(())
}

/// Checks that a resize strategy name is `fit` or `crop`.
pub fn validate_resize(resize: &str) -> (r: Result<(), &'static str>)
    ensures
        r is Ok <==> (resize@ == "fit"@ || resize@ == "crop"@),
        r matches Err(e) ==> e@ == "resize must be either `fit` or `crop`"@,
{
    if eq_str(resize, "fit") || eq_str(resize, "crop") {
        Ok(())
    } else {
        Err("resize must be either `fit` or `crop`")
    }
}

/// Checks that a media type name is one of the recognised ones.
pub fn validate_media_type(media_type: &str) -> (r: Result<(), &'static str>)
    ensures
        r is Ok <==> media_type_from_str(media_type@) is Ok,
        r matches Err(e) ==> e@ == "Media type must be `jpeg`, `png`, or `webp`"@,
{
    match MediaType::from_str(media_type) {
        Ok(_) => Ok(()),
        Err(_) => Err("Media type must be `jpeg`, `png`, or `webp`"),
    }
}

} // verus!
