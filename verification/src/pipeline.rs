//! The transform pipeline: grayscale, then brightness, then threshold,
//! then rotation, in that order and no other.

use vstd::prelude::*;
use crate::raster::{Image, ImageView};
use crate::rotation::{rotate, rotated};
use crate::stages::{
    adjust_brightness,
    apply_grayscale,
    apply_threshold,
    brightened,
    grayscaled,
    lemma_brightened_neutral,
    lemma_grayscaled_none,
    lemma_thresholded_none,
    thresholded,
};

verus! {

/// What a caller asks of the pipeline. No value of a knob is refused.
#[derive(Clone, Copy, Debug, PartialEq, Eq)]
pub struct TransformRequest {
    /// How far colours are blended towards gray: 0 not at all, 100 fully.
    pub grayscale: u32,
    /// The brightness factor in fiftieths: 50 changes nothing, 100 doubles.
    pub brightness: u32,
    /// The cutoff below which a colour sample turns 0, in steps of five
    /// halves: 0 cuts nothing, 100 cuts below 250.
    pub threshold: u32,
    /// Degrees to turn clockwise: 90, 180 or 270; any other value turns
    /// nothing.
    pub rotation: u32,
}

/// The image `v` after all four stages, in their fixed order.
pub open spec fn transformed(v: ImageView, request: TransformRequest) -> ImageView {
    rotated(
        thresholded(
            brightened(grayscaled(v, request.grayscale), request.brightness),
            request.threshold,
        ),
        request.rotation,
    )
}

/// Whether `rotation` asks for a turn.
pub open spec fn turns(rotation: u32) -> bool {
    rotation == 90 || rotation == 180 || rotation == 270
}

/// A request of grayscale 0, brightness 50, threshold 0 and a rotation
/// that is no quarter turn gives back the image it was given.
pub proof fn lemma_identity_request(v: ImageView, request: TransformRequest)
    requires
        request.grayscale == 0,
        request.brightness == 50,
        request.threshold == 0,
        !turns(request.rotation),
    ensures
        transformed(v, request) == v,
{
    lemma_grayscaled_none(v);
    lemma_brightened_neutral(v);
    lemma_thresholded_none(v);
}

/// The image `v` after the three colour stages, before any turn.
pub open spec fn coloured(v: ImageView, request: TransformRequest) -> ImageView {
    thresholded(
        brightened(grayscaled(v, request.grayscale), request.brightness),
        request.threshold,
    )
}

/// No colour stage changes the size of the image or any alpha sample,
/// whatever the knobs.
pub proof fn lemma_alpha_stays(v: ImageView, request: TransformRequest, i: int)
    requires
        0 <= i < v.pixels.len(),
        i % 4 == 3,
    ensures
        coloured(v, request).width == v.width,
        coloured(v, request).height == v.height,
        coloured(v, request).pixels.len() == v.pixels.len(),
        coloured(v, request).pixels[i] == v.pixels[i],
        transformed(v, request) == rotated(coloured(v, request), request.rotation),
{
}

/// A request that asks for grayscale and threshold alone gives what
/// thresholding the grayscaled image gives.
pub proof fn lemma_grayscale_before_threshold(v: ImageView, request: TransformRequest)
    requires
        request.brightness == 50,
        !turns(request.rotation),
    ensures
        transformed(v, request) == thresholded(
            grayscaled(v, request.grayscale),
            request.threshold,
        ),
{
    lemma_brightened_neutral(grayscaled(v, request.grayscale));
}

/// A quarter or three-quarter turn makes the width the height and the
/// height the width; every other request keeps both.
pub proof fn lemma_transformed_size(v: ImageView, request: TransformRequest)
    ensures
        request.rotation == 90 || request.rotation == 270 ==> transformed(v, request).width
            == v.height && transformed(v, request).height == v.width,
        request.rotation != 90 && request.rotation != 270 ==> transformed(v, request).width
            == v.width && transformed(v, request).height == v.height,
        transformed(v, request).pixels.len() == v.pixels.len(),
{
}

/// Runs the four stages on the image, in their fixed order. A stage whose
/// knob has its neutral value is passed over, which changes nothing.
pub fn apply(image: Image, request: &TransformRequest) -> (result: Image)
    ensures
        result@ == transformed(image@, *request),
        request.grayscale == 0 && request.brightness == 50 && request.threshold == 0 && !turns(
            request.rotation,
        ) ==> result@ == image@,
        request.rotation == 90 || request.rotation == 270 ==> result@.width == image@.height
            && result@.height == image@.width,
        request.rotation != 90 && request.rotation != 270 ==> result@.width == image@.width
            && result@.height == image@.height,
{
    proof {
        if request.grayscale == 0 && request.brightness == 50 && request.threshold == 0 && !turns(
            request.rotation,
        ) {
            lemma_identity_request(image@, *request);
        }
    }
    let mut current = image;
    if request.grayscale > 0 {
        current = apply_grayscale(&current, request.grayscale);
    } else {
        proof {
            lemma_grayscaled_none(current@);
        }
    }
    if request.brightness != 50 {
        current = adjust_brightness(&current, request.brightness);
    } else {
        proof {
            lemma_brightened_neutral(current@);
        }
    }
    if request.threshold > 0 {
        current = apply_threshold(&current, request.threshold);
    } else {
        proof {
            lemma_thresholded_none(current@);
        }
    }
    rotate(current, request.rotation)
}

} // verus!
