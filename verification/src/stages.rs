//! The three colour stages. Each reads an image and makes a new one of the
//! same size; none touches alpha.

use vstd::prelude::*;
use crate::channel::{
    blended,
    cut,
    cut_channel,
    capped,
    lemma_blend_full,
    lemma_blend_near_exact,
    lemma_blend_none,
    lemma_cut_none,
    lemma_scale_double,
    lemma_scale_monotone,
    lemma_scale_near_exact,
    lemma_scale_neutral,
    lemma_scale_zero,
    scaled,
    weight,
    Blend,
    Gain,
};
use crate::raster::{Image, ImageView};

verus! {

/// The gray value of a colour: 2126 parts of red, 7152 of green and 722 of
/// blue in ten thousand, the fraction of the last division dropped.
pub open spec fn luma(r: u8, g: u8, b: u8) -> u8 {
    ((2126 * r + 7152 * g + 722 * b) / 10000) as u8
}

/// The gray value of pixel number `p` of the samples `px`.
pub open spec fn gray_at(px: Seq<u8>, p: int) -> u8 {
    luma(px[4 * p], px[4 * p + 1], px[4 * p + 2])
}

/// The gray values of all pixels of the samples `px`, one for each pixel.
pub open spec fn luma_plane(px: Seq<u8>) -> Seq<u8> {
    Seq::new((px.len() / 4) as nat, |p: int| gray_at(px, p))
}

/// The image `v` with every colour sample blended towards the gray value
/// of its pixel by the knob `grayscale`.
pub open spec fn grayscaled(v: ImageView, grayscale: u32) -> ImageView {
    ImageView {
        width: v.width,
        height: v.height,
        pixels: Seq::new(
            v.pixels.len(),
            |i: int|
                if i % 4 == 3 {
                    v.pixels[i]
                } else {
                    blended(v.pixels[i], gray_at(v.pixels, i / 4), grayscale)
                },
        ),
    }
}

/// The image `v` with every colour sample scaled by the knob `brightness`.
pub open spec fn brightened(v: ImageView, brightness: u32) -> ImageView {
    ImageView {
        width: v.width,
        height: v.height,
        pixels: Seq::new(
            v.pixels.len(),
            |i: int|
                if i % 4 == 3 {
                    v.pixels[i]
                } else {
                    scaled(v.pixels[i], brightness)
                },
        ),
    }
}

/// The image `v` with every colour sample below the cutoff of the knob
/// `threshold` set to 0.
pub open spec fn thresholded(v: ImageView, threshold: u32) -> ImageView {
    ImageView {
        width: v.width,
        height: v.height,
        pixels: Seq::new(
            v.pixels.len(),
            |i: int|
                if i % 4 == 3 {
                    v.pixels[i]
                } else {
                    cut(v.pixels[i], threshold)
                },
        ),
    }
}

/// A grayscale knob of 0 changes nothing.
pub proof fn lemma_grayscaled_none(v: ImageView)
    ensures
        grayscaled(v, 0) == v,
{
    assert forall|i: int| 0 <= i < v.pixels.len() implies grayscaled(v, 0).pixels[i]
        == v.pixels[i] by {
        lemma_blend_none(v.pixels[i], gray_at(v.pixels, i / 4));
    }
    assert(grayscaled(v, 0).pixels =~= v.pixels);
}

/// A brightness knob of 50 changes nothing.
pub proof fn lemma_brightened_neutral(v: ImageView)
    ensures
        brightened(v, 50) == v,
{
    assert forall|i: int| 0 <= i < v.pixels.len() implies brightened(v, 50).pixels[i]
        == v.pixels[i] by {
        lemma_scale_neutral(v.pixels[i]);
    }
    assert(brightened(v, 50).pixels =~= v.pixels);
}

/// A threshold knob of 0 changes nothing.
pub proof fn lemma_thresholded_none(v: ImageView)
    ensures
        thresholded(v, 0) == v,
{
    assert forall|i: int| 0 <= i < v.pixels.len() implies thresholded(v, 0).pixels[i]
        == v.pixels[i] by {
        lemma_cut_none(v.pixels[i]);
    }
    assert(thresholded(v, 0).pixels =~= v.pixels);
}

/// Grayscale 100 gives red, green and blue of every pixel the gray value
/// of that pixel, and leaves alpha as it is.
pub proof fn lemma_grayscaled_full(v: ImageView)
    ensures
        grayscaled(v, 100).width == v.width,
        grayscaled(v, 100).height == v.height,
        grayscaled(v, 100).pixels.len() == v.pixels.len(),
        forall|i: int|
            0 <= i < v.pixels.len() ==> #[trigger] grayscaled(v, 100).pixels[i] == if i % 4 == 3 {
                v.pixels[i]
            } else {
                gray_at(v.pixels, i / 4)
            },
{
    assert forall|i: int| 0 <= i < v.pixels.len() implies #[trigger] grayscaled(v, 100).pixels[i]
        == if i % 4 == 3 {
        v.pixels[i]
    } else {
        gray_at(v.pixels, i / 4)
    } by {
        lemma_blend_full(v.pixels[i], gray_at(v.pixels, i / 4));
    }
}

/// Brightness 100 doubles red, green and blue, up to 255, and leaves
/// alpha as it is.
pub proof fn lemma_brightened_double(v: ImageView)
    ensures
        brightened(v, 100).width == v.width,
        brightened(v, 100).height == v.height,
        brightened(v, 100).pixels.len() == v.pixels.len(),
        forall|i: int|
            0 <= i < v.pixels.len() ==> #[trigger] brightened(v, 100).pixels[i] == if i % 4 == 3 {
                v.pixels[i] as int
            } else if 2 * v.pixels[i] >= 255 {
                255
            } else {
                2 * v.pixels[i]
            },
{
    assert forall|i: int| 0 <= i < v.pixels.len() implies #[trigger] brightened(v, 100).pixels[i]
        == if i % 4 == 3 {
        v.pixels[i] as int
    } else if 2 * v.pixels[i] >= 255 {
        255
    } else {
        2 * v.pixels[i]
    } by {
        lemma_scale_double(v.pixels[i]);
    }
}

/// Brightness 0 turns red, green and blue to 0 and leaves alpha as it
/// is.
pub proof fn lemma_brightened_black(v: ImageView)
    ensures
        brightened(v, 0).width == v.width,
        brightened(v, 0).height == v.height,
        brightened(v, 0).pixels.len() == v.pixels.len(),
        forall|i: int|
            0 <= i < v.pixels.len() ==> #[trigger] brightened(v, 0).pixels[i] == if i % 4 == 3 {
                v.pixels[i]
            } else {
                0
            },
{
    assert forall|i: int| 0 <= i < v.pixels.len() implies #[trigger] brightened(v, 0).pixels[i]
        == if i % 4 == 3 {
        v.pixels[i]
    } else {
        0
    } by {
        lemma_scale_zero(v.pixels[i]);
    }
}

/// For a grayscale knob within its domain, every colour sample of the
/// result is the whole part of the exact blend of the sample with the gray
/// value of its pixel, or one less where that blend is whole.
pub proof fn lemma_grayscaled_near_exact(v: ImageView, grayscale: u32, i: int)
    requires
        grayscale <= 100,
        0 <= i < v.pixels.len(),
        i % 4 != 3,
    ensures
        ({
            let total = v.pixels[i] * (100 - grayscale) + gray_at(v.pixels, i / 4) * grayscale;
            let got = grayscaled(v, grayscale).pixels[i];
            if total % 100 == 0 {
                got == total / 100 || got == total / 100 - 1
            } else {
                got == total / 100
            }
        }),
{
    lemma_blend_near_exact(v.pixels[i], gray_at(v.pixels, i / 4), grayscale);
}

/// For a brightness knob within its domain, every colour sample of the
/// result is the whole part of the sample times `brightness / 50`, up to
/// 255, or one less where that product is whole.
pub proof fn lemma_brightened_near_exact(v: ImageView, brightness: u32, i: int)
    requires
        brightness <= 100,
        0 <= i < v.pixels.len(),
        i % 4 != 3,
    ensures
        ({
            let total = v.pixels[i] * brightness;
            let got = brightened(v, brightness).pixels[i];
            if total % 50 == 0 {
                got == capped(total / 50) || (total >= 50 && got == capped(total / 50 - 1))
            } else {
                got == capped(total / 50)
            }
        }),
{
    lemma_scale_near_exact(v.pixels[i], brightness);
}

/// A higher brightness knob darkens no sample of an image.
pub proof fn lemma_brightened_monotone(v: ImageView, lower: u32, higher: u32, i: int)
    requires
        lower <= higher,
        0 <= i < v.pixels.len(),
    ensures
        brightened(v, lower).pixels[i] <= brightened(v, higher).pixels[i],
{
    lemma_scale_monotone(v.pixels[i], lower, v.pixels[i], higher);
}

/// The gray values of an image, computed by `image::imageops::grayscale`
/// on the samples taken as an RGBA buffer of the image's size. Trusted:
/// the result holds one value for each pixel, in the order of the pixels,
/// and each is `luma` of the pixel's red, green and blue. The buffer is
/// made by `ImageBuffer::from_raw`, which takes any buffer of at least
/// `width * height * 4` samples; every `Image` has exactly that many. An
/// image without pixels is left out: the walk over the pixels of an image
/// no column wide and two or more rows high asks for a pixel that is not
/// there.
#[verifier::external_body]
fn gray_plane(image: &Image) -> (plane: Vec<u8>)
    requires
        image@.pixels.len() > 0,
    ensures
        plane@ == luma_plane(image@.pixels),
{
    let samples = image.pixels.clone();
    let buffer = image::RgbaImage::from_raw(image.width, image.height, samples)
        .expect("the buffer holds width * height * 4 samples");
    image::imageops::grayscale(&buffer).into_raw()
}

/// Blends every colour sample with the gray value of its pixel, by the
/// weight `grayscale_factor / 100`. Alpha stays. An image without pixels
/// comes back as it is.
pub fn apply_grayscale(image: &Image, grayscale_factor: u32) -> (result: Image)
    ensures
        result@ == grayscaled(image@, grayscale_factor),
        grayscale_factor == 0 ==> result@ == image@,
        grayscale_factor == 100 ==> forall|i: int|
            0 <= i < image@.pixels.len() ==> #[trigger] result@.pixels[i] == if i % 4 == 3 {
                image@.pixels[i]
            } else {
                gray_at(image@.pixels, i / 4)
            },
{
    proof {
        lemma_grayscaled_none(image@);
        lemma_grayscaled_full(image@);
    }
    if image.pixels().len() == 0 {
        let same = image.clone();
        assert(grayscaled(image@, grayscale_factor).pixels =~= image@.pixels);
        return same;
    }
    let plane = gray_plane(image);
    let blend = Blend::new(grayscale_factor);
    let width = image.width();
    let height = image.height();
    let px = image.pixels();
    let n = px.len();
    let ghost goal = grayscaled(image@, grayscale_factor).pixels;
    let mut out: Vec<u8> = Vec::with_capacity(n);
    let mut i: usize = 0;
    while i < n
        invariant
            i <= n,
            n == px@.len(),
            n % 4 == 0,
            px@ == image@.pixels,
            plane@ == luma_plane(px@),
            goal == grayscaled(image@, grayscale_factor).pixels,
            blend.weight() == weight(grayscale_factor, 100),
            out@.len() == i,
            forall|j: int| 0 <= j < i ==> out@[j] == goal[j],
        decreases n - i,
    {
        let c = px[i];
        let sample = if i % 4 == 3 {
            c
        } else {
            blend.mix(c, plane[i / 4])
        };
        out.push(sample);
        i += 1;
    }
    assert(out@ =~= goal);
    Image::from_parts(width, height, out)
}

/// Multiplies every colour sample by `brightness / 50`, up to 255. Alpha
/// stays.
pub fn adjust_brightness(image: &Image, brightness: u32) -> (result: Image)
    ensures
        result@ == brightened(image@, brightness),
        brightness == 50 ==> result@ == image@,
        brightness == 100 ==> forall|i: int|
            0 <= i < image@.pixels.len() ==> #[trigger] result@.pixels[i] == if i % 4 == 3 {
                image@.pixels[i] as int
            } else if 2 * image@.pixels[i] >= 255 {
                255
            } else {
                2 * image@.pixels[i]
            },
        brightness == 0 ==> forall|i: int|
            0 <= i < image@.pixels.len() ==> #[trigger] result@.pixels[i] == if i % 4 == 3 {
                image@.pixels[i]
            } else {
                0
            },
{
    proof {
        lemma_brightened_neutral(image@);
        lemma_brightened_double(image@);
        lemma_brightened_black(image@);
    }
    let gain = Gain::new(brightness);
    let width = image.width();
    let height = image.height();
    let px = image.pixels();
    let n = px.len();
    let ghost goal = brightened(image@, brightness).pixels;
    let mut out: Vec<u8> = Vec::with_capacity(n);
    let mut i: usize = 0;
    while i < n
        invariant
            i <= n,
            n == px@.len(),
            px@ == image@.pixels,
            goal == brightened(image@, brightness).pixels,
            gain.factor() == weight(brightness, 50),
            out@.len() == i,
            forall|j: int| 0 <= j < i ==> out@[j] == goal[j],
        decreases n - i,
    {
        let c = px[i];
        let sample = if i % 4 == 3 {
            c
        } else {
            gain.scale(c)
        };
        out.push(sample);
        i += 1;
    }
    assert(out@ =~= goal);
    Image::from_parts(width, height, out)
}

/// Sets every colour sample below five halves of `threshold` to 0 and
/// keeps the others. Alpha stays.
pub fn apply_threshold(image: &Image, threshold: u32) -> (result: Image)
    ensures
        result@ == thresholded(image@, threshold),
        threshold == 0 ==> result@ == image@,
{
    proof {
        lemma_thresholded_none(image@);
    }
    let width = image.width();
    let height = image.height();
    let px = image.pixels();
    let n = px.len();
    let ghost goal = thresholded(image@, threshold).pixels;
    let mut out: Vec<u8> = Vec::with_capacity(n);
    let mut i: usize = 0;
    while i < n
        invariant
            i <= n,
            n == px@.len(),
            px@ == image@.pixels,
            goal == thresholded(image@, threshold).pixels,
            out@.len() == i,
            forall|j: int| 0 <= j < i ==> out@[j] == goal[j],
        decreases n - i,
    {
        let c = px[i];
        let sample = if i % 4 == 3 {
            c
        } else {
            cut_channel(c, threshold)
        };
        out.push(sample);
        i += 1;
    }
    assert(out@ =~= goal);
    Image::from_parts(width, height, out)
}

} // verus!
