//! The decoded image: a flat buffer of RGBA samples, eight bits each.

use vstd::prelude::*;

verus! {

/// An image as a mathematical value: its dimensions and its samples, row
/// by row from the top, each pixel as red, green, blue, alpha.
pub struct ImageView {
    pub width: nat,
    pub height: nat,
    pub pixels: Seq<u8>,
}

impl ImageView {
    /// The buffer holds exactly four samples for each pixel.
    pub open spec fn wf(self) -> bool {
        self.pixels.len() == self.width * self.height * 4
    }

    /// Where sample `k` of the pixel in column `x` of row `y` lies.
    pub open spec fn offset(self, x: int, y: int, k: int) -> int {
        (y * self.width + x) * 4 + k
    }

    /// Sample `k` of the pixel in column `x` of row `y`.
    pub open spec fn sample(self, x: int, y: int, k: int) -> u8 {
        self.pixels[self.offset(x, y, k)]
    }
}

/// A decoded image. Its buffer always holds `width * height * 4` samples.
#[derive(Debug, PartialEq, Eq)]
pub struct Image {
    pub(crate) width: u32,
    pub(crate) height: u32,
    pub(crate) pixels: Vec<u8>,
}

impl View for Image {
    type V = ImageView;

    closed spec fn view(&self) -> ImageView {
        ImageView {
            width: self.width as nat,
            height: self.height as nat,
            pixels: self.pixels@,
        }
    }
}

/// Every offset of a pixel inside the image lies inside its buffer.
pub proof fn lemma_offset_in_bounds(v: ImageView, x: int, y: int, k: int)
    requires
        v.wf(),
        0 <= x < v.width,
        0 <= y < v.height,
        0 <= k < 4,
    ensures
        0 <= v.offset(x, y, k) < v.pixels.len(),
{
    assert(0 <= y * v.width + x < v.width * v.height) by (nonlinear_arith)
        requires
            0 <= x < v.width,
            0 <= y < v.height,
    ;
}

impl Image {
    #[verifier::type_invariant]
    spec fn inv(self) -> bool {
        self.pixels@.len() == self.width * self.height * 4
    }

    /// Makes an image of the given size from its samples; `None` where
    /// their number is not `width * height * 4`.
    pub fn new(width: u32, height: u32, pixels: Vec<u8>) -> (made: Option<Image>)
        ensures
            made is Some <==> pixels@.len() == width * height * 4,
            made matches Some(image) ==> image@ == (ImageView {
                width: width as nat,
                height: height as nat,
                pixels: pixels@,
            }),
    {
        assert(width * height <= 0xffff_ffff * 0xffff_ffff) by (nonlinear_arith)
            requires
                width <= 0xffff_ffff,
                height <= 0xffff_ffff,
        ;
        let needed: u128 = (width as u128) * (height as u128) * 4;
        if pixels.len() as u128 == needed {
            Some(Image { width, height, pixels })
        } else {
            None
        }
    }

    /// Makes an image from samples whose number is known to fit.
    pub(crate) fn from_parts(width: u32, height: u32, pixels: Vec<u8>) -> (image: Image)
        requires
            pixels@.len() == width * height * 4,
        ensures
            image@ == (ImageView { width: width as nat, height: height as nat, pixels: pixels@ }),
    {
        Image { width, height, pixels }
    }

    /// The number of columns.
    pub fn width(&self) -> (w: u32)
        ensures
            w == self@.width,
            self@.wf(),
    {
        proof {
            use_type_invariant(self);
        }
        self.width
    }

    /// The number of rows.
    pub fn height(&self) -> (h: u32)
        ensures
            h == self@.height,
            self@.wf(),
    {
        proof {
            use_type_invariant(self);
        }
        self.height
    }

    /// The samples, row by row.
    pub fn pixels(&self) -> (samples: &Vec<u8>)
        ensures
            samples@ == self@.pixels,
            self@.wf(),
    {
        proof {
            use_type_invariant(self);
        }
        &self.pixels
    }

    /// Gives up the image for its samples.
    pub fn into_pixels(self) -> (samples: Vec<u8>)
        ensures
            samples@ == self@.pixels,
            self@.wf(),
    {
        proof {
            use_type_invariant(&self);
        }
        self.pixels
    }

    /// Whether the two images have the same size and the same samples.
    pub fn same_as(&self, other: &Image) -> (same: bool)
        ensures
            same == (self@ == other@),
    {
        proof {
            use_type_invariant(self);
            use_type_invariant(other);
        }
        if self.width != other.width || self.height != other.height {
            return false;
        }
        let n = self.pixels.len();
        if other.pixels.len() != n {
            return false;
        }
        let mut i: usize = 0;
        while i < n
            invariant
                i <= n,
                n == self.pixels@.len(),
                n == other.pixels@.len(),
                forall|j: int| 0 <= j < i ==> self.pixels@[j] == other.pixels@[j],
            decreases n - i,
        {
            if self.pixels[i] != other.pixels[i] {
                return false;
            }
            i += 1;
        }
        assert(self.pixels@ =~= other.pixels@);
        true
    }

    /// The four samples of the pixel in column `x` of row `y`; `None`
    /// outside the image.
    pub fn get_pixel(&self, x: u32, y: u32) -> (pixel: Option<[u8; 4]>)
        ensures
            pixel is Some <==> x < self@.width && y < self@.height,
            pixel matches Some(p) ==> {
                &&& p[0] == self@.sample(x as int, y as int, 0)
                &&& p[1] == self@.sample(x as int, y as int, 1)
                &&& p[2] == self@.sample(x as int, y as int, 2)
                &&& p[3] == self@.sample(x as int, y as int, 3)
            },
    {
        proof {
            use_type_invariant(self);
        }
        if x >= self.width || y >= self.height {
            return None;
        }
        let len: usize = self.pixels.len();
        proof {
            lemma_offset_in_bounds(self@, x as int, y as int, 0);
            lemma_offset_in_bounds(self@, x as int, y as int, 3);
            assert(0 <= y * self.width) by (nonlinear_arith)
                requires
                    0 <= y,
                    0 <= self.width,
            ;
            assert(self@.offset(x as int, y as int, 3) == (y * self.width + x) * 4 + 3);
            assert((y * self.width + x) * 4 + 3 < len);
        }
        let at: usize = (y as usize * self.width as usize + x as usize) * 4;
        Some([self.pixels[at], self.pixels[at + 1], self.pixels[at + 2], self.pixels[at + 3]])
    }
}

impl Clone for Image {
    fn clone(&self) -> (copy: Self)
        ensures
            copy@ == self@,
    {
        proof {
            use_type_invariant(self);
        }
        Image { width: self.width, height: self.height, pixels: self.pixels.clone() }
    }
}

} // verus!
