use vstd::prelude::*;

use crate::primitive::FornaxPrimitive;

verus! {

/// The colour a photosite of a Bayer sensor records.
///
/// `G` is the green site that shares its row with red sites, `G2` the one
/// that shares its row with blue sites.
#[derive(Debug, Clone, Copy, PartialEq, Eq, Structural, Hash)]
pub enum BayerChannel {
    R,
    G,
    B,
    G2,
}

/// The layout of the 2x2 tile that repeats over a Bayer sensor, read row by
/// row from its top-left corner.
#[derive(Debug, Clone, Copy, PartialEq, Eq, Structural, Hash)]
pub enum BayerPattern {
    RGGB,
    BGGR,
    GRBG,
    GBRG,
}

impl BayerPattern {
    /// The channels of the 2x2 tile: slot `(x & 1) + 2 * (y & 1)` holds the
    /// channel of the photosite at column `x`, row `y`.
    pub open spec fn mask(self) -> Seq<BayerChannel> {
        match self {
            BayerPattern::RGGB => seq![BayerChannel::R, BayerChannel::G, BayerChannel::G2, BayerChannel::B],
            BayerPattern::BGGR => seq![BayerChannel::B, BayerChannel::G2, BayerChannel::G, BayerChannel::R],
            BayerPattern::GRBG => seq![BayerChannel::G, BayerChannel::R, BayerChannel::B, BayerChannel::G2],
            BayerPattern::GBRG => seq![BayerChannel::G2, BayerChannel::B, BayerChannel::R, BayerChannel::G],
        }
    }

    /// The channel of the photosite at column `x`, row `y`.
    pub open spec fn channel_at(self, x: int, y: int) -> BayerChannel {
        self.mask()[x % 2 + 2 * (y % 2)]
    }

    /// The 2x2 tile of this pattern.
    pub fn as_mask(&self) -> (r: [BayerChannel; 4])
        ensures
            r@ == self.mask(),
    {
        let r = match self {
            BayerPattern::RGGB => [BayerChannel::R, BayerChannel::G, BayerChannel::G2, BayerChannel::B],
            BayerPattern::BGGR => [BayerChannel::B, BayerChannel::G2, BayerChannel::G, BayerChannel::R],
            BayerPattern::GRBG => [BayerChannel::G, BayerChannel::R, BayerChannel::B, BayerChannel::G2],
            BayerPattern::GBRG => [BayerChannel::G2, BayerChannel::B, BayerChannel::R, BayerChannel::G],
        };
        assert(r@ =~= self.mask());
        r
    }
}

/// The numbers that a sequence of channel values stands for.
pub open spec fn values<T: FornaxPrimitive>(s: Seq<T>) -> Seq<int> {
    s.map_values(|t: T| t.value() as int)
}

/// `len` zero channel values.
pub(crate) fn zeroed<T: FornaxPrimitive>(len: usize) -> (v: Vec<T>)
    ensures
        v@.len() == len,
        forall|j: int| 0 <= j < len ==> (#[trigger] v@[j]).value() == 0,
{
    let mut data: Vec<T> = Vec::new();
    let mut i: usize = 0;
    while i < len
        invariant
            i <= len,
            data@.len() == i,
            forall|j: int| 0 <= j < i ==> (#[trigger] data@[j]).value() == 0,
        decreases len - i,
    {
        data.push(T::zero());
        i = i + 1;
    }
    data
}

/// A single-channel image of `width * height` samples stored row by row;
/// the buffer may be longer than that, as an image buffer built from a
/// vector may be.
pub struct Mosaic<T> {
    width: u32,
    height: u32,
    data: Vec<T>,
}

impl<T> Mosaic<T> {
    #[verifier::type_invariant]
    spec fn fits(self) -> bool {
        self.width * self.height <= self.data.len()
    }
}

impl<T: FornaxPrimitive> Mosaic<T> {
    pub closed spec fn spec_width(&self) -> nat {
        self.width as nat
    }

    pub closed spec fn spec_height(&self) -> nat {
        self.height as nat
    }

    /// The samples, row by row.
    pub closed spec fn samples(&self) -> Seq<T> {
        self.data@
    }

    /// The mosaic of the given size over `buf`, or `None` where `buf` holds
    /// fewer than `width * height` samples.
    pub fn from_vec(width: u32, height: u32, buf: Vec<T>) -> (r: Option<Self>)
        ensures
            r is Some <==> width * height <= buf@.len(),
            r matches Some(m) ==> m.spec_width() == width && m.spec_height() == height
                && m.samples() == buf@,
    {
        assert(width as u64 * height as u64 <= u64::MAX) by (nonlinear_arith)
            requires
                width <= u32::MAX,
                height <= u32::MAX,
        ;
        let needed: u64 = width as u64 * height as u64;
        if needed <= buf.len() as u64 {
            Some(Mosaic { width, height, data: buf })
        } else {
            None
        }
    }

    /// Width and height.
    pub fn dimensions(&self) -> (r: (u32, u32))
        ensures
            r.0 == self.spec_width(),
            r.1 == self.spec_height(),
    {
        (self.width, self.height)
    }

    /// The whole buffer; it holds at least `width * height` samples.
    pub fn as_raw(&self) -> (r: &Vec<T>)
        ensures
            r@ == self.samples(),
            self.spec_width() * self.spec_height() <= r@.len(),
    {
        proof {
            use_type_invariant(self);
        }
        &self.data
    }
}

/// A mosaic together with the pattern of its sensor.
pub struct BayerImage<T> {
    mosaic: Mosaic<T>,
    pattern: BayerPattern,
}

impl<T: FornaxPrimitive> BayerImage<T> {
    pub closed spec fn spec_mosaic(&self) -> Mosaic<T> {
        self.mosaic
    }

    pub closed spec fn spec_pattern(&self) -> BayerPattern {
        self.pattern
    }

    pub fn new(mosaic: Mosaic<T>, pattern: BayerPattern) -> (r: Self)
        ensures
            r.spec_mosaic() == mosaic,
            r.spec_pattern() == pattern,
    {
        BayerImage { mosaic, pattern }
    }

    pub fn mosaic(&self) -> (r: &Mosaic<T>)
        ensures
            *r == self.spec_mosaic(),
    {
        &self.mosaic
    }

    pub fn pattern(&self) -> (r: BayerPattern)
        ensures
            r == self.spec_pattern(),
    {
        self.pattern
    }
}

/// A three-channel image stored row by row, three values per pixel.
pub struct RgbImage<T> {
    width: u32,
    height: u32,
    data: Vec<T>,
}

impl<T> RgbImage<T> {
    #[verifier::type_invariant]
    spec fn sized(self) -> bool {
        self.data.len() == 3 * (self.width * self.height)
    }
}

impl<T: FornaxPrimitive> RgbImage<T> {
    pub closed spec fn spec_width(&self) -> nat {
        self.width as nat
    }

    pub closed spec fn spec_height(&self) -> nat {
        self.height as nat
    }

    /// The channel values, row by row, three per pixel.
    pub closed spec fn samples(&self) -> Seq<T> {
        self.data@
    }

    /// The all-zero image of the given size.
    pub fn new(width: u32, height: u32) -> (r: Self)
        requires
            3 * (width * height) <= usize::MAX,
        ensures
            r.spec_width() == width,
            r.spec_height() == height,
            forall|i: int| 0 <= i < r.samples().len() ==> (#[trigger] r.samples()[i]).value() == 0,
            r.samples().len() == 3 * (width * height),
    {
        proof {
            vstd::arithmetic::mul::lemma_mul_nonnegative(width as int, height as int);
        }
        let len: usize = 3 * (width as usize * height as usize);
        let data = zeroed(len);
        RgbImage { width, height, data }
    }

    /// Builds the image from a buffer of exactly `3 * width * height` values.
    pub(crate) fn from_parts(width: u32, height: u32, data: Vec<T>) -> (r: Self)
        requires
            data@.len() == 3 * (width * height),
        ensures
            r.spec_width() == width,
            r.spec_height() == height,
            r.samples() == data@,
    {
        RgbImage { width, height, data }
    }

    /// Width and height.
    pub fn dimensions(&self) -> (r: (u32, u32))
        ensures
            r.0 == self.spec_width(),
            r.1 == self.spec_height(),
    {
        (self.width, self.height)
    }

    /// The whole buffer; it holds `3 * width * height` values.
    pub fn as_raw(&self) -> (r: &Vec<T>)
        ensures
            r@ == self.samples(),
            r@.len() == 3 * (self.spec_width() * self.spec_height()),
    {
        proof {
            use_type_invariant(self);
        }
        &self.data
    }

    /// The whole buffer, by value.
    pub fn into_raw(self) -> (r: Vec<T>)
        ensures
            r@ == self.samples(),
            r@.len() == 3 * (self.spec_width() * self.spec_height()),
    {
        proof {
            use_type_invariant(&self);
        }
        self.data
    }
}

} // verus!
