//! Descriptors of GPU images and buffers, as plain values.
//!
//! Formats, usage bits and tilings are held as the raw Vulkan numbers, so a
//! back end can hand them to the device unchanged.

use vstd::prelude::*;

verus! {

/// Raw Vulkan value of the four-channel 16-bit float format.
pub const FORMAT_R16G16B16A16_SFLOAT: i32 = 97;

/// Raw Vulkan value of optimal tiling.
pub const TILING_OPTIMAL: i32 = 0;

/// No usage bit at all.
pub const IMAGE_USAGE_EMPTY: u32 = 0;

/// Raw Vulkan bit: the image can be sampled.
pub const IMAGE_USAGE_SAMPLED: u32 = 0x4;

/// Raw Vulkan bit: the image can be bound as a storage image.
pub const IMAGE_USAGE_STORAGE: u32 = 0x8;

/// Both bits a temporal image needs: sampled and storage.
pub const IMAGE_USAGE_SAMPLED_STORAGE: u32 = 0xc;

/// Raw Vulkan bit: the buffer can be bound as a storage buffer.
pub const BUFFER_USAGE_STORAGE_BUFFER: u32 = 0x20;

/// Raw Vulkan bit: the depth aspect of an image.
pub const IMAGE_ASPECT_DEPTH: u32 = 0x2;

/// The shape of an image.
#[derive(Clone, Copy, Debug, PartialEq, Eq, Structural)]
pub enum ImageType {
    Tex1d,
    Tex1dArray,
    Tex2d,
    Tex2dArray,
    Tex3d,
    Cube,
    CubeArray,
}

/// Width and height, in texels.
#[derive(Clone, Copy, Debug, PartialEq, Eq, Structural)]
pub struct Extent2 {
    pub width: u32,
    pub height: u32,
}

/// Width, height and depth, in texels.
#[derive(Clone, Copy, Debug, PartialEq, Eq, Structural)]
pub struct Extent3 {
    pub width: u32,
    pub height: u32,
    pub depth: u32,
}

/// What an image is created from.
#[derive(Clone, Copy, Debug, PartialEq, Eq, Structural)]
pub struct ImageDesc {
    pub image_type: ImageType,
    pub usage: u32,
    pub flags: u32,
    pub format: i32,
    pub extent: Extent3,
    pub tiling: i32,
    pub mip_levels: u16,
    pub array_elements: u32,
}

/// What a buffer is created from.
#[derive(Clone, Copy, Debug, PartialEq, Eq, Structural)]
pub struct BufferDesc {
    pub size: usize,
    pub usage: u32,
}

/// `n` divided by `d`, rounded up, and at least 1.
pub open spec fn div_up_at_least_one(n: int, d: int) -> int {
    let q = (n + d - 1) / d;
    if q < 1 {
        1
    } else {
        q
    }
}

/// Half of `n`, rounded up, and at least 1.
pub open spec fn half_of(n: int) -> int {
    div_up_at_least_one(n, 2)
}

/// Divides one dimension, rounding up, never below one texel.
pub fn div_up_dim(n: u32, d: u32) -> (r: u32)
    requires
        d > 0,
    ensures
        r == div_up_at_least_one(n as int, d as int),
        1 <= r,
        r <= n || r == 1,
{
    let q: u32 = n / d;
    let m: u32 = n % d;
    assert(n == d * q + m) by (nonlinear_arith)
        requires
            q == n / d,
            m == n % d,
            d > 0,
    ;
    let up: u32 = if m == 0 {
        assert((n + d - 1) / (d as int) == q) by (nonlinear_arith)
            requires
                n == d * q,
                d > 0,
        ;
        q
    } else {
        assert((n + d - 1) / (d as int) == q + 1) by (nonlinear_arith)
            requires
                n == d * q + m,
                0 < m < d,
        ;
        assert(q < n) by (nonlinear_arith)
            requires
                n == d * q + m,
                0 < m,
                d > 0,
                q >= 0,
        ;
        q + 1
    };
    assert(q <= n) by (nonlinear_arith)
        requires
            n == d * q + m,
            m >= 0,
            d > 0,
            q >= 0,
    ;
    if up < 1 {
        1
    } else {
        up
    }
}

impl Extent3 {
    /// The first two dimensions.
    pub open spec fn spec_extent_2d(self) -> Extent2 {
        Extent2 { width: self.width, height: self.height }
    }

    /// The first two dimensions.
    #[verifier::when_used_as_spec(spec_extent_2d)]
    pub fn extent_2d(self) -> (r: Extent2)
        ensures
            r == self.spec_extent_2d(),
    {
        Extent2 { width: self.width, height: self.height }
    }
}

impl ImageDesc {
    /// A two-dimensional image of one mip level and one layer, with no usage
    /// bit set yet.
    pub open spec fn spec_new_2d(format: i32, extent: Extent2) -> ImageDesc {
        ImageDesc {
            image_type: ImageType::Tex2d,
            usage: IMAGE_USAGE_EMPTY,
            flags: 0,
            format,
            extent: Extent3 { width: extent.width, height: extent.height, depth: 1 },
            tiling: TILING_OPTIMAL,
            mip_levels: 1,
            array_elements: 1,
        }
    }

    /// A two-dimensional image of one mip level and one layer, with no usage
    /// bit set yet.
    #[verifier::when_used_as_spec(spec_new_2d)]
    pub fn new_2d(format: i32, extent: Extent2) -> (r: ImageDesc)
        ensures
            r == ImageDesc::spec_new_2d(format, extent),
    {
        ImageDesc {
            image_type: ImageType::Tex2d,
            usage: IMAGE_USAGE_EMPTY,
            flags: 0,
            format,
            extent: Extent3 { width: extent.width, height: extent.height, depth: 1 },
            tiling: TILING_OPTIMAL,
            mip_levels: 1,
            array_elements: 1,
        }
    }

    /// The same image with its usage bits replaced.
    pub open spec fn spec_usage(self, usage: u32) -> ImageDesc {
        ImageDesc { usage, ..self }
    }

    /// The same image with its usage bits replaced.
    #[verifier::when_used_as_spec(spec_usage)]
    pub fn usage(self, usage: u32) -> (r: ImageDesc)
        ensures
            r == self.spec_usage(usage),
    {
        let mut r = self;
        r.usage = usage;
        r
    }

    /// The same image in another format.
    pub open spec fn spec_format(self, format: i32) -> ImageDesc {
        ImageDesc { format, ..self }
    }

    /// The same image in another format.
    #[verifier::when_used_as_spec(spec_format)]
    pub fn format(self, format: i32) -> (r: ImageDesc)
        ensures
            r == self.spec_format(format),
    {
        let mut r = self;
        r.format = format;
        r
    }

    /// The same image with every dimension divided by the matching
    /// dimension of `div`, rounded up, never below one texel.
    pub open spec fn spec_div_up_extent(self, div: Extent3) -> ImageDesc {
        ImageDesc {
            extent: Extent3 {
                width: div_up_at_least_one(self.extent.width as int, div.width as int) as u32,
                height: div_up_at_least_one(self.extent.height as int, div.height as int) as u32,
                depth: div_up_at_least_one(self.extent.depth as int, div.depth as int) as u32,
            },
            ..self
        }
    }

    /// The same image with every dimension divided by the matching
    /// dimension of `div`, rounded up, never below one texel.
    pub fn div_up_extent(self, div: Extent3) -> (r: ImageDesc)
        requires
            div.width > 0,
            div.height > 0,
            div.depth > 0,
        ensures
            r == self.spec_div_up_extent(div),
    {
        let mut r = self;
        r.extent = Extent3 {
            width: div_up_dim(self.extent.width, div.width),
            height: div_up_dim(self.extent.height, div.height),
            depth: div_up_dim(self.extent.depth, div.depth),
        };
        r
    }

    /// The half-resolution variant: every dimension halved, rounded up,
    /// never below one texel.
    pub open spec fn spec_half_res(self) -> ImageDesc {
        self.spec_div_up_extent(Extent3 { width: 2, height: 2, depth: 2 })
    }

    /// The half-resolution variant: every dimension halved, rounded up,
    /// never below one texel.
    #[verifier::when_used_as_spec(spec_half_res)]
    pub fn half_res(self) -> (r: ImageDesc)
        ensures
            r == self.spec_half_res(),
            r.extent.width == half_of(self.extent.width as int),
            r.extent.height == half_of(self.extent.height as int),
            r.extent.depth == half_of(self.extent.depth as int),
    {
        self.div_up_extent(Extent3 { width: 2, height: 2, depth: 2 })
    }

    /// Width and height of the image.
    pub open spec fn spec_extent_2d(self) -> Extent2 {
        self.extent.spec_extent_2d()
    }

    /// Width and height of the image.
    #[verifier::when_used_as_spec(spec_extent_2d)]
    pub fn extent_2d(self) -> (r: Extent2)
        ensures
            r == self.spec_extent_2d(),
    {
        self.extent.extent_2d()
    }
}

impl BufferDesc {
    /// A buffer of `size` bytes with the given usage bits.
    pub open spec fn spec_new(size: usize, usage: u32) -> BufferDesc {
        BufferDesc { size, usage }
    }

    /// A buffer of `size` bytes with the given usage bits.
    #[verifier::when_used_as_spec(spec_new)]
    pub fn new(size: usize, usage: u32) -> (r: BufferDesc)
        ensures
            r == BufferDesc::spec_new(size, usage),
    {
        BufferDesc { size, usage }
    }
}

/// The usage bits of a temporal image are exactly the sampled and the
/// storage bit.
pub proof fn sampled_storage_bits()
    ensures
        IMAGE_USAGE_SAMPLED_STORAGE == IMAGE_USAGE_SAMPLED | IMAGE_USAGE_STORAGE,
        IMAGE_USAGE_SAMPLED_STORAGE & IMAGE_USAGE_SAMPLED == IMAGE_USAGE_SAMPLED,
        IMAGE_USAGE_SAMPLED_STORAGE & IMAGE_USAGE_STORAGE == IMAGE_USAGE_STORAGE,
{
    assert(0xcu32 == 0x4u32 | 0x8u32) by (bit_vector);
    assert(0xcu32 & 0x4u32 == 0x4u32) by (bit_vector);
    assert(0xcu32 & 0x8u32 == 0x8u32) by (bit_vector);
}

} // verus!
