//! Buffer layouts as the compositor offers them.

use vstd::prelude::*;

verus! {

/// Where the memory behind a buffer lives.
#[derive(Clone, Copy, Debug, PartialEq, Eq, Structural)]
pub enum BufferKind {
    /// Memory mapped by both the client and the compositor.
    SharedMemory,
    /// Memory owned by the GPU, which the client cannot read directly.
    ForeignMemory,
}

/// Pixel layout of a buffer.
#[derive(Clone, Copy, Debug, PartialEq, Eq, Structural)]
pub enum PixelFormat {
    /// Bytes `[R, G, B, A]` per pixel.
    Rgba8888,
    /// Bytes `[B, G, R, X]` per pixel; the fourth byte carries no alpha.
    Xrgb8888,
    /// Any other layout, by its protocol code.
    Other(u32),
}

impl PixelFormat {
    /// Size of one pixel in bytes, where the layout is known.
    pub open spec fn spec_bytes_per_pixel(self) -> Option<u32> {
        match self {
            PixelFormat::Rgba8888 => Some(4u32),
            PixelFormat::Xrgb8888 => Some(4u32),
            PixelFormat::Other(_) => None,
        }
    }

    /// Size of one pixel in bytes, where the layout is known.
    #[verifier::when_used_as_spec(spec_bytes_per_pixel)]
    pub fn bytes_per_pixel(self) -> (r: Option<u32>)
        ensures
            r == self.spec_bytes_per_pixel(),
    {
        match self {
            PixelFormat::Rgba8888 => Some(4),
            PixelFormat::Xrgb8888 => Some(4),
            PixelFormat::Other(_) => None,
        }
    }
}

/// One candidate buffer layout.
#[derive(Clone, Copy, Debug, PartialEq, Eq, Structural)]
pub struct BufferDescriptor {
    pub kind: BufferKind,
    pub format: PixelFormat,
    /// Pixels per row.
    pub width: u32,
    /// Number of rows.
    pub height: u32,
    /// Bytes from the start of one row to the start of the next.
    pub stride: u32,
}

impl BufferDescriptor {
    /// A descriptor is well formed when it has at least one pixel and, for a
    /// known pixel size, each row fits within the stride.
    pub open spec fn wf(self) -> bool {
        &&& self.width > 0
        &&& self.height > 0
        &&& match self.format.spec_bytes_per_pixel() {
            Some(b) => self.stride >= self.width * b,
            None => true,
        }
    }

    /// Whether the descriptor is well formed.
    pub fn is_well_formed(&self) -> (ok: bool)
        ensures
            ok == self.wf(),
    {
        if self.width == 0 || self.height == 0 {
            return false;
        }
        match self.format.bytes_per_pixel() {
            Some(b) => {
                let row: u64 = self.width as u64 * b as u64;
                self.stride as u64 >= row
            },
            None => true,
        }
    }

    /// Builds a descriptor, or nothing if the values do not make a well-formed one.
    pub fn new(kind: BufferKind, format: PixelFormat, width: u32, height: u32, stride: u32) -> (r:
        Option<Self>)
        ensures
            r == (if (BufferDescriptor { kind, format, width, height, stride }).wf() {
                Some(BufferDescriptor { kind, format, width, height, stride })
            } else {
                None
            }),
    {
        let d = BufferDescriptor { kind, format, width, height, stride };
        if d.is_well_formed() {
            Some(d)
        } else {
            None
        }
    }

    /// Width, height and stride as the signed numbers in which a
    /// shared-memory pool takes them, if each of them fits.
    pub open spec fn spec_pool_dimensions(self) -> Option<(i32, i32, i32)> {
        if self.width <= i32::MAX && self.height <= i32::MAX && self.stride <= i32::MAX {
            Some((self.width as i32, self.height as i32, self.stride as i32))
        } else {
            None
        }
    }

    /// Width, height and stride as the signed numbers in which a
    /// shared-memory pool takes them, if each of them fits.
    pub fn pool_dimensions(&self) -> (r: Option<(i32, i32, i32)>)
        ensures
            r == self.spec_pool_dimensions(),
            r matches Some(d) ==> d.0 == self.width && d.1 == self.height && d.2 == self.stride,
    {
        if self.width <= 0x7fff_ffff && self.height <= 0x7fff_ffff && self.stride <= 0x7fff_ffff {
            Some((self.width as i32, self.height as i32, self.stride as i32))
        } else {
            None
        }
    }

    /// Size in bytes of the memory region behind a buffer of this layout.
    pub open spec fn spec_byte_len(self) -> nat {
        (self.stride * self.height) as nat
    }

    /// Size in bytes of the memory region behind a buffer of this layout.
    pub fn byte_len(&self) -> (n: u64)
        ensures
            n == self.spec_byte_len(),
    {
        assert(self.stride * self.height <= 0xffff_ffff * 0xffff_ffff) by (nonlinear_arith)
            requires
                self.stride <= 0xffff_ffff,
                self.height <= 0xffff_ffff,
        ;
        self.stride as u64 * self.height as u64
    }
}

} // verus!
