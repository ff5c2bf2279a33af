//! The off-screen render targets the shader draws into, and the CPU-readable
//! staging buffers that carry finished frames back for capture.

use vstd::prelude::*;

use crate::settings::Resolution;
use super::resource::{CopyResource, PixelShaderResource, RenderTarget, ResourceId};

verus! {

/// The per-index off-screen textures. Each is at once a render target (for
/// drawing), a shader-readable source (for compositing) and a copy source
/// (for capture).
pub struct RenderTargetBuffers {
    count: usize,
    resolution: Resolution,
}

impl RenderTargetBuffers {
    /// Number of textures, one per buffer index.
    pub closed spec fn spec_len(self) -> usize {
        self.count
    }

    /// The resolution every texture has.
    pub closed spec fn spec_size(self) -> Resolution {
        self.resolution
    }

    /// Creates `count` textures of the given resolution.
    pub fn new(resolution: Resolution, count: usize) -> (r: RenderTargetBuffers)
        requires
            resolution.wf(),
        ensures
            r.spec_len() == count,
            r.spec_size() == resolution,
    {
        RenderTargetBuffers { count, resolution }
    }

    /// The resolution every texture has.
    pub fn size(&self) -> (r: Resolution)
        ensures
            r == self.spec_size(),
    {
        self.resolution
    }

    /// Number of textures.
    pub fn len(&self) -> (r: usize)
        ensures
            r == self.spec_len(),
    {
        self.count
    }

    /// The render-target view over one texture.
    pub fn target(&self, index: usize) -> (r: RenderTarget)
        requires
            index < self.spec_len(),
        ensures
            r.resource == ResourceId::OffScreen(index),
            r.width == self.spec_size().width,
            r.height == self.spec_size().height,
    {
        RenderTarget {
            resource: ResourceId::OffScreen(index),
            width: self.resolution.width,
            height: self.resolution.height,
        }
    }

    /// The shader-readable view over one texture.
    pub fn source(&self, index: usize) -> (r: PixelShaderResource)
        requires
            index < self.spec_len(),
        ensures
            r.resource == ResourceId::OffScreen(index),
    {
        PixelShaderResource { resource: ResourceId::OffScreen(index) }
    }

    /// The copy-source view over one texture.
    pub fn copy_resource(&self, index: usize) -> (r: CopyResource)
        requires
            index < self.spec_len(),
        ensures
            r.resource == ResourceId::OffScreen(index),
    {
        CopyResource { resource: ResourceId::OffScreen(index) }
    }
}

/// Rounds a byte size up to the next multiple of 16, as buffer allocations
/// require.
pub fn align16(size: u64) -> (r: u64)
    requires
        size + 15 <= u64::MAX,
    ensures
        r == size + (16 - size % 16) % 16,
        r % 16 == 0,
        size <= r < size + 16,
{
    size + (16 - size % 16) % 16
}

/// A captured frame as a CPU image: holds an `image::RgbaImage`. The buffer
/// type's own declaration (its pixel-trait bound) is beyond what can be
/// declared here, so the image lives in a hidden field and is spoken of
/// through [`img_raw`] and [`img_dims`].
#[verifier::external_body]
pub struct CapturedImage {
    img: image::RgbaImage,
}

/// The raw bytes a captured image holds, row-major, four bytes per pixel.
pub uninterp spec fn img_raw(img: CapturedImage) -> Seq<u8>;

/// The width and height a captured image was made with.
pub uninterp spec fn img_dims(img: CapturedImage) -> (u32, u32);

/// Relies on `image::ImageBuffer::from_raw`: it keeps the given container as
/// the image's row-major RGBA bytes, and returns `Some` exactly when the
/// container holds at least `4 * width * height` bytes.
#[verifier::external_body]
fn rgba_from_raw(width: u32, height: u32, data: Vec<u8>) -> (r: Option<CapturedImage>)
    ensures
        r is Some <==> 4 * (width as int) * (height as int) <= data@.len(),
        r matches Some(img) ==> img_raw(img) == data@ && img_dims(img) == (width, height),
{
    image::RgbaImage::from_raw(width, height, data).map(|img| CapturedImage { img })
}

impl CapturedImage {
    /// Relies on `image::ImageBuffer::width`: the width the image was made
    /// with.
    #[verifier::external_body]
    pub fn width(&self) -> (r: u32)
        ensures
            r == img_dims(*self).0,
    {
        self.img.width()
    }

    /// Relies on `image::ImageBuffer::height`: the height the image was
    /// made with.
    #[verifier::external_body]
    pub fn height(&self) -> (r: u32)
        ensures
            r == img_dims(*self).1,
    {
        self.img.height()
    }

    /// Relies on `image::ImageBuffer::get_pixel` and the public channel
    /// array of `image::Rgba`: the four bytes of the pixel at `(x, y)`,
    /// which sit at `4 * (y * width + x)` in the row-major buffer.
    #[verifier::external_body]
    pub fn pixel(&self, x: u32, y: u32) -> (r: [u8; 4])
        requires
            x < img_dims(*self).0,
            y < img_dims(*self).1,
        ensures
            r@ == img_raw(*self).subrange(
                4 * ((y * img_dims(*self).0 + x) as int),
                4 * ((y * img_dims(*self).0 + x) as int) + 4,
            ),
    {
        self.img.get_pixel(x, y).0
    }

    /// Relies on `image::ImageBuffer::into_raw`: the image's bytes, for the
    /// driver to encode or save.
    #[verifier::external_body]
    pub fn into_bytes(self) -> (r: Vec<u8>)
        ensures
            r@ == img_raw(self),
    {
        self.img.into_raw()
    }
}

/// A CPU-readable staging buffer one finished frame is copied into. The
/// driver maps the GPU buffer and loads the copied bytes here.
pub struct ReadBackBuffer {
    resolution: Resolution,
    data: Vec<u8>,
}

impl ReadBackBuffer {
    /// The resolution the buffer was sized for.
    pub closed spec fn spec_size(self) -> Resolution {
        self.resolution
    }

    /// The bytes currently loaded.
    pub closed spec fn spec_data(self) -> Seq<u8> {
        self.data@
    }

    /// The buffer's allocation is the frame's bytes rounded up to an
    /// allocation boundary, and matches its resolution.
    pub open spec fn wf(self) -> bool {
        &&& self.spec_size().wf()
        &&& self.spec_data().len() == self.spec_size().spec_byte_len() + (
        16 - self.spec_size().spec_byte_len() % 16) % 16
    }

    /// Allocates a zeroed staging buffer for frames of the given resolution.
    pub fn new(resolution: Resolution) -> (r: ReadBackBuffer)
        requires
            resolution.wf(),
            resolution.spec_byte_len() + 15 <= u64::MAX,
            resolution.spec_byte_len() + 15 <= usize::MAX,
        ensures
            r.wf(),
            r.spec_size() == resolution,
            forall|i: int| 0 <= i < r.spec_data().len() ==> r.spec_data()[i] == 0,
    {
        let bytes: u64 = (resolution.width as u64) * (resolution.height as u64) * 4;
        let len = align16(bytes) as usize;
        let mut data: Vec<u8> = Vec::new();
        let mut i: usize = 0;
        while i < len
            invariant
                i <= len,
                data@.len() == i,
                forall|j: int| 0 <= j < i ==> data@[j] == 0,
            decreases len - i,
        {
            data.push(0);
            i = i + 1;
        }
        ReadBackBuffer { resolution, data }
    }

    /// The driver loads the mapped bytes of a finished GPU copy.
    pub fn write_data(&mut self, data: Vec<u8>)
        requires
            data@.len() == old(self).spec_data().len(),
        ensures
            final(self).spec_data() == data@,
            final(self).spec_size() == old(self).spec_size(),
    {
        self.data = data;
    }

    /// Converts the staged bytes into a CPU image of the buffer's
    /// resolution: the frame's bytes, without the allocation padding.
    pub fn to_image(&self) -> (r: CapturedImage)
        requires
            self.wf(),
        ensures
            img_dims(r) == (self.spec_size().width, self.spec_size().height),
            img_raw(r) == self.spec_data().take(self.spec_size().spec_byte_len() as int),
    {
        let n = self.data.len();
        proof {
            assert(self.spec_size().spec_byte_len() <= n as int);
        }
        let bytes64: u64 = (self.resolution.width as u64) * (self.resolution.height as u64) * 4;
        proof {
            assert(bytes64 == self.spec_size().spec_byte_len());
            assert(bytes64 <= n);
        }
        let pixel_len: usize = bytes64 as usize;
        let mut bytes: Vec<u8> = Vec::new();
        let mut i: usize = 0;
        while i < pixel_len
            invariant
                i <= pixel_len,
                pixel_len <= self.data@.len(),
                bytes@ == self.data@.take(i as int),
            decreases pixel_len - i,
        {
            bytes.push(self.data[i]);
            proof {
                assert(self.data@.take(i + 1 as int)
                    =~= self.data@.take(i as int).push(self.data@[i as int]));
            }
            i = i + 1;
        }
        proof {
            assert(bytes@.len() == self.spec_size().spec_byte_len());
            assert(4 * (self.resolution.width as int) * (self.resolution.height as int) == (
            self.resolution.width as int) * (self.resolution.height as int) * 4)
                by (nonlinear_arith);
        }
        let img = rgba_from_raw(self.resolution.width, self.resolution.height, bytes);
        img.unwrap()
    }
}

} // verus!
