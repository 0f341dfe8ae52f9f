//! The bitmap file framing around the pixel buffer: a 54-byte header
//! followed by one little-endian 32-bit word per pixel.

use vstd::prelude::*;

use crate::image::Image;

verus! {

/// Size in bytes of the serialized header: a 14-byte file header followed
/// by a 40-byte info block.
pub const HEADER_SIZE: u32 = 54;

/// Size in bytes of the info block alone.
pub const INFO_SIZE: u32 = 40;

/// The fields of a 32-bit-per-pixel bitmap file header, in file order.
pub struct BitmapHeader {
    pub file_type: u16,
    pub file_size: u32,
    pub reserved1: u16,
    pub reserved2: u16,
    pub bitmap_offset: u32,
    pub size: u32,
    pub width: i32,
    pub height: i32,
    pub planes: u16,
    pub bits_per_pixel: u16,
    pub compression: u32,
    pub size_of_bitmap: u32,
    pub h_resolution: i32,
    pub v_resolution: i32,
    pub colors_used: u32,
    pub colors_important: u32,
}

/// Byte `k` (least significant first) of the little-endian encoding of `v`.
pub open spec fn le_byte(v: u32, k: int) -> u8 {
    if k == 0 {
        (v % 256) as u8
    } else if k == 1 {
        ((v / 0x100) % 256) as u8
    } else if k == 2 {
        ((v / 0x10000) % 256) as u8
    } else {
        ((v / 0x1000000) % 256) as u8
    }
}

/// The two little-endian bytes of a 16-bit word.
pub open spec fn u16_le(v: u16) -> Seq<u8> {
    seq![(v % 256) as u8, (v / 256) as u8]
}

/// The four little-endian bytes of a 32-bit word.
pub open spec fn u32_le(v: u32) -> Seq<u8> {
    seq![le_byte(v, 0), le_byte(v, 1), le_byte(v, 2), le_byte(v, 3)]
}

/// The 32-bit word with the same two's-complement bit pattern as `v`.
pub open spec fn i32_word(v: i32) -> u32 {
    if v >= 0 {
        v as u32
    } else {
        (v + 0x1_0000_0000) as u32
    }
}

/// The four little-endian bytes of a signed 32-bit field.
pub open spec fn i32_le(v: i32) -> Seq<u8> {
    u32_le(i32_word(v))
}

/// The 54 bytes of a serialized header: every field in file order,
/// little-endian.
pub open spec fn header_bytes(h: BitmapHeader) -> Seq<u8> {
    u16_le(h.file_type) + u32_le(h.file_size) + u16_le(h.reserved1) + u16_le(h.reserved2)
        + u32_le(h.bitmap_offset) + u32_le(h.size) + i32_le(h.width) + i32_le(h.height) + u16_le(
        h.planes,
    ) + u16_le(h.bits_per_pixel) + u32_le(h.compression) + u32_le(h.size_of_bitmap) + i32_le(
        h.h_resolution,
    ) + i32_le(h.v_resolution) + u32_le(h.colors_used) + u32_le(h.colors_important)
}

/// The pixel area of the file: each buffer word as four little-endian
/// bytes, in buffer order.
pub open spec fn pixel_bytes(s: Seq<u32>) -> Seq<u8> {
    Seq::new((4 * s.len()) as nat, |i: int| le_byte(s[i / 4], i % 4))
}

/// The header a well-formed image is framed with.
pub open spec fn image_header(img: Image) -> BitmapHeader {
    BitmapHeader {
        file_type: 0x4d42,
        file_size: (HEADER_SIZE + 4 * img.pixels@.len()) as u32,
        reserved1: 0,
        reserved2: 0,
        bitmap_offset: HEADER_SIZE,
        size: INFO_SIZE,
        width: img.width as i32,
        height: img.height as i32,
        planes: 1,
        bits_per_pixel: 32,
        compression: 0,
        size_of_bitmap: (4 * img.pixels@.len()) as u32,
        h_resolution: 0,
        v_resolution: 0,
        colors_used: 0,
        colors_important: 0,
    }
}

fn push_u16_le(out: &mut Vec<u8>, v: u16)
    ensures
        final(out)@ == old(out)@ + u16_le(v),
{
    out.push((v % 256) as u8);
    out.push((v / 256) as u8);
    proof {
        assert(out@ =~= old(out)@ + u16_le(v));
    }
}

fn push_u32_le(out: &mut Vec<u8>, v: u32)
    ensures
        final(out)@ == old(out)@ + u32_le(v),
{
    out.push((v % 256) as u8);
    out.push(((v / 0x100) % 256) as u8);
    out.push(((v / 0x10000) % 256) as u8);
    out.push(((v / 0x1000000) % 256) as u8);
    proof {
        assert(out@ =~= old(out)@ + u32_le(v));
    }
}

fn push_i32_le(out: &mut Vec<u8>, v: i32)
    ensures
        final(out)@ == old(out)@ + i32_le(v),
{
    let w: u32 = if v >= 0 {
        v as u32
    } else {
        ((v as i64) + 0x1_0000_0000i64) as u32
    };
    proof {
        assert(w == i32_word(v));
    }
    push_u32_le(out, w);
}

impl BitmapHeader {
    /// A header for an uncompressed 32-bit-per-pixel bitmap, with the
    /// image-dependent fields still zero.
    pub fn make() -> (h: BitmapHeader)
        ensures
            h.file_type == 0x4d42,
            h.file_size == 0,
            h.reserved1 == 0,
            h.reserved2 == 0,
            h.bitmap_offset == HEADER_SIZE,
            h.size == INFO_SIZE,
            h.width == 0,
            h.height == 0,
            h.planes == 1,
            h.bits_per_pixel == 32,
            h.compression == 0,
            h.size_of_bitmap == 0,
            h.h_resolution == 0,
            h.v_resolution == 0,
            h.colors_used == 0,
            h.colors_important == 0,
    {
        BitmapHeader {
            file_type: 0x4d42,
            file_size: 0,
            reserved1: 0,
            reserved2: 0,
            bitmap_offset: HEADER_SIZE,
            size: INFO_SIZE,
            width: 0,
            height: 0,
            planes: 1,
            bits_per_pixel: 32,
            compression: 0,
            size_of_bitmap: 0,
            h_resolution: 0,
            v_resolution: 0,
            colors_used: 0,
            colors_important: 0,
        }
    }

    /// Serializes the header as its 54 bytes, every field little-endian in
    /// file order.
    #[verifier::rlimit(100)]
    pub fn to_bytes(&self) -> (bytes: Vec<u8>)
        ensures
            bytes@ == header_bytes(*self),
            bytes@.len() == HEADER_SIZE,
    {
        let mut out: Vec<u8> = Vec::new();
        push_u16_le(&mut out, self.file_type);
        push_u32_le(&mut out, self.file_size);
        push_u16_le(&mut out, self.reserved1);
        push_u16_le(&mut out, self.reserved2);
        push_u32_le(&mut out, self.bitmap_offset);
        push_u32_le(&mut out, self.size);
        push_i32_le(&mut out, self.width);
        push_i32_le(&mut out, self.height);
        push_u16_le(&mut out, self.planes);
        push_u16_le(&mut out, self.bits_per_pixel);
        push_u32_le(&mut out, self.compression);
        push_u32_le(&mut out, self.size_of_bitmap);
        push_i32_le(&mut out, self.h_resolution);
        push_i32_le(&mut out, self.v_resolution);
        push_u32_le(&mut out, self.colors_used);
        push_u32_le(&mut out, self.colors_important);
        proof {
            assert(out@ =~= header_bytes(*self));
        }
        out
    }
}

proof fn lemma_pixel_bytes_snoc(s: Seq<u32>, i: int)
    requires
        0 <= i < s.len(),
    ensures
        pixel_bytes(s.subrange(0, i + 1)) == pixel_bytes(s.subrange(0, i)) + u32_le(s[i]),
{
    assert(pixel_bytes(s.subrange(0, i + 1)) =~= pixel_bytes(s.subrange(0, i)) + u32_le(s[i]));
}

impl Image {
    /// Serializes the image as a complete bitmap file: the 54-byte header,
    /// then each pixel as a little-endian 32-bit word in buffer order.
    pub fn bmp_bytes(&self) -> (bytes: Vec<u8>)
        requires
            self.wf(),
            self.width <= i32::MAX,
            self.height <= i32::MAX,
            HEADER_SIZE + 4 * self.pixels@.len() <= u32::MAX,
        ensures
            bytes@ == header_bytes(image_header(*self)) + pixel_bytes(self.pixels@),
            bytes@.len() == HEADER_SIZE + 4 * self.pixels@.len(),
    {
        let npix: u32 = self.width * self.height;
        let pixels_size: u32 = 4 * npix;
        let mut header = BitmapHeader::make();
        header.file_size = HEADER_SIZE + pixels_size;
        header.width = self.width as i32;
        header.height = self.height as i32;
        header.size_of_bitmap = pixels_size;
        proof {
            assert(header == image_header(*self));
        }
        let mut bytes = header.to_bytes();
        let mut i: u32 = 0;
        while i < npix
            invariant
                i <= npix,
                npix == self.pixels@.len(),
                bytes@ == header_bytes(image_header(*self)) + pixel_bytes(
                    self.pixels@.subrange(0, i as int),
                ),
            decreases npix - i,
        {
            push_u32_le(&mut bytes, self.pixels[i as usize]);
            proof {
                lemma_pixel_bytes_snoc(self.pixels@, i as int);
                assert(bytes@ =~= header_bytes(image_header(*self)) + pixel_bytes(
                    self.pixels@.subrange(0, i as int + 1),
                ));
            }
            i = i + 1;
        }
        proof {
            assert(self.pixels@.subrange(0, npix as int) =~= self.pixels@);
            assert(bytes@.len() == HEADER_SIZE + 4 * self.pixels@.len());
        }
        bytes
    }
}

} // verus!
