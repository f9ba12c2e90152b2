//! Staging of an RGBA image for upload to the device.
//!
//! A device copies an image out of a buffer whose rows start a fixed pitch
//! apart, the pitch being a multiple of an alignment that the device reports.
//! This module lays such a buffer out, fills it from tightly packed pixels and
//! picks the memory type that the image is to live in.

use vstd::prelude::*;
use vstd::arithmetic::div_mod::{
    lemma_fundamental_div_mod, lemma_fundamental_div_mod_converse, lemma_mod_bound,
};
use vstd::arithmetic::mul::{
    lemma_mul_inequality, lemma_mul_is_commutative, lemma_mul_is_distributive_add,
    lemma_mul_nonnegative,
};
use crate::mesh::{checked_iceil, lemma_iceil_is_multiple, spec_iceil};

verus! {

/// Bytes of one RGBA pixel with eight bits to the channel.
pub const PIXEL_SIZE: usize = 4;

/// Property flag of memory that lives on the device.
pub const DEVICE_LOCAL: u16 = 0x1;

/// Property flag of memory that the host can map and write.
pub const CPU_VISIBLE: u16 = 0x2;

/// Most memory types that a mask of supported types can name. A memory type at
/// a position beyond has no bit in the mask and is never supported.
pub const MAX_MEMORY_TYPES: usize = 64;

/// One memory type of an adapter.
#[derive(Clone, Copy, Debug, PartialEq, Eq, Structural)]
pub struct MemoryType {
    /// Property flags of the memory.
    pub properties: u16,
    /// Index of the heap that the memory comes from.
    pub heap_index: usize,
}

/// Why an image could not be staged or placed.
#[derive(Clone, Copy, Debug, PartialEq, Eq, Structural)]
pub enum ImageError {
    /// The device reported a row pitch alignment of zero.
    ZeroAlignment,
    /// The staging buffer would be larger than can be addressed.
    TooLarge,
    /// The pixel data does not hold exactly width times height pixels.
    PixelCountMismatch,
    /// No device-local memory type supports the image.
    NoMemoryType,
}

/// An image laid out for the copy to the device.
#[derive(Clone, Debug)]
pub struct LoadedImage {
    pub width: u32,
    pub height: u32,
    /// Bytes of one row of pixels.
    pub row_size: usize,
    /// Distance between the starts of two rows in the staging buffer.
    pub row_pitch: usize,
    /// The staging buffer's contents: `height` rows, each padded with zeros to
    /// `row_pitch` bytes.
    pub staging: Vec<u8>,
}

/// The byte at `position` of a staging buffer with rows `row_pitch` apart: the
/// pixel data's byte of the same row and column, or zero in the padding.
pub open spec fn staged_byte(pixels: Seq<u8>, row_size: int, row_pitch: int, position: int) -> u8 {
    let row = position / row_pitch;
    let column = position % row_pitch;
    if column < row_size {
        pixels[row * row_size + column]
    } else {
        0
    }
}

/// The staging buffer for `height` rows of `row_size` bytes, `row_pitch` apart.
pub open spec fn staged(pixels: Seq<u8>, row_size: int, row_pitch: int, height: int) -> Seq<u8> {
    Seq::new((row_pitch * height) as nat, |position: int| staged_byte(pixels, row_size, row_pitch, position))
}

/// Bytes of one row of `width` pixels.
pub open spec fn spec_row_size(width: u32) -> int {
    PIXEL_SIZE * width
}

/// Distance between rows: the row size, rounded up to the alignment.
pub open spec fn spec_row_pitch(width: u32, pitch_alignment: u64) -> int {
    spec_iceil(spec_row_size(width), pitch_alignment as int)
}

/// What staging an image comes to, but for the buffer's contents.
pub open spec fn staging_error(
    width: u32,
    height: u32,
    pixel_bytes: int,
    pitch_alignment: u64,
) -> Option<ImageError> {
    if pitch_alignment == 0 {
        Some(ImageError::ZeroAlignment)
    } else if spec_row_pitch(width, pitch_alignment) * height > usize::MAX || spec_row_pitch(
        width,
        pitch_alignment,
    ) > usize::MAX {
        Some(ImageError::TooLarge)
    } else if pixel_bytes != spec_row_size(width) * height {
        Some(ImageError::PixelCountMismatch)
    } else {
        None
    }
}

/// `memory_type` is supported according to `type_mask`, in which bit `id`
/// stands for the memory type at position `id`, and has every property of
/// `required`.
pub open spec fn memory_type_usable(
    type_mask: u64,
    required: u16,
    id: int,
    memory_type: MemoryType,
) -> bool {
    &&& 0 <= id < MAX_MEMORY_TYPES
    &&& type_mask & (1u64 << (id as u64)) != 0
    &&& memory_type.properties & required == required
}

/// Position of the first memory type that `type_mask` names and that has every
/// property of `required`.
pub fn pick_memory_type(type_mask: u64, required: u16, memory_types: &Vec<MemoryType>) -> (r:
    Option<usize>)
    ensures
        match r {
            Some(id) => {
                &&& id < memory_types@.len()
                &&& memory_type_usable(type_mask, required, id as int, memory_types@[id as int])
                &&& forall|j: int|
                    0 <= j < id ==> !memory_type_usable(
                        type_mask,
                        required,
                        j,
                        #[trigger] memory_types@[j],
                    )
            },
            None => forall|j: int|
                0 <= j < memory_types@.len() ==> !memory_type_usable(
                    type_mask,
                    required,
                    j,
                    #[trigger] memory_types@[j],
                ),
        },
{
    let mut id: usize = 0;
    while id < memory_types.len() && id < MAX_MEMORY_TYPES
        invariant
            id <= memory_types.len(),
            id <= MAX_MEMORY_TYPES,
            forall|j: int|
                0 <= j < id ==> !memory_type_usable(
                    type_mask,
                    required,
                    j,
                    #[trigger] memory_types@[j],
                ),
        decreases memory_types.len() - id,
    {
        let bit: u64 = 1u64 << (id as u64);
        if type_mask & bit != 0 && memory_types[id].properties & required == required {
            return Some(id);
        }
        id += 1;
    }
    None
}

/// Every row of the image stands in the staging buffer unchanged, at its
/// pitch, and what lies between the rows is zero.
pub proof fn lemma_rows_staged(
    pixels: Seq<u8>,
    row_size: int,
    row_pitch: int,
    height: int,
    row: int,
    column: int,
)
    requires
        0 <= row_size <= row_pitch,
        0 <= row < height,
        0 <= column < row_pitch,
    ensures
        0 <= row * row_pitch + column < staged(pixels, row_size, row_pitch, height).len(),
        column < row_size ==> staged(pixels, row_size, row_pitch, height)[row * row_pitch + column]
            == pixels[row * row_size + column],
        column >= row_size ==> staged(pixels, row_size, row_pitch, height)[row * row_pitch + column]
            == 0,
{
    let position = row * row_pitch + column;
    lemma_mul_nonnegative(row, row_pitch);
    lemma_mul_inequality(row + 1, height, row_pitch);
    lemma_mul_is_distributive_add(row_pitch, row, 1);
    lemma_mul_is_commutative(row_pitch, row);
    lemma_mul_is_commutative(row_pitch, row + 1);
    lemma_mul_is_commutative(row_pitch, height);
    lemma_fundamental_div_mod_converse(position, row_pitch, row, column);
}

impl LoadedImage {
    /// Lays out the staging buffer for an image of `width` by `height` pixels
    /// and fills it from `pixels`, which holds the rows tightly packed. The row
    /// pitch is the least multiple of `pitch_alignment` that holds a row.
    pub fn new(width: u32, height: u32, pixels: &Vec<u8>, pitch_alignment: u64) -> (r: Result<
        Self,
        ImageError,
    >)
        ensures
            match staging_error(width, height, pixels@.len() as int, pitch_alignment) {
                Some(e) => r == Err::<Self, ImageError>(e),
                None => r matches Ok(image) && {
                    &&& image.width == width
                    &&& image.height == height
                    &&& image.row_size == spec_row_size(width)
                    &&& image.row_pitch == spec_row_pitch(width, pitch_alignment)
                    &&& image.staging@ == staged(
                        pixels@,
                        image.row_size as int,
                        image.row_pitch as int,
                        height as int,
                    )
                },
            },
    {
        if pitch_alignment == 0 {
            return Err(ImageError::ZeroAlignment);
        }
        let row_bytes: u64 = (PIXEL_SIZE as u64) * (width as u64);
        proof {
            lemma_iceil_is_multiple(row_bytes as int, pitch_alignment as int);
            lemma_mul_nonnegative(spec_row_pitch(width, pitch_alignment), height as int);
            lemma_mul_inequality(
                spec_row_size(width),
                spec_row_pitch(width, pitch_alignment),
                height as int,
            );
        }
        let pitch: u64 = match checked_iceil(row_bytes, pitch_alignment) {
            Some(pitch) => pitch,
            None => {
                return Err(ImageError::TooLarge);
            },
        };
        let required: u64 = match pitch.checked_mul(height as u64) {
            Some(required) => required,
            None => {
                return Err(ImageError::TooLarge);
            },
        };
        if required > usize::MAX as u64 || pitch > usize::MAX as u64 {
            return Err(ImageError::TooLarge);
        }
        let row_size: usize = row_bytes as usize;
        let row_pitch: usize = pitch as usize;
        let required_bytes: usize = required as usize;
        let pixel_bytes: usize = row_size * (height as usize);
        if pixels.len() != pixel_bytes {
            return Err(ImageError::PixelCountMismatch);
        }
        let mut staging: Vec<u8> = Vec::new();
        let mut position: usize = 0;
        while position < required_bytes
            invariant
                position <= required_bytes,
                required_bytes == row_pitch * height,
                row_size <= row_pitch,
                pixels@.len() == row_size * height,
                row_size * height <= usize::MAX,
                staging@.len() == position,
                forall|i: int|
                    0 <= i < position ==> staging@[i] == staged_byte(
                        pixels@,
                        row_size as int,
                        row_pitch as int,
                        i,
                    ),
            decreases required_bytes - position,
        {
            assert(row_pitch > 0) by (nonlinear_arith)
                requires
                    position < row_pitch * height,
                    position >= 0,
                    height >= 0,
            ;
            let row = position / row_pitch;
            let column = position % row_pitch;
            proof {
                lemma_fundamental_div_mod(position as int, row_pitch as int);
                lemma_mod_bound(position as int, row_pitch as int);
                assert(row < height) by (nonlinear_arith)
                    requires
                        position < row_pitch * height,
                        position == row_pitch * row + column,
                        column >= 0,
                        row_pitch > 0,
                ;
                if column < row_size {
                    assert(0 <= row * row_size && row * row_size + column < row_size * height)
                        by (nonlinear_arith)
                        requires
                            0 <= row < height,
                            0 <= column < row_size,
                    ;
                }
            }
            let byte: u8 = if column < row_size {
                pixels[row * row_size + column]
            } else {
                0
            };
            staging.push(byte);
            position += 1;
        }
        proof {
            assert(staging@ =~= staged(pixels@, row_size as int, row_pitch as int, height as int));
        }
        Ok(LoadedImage { width, height, row_size, row_pitch, staging })
    }

    /// Width of a staged row in pixels, padding included.
    pub fn buffer_width(&self) -> (r: usize)
        ensures
            r == self.row_pitch as int / PIXEL_SIZE as int,
    {
        self.row_pitch / PIXEL_SIZE
    }

    /// Position of the memory type to put the image in: the first that
    /// `type_mask` names and that lives on the device.
    pub fn memory_type(type_mask: u64, memory_types: &Vec<MemoryType>) -> (r: Result<
        usize,
        ImageError,
    >)
        ensures
            match r {
                Ok(id) => {
                    &&& id < memory_types@.len()
                    &&& memory_type_usable(
                        type_mask,
                        DEVICE_LOCAL,
                        id as int,
                        memory_types@[id as int],
                    )
                    &&& forall|j: int|
                        0 <= j < id ==> !memory_type_usable(
                            type_mask,
                            DEVICE_LOCAL,
                            j,
                            #[trigger] memory_types@[j],
                        )
                },
                Err(e) => {
                    &&& e == ImageError::NoMemoryType
                    &&& forall|j: int|
                        0 <= j < memory_types@.len() ==> !memory_type_usable(
                            type_mask,
                            DEVICE_LOCAL,
                            j,
                            #[trigger] memory_types@[j],
                        )
                },
            },
    {
        match pick_memory_type(type_mask, DEVICE_LOCAL, memory_types) {
            Some(id) => Ok(id),
            None => Err(ImageError::NoMemoryType),
        }
    }
}

} // verus!
