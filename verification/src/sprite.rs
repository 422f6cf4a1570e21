//! The pixel size of a character sprite, read from the image's header.
//!
//! A sprite whose size cannot be read counts as zero by zero.
//!
//! The header reader does arithmetic that overflows on two kinds of input,
//! which are left out: a HEIF image-size box (tag `ispe`) whose area does not
//! fit a 32-bit `usize`, and more than 2^31 nested JPEG start markers, which
//! take at least 2^33 bytes.
use imagesize::ImageError;
use vstd::prelude::*;

verus! {

/// The error that `imagesize` reports.
#[verifier::external_type_specification]
#[verifier::external_body]
pub struct ExImageError(ImageError);

/// What `imagesize::blob_size` finds in the bytes `data`: the width and height
/// of the image they start with, or nothing where the format is not one it
/// knows or the data is cut short.
pub uninterp spec fn blob_dimensions(data: Seq<u8>) -> Option<(usize, usize)>;

/// Whether the four bytes of `data` at `i` spell the HEIF tag `ispe`.
pub open spec fn ispe_at(data: Seq<u8>, i: int) -> bool {
    data[i] == 0x69u8 && data[i + 1] == 0x73u8 && data[i + 2] == 0x70u8 && data[i + 3]
        == 0x65u8
}

/// Whether `data` holds the HEIF tag `ispe` anywhere.
pub open spec fn has_ispe_tag(data: Seq<u8>) -> bool {
    exists|i: int| 0 <= i && i + 4 <= data.len() && #[trigger] ispe_at(data, i)
}

/// Whether the header reader can read `data` without overflowing: fewer than
/// 2^33 bytes, and, unless `usize` is 64 bits wide, no `ispe` tag (whose
/// width times height is computed in `usize`).
pub open spec fn probe_admits(data: Seq<u8>) -> bool {
    &&& data.len() < 0x2_0000_0000
    &&& (usize::BITS == 64 || !has_ispe_tag(data))
}

/// Calls `imagesize::blob_size`, which reads the header of the image in
/// `data` and returns its width and height. The contract names the result as
/// a function of the bytes alone and states the one fact that its
/// documentation and source give: data shorter than 12 bytes is an error.
/// Its `requires` leaves out the inputs on which the reader's arithmetic
/// overflows (see the module's documentation).
#[verifier::external_body]
fn probe_image_size(data: &[u8]) -> (r: Result<(usize, usize), ImageError>)
    requires
        probe_admits(data@),
    ensures
        match r {
            Ok(dims) => blob_dimensions(data@) == Some(dims),
            Err(_) => blob_dimensions(data@) is None,
        },
        data@.len() < 12 ==> r is Err,
{
    match imagesize::blob_size(data) {
        Ok(dim) => Ok((dim.width, dim.height)),
        Err(why) => Err(why),
    }
}

/// The size a probe found, or zero by zero where it failed.
pub fn dimensions_or_zero(probe: Result<(usize, usize), ImageError>) -> (r: (usize, usize))
    ensures
        r == match probe {
            Ok(dims) => dims,
            Err(_) => (0usize, 0usize),
        },
{
    match probe {
        Ok(dims) => dims,
        Err(_) => (0, 0),
    }
}

/// Whether `data` holds the HEIF tag `ispe` anywhere.
fn contains_ispe_tag(data: &[u8]) -> (r: bool)
    ensures
        r == has_ispe_tag(data@),
{
    let n = data.len();
    let mut i: usize = 0;
    while i < n && n - i >= 4
        invariant
            n == data@.len(),
            i <= n,
            forall|j: int| 0 <= j < i ==> !#[trigger] ispe_at(data@, j),
        decreases n - i,
    {
        if data[i] == 0x69 && data[i + 1] == 0x73 && data[i + 2] == 0x70 && data[i + 3] == 0x65 {
            assert(ispe_at(data@, i as int));
            return true;
        }
        i = i + 1;
    }
    assert forall|j: int| 0 <= j && j + 4 <= data@.len() implies !#[trigger] ispe_at(data@, j) by {
        assert(j < i);
    }
    false
}

/// Whether the header of `data` can be read without overflow (see
/// `probe_admits`).
pub fn sprite_bytes_admitted(data: &[u8]) -> (r: bool)
    ensures
        r == probe_admits(data@),
{
    if data.len() as u64 >= 0x2_0000_0000u64 {
        false
    } else if usize::BITS == 64 {
        true
    } else {
        !contains_ispe_tag(data)
    }
}

/// The width and height of the sprite whose file holds `data` (`None` where
/// the file could not be read); zero by zero where they cannot be found.
pub fn sprite_size(data: Option<&[u8]>) -> (r: (usize, usize))
    requires
        data matches Some(bytes) ==> probe_admits(bytes@),
    ensures
        r == match data {
            Some(bytes) => match blob_dimensions(bytes@) {
                Some(dims) => dims,
                None => (0usize, 0usize),
            },
            None => (0usize, 0usize),
        },
        (data matches Some(bytes) && bytes@.len() < 12) ==> r == (0usize, 0usize),
{
    match data {
        Some(bytes) => dimensions_or_zero(probe_image_size(bytes)),
        None => (0, 0),
    }
}

} // verus!
