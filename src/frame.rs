//! Per-frame parameters and the geometry derived from them.
use vstd::prelude::*;

use crate::cfa::{cfa_of_code, CfaPattern};

verus! {

/// Side of the square work-group footprint of every compute pass.
pub const GROUP_SIZE: u32 = 8;

/// Metadata of one raw frame.
///
/// Floating-point metadata is carried as IEEE-754 single-precision bit
/// patterns: the library only places these words in push-constant blocks.
#[derive(Clone, Copy, Debug)]
pub struct FrameParams {
    pub width: u32,
    pub height: u32,
    /// Length in bytes of the raw 16-bit little-endian mosaic.
    pub raw_len: usize,
    pub cfa: CfaPattern,
    pub white_level: i32,
    pub black_level: [i32; 4],
    /// Reserved: accepted but not consumed by any pass.
    pub neutral_point: [u32; 3],
    pub color_gains: [u32; 4],
    /// Row-major 3x3 matrix from sensor to display color space.
    pub color_correction_transform: [u32; 9],
    /// Reserved: accepted but not consumed by any pass.
    pub forward_matrix_1: [u32; 9],
    /// Reserved: accepted but not consumed by any pass.
    pub forward_matrix_2: [u32; 9],
}

/// Why frame parameters were refused.
#[derive(Clone, Copy, Debug, PartialEq, Eq, Structural)]
pub enum FrameError {
    /// Width or height is zero or negative.
    NonPositiveSize,
    /// The raw region holds fewer than two bytes per pixel.
    RawTooShort,
}

/// Bytes a `width` x `height` mosaic of 16-bit samples occupies.
pub open spec fn raw_bytes_needed(width: int, height: int) -> int {
    2 * (width * height)
}

/// Bytes of the packed RGBA8 result.
pub open spec fn output_bytes(width: int, height: int) -> int {
    4 * (width * height)
}

/// Work groups needed along one axis of `n` pixels.
pub open spec fn groups_for(n: int) -> int {
    (n + 7) / 8
}

impl FrameParams {
    /// Parameters that every pass can be planned from.
    pub open spec fn wf(&self) -> bool {
        &&& 0 < self.width <= i32::MAX
        &&& 0 < self.height <= i32::MAX
        &&& self.raw_len >= raw_bytes_needed(self.width as int, self.height as int)
    }

    /// Checks and gathers one frame's metadata. `size` is `[width, height]`,
    /// `cfa_code` is decoded as by `CfaPattern::from_code`.
    pub fn new(
        size: [i32; 2],
        raw_len: usize,
        cfa_code: i32,
        white_level: i32,
        black_level: [i32; 4],
        neutral_point: [u32; 3],
        color_gains: [u32; 4],
        color_correction_transform: [u32; 9],
        forward_matrix_1: [u32; 9],
        forward_matrix_2: [u32; 9],
    ) -> (r: Result<FrameParams, FrameError>)
        ensures
            (size[0] <= 0 || size[1] <= 0) <==> r == Err::<FrameParams, FrameError>(
                FrameError::NonPositiveSize,
            ),
            (size[0] > 0 && size[1] > 0 && raw_len < raw_bytes_needed(size[0] as int, size[1] as int))
                <==> r == Err::<FrameParams, FrameError>(FrameError::RawTooShort),
            r is Ok <==> (size[0] > 0 && size[1] > 0 && raw_len >= raw_bytes_needed(
                size[0] as int,
                size[1] as int,
            )),
            r matches Ok(p) ==> {
                &&& p.wf()
                &&& p.width == size[0]
                &&& p.height == size[1]
                &&& p.raw_len == raw_len
                &&& p.cfa == cfa_of_code(cfa_code as int)
                &&& p.white_level == white_level
                &&& p.black_level == black_level
                &&& p.neutral_point == neutral_point
                &&& p.color_gains == color_gains
                &&& p.color_correction_transform == color_correction_transform
                &&& p.forward_matrix_1 == forward_matrix_1
                &&& p.forward_matrix_2 == forward_matrix_2
            },
    {
        if size[0] <= 0 || size[1] <= 0 {
            return Err(FrameError::NonPositiveSize);
        }
        let width = size[0] as u32;
        let height = size[1] as u32;
        proof {
            lemma_area_bound(width as int, height as int);
        }
        let area: u64 = (width as u64) * (height as u64);
        let needed: u64 = 2 * area;
        if (raw_len as u64) < needed {
            return Err(FrameError::RawTooShort);
        }
        Ok(FrameParams {
            width,
            height,
            raw_len,
            cfa: CfaPattern::from_code(cfa_code),
            white_level,
            black_level,
            neutral_point,
            color_gains,
            color_correction_transform,
            forward_matrix_1,
            forward_matrix_2,
        })
    }

    /// Extent of every image of the frame: `(width, height, 1)`.
    pub fn extent(&self) -> (r: [u32; 3])
        ensures
            r[0] == self.width,
            r[1] == self.height,
            r[2] == 1,
    {
        [self.width, self.height, 1]
    }

    /// Work-group count of every dispatch: `(ceil(width/8), ceil(height/8), 1)`.
    pub fn work_groups(&self) -> (r: [u32; 3])
        requires
            self.wf(),
        ensures
            r[0] == groups_for(self.width as int),
            r[1] == groups_for(self.height as int),
            r[2] == 1,
    {
        [(self.width + 7) / GROUP_SIZE, (self.height + 7) / GROUP_SIZE, 1]
    }

    /// Bytes of the packed RGBA8 result, `4 * width * height`.
    pub fn output_len(&self) -> (r: u64)
        requires
            self.wf(),
        ensures
            r == output_bytes(self.width as int, self.height as int),
    {
        proof {
            lemma_area_bound(self.width as int, self.height as int);
        }
        let area: u64 = (self.width as u64) * (self.height as u64);
        4 * area
    }

    /// Whether a host region of `out_len` bytes can take the packed result.
    pub fn output_fits(&self, out_len: usize) -> (r: bool)
        requires
            self.wf(),
        ensures
            r == (out_len >= output_bytes(self.width as int, self.height as int)),
    {
        out_len as u64 >= self.output_len()
    }
}

/// The pixel count of a frame whose sides fit in `i32` is below `2^62`.
pub proof fn lemma_area_bound(w: int, h: int)
    requires
        0 <= w <= i32::MAX,
        0 <= h <= i32::MAX,
    ensures
        w * h < 0x4000_0000_0000_0000,
{
    assert(w * h <= i32::MAX * h) by (nonlinear_arith)
        requires
            0 <= w <= i32::MAX,
            0 <= h,
    ;
    assert(i32::MAX * h <= i32::MAX * i32::MAX) by (nonlinear_arith)
        requires
            0 <= h <= i32::MAX,
    ;
}

/// The work groups of a dispatch cover every pixel of the frame, and no
/// whole row or column of groups lies outside it.
pub proof fn lemma_work_groups_cover(n: int)
    requires
        n > 0,
    ensures
        groups_for(n) * 8 >= n,
        (groups_for(n) - 1) * 8 < n,
{
}

} // verus!
