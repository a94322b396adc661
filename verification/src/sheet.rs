//! Sprite sheets: pictures of equal size laid out on a grid and read row by
//! row, and which of them an animation shows.

use vstd::prelude::*;
use vstd::arithmetic::div_mod::{lemma_fundamental_div_mod_converse, lemma_mod_add_multiples_vanish};

verus! {

/// Number of pictures that are cut from a sheet: as many as were asked for,
/// as far as the grid holds them.
pub open spec fn sheet_len(frames_wide: int, frames_high: int, total_frames: int) -> int {
    if total_frames <= frames_wide * frames_high {
        total_frames
    } else {
        frames_wide * frames_high
    }
}

/// Column and row of the picture at `index` on a grid `frames_wide` wide.
pub open spec fn cell_of(index: int, frames_wide: int) -> (int, int) {
    (index % frames_wide, index / frames_wide)
}

/// Lists the grid cells of a sheet's pictures, as column and row, in reading
/// order: left to right, then top to bottom, until `total_frames` are
/// listed or the grid ends.
pub fn sheet_cells(frames_wide: usize, frames_high: usize, total_frames: usize) -> (out: Vec<
    (usize, usize),
>)
    ensures
        out@.len() == sheet_len(frames_wide as int, frames_high as int, total_frames as int),
        forall|k: int|
            0 <= k < out@.len() ==> (#[trigger] out@[k].0 as int, out@[k].1 as int) == cell_of(
                k,
                frames_wide as int,
            ),
{
    let mut out: Vec<(usize, usize)> = Vec::new();
    let mut row: usize = 0;
    while row < frames_high && out.len() < total_frames
        invariant
            row <= frames_high,
            out@.len() == sheet_len(frames_wide as int, row as int, total_frames as int),
            forall|k: int|
                0 <= k < out@.len() ==> (#[trigger] out@[k].0 as int, out@[k].1 as int) == cell_of(
                    k,
                    frames_wide as int,
                ),
        decreases frames_high - row,
    {
        let mut col: usize = 0;
        while col < frames_wide && out.len() < total_frames
            invariant
                row < frames_high,
                col <= frames_wide,
                out@.len() <= total_frames,
                out@.len() == row * frames_wide + col,
                forall|k: int|
                    0 <= k < out@.len() ==> (#[trigger] out@[k].0 as int, out@[k].1 as int)
                        == cell_of(k, frames_wide as int),
            decreases frames_wide - col,
        {
            proof {
                lemma_fundamental_div_mod_converse(
                    row * frames_wide + col,
                    frames_wide as int,
                    row as int,
                    col as int,
                );
            }
            out.push((col, row));
            col += 1;
        }
        proof {
            assert((row + 1) * frames_wide == row * frames_wide + frames_wide) by (nonlinear_arith);
        }
        row += 1;
    }
    proof {
        if row < frames_high {
            assert(row * frames_wide <= frames_high * frames_wide) by (nonlinear_arith)
                requires
                    row < frames_high,
                    0 <= frames_wide,
            ;
            assert(frames_high * frames_wide == frames_wide * frames_high) by (nonlinear_arith);
        } else {
            assert(row * frames_wide == frames_wide * frames_high) by (nonlinear_arith)
                requires
                    row == frames_high,
            ;
        }
    }
    out
}

/// The picture an animation of `frames` pictures shows after `steps` whole
/// frame delays: it plays through and starts over.
pub open spec fn spec_frame_at(steps: nat, frames: nat) -> nat {
    steps % frames
}

/// Picks the picture of a looping animation. An animation has at least one
/// picture.
pub fn frame_at(steps: usize, frames: usize) -> (out: usize)
    requires
        frames > 0,
    ensures
        out == spec_frame_at(steps as nat, frames as nat),
        out < frames,
{
    steps % frames
}

/// After one more full cycle, as many frame delays as the animation has
/// pictures, the animation shows the picture it showed before.
pub proof fn lemma_full_cycle_returns(steps: nat, frames: nat)
    requires
        frames > 0,
    ensures
        spec_frame_at(steps + frames, frames) == spec_frame_at(steps, frames),
{
    lemma_mod_add_multiples_vanish(steps as int, frames as int);
}

} // verus!
