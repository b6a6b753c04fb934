use vstd::prelude::*;
use crate::decimal::{ascii_bytes, decimal, lemma_decimal_injective, push_decimal, push_decimal_bytes};
use crate::sw_scale::ScalerOutput;

verus! {

/// Integer division that rounds toward zero, as `/` does on Rust integers.
pub open spec fn div_toward_zero(a: int, b: int) -> int {
    let q = abs(a) / abs(b);
    if (a < 0) != (b < 0) { -q } else { q }
}

pub open spec fn abs(a: int) -> int {
    if a < 0 { -a } else { a }
}

/// Division rounds toward zero: the quotient leaves a remainder smaller in size than the
/// divisor, and that remainder is zero or has the sign of the dividend.
pub proof fn law_division_rounds_toward_zero(a: int, b: int)
    requires
        b != 0,
    ensures
        abs(a - div_toward_zero(a, b) * b) < abs(b),
        a - div_toward_zero(a, b) * b == 0 || (a - div_toward_zero(a, b) * b < 0) == (a < 0),
{
    let x = abs(a);
    let d = abs(b);
    let q = x / d;
    let m = x % d;
    vstd::arithmetic::div_mod::lemma_fundamental_div_mod(x, d);
    assert(0 <= m < d) by {
        vstd::arithmetic::div_mod::lemma_mod_bound(x, d);
    }
    assert(x == d * q + m);
    assert(q * b == d * q || q * b == -(d * q)) by (nonlinear_arith)
        requires d == abs(b), d == b || d == -b;
    if b > 0 {
        assert(q * b == d * q) by (nonlinear_arith) requires d == b;
    } else {
        assert(q * b == -(d * q)) by (nonlinear_arith) requires d == -b;
    }
    assert((-q) * b == -(q * b)) by (nonlinear_arith);
}

/// The number a frame is filed under: its timestamp counted in frame durations.
pub open spec fn frame_number(pts: i64, duration: i64) -> int {
    div_toward_zero(pts as int, duration as int)
}

/// The header of a binary PPM image: magic, width and height, and the largest sample value.
pub open spec fn ppm_header(width: int, height: int) -> Seq<char> {
    seq!['P', '6', '\n'] + decimal(width) + seq![' '] + decimal(height) + seq!['\n'] + decimal(255)
        + seq!['\n']
}

/// The file a frame is written to.
pub open spec fn frame_path(number: int) -> Seq<char> {
    "/tmp/test_to_consume"@ + decimal(number)
}

/// How many bytes of the first plane make up the picture: a row's size times the rows.
pub open spec fn picture_len(frame: ScalerOutput) -> int {
    frame.data_linesizes[0] * frame.height
}

/// What the writer accepts: a frame whose number can be computed and whose picture
/// size is a non-negative `i32` that the plane actually holds.
pub open spec fn writable(frame: ScalerOutput) -> bool {
    &&& frame.duration != 0
    &&& !(frame.pts == i64::MIN && frame.duration == -1)
    &&& 0 <= picture_len(frame) <= i32::MAX
    &&& picture_len(frame) <= frame.data@.len()
}

/// Frames with different numbers go to different files.
pub proof fn lemma_distinct_frames_distinct_files(a: int, b: int)
    requires
        a != b,
    ensures
        frame_path(a) != frame_path(b),
{
    let prefix = "/tmp/test_to_consume"@;
    if frame_path(a) == frame_path(b) {
        assert(frame_path(a).skip(prefix.len() as int) =~= decimal(a));
        assert(frame_path(b).skip(prefix.len() as int) =~= decimal(b));
        lemma_decimal_injective(a, b);
    }
}

/// A file to write: where, and what.
pub struct FrameFile {
    pub path: String,
    pub contents: Vec<u8>,
}

/// Writes each frame it is given to its own PPM file.
pub struct FrameWriter {}

/// Truncating division on `i64`.
fn div_i64(a: i64, b: i64) -> (q: i64)
    requires
        b != 0,
        !(a == i64::MIN && b == -1),
    ensures
        q == div_toward_zero(a as int, b as int),
{
    let aa: i128 = if a < 0 { -(a as i128) } else { a as i128 };
    let bb: i128 = if b < 0 { -(b as i128) } else { b as i128 };
    let q = aa / bb;
    assert(q <= aa) by (nonlinear_arith)
        requires aa >= 0, bb >= 1, q == aa / bb;
    assert(q < aa || bb == 1 || aa == 0) by (nonlinear_arith)
        requires aa >= 0, bb >= 1, q == aa / bb;
    if (a < 0) != (b < 0) {
        (-q) as i64
    } else {
        q as i64
    }
}

impl FrameWriter {
    pub fn new() -> (w: Self)
        ensures
            w == (FrameWriter {}),
    {
        FrameWriter {}
    }

    /// The file for one frame: it is named after the frame's number and holds a PPM
    /// header followed by the picture bytes of the first plane.
    pub fn frame_file(&self, to_consume: &ScalerOutput) -> (f: FrameFile)
        requires
            writable(*to_consume),
        ensures
            f.path@ == frame_path(frame_number(to_consume.pts, to_consume.duration)),
            f.contents@ == ascii_bytes(ppm_header(to_consume.width as int, to_consume.height as int))
                + to_consume.data@.take(to_consume.data_linesizes[0] * to_consume.height),
            f.contents@.len() == ppm_header(to_consume.width as int, to_consume.height as int).len()
                + to_consume.data_linesizes[0] * to_consume.height,
            f.contents@.skip(ppm_header(to_consume.width as int, to_consume.height as int).len() as int)
                == to_consume.data@.take(to_consume.data_linesizes[0] * to_consume.height),
    {
        let number = div_i64(to_consume.pts, to_consume.duration);
        let mut path = String::from_str("/tmp/test_to_consume");
        push_decimal(&mut path, number);

        let mut contents: Vec<u8> = Vec::new();
        contents.push(80u8);
        contents.push(54u8);
        contents.push(10u8);
        push_decimal_bytes(&mut contents, to_consume.width as i64);
        contents.push(32u8);
        push_decimal_bytes(&mut contents, to_consume.height as i64);
        contents.push(10u8);
        push_decimal_bytes(&mut contents, 255i64);
        contents.push(10u8);
        let ghost header = contents@;
        assert(header =~= ascii_bytes(ppm_header(to_consume.width as int, to_consume.height as int)));

        let len = (to_consume.data_linesizes[0] * to_consume.height) as usize;
        let mut i: usize = 0;
        while i < len
            invariant
                len == picture_len(*to_consume),
                len <= to_consume.data@.len(),
                i <= len,
                contents@ == header + to_consume.data@.take(i as int),
            decreases len - i,
        {
            contents.push(to_consume.data[i]);
            i = i + 1;
            assert(contents@ =~= header + to_consume.data@.take(i as int));
        }
        assert(contents@.skip(header.len() as int) =~= to_consume.data@.take(len as int));
        FrameFile { path, contents }
    }
}

} // verus!
