use vstd::prelude::*;

verus! {

/// A frame after conversion to the output pixel format, as plain values.
///
/// `data` holds the bytes of the first image plane, the only plane that the
/// later stages read; `data_linesizes` gives the bytes per row of each plane.
#[derive(Clone)]
pub struct ScalerOutput {
    pub data: Vec<u8>,
    pub data_linesizes: [i32; 4],
    pub pts: i64,
    pub duration: i64,
    pub width: i32,
    pub height: i32,
}

/// The message for an output image that could not be allocated.
pub open spec fn alloc_failure_message() -> Seq<char> {
    "Failed to allocate output frame in swScale"@
}

/// How a converter is set up for a video stream: it keeps the stream's picture size and
/// changes only the pixel format.
pub struct Scaler {
    pub src_pix_fmt: i32,
    pub dst_pix_fmt: i32,
    pub width: i32,
    pub height: i32,
}

impl Scaler {
    /// The set-up for a stream of `width` x `height` pictures in `src_pix_fmt`,
    /// converted to `dst_pix_fmt` at the same size.
    pub fn new(width: i32, height: i32, src_pix_fmt: i32, dst_pix_fmt: i32) -> (s: Self)
        ensures
            s.width == width,
            s.height == height,
            s.src_pix_fmt == src_pix_fmt,
            s.dst_pix_fmt == dst_pix_fmt,
    {
        Scaler { src_pix_fmt, dst_pix_fmt, width, height }
    }

    /// What a conversion of one frame yields, given the result of allocating the output
    /// image (negative on failure) and, on success, the converted first plane.
    /// The frame's timing and size carry over unchanged.
    pub fn scaled_output(
        &self,
        alloc_result: i32,
        data: Vec<u8>,
        data_linesizes: [i32; 4],
        pts: i64,
        duration: i64,
        width: i32,
        height: i32,
    ) -> (out: Result<ScalerOutput, String>)
        ensures
            alloc_result < 0 <==> out is Err,
            out matches Err(e) ==> e@ == alloc_failure_message(),
            out matches Ok(o) ==> {
                &&& o.data@ == data@
                &&& o.data_linesizes == data_linesizes
                &&& o.pts == pts
                &&& o.duration == duration
                &&& o.width == width
                &&& o.height == height
            },
    {
        if alloc_result < 0 {
            return Err(String::from_str("Failed to allocate output frame in swScale"));
        }
        Ok(ScalerOutput { data, data_linesizes, pts, duration, width, height })
    }
}

} // verus!
