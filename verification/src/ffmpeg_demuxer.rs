use vstd::prelude::*;
use crate::decimal::{decimal, push_decimal};

verus! {

/// The kind of data a stream of a container carries.
#[derive(PartialEq, Eq, Structural, Clone, Copy, Debug)]
pub enum MediaType {
    Unknown,
    Video,
    Audio,
    Data,
    Subtitle,
    Attachment,
}

/// The message when a container holds no video stream.
pub open spec fn no_video_message() -> Seq<char> {
    "No Video stream found"@
}

/// The message when the input could not be opened.
pub open spec fn open_input_message(code: i32) -> Seq<char> {
    "Unable to open Input with Error: "@ + decimal(code as int)
}

/// The message when the streams of the input could not be read.
pub open spec fn stream_info_message(code: i32) -> Seq<char> {
    "Unable to find stream info with code: "@ + decimal(code as int)
}

/// What the pipeline reads of an opened input: where it came from, and the kind of
/// each of its streams, in the container's order.
pub struct FFmpegDemuxer {
    pub file_uri: String,
    pub stream_types: Vec<MediaType>,
}

impl FFmpegDemuxer {
    pub fn new(file_uri: String, stream_types: Vec<MediaType>) -> (d: Self)
        ensures
            d.file_uri@ == file_uri@,
            d.stream_types@ == stream_types@,
    {
        FFmpegDemuxer { file_uri, stream_types }
    }

    /// The position of the first video stream; an error when there is none.
    pub fn get_video_stream(&self) -> (res: Result<usize, String>)
        ensures
            res matches Ok(i) ==> {
                &&& i < self.stream_types@.len()
                &&& self.stream_types@[i as int] == MediaType::Video
                &&& forall|j: int| 0 <= j < i ==> self.stream_types@[j] != MediaType::Video
            },
            res is Err <==> forall|j: int|
                0 <= j < self.stream_types@.len() ==> self.stream_types@[j] != MediaType::Video,
            res matches Err(e) ==> e@ == no_video_message(),
    {
        let n = self.stream_types.len();
        let mut i: usize = 0;
        while i < n
            invariant
                n == self.stream_types@.len(),
                i <= n,
                forall|j: int| 0 <= j < i ==> self.stream_types@[j] != MediaType::Video,
            decreases n - i,
        {
            if self.stream_types[i] == MediaType::Video {
                return Ok(i);
            }
            i = i + 1;
        }
        Err(String::from_str("No Video stream found"))
    }
}

/// Whether reading the next packet succeeded, given the code it returned; reading goes
/// on while it does (negative codes mark the end of the input or an error).
pub fn packet_read(code: i32) -> (b: bool)
    ensures
        b == (code >= 0),
{
    code >= 0
}

/// Whether opening the input succeeded, given the code it returned (zero on success).
pub fn check_open_input(code: i32) -> (res: Result<(), String>)
    ensures
        res is Ok <==> code == 0,
        res matches Err(e) ==> e@ == open_input_message(code),
{
    if code != 0 {
        let mut e = String::from_str("Unable to open Input with Error: ");
        push_decimal(&mut e, code as i64);
        return Err(e);
    }
    Ok(())
}

/// Whether reading the stream information succeeded, given the code it returned
/// (zero on success).
pub fn check_stream_info(code: i32) -> (res: Result<(), String>)
    ensures
        res is Ok <==> code == 0,
        res matches Err(e) ==> e@ == stream_info_message(code),
{
    if code != 0 {
        let mut e = String::from_str("Unable to find stream info with code: ");
        push_decimal(&mut e, code as i64);
        return Err(e);
    }
    Ok(())
}

} // verus!
