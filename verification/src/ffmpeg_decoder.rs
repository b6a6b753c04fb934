use vstd::prelude::*;
use crate::decimal::{decimal, push_decimal};

verus! {

/// The message when no decoder exists for the stream's codec.
pub open spec fn no_decoder_message() -> Seq<char> {
    "Unable to find decoder"@
}

/// The message when the stream's codec parameters could not be copied to the decoder.
pub open spec fn copy_parameters_message(code: i32) -> Seq<char> {
    "Unable copy codecPar to codecContext with code: "@ + decimal(code as int)
}

/// The message when the decoder could not be opened.
pub open spec fn open_codec_message(code: i32) -> Seq<char> {
    "Unable to open Codec with code: "@ + decimal(code as int)
}

/// The message when a packet could not be handed to the decoder.
pub open spec fn send_packet_message(code: i32) -> Seq<char> {
    "Error sending packet: "@ + decimal(code as int)
}

/// Whether a decoder was found for the stream's codec.
pub fn check_decoder_found(found: bool) -> (res: Result<(), String>)
    ensures
        res is Ok <==> found,
        res matches Err(e) ==> e@ == no_decoder_message(),
{
    if !found {
        return Err(String::from_str("Unable to find decoder"));
    }
    Ok(())
}

/// Whether copying the codec parameters succeeded, given the code it returned
/// (negative on failure).
pub fn check_parameters_copied(code: i32) -> (res: Result<(), String>)
    ensures
        res is Ok <==> code >= 0,
        res matches Err(e) ==> e@ == copy_parameters_message(code),
{
    if code < 0 {
        let mut e = String::from_str("Unable copy codecPar to codecContext with code: ");
        push_decimal(&mut e, code as i64);
        return Err(e);
    }
    Ok(())
}

/// Whether opening the decoder succeeded, given the code it returned (negative on failure).
pub fn check_codec_opened(code: i32) -> (res: Result<(), String>)
    ensures
        res is Ok <==> code >= 0,
        res matches Err(e) ==> e@ == open_codec_message(code),
{
    if code < 0 {
        let mut e = String::from_str("Unable to open Codec with code: ");
        push_decimal(&mut e, code as i64);
        return Err(e);
    }
    Ok(())
}

/// Whether handing a packet to the decoder succeeded, given the code it returned
/// (negative on failure).
pub fn check_packet_sent(code: i32) -> (res: Result<(), String>)
    ensures
        res is Ok <==> code >= 0,
        res matches Err(e) ==> e@ == send_packet_message(code),
{
    if code < 0 {
        let mut e = String::from_str("Error sending packet: ");
        push_decimal(&mut e, code as i64);
        return Err(e);
    }
    Ok(())
}

/// Whether the decoder handed out another frame, given the code it returned; frames are
/// taken while it does (negative codes mean it needs more input or has ended).
pub fn frame_received(code: i32) -> (b: bool)
    ensures
        b == (code >= 0),
{
    code >= 0
}

/// The part of a decoder that decides which packets it takes: those of its own stream.
pub struct FFmpegDecoder {
    pub stream_index: i32,
}

impl FFmpegDecoder {
    /// A decoder for the stream at `stream_index`.
    pub fn new(stream_index: i32) -> (d: Self)
        ensures
            d.stream_index == stream_index,
    {
        FFmpegDecoder { stream_index }
    }

    /// Whether a packet of the stream at `packet_stream_index` is for this decoder.
    pub fn accepts(&self, packet_stream_index: i32) -> (b: bool)
        ensures
            b == (packet_stream_index == self.stream_index),
    {
        packet_stream_index == self.stream_index
    }
}

} // verus!
