//! A video pipeline: a demuxer splits a file into packets, a decoder turns the packets of
//! the video stream into frames, a scaler converts each frame's pixel format, and a writer
//! stores every frame as a PPM image. Stages are linked by producers that hand each value
//! to every consumer that was added to them.
//!
//! This crate holds the pipeline's decisions and data; the calls into FFmpeg and OpenGL,
//! and the file writes, are made by the program around it.

pub mod consumer;
pub mod decimal;
pub mod ffmpeg_decoder;
pub mod ffmpeg_demuxer;
pub mod frame_writer;
pub mod open_gl_renderer;
pub mod producer;
pub mod sw_scale;
