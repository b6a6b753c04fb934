use std::cell::RefCell;
use std::rc::Rc;

use video_pipeline::consumer::{Consumer, History};
use video_pipeline::decimal::{push_decimal, push_decimal_bytes};
use video_pipeline::ffmpeg_decoder::{
    check_codec_opened, check_decoder_found, check_packet_sent, check_parameters_copied, frame_received,
    FFmpegDecoder,
};
use video_pipeline::ffmpeg_demuxer::{check_open_input, check_stream_info, packet_read, FFmpegDemuxer, MediaType};
use video_pipeline::frame_writer::FrameWriter;
use video_pipeline::open_gl_renderer::{Action, GLRenderer, Key, WindowAction, WindowEvent};
use video_pipeline::producer::Producer;
use video_pipeline::sw_scale::{Scaler, ScalerOutput};

/// A consumer that records, in a shared log, its name and each value it receives.
struct Recorder {
    name: &'static str,
    log: Rc<RefCell<Vec<(&'static str, u32)>>>,
}

impl Consumer<u32> for Recorder {
    fn consumed(&self) -> History<u32> {
        unreachable!("only the proofs read what a consumer has taken in")
    }

    fn consume(&mut self, to_consume: u32) {
        self.log.borrow_mut().push((self.name, to_consume));
    }
}

fn output(data: Vec<u8>, linesize: i32, pts: i64, duration: i64, width: i32, height: i32) -> ScalerOutput {
    ScalerOutput { data, data_linesizes: [linesize, 0, 0, 0], pts, duration, width, height }
}

#[test]
fn produce_reaches_every_consumer_in_order() {
    let log = Rc::new(RefCell::new(Vec::new()));
    let mut p: Producer<u32> = Producer::new();
    p.add_consumer(Box::new(Recorder { name: "a", log: log.clone() }));
    p.add_consumer(Box::new(Recorder { name: "b", log: log.clone() }));
    p.produce(1);
    p.produce(2);
    assert_eq!(*log.borrow(), vec![("a", 1), ("b", 1), ("a", 2), ("b", 2)]);
}

#[test]
fn produce_without_consumers_does_nothing() {
    let mut p: Producer<u32> = Producer::new();
    p.produce(7);
}

#[test]
fn late_consumer_gets_only_later_products() {
    let log = Rc::new(RefCell::new(Vec::new()));
    let mut p: Producer<u32> = Producer::new();
    p.add_consumer(Box::new(Recorder { name: "a", log: log.clone() }));
    p.produce(1);
    p.add_consumer(Box::new(Recorder { name: "b", log: log.clone() }));
    p.produce(2);
    assert_eq!(*log.borrow(), vec![("a", 1), ("a", 2), ("b", 2)]);
}

#[test]
fn decimal_text() {
    let mut s = String::from("n=");
    push_decimal(&mut s, 0);
    assert_eq!(s, "n=0");
    let mut s = String::new();
    push_decimal(&mut s, 1234567890);
    assert_eq!(s, "1234567890");
    let mut s = String::new();
    push_decimal(&mut s, -42);
    assert_eq!(s, "-42");
    let mut s = String::new();
    push_decimal(&mut s, i64::MIN);
    assert_eq!(s, i64::MIN.to_string());
    let mut s = String::new();
    push_decimal(&mut s, i64::MAX);
    assert_eq!(s, i64::MAX.to_string());
}

#[test]
fn decimal_bytes() {
    let mut v = vec![b'x'];
    push_decimal_bytes(&mut v, -305);
    assert_eq!(v, b"x-305".to_vec());
    let mut v = Vec::new();
    push_decimal_bytes(&mut v, 9);
    assert_eq!(v, b"9".to_vec());
    let mut v = Vec::new();
    push_decimal_bytes(&mut v, i64::MIN);
    assert_eq!(v, i64::MIN.to_string().into_bytes());
}

#[test]
fn frame_file_is_ppm_named_by_frame_number() {
    let w = FrameWriter::new();
    let frame = output(vec![1, 2, 3, 4, 5, 6, 7, 8, 9], 3, 3000, 1000, 1, 3);
    let f = w.frame_file(&frame);
    assert_eq!(f.path, "/tmp/test_to_consume3");
    let mut expected = b"P6\n1 3\n255\n".to_vec();
    expected.extend_from_slice(&[1, 2, 3, 4, 5, 6, 7, 8, 9]);
    assert_eq!(f.contents, expected);
}

#[test]
fn frame_file_takes_only_the_picture_bytes() {
    let w = FrameWriter::new();
    let frame = output(vec![10, 20, 30, 40, 50, 60, 70], 2, 0, 40, 640, 3);
    let f = w.frame_file(&frame);
    assert_eq!(f.path, "/tmp/test_to_consume0");
    let mut expected = b"P6\n640 3\n255\n".to_vec();
    expected.extend_from_slice(&[10, 20, 30, 40, 50, 60]);
    assert_eq!(f.contents, expected);
}

#[test]
fn frame_number_rounds_toward_zero() {
    let w = FrameWriter::new();
    assert_eq!(w.frame_file(&output(vec![], 0, 7, 2, 0, 0)).path, "/tmp/test_to_consume3");
    assert_eq!(w.frame_file(&output(vec![], 0, -7, 2, 0, 0)).path, "/tmp/test_to_consume-3");
    assert_eq!(w.frame_file(&output(vec![], 0, 7, -2, 0, 0)).path, "/tmp/test_to_consume-3");
    assert_eq!(w.frame_file(&output(vec![], 0, -7, -2, 0, 0)).path, "/tmp/test_to_consume3");
    assert_eq!(
        w.frame_file(&output(vec![], 0, i64::MIN, 1, 0, 0)).path,
        format!("/tmp/test_to_consume{}", i64::MIN)
    );
    assert_eq!(
        w.frame_file(&output(vec![], 0, i64::MIN, 2, 0, 0)).path,
        format!("/tmp/test_to_consume{}", i64::MIN / 2)
    );
}

#[test]
fn frames_with_different_numbers_get_different_files() {
    let w = FrameWriter::new();
    let a = w.frame_file(&output(vec![], 0, 1000, 1000, 0, 0));
    let b = w.frame_file(&output(vec![], 0, 2000, 1000, 0, 0));
    let c = w.frame_file(&output(vec![], 0, -1000, 1000, 0, 0));
    assert_ne!(a.path, b.path);
    assert_ne!(a.path, c.path);
}

#[test]
fn first_video_stream_is_chosen() {
    let d = FFmpegDemuxer::new(
        "clip.mp4".to_string(),
        vec![MediaType::Audio, MediaType::Video, MediaType::Subtitle, MediaType::Video],
    );
    assert_eq!(d.get_video_stream(), Ok(1));
    let d = FFmpegDemuxer::new("v.mkv".to_string(), vec![MediaType::Video]);
    assert_eq!(d.get_video_stream(), Ok(0));
}

#[test]
fn no_video_stream_is_an_error() {
    let d = FFmpegDemuxer::new("a.mp3".to_string(), vec![MediaType::Audio, MediaType::Data]);
    assert_eq!(d.get_video_stream(), Err("No Video stream found".to_string()));
    let d = FFmpegDemuxer::new("empty".to_string(), vec![]);
    assert_eq!(d.get_video_stream(), Err("No Video stream found".to_string()));
}

#[test]
fn open_input_codes() {
    assert_eq!(check_open_input(0), Ok(()));
    assert_eq!(check_open_input(-2), Err("Unable to open Input with Error: -2".to_string()));
    assert_eq!(check_open_input(5), Err("Unable to open Input with Error: 5".to_string()));
    assert_eq!(check_stream_info(0), Ok(()));
    assert_eq!(
        check_stream_info(-1094995529),
        Err("Unable to find stream info with code: -1094995529".to_string())
    );
}

#[test]
fn decoder_setup_codes() {
    assert_eq!(check_decoder_found(true), Ok(()));
    assert_eq!(check_decoder_found(false), Err("Unable to find decoder".to_string()));
    assert_eq!(check_parameters_copied(0), Ok(()));
    assert_eq!(check_parameters_copied(3), Ok(()));
    assert_eq!(
        check_parameters_copied(-22),
        Err("Unable copy codecPar to codecContext with code: -22".to_string())
    );
    assert_eq!(check_codec_opened(0), Ok(()));
    assert_eq!(check_codec_opened(-12), Err("Unable to open Codec with code: -12".to_string()));
    assert_eq!(check_packet_sent(0), Ok(()));
    assert_eq!(check_packet_sent(-11), Err("Error sending packet: -11".to_string()));
    assert_eq!(check_packet_sent(i32::MIN), Err(format!("Error sending packet: {}", i32::MIN)));
}

#[test]
fn decoder_takes_only_its_stream() {
    let d = FFmpegDecoder::new(2);
    assert!(d.accepts(2));
    assert!(!d.accepts(0));
    assert!(!d.accepts(3));
}

#[test]
fn scaler_keeps_size_and_timing() {
    let s = Scaler::new(640, 480, 0, 2);
    assert_eq!((s.width, s.height, s.src_pix_fmt, s.dst_pix_fmt), (640, 480, 0, 2));
    let out = s.scaled_output(0, vec![9, 8, 7], [1920, 0, 0, 0], 40, 20, 640, 480).unwrap();
    assert_eq!(out.data, vec![9, 8, 7]);
    assert_eq!(out.data_linesizes, [1920, 0, 0, 0]);
    assert_eq!((out.pts, out.duration, out.width, out.height), (40, 20, 640, 480));
}

#[test]
fn scaler_reports_failed_allocation() {
    let s = Scaler::new(640, 480, 0, 2);
    let out = s.scaled_output(-12, vec![], [0; 4], 0, 0, 640, 480);
    assert_eq!(out.err(), Some("Failed to allocate output frame in swScale".to_string()));
}

#[test]
fn renderer_events() {
    let r = GLRenderer::new(800, 600, 30);
    assert_eq!((r.width, r.height, r.frame_rate), (800, 600, 30));
    assert_eq!(r.process_event(WindowEvent::FramebufferSize(1024, 768)), WindowAction::SetViewport(0, 0, 1024, 768));
    assert_eq!(r.process_event(WindowEvent::Key(Key::Escape, Action::Press)), WindowAction::Close);
    assert_eq!(r.process_event(WindowEvent::Key(Key::Escape, Action::Release)), WindowAction::Nothing);
    assert_eq!(r.process_event(WindowEvent::Key(Key::Other, Action::Press)), WindowAction::Nothing);
    assert_eq!(r.process_event(WindowEvent::Other), WindowAction::Nothing);
}

#[test]
fn read_and_receive_go_on_while_codes_are_not_negative() {
    assert!(packet_read(0));
    assert!(packet_read(17));
    assert!(!packet_read(-1));
    assert!(!packet_read(-541478725));
    assert!(frame_received(0));
    assert!(!frame_received(-11));
}

#[test]
fn two_consumers_each_receive_the_product_in_order() {
    let log = Rc::new(RefCell::new(Vec::new()));
    let mut p: Producer<u32> = Producer::new();
    p.add_consumer(Box::new(Recorder { name: "a", log: log.clone() }));
    p.add_consumer(Box::new(Recorder { name: "b", log: log.clone() }));
    p.produce(7);
    assert_eq!(*log.borrow(), vec![("a", 7), ("b", 7)]);
}
