use av_rav1e::config::EncoderSettings;
use av_rav1e::descriptor::av1_descr;
use av_rav1e::encoder::{receive_outcome, send_outcome, Rav1eEncoder};
use av_rav1e::error::{EncoderError, Reason};
use av_rav1e::frame::{any_zero_stride, check_frame, Frame, FrameKind, Plane};
use av_rav1e::options::OptionValue;
use av_rav1e::packet::{BackendPacket, PictureType};
use av_rav1e::params::{CodecParams, MediaKind, VideoInfo};
use av_rav1e::status::BackendStatus;

fn terminal() -> EncoderError {
    EncoderError::Unsupported(Reason::LimitReached)
}

fn picture(width: usize, height: usize, fill: u8) -> Frame {
    let luma = Plane { data: vec![fill; width * height], stride: width };
    let cb = Plane { data: vec![128; (width / 2) * (height / 2)], stride: width / 2 };
    let cr = Plane { data: vec![128; (width / 2) * (height / 2)], stride: width / 2 };
    Frame { kind: FrameKind::Video, planes: vec![luma, cb, cr] }
}

fn drain(encoder: &mut Rav1eEncoder) -> Vec<av_rav1e::packet::Packet> {
    let mut packets = Vec::new();
    loop {
        match encoder.receive_packet() {
            Ok(packet) => packets.push(packet),
            Err(EncoderError::Unsupported(Reason::Encoded)) => {}
            Err(e) => {
                assert_eq!(e, terminal());
                return packets;
            }
        }
    }
}

#[test]
fn descriptor_names_the_codec() {
    let des = av1_descr();
    let descr = des.describe();
    assert_eq!(descr.codec, "av1");
    assert_eq!(descr.name, "rav1e");
    assert_eq!(descr.desc, "rav1e AV1 encoder");
    assert_eq!(descr.mime, "video/AV1");
}

#[test]
fn created_encoder_has_the_default_configuration() {
    let encoder = av1_descr().create().unwrap();
    assert_eq!(*encoder.config(), EncoderSettings::default());
    assert_eq!(*encoder.session_config(), EncoderSettings::default());
}

#[test]
fn configure_succeeds_and_there_is_no_extradata() {
    let mut encoder = Rav1eEncoder::new().unwrap();
    assert_eq!(encoder.configure(), Ok(()));
    assert_eq!(encoder.get_extradata(), None);
    assert_eq!(*encoder.config(), EncoderSettings::default());
}

#[test]
fn options_and_params_change_the_stored_configuration_only() {
    let mut encoder = Rav1eEncoder::new().unwrap();
    assert_eq!(encoder.set_option("w", OptionValue::U64(64)), Ok(()));
    assert_eq!(encoder.set_option("h", OptionValue::U64(64)), Ok(()));
    assert_eq!(encoder.set_option("timebase", OptionValue::Pair(1, 30)), Ok(()));
    assert_eq!(
        encoder.set_option("speed", OptionValue::U64(1)),
        Err(EncoderError::Unsupported(Reason::OptionKey))
    );
    assert_eq!(encoder.config().width, 64);
    assert_eq!(encoder.config().height, 64);
    assert_eq!(*encoder.session_config(), EncoderSettings::default());
    let params = CodecParams {
        kind: Some(MediaKind::Video(VideoInfo { width: 32, height: 16, format: None })),
        codec_id: None,
        extradata: None,
        bit_rate: 1000,
        convergence_window: 0,
        delay: 4,
    };
    assert_eq!(encoder.set_params(&params), Ok(()));
    let got = encoder.get_params().unwrap();
    assert_eq!(got.bit_rate, 1000);
    assert_eq!(got.delay, 4);
    assert_eq!(got.codec_id, Some("av1".to_owned()));
    assert_eq!(got.extradata, None);
    assert_eq!(got.convergence_window, 0);
    match got.kind {
        Some(MediaKind::Video(info)) => {
            assert_eq!((info.width, info.height), (32, 16));
            assert!(info.format.is_some());
        }
        _ => panic!("not a picture stream"),
    }
    assert_eq!(*encoder.session_config(), EncoderSettings::default());
}

#[test]
fn outcomes_follow_the_engine_answer() {
    assert_eq!(send_outcome(Ok(())), Ok(()));
    assert_eq!(
        send_outcome(Err(BackendStatus::EnoughData)),
        Err(EncoderError::Unsupported(Reason::EnoughData))
    );
    assert_eq!(
        send_outcome(Err(BackendStatus::Failure)),
        Err(EncoderError::Unsupported(Reason::Failure))
    );
    assert_eq!(
        receive_outcome(Err(BackendStatus::NeedMoreData)),
        Err(EncoderError::MoreDataNeeded)
    );
    assert_eq!(receive_outcome(Err(BackendStatus::LimitReached)), Err(terminal()));
    let packet = receive_outcome(Ok(BackendPacket {
        data: vec![5, 6],
        input_frameno: 3,
        frame_type: PictureType::Inter,
    }))
    .unwrap();
    assert_eq!(packet.data, vec![5, 6]);
    assert_eq!(packet.stream_index, 3);
    assert!(!packet.is_key);
    assert_eq!(packet.pos, None);
}

#[test]
fn frames_are_checked_before_the_engine_sees_them() {
    let cfg = EncoderSettings::default();
    assert_eq!(check_frame(&cfg, &picture(64, 64, 0)), None);
    let audio = Frame { kind: FrameKind::Audio, planes: vec![] };
    assert_eq!(check_frame(&cfg, &audio), Some(Reason::FrameKind));
    let mut two = picture(64, 64, 0);
    two.planes.pop();
    assert_eq!(check_frame(&cfg, &two), Some(Reason::PlaneCount));
    let mut four = picture(64, 64, 0);
    four.planes.push(Plane { data: vec![0; 16], stride: 4 });
    assert_eq!(check_frame(&cfg, &four), Some(Reason::PlaneCount));
    let mut flat = picture(64, 64, 0);
    flat.planes[2].stride = 0;
    assert_eq!(check_frame(&cfg, &flat), Some(Reason::PlaneStride));
    assert!(any_zero_stride(&flat.planes));
    assert!(!any_zero_stride(&four.planes));
    let deep = EncoderSettings { bit_depth: 10, ..cfg };
    assert_eq!(check_frame(&deep, &picture(64, 64, 0)), Some(Reason::BitDepth));
    let grey = EncoderSettings { chroma_sampling: av_rav1e::config::ChromaSampling::Cs400, ..cfg };
    assert_eq!(check_frame(&grey, &picture(64, 64, 0)), Some(Reason::PlaneCount));
}

#[test]
fn frame_with_wrong_plane_count_is_refused() {
    let mut encoder = Rav1eEncoder::new().unwrap();
    let mut frame = picture(64, 64, 10);
    frame.planes.truncate(1);
    assert_eq!(encoder.send_frame(&frame), Err(EncoderError::Unsupported(Reason::PlaneCount)));
    frame.planes.clear();
    assert_eq!(encoder.send_frame(&frame), Err(EncoderError::Unsupported(Reason::PlaneCount)));
    let mut five = picture(64, 64, 10);
    five.planes.push(Plane { data: vec![0; 4], stride: 2 });
    five.planes.push(Plane { data: vec![0; 4], stride: 2 });
    assert_eq!(encoder.send_frame(&five), Err(EncoderError::Unsupported(Reason::PlaneCount)));
    assert_eq!(encoder.receive_packet().err(), Some(EncoderError::MoreDataNeeded));
}

#[test]
fn frame_that_is_no_picture_is_refused() {
    let mut encoder = Rav1eEncoder::new().unwrap();
    let mut frame = picture(64, 64, 10);
    frame.kind = FrameKind::Audio;
    assert_eq!(encoder.send_frame(&frame), Err(EncoderError::Unsupported(Reason::FrameKind)));
}

#[test]
fn frame_with_zero_stride_is_refused() {
    let mut encoder = Rav1eEncoder::new().unwrap();
    let mut frame = picture(64, 64, 10);
    frame.planes[0].stride = 0;
    assert_eq!(encoder.send_frame(&frame), Err(EncoderError::Unsupported(Reason::PlaneStride)));
}

#[test]
fn fresh_session_asks_for_more_data() {
    let mut encoder = Rav1eEncoder::new().unwrap();
    assert_eq!(encoder.receive_packet().err(), Some(EncoderError::MoreDataNeeded));
    assert_eq!(encoder.receive_packet().err(), Some(EncoderError::MoreDataNeeded));
}

#[test]
fn one_frame_gives_one_key_packet_then_the_terminal_error() {
    let mut encoder = Rav1eEncoder::new().unwrap();
    assert_eq!(encoder.set_option("w", OptionValue::U64(64)), Ok(()));
    assert_eq!(encoder.set_option("h", OptionValue::U64(64)), Ok(()));
    assert_eq!(encoder.set_option("timebase", OptionValue::Pair(1, 30)), Ok(()));
    assert_eq!(encoder.send_frame(&picture(64, 64, 80)), Ok(()));
    assert_eq!(encoder.flush(), Ok(()));
    let packets = drain(&mut encoder);
    assert_eq!(packets.len(), 1);
    assert!(packets[0].is_key);
    assert!(!packets[0].is_corrupted);
    assert_eq!(packets[0].stream_index, 0);
    assert_eq!(packets[0].pos, None);
    assert!(!packets[0].data.is_empty());
    for _ in 0..3 {
        assert_eq!(encoder.receive_packet().err(), Some(terminal()));
    }
}

#[test]
fn flushed_empty_session_is_terminal_and_takes_no_more_frames() {
    let mut encoder = Rav1eEncoder::new().unwrap();
    assert_eq!(encoder.flush(), Ok(()));
    assert_eq!(encoder.flush(), Ok(()));
    assert_eq!(encoder.receive_packet().err(), Some(terminal()));
    assert_eq!(encoder.receive_packet().err(), Some(terminal()));
    assert_eq!(
        encoder.send_frame(&picture(64, 64, 1)),
        Err(EncoderError::Unsupported(Reason::EnoughData))
    );
    assert_eq!(encoder.receive_packet().err(), Some(terminal()));
}

#[test]
fn equal_quantizer_bounds_do_not_stop_encoding() {
    let mut encoder = Rav1eEncoder::new().unwrap();
    assert_eq!(encoder.set_option("qmin", OptionValue::U64(4)), Ok(()));
    assert_eq!(encoder.set_option("qmax", OptionValue::U64(4)), Ok(()));
    assert_eq!(encoder.send_frame(&picture(64, 64, 30)), Ok(()));
    assert_eq!(encoder.flush(), Ok(()));
    let packets = drain(&mut encoder);
    assert_eq!(packets.len(), 1);
}

#[test]
fn two_frames_give_at_most_two_packets_in_order() {
    let mut encoder = Rav1eEncoder::new().unwrap();
    assert_eq!(encoder.send_frame(&picture(64, 64, 30)), Ok(()));
    assert_eq!(encoder.send_frame(&picture(64, 64, 90)), Ok(()));
    assert_eq!(encoder.flush(), Ok(()));
    let packets = drain(&mut encoder);
    assert!(packets.len() <= 2);
    assert!(!packets.is_empty());
    assert!(packets[0].is_key);
    for pair in packets.windows(2) {
        assert!(pair[0].stream_index <= pair[1].stream_index);
    }
}

#[test]
fn packets_depend_on_the_picture() {
    let mut dark = Rav1eEncoder::new().unwrap();
    let mut bright = Rav1eEncoder::new().unwrap();
    assert_eq!(dark.send_frame(&picture(640, 480, 16)), Ok(()));
    assert_eq!(bright.send_frame(&picture(640, 480, 235)), Ok(()));
    assert_eq!(dark.flush(), Ok(()));
    assert_eq!(bright.flush(), Ok(()));
    let first = drain(&mut dark);
    let second = drain(&mut bright);
    assert_eq!(first.len(), 1);
    assert_eq!(second.len(), 1);
    assert_ne!(first[0].data, second[0].data);
}

fn rows_copied(dest: &[u8], pitch: usize, source: &[u8], stride: usize) -> Vec<u8> {
    let mut out = dest.to_vec();
    for k in 0..dest.len() {
        let row: usize = k / pitch;
        let col: usize = k % pitch;
        if row < dest.len() / pitch && row < source.len() / stride && col < stride {
            out[k] = source[row * stride + col];
        }
    }
    out
}

fn ramp(len: usize) -> Vec<u8> {
    let mut bytes = Vec::with_capacity(len);
    for i in 0..len {
        bytes.push((i % 251) as u8);
    }
    bytes
}

#[test]
fn engine_copies_rows_as_stated() {
    let ctx: rav1e::Context<u8> = rav1e::Config::default().new_context().unwrap();
    for (index, stride, len) in [(0usize, 50usize, 353usize), (1, 2000, 6100), (2, 7, 100_000)] {
        let mut frame = ctx.new_frame();
        let pitch: usize = frame.planes[index].cfg.stride;
        assert!(pitch > 0);
        let before = frame.planes[index].data_origin().to_vec();
        assert!(before.iter().all(|sample| *sample == 128));
        let others: Vec<Vec<u8>> = (0..3).map(|j| frame.planes[j].data_origin().to_vec()).collect();
        let source = ramp(len);
        frame.planes[index].copy_from_raw_u8(&source, stride, 1);
        let want = rows_copied(&before, pitch, &source, stride);
        assert_ne!(want, before);
        assert_eq!(frame.planes[index].data_origin(), &want[..]);
        for j in 0..3 {
            assert_eq!(frame.planes[j].cfg.stride > 0, true);
            if j != index {
                assert_eq!(frame.planes[j].data_origin(), &others[j][..]);
            }
        }
    }
}

#[test]
fn flush_ends_the_stream_for_good() {
    let mut encoder = Rav1eEncoder::new().unwrap();
    assert_eq!(encoder.send_frame(&picture(64, 64, 40)), Ok(()));
    assert_eq!(encoder.flush(), Ok(()));
    let enough = Err(EncoderError::Unsupported(Reason::EnoughData));
    assert_eq!(encoder.send_frame(&picture(64, 64, 41)), enough);
    assert_eq!(encoder.set_option("w", OptionValue::U64(32)), Ok(()));
    let packets = drain(&mut encoder);
    assert_eq!(packets.len(), 1);
    assert_eq!(encoder.send_frame(&picture(64, 64, 42)), enough);
    assert_eq!(encoder.flush(), Ok(()));
    assert_eq!(encoder.send_frame(&picture(64, 64, 43)), enough);
}

#[test]
fn an_encoder_always_comes_back() {
    for _ in 0..3 {
        let made = Rav1eEncoder::new();
        assert!(made.is_ok());
        let created = av1_descr().create();
        assert!(created.is_ok());
        assert_eq!(*created.unwrap().config(), EncoderSettings::default());
    }
    assert!(rav1e::Config::default().validate().is_ok());
}

#[test]
fn encoders_share_no_state() {
    let mut first = Rav1eEncoder::new().unwrap();
    let mut second = Rav1eEncoder::new().unwrap();
    assert_eq!(first.set_option("w", OptionValue::U64(32)), Ok(()));
    assert_eq!(first.flush(), Ok(()));
    assert_eq!(*second.config(), EncoderSettings::default());
    assert_eq!(second.send_frame(&picture(64, 64, 7)), Ok(()));
    assert_eq!(
        first.send_frame(&picture(64, 64, 7)),
        Err(EncoderError::Unsupported(Reason::EnoughData))
    );
}
