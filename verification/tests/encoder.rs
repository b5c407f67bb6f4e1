use wincap::encoder_config::{
    gop_size, ltr_pack, pack_2u32, plan_encoder, subtype_of, CodecKey, CodecSetting, CodecValue,
    EncoderConfig, MediaAttribute, MediaKey, MediaValue, VideoCodec, SUBTYPE_AV1, SUBTYPE_H264,
    SUBTYPE_HEVC, SUBTYPE_NV12, SUBTYPE_P010,
};
use wincap::error::WincapError;
use wincap::mf_encoder::{
    access_unit, needs_own_sample, output_ready, pick_best_activate, setup_event, EncoderStart,
    EventStep, FrameOptions, MfEncoder, SetupEvent, SetupStep, NEED_MORE_INPUT,
};

fn config(codec: VideoCodec) -> EncoderConfig {
    let mut cfg = EncoderConfig::default();
    cfg.codec = codec;
    cfg.width = 1920;
    cfg.height = 1080;
    cfg
}

fn media(key: MediaKey, attributes: &Vec<MediaAttribute>) -> Option<MediaValue> {
    attributes.iter().find(|a| a.key == key).map(|a| a.value)
}

fn setting(key: CodecKey, settings: &Vec<CodecSetting>) -> Option<CodecValue> {
    settings.iter().find(|s| s.key == key).map(|s| s.value)
}

fn units(s: &str) -> Option<Vec<u16>> {
    Some(s.encode_utf16().collect())
}

fn running() -> MfEncoder<u32> {
    let mut encoder = MfEncoder::new();
    encoder.initialized(config(VideoCodec::H264), true);
    assert_eq!(encoder.start().ok(), Some(EncoderStart::BeginStreaming));
    encoder
}

#[test]
fn h264_is_planned() {
    let plan = plan_encoder(&config(VideoCodec::H264)).unwrap();
    assert_eq!(plan.subtype, SUBTYPE_H264);
    let size = MediaValue::U64(1920 << 32 | 1080);
    assert_eq!(media(MediaKey::FrameSize, &plan.output_type), Some(size));
    assert_eq!(media(MediaKey::FrameSize, &plan.input_type), Some(size));
    assert_eq!(
        media(MediaKey::FrameRate, &plan.output_type),
        Some(MediaValue::U64(60 << 32 | 1)),
    );
    assert_eq!(
        media(MediaKey::AvgBitrate, &plan.output_type),
        Some(MediaValue::U32(6_000_000)),
    );
    assert_eq!(media(MediaKey::Profile, &plan.output_type), Some(MediaValue::U32(100)));
    assert_eq!(media(MediaKey::VideoPrimaries, &plan.output_type), None);
    assert_eq!(
        media(MediaKey::Subtype, &plan.input_type),
        Some(MediaValue::Guid(SUBTYPE_NV12)),
    );
    assert_eq!(setting(CodecKey::CabacEnable, &plan.tuning), Some(CodecValue::Bool(true)));
    assert_eq!(setting(CodecKey::BPictureCount, &plan.tuning), Some(CodecValue::U32(0)));
    assert_eq!(setting(CodecKey::GopSize, &plan.tuning), Some(CodecValue::U32(120)));
    assert_eq!(setting(CodecKey::LowLatencyMode, &plan.tuning), Some(CodecValue::Bool(true)));
    assert_eq!(setting(CodecKey::RateControlMode, &plan.tuning), Some(CodecValue::U32(4)));
    assert_eq!(setting(CodecKey::LtrBufferControl, &plan.tuning), None);
    assert_eq!(setting(CodecKey::IntraRefresh, &plan.tuning), None);
    assert_eq!(setting(CodecKey::RoiEnabled, &plan.tuning), None);
}

#[test]
fn hdr_is_planned() {
    let mut cfg = config(VideoCodec::HEVC);
    cfg.hdr10 = true;
    cfg.ltr_count = 4;
    cfg.roi_enabled = true;
    let plan = plan_encoder(&cfg).unwrap();
    assert_eq!(media(MediaKey::Profile, &plan.output_type), Some(MediaValue::U32(2)));
    assert_eq!(media(MediaKey::VideoPrimaries, &plan.output_type), Some(MediaValue::U32(9)));
    assert_eq!(media(MediaKey::TransferFunction, &plan.output_type), Some(MediaValue::U32(15)));
    assert_eq!(media(MediaKey::YuvMatrix, &plan.output_type), Some(MediaValue::U32(4)));
    assert_eq!(media(MediaKey::NominalRange, &plan.output_type), Some(MediaValue::U32(2)));
    assert_eq!(
        media(MediaKey::Subtype, &plan.input_type),
        Some(MediaValue::Guid(SUBTYPE_P010)),
    );
    assert_eq!(setting(CodecKey::CabacEnable, &plan.tuning), None);
    assert_eq!(
        setting(CodecKey::LtrBufferControl, &plan.tuning),
        Some(CodecValue::U32(0x1_0004)),
    );
    assert_eq!(setting(CodecKey::RoiEnabled, &plan.tuning), Some(CodecValue::Bool(true)));
    cfg.hdr10 = false;
    let plan = plan_encoder(&cfg).unwrap();
    assert_eq!(media(MediaKey::Profile, &plan.output_type), Some(MediaValue::U32(1)));
}

#[test]
fn intra_refresh_is_turned_on() {
    let mut cfg = config(VideoCodec::H264);
    cfg.intra_refresh_period = 45;
    let plain = plan_encoder(&cfg).unwrap();
    assert_eq!(setting(CodecKey::IntraRefresh, &plain.tuning), None);
    cfg.intra_refresh = true;
    let refreshed = plan_encoder(&cfg).unwrap();
    assert_eq!(setting(CodecKey::IntraRefresh, &refreshed.tuning), Some(CodecValue::U32(45)));
    assert_eq!(refreshed.tuning.len(), plain.tuning.len() + 1);
}

#[test]
fn hdr_needs_ten_bits() {
    let mut cfg = config(VideoCodec::H264);
    cfg.hdr10 = true;
    let e = plan_encoder(&cfg).unwrap_err();
    assert_eq!(e.to_string(), "mf_encoder: HDR10 requires HEVC or AV1 (no 10-bit H.264)");
    let encoder: MfEncoder<u32> = MfEncoder::new();
    assert!(encoder.initialize(&cfg).is_err());
    cfg.codec = VideoCodec::AV1;
    let (plan, step) = encoder.initialize(&cfg).unwrap();
    assert_eq!(step, SetupStep::CreateDeviceManager);
    assert_eq!(media(MediaKey::Profile, &plan.output_type), None);
}

#[test]
fn small_formulas() {
    assert_eq!(pack_2u32(0xABCD, 0x12), 0xABCD_0000_0012);
    assert_eq!(gop_size(60, 2000), 120);
    assert_eq!(gop_size(0, 2000), 1);
    assert_eq!(gop_size(30, 33), 1);
    assert_eq!(ltr_pack(4), 0x1_0004);
    assert_eq!(ltr_pack(0x5_0003), 0x1_0003);
    assert_eq!(subtype_of(VideoCodec::HEVC), SUBTYPE_HEVC);
    assert_eq!(subtype_of(VideoCodec::AV1), SUBTYPE_AV1);
}

#[test]
fn encoders_of_the_vendor_are_preferred() {
    let ids = vec![units("VEN_8086"), None, units("ven_10de"), units("VEN_10DE")];
    assert_eq!(pick_best_activate(&ids, 0x10de), 2);
    assert_eq!(pick_best_activate(&ids, 0x1002), 0);
    assert_eq!(pick_best_activate(&ids, 0), 0);
    assert_eq!(pick_best_activate(&vec![units("VEN_8086")], 0x10de), 0);
}

#[test]
fn the_set_up_goes_step_by_step() {
    let steps = vec![
        (SetupEvent::DeviceManagerCreated, SetupStep::EnumerateEncoders),
        (
            SetupEvent::Encoders {
                adapter_vendor: 0x10de,
                vendor_ids: vec![None, units("VEN_10DE")],
            },
            SetupStep::Activate { index: 1 },
        ),
        (SetupEvent::Activated, SetupStep::BindDeviceManager),
        (SetupEvent::DeviceManagerBound, SetupStep::UnlockAsync),
        (SetupEvent::AsyncUnlocked, SetupStep::SetOutputType),
        (SetupEvent::OutputTypeSet, SetupStep::SetInputType),
        (SetupEvent::InputTypeSet, SetupStep::QueryCodecApi),
        (SetupEvent::CodecApi { present: true }, SetupStep::Tune),
        (SetupEvent::CodecApi { present: false }, SetupStep::QueryEventGenerator),
        (SetupEvent::Tuned, SetupStep::QueryEventGenerator),
        (SetupEvent::EventGenerator, SetupStep::Ready),
    ];
    for (event, step) in steps {
        assert_eq!(setup_event(&event).ok(), Some(step));
    }
    let none = SetupEvent::Encoders { adapter_vendor: 1, vendor_ids: vec![] };
    assert_eq!(
        setup_event(&none).unwrap_err().to_string(),
        "mf_encoder: no hardware async encoder available for requested codec",
    );
}

#[test]
fn encoders_start_once() {
    let mut encoder: MfEncoder<u32> = MfEncoder::new();
    assert_eq!(encoder.start().unwrap_err().to_string(), "mf_encoder: not initialized");
    assert!(!encoder.stop());
    let mut encoder = running();
    assert!(encoder.running());
    assert_eq!(encoder.start().ok(), Some(EncoderStart::AlreadyRunning));
    assert!(encoder.stop());
    assert!(!encoder.running());
    assert!(!encoder.stop());
}

#[test]
fn pictures_are_queued_in_order() {
    let mut encoder = running();
    encoder.encode_frame(1, 1_000_050, FrameOptions::default());
    encoder.encode_frame(2, 2_000_000, FrameOptions::default());
    let a = encoder.next_input().unwrap();
    assert_eq!((a.tex, a.time_hns, a.duration_hns), (1, 10_000, 166_666));
    assert_eq!(encoder.next_input().unwrap().tex, 2);
    assert!(encoder.next_input().is_none());
    encoder.encode_frame(3, 0, FrameOptions::default());
    assert!(encoder.stop());
    encoder.stopped();
    assert!(encoder.next_input().is_none());
    encoder.encode_frame(4, 0, FrameOptions::default());
    assert!(encoder.next_input().is_none());
}

#[test]
fn a_key_frame_is_asked_for_once() {
    let mut encoder = running();
    let opts = FrameOptions { mark_ltr: -1, use_ltr: -1, roi_rects: Vec::new() };
    assert!(!encoder.sample_tags(&opts).clean_point);
    encoder.request_keyframe();
    encoder.request_keyframe();
    assert!(encoder.sample_tags(&opts).clean_point);
    assert!(!encoder.sample_tags(&opts).clean_point);
}

#[test]
fn samples_are_marked() {
    let mut encoder = running();
    let opts = FrameOptions { mark_ltr: 2, use_ltr: 1, roi_rects: vec![1, -1] };
    let tags = encoder.sample_tags(&opts);
    assert_eq!((tags.mark_ltr, tags.use_ltr), (Some(2), Some(1)));
    assert_eq!(tags.roi, Some(vec![1, 0, 0, 0, 255, 255, 255, 255]));
    let tags = encoder.sample_tags(&FrameOptions::default());
    assert_eq!((tags.mark_ltr, tags.use_ltr, tags.roi), (None, None, None));
    let opts = FrameOptions { mark_ltr: -1, use_ltr: -1, roi_rects: Vec::new() };
    let tags = encoder.sample_tags(&opts);
    assert_eq!((tags.mark_ltr, tags.use_ltr), (None, None));
    // Without the codec interface no reference can be chosen.
    let mut plain: MfEncoder<u32> = MfEncoder::new();
    plain.initialized(config(VideoCodec::H264), false);
    let opts = FrameOptions { mark_ltr: 0, use_ltr: 3, roi_rects: Vec::new() };
    assert_eq!(plain.sample_tags(&opts).use_ltr, None);
    assert_eq!(plain.set_bitrate(5), None);
}

#[test]
fn events_are_sorted() {
    let encoder = running();
    assert!(matches!(encoder.event_received(Ok(601)), EventStep::NeedInput));
    assert!(matches!(encoder.event_received(Ok(602)), EventStep::HaveOutput));
    assert!(matches!(encoder.event_received(Ok(0)), EventStep::Other));
    match encoder.event_received(Err(-4)) {
        EventStep::Failed(Some(p)) => {
            assert_eq!((p.hresult, p.message.as_str()), (-4, "EndGetEvent failed"));
        }
        _ => panic!("not reported"),
    }
    let silent: MfEncoder<u32> = MfEncoder::new();
    assert!(matches!(silent.event_received(Err(-4)), EventStep::Failed(None)));
}

#[test]
fn events_go_on_while_the_encoder_runs() {
    let mut encoder = running();
    let (report, more) = encoder.event_handled(&Ok(()));
    assert!(report.is_none() && more);
    let failed = Err(WincapError::general("mf_encoder", "broken"));
    let (report, more) = encoder.event_handled(&failed);
    assert_eq!(report.unwrap().message, "broken");
    assert!(more);
    let _ = encoder.stop();
    encoder.stopped();
    let (report, more) = encoder.event_handled(&failed);
    assert!(report.is_none() && !more);
}

#[test]
fn output_is_told_from_waiting() {
    assert_eq!(output_ready(Ok(())).ok(), Some(true));
    assert_eq!(output_ready(Err(NEED_MORE_INPUT)).ok(), Some(false));
    assert_eq!(NEED_MORE_INPUT as u32, 0xC00D_6D72);
    assert_eq!(
        output_ready(Err(-1)).unwrap_err().to_string(),
        "mf_encoder: HRESULT 0xFFFFFFFF \u{2014} ProcessOutput",
    );
    assert!(needs_own_sample(0));
    assert!(!needs_own_sample(0x101));
}

#[test]
fn units_carry_their_time() {
    let au = access_unit(vec![1, 2], Some(10_000), Some(1));
    assert_eq!((au.data, au.timestamp_ns, au.keyframe), (vec![1, 2], 1_000_000, true));
    let au = access_unit(vec![], None, None);
    assert_eq!((au.timestamp_ns, au.keyframe), (0, false));
    assert!(!access_unit(vec![], None, Some(0)).keyframe);
}
