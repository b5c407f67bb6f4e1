use wincap::capture_session::{
    edge_distance, encoded_payload, parse_delivery, CaptureOptionError, CaptureOptionsJs,
    CaptureSession, CaptureStatsJs, DeliverySpec, SessionEvent, SessionStep, SessionStop,
    SourceSpec,
};
use wincap::encoder_config::{CodecKey, CodecValue, EncoderConfig, VideoCodec};
use wincap::d3d_device::{AdapterLuid, OutputRecord};
use wincap::frame_job::{
    gpu_texture, DeliveryMode, Finalized, FrameAction, FrameEvent, FORMAT_BGRA8, FORMAT_RGBA16F,
};
use wincap::frame_pool::FramePool;
use wincap::mf_encoder::{EncodedAccessUnit, FrameOptions, MfEncoder};
use wincap::video_processor::Edges;
use wincap::wgc_source::{CapturedFrame, PixelFormat, WgcOptions, WgcSource};

const DONE: FrameEvent = FrameEvent::Finished { value: 0 };

fn frame(slot: u32) -> CapturedFrame {
    CapturedFrame {
        slot,
        width: 64,
        height: 32,
        timestamp_ns: 5,
        size_changed: false,
        dirty_rects: Vec::new(),
    }
}

/// Runs the job of a frame to its end and returns its number.
fn run(session: &mut CaptureSession, frame: &CapturedFrame, answer: FrameEvent) -> u64 {
    assert!(session.accepts_size(frame.width, frame.height));
    let (mut job, mut action) = session.begin(frame);
    while action != FrameAction::Done {
        action = session.advance(&mut job, answer);
    }
    job.number()
}

fn none() -> AdapterLuid {
    AdapterLuid { low_part: 0, high_part: 0 }
}

fn spec(kind: &str) -> DeliverySpec {
    DeliverySpec {
        delivery_type: kind.to_string(),
        codec: None,
        bitrate_bps: None,
        fps: None,
        keyframe_interval_ms: None,
        hdr10: None,
        ltr_count: None,
        intra_refresh: None,
        intra_refresh_period: None,
        roi_enabled: None,
    }
}

fn options(kind: &str, delivery: Option<DeliverySpec>) -> CaptureOptionsJs {
    CaptureOptionsJs {
        source: SourceSpec {
            kind: kind.to_string(),
            monitor_handle: Some(0x51),
            hwnd: Some(0x52),
        },
        delivery,
        fps: None,
        include_cursor: None,
        border_required: None,
    }
}

#[test]
fn quick_start_options_are_understood() {
    let mut d = spec("encoded");
    d.codec = Some("h264".to_string());
    d.bitrate_bps = Some(8_000_000);
    d.fps = Some(60);
    d.keyframe_interval_ms = Some(2000);
    d.ltr_count = Some(4);
    d.intra_refresh = Some(true);
    let (mode, cfg) = parse_delivery(&Some(d));
    assert_eq!(mode, DeliveryMode::Encoded);
    let mut expected = EncoderConfig::default();
    expected.bitrate_bps = 8_000_000;
    expected.ltr_count = 4;
    expected.intra_refresh = true;
    assert_eq!(cfg, expected);
}

#[test]
fn delivery_has_defaults() {
    assert_eq!(parse_delivery(&None), (DeliveryMode::Raw, EncoderConfig::default()));
    assert_eq!(parse_delivery(&Some(spec("raw"))).0, DeliveryMode::Raw);
    assert_eq!(parse_delivery(&Some(spec("what"))).0, DeliveryMode::Raw);
    assert_eq!(parse_delivery(&Some(spec("cpu"))).0, DeliveryMode::Cpu);
    let (mode, cfg) = parse_delivery(&Some(spec("encoded")));
    assert_eq!(mode, DeliveryMode::Encoded);
    assert_eq!(cfg, EncoderConfig::default());
    assert_eq!((cfg.fps, cfg.bitrate_bps, cfg.keyframe_interval_ms), (60, 6_000_000, 2000));
    // Only encoded delivery reads the encoder options.
    let mut d = spec("cpu");
    d.fps = Some(30);
    assert_eq!(parse_delivery(&Some(d)).1.fps, 60);
}

#[test]
fn codecs_are_named() {
    let names = vec![
        ("hevc", VideoCodec::HEVC),
        ("av1", VideoCodec::AV1),
        ("h264", VideoCodec::H264),
        ("HEVC", VideoCodec::H264),
    ];
    for (name, codec) in names {
        let mut d = spec("encoded");
        d.codec = Some(name.to_string());
        assert_eq!(parse_delivery(&Some(d)).1.codec, codec);
    }
}

#[test]
fn displays_are_set_up() {
    let opts = options("display", None);
    let session = CaptureSession::new(&opts);
    assert_eq!(
        session.setup_event(&opts, &SessionEvent::DeviceCreated),
        Ok(SessionStep::QueryMonitor { handle: 0x51 }),
    );
    let rect = Edges { left: -1920, top: 0, right: 640, bottom: 1440 };
    assert_eq!(
        session.setup_event(&opts, &SessionEvent::MonitorRect(Some(rect))),
        Ok(SessionStep::CreatePool { slots: 4, desc: gpu_texture(2560, 1440, FORMAT_BGRA8) }),
    );
    assert_eq!(
        session.setup_event(&opts, &SessionEvent::MonitorRect(None)),
        Ok(SessionStep::CreatePool { slots: 4, desc: gpu_texture(1920, 1080, FORMAT_BGRA8) }),
    );
    assert_eq!(
        session.setup_event(&opts, &SessionEvent::PoolCreated),
        Ok(SessionStep::CaptureMonitor { handle: 0x51 }),
    );
}

#[test]
fn windows_are_set_up() {
    let opts = options("window", None);
    let session = CaptureSession::new(&opts);
    assert_eq!(
        session.setup_event(&opts, &SessionEvent::DeviceCreated),
        Ok(SessionStep::QueryWindow { handle: 0x52 }),
    );
    // A window without an extent still gets a texture.
    let rect = Edges { left: 10, top: 20, right: 10, bottom: 15 };
    assert_eq!(
        session.setup_event(&opts, &SessionEvent::WindowRect(Some(rect))),
        Ok(SessionStep::CreatePool { slots: 4, desc: gpu_texture(1, 1, FORMAT_BGRA8) }),
    );
    assert_eq!(
        session.setup_event(&opts, &SessionEvent::WindowRect(None)),
        Ok(SessionStep::CreatePool { slots: 4, desc: gpu_texture(1920, 1080, FORMAT_BGRA8) }),
    );
    assert_eq!(
        session.setup_event(&opts, &SessionEvent::PoolCreated),
        Ok(SessionStep::CaptureWindow { handle: 0x52 }),
    );
}

#[test]
fn unusable_sources_are_refused() {
    let mut opts = options("display", None);
    opts.source.monitor_handle = None;
    let session = CaptureSession::new(&opts);
    let e = session.setup_event(&opts, &SessionEvent::DeviceCreated).unwrap_err();
    assert_eq!(e, CaptureOptionError::MonitorHandleMissing);
    assert_eq!(e.reason(), "display source requires monitorHandle");

    let mut opts = options("window", None);
    opts.source.hwnd = None;
    let session = CaptureSession::new(&opts);
    let e = session.setup_event(&opts, &SessionEvent::PoolCreated).unwrap_err();
    assert_eq!(e.reason(), "window source requires hwnd");

    let opts = options("screen", None);
    let session = CaptureSession::new(&opts);
    assert!(session.setup_event(&opts, &SessionEvent::DeviceCreated).is_ok());
    let e = session.setup_event(&opts, &SessionEvent::PoolCreated).unwrap_err();
    assert_eq!(e, CaptureOptionError::UnknownKind);
    assert_eq!(e.reason(), "source.kind must be 'display' or 'window'");
}

#[test]
fn capture_options_follow_the_session() {
    let mut d = spec("encoded");
    d.hdr10 = Some(true);
    d.codec = Some("av1".to_string());
    let mut opts = options("display", Some(d));
    opts.include_cursor = Some(false);
    opts.border_required = Some(true);
    let session = CaptureSession::new(&opts);
    let wgc = session.capture_options(&opts);
    assert_eq!(
        (wgc.include_cursor, wgc.border_required, wgc.create_shared_handle),
        (false, true, false),
    );
    assert_eq!(wgc.pixel_format, PixelFormat::R16G16B16A16Float);
    assert_eq!(
        session.setup_event(&opts, &SessionEvent::MonitorRect(None)),
        Ok(SessionStep::CreatePool { slots: 4, desc: gpu_texture(1920, 1080, FORMAT_RGBA16F) }),
    );
    let opts = options("display", None);
    let wgc = CaptureSession::new(&opts).capture_options(&opts);
    assert_eq!((wgc.include_cursor, wgc.border_required), (true, false));
    assert_eq!(wgc.pixel_format, PixelFormat::B8G8R8A8UIntNormalized);
}

#[test]
fn sessions_start_and_stop_once() {
    let mut d = spec("encoded");
    d.fps = Some(30);
    let mut session = CaptureSession::new(&options("display", Some(d)));
    assert_eq!(session.stop(), SessionStop { source: false, encoder: false });
    assert_eq!(session.start(), Some(30));
    assert_eq!(session.start(), None);
    assert_eq!(session.stop(), SessionStop { source: true, encoder: false });
    assert_eq!(session.stop(), SessionStop { source: false, encoder: false });
    assert_eq!(session.start(), Some(30));
    let _ = run(&mut session, &frame(0), DONE);
    assert_eq!(session.stop(), SessionStop { source: true, encoder: true });
    let mut session = CaptureSession::new(&options("display", None));
    assert_eq!(session.start(), Some(0));
}

#[test]
fn devices_go_to_the_adapter_of_the_source() {
    let adapter = AdapterLuid { low_part: 7, high_part: -1 };
    let outputs = || vec![
        OutputRecord { monitor: 0x50, adapter: AdapterLuid { low_part: 9, high_part: 0 } },
        OutputRecord { monitor: 0x51, adapter },
    ];
    let opts = options("display", None);
    let session = CaptureSession::new(&opts);
    assert_eq!(
        session.setup_event(&opts, &SessionEvent::Begun),
        Ok(SessionStep::ListOutputs { monitor: 0x51 }),
    );
    let listed = SessionEvent::OutputsListed { monitor: 0x51, outputs: outputs() };
    assert_eq!(session.setup_event(&opts, &listed), Ok(SessionStep::CreateDevice { adapter }));
    let unlisted = SessionEvent::OutputsListed { monitor: 0x60, outputs: outputs() };
    assert_eq!(
        session.setup_event(&opts, &unlisted),
        Ok(SessionStep::CreateDevice { adapter: none() }),
    );
    let opts = options("window", None);
    let session = CaptureSession::new(&opts);
    assert_eq!(
        session.setup_event(&opts, &SessionEvent::Begun),
        Ok(SessionStep::FindMonitor { window: 0x52 }),
    );
    assert_eq!(
        session.setup_event(&opts, &SessionEvent::MonitorFound(Some(0x51))),
        Ok(SessionStep::ListOutputs { monitor: 0x51 }),
    );
    assert_eq!(
        session.setup_event(&opts, &SessionEvent::MonitorFound(None)),
        Ok(SessionStep::CreateDevice { adapter: none() }),
    );
    // What cannot be captured is refused later.
    let mut opts = options("display", None);
    opts.source.monitor_handle = None;
    assert_eq!(
        CaptureSession::new(&opts).setup_event(&opts, &SessionEvent::Begun),
        Ok(SessionStep::CreateDevice { adapter: none() }),
    );
}

#[test]
fn sessions_count() {
    let mut pool: FramePool<u32> = FramePool::new();
    assert!(pool.init(1, 0, false).is_ok());
    assert!(!pool.slot_created(0, None));
    let mut source = WgcSource::new(WgcOptions::default());
    source.item_created();
    assert!(source.start(0).is_ok());
    let mut session = CaptureSession::new(&options("display", None));
    session.unit_encoded();
    session.unit_encoded();
    // One frame is delivered, and holds the only slot.
    let ticket = source.begin_frame(&mut pool, 64, 32).unwrap();
    let captured = source.finish_frame(&mut pool, ticket, 1).unwrap();
    let number = run(&mut session, &captured, DONE);
    // One finds no slot, one cannot be read, and one is refused.
    assert!(source.begin_frame(&mut pool, 64, 32).is_none());
    source.skip_frame();
    let again = source.repeat_frame(&mut pool, captured.slot, 2).unwrap();
    let _ = run(&mut session, &again, FrameEvent::Failed { hr: None });
    let stats = session.get_stats(&source);
    assert_eq!(
        stats,
        CaptureStatsJs { delivered_frames: 1, dropped_frames: 3, encoded_units: 2 },
    );
    assert_eq!(stats.delivered_frames + stats.dropped_frames, source.captured_frames());
    assert_eq!(source.lost_frames(), 2);
    session.release_frame(&mut pool, number);
    assert_eq!(session.get_stats(&source), stats);
}

#[test]
fn released_frames_give_their_slot_back() {
    let mut pool: FramePool<u32> = FramePool::new();
    assert!(pool.init(2, 0, false).is_ok());
    assert!(pool.slot_created(0, None));
    assert!(!pool.slot_created(1, None));
    let mut session = CaptureSession::new(&options("display", None));
    let slot = pool.acquire().unwrap();
    let number = run(&mut session, &frame(slot), DONE);
    assert_eq!(pool.get_slot(slot).unwrap().refcount, 1);
    session.release_frame(&mut pool, number);
    assert_eq!(pool.get_slot(slot).unwrap().refcount, 0);
    assert_eq!(pool.acquire(), Some(slot));
    session.release_frame(&mut pool, number);
    assert_eq!(pool.get_slot(slot).unwrap().refcount, 1);
}

#[test]
fn finalized_pictures_free_their_texture() {
    let mut session = CaptureSession::new(&options("display", Some(spec("cpu"))));
    let number = run(&mut session, &frame(0), DONE);
    assert_eq!(session.pixels_finalized(number), Finalized::Recycle { staging: 0 });
    assert_eq!(session.pixels_finalized(number), Finalized::Discard);
}

#[test]
fn encoders_are_steered() {
    let mut session = CaptureSession::new(&options("display", Some(spec("encoded"))));
    let mut encoder: MfEncoder<u32> = MfEncoder::new();
    encoder.initialized(EncoderConfig::default(), true);
    session.request_keyframe(&mut encoder);
    assert!(!encoder.sample_tags(&FrameOptions::default()).clean_point);
    assert_eq!(session.set_bitrate(&encoder, 4_000_000), None);
    let _ = run(&mut session, &frame(0), DONE);
    session.request_keyframe(&mut encoder);
    assert!(encoder.sample_tags(&FrameOptions::default()).clean_point);
    let setting = session.set_bitrate(&encoder, 4_000_000).unwrap();
    assert_eq!(setting.key, CodecKey::MeanBitRate);
    assert_eq!(setting.value, CodecValue::U32(4_000_000));
}

#[test]
fn units_are_handed_on() {
    let p = encoded_payload(EncodedAccessUnit {
        data: vec![0, 0, 0, 1],
        timestamp_ns: 9,
        keyframe: true,
    });
    assert_eq!((p.data, p.timestamp_ns, p.keyframe), (vec![0, 0, 0, 1], 9, true));
}

#[test]
fn edges_are_measured() {
    assert_eq!(edge_distance(-5, 5), 10);
    assert_eq!(edge_distance(5, 4), u32::MAX);
    assert_eq!(edge_distance(i32::MIN, i32::MAX), u32::MAX);
}
