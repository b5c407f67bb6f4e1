use wincap::encoder_config::{EncoderConfig, VideoCodec};
use wincap::frame_job::{
    failure_report, gpu_texture, Delivery, DeliveryMode, Finalized, FrameAction, FrameEvent,
    FrameFailure, FrameJob, FORMAT_BGRA8, FORMAT_NV12, FORMAT_P010,
};
use wincap::capture_session::frame_payload;
use wincap::mf_encoder::MfEncoder;
use wincap::video_processor::ColorSpace;
use wincap::wgc_source::{CapturedFrame, DirtyRect};

const DONE: FrameEvent = FrameEvent::Finished { value: 0 };

const REFUSED: FrameEvent = FrameEvent::Failed { hr: None };

fn frame(slot: u32, width: u32, height: u32) -> CapturedFrame {
    CapturedFrame {
        slot,
        width,
        height,
        timestamp_ns: 777,
        size_changed: true,
        dirty_rects: Vec::new(),
    }
}

/// Runs a job to its end, every call succeeding, and returns what it asked for.
fn run(d: &mut Delivery, frame: &CapturedFrame, answer: FrameEvent) -> (Vec<FrameAction>, FrameJob) {
    let (mut job, mut action) = d.begin(frame);
    let mut actions = vec![action];
    while action != FrameAction::Done {
        action = d.advance(&mut job, answer);
        actions.push(action);
    }
    (actions, job)
}

#[test]
fn raw_frames_hold_their_slot_until_released() {
    let mut d = Delivery::new(DeliveryMode::Raw, EncoderConfig::default());
    let (actions, job) = run(&mut d, &frame(3, 64, 32), DONE);
    assert_eq!(actions, vec![FrameAction::SendRaw, FrameAction::Done]);
    assert_eq!((d.delivered_frames(), d.dropped_frames()), (1, 0));
    let p = frame_payload(&job, false);
    assert_eq!((p.width, p.height, p.timestamp_ns), (64, 32, 777));
    assert_eq!((p.format, p.stride, p.bytes, p.size_changed), ("bgra8", 0, 0, true));
    // A second frame in the same slot has a number of its own.
    let (_, again) = run(&mut d, &frame(3, 64, 32), DONE);
    assert_ne!(again.number(), p.number);
    assert_eq!(d.release_frame(p.number), Some(3));
    assert_eq!(d.release_frame(p.number), None);
    assert_eq!(d.release_frame(again.number()), Some(3));
    assert_eq!(d.release_frame(99), None);
}

#[test]
fn refused_raw_frames_are_dropped() {
    let mut d = Delivery::new(DeliveryMode::Raw, EncoderConfig::default());
    let (actions, job) = run(&mut d, &frame(3, 64, 32), REFUSED);
    assert_eq!(
        actions,
        vec![FrameAction::SendRaw, FrameAction::ReleaseSlot { slot: 3 }, FrameAction::Done],
    );
    assert_eq!((d.delivered_frames(), d.dropped_frames()), (0, 1));
    assert_eq!(d.release_frame(job.number()), None);
    // A frame that was released before its hand-over failed gives nothing back again.
    let (mut job, _) = d.begin(&frame(2, 64, 32));
    assert_eq!(d.release_frame(job.number()), Some(2));
    assert_eq!(d.advance(&mut job, REFUSED), FrameAction::Done);
    assert_eq!((d.delivered_frames(), d.dropped_frames()), (0, 2));
}

#[test]
fn pictures_are_handed_over_in_mapped_memory() {
    let mut d = Delivery::new(DeliveryMode::Cpu, EncoderConfig::default());
    let (actions, job) = run(&mut d, &frame(1, 64, 32), FrameEvent::Finished { value: 256 });
    let FrameAction::CreateStaging { first, desc } = actions[0] else { panic!("no texture") };
    assert!(first);
    assert_eq!((desc.width, desc.height, desc.format), (64, 32, FORMAT_BGRA8));
    assert_eq!((desc.usage, desc.bind_flags, desc.cpu_access), (3, 0, 0x20000));
    let more = FrameAction::CreateStaging { first: false, desc };
    assert_eq!(
        actions[1..],
        vec![
            more,
            more,
            more,
            FrameAction::CopyToStaging { staging: 0 },
            FrameAction::ReleaseSlot { slot: 1 },
            FrameAction::PollCopy { staging: 0 },
            FrameAction::MapStaging { staging: 0 },
            FrameAction::SendPixels { staging: 0, stride: 256, bytes: 8192 },
            FrameAction::Done,
        ],
    );
    assert_eq!((d.delivered_frames(), d.dropped_frames()), (1, 0));
    let p = frame_payload(&job, true);
    assert_eq!((p.stride, p.bytes, p.number), (256, 8192, job.number()));
    assert_eq!(d.pixels_finalized(p.number), Finalized::Recycle { staging: 0 });
    assert_eq!(d.pixels_finalized(p.number), Finalized::Discard);
}

#[test]
fn large_pictures_have_their_length() {
    let mut d = Delivery::new(DeliveryMode::Cpu, EncoderConfig::default());
    let (_, job) = run(&mut d, &frame(1, 64, u32::MAX), FrameEvent::Finished { value: u32::MAX });
    assert_eq!(frame_payload(&job, true).bytes, u32::MAX as u64 * u32::MAX as u64);
}

/// The staging texture to which a frame is copied.
fn copied_to(actions: &[FrameAction]) -> Option<u32> {
    actions.iter().find_map(|action| match action {
        FrameAction::CopyToStaging { staging } => Some(*staging),
        _ => None,
    })
}

#[test]
fn staging_textures_take_turns() {
    let mut d = Delivery::new(DeliveryMode::Cpu, EncoderConfig::default());
    let mut used = Vec::new();
    for _ in 0..6 {
        let (actions, job) = run(&mut d, &frame(0, 16, 16), FrameEvent::Finished { value: 64 });
        let staging = copied_to(&actions).unwrap();
        used.push(staging);
        assert_eq!(d.pixels_finalized(job.number()), Finalized::Recycle { staging });
    }
    assert_eq!(used, vec![0, 1, 2, 3, 0, 1]);
    assert_eq!(d.delivered_frames(), 6);
}

#[test]
fn textures_that_are_out_are_not_used_again() {
    let mut d = Delivery::new(DeliveryMode::Cpu, EncoderConfig::default());
    let size = frame(5, 16, 16);
    let numbers: Vec<u64> = (0..4).map(|_| run(&mut d, &size, DONE).1.number()).collect();
    // With all four out the next frame is dropped, and its slot goes back.
    let (actions, _) = run(&mut d, &size, DONE);
    assert_eq!(actions, vec![FrameAction::ReleaseSlot { slot: 5 }, FrameAction::Done]);
    assert_eq!((d.delivered_frames(), d.dropped_frames()), (4, 1));
    // Only the texture that came back is used, wherever the turn stands.
    assert_eq!(d.pixels_finalized(numbers[2]), Finalized::Recycle { staging: 2 });
    assert_eq!(copied_to(&run(&mut d, &size, DONE).0), Some(2));
    assert_eq!(copied_to(&run(&mut d, &size, DONE).0), None);
    // A picture whose textures were replaced lets its texture go.
    let (actions, _) = run(&mut d, &frame(5, 8, 8), DONE);
    assert_eq!(copied_to(&actions), Some(0));
    assert_eq!(d.pixels_finalized(numbers[0]), Finalized::Discard);
}

#[test]
fn refused_pictures_are_unmapped() {
    let mut d = Delivery::new(DeliveryMode::Cpu, EncoderConfig::default());
    let _ = run(&mut d, &frame(0, 16, 16), DONE);
    let (mut job, _) = d.begin(&frame(0, 16, 16));
    let sent = FrameAction::SendPixels { staging: 1, stride: 64, bytes: 1024 };
    let mut action = FrameAction::Done;
    for _ in 0..4 {
        action = d.advance(&mut job, FrameEvent::Finished { value: 64 });
    }
    assert_eq!(action, sent);
    assert_eq!(d.advance(&mut job, REFUSED), FrameAction::UnmapStaging { staging: 1 });
    assert_eq!(d.advance(&mut job, DONE), FrameAction::Done);
    assert_eq!((d.delivered_frames(), d.dropped_frames()), (1, 1));
    assert_eq!(d.pixels_finalized(job.number()), Finalized::Discard);
}

#[test]
fn copies_are_waited_for() {
    let mut d = Delivery::new(DeliveryMode::Cpu, EncoderConfig::default());
    let _ = run(&mut d, &frame(0, 16, 16), DONE);
    let (mut job, action) = d.begin(&frame(0, 16, 16));
    assert_eq!(action, FrameAction::CopyToStaging { staging: 1 });
    let _ = d.advance(&mut job, DONE);
    assert_eq!(d.advance(&mut job, DONE), FrameAction::PollCopy { staging: 1 });
    for _ in 0..5 {
        let again = d.advance(&mut job, FrameEvent::Pending);
        assert_eq!(again, FrameAction::PollCopy { staging: 1 });
    }
    assert_eq!(d.advance(&mut job, DONE), FrameAction::MapStaging { staging: 1 });
    let action = d.advance(&mut job, FrameEvent::Failed { hr: Some(-9) });
    assert_eq!(action, FrameAction::Report { failure: FrameFailure::MapStaging, hr: Some(-9) });
    // The slot went back before, and nothing was delivered.
    assert_eq!(d.advance(&mut job, DONE), FrameAction::Done);
    assert_eq!((d.delivered_frames(), d.dropped_frames()), (1, 1));
    assert_eq!(d.pixels_finalized(job.number()), Finalized::Discard);
}

#[test]
fn missing_staging_textures_are_reported() {
    let mut d = Delivery::new(DeliveryMode::Cpu, EncoderConfig::default());
    let (mut job, _) = d.begin(&frame(2, 16, 16));
    let action = d.advance(&mut job, FrameEvent::Failed { hr: None });
    assert_eq!(action, FrameAction::Report { failure: FrameFailure::StagingTexture, hr: None });
    assert_eq!(d.advance(&mut job, DONE), FrameAction::ReleaseSlot { slot: 2 });
    assert_eq!(d.advance(&mut job, DONE), FrameAction::Done);
    assert_eq!(d.delivered_frames(), 0);
    // The next frame tries again.
    assert!(d.accepts_size(16, 16));
    let (actions, _) = run(&mut d, &frame(2, 16, 16), DONE);
    assert_eq!(actions.len(), 10);
}

#[test]
fn frames_of_no_size_have_nowhere_to_go() {
    let d = Delivery::new(DeliveryMode::Cpu, EncoderConfig::default());
    assert!(!d.accepts_size(0, 0));
    assert!(d.accepts_size(1, 0));
    let d = Delivery::new(DeliveryMode::Encoded, EncoderConfig::default());
    assert!(!d.accepts_size(0, 0));
    let d = Delivery::new(DeliveryMode::Raw, EncoderConfig::default());
    assert!(d.accepts_size(0, 0));
}

#[test]
fn video_is_encoded() {
    let mut cfg = EncoderConfig::default();
    cfg.bitrate_bps = 123;
    let mut d = Delivery::new(DeliveryMode::Encoded, cfg);
    let (actions, _) = run(&mut d, &frame(0, 640, 480), DONE);
    let mut sized = cfg;
    sized.width = 640;
    sized.height = 480;
    assert_eq!(
        actions,
        vec![
            FrameAction::CreateProcessor { width: 640, height: 480, color: ColorSpace::Rec709Sdr },
            FrameAction::CreateNv12(gpu_texture(640, 480, FORMAT_NV12)),
            FrameAction::CreateEncoder,
            FrameAction::InitializeEncoder(sized),
            FrameAction::StartEncoder,
            FrameAction::Convert,
            FrameAction::Encode { timestamp_ns: 777 },
            FrameAction::ReleaseSlot { slot: 0 },
            FrameAction::Done,
        ],
    );
    // A second frame of the same size goes straight through.
    let (actions, _) = run(&mut d, &frame(1, 640, 480), DONE);
    assert_eq!(actions.len(), 4);
    assert_eq!(actions[0], FrameAction::Convert);
    // Another size stops the encoder and sets up a new one.
    let (actions, _) = run(&mut d, &frame(1, 320, 240), DONE);
    assert_eq!(actions[0], FrameAction::StopEncoder);
    assert_eq!(actions.len(), 10);
    assert_eq!(d.delivered_frames(), 3);
    assert!(d.has_encoder());
}

#[test]
fn hdr_video_takes_its_own_path() {
    let mut cfg = EncoderConfig::default();
    cfg.codec = VideoCodec::HEVC;
    cfg.hdr10 = true;
    let mut d = Delivery::new(DeliveryMode::Encoded, cfg);
    let (actions, _) = run(&mut d, &frame(0, 64, 64), DONE);
    assert_eq!(
        actions[0],
        FrameAction::CreateProcessor { width: 64, height: 64, color: ColorSpace::Rec2020Pq },
    );
    let texture = gpu_texture(64, 64, FORMAT_P010);
    assert_eq!(actions[1], FrameAction::CreateNv12(texture));
    assert_eq!((texture.usage, texture.bind_flags, texture.cpu_access), (0, 0x28, 0));
}

#[test]
fn a_failed_encoder_is_not_tried_again() {
    // Every call of the set-up can fail.
    for failing in 0..5usize {
        let mut d = Delivery::new(DeliveryMode::Encoded, EncoderConfig::default());
        let (mut job, _) = d.begin(&frame(7, 640, 480));
        for _ in 0..failing {
            let _ = d.advance(&mut job, DONE);
        }
        let failure = match failing {
            0 => FrameFailure::Processor,
            1 => FrameFailure::Nv12Texture,
            _ => FrameFailure::Encoder,
        };
        let action = d.advance(&mut job, FrameEvent::Failed { hr: Some(-1) });
        assert_eq!(action, FrameAction::Report { failure, hr: Some(-1) });
        assert!(!d.has_encoder());
        assert_eq!(d.advance(&mut job, DONE), FrameAction::ReleaseSlot { slot: 7 });
        assert_eq!(d.advance(&mut job, DONE), FrameAction::Done);
        let (actions, _) = run(&mut d, &frame(5, 640, 480), DONE);
        assert_eq!(actions, vec![FrameAction::ReleaseSlot { slot: 5 }, FrameAction::Done]);
        assert_eq!((d.delivered_frames(), d.dropped_frames()), (0, 2));
    }
}

#[test]
fn a_failed_conversion_loses_one_frame() {
    let mut d = Delivery::new(DeliveryMode::Encoded, EncoderConfig::default());
    let _ = run(&mut d, &frame(0, 64, 64), DONE);
    let (mut job, action) = d.begin(&frame(1, 64, 64));
    assert_eq!(action, FrameAction::Convert);
    let action = d.advance(&mut job, FrameEvent::Failed { hr: Some(4) });
    assert_eq!(action, FrameAction::Report { failure: FrameFailure::Processor, hr: Some(4) });
    assert_eq!(d.advance(&mut job, DONE), FrameAction::ReleaseSlot { slot: 1 });
    assert_eq!(d.advance(&mut job, DONE), FrameAction::Done);
    assert_eq!((d.delivered_frames(), d.dropped_frames()), (1, 1));
    assert!(d.has_encoder());
}

#[test]
fn changed_rectangles_become_regions_of_interest() {
    let mut cfg = EncoderConfig::default();
    cfg.roi_enabled = true;
    let mut changed = frame(0, 64, 64);
    changed.dirty_rects = vec![
        DirtyRect { left: 1, top: 2, right: 3, bottom: 4 },
        DirtyRect { left: -5, top: 6, right: 7, bottom: 8 },
    ];
    let mut encoder: MfEncoder<u32> = MfEncoder::new();
    encoder.initialized(cfg, true);
    let (job, _) = Delivery::new(DeliveryMode::Encoded, cfg).begin(&changed);
    // An encoder that does not run takes nothing.
    assert_eq!(job.submit(&mut encoder, 9), REFUSED);
    assert!(encoder.start().is_ok());
    assert_eq!(job.submit(&mut encoder, 9), DONE);
    let input = encoder.next_input().unwrap();
    assert_eq!((input.tex, input.time_hns), (9, 7));
    assert_eq!(input.opts.roi_rects, vec![1, 2, 3, 4, -5, 6, 7, 8]);
    assert_eq!((input.opts.mark_ltr, input.opts.use_ltr), (-1, -1));
    assert!(encoder.next_input().is_none());
    // Without the option the rectangles stay behind.
    let (job, _) = Delivery::new(DeliveryMode::Encoded, EncoderConfig::default()).begin(&changed);
    assert_eq!(job.submit(&mut encoder, 8), DONE);
    assert!(encoder.next_input().unwrap().opts.roi_rects.is_empty());
}

#[test]
fn a_stopped_encoder_drops_frames() {
    let mut d = Delivery::new(DeliveryMode::Encoded, EncoderConfig::default());
    let (mut job, mut action) = d.begin(&frame(0, 64, 64));
    while !matches!(action, FrameAction::Encode { .. }) {
        action = d.advance(&mut job, DONE);
    }
    assert_eq!(d.advance(&mut job, REFUSED), FrameAction::ReleaseSlot { slot: 0 });
    assert_eq!(d.advance(&mut job, DONE), FrameAction::Done);
    assert_eq!((d.delivered_frames(), d.dropped_frames()), (0, 1));
}

#[test]
fn every_frame_is_counted_and_its_slot_given_back_once() {
    // All ways for the first calls of a job to go.
    let modes = vec![DeliveryMode::Raw, DeliveryMode::Cpu, DeliveryMode::Encoded];
    for mode in modes {
        for bits in 0..512u32 {
            let mut d = Delivery::new(mode, EncoderConfig::default());
            let (mut job, mut action) = d.begin(&frame(6, 8, 8));
            let mut released = 0;
            let mut taken = 0u64;
            let mut turn = 0;
            while action != FrameAction::Done {
                let event = if turn < 9 && bits >> turn & 1 == 1 {
                    FrameEvent::Failed { hr: Some(-1) }
                } else {
                    DONE
                };
                match action {
                    FrameAction::ReleaseSlot { slot } => {
                        assert_eq!(slot, 6);
                        released += 1;
                    }
                    FrameAction::SendRaw
                    | FrameAction::SendPixels { .. }
                    | FrameAction::Encode { .. } => taken += (event == DONE) as u64,
                    _ => {}
                }
                action = d.advance(&mut job, event);
                turn += 1;
                assert!(turn < 40);
            }
            if let Some(slot) = d.release_frame(job.number()) {
                assert_eq!((mode, slot), (DeliveryMode::Raw, 6));
                released += 1;
            }
            assert_eq!(released, 1);
            assert_eq!((d.delivered_frames(), d.dropped_frames()), (taken, 1 - taken));
        }
    }
}

#[test]
fn failures_are_reported_in_words() {
    let cases = vec![
        (FrameFailure::StagingTexture, "capture_session", -5, "failed to create staging texture"),
        (FrameFailure::MapStaging, "capture_session", -5, "Map staging texture failed"),
        (FrameFailure::Nv12Texture, "capture_session", -5, "failed to create NV12 texture"),
        (FrameFailure::Processor, "video_processor", 0, "words"),
        (FrameFailure::Encoder, "mf_encoder", 0, "words"),
    ];
    for (failure, component, code, message) in cases {
        let p = failure_report(failure, Some(-5), "words");
        assert_eq!(
            (p.component.as_str(), p.hresult, p.message.as_str()),
            (component, code, message),
        );
        assert_eq!(failure_report(failure, None, "words").hresult, 0);
    }
}
