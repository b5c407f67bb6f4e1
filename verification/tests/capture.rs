use wincap::frame_pool::FramePool;
use wincap::wgc_source::{
    idle_interval_ms, CapturedFrame, IdleRepeat, PixelFormat, StartEvent, StartStep, StopStep,
    TearDown, WgcOptions, WgcSource, CAPTURE_BUFFERS,
};
use wincap::error::WincapError;

fn filled(count: u32) -> FramePool<u32> {
    let mut pool = FramePool::new();
    assert!(pool.init(count, 0, false).is_ok());
    for i in 0..count {
        assert_eq!(pool.slot_created(i, None), i + 1 < count);
    }
    pool
}

fn started(fps: u32) -> WgcSource {
    let mut source = WgcSource::new(WgcOptions::default());
    source.item_created();
    assert_eq!(source.start(fps).ok(), Some(StartStep::QuerySize));
    let format = PixelFormat::B8G8R8A8UIntNormalized;
    assert_eq!(
        source.start_event(StartEvent::Size { width: 640, height: 480 }),
        StartStep::CreatePool { width: 640, height: 480, buffers: CAPTURE_BUFFERS, format },
    );
    assert_eq!(
        source.start_event(StartEvent::PoolReady { width: 640, height: 480 }),
        StartStep::RegisterFrameArrived,
    );
    assert_eq!(
        source.start_event(StartEvent::FrameArrivedRegistered),
        StartStep::RegisterClosed,
    );
    assert_eq!(source.start_event(StartEvent::ClosedRegistered), StartStep::CreateSession);
    assert_eq!(
        source.start_event(StartEvent::SessionCreated),
        StartStep::StartCapture { include_cursor: true, border_required: false },
    );
    let step = source.start_event(StartEvent::CaptureStarted);
    if fps > 0 {
        assert_eq!(step, StartStep::SpawnIdleRepeat);
        assert_eq!(source.start_event(StartEvent::IdleRepeatSpawned), StartStep::Started);
    } else {
        assert_eq!(step, StartStep::Started);
    }
    source
}

fn capture(source: &mut WgcSource, pool: &mut FramePool<u32>, span: i64) -> CapturedFrame {
    let ticket = source.begin_frame(pool, 640, 480).unwrap();
    source.finish_frame(pool, ticket, span).unwrap()
}

#[test]
fn handles_are_checked() {
    let source = WgcSource::new(WgcOptions::default());
    assert!(source.init_for_monitor(0x1234, true).is_ok());
    assert_eq!(
        source.init_for_monitor(0, true).unwrap_err().to_string(),
        "wgc_source: null monitor handle",
    );
    assert_eq!(
        source.init_for_monitor(0x1f04, false).unwrap_err().to_string(),
        "wgc_source: invalid or disconnected monitor handle (0x1f04) \u{2014} the display may have been unplugged",
    );
    assert!(source.init_for_window(5, true).is_ok());
    assert_eq!(
        source.init_for_window(0, false).unwrap_err().to_string(),
        "wgc_source: null window handle",
    );
    assert_eq!(
        source.init_for_window(0xabc, false).unwrap_err().to_string(),
        "wgc_source: window handle (0xabc) is no longer valid \u{2014} the window may have been closed",
    );
}

#[test]
fn sources_start_and_stop() {
    let mut pool = filled(2);
    let mut source = started(60);
    assert_eq!((source.width(), source.height()), (640, 480));
    assert_eq!(source.start(30).ok(), Some(StartStep::AlreadyRunning));
    assert_eq!(source.target_fps(), 60);
    assert_eq!(source.stop(), StopStep::JoinIdleRepeat);
    assert_eq!(
        source.tear_down(&mut pool),
        TearDown {
            remove_frame_arrived: true,
            remove_closed: true,
            close_session: true,
            close_pool: true,
        },
    );
    assert_eq!(source.stop(), StopStep::NotRunning);
    let mut source = started(0);
    assert_eq!(source.stop(), StopStep::TearDown);
}

#[test]
fn sources_need_an_item() {
    let mut source = WgcSource::new(WgcOptions::default());
    let e = source.start(0).unwrap_err();
    assert_eq!(e.to_string(), "wgc_source: capture item not initialised");
    assert!(source.is_running());
}

#[test]
fn a_second_start_recreates_the_pool() {
    let mut source = started(0);
    let format = PixelFormat::B8G8R8A8UIntNormalized;
    assert_eq!(
        source.start_event(StartEvent::Size { width: 8, height: 9 }),
        StartStep::RecreatePool { width: 8, height: 9, buffers: 3, format },
    );
}

#[test]
fn frames_are_handed_on_and_retained() {
    let mut pool = filled(2);
    let mut source = started(0);
    let first = capture(&mut source, &mut pool, 1000);
    assert_eq!((first.slot, first.timestamp_ns), (0, 100_000));
    assert!(!first.size_changed);
    assert!(first.dirty_rects.is_empty());
    pool.release(first.slot);
    // The first slot is still retained for the idle repeat.
    let second = capture(&mut source, &mut pool, 2000);
    assert_eq!(second.slot, 1);
    pool.release(second.slot);
    // The second frame let the first slot go.
    let third = capture(&mut source, &mut pool, 3000);
    assert_eq!(third.slot, 0);
    assert_eq!((source.captured_frames(), source.lost_frames()), (3, 0));
}

#[test]
fn frames_are_dropped_when_all_slots_are_held() {
    let mut pool = filled(1);
    let mut source = started(0);
    let frame = capture(&mut source, &mut pool, 0);
    assert!(source.begin_frame(&mut pool, 100, 50).is_none());
    assert_eq!((source.width(), source.height()), (100, 50));
    pool.release(frame.slot);
    assert!(source.begin_frame(&mut pool, 100, 50).is_none());
    assert_eq!(source.stop(), StopStep::TearDown);
    let _ = source.tear_down(&mut pool);
    assert_eq!((source.captured_frames(), source.lost_frames()), (3, 2));
    assert_eq!(pool.acquire(), Some(0));
}

#[test]
fn size_changes_are_told_once() {
    let mut pool = filled(4);
    let mut source = started(0);
    let ticket = source.begin_frame(&mut pool, 800, 600).unwrap();
    assert!(ticket.size_changed);
    assert_eq!((ticket.width, ticket.height), (800, 600));
    let ticket = source.begin_frame(&mut pool, 800, 600).unwrap();
    assert!(!ticket.size_changed);
}

#[test]
fn abandoned_frames_give_their_slot_back() {
    let mut pool = filled(1);
    let mut source = started(0);
    let ticket = source.begin_frame(&mut pool, 640, 480).unwrap();
    source.abandon_frame(&mut pool, ticket);
    assert_eq!(pool.acquire(), Some(0));
    assert_eq!((source.captured_frames(), source.lost_frames()), (1, 1));
    source.skip_frame();
    assert_eq!((source.captured_frames(), source.lost_frames()), (2, 2));
}

#[test]
fn still_screens_are_repeated() {
    let mut pool = filled(2);
    let mut source = started(50);
    let mut idle = IdleRepeat::new();
    let ms = 1_000_000u64;
    // No frame yet: nothing to repeat, however long it takes.
    assert_eq!(source.idle_tick(&mut idle, 50, 0, &pool), None);
    assert_eq!(source.idle_tick(&mut idle, 50, 100 * ms, &pool), None);
    let frame = capture(&mut source, &mut pool, 0);
    pool.release(frame.slot);
    assert_eq!(source.idle_tick(&mut idle, 50, 120 * ms, &pool), None);
    assert_eq!(source.idle_tick(&mut idle, 50, 140 * ms, &pool), None);
    assert_eq!(source.idle_tick(&mut idle, 50, 179 * ms, &pool), None);
    assert_eq!(source.idle_tick(&mut idle, 50, 180 * ms, &pool), Some(0));
    let again = source.repeat_frame(&mut pool, 0, 180 * ms).unwrap();
    assert_eq!((again.slot, again.width, again.height), (0, 640, 480));
    assert_eq!(again.timestamp_ns, 180 * ms);
    assert_eq!((source.captured_frames(), source.lost_frames()), (2, 0));
    pool.release(again.slot);
    assert_eq!(pool.get_slot(0).unwrap().refcount, 1);
    assert_eq!(source.idle_tick(&mut idle, 50, 181 * ms, &pool), Some(0));
}

#[test]
fn idle_interval_follows_the_rate() {
    assert_eq!(idle_interval_ms(60), 16);
    assert_eq!(idle_interval_ms(1), 1000);
    assert_eq!(idle_interval_ms(1000), 1);
    assert_eq!(idle_interval_ms(5000), 1);
}

#[test]
fn reports_need_a_consumer() {
    let mut pool = filled(1);
    let mut source = started(0);
    let p = source.item_closed().unwrap();
    assert_eq!(
        (p.component.as_str(), p.hresult, p.message.as_str()),
        ("wgc_source", 0, "capture item closed"),
    );
    let e = WincapError::hresult("wgc_source", -3, "frame.Surface");
    let p = source.frame_failed(&e).unwrap();
    assert_eq!((p.hresult, p.message.as_str()), (-3, "frame.Surface"));
    let _ = source.stop();
    let _ = source.tear_down(&mut pool);
    // Until everything is gone the consumer still hears of it.
    assert!(source.item_closed().is_some());
    source.stopped();
    assert!(source.item_closed().is_none());
    assert!(source.frame_failed(&e).is_none());
    let ticket = source.begin_frame(&mut pool, 640, 480).unwrap();
    assert!(source.finish_frame(&mut pool, ticket, 0).is_none());
    assert_eq!((source.captured_frames(), source.lost_frames()), (1, 1));
}
