//! A capture session: what its options mean, what it sets up in which order, and
//! what starting, stopping and steering it asks for.

use vstd::prelude::*;

use crate::encoder_config::{
    attr32, default_config, hdr_part, output_type_of, CodecKey, CodecSetting, CodecValue,
    EncoderConfig, MediaKey, VideoCodec, PRIMARIES_BT2020, TRANSFER_PQ,
};
use crate::d3d_device::{
    adapter_from, is_picked, law_preferred_adapter_shows_the_monitor, no_adapter,
    preferred_adapter, AdapterChoice, AdapterLuid, AdapterRecord, OutputRecord,
};
use crate::error::unsigned_code;
use crate::frame_job::{
    encoder_color, encoder_format, first_turn, gpu_desc, gpu_texture, in_step, job_of, next_turn,
    picture_bytes, place_of, Delivery, DeliveryMode, DeliveryModel, Finalized, FrameAction,
    FrameEvent, FrameJob, FramePhase, JobModel, TextureDesc, Turn, FORMAT_BGRA8, FORMAT_P010,
    FORMAT_RGBA16F,
};
use crate::frame_laws::{after, law_every_frame_counts_once, RunEvent};
use crate::frame_pool::{release_at, FramePool};
use crate::mf_encoder::{EncodedAccessUnit, MfEncoder};
use crate::text::same_text;
use crate::video_processor::{ColorSpace, Edges};
use crate::wgc_source::{
    after_start_events, counts_after, law_capture_begins_as_asked,
    law_captured_frames_are_handed_on_or_lost, CaptureOutcome, CapturedFrame, PixelFormat,
    SourceState, StartEvent, StartStep, WgcOptions, WgcSource,
};
use crate::work_laws::{law_encoder_is_initialized_as_asked, law_work_fits_the_frame};

verus! {

/// What to capture.
#[derive(Debug)]
pub struct SourceSpec {
    /// "display" or "window".
    pub kind: String,
    pub monitor_handle: Option<u64>,
    pub hwnd: Option<u64>,
}

/// How to deliver.
#[derive(Debug)]
pub struct DeliverySpec {
    /// "encoded", "cpu" or "raw".
    pub delivery_type: String,
    /// "h264", "hevc" or "av1".
    pub codec: Option<String>,
    pub bitrate_bps: Option<u32>,
    pub fps: Option<u32>,
    pub keyframe_interval_ms: Option<u32>,
    pub hdr10: Option<bool>,
    pub ltr_count: Option<u32>,
    pub intra_refresh: Option<bool>,
    pub intra_refresh_period: Option<u32>,
    pub roi_enabled: Option<bool>,
}

/// The options of a capture session.
#[derive(Debug)]
pub struct CaptureOptionsJs {
    pub source: SourceSpec,
    pub delivery: Option<DeliverySpec>,
    pub fps: Option<u32>,
    pub include_cursor: Option<bool>,
    pub border_required: Option<bool>,
}

/// What a capture session has done so far.
#[derive(Debug, Clone, Copy, PartialEq, Eq, Structural)]
pub struct CaptureStatsJs {
    pub delivered_frames: u64,
    pub dropped_frames: u64,
    pub encoded_units: u64,
}

/// What is wrong with the options of a capture session.
#[derive(Debug, Clone, Copy, PartialEq, Eq, Structural)]
pub enum CaptureOptionError {
    MonitorHandleMissing,
    HwndMissing,
    UnknownKind,
}

/// A frame as it is handed to the consumer.
#[derive(Debug, Clone, Copy)]
pub struct FramePayload {
    /// The number with which the consumer releases a frame without a picture, and the
    /// buffer around a picture is finalized.
    pub number: u64,
    pub timestamp_ns: u64,
    pub width: u32,
    pub height: u32,
    pub format: &'static str,
    pub size_changed: bool,
    /// The length of a row of the picture in bytes; 0 without a picture.
    pub stride: u32,
    /// The length of the picture in bytes, in the mapped memory; 0 without a picture.
    pub bytes: u64,
}

/// Encoded video as it is handed to the consumer.
#[derive(Debug)]
pub struct EncodedPayload {
    pub data: Vec<u8>,
    pub timestamp_ns: u64,
    pub keyframe: bool,
}

/// The number of slots of the frame pool of a session.
pub const POOL_SLOTS: u32 = 4;

/// The size of the pool textures where the size of the source is not known.
pub const FALLBACK_WIDTH: u32 = 1920;

/// The size of the pool textures where the size of the source is not known.
pub const FALLBACK_HEIGHT: u32 = 1080;

/// What setting up a session does next.
#[derive(Debug, Clone, Copy, PartialEq, Eq, Structural)]
pub enum SessionStep {
    /// Ask which monitor shows a window.
    FindMonitor { window: u64 },
    /// List the outputs of the adapters, for the one that shows a monitor.
    ListOutputs { monitor: u64 },
    /// Create the device, on that adapter if it is there.
    CreateDevice { adapter: AdapterLuid },
    /// Ask for the rectangle of a monitor.
    QueryMonitor { handle: u64 },
    /// Ask for the rectangle of a window.
    QueryWindow { handle: u64 },
    /// Create the frame pool.
    CreatePool { slots: u32, desc: TextureDesc },
    /// Make a capture source of a monitor.
    CaptureMonitor { handle: u64 },
    /// Make a capture source of a window.
    CaptureWindow { handle: u64 },
}

/// What has been done of setting up a session.
#[derive(Debug)]
pub enum SessionEvent {
    /// Nothing yet.
    Begun,
    /// The monitor that shows the window, if one does.
    MonitorFound(Option<u64>),
    OutputsListed { monitor: u64, outputs: Vec<OutputRecord> },
    DeviceCreated,
    /// The rectangle of the monitor, if the system told it.
    MonitorRect(Option<Edges>),
    /// The rectangle of the window, if the system told it.
    WindowRect(Option<Edges>),
    PoolCreated,
}

/// What to stop when a session is stopped.
#[derive(Debug, Clone, Copy, PartialEq, Eq, Structural)]
pub struct SessionStop {
    pub source: bool,
    pub encoder: bool,
}

/// A capture session.
#[derive(Debug)]
pub struct CaptureSession {
    delivery: Delivery,
    running: bool,
    encoded_units: u64,
}

/// The contents of a `CaptureSession` as mathematical values.
#[verifier::ext_equal]
pub struct SessionModel {
    pub delivery: DeliveryModel,
    pub running: bool,
    pub encoded_units: u64,
}

impl View for CaptureSession {
    type V = SessionModel;

    closed spec fn view(&self) -> SessionModel {
        SessionModel {
            delivery: self.delivery@,
            running: self.running,
            encoded_units: self.encoded_units,
        }
    }
}

impl CaptureOptionError {
    /// The error in words.
    pub open spec fn text(self) -> Seq<char> {
        match self {
            CaptureOptionError::MonitorHandleMissing => "display source requires monitorHandle"@,
            CaptureOptionError::HwndMissing => "window source requires hwnd"@,
            CaptureOptionError::UnknownKind => "source.kind must be 'display' or 'window'"@,
        }
    }

    /// The error in words.
    pub fn reason(&self) -> (text: &'static str)
        ensures
            text@ == self.text(),
    {
        match self {
            CaptureOptionError::MonitorHandleMissing => "display source requires monitorHandle",
            CaptureOptionError::HwndMissing => "window source requires hwnd",
            CaptureOptionError::UnknownKind => "source.kind must be 'display' or 'window'",
        }
    }
}

/// A value, or a default where there is none.
pub open spec fn value_or<A>(value: Option<A>, default: A) -> A {
    match value {
        Some(v) => v,
        None => default,
    }
}

/// The codec of a name; H.264 where the name is missing or unknown.
pub open spec fn codec_named(name: Option<Seq<char>>) -> VideoCodec {
    if name == Some("hevc"@) {
        VideoCodec::HEVC
    } else if name == Some("av1"@) {
        VideoCodec::AV1
    } else {
        VideoCodec::H264
    }
}

/// The characters of a string that may be missing.
pub open spec fn chars_of(s: Option<String>) -> Option<Seq<char>> {
    match s {
        Some(s) => Some(s@),
        None => None,
    }
}

/// How the frames of a session are delivered. Nothing asked for, or something
/// unknown, is delivered raw.
pub open spec fn mode_of(delivery: Option<DeliverySpec>) -> DeliveryMode {
    match delivery {
        Some(d) => if d.delivery_type@ == "encoded"@ {
            DeliveryMode::Encoded
        } else if d.delivery_type@ == "cpu"@ {
            DeliveryMode::Cpu
        } else {
            DeliveryMode::Raw
        },
        None => DeliveryMode::Raw,
    }
}

/// How a session encodes; only encoded delivery departs from the defaults.
pub open spec fn config_of(delivery: Option<DeliverySpec>) -> EncoderConfig {
    match delivery {
        Some(d) => if d.delivery_type@ == "encoded"@ {
            EncoderConfig {
                codec: codec_named(chars_of(d.codec)),
                width: 0,
                height: 0,
                fps: value_or(d.fps, 60),
                bitrate_bps: value_or(d.bitrate_bps, 6_000_000),
                keyframe_interval_ms: value_or(d.keyframe_interval_ms, 2000),
                hdr10: value_or(d.hdr10, false),
                ltr_count: value_or(d.ltr_count, 0),
                intra_refresh: value_or(d.intra_refresh, false),
                intra_refresh_period: value_or(d.intra_refresh_period, 60),
                roi_enabled: value_or(d.roi_enabled, false),
            }
        } else {
            default_config()
        },
        None => default_config(),
    }
}

fn parse_codec(name: &Option<String>) -> (codec: VideoCodec)
    ensures
        codec == codec_named(chars_of(*name)),
{
    match name {
        Some(name) => {
            if same_text(name.as_str(), "hevc") {
                VideoCodec::HEVC
            } else if same_text(name.as_str(), "av1") {
                VideoCodec::AV1
            } else {
                VideoCodec::H264
            }
        },
        None => VideoCodec::H264,
    }
}

/// What the delivery options mean.
pub fn parse_delivery(delivery: &Option<DeliverySpec>) -> (r: (DeliveryMode, EncoderConfig))
    ensures
        r.0 == mode_of(*delivery),
        r.1 == config_of(*delivery),
{
    let mut mode = DeliveryMode::Raw;
    let mut cfg = EncoderConfig::default();
    if let Some(d) = delivery {
        if same_text(d.delivery_type.as_str(), "encoded") {
            mode = DeliveryMode::Encoded;
            cfg.codec = parse_codec(&d.codec);
            cfg.bitrate_bps = d.bitrate_bps.unwrap_or(6_000_000);
            cfg.fps = d.fps.unwrap_or(60);
            cfg.keyframe_interval_ms = d.keyframe_interval_ms.unwrap_or(2000);
            cfg.hdr10 = d.hdr10.unwrap_or(false);
            cfg.ltr_count = d.ltr_count.unwrap_or(0);
            cfg.intra_refresh = d.intra_refresh.unwrap_or(false);
            cfg.intra_refresh_period = d.intra_refresh_period.unwrap_or(60);
            cfg.roi_enabled = d.roi_enabled.unwrap_or(false);
        } else if same_text(d.delivery_type.as_str(), "cpu") {
            mode = DeliveryMode::Cpu;
        }
    }
    (mode, cfg)
}

/// The distance from one edge to the other, as 32 bits.
pub open spec fn extent(low: i32, high: i32) -> int {
    if high >= low {
        high - low
    } else {
        high - low + 0x1_0000_0000
    }
}

/// The distance from one edge to the other as a signed 32-bit number, but at
/// least 1.
pub open spec fn positive_extent(low: i32, high: i32) -> int {
    if 1 <= high - low <= i32::MAX {
        high - low
    } else if high - low < i32::MIN {
        high - low + 0x1_0000_0000
    } else {
        1
    }
}

/// The distance from one edge to the other, as 32 bits.
pub fn edge_distance(low: i32, high: i32) -> (d: u32)
    ensures
        d == extent(low, high),
{
    unsigned_code(high.wrapping_sub(low))
}

fn positive_distance(low: i32, high: i32) -> (d: u32)
    ensures
        d == positive_extent(low, high),
{
    let d: i32 = high.wrapping_sub(low);
    if d > 1 {
        d as u32
    } else {
        1
    }
}

/// Whether a source is a display, by its kind.
pub open spec fn is_display(source: SourceSpec) -> bool {
    source.kind@ == "display"@
}

/// Whether a source is a window, by its kind.
pub open spec fn is_window(source: SourceSpec) -> bool {
    source.kind@ == "window"@
}

/// The format of the pool textures and of the captured pictures: half floats for
/// HDR10 video, else 8 bits.
pub open spec fn capture_format(delivery: DeliveryModel) -> i32 {
    if delivery.mode == DeliveryMode::Encoded && delivery.enc_cfg.hdr10 {
        FORMAT_RGBA16F
    } else {
        FORMAT_BGRA8
    }
}

/// The creation of the frame pool with textures of the given size.
pub open spec fn pool_step(delivery: DeliveryModel, width: int, height: int) -> SessionStep {
    SessionStep::CreatePool {
        slots: POOL_SLOTS,
        desc: gpu_desc(width as u32, height as u32, capture_format(delivery)),
    }
}

/// What setting up a session does after something has been done. The device goes to the
/// adapter whose output shows the source. The handle of the source is looked for before
/// the pool is created, its kind is rejected only afterwards.
pub open spec fn session_step_after(
    delivery: DeliveryModel,
    source: SourceSpec,
    event: SessionEvent,
) -> Result<SessionStep, CaptureOptionError> {
    let fallback = pool_step(delivery, FALLBACK_WIDTH as int, FALLBACK_HEIGHT as int);
    match event {
        SessionEvent::Begun => Ok(
            if is_display(source) && source.monitor_handle is Some {
                SessionStep::ListOutputs { monitor: source.monitor_handle->0 }
            } else if is_window(source) && source.hwnd is Some {
                SessionStep::FindMonitor { window: source.hwnd->0 }
            } else {
                SessionStep::CreateDevice { adapter: no_adapter() }
            },
        ),
        SessionEvent::MonitorFound(Some(monitor)) => Ok(SessionStep::ListOutputs { monitor }),
        SessionEvent::MonitorFound(None) => Ok(
            SessionStep::CreateDevice { adapter: no_adapter() },
        ),
        SessionEvent::OutputsListed { monitor, outputs } => Ok(
            SessionStep::CreateDevice { adapter: adapter_from(outputs@, monitor, 0) },
        ),
        SessionEvent::DeviceCreated => if is_display(source) {
            match source.monitor_handle {
                Some(handle) => Ok(SessionStep::QueryMonitor { handle }),
                None => Err(CaptureOptionError::MonitorHandleMissing),
            }
        } else if is_window(source) {
            match source.hwnd {
                Some(handle) => Ok(SessionStep::QueryWindow { handle }),
                None => Err(CaptureOptionError::HwndMissing),
            }
        } else {
            Ok(fallback)
        },
        SessionEvent::MonitorRect(Some(r)) => Ok(
            pool_step(delivery, extent(r.left, r.right), extent(r.top, r.bottom)),
        ),
        SessionEvent::WindowRect(Some(r)) => Ok(
            pool_step(
                delivery,
                positive_extent(r.left, r.right),
                positive_extent(r.top, r.bottom),
            ),
        ),
        SessionEvent::MonitorRect(None) | SessionEvent::WindowRect(None) => Ok(fallback),
        SessionEvent::PoolCreated => if is_display(source) {
            match source.monitor_handle {
                Some(handle) => Ok(SessionStep::CaptureMonitor { handle }),
                None => Err(CaptureOptionError::MonitorHandleMissing),
            }
        } else if is_window(source) {
            match source.hwnd {
                Some(handle) => Ok(SessionStep::CaptureWindow { handle }),
                None => Err(CaptureOptionError::HwndMissing),
            }
        } else {
            Err(CaptureOptionError::UnknownKind)
        },
    }
}

/// The session that options describe, before it is set up.
pub open spec fn session_of(opts: CaptureOptionsJs) -> SessionModel {
    SessionModel {
        delivery: DeliveryModel::fresh(mode_of(opts.delivery), config_of(opts.delivery)),
        running: false,
        encoded_units: 0,
    }
}

/// The capture options of a session.
pub open spec fn capture_options_of(delivery: DeliveryModel, opts: CaptureOptionsJs) -> WgcOptions {
    WgcOptions {
        include_cursor: value_or(opts.include_cursor, true),
        border_required: value_or(opts.border_required, false),
        create_shared_handle: false,
        pixel_format: if capture_format(delivery) == FORMAT_RGBA16F {
            PixelFormat::R16G16B16A16Float
        } else {
            PixelFormat::B8G8R8A8UIntNormalized
        },
    }
}

/// The rate at which frames are repeated while the screen stands still: that of the video
/// where there is an encoder to feed, and none otherwise.
pub open spec fn idle_rate(delivery: DeliveryModel) -> u32 {
    if delivery.mode == DeliveryMode::Encoded {
        delivery.enc_cfg.fps
    } else {
        0
    }
}

/// The length of a row and of the whole of the picture of a job in bytes; none without the
/// picture.
pub open spec fn picture_extent(job: JobModel, picture: bool) -> (int, int) {
    if picture {
        (job.row_pitch as int, job.row_pitch * job.height)
    } else {
        (0, 0)
    }
}

impl SessionModel {
    /// The session once it runs.
    pub open spec fn started(self) -> SessionModel {
        SessionModel { running: true, ..self }
    }

    /// The session once it does not run.
    pub open spec fn stopped(self) -> SessionModel {
        SessionModel { running: false, ..self }
    }

    /// The session with another delivery.
    pub open spec fn with(self, delivery: DeliveryModel) -> SessionModel {
        SessionModel { delivery, ..self }
    }

    /// What there is to stop.
    pub open spec fn to_stop(self) -> SessionStop {
        SessionStop { source: self.running, encoder: self.running && self.delivery.encoder }
    }
}

impl CaptureSession {
    /// The session that options describe. It holds nothing yet; the first thing to
    /// set up is the device.
    pub fn new(opts: &CaptureOptionsJs) -> (session: Self)
        ensures
            session@ == session_of(*opts),
    {
        let (mode, cfg) = parse_delivery(&opts.delivery);
        CaptureSession {
            delivery: Delivery::new(mode, cfg),
            running: false,
            encoded_units: 0,
        }
    }

    /// Whether pictures are captured with half floats.
    fn captures_hdr(&self) -> (yes: bool)
        ensures
            yes == (self@.delivery.mode == DeliveryMode::Encoded && self@.delivery.enc_cfg.hdr10),
    {
        self.delivery.mode() == DeliveryMode::Encoded && self.delivery.enc_cfg().hdr10
    }

    fn pool_of_size(&self, width: u32, height: u32) -> (step: SessionStep)
        ensures
            step == pool_step(self@.delivery, width as int, height as int),
    {
        let format: i32 = if self.captures_hdr() {
            FORMAT_RGBA16F
        } else {
            FORMAT_BGRA8
        };
        SessionStep::CreatePool { slots: POOL_SLOTS, desc: gpu_texture(width, height, format) }
    }

    /// What setting up the session does after something has been done.
    pub fn setup_event(&self, opts: &CaptureOptionsJs, event: &SessionEvent) -> (r: Result<
        SessionStep,
        CaptureOptionError,
    >)
        ensures
            r == session_step_after(self@.delivery, opts.source, *event),
    {
        match event {
            SessionEvent::Begun => {
                if same_text(opts.source.kind.as_str(), "display") {
                    if let Some(monitor) = opts.source.monitor_handle {
                        return Ok(SessionStep::ListOutputs { monitor });
                    }
                }
                if same_text(opts.source.kind.as_str(), "window") {
                    if let Some(window) = opts.source.hwnd {
                        return Ok(SessionStep::FindMonitor { window });
                    }
                }
                Ok(SessionStep::CreateDevice { adapter: AdapterLuid { low_part: 0, high_part: 0 } })
            },
            SessionEvent::MonitorFound(monitor) => match monitor {
                Some(monitor) => Ok(SessionStep::ListOutputs { monitor: *monitor }),
                None => Ok(
                    SessionStep::CreateDevice { adapter: AdapterLuid { low_part: 0, high_part: 0 } },
                ),
            },
            SessionEvent::OutputsListed { monitor, outputs } => Ok(
                SessionStep::CreateDevice { adapter: preferred_adapter(outputs, *monitor) },
            ),
            SessionEvent::DeviceCreated => {
                if same_text(opts.source.kind.as_str(), "display") {
                    match opts.source.monitor_handle {
                        Some(handle) => Ok(SessionStep::QueryMonitor { handle }),
                        None => Err(CaptureOptionError::MonitorHandleMissing),
                    }
                } else if same_text(opts.source.kind.as_str(), "window") {
                    match opts.source.hwnd {
                        Some(handle) => Ok(SessionStep::QueryWindow { handle }),
                        None => Err(CaptureOptionError::HwndMissing),
                    }
                } else {
                    Ok(self.pool_of_size(FALLBACK_WIDTH, FALLBACK_HEIGHT))
                }
            },
            SessionEvent::MonitorRect(rect) => match rect {
                Some(r) => Ok(
                    self.pool_of_size(edge_distance(r.left, r.right), edge_distance(r.top, r.bottom)),
                ),
                None => Ok(self.pool_of_size(FALLBACK_WIDTH, FALLBACK_HEIGHT)),
            },
            SessionEvent::WindowRect(rect) => match rect {
                Some(r) => Ok(
                    self.pool_of_size(
                        positive_distance(r.left, r.right),
                        positive_distance(r.top, r.bottom),
                    ),
                ),
                None => Ok(self.pool_of_size(FALLBACK_WIDTH, FALLBACK_HEIGHT)),
            },
            SessionEvent::PoolCreated => {
                if same_text(opts.source.kind.as_str(), "display") {
                    match opts.source.monitor_handle {
                        Some(handle) => Ok(SessionStep::CaptureMonitor { handle }),
                        None => Err(CaptureOptionError::MonitorHandleMissing),
                    }
                } else if same_text(opts.source.kind.as_str(), "window") {
                    match opts.source.hwnd {
                        Some(handle) => Ok(SessionStep::CaptureWindow { handle }),
                        None => Err(CaptureOptionError::HwndMissing),
                    }
                } else {
                    Err(CaptureOptionError::UnknownKind)
                }
            },
        }
    }

    /// The capture options of the session.
    pub fn capture_options(&self, opts: &CaptureOptionsJs) -> (wgc: WgcOptions)
        ensures
            wgc == capture_options_of(self@.delivery, *opts),
    {
        let mut wgc = WgcOptions::default();
        if let Some(v) = opts.include_cursor {
            wgc.include_cursor = v;
        }
        if let Some(v) = opts.border_required {
            wgc.border_required = v;
        }
        if self.captures_hdr() {
            wgc.pixel_format = PixelFormat::R16G16B16A16Float;
        }
        wgc
    }

    /// Starts the session. The answer is the rate at which the source repeats
    /// frames while the screen stands still, or nothing if the session runs
    /// already: only an encoder needs frames at a steady rate.
    pub fn start(&mut self) -> (rate: Option<u32>)
        ensures
            final(self)@ == old(self)@.started(),
            rate == (if old(self)@.running {
                None
            } else if old(self)@.delivery.mode == DeliveryMode::Encoded {
                Some(old(self)@.delivery.enc_cfg.fps)
            } else {
                Some(0)
            }),
            rate matches Some(fps) ==> fps == idle_rate(old(self)@.delivery),
    {
        if self.running {
            return None;
        }
        self.running = true;
        if self.delivery.mode() == DeliveryMode::Encoded {
            Some(self.delivery.enc_cfg().fps)
        } else {
            Some(0)
        }
    }

    /// Stops the session: first the source, then the encoder, if there is one. A
    /// session that does not run is left alone.
    pub fn stop(&mut self) -> (todo: SessionStop)
        ensures
            final(self)@ == old(self)@.stopped(),
            todo == old(self)@.to_stop(),
    {
        let ran = self.running;
        self.running = false;
        SessionStop { source: ran, encoder: ran && self.delivery.has_encoder() }
    }

    /// Counts a unit of encoded video.
    pub fn unit_encoded(&mut self)
        ensures
            final(self)@ == (SessionModel {
                encoded_units: old(self)@.encoded_units.wrapping_add(1),
                ..old(self)@
            }),
    {
        self.encoded_units = self.encoded_units.wrapping_add(1);
    }

    /// What the session has done so far: the frames that it delivered, those that it or
    /// its source dropped, and the units of encoded video.
    pub fn get_stats(&self, source: &WgcSource) -> (stats: CaptureStatsJs)
        ensures
            stats == stats_of(self@, source@),
    {
        CaptureStatsJs {
            delivered_frames: self.delivery.delivered_frames(),
            dropped_frames: self.delivery.dropped_frames().wrapping_add(source.lost_frames()),
            encoded_units: self.encoded_units,
        }
    }

    /// Whether there is something to put a frame of this size into.
    pub fn accepts_size(&self, width: u32, height: u32) -> (yes: bool)
        ensures
            yes == self@.delivery.accepts(width, height),
    {
        self.delivery.accepts_size(width, height)
    }

    /// Begins the job of a frame that was captured.
    pub fn begin(&mut self, frame: &CapturedFrame) -> (r: (FrameJob, FrameAction))
        requires
            old(self)@.delivery.wf(),
            old(self)@.delivery.accepts(frame.width, frame.height),
        ensures
            first_turn(old(self)@.delivery, job_of(old(self)@.delivery, *frame)) == (Turn {
                delivery: final(self)@.delivery,
                job: r.0@,
                action: r.1,
            }),
            final(self)@ == old(self)@.with(final(self)@.delivery),
            in_step(final(self)@.delivery, r.0@),
    {
        self.delivery.begin(frame)
    }

    /// Takes a job on after the work that it asked for.
    pub fn advance(&mut self, job: &mut FrameJob, event: FrameEvent) -> (action: FrameAction)
        requires
            in_step(old(self)@.delivery, old(job)@),
            event.fits(old(job)@.phase),
        ensures
            next_turn(old(self)@.delivery, old(job)@, event) == (Turn {
                delivery: final(self)@.delivery,
                job: final(job)@,
                action,
            }),
            final(self)@ == old(self)@.with(final(self)@.delivery),
            in_step(final(self)@.delivery, final(job)@),
    {
        self.delivery.advance(job, event)
    }

    /// The consumer releases a frame without a picture: the slot that it held loses a
    /// holder. A frame that is released already has none to give back.
    pub fn release_frame<R>(&mut self, pool: &mut FramePool<R>, number: u64)
        requires
            old(pool).wf(),
        ensures
            final(pool).wf(),
            final(pool).same_slots(old(pool)),
            final(self)@ == old(self)@.with(old(self)@.delivery.after_release(number)),
            final(pool).states() == (if old(self)@.delivery.is_lent(number) && old(
                self,
            )@.delivery.lent[number] < old(pool).states().len() {
                release_at(old(pool).states(), old(self)@.delivery.lent[number] as int)
            } else {
                old(pool).states()
            }),
    {
        if let Some(slot) = self.delivery.release_frame(number) {
            if slot < pool.capacity() {
                pool.release(slot);
            }
        }
    }

    /// The buffer around a picture was finalized. Its texture is unmapped, and is used
    /// again unless it has been replaced in the meantime.
    pub fn pixels_finalized(&mut self, number: u64) -> (r: Finalized)
        requires
            old(self)@.delivery.wf(),
        ensures
            final(self)@ == old(self)@.with(old(self)@.delivery.after_finalizer(number)),
            r == ({
                let i = place_of(old(self)@.delivery.staging, number, 0);
                if i < old(self)@.delivery.staging.len() {
                    Finalized::Recycle { staging: i as u32 }
                } else {
                    Finalized::Discard
                }
            }),
    {
        self.delivery.pixels_finalized(number)
    }

    /// Asks the encoder, if the session has one, for a key frame.
    pub fn request_keyframe<T>(&self, encoder: &mut MfEncoder<T>)
        ensures
            final(encoder)@ == (match old(encoder)@ {
                Some(inner) if self@.delivery.encoder => Some(inner.after_request()),
                other => other,
            }),
    {
        if self.delivery.has_encoder() {
            encoder.request_keyframe();
        }
    }

    /// The setting that gives the encoder another bit rate, if the session has an
    /// encoder and the encoder takes settings.
    pub fn set_bitrate<T>(&self, encoder: &MfEncoder<T>, bps: u32) -> (r: Option<CodecSetting>)
        ensures
            r == (match encoder@ {
                Some(inner) if self@.delivery.encoder && inner.codec_api => Some(
                    CodecSetting { key: CodecKey::MeanBitRate, value: CodecValue::U32(bps) },
                ),
                _ => None,
            }),
    {
        if self.delivery.has_encoder() {
            encoder.set_bitrate(bps)
        } else {
            None
        }
    }
}

/// What a session and its source have done.
pub open spec fn stats_of(session: SessionModel, source: SourceState) -> CaptureStatsJs {
    CaptureStatsJs {
        delivered_frames: session.delivery.delivered_frames,
        dropped_frames: session.delivery.dropped_frames.wrapping_add(source.lost_frames),
        encoded_units: session.encoded_units,
    }
}

/// The frame of a job as it is handed to the consumer, with its picture in mapped memory
/// or without.
pub fn frame_payload(job: &FrameJob, picture: bool) -> (p: FramePayload)
    ensures
        p.number == job@.number,
        p.timestamp_ns == job@.timestamp_ns,
        p.width == job@.width,
        p.height == job@.height,
        p.format@ == "bgra8"@,
        p.size_changed == job@.size_changed,
        p.stride == (if picture {
            job@.row_pitch
        } else {
            0
        }),
        p.bytes == (if picture {
            job@.row_pitch * job@.height
        } else {
            0
        }),
        (p.stride as int, p.bytes as int) == picture_extent(job@, picture),
{
    let (stride, bytes): (u32, u64) = if picture {
        let stride: u32 = job.row_pitch();
        (stride, picture_bytes(stride, job.height()))
    } else {
        (0, 0)
    };
    FramePayload {
        number: job.number(),
        timestamp_ns: job.timestamp_ns(),
        width: job.width(),
        height: job.height(),
        format: "bgra8",
        size_changed: job.size_changed(),
        stride,
        bytes,
    }
}

/// Encoded video as it is handed to the consumer.
pub fn encoded_payload(unit: EncodedAccessUnit) -> (p: EncodedPayload)
    ensures
        p == (EncodedPayload {
            data: unit.data,
            timestamp_ns: unit.timestamp_ns,
            keyframe: unit.keyframe,
        }),
{
    EncodedPayload { data: unit.data, timestamp_ns: unit.timestamp_ns, keyframe: unit.keyframe }
}

/// HDR10 goes through the whole pipeline or through none of it: captured as half
/// floats into textures of that format, converted to BT.2020 with PQ, encoded from
/// 10-bit pictures, and announced as such.
pub proof fn law_hdr_is_kept_end_to_end(opts: CaptureOptionsJs)
    requires
        mode_of(opts.delivery) == DeliveryMode::Encoded,
    ensures
        ({
            let delivery = session_of(opts).delivery;
            let cfg = delivery.enc_cfg;
            let output = output_type_of(cfg);
            &&& cfg.hdr10 <==> capture_options_of(delivery, opts).pixel_format
                == PixelFormat::R16G16B16A16Float
            &&& cfg.hdr10 <==> capture_format(delivery) == FORMAT_RGBA16F
            &&& cfg.hdr10 <==> encoder_color(cfg.hdr10) == ColorSpace::Rec2020Pq
            &&& cfg.hdr10 <==> encoder_format(cfg.hdr10) == FORMAT_P010
            &&& cfg.hdr10 ==> output.contains(attr32(MediaKey::TransferFunction, TRANSFER_PQ))
            &&& cfg.hdr10 ==> output.contains(attr32(MediaKey::VideoPrimaries, PRIMARIES_BT2020))
        }),
{
    let cfg = config_of(opts.delivery);
    if cfg.hdr10 {
        let output = output_type_of(cfg);
        let hdr = hdr_part(cfg);
        let n = output.len() - hdr.len();
        assert(output[n] == hdr[0]);
        assert(output[n + 1] == hdr[1]);
    }
}

/// A session is refused for its options exactly if its source is neither a display
/// with a handle nor a window with one, and before anything is captured. What is
/// refused at first would be refused for the same reason later.
pub proof fn law_bad_sources_are_refused(delivery: DeliveryModel, source: SourceSpec)
    ensures
        ({
            let first = session_step_after(delivery, source, SessionEvent::DeviceCreated);
            let last = session_step_after(delivery, source, SessionEvent::PoolCreated);
            &&& first is Err ==> last == first
            &&& last is Ok ==> first is Ok
            &&& last is Ok <==> (is_display(source) && source.monitor_handle is Some) || (
            is_window(source) && source.hwnd is Some)
        }),
{
    reveal_strlit("display");
    reveal_strlit("window");
    assert("display"@.len() != "window"@.len());
}

/// Starting or stopping a second time changes nothing and finds nothing to do; a
/// stop after a start always stops the source.
pub proof fn law_start_and_stop_are_idempotent(session: SessionModel)
    ensures
        session.started().started() == session.started(),
        session.stopped().stopped() == session.stopped(),
        session.started().stopped() == session.stopped(),
        session.started().to_stop().source,
        !session.stopped().to_stop().source,
        !session.stopped().to_stop().encoder,
{
}

/// The device of a session is on the adapter whose output shows its source, if that
/// adapter is there and can be used, whichever adapter is the fastest: a display shows
/// itself, and for a window the system says which monitor shows it.
pub proof fn law_device_is_on_the_adapter_of_the_source(
    delivery: DeliveryModel,
    source: SourceSpec,
    monitor: u64,
    outputs: Vec<OutputRecord>,
    adapters: Seq<AdapterRecord>,
    choice: AdapterChoice,
    k: int,
    n: int,
)
    requires
        0 <= k < outputs@.len(),
        outputs@[k].monitor == monitor,
        outputs@[k].adapter.is_some(),
        forall|j: int|
            0 <= j < outputs@.len() && (#[trigger] outputs@[j]).monitor == monitor
                ==> outputs@[j].adapter == outputs@[k].adapter,
        0 <= n < adapters.len(),
        adapters[n].answers(outputs@[k].adapter),
        is_picked(outputs@[k].adapter, adapters, choice),
    ensures
        is_display(source) && source.monitor_handle == Some(monitor) ==> session_step_after(
            delivery,
            source,
            SessionEvent::Begun,
        ) == Ok::<SessionStep, CaptureOptionError>(SessionStep::ListOutputs { monitor }),
        is_window(source) && source.hwnd is Some ==> session_step_after(
            delivery,
            source,
            SessionEvent::Begun,
        ) == Ok::<SessionStep, CaptureOptionError>(
            SessionStep::FindMonitor { window: source.hwnd->0 },
        ),
        session_step_after(delivery, source, SessionEvent::MonitorFound(Some(monitor))) == Ok::<
            SessionStep,
            CaptureOptionError,
        >(SessionStep::ListOutputs { monitor }),
        session_step_after(delivery, source, SessionEvent::OutputsListed { monitor, outputs })
            == Ok::<SessionStep, CaptureOptionError>(
            SessionStep::CreateDevice { adapter: outputs@[k].adapter },
        ),
        choice matches AdapterChoice::Listed { index } && index < adapters.len()
            && adapters[index as int].luid == Some(outputs@[k].adapter),
{
    reveal_strlit("display");
    reveal_strlit("window");
    assert("display"@.len() != "window"@.len());
    law_preferred_adapter_shows_the_monitor(outputs@, monitor, k);
}

/// A frame that was captured: how it ended at the source and, where it was handed on, the
/// job that it became and how that went.
pub struct FrameStory {
    pub outcome: CaptureOutcome,
    pub job: JobModel,
    pub events: Seq<RunEvent>,
}

/// The source and the session after a frame.
pub open spec fn after_story(
    source: SourceState,
    session: SessionModel,
    story: FrameStory,
) -> (SourceState, SessionModel) {
    (
        counts_after(source, story.outcome),
        if story.outcome.handed() {
            session.with(after(first_turn(session.delivery, story.job), story.events).delivery)
        } else {
            session
        },
    )
}

/// The source and the session after frames one after the other.
pub open spec fn after_stories(
    source: SourceState,
    session: SessionModel,
    stories: Seq<FrameStory>,
) -> (SourceState, SessionModel)
    decreases stories.len(),
{
    if stories.len() == 0 {
        (source, session)
    } else {
        let earlier = after_stories(source, session, stories.drop_last());
        after_story(earlier.0, earlier.1, stories.last())
    }
}

/// Whether the job of every frame has come to its end.
pub open spec fn all_ended(
    source: SourceState,
    session: SessionModel,
    stories: Seq<FrameStory>,
) -> bool
    decreases stories.len(),
{
    stories.len() > 0 ==> {
        let earlier = after_stories(source, session, stories.drop_last()).1;
        let story = stories.last();
        &&& all_ended(source, session, stories.drop_last())
        &&& story.outcome.handed() ==> after(
            first_turn(earlier.delivery, story.job),
            story.events,
        ).job.phase == FramePhase::Done
    }
}

/// Every captured frame is delivered or dropped: whatever becomes of the frames of a new
/// session, at the source or on their way, the delivered and the dropped frames of its
/// statistics together are the captured ones. Neither count ever goes down.
pub proof fn law_every_captured_frame_is_counted(
    opts: CaptureOptionsJs,
    wgc: WgcOptions,
    stories: Seq<FrameStory>,
)
    requires
        all_ended(SourceState::fresh(wgc), session_of(opts), stories),
        stories.len() <= u64::MAX,
    ensures
        ({
            let (source, session) = after_stories(
                SourceState::fresh(wgc),
                session_of(opts),
                stories,
            );
            let stats = stats_of(session, source);
            &&& source.captured_frames == stories.len()
            &&& stats.delivered_frames + stats.dropped_frames == source.captured_frames
            &&& session.delivery.taken_frames == source.handed_frames
            &&& stories.len() > 0 ==> {
                let (s, t) = after_stories(
                    SourceState::fresh(wgc),
                    session_of(opts),
                    stories.drop_last(),
                );
                &&& stats_of(t, s).delivered_frames <= stats.delivered_frames
                &&& stats_of(t, s).dropped_frames <= stats.dropped_frames
            }
        }),
{
    lemma_counts_add_up(opts, wgc, stories);
    if stories.len() > 0 {
        let story = stories.last();
        let (source, session) = after_stories(
            SourceState::fresh(wgc),
            session_of(opts),
            stories.drop_last(),
        );
        lemma_counts_add_up(opts, wgc, stories.drop_last());
        law_captured_frames_are_handed_on_or_lost(source, story.outcome);
        law_every_frame_counts_once(session.delivery, story.job, story.events);
    }
}

/// The three places where frames are counted add up to the captured frames.
proof fn lemma_counts_add_up(opts: CaptureOptionsJs, wgc: WgcOptions, stories: Seq<FrameStory>)
    requires
        all_ended(SourceState::fresh(wgc), session_of(opts), stories),
        stories.len() <= u64::MAX,
    ensures
        ({
            let (source, session) = after_stories(
                SourceState::fresh(wgc),
                session_of(opts),
                stories,
            );
            let d = session.delivery;
            &&& source.captured_frames == stories.len()
            &&& d.delivered_frames + d.dropped_frames + source.lost_frames == stories.len()
            &&& d.delivered_frames + d.dropped_frames == d.taken_frames
            &&& d.taken_frames == source.handed_frames
        }),
    decreases stories.len(),
{
    if stories.len() > 0 {
        let story = stories.last();
        let (source, session) = after_stories(
            SourceState::fresh(wgc),
            session_of(opts),
            stories.drop_last(),
        );
        lemma_counts_add_up(opts, wgc, stories.drop_last());
        law_captured_frames_are_handed_on_or_lost(source, story.outcome);
        law_every_frame_counts_once(session.delivery, story.job, story.events);
    }
}

/// The cursor is captured unless the options decline it, and the border is drawn only if
/// they ask for it: that is what the start of the capture is asked for, however the start of
/// the source goes. Frames are captured as half floats exactly for HDR10 video.
pub proof fn law_cursor_and_border_are_as_asked(
    opts: CaptureOptionsJs,
    fps: u32,
    events: Seq<StartEvent>,
    event: StartEvent,
)
    ensures
        ({
            let delivery = session_of(opts).delivery;
            let source = SourceState::fresh(capture_options_of(delivery, opts));
            let step = after_start_events(source.starting(fps), events).after_start_event(event).1;
            let hdr = delivery.mode == DeliveryMode::Encoded && delivery.enc_cfg.hdr10;
            &&& step matches StartStep::StartCapture { include_cursor, border_required } ==> {
                &&& include_cursor <==> opts.include_cursor != Some(false)
                &&& border_required <==> opts.border_required == Some(true)
            }
            &&& step matches StartStep::CreatePool { format, .. } ==> (format
                == PixelFormat::R16G16B16A16Float <==> hdr)
            &&& step matches StartStep::RecreatePool { format, .. } ==> (format
                == PixelFormat::R16G16B16A16Float <==> hdr)
        }),
{
    let delivery = session_of(opts).delivery;
    let source = SourceState::fresh(capture_options_of(delivery, opts));
    law_capture_begins_as_asked(source, fps, events, event);
}

/// What a session captures with follows its options, whatever it delivers: the cursor and
/// the border as asked, the cursor by default, and nothing shared.
pub proof fn law_capture_options_follow_the_session(
    delivery: DeliveryModel,
    opts: CaptureOptionsJs,
)
    ensures
        ({
            let wgc = capture_options_of(delivery, opts);
            &&& opts.include_cursor matches Some(v) ==> wgc.include_cursor == v
            &&& opts.include_cursor is None ==> wgc.include_cursor
            &&& opts.border_required matches Some(v) ==> wgc.border_required == v
            &&& opts.border_required is None ==> !wgc.border_required
            &&& !wgc.create_shared_handle
            &&& wgc.pixel_format == PixelFormat::R16G16B16A16Float <==> delivery.mode
                == DeliveryMode::Encoded && delivery.enc_cfg.hdr10
        }),
{
}

/// Frames are encoded or read back where the options say "encoded" or "cpu", and are
/// delivered raw otherwise; the codec is HEVC or AV1 where it is named, and H.264 otherwise.
pub proof fn law_options_say_how_to_deliver(opts: CaptureOptionsJs, d: DeliverySpec)
    requires
        opts.delivery == Some(d),
    ensures
        session_of(opts).delivery.mode == DeliveryMode::Encoded <==> d.delivery_type@
            == "encoded"@,
        session_of(opts).delivery.mode == DeliveryMode::Cpu <==> d.delivery_type@ == "cpu"@,
        d.delivery_type@ == "encoded"@ ==> {
            let cfg = session_of(opts).delivery.enc_cfg;
            &&& cfg.codec == VideoCodec::HEVC <==> (d.codec matches Some(name) && name@ == "hevc"@)
            &&& cfg.codec == VideoCodec::AV1 <==> (d.codec matches Some(name) && name@ == "av1"@)
        },
{
    reveal_strlit("encoded");
    reveal_strlit("cpu");
    reveal_strlit("hevc");
    reveal_strlit("av1");
    assert("encoded"@.len() != "cpu"@.len());
    assert("hevc"@.len() != "av1"@.len());
}

/// Every option of encoded delivery that is given reaches the encoder as it is; for one that
/// is not, there is a default. The size is left to the frames. Without encoded delivery
/// nothing departs from the defaults.
pub proof fn law_options_reach_the_encoder(opts: CaptureOptionsJs)
    ensures
        ({
            let cfg = session_of(opts).delivery.enc_cfg;
            &&& cfg.width == 0 && cfg.height == 0
            &&& opts.delivery matches Some(d) ==> (d.delivery_type@ == "encoded"@ ==> {
                &&& d.fps matches Some(v) ==> cfg.fps == v
                &&& d.fps is None ==> cfg.fps == 60
                &&& d.bitrate_bps matches Some(v) ==> cfg.bitrate_bps == v
                &&& d.bitrate_bps is None ==> cfg.bitrate_bps == 6_000_000
                &&& d.keyframe_interval_ms matches Some(v) ==> cfg.keyframe_interval_ms == v
                &&& d.keyframe_interval_ms is None ==> cfg.keyframe_interval_ms == 2000
                &&& cfg.hdr10 <==> d.hdr10 == Some(true)
                &&& d.ltr_count matches Some(v) ==> cfg.ltr_count == v
                &&& d.ltr_count is None ==> cfg.ltr_count == 0
                &&& cfg.intra_refresh <==> d.intra_refresh == Some(true)
                &&& d.intra_refresh_period matches Some(v) ==> cfg.intra_refresh_period == v
                &&& d.intra_refresh_period is None ==> cfg.intra_refresh_period == 60
                &&& cfg.roi_enabled <==> d.roi_enabled == Some(true)
            })
            &&& !(opts.delivery matches Some(d) && d.delivery_type@ == "encoded"@) ==> {
                &&& cfg.codec == VideoCodec::H264
                &&& cfg.fps == 60
                &&& cfg.bitrate_bps == 6_000_000
                &&& cfg.keyframe_interval_ms == 2000
                &&& !cfg.hdr10
                &&& cfg.ltr_count == 0
                &&& !cfg.intra_refresh
                &&& cfg.intra_refresh_period == 60
                &&& !cfg.roi_enabled
            }
            &&& opts.delivery is None ==> session_of(opts).delivery.mode == DeliveryMode::Raw
            &&& !session_of(opts).running
            &&& session_of(opts).encoded_units == 0
        }),
{
}

/// From the options of a session to its encoder: whenever a job of the session initializes an
/// encoder, it is for what the options asked for and for the size of the frame.
pub proof fn law_encoder_follows_the_options(
    opts: CaptureOptionsJs,
    d: DeliverySpec,
    delivery: DeliveryModel,
    job: JobModel,
    events: Seq<RunEvent>,
    cfg: EncoderConfig,
)
    requires
        opts.delivery == Some(d),
        d.delivery_type@ == "encoded"@,
        delivery.wf(),
        delivery.enc_cfg == session_of(opts).delivery.enc_cfg,
        after(first_turn(delivery, job), events).action == FrameAction::InitializeEncoder(cfg),
    ensures
        cfg.width == job.width,
        cfg.height == job.height,
        cfg.codec == VideoCodec::HEVC <==> (d.codec matches Some(name) && name@ == "hevc"@),
        cfg.codec == VideoCodec::AV1 <==> (d.codec matches Some(name) && name@ == "av1"@),
        d.fps matches Some(v) ==> cfg.fps == v,
        d.bitrate_bps matches Some(v) ==> cfg.bitrate_bps == v,
        d.keyframe_interval_ms matches Some(v) ==> cfg.keyframe_interval_ms == v,
        cfg.hdr10 <==> d.hdr10 == Some(true),
        d.ltr_count matches Some(v) ==> cfg.ltr_count == v,
        cfg.intra_refresh <==> d.intra_refresh == Some(true),
        d.intra_refresh_period matches Some(v) ==> cfg.intra_refresh_period == v,
        cfg.roi_enabled <==> d.roi_enabled == Some(true),
{
    law_encoder_is_initialized_as_asked(delivery, job, events, cfg);
    law_options_say_how_to_deliver(opts, d);
    law_options_reach_the_encoder(opts);
}

/// The frame pool has four slots of GPU textures, in half floats exactly for HDR10 video. They
/// have the size of the display, or that of the window but at least one pixel each way;
/// where the size is not known, 1920 by 1080.
pub proof fn law_pool_fits_the_source(
    delivery: DeliveryModel,
    source: SourceSpec,
    event: SessionEvent,
    slots: u32,
    desc: TextureDesc,
)
    requires
        session_step_after(delivery, source, event) == Ok::<SessionStep, CaptureOptionError>(
            SessionStep::CreatePool { slots, desc },
        ),
    ensures
        slots == 4,
        delivery.mode == DeliveryMode::Encoded && delivery.enc_cfg.hdr10 ==> desc.format == 10,
        !(delivery.mode == DeliveryMode::Encoded && delivery.enc_cfg.hdr10) ==> desc.format == 87,
        desc.usage == 0,
        desc.bind_flags == 0x20 + 0x8,
        desc.cpu_access == 0,
        event matches SessionEvent::MonitorRect(Some(r)) ==> {
            &&& (desc.width - (r.right - r.left)) % 0x1_0000_0000 == 0
            &&& (desc.height - (r.bottom - r.top)) % 0x1_0000_0000 == 0
        },
        event matches SessionEvent::WindowRect(Some(r)) ==> {
            &&& desc.width >= 1 && desc.height >= 1
            &&& 1 <= r.right - r.left <= i32::MAX ==> desc.width == r.right - r.left
            &&& -0x8000_0000 <= r.right - r.left < 1 ==> desc.width == 1
            &&& 1 <= r.bottom - r.top <= i32::MAX ==> desc.height == r.bottom - r.top
            &&& -0x8000_0000 <= r.bottom - r.top < 1 ==> desc.height == 1
        },
        !(event matches SessionEvent::MonitorRect(Some(_))) && !(
        event matches SessionEvent::WindowRect(Some(_))) ==> desc.width == 1920 && desc.height
            == 1080,
{
}

/// A session is set up in one order: the device comes first, on the adapter that shows the
/// source; then the size of the source is asked for, by its own handle; then comes the pool,
/// and then the source itself, by the same handle. A source without its handle is refused
/// for that, and one of another kind for its kind.
pub proof fn law_sessions_are_set_up_in_order(
    delivery: DeliveryModel,
    source: SourceSpec,
    event: SessionEvent,
)
    ensures
        ({
            let display = source.kind@ == "display"@;
            let window = source.kind@ == "window"@;
            let r = session_step_after(delivery, source, event);
            match event {
                SessionEvent::Begun => {
                    &&& display ==> (source.monitor_handle matches Some(monitor) ==> r == Ok::<
                        SessionStep,
                        CaptureOptionError,
                    >(SessionStep::ListOutputs { monitor }))
                    &&& window ==> (source.hwnd matches Some(window) ==> r == Ok::<
                        SessionStep,
                        CaptureOptionError,
                    >(SessionStep::FindMonitor { window }))
                    &&& !(display && source.monitor_handle is Some) && !(window
                        && source.hwnd is Some) ==> (r matches Ok(SessionStep::CreateDevice {
                        adapter,
                    }) && adapter.low_part == 0 && adapter.high_part == 0)
                },
                SessionEvent::MonitorFound(found) => {
                    &&& found matches Some(monitor) ==> r == Ok::<SessionStep, CaptureOptionError>(
                        SessionStep::ListOutputs { monitor },
                    )
                    &&& found is None ==> (r matches Ok(SessionStep::CreateDevice { adapter })
                        && adapter.low_part == 0 && adapter.high_part == 0)
                },
                SessionEvent::OutputsListed { .. } => r matches Ok(
                    SessionStep::CreateDevice { .. },
                ),
                SessionEvent::DeviceCreated => {
                    &&& display ==> (source.monitor_handle matches Some(handle) ==> r == Ok::<
                        SessionStep,
                        CaptureOptionError,
                    >(SessionStep::QueryMonitor { handle }))
                    &&& window ==> (source.hwnd matches Some(handle) ==> r == Ok::<
                        SessionStep,
                        CaptureOptionError,
                    >(SessionStep::QueryWindow { handle }))
                    &&& !display && !window ==> (r matches Ok(SessionStep::CreatePool { .. }))
                },
                SessionEvent::MonitorRect(_) => r matches Ok(SessionStep::CreatePool { .. }),
                SessionEvent::WindowRect(_) => r matches Ok(SessionStep::CreatePool { .. }),
                SessionEvent::PoolCreated => {
                    &&& display ==> (source.monitor_handle matches Some(handle) ==> r == Ok::<
                        SessionStep,
                        CaptureOptionError,
                    >(SessionStep::CaptureMonitor { handle }))
                    &&& window ==> (source.hwnd matches Some(handle) ==> r == Ok::<
                        SessionStep,
                        CaptureOptionError,
                    >(SessionStep::CaptureWindow { handle }))
                },
            }
        }),
        ({
            let display = source.kind@ == "display"@;
            let window = source.kind@ == "window"@;
            let r = session_step_after(delivery, source, event);
            let late = event is DeviceCreated || event is PoolCreated;
            &&& r == Err::<SessionStep, CaptureOptionError>(
                CaptureOptionError::MonitorHandleMissing,
            ) <==> late && display && source.monitor_handle is None
            &&& r == Err::<SessionStep, CaptureOptionError>(CaptureOptionError::HwndMissing)
                <==> late && window && source.hwnd is None
            &&& r == Err::<SessionStep, CaptureOptionError>(CaptureOptionError::UnknownKind)
                <==> event is PoolCreated && !display && !window
        }),
{
    reveal_strlit("display");
    reveal_strlit("window");
    assert("display"@.len() != "window"@.len());
}

/// A running session stops its source, and its encoder if it has one; one that does not run
/// stops nothing. Starting and stopping change nothing else, and what a session delivers is
/// kept apart from what else it remembers.
pub proof fn law_stopping_stops_what_runs(session: SessionModel, delivery: DeliveryModel)
    ensures
        session.to_stop().source <==> session.running,
        session.to_stop().encoder <==> session.running && session.delivery.encoder,
        session.started().running && !session.stopped().running,
        session.started().delivery == session.delivery,
        session.stopped().delivery == session.delivery,
        session.started().encoded_units == session.encoded_units,
        session.stopped().encoded_units == session.encoded_units,
        session.with(delivery).delivery == delivery,
        session.with(delivery).running == session.running,
        session.with(delivery).encoded_units == session.encoded_units,
{
}

/// The statistics give the frames that were delivered, those that were dropped on their way
/// together with those that the source lost, and the units of encoded video.
pub proof fn law_statistics_add_up(session: SessionModel, source: SourceState)
    requires
        session.delivery.dropped_frames + source.lost_frames <= u64::MAX,
    ensures
        stats_of(session, source).delivered_frames == session.delivery.delivered_frames,
        stats_of(session, source).dropped_frames == session.delivery.dropped_frames
            + source.lost_frames,
        stats_of(session, source).encoded_units == session.encoded_units,
{
}

/// The distance between two edges is what has to be added to one to get to the other, in 32
/// bits; for a window it is at least one.
pub proof fn law_distances_lead_from_edge_to_edge(low: i32, high: i32)
    ensures
        0 <= extent(low, high) < 0x1_0000_0000,
        (low + extent(low, high) - high) % 0x1_0000_0000 == 0,
        1 <= positive_extent(low, high) <= i32::MAX,
        positive_extent(low, high) > 1 ==> (low + positive_extent(low, high) - high)
            % 0x1_0000_0000 == 0,
{
}

/// Only video is kept up while the screen stands still, at the frame rate that was asked for,
/// or at 60 frames a second where none was.
pub proof fn law_only_video_is_kept_up(opts: CaptureOptionsJs)
    ensures
        ({
            let rate = idle_rate(session_of(opts).delivery);
            let video = opts.delivery matches Some(d) && d.delivery_type@ == "encoded"@;
            &&& !video ==> rate == 0
            &&& video ==> (opts.delivery matches Some(d) ==> {
                &&& d.fps matches Some(fps) ==> rate == fps
                &&& d.fps is None ==> rate == 60
            })
        }),
{
    reveal_strlit("encoded");
    reveal_strlit("cpu");
}

/// What the consumer is told of a picture is what it is handed: whenever a job hands over
/// pixels, the rows and the bytes are those of the payload, and there are as many rows as the
/// frame is high.
pub proof fn law_payload_describes_the_pixels(
    d: DeliveryModel,
    job: JobModel,
    events: Seq<RunEvent>,
)
    requires
        d.wf(),
    ensures
        ({
            let end = after(first_turn(d, job), events);
            end.action matches FrameAction::SendPixels { stride, bytes, .. } ==> {
                &&& picture_extent(end.job, true) == (stride as int, bytes as int)
                &&& bytes == stride * job.height
            }
        }),
        picture_extent(job, false) == (0int, 0int),
{
    law_work_fits_the_frame(d, job, events);
}

} // verus!
