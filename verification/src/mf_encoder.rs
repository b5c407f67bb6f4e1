//! The state of a hardware encoder: how it is set up, started and stopped, what
//! it is fed, and what becomes of its events and its output.

use std::collections::VecDeque;

use vstd::prelude::*;

use crate::bytes::{bytes_of, law_bytes_keep_words, law_words_have_four_bytes, push_words};
use crate::clock::{hundred_ns_to_ns, span_ns};
use crate::encoder_config::{
    is_plan_of, plan_encoder, set32, unencodable, CodecKey, CodecSetting, CodecValue, EncoderConfig,
    EncoderPlan,
};
use crate::error::{
    code_bits, law_codes_keep_their_bits, report_to, report_view, unsigned_code, ErrorModel,
    ErrorPayload, PayloadModel, WincapError, WincapResult,
};
use crate::text::{
    encode_utf16, law_decode_undoes_encode, law_numbers_read_back, lemma_width, number_in,
    number_text, push_number, push_str, utf16_of, utf16_text,
};

verus! {

/// An encoder asks for a picture.
pub const EVENT_NEED_INPUT: u32 = 601;

/// An encoder has a finished unit.
pub const EVENT_HAVE_OUTPUT: u32 = 602;

/// The encoder brings its own output samples.
pub const OUTPUT_PROVIDES_SAMPLES: u32 = 256;

/// The code with which an encoder says that it has nothing to hand out yet.
pub const NEED_MORE_INPUT: i32 = -1072861838;

/// A single encoded access unit.
#[derive(Debug)]
pub struct EncodedAccessUnit {
    pub data: Vec<u8>,
    pub timestamp_ns: u64,
    pub keyframe: bool,
}

/// Options of one frame: the long-term reference to mark and the one to use
/// (negative for none), and the rectangles of interest, four numbers each.
#[derive(Debug)]
pub struct FrameOptions {
    pub mark_ltr: i32,
    pub use_ltr: i32,
    pub roi_rects: Vec<i32>,
}

impl Default for FrameOptions {
    fn default() -> (opts: Self)
        ensures
            opts.mark_ltr == -1,
            opts.use_ltr == -1,
            opts.roi_rects@ == Seq::<i32>::empty(),
    {
        FrameOptions { mark_ltr: -1, use_ltr: -1, roi_rects: Vec::new() }
    }
}

/// A picture that waits to be encoded; `tex` is the texture that holds it.
pub struct PendingInput<T> {
    pub tex: T,
    pub timestamp_ns: u64,
    pub opts: FrameOptions,
}

/// What an encoder that has been set up remembers.
struct EncoderInner<T> {
    cfg: EncoderConfig,
    codec_api: bool,
    running: bool,
    force_keyframe: bool,
    callbacks: bool,
    pending: VecDeque<PendingInput<T>>,
}

/// An encoder, which may not have been set up yet.
pub struct MfEncoder<T> {
    inner: Option<EncoderInner<T>>,
}

/// What an encoder that has been set up remembers, as mathematical values.
#[verifier::ext_equal]
pub struct EncoderModel<T> {
    pub cfg: EncoderConfig,
    pub codec_api: bool,
    pub running: bool,
    /// Whether the next picture becomes a key frame.
    pub force_keyframe: bool,
    pub callbacks: bool,
    /// The pictures that wait, the next one first.
    pub pending: Seq<PendingInput<T>>,
}

impl<T> View for MfEncoder<T> {
    type V = Option<EncoderModel<T>>;

    closed spec fn view(&self) -> Option<EncoderModel<T>> {
        match self.inner {
            Some(inner) => Some(
                EncoderModel {
                    cfg: inner.cfg,
                    codec_api: inner.codec_api,
                    running: inner.running,
                    force_keyframe: inner.force_keyframe,
                    callbacks: inner.callbacks,
                    pending: inner.pending@,
                },
            ),
            None => None,
        }
    }
}

/// The outside work that comes next while an encoder is set up.
#[derive(Clone, Copy, PartialEq, Eq, Debug, Structural)]
pub enum SetupStep {
    CreateDeviceManager,
    EnumerateEncoders,
    Activate { index: usize },
    BindDeviceManager,
    UnlockAsync,
    SetOutputType,
    SetInputType,
    QueryCodecApi,
    Tune,
    QueryEventGenerator,
    Ready,
}

/// Outside work that succeeded while an encoder is set up.
pub enum SetupEvent {
    DeviceManagerCreated,
    /// The encoders that were found: the vendor id of each, where it has one,
    /// and the vendor number of the adapter.
    Encoders { adapter_vendor: u32, vendor_ids: Vec<Option<Vec<u16>>> },
    Activated,
    DeviceManagerBound,
    AsyncUnlocked,
    OutputTypeSet,
    InputTypeSet,
    CodecApi { present: bool },
    Tuned,
    EventGenerator,
}

/// Whether an encoder begins to stream when it is started.
#[derive(Clone, Copy, PartialEq, Eq, Debug, Structural)]
pub enum EncoderStart {
    AlreadyRunning,
    BeginStreaming,
}

/// What to do about an event of the encoder.
pub enum EventStep {
    /// The event could not be read; the error callback, if set, gets the report.
    Failed(Option<ErrorPayload>),
    NeedInput,
    HaveOutput,
    Other,
}

/// A picture on its way into the encoder, with the times of its sample in units
/// of 100 ns.
pub struct SampleInput<T> {
    pub tex: T,
    pub time_hns: i64,
    pub duration_hns: i64,
    pub opts: FrameOptions,
}

/// The marks of a sample.
#[derive(Debug)]
pub struct SampleTags {
    pub clean_point: bool,
    pub mark_ltr: Option<u32>,
    pub use_ltr: Option<u32>,
    pub roi: Option<Vec<u8>>,
}

/// A UTF-16 unit with ASCII capitals made small.
pub open spec fn small_unit(unit: u16) -> u16 {
    if 65 <= unit <= 90 {
        (unit + 32) as u16
    } else {
        unit
    }
}

/// Whether two runs of UTF-16 units are the same but for the case of ASCII
/// letters.
pub open spec fn same_ignoring_case(a: Seq<u16>, b: Seq<u16>) -> bool {
    &&& a.len() == b.len()
    &&& forall|i: int| 0 <= i < a.len() ==> small_unit(#[trigger] a[i]) == small_unit(b[i])
}

/// The vendor id that encoders of the given vendor carry.
pub open spec fn vendor_tag(vendor: u32) -> Seq<u16> {
    utf16_of("VEN_"@ + number_text(vendor as nat, 16, 4, true))
}

/// Whether an encoder carries the vendor id of the given vendor.
pub open spec fn is_of_vendor(id: Option<Vec<u16>>, vendor: u32) -> bool {
    id matches Some(units) && same_ignoring_case(units@, vendor_tag(vendor))
}

/// Whether `k` is the encoder to use: the first of the adapter's vendor, or the
/// first of all where there is none, no choice, or no known vendor.
pub open spec fn is_best(ids: Seq<Option<Vec<u16>>>, vendor: u32, k: int) -> bool {
    if vendor == 0 || ids.len() <= 1 {
        k == 0
    } else {
        ||| 0 <= k < ids.len() && is_of_vendor(ids[k], vendor) && forall|i: int|
            0 <= i < k ==> !is_of_vendor(#[trigger] ids[i], vendor)
        ||| k == 0 && forall|i: int|
            0 <= i < ids.len() ==> !is_of_vendor(#[trigger] ids[i], vendor)
    }
}

fn eq_ignore_case(a: &Vec<u16>, b: &Vec<u16>) -> (same: bool)
    ensures
        same == same_ignoring_case(a@, b@),
{
    if a.len() != b.len() {
        return false;
    }
    let mut i: usize = 0;
    while i < a.len()
        invariant
            i <= a@.len(),
            a@.len() == b@.len(),
            forall|j: int| 0 <= j < i ==> small_unit(#[trigger] a@[j]) == small_unit(b@[j]),
        decreases a@.len() - i,
    {
        let x: u16 = if 65 <= a[i] && a[i] <= 90 {
            a[i] + 32
        } else {
            a[i]
        };
        let y: u16 = if 65 <= b[i] && b[i] <= 90 {
            b[i] + 32
        } else {
            b[i]
        };
        if x != y {
            assert(small_unit(a@[i as int]) != small_unit(b@[i as int]));
            return false;
        }
        i = i + 1;
    }
    true
}

/// Picks the encoder to use among those found.
pub fn pick_best_activate(vendor_ids: &Vec<Option<Vec<u16>>>, vendor_id: u32) -> (k: usize)
    ensures
        is_best(vendor_ids@, vendor_id, k as int),
{
    if vendor_id == 0 || vendor_ids.len() <= 1 {
        return 0;
    }
    let mut want = String::new();
    push_str(&mut want, "VEN_");
    push_number(&mut want, vendor_id as u64, 16, 4, true);
    assert(want@ =~= "VEN_"@ + number_text(vendor_id as nat, 16, 4, true));
    let want = encode_utf16(want.as_str());
    let mut i: usize = 0;
    while i < vendor_ids.len()
        invariant
            i <= vendor_ids@.len(),
            vendor_ids@.len() > 1,
            vendor_id != 0,
            want@ == vendor_tag(vendor_id),
            forall|j: int| 0 <= j < i ==> !is_of_vendor(#[trigger] vendor_ids@[j], vendor_id),
        decreases vendor_ids@.len() - i,
    {
        if let Some(units) = &vendor_ids[i] {
            if eq_ignore_case(units, &want) {
                return i;
            }
        }
        i = i + 1;
    }
    0
}

/// The step after outside work that succeeded, where it does not depend on what
/// was found.
pub open spec fn plain_next(event: SetupEvent) -> Option<SetupStep> {
    match event {
        SetupEvent::DeviceManagerCreated => Some(SetupStep::EnumerateEncoders),
        SetupEvent::Encoders { .. } => None,
        SetupEvent::Activated => Some(SetupStep::BindDeviceManager),
        SetupEvent::DeviceManagerBound => Some(SetupStep::UnlockAsync),
        SetupEvent::AsyncUnlocked => Some(SetupStep::SetOutputType),
        SetupEvent::OutputTypeSet => Some(SetupStep::SetInputType),
        SetupEvent::InputTypeSet => Some(SetupStep::QueryCodecApi),
        SetupEvent::CodecApi { present } => Some(
            if present {
                SetupStep::Tune
            } else {
                SetupStep::QueryEventGenerator
            },
        ),
        SetupEvent::Tuned => Some(SetupStep::QueryEventGenerator),
        SetupEvent::EventGenerator => Some(SetupStep::Ready),
    }
}

/// Says what is next after outside work succeeded during the setup. Without an
/// encoder for the codec the setup fails.
pub fn setup_event(event: &SetupEvent) -> (r: WincapResult<SetupStep>)
    ensures
        match *event {
            SetupEvent::Encoders { adapter_vendor, vendor_ids } => match r {
                Ok(step) => vendor_ids@.len() > 0 && (step matches SetupStep::Activate { index }
                    && index < vendor_ids@.len() && is_best(
                    vendor_ids@,
                    adapter_vendor,
                    index as int,
                )),
                Err(e) => vendor_ids@.len() == 0 && e@ == (ErrorModel::General {
                    component: "mf_encoder"@,
                    message: "no hardware async encoder available for requested codec"@,
                }),
            },
            other => r matches Ok(step) && Some(step) == plain_next(other),
        },
{
    match event {
        SetupEvent::DeviceManagerCreated => Ok(SetupStep::EnumerateEncoders),
        SetupEvent::Encoders { adapter_vendor, vendor_ids } => {
            if vendor_ids.len() == 0 {
                return Err(
                    WincapError::general(
                        "mf_encoder",
                        "no hardware async encoder available for requested codec",
                    ),
                );
            }
            let index: usize = pick_best_activate(vendor_ids, *adapter_vendor);
            Ok(SetupStep::Activate { index })
        },
        SetupEvent::Activated => Ok(SetupStep::BindDeviceManager),
        SetupEvent::DeviceManagerBound => Ok(SetupStep::UnlockAsync),
        SetupEvent::AsyncUnlocked => Ok(SetupStep::SetOutputType),
        SetupEvent::OutputTypeSet => Ok(SetupStep::SetInputType),
        SetupEvent::InputTypeSet => Ok(SetupStep::QueryCodecApi),
        SetupEvent::CodecApi { present } => if *present {
            Ok(SetupStep::Tune)
        } else {
            Ok(SetupStep::QueryEventGenerator)
        },
        SetupEvent::Tuned => Ok(SetupStep::QueryEventGenerator),
        SetupEvent::EventGenerator => Ok(SetupStep::Ready),
    }
}

impl<T> EncoderModel<T> {
    /// The encoder with other pictures that wait.
    pub open spec fn with_pending(self, pending: Seq<PendingInput<T>>) -> EncoderModel<T> {
        EncoderModel { pending, ..self }
    }

    /// The encoder after a key frame was asked for.
    pub open spec fn after_request(self) -> EncoderModel<T> {
        EncoderModel { force_keyframe: true, ..self }
    }

    /// The encoder after a sample was marked.
    pub open spec fn after_tags(self) -> EncoderModel<T> {
        EncoderModel { force_keyframe: false, ..self }
    }

    /// The encoder after it was started.
    pub open spec fn started(self) -> EncoderModel<T> {
        if self.running {
            self
        } else {
            EncoderModel { running: true, callbacks: true, ..self }
        }
    }

    /// The encoder after it was told to stop.
    pub open spec fn halted(self) -> EncoderModel<T> {
        EncoderModel { running: false, ..self }
    }

    /// The encoder once it has stopped.
    pub open spec fn cleared(self) -> EncoderModel<T> {
        EncoderModel { callbacks: false, pending: Seq::empty(), ..self }
    }

    /// The encoder after a picture was offered to it.
    pub open spec fn offered(self, input: PendingInput<T>) -> EncoderModel<T> {
        if self.running {
            EncoderModel { pending: self.pending.push(input), ..self }
        } else {
            self
        }
    }

    /// The encoder after it took the next picture.
    pub open spec fn fed(self) -> EncoderModel<T> {
        if self.pending.len() > 0 {
            EncoderModel { pending: self.pending.drop_first(), ..self }
        } else {
            self
        }
    }
}

/// The sample of a picture, at a frame rate.
pub open spec fn sample_of<T>(input: PendingInput<T>, fps: u32) -> SampleInput<T> {
    SampleInput {
        tex: input.tex,
        time_hns: (input.timestamp_ns / 100) as i64,
        duration_hns: frame_duration_hns(fps) as i64,
        opts: input.opts,
    }
}

/// The mark of a sample for a long-term reference, where marks can be made.
pub open spec fn reference_mark(reference: i32, possible: bool) -> Option<u32> {
    if reference >= 0 && possible {
        Some(reference as u32)
    } else {
        None
    }
}

/// The time of a unit whose sample has that time, or none.
pub open spec fn unit_time(time_hns: Option<i64>) -> int {
    match time_hns {
        Some(t) => span_ns(t as int),
        None => 0,
    }
}

/// Whether a unit with that clean-point mark is a key frame.
pub open spec fn is_key_unit(clean_point: Option<u32>) -> bool {
    clean_point matches Some(v) && v != 0
}

impl<T> MfEncoder<T> {
    /// Whether the encoder is set up and running.
    pub open spec fn is_running(self) -> bool {
        self@ matches Some(inner) && inner.running
    }

    /// Whether the encoder is set up and its callbacks are set.
    pub open spec fn has_callbacks(self) -> bool {
        self@ matches Some(inner) && inner.callbacks
    }

    /// The pictures that wait, the next one first.
    pub open spec fn queue(self) -> Seq<PendingInput<T>> {
        match self@ {
            Some(inner) => inner.pending,
            None => Seq::empty(),
        }
    }

    /// An encoder that has not been set up.
    pub fn new() -> (enc: Self)
        ensures
            enc@ is None,
    {
        MfEncoder { inner: None }
    }

    /// Begins to set up the encoder: works out what it is set up with, and says
    /// what comes first.
    pub fn initialize(&self, cfg: &EncoderConfig) -> (r: WincapResult<(EncoderPlan, SetupStep)>)
        ensures
            match r {
                Ok((plan, step)) => !unencodable(*cfg) && is_plan_of(plan, *cfg) && step
                    == SetupStep::CreateDeviceManager,
                Err(e) => unencodable(*cfg) && e@ == (ErrorModel::General {
                    component: "mf_encoder"@,
                    message: "HDR10 requires HEVC or AV1 (no 10-bit H.264)"@,
                }),
            },
    {
        match plan_encoder(cfg) {
            Ok(plan) => Ok((plan, SetupStep::CreateDeviceManager)),
            Err(e) => Err(e),
        }
    }

    /// Notes that the encoder has been set up.
    pub fn initialized(&mut self, cfg: EncoderConfig, codec_api: bool)
        ensures
            final(self)@ == Some(
                EncoderModel::<T> {
                    cfg,
                    codec_api,
                    running: false,
                    force_keyframe: false,
                    callbacks: false,
                    pending: Seq::empty(),
                },
            ),
    {
        self.inner = Some(
            EncoderInner {
                cfg,
                codec_api,
                running: false,
                force_keyframe: false,
                callbacks: false,
                pending: VecDeque::new(),
            },
        );
    }

    /// Starts the encoder.
    pub fn start(&mut self) -> (r: WincapResult<EncoderStart>)
        ensures
            match (old(self)@, r) {
                (None, Err(e)) => e@ == (ErrorModel::General {
                    component: "mf_encoder"@,
                    message: "not initialized"@,
                }) && final(self)@ is None,
                (Some(inner), Ok(EncoderStart::AlreadyRunning)) => inner.running && final(self)@
                    == old(self)@,
                (Some(inner), Ok(EncoderStart::BeginStreaming)) => !inner.running
                    && final(self)@ == Some(EncoderModel { running: true, callbacks: true, ..inner }),
                _ => false,
            },
            old(self)@ matches Some(inner) ==> final(self)@ == Some(inner.started()),
    {
        match &mut self.inner {
            None => Err(WincapError::general("mf_encoder", "not initialized")),
            Some(inner) => {
                if inner.running {
                    return Ok(EncoderStart::AlreadyRunning);
                }
                inner.running = true;
                inner.callbacks = true;
                Ok(EncoderStart::BeginStreaming)
            },
        }
    }

    /// Stops the encoder; says whether it ran, so that the end of the stream has
    /// to be announced and `stopped` called after that.
    pub fn stop(&mut self) -> (ran: bool)
        ensures
            ran == old(self).is_running(),
            match old(self)@ {
                Some(inner) => final(self)@ == Some(EncoderModel { running: false, ..inner }),
                None => final(self)@ is None,
            },
            old(self)@ matches Some(inner) ==> final(self)@ == Some(inner.halted()),
    {
        match &mut self.inner {
            None => false,
            Some(inner) => {
                let ran = inner.running;
                inner.running = false;
                ran
            },
        }
    }

    /// Forgets the callbacks and every picture that still waits.
    pub fn stopped(&mut self)
        ensures
            final(self)@ == (match old(self)@ {
                Some(inner) => Some(
                    EncoderModel { callbacks: false, pending: Seq::empty(), ..inner },
                ),
                None => None,
            }),
            old(self)@ matches Some(inner) ==> final(self)@ == Some(inner.cleared()),
    {
        if let Some(inner) = &mut self.inner {
            inner.callbacks = false;
            inner.pending.clear();
        }
    }

    /// Queues a picture; an encoder that does not run drops it.
    pub fn encode_frame(&mut self, surface: T, timestamp_ns: u64, opts: FrameOptions)
        ensures
            final(self).queue() == if old(self).is_running() {
                old(self).queue().push(PendingInput { tex: surface, timestamp_ns, opts })
            } else {
                old(self).queue()
            },
            final(self)@ == (match old(self)@ {
                Some(inner) => Some(inner.with_pending(final(self).queue())),
                None => None,
            }),
            old(self)@ matches Some(inner) ==> final(self)@ == Some(
                inner.offered(PendingInput { tex: surface, timestamp_ns, opts }),
            ),
    {
        if let Some(inner) = &mut self.inner {
            if inner.running {
                inner.pending.push_back(PendingInput { tex: surface, timestamp_ns, opts });
            }
        }
    }

    /// Asks for the next picture to become a key frame.
    pub fn request_keyframe(&mut self)
        ensures
            match old(self)@ {
                Some(inner) => final(self)@ == Some(inner.after_request()),
                None => final(self)@ is None,
            },
    {
        if let Some(inner) = &mut self.inner {
            inner.force_keyframe = true;
        }
    }

    /// The setting that changes the bit rate, where the encoder can be tuned.
    pub fn set_bitrate(&self, bps: u32) -> (r: Option<CodecSetting>)
        ensures
            r == match self@ {
                Some(inner) if inner.codec_api => Some(set32(CodecKey::MeanBitRate, bps)),
                _ => None,
            },
    {
        match &self.inner {
            Some(inner) => if inner.codec_api {
                Some(CodecSetting { key: CodecKey::MeanBitRate, value: CodecValue::U32(bps) })
            } else {
                None
            },
            None => None,
        }
    }

    /// Whether the encoder runs: only then are events read and pictures taken.
    pub fn running(&self) -> (yes: bool)
        ensures
            yes == self.is_running(),
    {
        match &self.inner {
            Some(inner) => inner.running,
            None => false,
        }
    }

    /// Sorts an event that was read, or reports that it could not be.
    pub fn event_received(&self, event_type: Result<u32, i32>) -> (step: EventStep)
        ensures
            match event_type {
                Err(hr) => match step {
                    EventStep::Failed(Some(p)) => self.has_callbacks() && p@ == (PayloadModel {
                        component: "mf_encoder"@,
                        hresult: hr,
                        message: "EndGetEvent failed"@,
                    }),
                    EventStep::Failed(None) => !self.has_callbacks(),
                    _ => false,
                },
                Ok(t) => step == if t == EVENT_NEED_INPUT {
                    EventStep::NeedInput
                } else if t == EVENT_HAVE_OUTPUT {
                    EventStep::HaveOutput
                } else {
                    EventStep::Other
                },
            },
            step is NeedInput <==> event_type == Ok::<u32, i32>(601),
            step is HaveOutput <==> event_type == Ok::<u32, i32>(602),
    {
        match event_type {
            Err(hr) => {
                let callbacks = match &self.inner {
                    Some(inner) => inner.callbacks,
                    None => false,
                };
                if callbacks {
                    EventStep::Failed(
                        Some(
                            ErrorPayload {
                                component: "mf_encoder".to_owned(),
                                hresult: hr,
                                message: "EndGetEvent failed".to_owned(),
                            },
                        ),
                    )
                } else {
                    EventStep::Failed(None)
                }
            },
            Ok(t) => if t == EVENT_NEED_INPUT {
                EventStep::NeedInput
            } else if t == EVENT_HAVE_OUTPUT {
                EventStep::HaveOutput
            } else {
                EventStep::Other
            },
        }
    }

    /// What follows the handling of an event: the report of its failure, if it
    /// failed and the error callback is set, and whether to listen for another.
    pub fn event_handled(&self, outcome: &WincapResult<()>) -> (r: (Option<ErrorPayload>, bool))
        ensures
            match (*outcome, r.0) {
                (Err(e), Some(p)) => self.has_callbacks() && p@ == e@.payload(),
                (Err(_), None) => !self.has_callbacks(),
                (Ok(_), report) => report is None,
            },
            r.1 == self.is_running(),
            *outcome matches Err(e) ==> report_view(r.0) == report_to(self.has_callbacks(), e@),
    {
        let (callbacks, running) = match &self.inner {
            Some(inner) => (inner.callbacks, inner.running),
            None => (false, false),
        };
        let report = match outcome {
            Ok(_) => None,
            Err(e) => if callbacks {
                Some(e.report())
            } else {
                None
            },
        };
        (report, running)
    }

    /// Takes the next picture for the encoder, with the times of its sample.
    pub fn next_input(&mut self) -> (r: Option<SampleInput<T>>)
        ensures
            match r {
                None => old(self).queue().len() == 0 && final(self).queue() == old(self).queue(),
                Some(input) => {
                    &&& old(self).queue().len() > 0
                    &&& final(self).queue() == old(self).queue().drop_first()
                    &&& input.tex == old(self).queue()[0].tex
                    &&& input.opts == old(self).queue()[0].opts
                    &&& input.time_hns == old(self).queue()[0].timestamp_ns / 100
                    &&& input.duration_hns == frame_duration_hns(old(self)@.unwrap().cfg.fps)
                },
            },
            final(self)@ == (match old(self)@ {
                Some(inner) => Some(inner.with_pending(final(self).queue())),
                None => None,
            }),
            old(self)@ matches Some(inner) ==> {
                &&& final(self)@ == Some(inner.fed())
                &&& r is Some <==> inner.pending.len() > 0
                &&& r matches Some(input) ==> input == sample_of(inner.pending[0], inner.cfg.fps)
            },
    {
        match &mut self.inner {
            None => None,
            Some(inner) => {
                let fps: u32 = inner.cfg.fps;
                match inner.pending.pop_front() {
                    None => None,
                    Some(input) => {
                        let hns: u64 = input.timestamp_ns / 100;
                        let time_hns: i64 = hns as i64;
                        let duration_hns: i64 = 10_000_000i64 / (if fps < 1 {
                            1
                        } else {
                            fps
                        }) as i64;
                        Some(
                            SampleInput {
                                tex: input.tex,
                                time_hns,
                                duration_hns,
                                opts: input.opts,
                            },
                        )
                    },
                }
            },
        }
    }

    /// The marks of the sample of a picture. A key frame that was asked for is
    /// marked on this sample, and no longer asked for after it.
    pub fn sample_tags(&mut self, opts: &FrameOptions) -> (tags: SampleTags)
        ensures
            tags.clean_point == (old(self)@ matches Some(inner) && inner.force_keyframe),
            tags.mark_ltr == if opts.mark_ltr >= 0 {
                Some(opts.mark_ltr as u32)
            } else {
                None
            },
            tags.use_ltr == if opts.use_ltr >= 0 && (old(self)@ matches Some(inner)
                && inner.codec_api) {
                Some(opts.use_ltr as u32)
            } else {
                None
            },
            tags.mark_ltr == reference_mark(opts.mark_ltr, true),
            tags.use_ltr == reference_mark(
                opts.use_ltr,
                old(self)@ matches Some(inner) && inner.codec_api,
            ),
            match tags.roi {
                Some(bytes) => opts.roi_rects@.len() > 0 && bytes@ == roi_bytes(opts.roi_rects@),
                None => opts.roi_rects@.len() == 0,
            },
            match old(self)@ {
                Some(inner) => final(self)@ == Some(inner.after_tags()),
                None => final(self)@ is None,
            },
    {
        let (clean_point, codec_api) = match &mut self.inner {
            Some(inner) => {
                let forced = inner.force_keyframe;
                inner.force_keyframe = false;
                (forced, inner.codec_api)
            },
            None => (false, false),
        };
        let mark_ltr: Option<u32> = if opts.mark_ltr >= 0 {
            Some(opts.mark_ltr as u32)
        } else {
            None
        };
        let use_ltr: Option<u32> = if opts.use_ltr >= 0 && codec_api {
            Some(opts.use_ltr as u32)
        } else {
            None
        };
        let roi = if opts.roi_rects.len() > 0 {
            Some(rect_bytes(&opts.roi_rects))
        } else {
            None
        };
        SampleTags { clean_point, mark_ltr, use_ltr, roi }
    }
}

/// How long a frame lasts at a frame rate, in units of 100 ns.
pub open spec fn frame_duration_hns(fps: u32) -> int {
    10_000_000int / (if fps < 1 {
        1int
    } else {
        fps as int
    })
}

/// The bytes of a run of signed numbers.
pub open spec fn roi_bytes(rects: Seq<i32>) -> Seq<u8> {
    bytes_of(rects.map_values(|v: i32| code_bits(v) as u32))
}

fn rect_bytes(rects: &Vec<i32>) -> (bytes: Vec<u8>)
    ensures
        bytes@ == roi_bytes(rects@),
{
    let mut words: Vec<u32> = Vec::new();
    let mut i: usize = 0;
    let ghost f = |v: i32| code_bits(v) as u32;
    while i < rects.len()
        invariant
            i <= rects@.len(),
            f == (|v: i32| code_bits(v) as u32),
            words@ == rects@.take(i as int).map_values(f),
        decreases rects@.len() - i,
    {
        words.push(unsigned_code(rects[i]));
        i = i + 1;
        assert(words@ =~= rects@.take(i as int).map_values(f));
    }
    assert(rects@.take(i as int) =~= rects@);
    let mut bytes: Vec<u8> = Vec::new();
    let n: usize = words.len();
    push_words(&mut bytes, words.as_slice(), n);
    assert(words@.take(n as int) =~= words@);
    assert(bytes@ =~= roi_bytes(rects@));
    bytes
}

/// Whether a sample has to be brought along for the encoder's output.
pub fn needs_own_sample(stream_flags: u32) -> (yes: bool)
    ensures
        yes == (stream_flags & OUTPUT_PROVIDES_SAMPLES == 0),
        yes <==> stream_flags & 0x100 == 0,
{
    stream_flags & OUTPUT_PROVIDES_SAMPLES == 0
}

/// What the answer to a request for output means: whether there is output, or
/// that the request failed.
pub fn output_ready(answer: Result<(), i32>) -> (r: WincapResult<bool>)
    ensures
        match answer {
            Ok(_) => r == Ok::<bool, WincapError>(true),
            Err(hr) => if hr == NEED_MORE_INPUT {
                r == Ok::<bool, WincapError>(false)
            } else {
                r matches Err(e) && e@ == (ErrorModel::HResult {
                    component: "mf_encoder"@,
                    hr,
                    context: "ProcessOutput"@,
                })
            },
        },
        r is Ok <==> answer is Ok || (answer matches Err(hr) && hr == -1072861838),
{
    match answer {
        Ok(_) => Ok(true),
        Err(hr) => if hr == NEED_MORE_INPUT {
            Ok(false)
        } else {
            Err(WincapError::hresult("mf_encoder", hr, "ProcessOutput"))
        },
    }
}

/// The access unit in a finished sample. A sample without a time counts as time
/// zero, and one without a clean-point mark as no key frame.
pub fn access_unit(data: Vec<u8>, time_hns: Option<i64>, clean_point: Option<u32>) -> (au:
    EncodedAccessUnit)
    ensures
        au.data == data,
        au.timestamp_ns == span_ns(
            match time_hns {
                Some(t) => t as int,
                None => 0,
            },
        ),
        au.keyframe == (clean_point matches Some(v) && v != 0),
        au.timestamp_ns == unit_time(time_hns),
        au.keyframe == is_key_unit(clean_point),
{
    let time: i64 = match time_hns {
        Some(t) => t,
        None => 0,
    };
    let keyframe = match clean_point {
        Some(v) => v != 0,
        None => false,
    };
    EncodedAccessUnit { data, timestamp_ns: hundred_ns_to_ns(time), keyframe }
}

/// A unit comes out with the time of the picture that went in, rounded down to
/// 100 ns; the time of a captured frame, which is a whole number of such units,
/// comes out unchanged.
pub proof fn law_time_survives_encoding(timestamp_ns: u64, span_hns: i64)
    requires
        0 <= span_hns,
        span_hns * 100 <= u64::MAX,
    ensures
        span_ns((timestamp_ns / 100) as int) == timestamp_ns - timestamp_ns % 100,
        span_ns((span_ns(span_hns as int) / 100) as int) == span_ns(span_hns as int),
{
}

/// However often a key frame is asked for, the next sample is marked as one, and
/// the one after it is not.
pub proof fn law_keyframe_request_is_spent_once<T>(inner: EncoderModel<T>)
    ensures
        inner.after_request().force_keyframe,
        inner.after_request().after_request() == inner.after_request(),
        !inner.after_request().after_tags().force_keyframe,
{
}

/// Two units match exactly if they are the same, or a capital and a small ASCII letter
/// that are the same letter.
pub proof fn law_letters_match_in_either_case(a: u16, b: u16)
    ensures
        same_ignoring_case(seq![a], seq![b]) <==> a == b || (65 <= a <= 90 && b == a + 32) || (65
            <= b <= 90 && a == b + 32),
{
    assert(seq![a][0] == a && seq![b][0] == b);
}

/// Texts match exactly if they are of one length and match unit by unit.
pub proof fn law_texts_match_unit_by_unit(a: Seq<u16>, b: Seq<u16>, i: int)
    requires
        same_ignoring_case(a, b),
        0 <= i < a.len(),
    ensures
        a.len() == b.len(),
        same_ignoring_case(seq![a[i]], seq![b[i]]),
        same_ignoring_case(b, a),
{
    assert(small_unit(a[i]) == small_unit(b[i]));
    assert forall|j: int| 0 <= j < b.len() implies small_unit(#[trigger] b[j]) == small_unit(
        a[j],
    ) by {
        assert(small_unit(a[j]) == small_unit(b[j]));
    }
}

/// The vendor id is `VEN_` and the number of the vendor in at least four hexadecimal
/// digits.
pub proof fn law_vendor_ids_name_the_vendor(vendor: u32)
    ensures
        ({
            let text = utf16_text(vendor_tag(vendor));
            &&& text.take(4) == "VEN_"@
            &&& number_in(text.skip(4), 16) == vendor
            &&& text.len() >= 8
            &&& vendor < 0x1_0000 ==> text.len() == 8
            &&& text.len() > 8 ==> text[4] != '0'
        }),
{
    let digits = number_text(vendor as nat, 16, 4, true);
    let text = "VEN_"@ + digits;
    reveal_strlit("VEN_");
    law_decode_undoes_encode(text);
    law_numbers_read_back(vendor as nat, 16, 4, true);
    assert(text.take(4) =~= "VEN_"@);
    assert(text.skip(4) =~= digits);
    if vendor < 0x1_0000 {
        assert(vstd::arithmetic::power::pow(16, 4) == 0x1_0000) by {
            reveal_with_fuel(vstd::arithmetic::power::pow, 5);
        }
        lemma_width(vendor as nat, 16, 4);
    }
}

/// Of the encoders that carry the vendor id of the adapter the first one is used;
/// where none does, or the vendor is not known, the first of all.
pub proof fn law_encoder_of_the_adapter_is_used(
    ids: Seq<Option<Vec<u16>>>,
    vendor: u32,
    k: int,
    j: int,
)
    requires
        is_best(ids, vendor, k),
        0 <= j < ids.len(),
    ensures
        0 <= k < ids.len(),
        vendor == 0 ==> k == 0,
        vendor != 0 && ids.len() > 1 && (ids[j] matches Some(units) && same_ignoring_case(
            units@,
            vendor_tag(vendor),
        )) ==> k <= j && (ids[k] matches Some(units) && same_ignoring_case(
            units@,
            vendor_tag(vendor),
        )),
        k > 0 ==> (ids[k] matches Some(units) && same_ignoring_case(units@, vendor_tag(vendor))),
        forall|other: int| is_best(ids, vendor, other) ==> other == k,
{
    if vendor != 0 && ids.len() > 1 {
        if is_of_vendor(ids[j], vendor) {
            assert(is_of_vendor(ids[k], vendor));
        }
        assert forall|other: int| is_best(ids, vendor, other) implies other == k by {
            if other < k {
                assert(is_of_vendor(ids[other], vendor) || other == 0);
            } else if k < other {
                assert(is_of_vendor(ids[k], vendor) || k == 0);
            }
        }
    }
}

/// The steps of the set-up come in one order: the device manager, the encoders, the
/// device manager bound to the one that was activated, the asynchronous mode unlocked,
/// the output type before the input type, the tuning where the encoder can be tuned,
/// and the source of its events at the end.
pub proof fn law_setup_goes_in_order(event: SetupEvent)
    ensures
        event is DeviceManagerCreated ==> plain_next(event) == Some(SetupStep::EnumerateEncoders),
        event is Activated ==> plain_next(event) == Some(SetupStep::BindDeviceManager),
        event is DeviceManagerBound ==> plain_next(event) == Some(SetupStep::UnlockAsync),
        event is AsyncUnlocked ==> plain_next(event) == Some(SetupStep::SetOutputType),
        event is OutputTypeSet ==> plain_next(event) == Some(SetupStep::SetInputType),
        event is InputTypeSet ==> plain_next(event) == Some(SetupStep::QueryCodecApi),
        plain_next(event) == Some(SetupStep::Tune) <==> event == (SetupEvent::CodecApi {
            present: true,
        }),
        plain_next(event) == Some(SetupStep::QueryEventGenerator) <==> event is Tuned || event == (
        SetupEvent::CodecApi { present: false }),
        plain_next(event) == Some(SetupStep::Ready) <==> event is EventGenerator,
        plain_next(event) is None <==> event is Encoders,
{
}

/// A frame lasts as long as its share of a second, rounded down to 100 ns.
pub proof fn law_frames_share_the_second(fps: u32)
    ensures
        fps >= 1 ==> frame_duration_hns(fps) * fps <= 10_000_000 < (frame_duration_hns(fps) + 1)
            * fps,
        fps == 0 ==> frame_duration_hns(fps) == 10_000_000,
{
    if fps >= 1 {
        let d = frame_duration_hns(fps);
        let f = fps as int;
        assert(d * f <= 10_000_000 < (d + 1) * f) by (nonlinear_arith)
            requires
                f >= 1,
                d == 10_000_000int / f,
        ;
    }
}

/// The rectangles are handed over as four bytes a number, lowest byte first, out of
/// which every number can be read again.
pub proof fn law_rectangles_are_handed_over(rects: Seq<i32>, i: int)
    requires
        0 <= i < rects.len(),
    ensures
        ({
            let b = roi_bytes(rects);
            let word = b[4 * i] + b[4 * i + 1] * 0x100 + b[4 * i + 2] * 0x1_0000 + b[4 * i + 3]
                * 0x100_0000;
            &&& b.len() == 4 * rects.len()
            &&& (word - rects[i]) % 0x1_0000_0000 == 0
        }),
{
    let words = rects.map_values(|v: i32| code_bits(v) as u32);
    law_bytes_keep_words(words, i);
    law_words_have_four_bytes(words);
    law_codes_keep_their_bits(rects[i], rects[i]);
    assert(words[i] == code_bits(rects[i]));
}

/// A request for a key frame, its fulfilment and a change of the pictures that wait
/// change nothing else.
pub proof fn law_encoder_changes_one_thing<T>(
    inner: EncoderModel<T>,
    pending: Seq<PendingInput<T>>,
)
    ensures
        ({
            let asked = inner.after_request();
            &&& asked.cfg == inner.cfg && asked.codec_api == inner.codec_api
            &&& asked.running == inner.running && asked.callbacks == inner.callbacks
            &&& asked.pending == inner.pending
        }),
        ({
            let marked = inner.after_tags();
            &&& marked.cfg == inner.cfg && marked.codec_api == inner.codec_api
            &&& marked.running == inner.running && marked.callbacks == inner.callbacks
            &&& marked.pending == inner.pending
        }),
        ({
            let queued = inner.with_pending(pending);
            &&& queued.cfg == inner.cfg && queued.codec_api == inner.codec_api
            &&& queued.running == inner.running && queued.callbacks == inner.callbacks
            &&& queued.force_keyframe == inner.force_keyframe
            &&& queued.pending == pending
        }),
{
}

/// Something that is done to an encoder.
pub enum EncoderOp<T> {
    Start,
    Stop,
    Offer(PendingInput<T>),
    Feed,
    RequestKeyframe,
    Mark,
}

/// An encoder after something was done to it.
pub open spec fn after_encoder_op<T>(inner: EncoderModel<T>, op: EncoderOp<T>) -> EncoderModel<T> {
    match op {
        EncoderOp::Start => inner.started(),
        EncoderOp::Stop => inner.halted(),
        EncoderOp::Offer(input) => inner.offered(input),
        EncoderOp::Feed => inner.fed(),
        EncoderOp::RequestKeyframe => inner.after_request(),
        EncoderOp::Mark => inner.after_tags(),
    }
}

/// An encoder after some things were done to it.
pub open spec fn after_encoder_ops<T>(
    inner: EncoderModel<T>,
    ops: Seq<EncoderOp<T>>,
) -> EncoderModel<T>
    decreases ops.len(),
{
    if ops.len() == 0 {
        inner
    } else {
        after_encoder_op(after_encoder_ops(inner, ops.drop_last()), ops.last())
    }
}

/// Whether an encoder runs after some operations: by the last start or stop among them.
pub open spec fn runs_after<T>(running: bool, ops: Seq<EncoderOp<T>>) -> bool
    decreases ops.len(),
{
    if ops.len() == 0 {
        running
    } else {
        match ops.last() {
            EncoderOp::Start => true,
            EncoderOp::Stop => false,
            _ => runs_after(running, ops.drop_last()),
        }
    }
}

/// The pictures that were offered while the encoder ran, in order.
pub open spec fn pictures_offered<T>(running: bool, ops: Seq<EncoderOp<T>>) -> Seq<PendingInput<T>>
    decreases ops.len(),
{
    if ops.len() == 0 {
        Seq::empty()
    } else {
        let earlier = pictures_offered(running, ops.drop_last());
        match ops.last() {
            EncoderOp::Offer(input) => if runs_after(running, ops.drop_last()) {
                earlier.push(input)
            } else {
                earlier
            },
            _ => earlier,
        }
    }
}

/// How often the encoder took a picture.
pub open spec fn pictures_taken<T>(inner: EncoderModel<T>, ops: Seq<EncoderOp<T>>) -> nat
    decreases ops.len(),
{
    if ops.len() == 0 {
        0
    } else {
        let earlier = pictures_taken(inner, ops.drop_last());
        if ops.last() is Feed && after_encoder_ops(inner, ops.drop_last()).pending.len() > 0 {
            earlier + 1
        } else {
            earlier
        }
    }
}

/// Pictures are encoded in the order in which they were offered, each once and none of them
/// left out, except those that were offered while the encoder did not run: what waits at any
/// time are the offered ones behind those that were taken.
pub proof fn law_pictures_are_encoded_in_order<T>(inner: EncoderModel<T>, ops: Seq<EncoderOp<T>>)
    ensures
        ({
            let end = after_encoder_ops(inner, ops);
            let all = inner.pending + pictures_offered(inner.running, ops);
            let taken = pictures_taken(inner, ops);
            &&& end.running == runs_after(inner.running, ops)
            &&& taken <= all.len()
            &&& end.pending == all.skip(taken as int)
        }),
    decreases ops.len(),
{
    if ops.len() > 0 {
        law_pictures_are_encoded_in_order(inner, ops.drop_last());
        let before = after_encoder_ops(inner, ops.drop_last());
        let all = inner.pending + pictures_offered(inner.running, ops.drop_last());
        let taken = pictures_taken(inner, ops.drop_last()) as int;
        let end = after_encoder_ops(inner, ops);
        let all_now = inner.pending + pictures_offered(inner.running, ops);
        match ops.last() {
            EncoderOp::Offer(input) => {
                if before.running {
                    assert(all_now =~= all.push(input));
                    assert(end.pending =~= all_now.skip(taken));
                }
            },
            EncoderOp::Feed => {
                if before.pending.len() > 0 {
                    assert(end.pending =~= all.skip(taken + 1));
                }
            },
            _ => {},
        }
    } else {
        assert(inner.pending + pictures_offered(inner.running, ops) =~= inner.pending);
        assert(inner.pending.skip(0) =~= inner.pending);
    }
}

/// A start makes the encoder run with its callbacks set, a stop ends that, and once it has
/// stopped nobody is called back and no picture waits. None of these changes what the encoder
/// was set up with or whether a key frame is asked for.
pub proof fn law_encoders_start_and_stop<T>(inner: EncoderModel<T>)
    ensures
        inner.started().running,
        !inner.running ==> inner.started().callbacks,
        inner.started().started() == inner.started(),
        inner.started().pending == inner.pending,
        !inner.halted().running,
        inner.halted().pending == inner.pending,
        inner.halted().callbacks == inner.callbacks,
        !inner.cleared().callbacks,
        inner.cleared().pending.len() == 0,
        inner.cleared().running == inner.running,
        ({
            &&& inner.started().cfg == inner.cfg && inner.halted().cfg == inner.cfg
            &&& inner.cleared().cfg == inner.cfg && inner.fed().cfg == inner.cfg
            &&& inner.started().codec_api == inner.codec_api
            &&& inner.halted().codec_api == inner.codec_api
            &&& inner.cleared().codec_api == inner.codec_api
            &&& inner.started().force_keyframe == inner.force_keyframe
            &&& inner.halted().force_keyframe == inner.force_keyframe
            &&& inner.cleared().force_keyframe == inner.force_keyframe
            &&& inner.fed().force_keyframe == inner.force_keyframe
        }),
{
}

/// A sample is that of its picture: the texture and the options are the same, its time is
/// that of the picture rounded down to 100 ns, and it lasts one frame.
pub proof fn law_samples_are_of_their_pictures<T>(input: PendingInput<T>, fps: u32)
    ensures
        ({
            let sample = sample_of(input, fps);
            &&& sample.tex == input.tex
            &&& sample.opts == input.opts
            &&& sample.time_hns * 100 <= input.timestamp_ns < sample.time_hns * 100 + 100
            &&& fps >= 1 ==> sample.duration_hns * fps <= 10_000_000 < (sample.duration_hns + 1)
                * fps
        }),
{
    law_frames_share_the_second(fps);
    let d = 10_000_000int / (if fps < 1 {
        1int
    } else {
        fps as int
    });
    assert(0 <= d <= 10_000_000) by (nonlinear_arith)
        requires
            d == 10_000_000int / (if fps < 1 {
                1int
            } else {
                fps as int
            }),
    ;
}

/// A long-term reference is marked under its own number, and not at all where it is negative
/// or cannot be marked.
pub proof fn law_references_are_marked(reference: i32, possible: bool)
    ensures
        reference_mark(reference, possible) is Some <==> reference >= 0 && possible,
        reference_mark(reference, possible) matches Some(mark) ==> mark == reference,
{
}

/// A unit has the time of its sample, a hundred nanoseconds a unit of it, or none; it is a key
/// frame exactly if its mark is there and not zero.
pub proof fn law_units_are_of_their_samples(time_hns: Option<i64>, clean_point: Option<u32>)
    ensures
        time_hns matches Some(t) ==> (t >= 0 && t * 100 <= u64::MAX ==> unit_time(time_hns) == t
            * 100),
        time_hns is None ==> unit_time(time_hns) == 0,
        is_key_unit(clean_point) <==> clean_point is Some && clean_point != Some(0u32),
{
}

/// An encoder runs, calls back and has pictures that wait exactly as it remembers; one that has
/// not been set up does none of it.
pub proof fn law_encoders_are_what_they_remember<T>(enc: MfEncoder<T>)
    ensures
        enc@ matches Some(inner) ==> {
            &&& enc.is_running() == inner.running
            &&& enc.has_callbacks() == inner.callbacks
            &&& enc.queue() == inner.pending
        },
        enc@ is None ==> !enc.is_running() && !enc.has_callbacks() && enc.queue().len() == 0,
{
}

} // verus!
