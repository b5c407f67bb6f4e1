//! Capture of the audio that the system or a process plays: setting up the
//! stream, the loop that empties it, and the buffers in which audio is handed on.

use vstd::prelude::*;

use crate::audio_format::{
    process_loopback_format, stereo_float, stereo_float_wave, AudioFormat, WaveFormat,
};
use crate::clock::{position_to_ns, span_ns};
use crate::error::{
    hresult_is_err, report_to, report_view, ErrorModel, ErrorPayload, PayloadModel, WincapError,
    WincapResult,
};
use crate::wgc_source::CapturedFrame;

verus! {

/// Whose audio is captured.
#[derive(Debug, Clone, Copy, PartialEq, Eq, Structural)]
pub enum LoopbackMode {
    /// What the default device plays.
    SystemDefault,
    /// What a process plays.
    ProcessTree,
}

/// What to capture.
#[derive(Debug, Clone, Copy, PartialEq, Eq, Structural)]
pub struct WasapiLoopbackOptions {
    pub mode: LoopbackMode,
    pub target_pid: u32,
    /// Whether the children of the process are wanted too. The system captures a
    /// process together with its children, or everything but these; it cannot single
    /// out one process. So the process is captured together with its children either
    /// way, and a process alone is heard as such only while it has no children that
    /// play.
    pub include_tree: bool,
}

/// The audio of the default device.
pub open spec fn default_options() -> WasapiLoopbackOptions {
    WasapiLoopbackOptions { mode: LoopbackMode::SystemDefault, target_pid: 0, include_tree: true }
}

impl Default for WasapiLoopbackOptions {
    fn default() -> (opts: Self)
        ensures
            opts == default_options(),
    {
        WasapiLoopbackOptions {
            mode: LoopbackMode::SystemDefault,
            target_pid: 0,
            include_tree: true,
        }
    }
}

/// A piece of audio as it is handed to the consumer, who then holds its buffer for as long
/// as they need it, and gives it back with `WasapiLoopback::release`.
#[derive(Debug, PartialEq, Eq, Structural)]
pub struct AudioChunk {
    /// The buffer of the pool that holds the samples.
    pub slot: usize,
    pub frame_count: u32,
    pub channels: u32,
    pub sample_rate: u32,
    pub timestamp_ns: u64,
    pub silent: bool,
    pub discontinuity: bool,
}

/// The number of buffers of the pool.
pub const POOL_SIZE: usize = 16;

/// A buffer of samples, each the bits of a floating-point number.
#[derive(Debug)]
pub struct PoolBuffer {
    pub data: Vec<u32>,
    pub in_use: bool,
}

/// The contents of a `PoolBuffer` as mathematical values.
pub struct BufferModel {
    pub data: Seq<u32>,
    pub in_use: bool,
}

impl View for PoolBuffer {
    type V = BufferModel;

    open spec fn view(&self) -> BufferModel {
        BufferModel { data: self.data@, in_use: self.in_use }
    }
}

/// The contents of a pool.
pub open spec fn pool_view(pool: Seq<PoolBuffer>) -> Seq<BufferModel> {
    pool.map_values(|b: PoolBuffer| b@)
}

/// The first buffer from `i` on that is not in use; the number of buffers if all
/// are.
pub open spec fn first_free(pool: Seq<BufferModel>, i: nat) -> nat
    decreases pool.len() - i,
{
    if i >= pool.len() {
        pool.len()
    } else if !pool[i as int].in_use {
        i
    } else {
        first_free(pool, i + 1)
    }
}

/// Samples with zeros behind them up to a length.
pub open spec fn lengthened(data: Seq<u32>, len: nat) -> Seq<u32> {
    if data.len() < len {
        data + Seq::new((len - data.len()) as nat, |i: int| 0u32)
    } else {
        data
    }
}

/// The pool after a buffer for so many samples has been taken from it.
pub open spec fn taken(pool: Seq<BufferModel>, needed: nat) -> Seq<BufferModel> {
    let k = first_free(pool, 0) as int;
    if k < pool.len() {
        pool.update(k, BufferModel { data: lengthened(pool[k].data, needed), in_use: true })
    } else {
        pool
    }
}

/// Takes the first buffer that is not in use and makes room in it for so many
/// samples. Nothing is taken where all buffers are in use.
pub fn acquire_buffer(pool: &mut Vec<PoolBuffer>, needed: usize) -> (r: Option<usize>)
    ensures
        pool_view(final(pool)@) == taken(pool_view(old(pool)@), needed as nat),
        final(pool).len() == old(pool).len(),
        r == (if first_free(pool_view(old(pool)@), 0) < old(pool).len() {
            Some(first_free(pool_view(old(pool)@), 0) as usize)
        } else {
            None
        }),
{
    let ghost before = pool_view(pool@);
    let mut i: usize = 0;
    while i < pool.len()
        invariant
            *pool == *old(pool),
            before == pool_view(pool@),
            i <= pool.len(),
            first_free(before, 0) == first_free(before, i as nat),
        decreases pool.len() - i,
    {
        assert(before[i as int] == pool@[i as int]@);
        if !pool[i].in_use {
            pool[i].in_use = true;
            let mut data: Vec<u32> = Vec::new();
            std::mem::swap(&mut data, &mut pool[i].data);
            let ghost start = data@;
            while data.len() < needed
                invariant
                    start.len() <= data.len(),
                    data@ =~= start + Seq::new((data.len() - start.len()) as nat, |j: int| 0u32),
                    data.len() <= needed || data@ =~= start,
                decreases needed - data.len(),
            {
                data.push(0);
            }
            assert(data@ =~= lengthened(start, needed as nat));
            pool[i].data = data;
            assert(pool_view(pool@) =~= taken(before, needed as nat));
            return Some(i);
        }
        i = i + 1;
    }
    None
}

/// A stream of audio being captured. The flags say which outside objects it
/// holds.
#[derive(Debug)]
pub struct WasapiLoopback {
    opts: WasapiLoopbackOptions,
    format: AudioFormat,
    running: bool,
    callbacks: bool,
    stop_event: bool,
    thread: bool,
    pool: Vec<PoolBuffer>,
}

/// The contents of a `WasapiLoopback` as mathematical values.
#[verifier::ext_equal]
pub struct LoopbackModel {
    pub opts: WasapiLoopbackOptions,
    pub format: AudioFormat,
    /// Whether the stream has been started and not stopped.
    pub running: bool,
    /// Whether somebody listens.
    pub callbacks: bool,
    pub stop_event: bool,
    pub thread: bool,
    pub pool: Seq<BufferModel>,
}

impl View for WasapiLoopback {
    type V = LoopbackModel;

    closed spec fn view(&self) -> LoopbackModel {
        LoopbackModel {
            opts: self.opts,
            format: self.format,
            running: self.running,
            callbacks: self.callbacks,
            stop_event: self.stop_event,
            thread: self.thread,
            pool: pool_view(self.pool@),
        }
    }
}

/// What to do when a stream is stopped, in this order.
#[derive(Debug, Clone, Copy, PartialEq, Eq, Structural)]
pub struct LoopbackStop {
    pub signal_stop_event: bool,
    pub join_thread: bool,
    pub close_stop_event: bool,
}

/// The stream plays back what is played.
pub const FLAG_LOOPBACK: u32 = 0x0002_0000;

/// The stream signals an event.
pub const FLAG_EVENT_CALLBACK: u32 = 0x0004_0000;

/// The stream converts formats.
pub const FLAG_AUTO_CONVERT: u32 = 0x8000_0000;

/// The stream converts sample rates with the default quality.
pub const FLAG_DEFAULT_QUALITY: u32 = 0x0800_0000;

/// The flags of every stream.
pub const STREAM_FLAGS: u32 = FLAG_LOOPBACK | FLAG_EVENT_CALLBACK | FLAG_AUTO_CONVERT
    | FLAG_DEFAULT_QUALITY;

/// The length of the buffer where no short period can be had, in units of
/// 100 ns: 20 ms.
pub const FALLBACK_DURATION_HNS: i64 = 200_000;

/// The process and its children are captured, not everything but them.
pub const LOOPBACK_INCLUDE_TREE: i32 = 0;

/// The outside work that comes next while a stream is set up.
#[derive(Debug, Clone, Copy, PartialEq, Eq, Structural)]
pub enum AudioStep {
    CreateEnumerator,
    FindDefaultEndpoint,
    ActivateEndpoint,
    CreateActivationEvent,
    ActivateProcess { pid: u32, mode: i32 },
    AwaitActivation,
    CastClient,
    QueryMixFormat,
    UseFormat(WaveFormat),
    QueryLowLatencyClient,
    QueryPeriod,
    InitializeLowLatency { flags: u32, period: u32 },
    InitializeShared { flags: u32, duration_hns: i64 },
    CreateAudioEvent,
    SetEventHandle,
    QueryCaptureClient,
    StartStream,
    Capture,
}

/// What has been done while a stream is set up.
#[derive(Debug, Clone, Copy)]
pub enum AudioEvent {
    Begin,
    EnumeratorCreated,
    EndpointFound,
    ActivationEvent(Result<(), i32>),
    ActivationRequested,
    /// The outcome of an activation: its code, and whether an object came with it.
    Activated { hr: i32, present: bool },
    ClientReady,
    FormatReady,
    LowLatencyClient { present: bool },
    /// The fundamental and the smallest period of the device, if it told them.
    Period(Option<(u32, u32)>),
    LowLatencyInitialized { done: bool },
    SharedInitialized(Result<(), i32>),
    AudioEventCreated(Result<(), i32>),
    EventHandleSet,
    /// Everything is there; the format is the one that the stream was set up with.
    CaptureClientReady(Option<WaveFormat>),
    StreamStarted,
}

/// The set-up of a stream with the 20 ms buffer.
pub open spec fn shared_step() -> AudioStep {
    AudioStep::InitializeShared { flags: STREAM_FLAGS, duration_hns: FALLBACK_DURATION_HNS }
}

/// The step that follows, where the set-up goes on.
pub open spec fn audio_step_after(opts: WasapiLoopbackOptions, event: AudioEvent) -> AudioStep {
    let system = opts.mode == LoopbackMode::SystemDefault;
    match event {
        AudioEvent::Begin => if system {
            AudioStep::CreateEnumerator
        } else {
            AudioStep::CreateActivationEvent
        },
        AudioEvent::EnumeratorCreated => AudioStep::FindDefaultEndpoint,
        AudioEvent::EndpointFound => AudioStep::ActivateEndpoint,
        AudioEvent::ActivationEvent(_) => AudioStep::ActivateProcess {
            pid: opts.target_pid,
            mode: LOOPBACK_INCLUDE_TREE,
        },
        AudioEvent::ActivationRequested => AudioStep::AwaitActivation,
        AudioEvent::Activated { .. } => AudioStep::CastClient,
        AudioEvent::ClientReady => if system {
            AudioStep::QueryMixFormat
        } else {
            AudioStep::UseFormat(stereo_float_wave())
        },
        AudioEvent::FormatReady => if system {
            AudioStep::QueryLowLatencyClient
        } else {
            shared_step()
        },
        AudioEvent::LowLatencyClient { present } => if present {
            AudioStep::QueryPeriod
        } else {
            shared_step()
        },
        AudioEvent::Period(Some((fundamental, smallest))) => AudioStep::InitializeLowLatency {
            flags: STREAM_FLAGS,
            period: if smallest >= fundamental {
                smallest
            } else {
                fundamental
            },
        },
        AudioEvent::Period(None) => shared_step(),
        AudioEvent::LowLatencyInitialized { done } => if done {
            AudioStep::CreateAudioEvent
        } else {
            shared_step()
        },
        AudioEvent::SharedInitialized(_) => AudioStep::CreateAudioEvent,
        AudioEvent::AudioEventCreated(_) => AudioStep::SetEventHandle,
        AudioEvent::EventHandleSet => AudioStep::QueryCaptureClient,
        AudioEvent::CaptureClientReady(_) => AudioStep::StartStream,
        AudioEvent::StreamStarted => AudioStep::Capture,
    }
}

/// The error of this component with a code.
pub open spec fn audio_error(hr: i32, context: Seq<char>) -> ErrorModel {
    ErrorModel::HResult { component: "wasapi_loopback"@, hr, context }
}

/// What ends the set-up, if something does.
pub open spec fn audio_problem(event: AudioEvent) -> Option<ErrorModel> {
    match event {
        AudioEvent::ActivationEvent(Err(hr)) => Some(
            audio_error(hr, "CreateEvent for activation"@),
        ),
        AudioEvent::Activated { hr, present } => if hr < 0 {
            Some(audio_error(hr, "ActivateAudioInterfaceAsync result"@))
        } else if !present {
            Some(
                ErrorModel::General {
                    component: "wasapi_loopback"@,
                    message: "activation returned null"@,
                },
            )
        } else {
            None
        },
        AudioEvent::SharedInitialized(Err(hr)) => Some(audio_error(hr, "IAudioClient::Initialize"@)),
        AudioEvent::AudioEventCreated(Err(hr)) => Some(audio_error(hr, "CreateEvent for audio"@)),
        _ => None,
    }
}

/// The format that a description stands for.
pub open spec fn format_of(wave: Option<WaveFormat>) -> AudioFormat {
    match wave {
        Some(wf) => AudioFormat {
            sample_rate: wf.samples_per_sec,
            channels: wf.channels as u32,
            float32: wf.is_float(),
            bits_per_sample: wf.bits_per_sample as u32,
        },
        None => AudioFormat { sample_rate: 0, channels: 0, float32: true, bits_per_sample: 32 },
    }
}

impl WasapiLoopback {
    /// A stream that has not been started, with all buffers free and empty.
    pub fn new(opts: WasapiLoopbackOptions) -> (stream: Self)
        ensures
            stream@ == (LoopbackModel {
                opts,
                format: stereo_float(),
                running: false,
                callbacks: false,
                stop_event: false,
                thread: false,
                pool: Seq::new(
                    POOL_SIZE as nat,
                    |i: int| BufferModel { data: Seq::empty(), in_use: false },
                ),
            }),
            stream@.pool.len() == 16,
    {
        let mut pool: Vec<PoolBuffer> = Vec::new();
        while pool.len() < POOL_SIZE
            invariant
                pool.len() <= POOL_SIZE,
                pool_view(pool@) =~= Seq::new(
                    pool.len() as nat,
                    |i: int| BufferModel { data: Seq::empty(), in_use: false },
                ),
            decreases POOL_SIZE - pool.len(),
        {
            let ghost before = pool_view(pool@);
            let buffer = PoolBuffer { data: Vec::new(), in_use: false };
            assert(buffer@ == BufferModel { data: Seq::empty(), in_use: false });
            pool.push(buffer);
            assert(pool_view(pool@) =~= before.push(buffer@));
        }
        WasapiLoopback {
            opts,
            format: AudioFormat::default(),
            running: false,
            callbacks: false,
            stop_event: false,
            thread: false,
            pool,
        }
    }

    /// The format of the stream; the default one until the stream is set up.
    pub fn format(&self) -> (format: AudioFormat)
        ensures
            format == self@.format,
    {
        self.format
    }

    /// Starts the stream for a consumer. The answer says whether there is anything
    /// to do: the stop event is created next. A stream that runs already is left
    /// alone.
    pub fn start(&mut self) -> (go: bool)
        ensures
            go == !old(self)@.running,
            final(self)@ == (if old(self)@.running {
                old(self)@
            } else {
                LoopbackModel { running: true, callbacks: true, ..old(self)@ }
            }),
            final(self)@ == old(self)@.begun(),
    {
        if self.running {
            return false;
        }
        self.running = true;
        self.callbacks = true;
        true
    }

    /// Goes on after the attempt to create the stop event: with it the thread is
    /// started, without it the stream does not run.
    pub fn stop_event_created(&mut self, created: Result<(), i32>) -> (r: WincapResult<()>)
        ensures
            match created {
                Ok(_) => r is Ok && final(self)@ == (LoopbackModel {
                    stop_event: true,
                    thread: true,
                    ..old(self)@
                }),
                Err(hr) => r matches Err(e) && e@ == audio_error(hr, "CreateEvent for stop signal"@)
                    && final(self)@ == (LoopbackModel { running: false, ..old(self)@ }),
            },
    {
        match created {
            Ok(_) => {
                self.stop_event = true;
                self.thread = true;
                Ok(())
            },
            Err(hr) => {
                self.running = false;
                Err(WincapError::hresult("wasapi_loopback", hr, "CreateEvent for stop signal"))
            },
        }
    }

    /// Stops the stream: says what to do about the thread, which may hand on more
    /// audio until it has ended. `stopped` is called after that. A stream that does
    /// not run is left alone, with nothing to do.
    pub fn stop(&mut self) -> (todo: Option<LoopbackStop>)
        ensures
            final(self)@ == (LoopbackModel { running: false, ..old(self)@ }),
            todo == (if old(self)@.running {
                Some(
                    LoopbackStop {
                        signal_stop_event: old(self)@.stop_event,
                        join_thread: old(self)@.thread,
                        close_stop_event: old(self)@.stop_event,
                    },
                )
            } else {
                None
            }),
            final(self)@ == old(self)@.halted(),
            todo == old(self)@.to_stop(),
    {
        if !self.running {
            return None;
        }
        self.running = false;
        Some(
            LoopbackStop {
                signal_stop_event: self.stop_event,
                join_thread: self.thread,
                close_stop_event: self.stop_event,
            },
        )
    }

    /// Forgets the consumer, once the thread has ended and the stop event is closed.
    pub fn stopped(&mut self)
        ensures
            final(self)@ == (LoopbackModel {
                callbacks: false,
                stop_event: false,
                thread: false,
                ..old(self)@
            }),
            final(self)@ == old(self)@.forgotten(),
    {
        self.callbacks = false;
        self.stop_event = false;
        self.thread = false;
    }

    /// What setting up the stream does after something has been done. The format is
    /// noted once everything is there.
    pub fn setup_event(&mut self, event: AudioEvent) -> (r: WincapResult<AudioStep>)
        ensures
            match audio_problem(event) {
                Some(problem) => r matches Err(e) && e@ == problem,
                None => r == Ok::<AudioStep, WincapError>(audio_step_after(old(self)@.opts, event)),
            },
            final(self)@ == (match event {
                AudioEvent::CaptureClientReady(wave) => LoopbackModel {
                    format: format_of(wave),
                    ..old(self)@
                },
                _ => old(self)@,
            }),
    {
        let system = self.opts.mode == LoopbackMode::SystemDefault;
        let shared = AudioStep::InitializeShared {
            flags: STREAM_FLAGS,
            duration_hns: FALLBACK_DURATION_HNS,
        };
        let step = match event {
            AudioEvent::Begin => if system {
                AudioStep::CreateEnumerator
            } else {
                AudioStep::CreateActivationEvent
            },
            AudioEvent::EnumeratorCreated => AudioStep::FindDefaultEndpoint,
            AudioEvent::EndpointFound => AudioStep::ActivateEndpoint,
            AudioEvent::ActivationEvent(created) => {
                if let Err(hr) = created {
                    return Err(
                        WincapError::hresult("wasapi_loopback", hr, "CreateEvent for activation"),
                    );
                }
                AudioStep::ActivateProcess {
                    pid: self.opts.target_pid,
                    mode: LOOPBACK_INCLUDE_TREE,
                }
            },
            AudioEvent::ActivationRequested => AudioStep::AwaitActivation,
            AudioEvent::Activated { hr, present } => {
                if hresult_is_err(hr) {
                    return Err(
                        WincapError::hresult(
                            "wasapi_loopback",
                            hr,
                            "ActivateAudioInterfaceAsync result",
                        ),
                    );
                }
                if !present {
                    return Err(WincapError::general("wasapi_loopback", "activation returned null"));
                }
                AudioStep::CastClient
            },
            AudioEvent::ClientReady => if system {
                AudioStep::QueryMixFormat
            } else {
                AudioStep::UseFormat(process_loopback_format())
            },
            AudioEvent::FormatReady => if system {
                AudioStep::QueryLowLatencyClient
            } else {
                shared
            },
            AudioEvent::LowLatencyClient { present } => if present {
                AudioStep::QueryPeriod
            } else {
                shared
            },
            AudioEvent::Period(period) => match period {
                Some((fundamental, smallest)) => {
                    let period: u32 = if smallest >= fundamental {
                        smallest
                    } else {
                        fundamental
                    };
                    AudioStep::InitializeLowLatency { flags: STREAM_FLAGS, period }
                },
                None => shared,
            },
            AudioEvent::LowLatencyInitialized { done } => if done {
                AudioStep::CreateAudioEvent
            } else {
                shared
            },
            AudioEvent::SharedInitialized(done) => {
                if let Err(hr) = done {
                    return Err(
                        WincapError::hresult("wasapi_loopback", hr, "IAudioClient::Initialize"),
                    );
                }
                AudioStep::CreateAudioEvent
            },
            AudioEvent::AudioEventCreated(created) => {
                if let Err(hr) = created {
                    return Err(
                        WincapError::hresult("wasapi_loopback", hr, "CreateEvent for audio"),
                    );
                }
                AudioStep::SetEventHandle
            },
            AudioEvent::EventHandleSet => AudioStep::QueryCaptureClient,
            AudioEvent::CaptureClientReady(wave) => {
                self.format = match &wave {
                    Some(wf) => AudioFormat::from_wave_format(Some(wf)),
                    None => AudioFormat::from_wave_format(None),
                };
                AudioStep::StartStream
            },
            AudioEvent::StreamStarted => AudioStep::Capture,
        };
        Ok(step)
    }

    /// The report of a set-up that failed, if anybody listens.
    pub fn setup_failed(&self, e: &WincapError) -> (report: Option<ErrorPayload>)
        ensures
            match report {
                Some(p) => self@.callbacks && p@ == e@.payload(),
                None => !self@.callbacks,
            },
            report_view(report) == report_to(self@.callbacks, e@),
    {
        if self.callbacks {
            Some(e.report())
        } else {
            None
        }
    }
}

/// The stream has audio.
pub const WAIT_AUDIO: u32 = 0;

/// The stream is to stop.
pub const WAIT_STOP: u32 = 1;

/// Nothing happened for a while.
pub const WAIT_TIMED_OUT: u32 = 258;

/// The code of a buffer that holds nothing.
pub const BUFFER_EMPTY: i32 = 0x0889_0001;

/// The outside work that comes next while a stream is captured.
#[derive(Debug, PartialEq, Eq, Structural)]
pub enum LoopStep {
    /// Wait for audio or for the end.
    Wait,
    /// Ask for the size of the next packet.
    NextPacket,
    GetBuffer,
    /// Hand a piece of audio to the consumer.
    Deliver(AudioChunk),
    ReleaseBuffer { frames: u32 },
    /// Report that a buffer could not be had.
    Report { hr: i32 },
    /// Stop the client and let go of everything.
    Exit,
}

/// What has happened while a stream is captured.
#[derive(Debug, Clone, Copy)]
pub enum LoopEvent {
    Started,
    Waited { answer: u32 },
    /// The size of the next packet, if it could be had.
    PacketSize(Option<u32>),
    BufferFailed { hr: i32 },
    Reported,
    /// A piece of audio was handed to the consumer, who may still hold it.
    Delivered { frames: u32 },
    Released,
}

/// A packet that the stream lent out.
#[derive(Debug, Clone, Copy, PartialEq, Eq, Structural)]
pub struct Packet {
    pub frames: u32,
    pub flags: u32,
    /// When the packet was recorded, by the performance counter, in units of 100 ns.
    pub position: u64,
}

impl Packet {
    /// Whether the packet stands for silence.
    pub open spec fn is_silent(self) -> bool {
        (self.flags / 2) % 2 == 1
    }

    /// Whether audio was lost before the packet.
    pub open spec fn is_discontinuous(self) -> bool {
        self.flags % 2 == 1
    }

    /// How many samples the packet holds.
    pub open spec fn samples(self, channels: u32) -> int {
        self.frames * channels
    }

    /// Whether the packet stands for silence.
    pub fn silent(&self) -> (yes: bool)
        ensures
            yes == self.is_silent(),
    {
        let flags = self.flags;
        assert((flags & 2 != 0) == ((flags / 2) % 2 == 1)) by (bit_vector);
        (self.flags & 2) != 0
    }

    /// Whether audio was lost before the packet.
    pub fn discontinuous(&self) -> (yes: bool)
        ensures
            yes == self.is_discontinuous(),
    {
        let flags = self.flags;
        assert((flags & 1 != 0) == (flags % 2 == 1)) by (bit_vector);
        (self.flags & 1) != 0
    }
}

/// The loop goes round once more, unless the stream has been stopped.
pub open spec fn round(running: bool) -> LoopStep {
    if running {
        LoopStep::Wait
    } else {
        LoopStep::Exit
    }
}

/// The step that follows.
pub open spec fn loop_step_after(running: bool, callbacks: bool, event: LoopEvent) -> LoopStep {
    match event {
        LoopEvent::Started => round(running),
        LoopEvent::Waited { answer } => if answer == WAIT_TIMED_OUT {
            round(running)
        } else if answer == WAIT_AUDIO {
            LoopStep::NextPacket
        } else {
            LoopStep::Exit
        },
        LoopEvent::PacketSize(Some(size)) => if size == 0 {
            round(running)
        } else {
            LoopStep::GetBuffer
        },
        LoopEvent::PacketSize(None) => round(running),
        LoopEvent::BufferFailed { hr } => if hr != BUFFER_EMPTY && callbacks {
            LoopStep::Report { hr }
        } else {
            round(running)
        },
        LoopEvent::Reported => round(running),
        LoopEvent::Delivered { frames } => LoopStep::ReleaseBuffer { frames },
        LoopEvent::Released => LoopStep::NextPacket,
    }
}

/// What a packet leaves in its buffer: its samples, or zeros for silence.
pub open spec fn content_of(packet: Packet, channels: u32, samples: Seq<u32>) -> Seq<u32> {
    if packet.is_silent() {
        Seq::new(packet.samples(channels) as nat, |i: int| 0u32)
    } else {
        samples
    }
}

/// Samples with the first ones replaced.
pub open spec fn overwritten(data: Seq<u32>, content: Seq<u32>) -> Seq<u32> {
    content + data.skip(content.len() as int)
}

/// The pool after a packet: its content stands in the first buffer that was free,
/// which is in use if somebody listens. Where none was free the packet is lost.
pub open spec fn pool_after(pool: Seq<BufferModel>, content: Seq<u32>, heard: bool) -> Seq<
    BufferModel,
> {
    let k = first_free(pool, 0) as int;
    if k < pool.len() {
        pool.update(
            k,
            BufferModel {
                data: overwritten(lengthened(pool[k].data, content.len()), content),
                in_use: heard,
            },
        )
    } else {
        pool
    }
}

/// The chunk that a packet becomes: none where no buffer is free for it or nobody
/// listens.
pub open spec fn chunk_of(
    pool: Seq<BufferModel>,
    packet: Packet,
    format: AudioFormat,
    heard: bool,
) -> Option<AudioChunk> {
    let k = first_free(pool, 0);
    if k < pool.len() && heard {
        Some(
            AudioChunk {
                slot: k as usize,
                frame_count: packet.frames,
                channels: format.channels,
                sample_rate: format.sample_rate,
                timestamp_ns: span_ns(packet.position as int) as u64,
                silent: packet.is_silent(),
                discontinuity: packet.is_discontinuous(),
            },
        )
    } else {
        None
    }
}

/// What follows a packet that the stream lent out: it is handed on, or given back
/// at once.
pub open spec fn packet_step(packet: Packet, chunk: Option<AudioChunk>) -> LoopStep {
    match chunk {
        Some(chunk) => LoopStep::Deliver(chunk),
        None => LoopStep::ReleaseBuffer { frames: packet.frames },
    }
}

/// The pool after a buffer was given back; what it holds stays until it is taken
/// again.
pub open spec fn released(pool: Seq<BufferModel>, slot: int) -> Seq<BufferModel> {
    if 0 <= slot < pool.len() {
        pool.update(slot, BufferModel { data: pool[slot].data, in_use: false })
    } else {
        pool
    }
}

/// The samples of a piece of audio, where its buffer holds so many.
pub open spec fn samples_of(pool: Seq<BufferModel>, chunk: AudioChunk) -> Option<Seq<u32>> {
    let n = chunk.frame_count * chunk.channels;
    if chunk.slot < pool.len() && n <= pool[chunk.slot as int].data.len() {
        Some(pool[chunk.slot as int].data.take(n))
    } else {
        None
    }
}

impl LoopbackModel {
    /// The stream after it was started.
    pub open spec fn begun(self) -> LoopbackModel {
        if self.running {
            self
        } else {
            LoopbackModel { running: true, callbacks: true, ..self }
        }
    }

    /// The stream after it was told to stop.
    pub open spec fn halted(self) -> LoopbackModel {
        LoopbackModel { running: false, ..self }
    }

    /// The stream once its thread has ended.
    pub open spec fn forgotten(self) -> LoopbackModel {
        LoopbackModel { callbacks: false, stop_event: false, thread: false, ..self }
    }

    /// What there is to do when the stream is stopped.
    pub open spec fn to_stop(self) -> Option<LoopbackStop> {
        if self.running {
            Some(
                LoopbackStop {
                    signal_stop_event: self.stop_event,
                    join_thread: self.thread,
                    close_stop_event: self.stop_event,
                },
            )
        } else {
            None
        }
    }

    /// The stream after a buffer was given back.
    pub open spec fn after_release(self, slot: int) -> LoopbackModel {
        LoopbackModel { pool: released(self.pool, slot), ..self }
    }
}

impl WasapiLoopback {
    /// What the loop does after something has happened.
    pub fn loop_event(&self, event: LoopEvent) -> (step: LoopStep)
        ensures
            step == loop_step_after(self@.running, self@.callbacks, event),
    {
        let round = if self.running {
            LoopStep::Wait
        } else {
            LoopStep::Exit
        };
        match event {
            LoopEvent::Started => round,
            LoopEvent::Waited { answer } => if answer == WAIT_STOP {
                LoopStep::Exit
            } else if answer == WAIT_TIMED_OUT {
                round
            } else if answer != WAIT_AUDIO {
                LoopStep::Exit
            } else {
                LoopStep::NextPacket
            },
            LoopEvent::PacketSize(size) => match size {
                Some(size) => if size == 0 {
                    round
                } else {
                    LoopStep::GetBuffer
                },
                None => round,
            },
            LoopEvent::BufferFailed { hr } => if hr == BUFFER_EMPTY || !self.callbacks {
                round
            } else {
                LoopStep::Report { hr }
            },
            LoopEvent::Reported => round,
            LoopEvent::Delivered { frames } => LoopStep::ReleaseBuffer { frames },
            LoopEvent::Released => LoopStep::NextPacket,
        }
    }

    /// How many samples a packet of the stream holds; nothing where memory cannot
    /// hold so many.
    pub fn packet_samples(&self, packet: &Packet) -> (n: Option<usize>)
        ensures
            match n {
                Some(n) => n == packet.samples(self@.format.channels),
                None => packet.samples(self@.format.channels) > usize::MAX,
            },
    {
        assert(0 <= packet.frames * self.format.channels) by (nonlinear_arith)
            requires
                0 <= packet.frames,
                0 <= self.format.channels,
        ;
        (packet.frames as usize).checked_mul(self.format.channels as usize)
    }

    /// Takes over a packet that the stream lent out, with its samples unless it is
    /// silent: they are copied to a free buffer and handed on. Without a free
    /// buffer the packet is dropped. Either way the stream gets it back.
    pub fn packet(&mut self, packet: Packet, samples: &[u32]) -> (step: LoopStep)
        requires
            packet.samples(old(self)@.format.channels) <= usize::MAX,
            !packet.is_silent() ==> samples@.len() == packet.samples(old(self)@.format.channels),
        ensures
            final(self)@ == (LoopbackModel {
                pool: pool_after(
                    old(self)@.pool,
                    content_of(packet, old(self)@.format.channels, samples@),
                    old(self)@.callbacks,
                ),
                ..old(self)@
            }),
            step == packet_step(
                packet,
                chunk_of(old(self)@.pool, packet, old(self)@.format, old(self)@.callbacks),
            ),
            step matches LoopStep::Deliver(chunk) ==> {
                let n = packet.frames * old(self)@.format.channels;
                &&& chunk.frame_count * chunk.channels == n
                &&& chunk.slot < final(self)@.pool.len()
                &&& final(self)@.pool[chunk.slot as int].data.len() >= n
                &&& packet.flags & 2 == 0 ==> final(self)@.pool[chunk.slot as int].data.take(n)
                    == samples@
            },
    {
        let flags = packet.flags;
        assert((flags & 2 != 0) == ((flags / 2) % 2 == 1)) by (bit_vector);
        let ghost before = pool_view(self.pool@);
        let ghost content = content_of(packet, self.format.channels, samples@);
        assert(0 <= packet.frames * self.format.channels) by (nonlinear_arith)
            requires
                0 <= packet.frames,
                0 <= self.format.channels,
        ;
        let needed: usize = packet.frames as usize * self.format.channels as usize;
        assert(content.len() == needed);
        let slot: usize = match acquire_buffer(&mut self.pool, needed) {
            Some(slot) => slot,
            None => {
                return LoopStep::ReleaseBuffer { frames: packet.frames };
            },
        };
        let silent = packet.silent();
        let ghost held = self.pool@;
        let ghost acquired = pool_view(held);
        assert(acquired[slot as int] == held[slot as int]@);
        let mut data: Vec<u32> = Vec::new();
        std::mem::swap(&mut data, &mut self.pool[slot].data);
        let ghost start = data@;
        assert(start == lengthened(before[slot as int].data, needed as nat));
        let mut i: usize = 0;
        while i < needed
            invariant
                i <= needed,
                needed <= data.len(),
                data@ =~= content.take(i as int) + start.skip(i as int),
                start.len() == data.len(),
                content.len() == needed,
                silent == packet.is_silent(),
                !silent ==> content == samples@,
                silent ==> content == Seq::new(needed as nat, |i: int| 0u32),
            decreases needed - i,
        {
            let sample: u32 = if silent {
                0
            } else {
                samples[i]
            };
            data.set(i, sample);
            i = i + 1;
        }
        assert(data@ =~= overwritten(start, content));
        self.pool[slot].data = data;
        if !self.callbacks {
            self.pool[slot].in_use = false;
        }
        assert forall|j: int| 0 <= j < held.len() implies #[trigger] pool_view(self.pool@)[j]
            == pool_after(before, content, self.callbacks)[j] by {
            if j != slot {
                assert(self.pool@[j] == held[j]);
                assert(acquired[j] == held[j]@);
            }
        }
        assert(pool_view(self.pool@) =~= pool_after(before, content, self.callbacks));
        assert(overwritten(start, content).take(content.len() as int) =~= content);
        if !self.callbacks {
            return LoopStep::ReleaseBuffer { frames: packet.frames };
        }
        LoopStep::Deliver(
            AudioChunk {
                slot,
                frame_count: packet.frames,
                channels: self.format.channels,
                sample_rate: self.format.sample_rate,
                timestamp_ns: position_to_ns(packet.position),
                silent,
                discontinuity: packet.discontinuous(),
            },
        )
    }

    /// The samples of a piece of audio that was handed on; nothing where its buffer
    /// does not hold so many.
    pub fn samples(&self, chunk: &AudioChunk) -> (samples: Option<&[u32]>)
        ensures
            ({
                let n = chunk.frame_count * chunk.channels;
                match samples {
                    Some(samples) => chunk.slot < self@.pool.len() && n
                        <= self@.pool[chunk.slot as int].data.len() && samples@
                        == self@.pool[chunk.slot as int].data.take(n),
                    None => chunk.slot >= self@.pool.len() || n
                        > self@.pool[chunk.slot as int].data.len(),
                }
            }),
            match samples {
                Some(samples) => samples_of(self@.pool, *chunk) == Some(samples@),
                None => samples_of(self@.pool, *chunk) is None,
            },
    {
        if chunk.slot >= self.pool.len() {
            return None;
        }
        assert(self@.pool[chunk.slot as int] == self.pool@[chunk.slot as int]@);
        assert(0 <= chunk.frame_count * chunk.channels) by (nonlinear_arith)
            requires
                0 <= chunk.frame_count,
                0 <= chunk.channels,
        ;
        let data: &[u32] = self.pool[chunk.slot].data.as_slice();
        assert(data@.len() == data.len());
        match (chunk.frame_count as usize).checked_mul(chunk.channels as usize) {
            Some(n) => if n <= data.len() {
                assert(data@.subrange(0, n as int) =~= data@.take(n as int));
                Some(vstd::slice::slice_subrange(data, 0, n))
            } else {
                None
            },
            None => None,
        }
    }

    /// Takes the buffer of a piece of audio back, once the consumer is done with it.
    pub fn release(&mut self, chunk: AudioChunk)
        ensures
            final(self)@ == old(self)@.after_release(chunk.slot as int),
    {
        let slot: usize = chunk.slot;
        let ghost before = pool_view(self.pool@);
        if slot < self.pool.len() {
            assert(before[slot as int] == self.pool@[slot as int]@);
            self.pool[slot].in_use = false;
        }
        assert(pool_view(self.pool@) =~= released(before, slot as int));
    }
}

/// The report of a buffer that could not be had.
pub fn buffer_report(hr: i32) -> (p: ErrorPayload)
    ensures
        p@ == (PayloadModel {
            component: "wasapi_loopback"@,
            hresult: hr,
            message: "GetBuffer failed"@,
        }),
{
    ErrorPayload {
        component: "wasapi_loopback".to_owned(),
        hresult: hr,
        message: "GetBuffer failed".to_owned(),
    }
}

proof fn lemma_first_free(pool: Seq<BufferModel>, i: nat)
    requires
        i <= pool.len(),
    ensures
        ({
            let k = first_free(pool, i);
            &&& i <= k <= pool.len()
            &&& k < pool.len() ==> !pool[k as int].in_use
            &&& forall|j: int| i <= j < k ==> (#[trigger] pool[j]).in_use
        }),
    decreases pool.len() - i,
{
    if i < pool.len() && pool[i as int].in_use {
        lemma_first_free(pool, i + 1);
    }
}

/// What a packet held can be read from the buffer that is handed on, from its
/// beginning.
pub proof fn law_delivered_audio_reads_back(pool: Seq<BufferModel>, content: Seq<u32>)
    requires
        first_free(pool, 0) < pool.len(),
    ensures
        ({
            let buffer = pool_after(pool, content, true)[first_free(pool, 0) as int];
            &&& buffer.in_use
            &&& buffer.data.len() >= content.len()
            &&& buffer.data.take(content.len() as int) == content
        }),
{
    let buffer = pool_after(pool, content, true)[first_free(pool, 0) as int];
    assert(buffer.data.take(content.len() as int) =~= content);
}

/// A packet is dropped only when every buffer is held; a buffer that comes back
/// can be taken again.
pub proof fn law_audio_is_lost_only_when_all_is_held(pool: Seq<BufferModel>, slot: int)
    requires
        0 <= slot < pool.len(),
    ensures
        first_free(pool, 0) == pool.len() <==> forall|j: int|
            0 <= j < pool.len() ==> (#[trigger] pool[j]).in_use,
        first_free(released(pool, slot), 0) <= slot,
{
    lemma_first_free(pool, 0);
    let freed = released(pool, slot);
    lemma_first_free(freed, 0);
    assert(!freed[slot].in_use);
}

/// What the loop is told after a step, with what holds of the stream at that time.
pub enum LoopAnswer {
    Happened { running: bool, callbacks: bool, event: LoopEvent },
    /// The stream lent out a packet, which became a chunk or not.
    Lent { packet: Packet, chunk: Option<AudioChunk> },
}

/// Whether something is an answer to a step.
pub open spec fn answers(step: LoopStep, answer: LoopAnswer) -> bool {
    match answer {
        LoopAnswer::Lent { packet, chunk } => step == LoopStep::GetBuffer && (chunk matches Some(
            chunk,
        ) ==> chunk.frame_count == packet.frames),
        LoopAnswer::Happened { event, .. } => match step {
            LoopStep::Wait => event is Waited,
            LoopStep::NextPacket => event is PacketSize,
            LoopStep::GetBuffer => event is BufferFailed,
            LoopStep::Deliver(chunk) => event == (LoopEvent::Delivered {
                frames: chunk.frame_count,
            }),
            LoopStep::ReleaseBuffer { .. } => event is Released,
            LoopStep::Report { .. } => event is Reported,
            LoopStep::Exit => false,
        },
    }
}

/// The step that follows an answer.
pub open spec fn step_after(answer: LoopAnswer) -> LoopStep {
    match answer {
        LoopAnswer::Lent { packet, chunk } => packet_step(packet, chunk),
        LoopAnswer::Happened { running, callbacks, event } => loop_step_after(
            running,
            callbacks,
            event,
        ),
    }
}

/// The step that the loop has come to after some answers.
pub open spec fn step_after_all(start: LoopStep, answers: Seq<LoopAnswer>) -> LoopStep {
    if answers.len() == 0 {
        start
    } else {
        step_after(answers.last())
    }
}

/// Whether every answer is one to the step before it.
pub open spec fn is_run(start: LoopStep, run: Seq<LoopAnswer>) -> bool
    decreases run.len(),
{
    run.len() == 0 || is_run(start, run.drop_last()) && answers(
        step_after_all(start, run.drop_last()),
        run.last(),
    )
}

/// The packets that were lent out in a run, by their frames, in order.
pub open spec fn lent(run: Seq<LoopAnswer>) -> Seq<u32>
    decreases run.len(),
{
    if run.len() == 0 {
        Seq::empty()
    } else {
        match run.last() {
            LoopAnswer::Lent { packet, .. } => lent(run.drop_last()).push(packet.frames),
            _ => lent(run.drop_last()),
        }
    }
}

/// The packets that were given back in a run, by their frames, in order.
pub open spec fn given_back(start: LoopStep, run: Seq<LoopAnswer>) -> Seq<u32>
    decreases run.len(),
{
    if run.len() == 0 {
        Seq::empty()
    } else {
        let earlier = given_back(start, run.drop_last());
        match step_after_all(start, run.drop_last()) {
            LoopStep::ReleaseBuffer { frames } => earlier.push(frames),
            _ => earlier,
        }
    }
}

/// The packet that is out while a step is taken, by its frames.
pub open spec fn outstanding(step: LoopStep) -> Seq<u32> {
    match step {
        LoopStep::Deliver(chunk) => seq![chunk.frame_count],
        LoopStep::ReleaseBuffer { frames } => seq![frames],
        _ => Seq::empty(),
    }
}

/// However a stream is captured, the packets that it lends out are given back one
/// by one, in order, with the frames that they had: at most one is out at any time,
/// and none when the loop waits, asks for the next one, or ends.
pub proof fn law_packets_are_given_back(running: bool, run: Seq<LoopAnswer>)
    requires
        is_run(round(running), run),
    ensures
        lent(run) == given_back(round(running), run) + outstanding(
            step_after_all(round(running), run),
        ),
    decreases run.len(),
{
    if run.len() > 0 {
        law_packets_are_given_back(running, run.drop_last());
        let before = step_after_all(round(running), run.drop_last());
        let after = step_after(run.last());
        assert(answers(before, run.last()));
        assert(lent(run) =~= given_back(round(running), run) + outstanding(after));
    } else {
        assert(lent(run) =~= given_back(round(running), run) + outstanding(round(running)));
    }
}

/// Something that happens to the pool of a stream.
pub enum PoolEvent {
    /// A packet comes with that content, and somebody listens or not.
    Packet { content: Seq<u32>, heard: bool },
    /// The consumer gives back a buffer.
    Release { slot: int },
}

/// The pool after something happened.
pub open spec fn pool_step(pool: Seq<BufferModel>, event: PoolEvent) -> Seq<BufferModel> {
    match event {
        PoolEvent::Packet { content, heard } => pool_after(pool, content, heard),
        PoolEvent::Release { slot } => released(pool, slot),
    }
}

/// The pool after some things happened.
pub open spec fn pool_after_all(pool: Seq<BufferModel>, events: Seq<PoolEvent>) -> Seq<BufferModel>
    decreases events.len(),
{
    if events.len() == 0 {
        pool
    } else {
        pool_step(pool_after_all(pool, events.drop_last()), events.last())
    }
}

/// Whether an event hands a buffer on.
pub open spec fn hands_on(pool: Seq<BufferModel>, event: PoolEvent) -> bool {
    event matches PoolEvent::Packet { heard, .. } && heard && first_free(pool, 0) < pool.len()
}

/// Whether an event gives back a buffer that was held.
pub open spec fn gives_back(pool: Seq<BufferModel>, event: PoolEvent) -> bool {
    event matches PoolEvent::Release { slot } && 0 <= slot < pool.len() && pool[slot].in_use
}

/// How many buffers were handed on.
pub open spec fn handed_on(pool: Seq<BufferModel>, events: Seq<PoolEvent>) -> nat
    decreases events.len(),
{
    if events.len() == 0 {
        0
    } else {
        let earlier = handed_on(pool, events.drop_last());
        if hands_on(pool_after_all(pool, events.drop_last()), events.last()) {
            earlier + 1
        } else {
            earlier
        }
    }
}

/// How many buffers were given back.
pub open spec fn returned(pool: Seq<BufferModel>, events: Seq<PoolEvent>) -> nat
    decreases events.len(),
{
    if events.len() == 0 {
        0
    } else {
        let earlier = returned(pool, events.drop_last());
        if gives_back(pool_after_all(pool, events.drop_last()), events.last()) {
            earlier + 1
        } else {
            earlier
        }
    }
}

/// How many buffers are held.
pub open spec fn held(pool: Seq<BufferModel>) -> nat
    decreases pool.len(),
{
    if pool.len() == 0 {
        0
    } else if pool.last().in_use {
        held(pool.drop_last()) + 1
    } else {
        held(pool.drop_last())
    }
}

proof fn lemma_held_after_update(pool: Seq<BufferModel>, k: int, buffer: BufferModel)
    requires
        0 <= k < pool.len(),
    ensures
        held(pool.update(k, buffer)) + (if pool[k].in_use {
            1nat
        } else {
            0
        }) == held(pool) + (if buffer.in_use {
            1nat
        } else {
            0
        }),
    decreases pool.len(),
{
    let changed = pool.update(k, buffer);
    if k == pool.len() - 1 {
        assert(changed.drop_last() =~= pool.drop_last());
    } else {
        assert(changed.drop_last() =~= pool.drop_last().update(k, buffer));
        lemma_held_after_update(pool.drop_last(), k, buffer);
    }
}

/// No buffer is lost: however packets and releases follow one another, the buffers that were
/// handed on and have not been given back are held, and no others.
pub proof fn law_buffers_are_given_back_once(pool: Seq<BufferModel>, events: Seq<PoolEvent>)
    ensures
        held(pool) + handed_on(pool, events) == returned(pool, events) + held(
            pool_after_all(pool, events),
        ),
        pool_after_all(pool, events).len() == pool.len(),
    decreases events.len(),
{
    if events.len() > 0 {
        law_buffers_are_given_back_once(pool, events.drop_last());
        let before = pool_after_all(pool, events.drop_last());
        let after = pool_step(before, events.last());
        lemma_first_free(before, 0);
        match events.last() {
            PoolEvent::Packet { .. } => {
                let k = first_free(before, 0) as int;
                if k < before.len() {
                    lemma_held_after_update(before, k, after[k]);
                }
            },
            PoolEvent::Release { slot } => {
                if 0 <= slot < before.len() {
                    lemma_held_after_update(before, slot, after[slot]);
                }
            },
        }
    }
}

/// Whether a buffer is given back in a run.
pub open spec fn releases(events: Seq<PoolEvent>, slot: int) -> bool {
    exists|i: int| 0 <= i < events.len() && #[trigger] events[i] == (PoolEvent::Release { slot })
}

/// What the consumer holds stays as it was handed out, and is handed to nobody else,
/// until the consumer gives it back, whatever comes in the meantime.
pub proof fn law_held_audio_stays(pool: Seq<BufferModel>, events: Seq<PoolEvent>, j: int)
    requires
        0 <= j < pool.len(),
        pool[j].in_use,
        !releases(events, j),
    ensures
        pool_after_all(pool, events).len() == pool.len(),
        pool_after_all(pool, events)[j] == pool[j],
        first_free(pool_after_all(pool, events), 0) != j,
    decreases events.len(),
{
    if events.len() > 0 {
        let earlier = events.drop_last();
        assert forall|k: int| 0 <= k < earlier.len() implies #[trigger] earlier[k] != (
        PoolEvent::Release { slot: j }) by {
            assert(events[k] == earlier[k]);
        }
        assert(events[events.len() - 1] == events.last());
        law_held_audio_stays(pool, earlier, j);
        lemma_first_free(pool_after_all(pool, earlier), 0);
    }
    lemma_first_free(pool_after_all(pool, events), 0);
}

/// A buffer that was handed on and given back leaves the pool with the buffers free
/// that were free before.
pub proof fn law_handing_on_keeps_buffers_free(pool: Seq<BufferModel>, content: Seq<u32>, j: int)
    requires
        0 <= j < pool.len(),
    ensures
        released(pool_after(pool, content, true), first_free(pool, 0) as int)[j].in_use
            == pool[j].in_use,
{
    lemma_first_free(pool, 0);
}

/// The process that is asked for is heard, whether its children are asked for or not.
pub proof fn law_the_process_is_heard(opts: WasapiLoopbackOptions)
    ensures
        audio_step_after(opts, AudioEvent::ActivationEvent(Ok(()))) == (
        AudioStep::ActivateProcess { pid: opts.target_pid, mode: LOOPBACK_INCLUDE_TREE }),
        opts.mode == LoopbackMode::ProcessTree ==> audio_step_after(opts, AudioEvent::Begin)
            == AudioStep::CreateActivationEvent,
{
}

/// Audio and video share one clock: a packet and a frame that were recorded at the
/// same counter position carry the same time, with no frequency involved.
pub proof fn law_audio_and_video_share_a_clock(
    pool: Seq<BufferModel>,
    packet: Packet,
    format: AudioFormat,
    frame: CapturedFrame,
    span_hns: i64,
)
    requires
        0 <= span_hns,
        packet.position == span_hns,
        frame.timestamp_ns == span_ns(span_hns as int),
    ensures
        chunk_of(pool, packet, format, true) matches Some(chunk) ==> chunk.timestamp_ns
            == frame.timestamp_ns,
{
}

/// Once a stream has been stopped its loop does not wait again.
pub proof fn law_a_stopped_stream_does_not_wait(callbacks: bool, event: LoopEvent)
    ensures
        loop_step_after(false, callbacks, event) != LoopStep::Wait,
{
}

/// Whatever keeps the short period from being had, the stream is set up with the
/// 20 ms buffer instead; the audio of a process always is.
pub proof fn law_low_latency_falls_back(opts: WasapiLoopbackOptions)
    ensures
        audio_step_after(opts, AudioEvent::LowLatencyClient { present: false }) == shared_step(),
        audio_step_after(opts, AudioEvent::Period(None)) == shared_step(),
        audio_step_after(opts, AudioEvent::LowLatencyInitialized { done: false }) == shared_step(),
        opts.mode == LoopbackMode::ProcessTree ==> audio_step_after(opts, AudioEvent::FormatReady)
            == shared_step(),
        audio_problem(AudioEvent::LowLatencyClient { present: false }) is None,
        audio_problem(AudioEvent::Period(None)) is None,
        audio_problem(AudioEvent::LowLatencyInitialized { done: false }) is None,
{
}

/// A packet that comes while somebody listens and a buffer is free is handed on in
/// that buffer. Unless the second bit of its flags marks it as silent, every sample of
/// the packet stands in the buffer at its own place, over all its frames and channels;
/// a silent packet leaves a zero at each of these places.
pub proof fn law_samples_are_handed_on(
    pool: Seq<BufferModel>,
    packet: Packet,
    format: AudioFormat,
    samples: Seq<u32>,
    chunk: AudioChunk,
)
    requires
        packet.flags & 2 == 0 ==> samples.len() == packet.frames * format.channels,
        chunk_of(pool, packet, format, true) == Some(chunk),
        pool.len() <= usize::MAX,
    ensures
        ({
            let after = pool_after(pool, content_of(packet, format.channels, samples), true);
            let n = packet.frames * format.channels;
            let buffer = after[chunk.slot as int];
            &&& chunk.slot < after.len() == pool.len()
            &&& chunk.frame_count * chunk.channels == n
            &&& buffer.in_use
            &&& buffer.data.len() >= n
            &&& packet.flags & 2 == 0 ==> forall|i: int|
                0 <= i < n ==> #[trigger] buffer.data[i] == samples[i]
            &&& packet.flags & 2 != 0 ==> forall|i: int|
                0 <= i < n ==> #[trigger] buffer.data[i] == 0
            &&& packet.flags & 2 == 0 ==> samples_of(after, chunk) == Some(samples)
            &&& packet.flags & 2 != 0 ==> samples_of(after, chunk) == Some(
                Seq::new(n as nat, |i: int| 0u32),
            )
        }),
{
    let flags = packet.flags;
    assert((flags & 2 != 0) == ((flags / 2) % 2 == 1)) by (bit_vector);
    let n = packet.frames * format.channels;
    assert(0 <= n) by (nonlinear_arith)
        requires
            n == packet.frames * format.channels,
    ;
    let content = content_of(packet, format.channels, samples);
    assert(content.len() == n);
    law_delivered_audio_reads_back(pool, content);
    let buffer = pool_after(pool, content, true)[chunk.slot as int];
    assert forall|i: int| 0 <= i < n implies #[trigger] buffer.data[i] == content[i] by {
        assert(buffer.data.take(content.len() as int)[i] == content[i]);
    }
    if packet.flags & 2 == 0 {
        assert(buffer.data.take(n) =~= samples);
    } else {
        assert(buffer.data.take(n) =~= Seq::new(n as nat, |i: int| 0u32));
    }
}

/// A packet becomes a chunk exactly if somebody listens and some buffer is free: then
/// the first that is free. The chunk has the frames of the packet, the channels and
/// the rate of the stream and the time at which the packet was recorded, and carries
/// the two lowest bits of the flags as its marks.
pub proof fn law_chunks_describe_their_packets(
    pool: Seq<BufferModel>,
    packet: Packet,
    format: AudioFormat,
    heard: bool,
)
    requires
        pool.len() <= usize::MAX,
    ensures
        chunk_of(pool, packet, format, heard) is Some <==> heard && exists|j: int|
            0 <= j < pool.len() && !(#[trigger] pool[j]).in_use,
        chunk_of(pool, packet, format, heard) matches Some(chunk) ==> {
            &&& chunk.slot < pool.len()
            &&& !pool[chunk.slot as int].in_use
            &&& forall|j: int| 0 <= j < chunk.slot ==> (#[trigger] pool[j]).in_use
            &&& chunk.frame_count == packet.frames
            &&& chunk.channels == format.channels
            &&& chunk.sample_rate == format.sample_rate
            &&& packet.position * 100 <= u64::MAX ==> chunk.timestamp_ns == packet.position * 100
            &&& chunk.silent <==> packet.flags & 2 != 0
            &&& chunk.discontinuity <==> packet.flags & 1 != 0
        },
{
    let flags = packet.flags;
    assert((flags & 2 != 0) == ((flags / 2) % 2 == 1)) by (bit_vector);
    assert((flags & 1 != 0) == (flags % 2 == 1)) by (bit_vector);
    lemma_first_free(pool, 0);
}

/// A packet touches no buffer but the one that it is put in, and none at all where all
/// are held; a buffer that nobody listens for stays free.
pub proof fn law_packets_touch_one_buffer(
    pool: Seq<BufferModel>,
    content: Seq<u32>,
    heard: bool,
    j: int,
)
    requires
        0 <= j < pool.len(),
    ensures
        pool_after(pool, content, heard).len() == pool.len(),
        pool[j].in_use ==> pool_after(pool, content, heard)[j] == pool[j],
        !heard ==> pool_after(pool, content, heard)[j].in_use == pool[j].in_use,
        (exists|i: int| 0 <= i < j && !(#[trigger] pool[i]).in_use) ==> pool_after(
            pool,
            content,
            heard,
        )[j] == pool[j],
{
    lemma_first_free(pool, 0);
}

/// A buffer that is taken was the first free one, and is in use from then on; it has
/// room for the samples, and what it held and the other buffers stay.
pub proof fn law_taken_buffers_have_room(pool: Seq<BufferModel>, needed: nat, k: int)
    requires
        0 <= k < pool.len(),
        !pool[k].in_use,
        forall|i: int| 0 <= i < k ==> (#[trigger] pool[i]).in_use,
    ensures
        ({
            let after = taken(pool, needed);
            &&& after.len() == pool.len()
            &&& after[k].in_use
            &&& after[k].data.len() == (if needed > pool[k].data.len() {
                needed
            } else {
                pool[k].data.len()
            })
            &&& after[k].data.take(pool[k].data.len() as int) == pool[k].data
            &&& forall|i: int|
                pool[k].data.len() <= i < after[k].data.len() ==> #[trigger] after[k].data[i] == 0
            &&& forall|i: int|
                0 <= i < pool.len() && i != k ==> #[trigger] after[i] == pool[i]
        }),
{
    lemma_first_free(pool, 0);
    assert(taken(pool, needed)[k].data.take(pool[k].data.len() as int) =~= pool[k].data);
}

/// A buffer that is given back is free, keeps what it holds, and no other changes.
pub proof fn law_released_buffers_are_free(pool: Seq<BufferModel>, slot: int, j: int)
    requires
        0 <= j < pool.len(),
    ensures
        released(pool, slot).len() == pool.len(),
        released(pool, slot)[j].data == pool[j].data,
        released(pool, slot)[j].in_use == (pool[j].in_use && j != slot),
{
}

/// The loop waits again, as long as the stream runs, after a time-out, when no packet is
/// left, and when a failure is done with. It asks for packets when there is audio, takes
/// every packet that is not empty, gives a delivered one back with its own frames, and
/// asks for the next. It ends on the stop event and on any other answer. Only a buffer
/// that is not just empty is reported, with its own code.
pub proof fn law_the_loop_goes_round(running: bool, callbacks: bool, event: LoopEvent)
    ensures
        ({
            let step = loop_step_after(running, callbacks, event);
            let again = if running {
                LoopStep::Wait
            } else {
                LoopStep::Exit
            };
            match event {
                LoopEvent::Started => step == again,
                LoopEvent::Waited { answer } => {
                    &&& answer == 0 ==> step == LoopStep::NextPacket
                    &&& answer == 258 ==> step == again
                    &&& answer != 0 && answer != 258 ==> step == LoopStep::Exit
                },
                LoopEvent::PacketSize(size) => {
                    &&& (size matches Some(n) && n > 0) ==> step == LoopStep::GetBuffer
                    &&& !(size matches Some(n) && n > 0) ==> step == again
                },
                LoopEvent::BufferFailed { hr } => {
                    &&& hr != 0x0889_0001 && callbacks ==> step == (LoopStep::Report { hr })
                    &&& hr == 0x0889_0001 || !callbacks ==> step == again
                },
                LoopEvent::Reported => step == again,
                LoopEvent::Delivered { frames } => step == (LoopStep::ReleaseBuffer { frames }),
                LoopEvent::Released => step == LoopStep::NextPacket,
            }
        }),
{
}

/// A chunk is delivered; a packet that became none is given back at once with its own
/// frames.
pub proof fn law_packets_are_delivered_or_given_back(packet: Packet, chunk: Option<AudioChunk>)
    ensures
        chunk matches Some(c) ==> packet_step(packet, chunk) == LoopStep::Deliver(c),
        chunk is None ==> packet_step(packet, chunk) == (LoopStep::ReleaseBuffer {
            frames: packet.frames,
        }),
{
}

/// Every stream is set up with the loopback, event, conversion and default-quality
/// flags and no others: the short period is one of those that the device names and no
/// shorter than either, and the fallback buffer lasts 20 ms.
pub proof fn law_streams_are_set_up_alike(opts: WasapiLoopbackOptions, event: AudioEvent)
    ensures
        audio_step_after(opts, event) matches AudioStep::InitializeLowLatency { flags, period } ==> {
            &&& flags == 0x8000_0000 + 0x0800_0000 + 0x0004_0000 + 0x0002_0000
            &&& event matches AudioEvent::Period(Some((fundamental, smallest))) && {
                &&& period >= fundamental && period >= smallest
                &&& period == fundamental || period == smallest
            }
        },
        audio_step_after(opts, event) matches AudioStep::InitializeShared {
            flags,
            duration_hns,
        } ==> {
            &&& flags == 0x8000_0000 + 0x0800_0000 + 0x0004_0000 + 0x0002_0000
            &&& duration_hns == 20 * 10_000
        },
{
    assert(0x0002_0000u32 | 0x0004_0000u32 | 0x8000_0000u32 | 0x0800_0000u32 == 0x8806_0000u32)
        by (bit_vector);
}

/// The audio of the system comes from the default endpoint in the format that it mixes
/// in; that of a process is activated for the process itself, with its children, in
/// stereo. Whichever it is, the steps come in one order.
pub proof fn law_set_up_goes_in_order(opts: WasapiLoopbackOptions, event: AudioEvent)
    ensures
        ({
            let system = opts.mode == LoopbackMode::SystemDefault;
            let step = audio_step_after(opts, event);
            match event {
                AudioEvent::Begin => {
                    &&& system ==> step == AudioStep::CreateEnumerator
                    &&& !system ==> step == AudioStep::CreateActivationEvent
                },
                AudioEvent::EnumeratorCreated => step == AudioStep::FindDefaultEndpoint,
                AudioEvent::EndpointFound => step == AudioStep::ActivateEndpoint,
                AudioEvent::ActivationEvent(_) => step == (AudioStep::ActivateProcess {
                    pid: opts.target_pid,
                    mode: 0,
                }),
                AudioEvent::ActivationRequested => step == AudioStep::AwaitActivation,
                AudioEvent::Activated { .. } => step == AudioStep::CastClient,
                AudioEvent::ClientReady => {
                    &&& system ==> step == AudioStep::QueryMixFormat
                    &&& !system ==> (step matches AudioStep::UseFormat(wave) && wave.channels == 2
                        && wave.samples_per_sec == 48000 && wave.bits_per_sample == 32)
                },
                AudioEvent::FormatReady => {
                    &&& system ==> step == AudioStep::QueryLowLatencyClient
                    &&& !system ==> step is InitializeShared
                },
                AudioEvent::LowLatencyClient { present } => {
                    &&& present ==> step == AudioStep::QueryPeriod
                    &&& !present ==> step is InitializeShared
                },
                AudioEvent::Period(period) => {
                    &&& period is Some ==> step is InitializeLowLatency
                    &&& period is None ==> step is InitializeShared
                },
                AudioEvent::LowLatencyInitialized { done } => {
                    &&& done ==> step == AudioStep::CreateAudioEvent
                    &&& !done ==> step is InitializeShared
                },
                AudioEvent::SharedInitialized(_) => step == AudioStep::CreateAudioEvent,
                AudioEvent::AudioEventCreated(_) => step == AudioStep::SetEventHandle,
                AudioEvent::EventHandleSet => step == AudioStep::QueryCaptureClient,
                AudioEvent::CaptureClientReady(_) => step == AudioStep::StartStream,
                AudioEvent::StreamStarted => step == AudioStep::Capture,
            }
        }),
{
}

/// The set-up ends exactly on a call that failed, with its code and the name of what
/// failed, and on an activation that brought nothing.
pub proof fn law_failures_end_the_set_up(event: AudioEvent)
    ensures
        ({
            let failed = match event {
                AudioEvent::ActivationEvent(Err(hr)) => Some((hr, "CreateEvent for activation"@)),
                AudioEvent::SharedInitialized(Err(hr)) => Some((hr, "IAudioClient::Initialize"@)),
                AudioEvent::AudioEventCreated(Err(hr)) => Some((hr, "CreateEvent for audio"@)),
                AudioEvent::Activated { hr, .. } => if hr < 0 {
                    Some((hr, "ActivateAudioInterfaceAsync result"@))
                } else {
                    None
                },
                _ => None,
            };
            &&& failed matches Some((code, what)) ==> audio_problem(event) == Some(
                ErrorModel::HResult { component: "wasapi_loopback"@, hr: code, context: what },
            )
            &&& failed is None ==> (audio_problem(event) is Some <==> (
            event matches AudioEvent::Activated { present, .. } && !present))
            &&& audio_problem(event) matches Some(ErrorModel::General { component, message })
                ==> component == "wasapi_loopback"@ && message == "activation returned null"@
        }),
{
}

/// The format of a stream is what the system's description says of rate, channels and
/// bits; without a description nothing is known but that samples are 32-bit floats.
pub proof fn law_formats_follow_the_description(wave: Option<WaveFormat>)
    ensures
        ({
            let format = format_of(wave);
            match wave {
                Some(wf) => {
                    &&& format.sample_rate == wf.samples_per_sec
                    &&& format.channels == wf.channels
                    &&& format.bits_per_sample == wf.bits_per_sample
                    &&& format.float32 == wf.is_float()
                },
                None => {
                    &&& format.sample_rate == 0
                    &&& format.channels == 0
                    &&& format.bits_per_sample == 32
                    &&& format.float32
                },
            }
        }),
{
}

/// Where nothing is asked, the default device is heard.
pub proof fn law_default_is_the_system(opts: WasapiLoopbackOptions)
    requires
        opts == default_options(),
    ensures
        opts.mode == LoopbackMode::SystemDefault,
        opts.target_pid == 0,
        opts.include_tree,
{
}

/// A start makes the stream run for its listener, a stop ends that and signals and joins what
/// there is, and once the thread has ended nobody listens. The format and the buffers stay.
pub proof fn law_streams_start_and_stop(stream: LoopbackModel)
    ensures
        stream.begun().running,
        !stream.running ==> stream.begun().callbacks,
        stream.begun().begun() == stream.begun(),
        !stream.halted().running,
        stream.halted().callbacks == stream.callbacks,
        stream.halted().stop_event == stream.stop_event && stream.halted().thread == stream.thread,
        stream.to_stop() is Some <==> stream.running,
        stream.to_stop() matches Some(todo) ==> {
            &&& todo.signal_stop_event == stream.stop_event
            &&& todo.join_thread == stream.thread
            &&& todo.close_stop_event == stream.stop_event
        },
        stream.halted().to_stop() is None,
        !stream.forgotten().callbacks,
        !stream.forgotten().stop_event && !stream.forgotten().thread,
        stream.forgotten().running == stream.running,
        ({
            &&& stream.begun().pool == stream.pool && stream.halted().pool == stream.pool
            &&& stream.forgotten().pool == stream.pool
            &&& stream.begun().format == stream.format && stream.halted().format == stream.format
            &&& stream.forgotten().format == stream.format
            &&& stream.begun().opts == stream.opts && stream.halted().opts == stream.opts
            &&& stream.forgotten().opts == stream.opts
        }),
{
}

/// What can be read of a chunk stays the same until its buffer is given back, whatever other
/// packets come and whatever other buffers are given back.
pub proof fn law_chunks_can_be_read_while_held(
    pool: Seq<BufferModel>,
    chunk: AudioChunk,
    events: Seq<PoolEvent>,
)
    requires
        chunk.slot < pool.len(),
        pool[chunk.slot as int].in_use,
        !releases(events, chunk.slot as int),
    ensures
        samples_of(pool_after_all(pool, events), chunk) == samples_of(pool, chunk),
{
    law_held_audio_stays(pool, events, chunk.slot as int);
}

/// Where every buffer is held none is taken, and nothing changes.
pub proof fn law_nothing_is_taken_when_all_is_held(pool: Seq<BufferModel>, needed: nat)
    requires
        forall|j: int| 0 <= j < pool.len() ==> (#[trigger] pool[j]).in_use,
    ensures
        taken(pool, needed).len() == pool.len(),
        forall|j: int| 0 <= j < pool.len() ==> #[trigger] taken(pool, needed)[j] == pool[j],
        first_free(pool, 0) == pool.len(),
{
    lemma_first_free(pool, 0);
}

/// The samples of a chunk are the first ones of its buffer, as many as it has frames and
/// channels; there are none exactly if there is no such buffer or it holds fewer.
pub proof fn law_samples_are_the_first_of_the_buffer(pool: Seq<BufferModel>, chunk: AudioChunk)
    ensures
        samples_of(pool, chunk) is None <==> chunk.slot >= pool.len()
            || pool[chunk.slot as int].data.len() < chunk.frame_count * chunk.channels,
        samples_of(pool, chunk) matches Some(samples) ==> {
            &&& samples.len() == chunk.frame_count * chunk.channels
            &&& forall|i: int|
                0 <= i < samples.len() ==> #[trigger] samples[i] == pool[chunk.slot as int].data[i]
        },
{
    let n = chunk.frame_count * chunk.channels;
    assert(0 <= n) by (nonlinear_arith)
        requires
            n == chunk.frame_count * chunk.channels,
    ;
}

/// Giving back a buffer changes the buffers of a stream alone.
pub proof fn law_releases_touch_the_pool_alone(stream: LoopbackModel, slot: int)
    ensures
        stream.after_release(slot).pool == released(stream.pool, slot),
        stream.after_release(slot).opts == stream.opts,
        stream.after_release(slot).format == stream.format,
        stream.after_release(slot).running == stream.running,
        stream.after_release(slot).callbacks == stream.callbacks,
        stream.after_release(slot).stop_event == stream.stop_event,
        stream.after_release(slot).thread == stream.thread,
{
}

} // verus!
