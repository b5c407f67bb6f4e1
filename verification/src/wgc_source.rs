//! The state of a screen-capture source: what to do next while it starts and
//! stops, what becomes of each arriving frame, and when a frame is repeated
//! because the screen stands still.

use vstd::prelude::*;

use crate::clock::{hundred_ns_to_ns, span_ns};
use crate::error::{
    code_bits, law_codes_keep_their_bits, report_to, report_view, unsigned_code, ErrorModel,
    ErrorPayload, PayloadModel, WincapError, WincapResult,
};
use crate::frame_pool::{
    is_first_free, none_free, release_at, retain_at, take_at, FramePool, SlotState,
};
use crate::text::{law_numbers_read_back, number_in, number_text, push_number, push_str};

verus! {

/// The index that stands for "no slot".
pub const NO_SLOT: u32 = 0xFFFF_FFFF;

/// The number of buffers of the capture frame pool.
pub const CAPTURE_BUFFERS: i32 = 3;

/// A changed rectangle of a frame.
#[derive(Debug, Clone, Copy)]
pub struct DirtyRect {
    pub left: i32,
    pub top: i32,
    pub right: i32,
    pub bottom: i32,
}

/// The pixel format in which frames are captured.
#[derive(Debug, Clone, Copy, PartialEq, Eq, Structural)]
pub enum PixelFormat {
    B8G8R8A8UIntNormalized,
    R16G16B16A16Float,
}

/// How to capture.
#[derive(Debug, Clone, Copy)]
pub struct WgcOptions {
    pub include_cursor: bool,
    pub border_required: bool,
    pub create_shared_handle: bool,
    pub pixel_format: PixelFormat,
}

impl Default for WgcOptions {
    fn default() -> (opts: Self)
        ensures
            opts == (WgcOptions {
                include_cursor: true,
                border_required: false,
                create_shared_handle: false,
                pixel_format: PixelFormat::B8G8R8A8UIntNormalized,
            }),
    {
        WgcOptions {
            include_cursor: true,
            border_required: false,
            create_shared_handle: false,
            pixel_format: PixelFormat::B8G8R8A8UIntNormalized,
        }
    }
}

/// A frame as it is handed to the consumer, who then holds its slot.
pub struct CapturedFrame {
    pub slot: u32,
    pub width: u32,
    pub height: u32,
    pub timestamp_ns: u64,
    pub size_changed: bool,
    pub dirty_rects: Vec<DirtyRect>,
}

/// A frame whose slot has been taken and whose picture is being copied.
#[derive(Debug, Clone, Copy)]
pub struct FrameTicket {
    pub slot: u32,
    pub width: u32,
    pub height: u32,
    pub size_changed: bool,
}

/// The contents of a `CapturedFrame` as mathematical values.
#[verifier::ext_equal]
pub struct FrameModel {
    pub slot: u32,
    pub width: u32,
    pub height: u32,
    pub timestamp_ns: u64,
    pub size_changed: bool,
    pub dirty_rects: Seq<DirtyRect>,
}

impl View for CapturedFrame {
    type V = FrameModel;

    open spec fn view(&self) -> FrameModel {
        FrameModel {
            slot: self.slot,
            width: self.width,
            height: self.height,
            timestamp_ns: self.timestamp_ns,
            size_changed: self.size_changed,
            dirty_rects: self.dirty_rects@,
        }
    }
}

impl FrameTicket {
    /// The frame once its picture is complete.
    pub open spec fn completed(self, span_hns: i64) -> FrameModel {
        FrameModel {
            slot: self.slot,
            width: self.width,
            height: self.height,
            timestamp_ns: span_ns(span_hns as int) as u64,
            size_changed: self.size_changed,
            dirty_rects: Seq::empty(),
        }
    }
}

/// The state of a capture source. The flags from `item` on say which outside
/// objects it holds.
#[derive(Debug, Clone, Copy)]
pub struct SourceState {
    pub opts: WgcOptions,
    pub width: u32,
    pub height: u32,
    pub running: bool,
    pub consumer: bool,
    pub frame_counter: u64,
    pub idle_slot_index: u32,
    pub target_fps: u32,
    /// The frames that arrived or were repeated so far. Like the next two counts, a
    /// new start does not reset it.
    pub captured_frames: u64,
    /// The frames among them that did not get to the consumer.
    pub lost_frames: u64,
    /// The frames among them that were handed to the consumer.
    pub handed_frames: u64,
    pub item: bool,
    pub frame_pool: bool,
    pub frame_token: bool,
    pub closed_token: bool,
    pub session: bool,
    pub idle_thread: bool,
}

/// A capture source.
#[derive(Debug)]
pub struct WgcSource {
    state: SourceState,
}

impl View for WgcSource {
    type V = SourceState;

    closed spec fn view(&self) -> SourceState {
        self.state
    }
}

/// The outside work that comes next while a source starts.
#[derive(Debug, Clone, Copy, PartialEq, Eq, Structural)]
pub enum StartStep {
    AlreadyRunning,
    QuerySize,
    CreatePool { width: i32, height: i32, buffers: i32, format: PixelFormat },
    RecreatePool { width: i32, height: i32, buffers: i32, format: PixelFormat },
    RegisterFrameArrived,
    RegisterClosed,
    CreateSession,
    StartCapture { include_cursor: bool, border_required: bool },
    SpawnIdleRepeat,
    Started,
}

/// Outside work that succeeded while a source starts.
#[derive(Debug, Clone, Copy, PartialEq, Eq, Structural)]
pub enum StartEvent {
    Size { width: i32, height: i32 },
    PoolReady { width: i32, height: i32 },
    FrameArrivedRegistered,
    ClosedRegistered,
    SessionCreated,
    CaptureStarted,
    IdleRepeatSpawned,
}

/// What to do first when a source is stopped.
#[derive(Debug, Clone, Copy, PartialEq, Eq, Structural)]
pub enum StopStep {
    NotRunning,
    JoinIdleRepeat,
    TearDown,
}

/// The outside objects to let go of, in the order of the fields.
#[derive(Debug, Clone, Copy, PartialEq, Eq, Structural)]
pub struct TearDown {
    pub remove_frame_arrived: bool,
    pub remove_closed: bool,
    pub close_session: bool,
    pub close_pool: bool,
}

/// A handle value as it is shown to a person.
pub open spec fn handle_text(handle: usize) -> Seq<char> {
    "0x"@ + number_text(handle as nat, 16, 0, false)
}

fn push_handle(out: &mut String, handle: usize)
    ensures
        final(out)@ == old(out)@ + handle_text(handle),
{
    push_str(out, "0x");
    push_number(out, handle as u64, 16, 0, false);
    assert(out@ =~= old(out)@ + handle_text(handle));
}

/// Why a monitor handle cannot be captured, if it cannot.
pub open spec fn monitor_problem(monitor: usize, info_ok: bool) -> Option<Seq<char>> {
    if monitor == 0 {
        Some("null monitor handle"@)
    } else if !info_ok {
        Some(
            "invalid or disconnected monitor handle ("@ + handle_text(monitor)
                + ") \u{2014} the display may have been unplugged"@,
        )
    } else {
        None
    }
}

/// Why a window handle cannot be captured, if it cannot.
pub open spec fn window_problem(hwnd: usize, is_window: bool) -> Option<Seq<char>> {
    if hwnd == 0 {
        Some("null window handle"@)
    } else if !is_window {
        Some(
            "window handle ("@ + handle_text(hwnd)
                + ") is no longer valid \u{2014} the window may have been closed"@,
        )
    } else {
        None
    }
}

/// The outcome of a check that found the given problem, or none.
pub open spec fn checked(r: WincapResult<()>, problem: Option<Seq<char>>) -> bool {
    match problem {
        None => r is Ok,
        Some(message) => r matches Err(e) && e@ == (ErrorModel::General {
            component: "wgc_source"@,
            message,
        }),
    }
}

/// What the states of the slots become when the retained idle slot is let go.
pub open spec fn release_idle(states: Seq<SlotState>, idle: u32) -> Seq<SlotState> {
    if idle != NO_SLOT && idle < states.len() {
        release_at(states, idle as int)
    } else {
        states
    }
}

/// What the states of the slots become when the picture of slot `slot` is
/// complete: the slot gains a holder for the idle repeat, the slot that was
/// retained before is let go, and without a consumer the first holder goes too.
pub open spec fn states_after_frame(
    states: Seq<SlotState>,
    slot: int,
    old_idle: u32,
    consumer: bool,
) -> Seq<SlotState> {
    let kept = release_idle(retain_at(states, slot), old_idle);
    if consumer {
        kept
    } else {
        release_at(kept, slot)
    }
}

impl SourceState {
    /// A source that holds nothing yet.
    pub open spec fn fresh(opts: WgcOptions) -> SourceState {
        SourceState {
            opts,
            width: 0,
            height: 0,
            running: false,
            consumer: false,
            frame_counter: 0,
            idle_slot_index: NO_SLOT,
            target_fps: 0,
            captured_frames: 0,
            lost_frames: 0,
            handed_frames: 0,
            item: false,
            frame_pool: false,
            frame_token: false,
            closed_token: false,
            session: false,
            idle_thread: false,
        }
    }

    /// The state that a source takes on when it is started.
    pub open spec fn starting(self, fps: u32) -> SourceState {
        SourceState {
            running: true,
            consumer: true,
            target_fps: fps,
            frame_counter: 0,
            idle_slot_index: NO_SLOT,
            ..self
        }
    }

    /// The state and the next step after outside work succeeded during a start.
    pub open spec fn after_start_event(self, event: StartEvent) -> (SourceState, StartStep) {
        match event {
            StartEvent::Size { width, height } => (
                self,
                if self.frame_pool {
                    StartStep::RecreatePool {
                        width,
                        height,
                        buffers: CAPTURE_BUFFERS,
                        format: self.opts.pixel_format,
                    }
                } else {
                    StartStep::CreatePool {
                        width,
                        height,
                        buffers: CAPTURE_BUFFERS,
                        format: self.opts.pixel_format,
                    }
                },
            ),
            StartEvent::PoolReady { width, height } => (
                SourceState {
                    frame_pool: true,
                    width: code_bits(width) as u32,
                    height: code_bits(height) as u32,
                    ..self
                },
                StartStep::RegisterFrameArrived,
            ),
            StartEvent::FrameArrivedRegistered => (
                SourceState { frame_token: true, ..self },
                StartStep::RegisterClosed,
            ),
            StartEvent::ClosedRegistered => (
                SourceState { closed_token: true, ..self },
                StartStep::CreateSession,
            ),
            StartEvent::SessionCreated => (
                self,
                StartStep::StartCapture {
                    include_cursor: self.opts.include_cursor,
                    border_required: self.opts.border_required,
                },
            ),
            StartEvent::CaptureStarted => (
                SourceState { session: true, ..self },
                if self.target_fps > 0 {
                    StartStep::SpawnIdleRepeat
                } else {
                    StartStep::Started
                },
            ),
            StartEvent::IdleRepeatSpawned => (
                SourceState { idle_thread: true, ..self },
                StartStep::Started,
            ),
        }
    }

    /// The outside objects that the source has to let go of.
    pub open spec fn to_let_go(self) -> TearDown {
        TearDown {
            remove_frame_arrived: self.frame_pool && self.frame_token,
            remove_closed: self.item && self.closed_token,
            close_session: self.session,
            close_pool: self.frame_pool,
        }
    }

    /// The source once it has let go of the outside objects.
    pub open spec fn torn_down(self) -> SourceState {
        SourceState {
            idle_slot_index: NO_SLOT,
            frame_token: false,
            closed_token: false,
            session: false,
            frame_pool: false,
            item: false,
            ..self
        }
    }

    /// The source once it has forgotten its consumer.
    pub open spec fn without_consumer(self) -> SourceState {
        SourceState { consumer: false, ..self }
    }

    /// The source after a frame arrived, and was lost or not.
    pub open spec fn counting(self, lost: bool) -> SourceState {
        SourceState {
            captured_frames: self.captured_frames.wrapping_add(1),
            lost_frames: if lost {
                self.lost_frames.wrapping_add(1)
            } else {
                self.lost_frames
            },
            ..self
        }
    }

    /// The source after a frame that had arrived was lost.
    pub open spec fn losing(self) -> SourceState {
        SourceState { lost_frames: self.lost_frames.wrapping_add(1), ..self }
    }

    /// The source once it has been told to stop.
    pub open spec fn halted(self) -> SourceState {
        SourceState { running: false, idle_thread: false, ..self }
    }

    /// The source with the size of a frame that arrived.
    pub open spec fn sized(self, width: i32, height: i32) -> SourceState {
        SourceState { width: code_bits(width) as u32, height: code_bits(height) as u32, ..self }
    }

    /// A frame that arrived, with the slot that was taken for it.
    pub open spec fn ticket(self, slot: u32, width: i32, height: i32) -> FrameTicket {
        FrameTicket {
            slot,
            width: code_bits(width) as u32,
            height: code_bits(height) as u32,
            size_changed: self.width != code_bits(width) || self.height != code_bits(height),
        }
    }

    /// The source with the slot of a complete frame retained.
    pub open spec fn retaining(self, slot: u32) -> SourceState {
        SourceState {
            idle_slot_index: slot,
            frame_counter: self.frame_counter.wrapping_add(1),
            ..self
        }
    }

    /// The frame that is handed out when the latest one is repeated.
    pub open spec fn repeated(self, slot: u32, now_ns: u64) -> FrameModel {
        FrameModel {
            slot,
            width: self.width,
            height: self.height,
            timestamp_ns: now_ns,
            size_changed: false,
            dirty_rects: Seq::empty(),
        }
    }

    /// The slot to repeat on a tick, out of a pool of so many slots.
    pub open spec fn slot_to_repeat(self, due: bool, slots: nat) -> Option<u32> {
        if due && self.idle_slot_index != NO_SLOT && self.idle_slot_index < slots {
            Some(self.idle_slot_index)
        } else {
            None
        }
    }

    /// The source after a frame that had arrived was handed to the consumer.
    pub open spec fn handing(self) -> SourceState {
        SourceState { handed_frames: self.handed_frames.wrapping_add(1), ..self }
    }
}

impl WgcSource {
    /// A source that holds nothing yet.
    pub fn new(opts: WgcOptions) -> (source: Self)
        ensures
            source@ == SourceState::fresh(opts),
    {
        WgcSource {
            state: SourceState {
                opts,
                width: 0,
                height: 0,
                running: false,
                consumer: false,
                frame_counter: 0,
                idle_slot_index: NO_SLOT,
                target_fps: 0,
                captured_frames: 0,
                lost_frames: 0,
                handed_frames: 0,
                item: false,
                frame_pool: false,
                frame_token: false,
                closed_token: false,
                session: false,
                idle_thread: false,
            },
        }
    }

    /// Whether the source runs.
    pub fn is_running(&self) -> (yes: bool)
        ensures
            yes == self@.running,
    {
        self.state.running
    }

    /// The rate of the idle repeat.
    pub fn target_fps(&self) -> (fps: u32)
        ensures
            fps == self@.target_fps,
    {
        self.state.target_fps
    }

    /// The frames that arrived or were repeated so far.
    pub fn captured_frames(&self) -> (n: u64)
        ensures
            n == self@.captured_frames,
    {
        self.state.captured_frames
    }

    /// The frames among them that did not get to the consumer.
    pub fn lost_frames(&self) -> (n: u64)
        ensures
            n == self@.lost_frames,
    {
        self.state.lost_frames
    }

    /// Checks a monitor handle before a capture item is made from it; `info_ok`
    /// says whether the system knows the monitor.
    pub fn init_for_monitor(&self, monitor: usize, info_ok: bool) -> (r: WincapResult<()>)
        ensures
            checked(r, monitor_problem(monitor, info_ok)),
    {
        if monitor == 0 {
            return Err(WincapError::general("wgc_source", "null monitor handle"));
        }
        if !info_ok {
            let mut message = String::new();
            push_str(&mut message, "invalid or disconnected monitor handle (");
            push_handle(&mut message, monitor);
            push_str(&mut message, ") \u{2014} the display may have been unplugged");
            assert(message@ =~= monitor_problem(monitor, info_ok).unwrap());
            return Err(WincapError::General { component: "wgc_source", message });
        }
        Ok(())
    }

    /// Checks a window handle before a capture item is made from it; `is_window`
    /// says whether the system knows the window.
    pub fn init_for_window(&self, hwnd: usize, is_window: bool) -> (r: WincapResult<()>)
        ensures
            checked(r, window_problem(hwnd, is_window)),
    {
        if hwnd == 0 {
            return Err(WincapError::general("wgc_source", "null window handle"));
        }
        if !is_window {
            let mut message = String::new();
            push_str(&mut message, "window handle (");
            push_handle(&mut message, hwnd);
            push_str(&mut message, ") is no longer valid \u{2014} the window may have been closed");
            assert(message@ =~= window_problem(hwnd, is_window).unwrap());
            return Err(WincapError::General { component: "wgc_source", message });
        }
        Ok(())
    }

    /// Notes that a capture item has been made.
    pub fn item_created(&mut self)
        ensures
            final(self)@ == (SourceState { item: true, ..old(self)@ }),
    {
        self.state.item = true;
    }

    /// Starts the source for a consumer, with an idle repeat of the given rate
    /// (none at rate zero). A source that runs already is left alone. A source
    /// without a capture item fails, and counts as running until it is stopped.
    pub fn start(&mut self, fps: u32) -> (r: WincapResult<StartStep>)
        ensures
            match r {
                Ok(StartStep::AlreadyRunning) => old(self)@.running && final(self)@ == old(self)@,
                Ok(step) => !old(self)@.running && old(self)@.item && step == StartStep::QuerySize
                    && final(self)@ == old(self)@.starting(fps),
                Err(e) => !old(self)@.running && !old(self)@.item && e@ == (ErrorModel::General {
                    component: "wgc_source"@,
                    message: "capture item not initialised"@,
                }) && final(self)@ == old(self)@.starting(fps),
            },
    {
        if self.state.running {
            return Ok(StartStep::AlreadyRunning);
        }
        self.state.running = true;
        self.state.consumer = true;
        self.state.target_fps = fps;
        self.state.frame_counter = 0;
        self.state.idle_slot_index = NO_SLOT;
        if !self.state.item {
            return Err(WincapError::general("wgc_source", "capture item not initialised"));
        }
        Ok(StartStep::QuerySize)
    }

    /// Notes outside work that succeeded during a start and says what is next.
    pub fn start_event(&mut self, event: StartEvent) -> (step: StartStep)
        ensures
            (final(self)@, step) == old(self)@.after_start_event(event),
    {
        match event {
            StartEvent::Size { width, height } => {
                let buffers: i32 = CAPTURE_BUFFERS;
                let format = self.state.opts.pixel_format;
                if self.state.frame_pool {
                    StartStep::RecreatePool { width, height, buffers, format }
                } else {
                    StartStep::CreatePool { width, height, buffers, format }
                }
            },
            StartEvent::PoolReady { width, height } => {
                self.state.frame_pool = true;
                self.state.width = unsigned_code(width);
                self.state.height = unsigned_code(height);
                StartStep::RegisterFrameArrived
            },
            StartEvent::FrameArrivedRegistered => {
                self.state.frame_token = true;
                StartStep::RegisterClosed
            },
            StartEvent::ClosedRegistered => {
                self.state.closed_token = true;
                StartStep::CreateSession
            },
            StartEvent::SessionCreated => StartStep::StartCapture {
                include_cursor: self.state.opts.include_cursor,
                border_required: self.state.opts.border_required,
            },
            StartEvent::CaptureStarted => {
                self.state.session = true;
                if self.state.target_fps > 0 {
                    StartStep::SpawnIdleRepeat
                } else {
                    StartStep::Started
                }
            },
            StartEvent::IdleRepeatSpawned => {
                self.state.idle_thread = true;
                StartStep::Started
            },
        }
    }

    /// Stops the source. The thread that repeats idle frames, where there is
    /// one, has to end before anything is torn down.
    pub fn stop(&mut self) -> (step: StopStep)
        ensures
            match step {
                StopStep::NotRunning => !old(self)@.running && final(self)@ == old(self)@,
                StopStep::JoinIdleRepeat => old(self)@.running && old(self)@.idle_thread
                    && final(self)@ == (SourceState {
                    running: false,
                    idle_thread: false,
                    ..old(self)@
                }),
                StopStep::TearDown => old(self)@.running && !old(self)@.idle_thread && final(self)@
                    == (SourceState { running: false, ..old(self)@ }),
            },
            old(self)@.running ==> final(self)@ == old(self)@.halted(),
    {
        if !self.state.running {
            return StopStep::NotRunning;
        }
        self.state.running = false;
        if self.state.idle_thread {
            self.state.idle_thread = false;
            StopStep::JoinIdleRepeat
        } else {
            StopStep::TearDown
        }
    }

    /// Lets go of the retained idle slot and says which outside objects to let
    /// go of. Until they are gone, what happens is still reported to the consumer.
    pub fn tear_down<R>(&mut self, pool: &mut FramePool<R>) -> (todo: TearDown)
        requires
            old(pool).wf(),
        ensures
            final(pool).wf(),
            final(pool).same_slots(old(pool)),
            final(pool).states() == release_idle(old(pool).states(), old(self)@.idle_slot_index),
            final(self)@ == old(self)@.torn_down(),
            todo == old(self)@.to_let_go(),
    {
        let idle: u32 = self.state.idle_slot_index;
        self.state.idle_slot_index = NO_SLOT;
        if idle != NO_SLOT && idle < pool.capacity() {
            pool.release(idle);
        }
        let todo = TearDown {
            remove_frame_arrived: self.state.frame_pool && self.state.frame_token,
            remove_closed: self.state.item && self.state.closed_token,
            close_session: self.state.session,
            close_pool: self.state.frame_pool,
        };
        self.state.frame_token = false;
        self.state.closed_token = false;
        self.state.session = false;
        self.state.frame_pool = false;
        self.state.item = false;
        todo
    }

    /// Forgets the consumer, once the outside objects are gone.
    pub fn stopped(&mut self)
        ensures
            final(self)@ == old(self)@.without_consumer(),
    {
        self.state.consumer = false;
    }

    /// The width of the latest frame.
    pub fn width(&self) -> (w: u32)
        ensures
            w == self@.width,
    {
        self.state.width
    }

    /// The height of the latest frame.
    pub fn height(&self) -> (h: u32)
        ensures
            h == self@.height,
    {
        self.state.height
    }

    /// Counts a frame that arrived and could not be read: it is lost.
    pub fn skip_frame(&mut self)
        ensures
            final(self)@ == old(self)@.counting(true),
    {
        self.state.captured_frames = self.state.captured_frames.wrapping_add(1);
        self.state.lost_frames = self.state.lost_frames.wrapping_add(1);
    }

    /// Notes the size of a frame that arrived and takes a slot for it; with
    /// every slot held, the frame is lost.
    pub fn begin_frame<R>(&mut self, pool: &mut FramePool<R>, width: i32, height: i32) -> (r:
        Option<FrameTicket>)
        requires
            old(pool).wf(),
        ensures
            final(pool).wf(),
            final(pool).same_slots(old(pool)),
            final(self)@ == (SourceState {
                width: code_bits(width) as u32,
                height: code_bits(height) as u32,
                ..old(self)@.counting(r is None)
            }),
            match r {
                None => none_free(old(pool).states()) && final(pool).states() == old(
                    pool,
                ).states(),
                Some(ticket) => {
                    &&& is_first_free(old(pool).states(), ticket.slot as int)
                    &&& final(pool).states() == take_at(old(pool).states(), ticket.slot as int)
                    &&& ticket.width == code_bits(width)
                    &&& ticket.height == code_bits(height)
                    &&& ticket.size_changed == (old(self)@.width != code_bits(width)
                        || old(self)@.height != code_bits(height))
                },
            },
            final(self)@ == old(self)@.counting(r is None).sized(width, height),
            r matches Some(ticket) ==> ticket == old(self)@.ticket(ticket.slot, width, height),
    {
        let w: u32 = unsigned_code(width);
        let h: u32 = unsigned_code(height);
        let size_changed = w != self.state.width || h != self.state.height;
        if size_changed {
            self.state.width = w;
            self.state.height = h;
        }
        self.state.captured_frames = self.state.captured_frames.wrapping_add(1);
        match pool.acquire() {
            None => {
                self.state.lost_frames = self.state.lost_frames.wrapping_add(1);
                None
            },
            Some(slot) => Some(FrameTicket { slot, width: w, height: h, size_changed }),
        }
    }

    /// Gives back the slot of a frame whose picture could not be copied: the frame is
    /// lost.
    pub fn abandon_frame<R>(&mut self, pool: &mut FramePool<R>, ticket: FrameTicket)
        requires
            old(pool).wf(),
            ticket.slot < old(pool).slots().len(),
        ensures
            final(pool).wf(),
            final(pool).same_slots(old(pool)),
            final(pool).states() == release_at(old(pool).states(), ticket.slot as int),
            final(self)@ == old(self)@.losing(),
    {
        pool.release(ticket.slot);
        self.state.lost_frames = self.state.lost_frames.wrapping_add(1);
    }

    /// Completes a frame whose picture has been copied: its slot is retained
    /// for the idle repeat in place of the one retained before, and the frame
    /// goes to the consumer. Without a consumer it is lost.
    pub fn finish_frame<R>(
        &mut self,
        pool: &mut FramePool<R>,
        ticket: FrameTicket,
        span_hns: i64,
    ) -> (r: Option<CapturedFrame>)
        requires
            old(pool).wf(),
            ticket.slot < old(pool).slots().len(),
        ensures
            final(pool).wf(),
            final(pool).same_slots(old(pool)),
            final(pool).states() == states_after_frame(
                old(pool).states(),
                ticket.slot as int,
                old(self)@.idle_slot_index,
                old(self)@.consumer,
            ),
            final(self)@ == (SourceState {
                idle_slot_index: ticket.slot,
                frame_counter: old(self)@.frame_counter.wrapping_add(1),
                ..(if old(self)@.consumer {
                    old(self)@.handing()
                } else {
                    old(self)@.losing()
                })
            }),
            match r {
                None => !old(self)@.consumer,
                Some(frame) => {
                    &&& old(self)@.consumer
                    &&& frame.slot == ticket.slot
                    &&& frame.width == ticket.width
                    &&& frame.height == ticket.height
                    &&& frame.timestamp_ns == span_ns(span_hns as int)
                    &&& frame.size_changed == ticket.size_changed
                    &&& frame.dirty_rects@ == Seq::<DirtyRect>::empty()
                },
            },
            r is Some <==> old(self)@.consumer,
            r matches Some(frame) ==> frame@ == ticket.completed(span_hns),
            final(self)@ == (if r is Some {
                old(self)@.handing()
            } else {
                old(self)@.losing()
            }).retaining(ticket.slot),
    {
        let timestamp_ns: u64 = hundred_ns_to_ns(span_hns);
        pool.retain(ticket.slot);
        let old_idle: u32 = self.state.idle_slot_index;
        self.state.idle_slot_index = ticket.slot;
        if old_idle != NO_SLOT && old_idle < pool.capacity() {
            pool.release(old_idle);
        }
        self.state.frame_counter = self.state.frame_counter.wrapping_add(1);
        if self.state.consumer {
            self.state.handed_frames = self.state.handed_frames.wrapping_add(1);
            Some(
                CapturedFrame {
                    slot: ticket.slot,
                    width: ticket.width,
                    height: ticket.height,
                    timestamp_ns,
                    size_changed: ticket.size_changed,
                    dirty_rects: Vec::new(),
                },
            )
        } else {
            pool.release(ticket.slot);
            self.state.lost_frames = self.state.lost_frames.wrapping_add(1);
            None
        }
    }

    /// The report of a frame that could not be handled, if anybody listens.
    pub fn frame_failed(&self, e: &WincapError) -> (report: Option<ErrorPayload>)
        ensures
            match report {
                Some(p) => self@.consumer && p@ == e@.payload(),
                None => !self@.consumer,
            },
            report_view(report) == report_to(self@.consumer, e@),
    {
        if self.state.consumer {
            Some(e.report())
        } else {
            None
        }
    }

    /// The report that what is captured has gone, if anybody listens.
    pub fn item_closed(&self) -> (report: Option<ErrorPayload>)
        ensures
            match report {
                Some(p) => self@.consumer && p@ == (PayloadModel {
                    component: "wgc_source"@,
                    hresult: 0,
                    message: "capture item closed"@,
                }),
                None => !self@.consumer,
            },
            report_view(report) == report_to(
                self@.consumer,
                ErrorModel::General {
                    component: "wgc_source"@,
                    message: "capture item closed"@,
                },
            ),
    {
        if self.state.consumer {
            Some(
                ErrorPayload {
                    component: "wgc_source".to_owned(),
                    hresult: 0,
                    message: "capture item closed".to_owned(),
                },
            )
        } else {
            None
        }
    }

    /// Decides, on a tick of the idle-repeat timer, whether to hand the latest
    /// frame out again: only after two frame intervals without a new frame, and
    /// only once there has been a frame. Returns the slot to repeat.
    pub fn idle_tick<R>(
        &self,
        idle: &mut IdleRepeat,
        fps: u32,
        now_ns: u64,
        pool: &FramePool<R>,
    ) -> (r: Option<u32>)
        requires
            fps > 0,
            pool.indexed(),
        ensures
            final(idle)@ == old(idle)@.after_tick(self@.frame_counter, now_ns),
            r == if old(idle)@.is_due(self@.frame_counter, now_ns, fps)
                && self@.idle_slot_index != NO_SLOT && self@.idle_slot_index < pool.slots().len() {
                Some(self@.idle_slot_index)
            } else {
                None
            },
            r == self@.slot_to_repeat(
                old(idle)@.is_due(self@.frame_counter, now_ns, fps),
                pool.slots().len(),
            ),
    {
        if self.state.frame_counter != idle.state.last_seen_counter {
            idle.state.last_seen_counter = self.state.frame_counter;
            idle.state.idle_since = None;
            return None;
        }
        let since: u64 = match idle.state.idle_since {
            Some(t) => t,
            None => now_ns,
        };
        idle.state.idle_since = Some(since);
        let threshold: u64 = 2 * idle_interval_ms(fps) * 1_000_000;
        if now_ns.saturating_sub(since) < threshold {
            return None;
        }
        let slot: u32 = self.state.idle_slot_index;
        if slot == NO_SLOT || slot >= pool.capacity() {
            return None;
        }
        Some(slot)
    }

    /// Hands the latest frame out again: its slot gains a holder, the consumer,
    /// if there is one.
    pub fn repeat_frame<R>(&mut self, pool: &mut FramePool<R>, slot: u32, now_ns: u64) -> (r:
        Option<CapturedFrame>)
        requires
            old(pool).wf(),
            slot < old(pool).slots().len(),
        ensures
            final(pool).wf(),
            final(pool).same_slots(old(pool)),
            match r {
                None => !old(self)@.consumer && final(self)@ == old(self)@ && final(pool).states()
                    == release_at(retain_at(old(pool).states(), slot as int), slot as int),
                Some(frame) => {
                    &&& old(self)@.consumer
                    &&& final(self)@ == old(self)@.counting(false).handing()
                    &&& final(pool).states() == retain_at(old(pool).states(), slot as int)
                    &&& frame.slot == slot
                    &&& frame.width == old(self)@.width
                    &&& frame.height == old(self)@.height
                    &&& frame.timestamp_ns == now_ns
                    &&& !frame.size_changed
                    &&& frame.dirty_rects@ == Seq::<DirtyRect>::empty()
                },
            },
            r is Some <==> old(self)@.consumer,
            r matches Some(frame) ==> frame@ == old(self)@.repeated(slot, now_ns),
    {
        pool.retain(slot);
        if self.state.consumer {
            self.state.captured_frames = self.state.captured_frames.wrapping_add(1);
            self.state.handed_frames = self.state.handed_frames.wrapping_add(1);
            Some(
                CapturedFrame {
                    slot,
                    width: self.state.width,
                    height: self.state.height,
                    timestamp_ns: now_ns,
                    size_changed: false,
                    dirty_rects: Vec::new(),
                },
            )
        } else {
            pool.release(slot);
            None
        }
    }
}

/// What the idle-repeat timer remembers: the number of the latest frame that it
/// saw, and since when no new one has come.
#[derive(Debug, Clone, Copy)]
pub struct IdleState {
    pub last_seen_counter: u64,
    pub idle_since: Option<u64>,
}

/// The idle-repeat timer.
#[derive(Debug)]
pub struct IdleRepeat {
    state: IdleState,
}

impl View for IdleRepeat {
    type V = IdleState;

    closed spec fn view(&self) -> IdleState {
        self.state
    }
}

impl IdleRepeat {
    /// A timer that has seen nothing.
    pub fn new() -> (idle: Self)
        ensures
            idle@ == (IdleState { last_seen_counter: 0, idle_since: None }),
    {
        IdleRepeat { state: IdleState { last_seen_counter: 0, idle_since: None } }
    }
}

impl IdleState {
    /// What the timer remembers after a tick.
    pub open spec fn after_tick(self, counter: u64, now_ns: u64) -> IdleState {
        if counter != self.last_seen_counter {
            IdleState { last_seen_counter: counter, idle_since: None }
        } else {
            IdleState {
                last_seen_counter: counter,
                idle_since: Some(
                    match self.idle_since {
                        Some(t) => t,
                        None => now_ns,
                    },
                ),
            }
        }
    }

    /// Whether a tick finds that the latest frame is to be repeated: it saw no new one, and
    /// none came for long enough.
    pub open spec fn is_due(self, counter: u64, now_ns: u64, fps: u32) -> bool {
        &&& counter == self.last_seen_counter
        &&& self.after_tick(counter, now_ns).idle_for(now_ns) >= idle_threshold_ns(fps)
    }

    /// For how long no new frame has come.
    pub open spec fn idle_for(self, now_ns: u64) -> int {
        match self.idle_since {
            Some(t) if t <= now_ns => now_ns - t,
            _ => 0,
        }
    }
}

/// The time between two ticks of the idle-repeat timer.
pub open spec fn interval_ms(fps: u32) -> int {
    if fps > 1000 {
        1
    } else {
        1000int / fps as int
    }
}

/// The time without a new frame after which the latest one is repeated.
pub open spec fn idle_threshold_ns(fps: u32) -> int {
    2 * interval_ms(fps) * 1_000_000
}

/// The time between two ticks of the idle-repeat timer, in milliseconds: one
/// frame interval, but at least one millisecond.
pub fn idle_interval_ms(fps: u32) -> (ms: u64)
    requires
        fps > 0,
    ensures
        ms == interval_ms(fps),
        1 <= ms <= 1000,
{
    let ms: u64 = 1000 / fps as u64;
    assert(fps <= 1000 ==> ms >= 1) by (nonlinear_arith)
        requires
            ms == 1000u64 / fps as u64,
            fps > 0,
    ;
    assert(fps > 1000 ==> ms == 0) by (nonlinear_arith)
        requires
            ms == 1000u64 / fps as u64,
            fps > 0,
    ;
    assert(ms <= 1000) by (nonlinear_arith)
        requires
            ms == 1000u64 / fps as u64,
            fps > 0,
    ;
    if ms < 1 {
        1
    } else {
        ms
    }
}

/// The books of a pool: each slot is held as often as the consumer holds it,
/// and once more where it is retained for the idle repeat; it is free exactly
/// when nobody holds it.
pub open spec fn books_balance(states: Seq<SlotState>, idle: u32, consumer: Seq<nat>) -> bool {
    &&& states.len() == consumer.len()
    &&& states.len() <= NO_SLOT
    &&& idle == NO_SLOT || idle < states.len()
    &&& forall|i: int|
        0 <= i < states.len() ==> {
            &&& (#[trigger] states[i]).count == consumer[i] + if i == idle {
                1int
            } else {
                0int
            }
            &&& states[i].free <==> states[i].count == 0
        }
}

/// A delivered frame keeps the books: the consumer now holds its slot, the idle
/// repeat retains it too, and the slot retained before is no longer retained.
pub proof fn law_delivered_frame_keeps_books(
    states: Seq<SlotState>,
    idle: u32,
    consumer: Seq<nat>,
    slot: u32,
)
    requires
        books_balance(states, idle, consumer),
        is_first_free(states, slot as int),
    ensures
        books_balance(
            states_after_frame(take_at(states, slot as int), slot as int, idle, true),
            slot,
            consumer.update(slot as int, 1),
        ),
        books_balance(
            states_after_frame(take_at(states, slot as int), slot as int, idle, false),
            slot,
            consumer,
        ),
        consumer[slot as int] == 0,
{
    let k = slot as int;
    assert(states[k].count == 0);
    assert(idle != slot);
    let s1 = retain_at(take_at(states, k), k);
    let s2 = release_idle(s1, idle);
    assert(s2[k] == (SlotState { count: 2, free: false }));
    let s3 = release_at(s2, k);
    assert(s3[k] == (SlotState { count: 1, free: false }));
    if idle != NO_SLOT {
        assert(s2[idle as int].count == states[idle as int].count - 1);
    }
    assert forall|i: int| 0 <= i < s2.len() && i != k implies s2[i] == s3[i] && s2[i].count
        == consumer[i] && (s2[i].free <==> s2[i].count == 0) by {
        assert(states[i].count == consumer[i] + if i == idle {
            1int
        } else {
            0int
        });
    }
}

/// A repeated frame keeps the books: the consumer holds its slot once more, and
/// the slot stays retained.
pub proof fn law_repeated_frame_keeps_books(
    states: Seq<SlotState>,
    idle: u32,
    consumer: Seq<nat>,
)
    requires
        books_balance(states, idle, consumer),
        idle != NO_SLOT,
        states[idle as int].count < u32::MAX,
    ensures
        books_balance(
            retain_at(states, idle as int),
            idle,
            consumer.update(idle as int, consumer[idle as int] + 1),
        ),
        release_at(retain_at(states, idle as int), idle as int) == states,
{
    let k = idle as int;
    assert(states[k].count == consumer[k] + 1);
    assert(release_at(retain_at(states, k), k) =~= states);
}

/// A consumer that gives back a slot keeps the books.
pub proof fn law_consumer_release_keeps_books(
    states: Seq<SlotState>,
    idle: u32,
    consumer: Seq<nat>,
    slot: int,
)
    requires
        books_balance(states, idle, consumer),
        0 <= slot < states.len(),
        consumer[slot] > 0,
    ensures
        books_balance(
            release_at(states, slot),
            idle,
            consumer.update(slot, (consumer[slot] - 1) as nat),
        ),
{
    assert(states[slot].count >= 1);
}

/// No slot leaks: once a source has been torn down and the consumer has given
/// back every slot that it held, every slot is free.
pub proof fn law_no_slot_leaks(states: Seq<SlotState>, idle: u32, consumer: Seq<nat>)
    requires
        books_balance(states, idle, consumer),
    ensures
        books_balance(release_idle(states, idle), NO_SLOT, consumer),
        (forall|i: int| 0 <= i < consumer.len() ==> #[trigger] consumer[i] == 0) ==> forall|i: int|
            0 <= i < states.len() ==> (#[trigger] release_idle(states, idle)[i]).free,
{
    let after = release_idle(states, idle);
    if idle != NO_SLOT {
        assert(states[idle as int].count == consumer[idle as int] + 1);
    }
    assert forall|i: int| 0 <= i < after.len() implies (#[trigger] after[i]).count == consumer[i]
        && (after[i].free <==> after[i].count == 0) by {
        assert(states[i].count == consumer[i] + if i == idle {
            1int
        } else {
            0int
        });
    }
}

/// A tick of the idle-repeat timer: the number of frames that have come, and the time.
pub struct Tick {
    pub counter: u64,
    pub now_ns: u64,
}

/// What the timer remembers after ticks one after the other.
pub open spec fn after_ticks(start: IdleState, ticks: Seq<Tick>) -> IdleState
    decreases ticks.len(),
{
    if ticks.len() == 0 {
        start
    } else {
        after_ticks(start, ticks.drop_last()).after_tick(ticks.last().counter, ticks.last().now_ns)
    }
}

/// Whether the ticks from `i` on all saw that many frames.
pub open spec fn quiet_since(ticks: Seq<Tick>, i: int, counter: u64) -> bool {
    &&& 0 <= i < ticks.len()
    &&& forall|k: int| i <= k < ticks.len() ==> (#[trigger] ticks[k]).counter == counter
}

/// A frame is never repeated sooner than two intervals after the last new one was seen:
/// where a tick repeats a frame, there was an earlier tick, at least two intervals before,
/// and no tick since then saw a new frame.
pub proof fn law_no_repeat_while_frames_arrive(
    start: IdleState,
    ticks: Seq<Tick>,
    last: Tick,
    fps: u32,
)
    requires
        fps > 0,
        start.idle_since is None,
        after_ticks(start, ticks).is_due(last.counter, last.now_ns, fps),
    ensures
        exists|i: int|
            #![trigger ticks[i]]
            quiet_since(ticks, i, last.counter) && ticks[i].now_ns + idle_threshold_ns(fps)
                <= last.now_ns,
{
    assert(interval_ms(fps) >= 1) by (nonlinear_arith)
        requires
            fps > 0,
            interval_ms(fps) == if fps > 1000 {
                1int
            } else {
                1000int / fps as int
            },
    ;
    let before = after_ticks(start, ticks);
    let i = lemma_idle_since(start, ticks);
    assert(before.idle_since is Some);
    assert(ticks[i].now_ns + idle_threshold_ns(fps) <= last.now_ns);
}

/// The time since when no new frame has come is that of a tick, since which none saw one.
proof fn lemma_idle_since(start: IdleState, ticks: Seq<Tick>) -> (i: int)
    requires
        start.idle_since is None,
    ensures
        ticks.len() > 0 ==> after_ticks(start, ticks).last_seen_counter == ticks.last().counter,
        after_ticks(start, ticks).idle_since matches Some(t) ==> quiet_since(
            ticks,
            i,
            after_ticks(start, ticks).last_seen_counter,
        ) && ticks[i].now_ns == t,
    decreases ticks.len(),
{
    if ticks.len() == 0 {
        0
    } else {
        let earlier = ticks.drop_last();
        let i = lemma_idle_since(start, earlier);
        if after_ticks(start, earlier).idle_since is Some {
            assert(forall|k: int| 0 <= k < earlier.len() ==> #[trigger] ticks[k] == earlier[k]);
            i
        } else {
            ticks.len() - 1
        }
    }
}

/// How a frame that a source captured ends there.
pub enum CaptureOutcome {
    /// It could not be read.
    Unreadable,
    /// There was no free slot for it.
    NoSlot,
    /// Its picture could not be copied.
    CopyFailed,
    /// It was complete, and there was no consumer.
    NoConsumer,
    /// It was handed to the consumer.
    Handed,
    /// It was handed to the consumer once more, since the screen stood still.
    Repeated,
}

impl CaptureOutcome {
    /// Whether the frame got to the consumer.
    pub open spec fn handed(self) -> bool {
        self is Handed || self is Repeated
    }
}

/// The counts of a source after a frame that ended in a way.
pub open spec fn counts_after(source: SourceState, outcome: CaptureOutcome) -> SourceState {
    match outcome {
        CaptureOutcome::Unreadable | CaptureOutcome::NoSlot => source.counting(true),
        CaptureOutcome::CopyFailed | CaptureOutcome::NoConsumer => source.counting(false).losing(),
        CaptureOutcome::Handed | CaptureOutcome::Repeated => source.counting(false).handing(),
    }
}

/// A captured frame counts once, and then either as handed to the consumer or as lost.
pub proof fn law_captured_frames_are_handed_on_or_lost(source: SourceState, outcome: CaptureOutcome)
    ensures
        ({
            let end = counts_after(source, outcome);
            &&& end.captured_frames == source.captured_frames.wrapping_add(1)
            &&& end.handed_frames == (if outcome.handed() {
                source.handed_frames.wrapping_add(1)
            } else {
                source.handed_frames
            })
            &&& end.lost_frames == (if outcome.handed() {
                source.lost_frames
            } else {
                source.lost_frames.wrapping_add(1)
            })
        }),
{
}

/// A source that has been started in full holds everything that there is to let
/// go of, takes the size of what it captures, and holds nothing once it has been
/// torn down. The consumer is forgotten last.
pub proof fn law_stopping_lets_go_of_everything(
    source: SourceState,
    fps: u32,
    width: i32,
    height: i32,
)
    requires
        source.item,
    ensures
        ({
            let begun = source.starting(fps);
            let pool = begun.after_start_event(StartEvent::PoolReady { width, height }).0;
            let frames = pool.after_start_event(StartEvent::FrameArrivedRegistered).0;
            let closed = frames.after_start_event(StartEvent::ClosedRegistered).0;
            let started = closed.after_start_event(StartEvent::CaptureStarted).0;
            let gone = started.torn_down();
            &&& started.running && started.consumer
            &&& started.width == code_bits(width)
            &&& started.height == code_bits(height)
            &&& started.to_let_go() == (TearDown {
                remove_frame_arrived: true,
                remove_closed: true,
                close_session: true,
                close_pool: true,
            })
            &&& gone.to_let_go() == (TearDown {
                remove_frame_arrived: false,
                remove_closed: false,
                close_session: false,
                close_pool: false,
            })
            &&& !gone.item && gone.consumer && gone.idle_slot_index == NO_SLOT
            &&& !gone.without_consumer().consumer
        }),
{
}

/// The source after events of its start one after the other.
pub open spec fn after_start_events(source: SourceState, events: Seq<StartEvent>) -> SourceState
    decreases events.len(),
{
    if events.len() == 0 {
        source
    } else {
        after_start_events(source, events.drop_last()).after_start_event(events.last()).0
    }
}

/// However a start goes, the source keeps the options that it was made with. Where the
/// capture is asked to begin, the cursor and the border are those of the options; where
/// a pool of buffers is asked for, it has three buffers of the size that was told, in
/// the pixel format of the options.
pub proof fn law_capture_begins_as_asked(
    source: SourceState,
    fps: u32,
    events: Seq<StartEvent>,
    event: StartEvent,
)
    ensures
        ({
            let before = after_start_events(source.starting(fps), events);
            let step = before.after_start_event(event).1;
            &&& before.opts == source.opts
            &&& before.target_fps == fps
            &&& step matches StartStep::StartCapture { include_cursor, border_required } ==> {
                &&& include_cursor == source.opts.include_cursor
                &&& border_required == source.opts.border_required
            }
            &&& step matches StartStep::CreatePool { width, height, buffers, format } ==> {
                &&& event == (StartEvent::Size { width, height })
                &&& buffers == 3
                &&& format == source.opts.pixel_format
            }
            &&& step matches StartStep::RecreatePool { width, height, buffers, format } ==> {
                &&& event == (StartEvent::Size { width, height })
                &&& buffers == 3
                &&& format == source.opts.pixel_format
            }
        }),
    decreases events.len(),
{
    if events.len() > 0 {
        law_capture_begins_as_asked(source, fps, events.drop_last(), events.last());
    }
}

/// A start goes on from the size to the pool, which is made anew only where there was
/// none, to the two registrations, the session and the capture, and to the idle repeat
/// exactly if a rate is asked for.
pub proof fn law_starts_go_in_order(source: SourceState, event: StartEvent)
    ensures
        ({
            let step = source.after_start_event(event).1;
            match event {
                StartEvent::Size { .. } => {
                    &&& source.frame_pool ==> step is RecreatePool
                    &&& !source.frame_pool ==> step is CreatePool
                },
                StartEvent::PoolReady { .. } => step == StartStep::RegisterFrameArrived,
                StartEvent::FrameArrivedRegistered => step == StartStep::RegisterClosed,
                StartEvent::ClosedRegistered => step == StartStep::CreateSession,
                StartEvent::SessionCreated => step is StartCapture,
                StartEvent::CaptureStarted => {
                    &&& source.target_fps > 0 ==> step == StartStep::SpawnIdleRepeat
                    &&& source.target_fps == 0 ==> step == StartStep::Started
                },
                StartEvent::IdleRepeatSpawned => step == StartStep::Started,
            }
        }),
{
}

/// A source notes what was done and nothing else: the size is that of the pool, every
/// flag is set by its own event, and the counts, the consumer and the idle slot stay.
pub proof fn law_starts_note_what_was_done(source: SourceState, event: StartEvent)
    ensures
        ({
            let after = source.after_start_event(event).0;
            &&& event matches StartEvent::PoolReady { width, height } ==> {
                &&& (after.width - width) % 0x1_0000_0000 == 0
                &&& (after.height - height) % 0x1_0000_0000 == 0
            }
            &&& !(event is PoolReady) ==> after.width == source.width && after.height
                == source.height
            &&& after.frame_pool == (source.frame_pool || event is PoolReady)
            &&& after.frame_token == (source.frame_token || event is FrameArrivedRegistered)
            &&& after.closed_token == (source.closed_token || event is ClosedRegistered)
            &&& after.session == (source.session || event is CaptureStarted)
            &&& after.idle_thread == (source.idle_thread || event is IdleRepeatSpawned)
            &&& after.item == source.item
            &&& after.running == source.running
            &&& after.consumer == source.consumer
            &&& after.frame_counter == source.frame_counter
            &&& after.idle_slot_index == source.idle_slot_index
            &&& after.captured_frames == source.captured_frames
            &&& after.lost_frames == source.lost_frames
            &&& after.handed_frames == source.handed_frames
        }),
{
    if let StartEvent::PoolReady { width, height } = event {
        law_codes_keep_their_bits(width, height);
        law_codes_keep_their_bits(height, width);
    }
}

/// A new source has its options and nothing else; a start makes it run for its consumer
/// at the asked rate, with no frame seen and none retained, and keeps everything else.
pub proof fn law_sources_start_afresh(opts: WgcOptions, source: SourceState, fps: u32)
    ensures
        ({
            let new = SourceState::fresh(opts);
            &&& new.opts == opts
            &&& new.width == 0 && new.height == 0
            &&& !new.running && !new.consumer
            &&& new.frame_counter == 0 && new.idle_slot_index == 0xFFFF_FFFF
            &&& new.target_fps == 0
            &&& new.captured_frames == 0 && new.lost_frames == 0 && new.handed_frames == 0
            &&& !new.item && !new.frame_pool && !new.frame_token && !new.closed_token
            &&& !new.session && !new.idle_thread
        }),
        ({
            let begun = source.starting(fps);
            &&& begun.running && begun.consumer
            &&& begun.target_fps == fps
            &&& begun.frame_counter == 0 && begun.idle_slot_index == 0xFFFF_FFFF
            &&& begun.opts == source.opts
            &&& begun.width == source.width && begun.height == source.height
            &&& begun.captured_frames == source.captured_frames
            &&& begun.lost_frames == source.lost_frames
            &&& begun.handed_frames == source.handed_frames
            &&& begun.item == source.item && begun.frame_pool == source.frame_pool
            &&& begun.frame_token == source.frame_token && begun.closed_token
                == source.closed_token
            &&& begun.session == source.session && begun.idle_thread == source.idle_thread
        }),
{
}

/// What is let go of is what is there: a registration only where both it and its object
/// exist, the session and the pool where they do. Tearing down leaves the options, the
/// size, the counts and the consumer as they were.
pub proof fn law_only_what_is_there_is_let_go(source: SourceState)
    ensures
        source.to_let_go().remove_frame_arrived <==> source.frame_pool && source.frame_token,
        source.to_let_go().remove_closed <==> source.item && source.closed_token,
        source.to_let_go().close_session <==> source.session,
        source.to_let_go().close_pool <==> source.frame_pool,
        ({
            let gone = source.torn_down();
            &&& !gone.item && !gone.frame_pool && !gone.session
            &&& !gone.frame_token && !gone.closed_token
            &&& gone.idle_slot_index == 0xFFFF_FFFF
            &&& gone.opts == source.opts
            &&& gone.width == source.width && gone.height == source.height
            &&& gone.running == source.running && gone.consumer == source.consumer
            &&& gone.target_fps == source.target_fps
            &&& gone.frame_counter == source.frame_counter
            &&& gone.captured_frames == source.captured_frames
            &&& gone.lost_frames == source.lost_frames
            &&& gone.handed_frames == source.handed_frames
            &&& gone.idle_thread == source.idle_thread
        }),
        ({
            let alone = source.without_consumer();
            &&& !alone.consumer
            &&& alone.opts == source.opts && alone.running == source.running
            &&& alone.width == source.width && alone.height == source.height
            &&& alone.captured_frames == source.captured_frames
            &&& alone.lost_frames == source.lost_frames
            &&& alone.handed_frames == source.handed_frames
        }),
{
}

/// Counting a frame changes the counts alone.
pub proof fn law_counting_changes_counts_alone(source: SourceState, outcome: CaptureOutcome)
    ensures
        ({
            let end = counts_after(source, outcome);
            &&& end.opts == source.opts
            &&& end.width == source.width && end.height == source.height
            &&& end.running == source.running && end.consumer == source.consumer
            &&& end.frame_counter == source.frame_counter
            &&& end.idle_slot_index == source.idle_slot_index
            &&& end.target_fps == source.target_fps
            &&& end.item == source.item && end.frame_pool == source.frame_pool
            &&& end.frame_token == source.frame_token && end.closed_token == source.closed_token
            &&& end.session == source.session && end.idle_thread == source.idle_thread
        }),
{
}

/// The timer ticks once a frame: as many ticks as frames fit in a second, and one more
/// millisecond a tick would be too long; it never ticks more often than every
/// millisecond. A frame is repeated after two ticks.
pub proof fn law_timer_keeps_the_rate(fps: u32)
    requires
        fps > 0,
    ensures
        fps <= 1000 ==> interval_ms(fps) * fps <= 1000 < (interval_ms(fps) + 1) * fps,
        fps > 1000 ==> interval_ms(fps) == 1,
        idle_threshold_ns(fps) == interval_ms(fps) * 2_000_000,
{
    if fps <= 1000 {
        let f = fps as int;
        let ms = 1000int / f;
        assert(ms * f <= 1000 < (ms + 1) * f) by (nonlinear_arith)
            requires
                f > 0,
                ms == 1000int / f,
        ;
    }
}

/// A screen that stands still is repeated: once a tick has seen the latest frame for a
/// second time, a tick two intervals later that sees no other finds it due, whatever
/// ticks come in between.
pub proof fn law_still_screen_is_repeated(
    start: IdleState,
    first: Tick,
    ticks: Seq<Tick>,
    last: Tick,
    fps: u32,
)
    requires
        fps > 0,
        start.last_seen_counter == first.counter,
        start.idle_since is None,
        last.counter == first.counter,
        forall|k: int| 0 <= k < ticks.len() ==> (#[trigger] ticks[k]).counter == first.counter,
        last.now_ns >= first.now_ns + 2 * interval_ms(fps) * 1_000_000,
    ensures
        after_ticks(start.after_tick(first.counter, first.now_ns), ticks).is_due(
            last.counter,
            last.now_ns,
            fps,
        ),
{
    lemma_quiet_ticks(start.after_tick(first.counter, first.now_ns), ticks);
    assert(interval_ms(fps) >= 0) by (nonlinear_arith)
        requires
            fps > 0,
            interval_ms(fps) == if fps > 1000 {
                1int
            } else {
                1000int / fps as int
            },
    ;
}

proof fn lemma_quiet_ticks(start: IdleState, ticks: Seq<Tick>)
    requires
        start.idle_since is Some,
        forall|k: int|
            0 <= k < ticks.len() ==> (#[trigger] ticks[k]).counter == start.last_seen_counter,
    ensures
        after_ticks(start, ticks) == start,
    decreases ticks.len(),
{
    if ticks.len() > 0 {
        let earlier = ticks.drop_last();
        assert forall|k: int| 0 <= k < earlier.len() implies (#[trigger] earlier[k]).counter
            == start.last_seen_counter by {
            assert(ticks[k] == earlier[k]);
        }
        lemma_quiet_ticks(start, earlier);
        assert(ticks[ticks.len() - 1].counter == start.last_seen_counter);
    }
}

/// A new frame starts the wait over: the tick that sees it repeats nothing, and the
/// timer counts from a later tick on.
pub proof fn law_new_frames_start_the_wait_over(
    idle: IdleState,
    counter: u64,
    now_ns: u64,
    fps: u32,
)
    requires
        counter != idle.last_seen_counter,
    ensures
        !idle.is_due(counter, now_ns, fps),
        idle.after_tick(counter, now_ns).last_seen_counter == counter,
        idle.after_tick(counter, now_ns).idle_since is None,
{
}

/// A monitor can be captured exactly if its handle is not zero and the system knows it,
/// and so can a window; a handle is shown as `0x` and its hexadecimal digits.
pub proof fn law_known_handles_can_be_captured(handle: usize, known: bool)
    ensures
        monitor_problem(handle, known) is None <==> handle != 0 && known,
        window_problem(handle, known) is None <==> handle != 0 && known,
        handle == 0 ==> monitor_problem(handle, known) == Some("null monitor handle"@),
        handle == 0 ==> window_problem(handle, known) == Some("null window handle"@),
        handle_text(handle).take(2) == "0x"@,
        number_in(handle_text(handle).skip(2), 16) == handle,
{
    let digits = number_text(handle as nat, 16, 0, false);
    reveal_strlit("0x");
    law_numbers_read_back(handle as nat, 16, 0, false);
    assert(handle_text(handle).take(2) =~= "0x"@);
    assert(handle_text(handle).skip(2) =~= digits);
}

/// The consumer holds the slot of a frame that it got, and the idle repeat retains it;
/// nobody holds the one that was retained before unless the consumer still does.
pub proof fn law_completed_frames_change_holders(
    states: Seq<SlotState>,
    slot: int,
    old_idle: u32,
    consumer: bool,
    j: int,
)
    requires
        0 <= slot < states.len() < 0xFFFF_FFFF,
        0 <= j < states.len(),
        1 <= states[slot].count < 0xFFFF_FFFF,
        !states[slot].free,
        old_idle != slot,
        old_idle < states.len() ==> states[old_idle as int].count >= 1,
    ensures
        ({
            let after = states_after_frame(states, slot, old_idle, consumer);
            &&& after.len() == states.len()
            &&& consumer ==> after[slot].count == states[slot].count + 1
            &&& !consumer ==> after[slot].count == states[slot].count
            &&& !after[slot].free
            &&& j == old_idle ==> after[j].count == states[j].count - 1
            &&& j != slot && j != old_idle ==> after[j] == states[j]
            &&& j == old_idle ==> (after[j].free <==> states[j].free || after[j].count == 0)
        }),
{
}

/// A frame counts as changed in size exactly if its width or its height differs from what the
/// source had before. It takes the slot that was taken for it; the source has the size of the
/// frame from then on.
pub proof fn law_size_changes_are_noticed(
    source: SourceState,
    slot: u32,
    width: i32,
    height: i32,
)
    ensures
        ({
            let ticket = source.ticket(slot, width, height);
            &&& ticket.slot == slot
            &&& (ticket.width - width) % 0x1_0000_0000 == 0
            &&& (ticket.height - height) % 0x1_0000_0000 == 0
            &&& ticket.size_changed <==> source.width != ticket.width || source.height
                != ticket.height
        }),
        ({
            let after = source.sized(width, height);
            &&& after.width == source.ticket(slot, width, height).width
            &&& after.height == source.ticket(slot, width, height).height
            &&& !after.ticket(slot, width, height).size_changed
            &&& after.opts == source.opts
            &&& after.running == source.running && after.consumer == source.consumer
            &&& after.frame_counter == source.frame_counter
            &&& after.idle_slot_index == source.idle_slot_index
            &&& after.captured_frames == source.captured_frames
            &&& after.lost_frames == source.lost_frames
            &&& after.handed_frames == source.handed_frames
        }),
{
    law_codes_keep_their_bits(width, height);
    law_codes_keep_their_bits(height, width);
}

/// A completed frame is the one that arrived: its slot, its size and whether that changed are
/// those of its ticket, and its time is that of the system. A repeated one has the slot that
/// it repeats, the size of the source and the time of the tick, and no change of size.
pub proof fn law_frames_are_handed_out_as_they_came(
    source: SourceState,
    ticket: FrameTicket,
    span_hns: i64,
    slot: u32,
    now_ns: u64,
)
    ensures
        ({
            let frame = ticket.completed(span_hns);
            &&& frame.slot == ticket.slot
            &&& frame.width == ticket.width
            &&& frame.height == ticket.height
            &&& frame.size_changed == ticket.size_changed
            &&& span_hns >= 0 && span_hns * 100 <= u64::MAX ==> frame.timestamp_ns == span_hns
                * 100
            &&& frame.dirty_rects.len() == 0
        }),
        ({
            let frame = source.repeated(slot, now_ns);
            &&& frame.slot == slot
            &&& frame.width == source.width
            &&& frame.height == source.height
            &&& frame.timestamp_ns == now_ns
            &&& !frame.size_changed
            &&& frame.dirty_rects.len() == 0
        }),
{
}

/// What is repeated is the frame that was completed last, if there was one since the start and
/// its slot is there; the timer sees every completed frame as a new one.
pub proof fn law_latest_frame_is_repeated(
    source: SourceState,
    fps: u32,
    slot: u32,
    due: bool,
    slots: nat,
)
    requires
        slots < 0xFFFF_FFFF,
    ensures
        slot < slots ==> source.retaining(slot).slot_to_repeat(due, slots) == (if due {
            Some(slot)
        } else {
            None
        }),
        source.starting(fps).slot_to_repeat(due, slots) is None,
        source.torn_down().slot_to_repeat(due, slots) is None,
        source.frame_counter < u64::MAX ==> source.retaining(slot).frame_counter
            == source.frame_counter + 1,
        source.retaining(slot).frame_counter != source.frame_counter,
        source.retaining(slot).opts == source.opts,
        source.retaining(slot).width == source.width,
        source.retaining(slot).height == source.height,
        source.retaining(slot).consumer == source.consumer,
{
}

/// A source that was told to stop does not run and repeats nothing any more, but keeps its
/// objects and its consumer until they are let go of.
pub proof fn law_stopped_sources_keep_their_objects(source: SourceState)
    ensures
        !source.halted().running,
        !source.halted().idle_thread,
        source.halted().to_let_go() == source.to_let_go(),
        source.halted().consumer == source.consumer,
        source.halted().idle_slot_index == source.idle_slot_index,
        source.halted().captured_frames == source.captured_frames,
        source.halted().lost_frames == source.lost_frames,
        source.halted().handed_frames == source.handed_frames,
{
}

} // verus!
