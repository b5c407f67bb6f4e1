//! What holds of every frame on its way, however the outside work goes and whatever the
//! consumer does: slots, textures and counts.

use vstd::prelude::*;

use crate::encoder_config::{
    attr_guid, input_type_of, EncoderConfig, MediaKey, SUBTYPE_NV12, SUBTYPE_P010,
};
use crate::frame_job::{
    copying, dropped, edges_of, encoder_color, encoder_format, ended, first_turn, in_step,
    in_turn, job_of, next_turn, place_of, releasing, taken, unoccupied, DeliveryMode,
    DeliveryModel, FrameAction, FrameEvent, FramePhase, JobModel, Turn, FORMAT_NV12,
    FORMAT_P010, STAGING_TEXTURES,
};
use crate::video_processor::ColorSpace;
use crate::wgc_source::{CapturedFrame, DirtyRect};

verus! {

/// What can happen while a job is under way: the answer to the work that it asked for,
/// or something that the consumer did with a frame.
pub enum RunEvent {
    Answer(FrameEvent),
    /// The consumer released a raw frame.
    Released { number: u64 },
    /// The buffer around a picture was finalized.
    Finalized { number: u64 },
}

/// Where a job stands after one more event.
#[verifier::opaque]
pub open spec fn step(t: Turn, event: RunEvent) -> Turn {
    match event {
        RunEvent::Answer(e) => next_turn(t.delivery, t.job, e),
        RunEvent::Released { number } => Turn {
            delivery: t.delivery.after_release(number),
            ..t
        },
        RunEvent::Finalized { number } => Turn {
            delivery: t.delivery.after_finalizer(number),
            ..t
        },
    }
}

/// Where a job stands after a sequence of events.
pub open spec fn after(start: Turn, events: Seq<RunEvent>) -> Turn
    decreases events.len(),
{
    if events.len() == 0 {
        start
    } else {
        step(after(start, events.drop_last()), events.last())
    }
}

/// Whether an event gives the slot of the job back: an answer upon which the job does
/// so, or the consumer that releases the frame while it holds it.
pub open spec fn gives_slot_back(t: Turn, event: RunEvent) -> bool {
    match event {
        RunEvent::Answer(_) => step(t, event).action is ReleaseSlot,
        RunEvent::Released { number } => number == t.job.number && t.delivery.is_lent(number),
        RunEvent::Finalized { .. } => false,
    }
}

/// How often the slot of a job was given back, by the job or by the consumer.
pub open spec fn give_backs(start: Turn, events: Seq<RunEvent>) -> nat
    decreases events.len(),
{
    if events.len() == 0 {
        if start.action is ReleaseSlot {
            1
        } else {
            0
        }
    } else {
        let earlier = give_backs(start, events.drop_last());
        if gives_slot_back(after(start, events.drop_last()), events.last()) {
            earlier + 1
        } else {
            earlier
        }
    }
}

/// Whether a job itself still owes its slot to the pool.
pub open spec fn owes_slot(phase: FramePhase) -> bool {
    match phase {
        FramePhase::SendingRaw
        | FramePhase::ReleasingEarly
        | FramePhase::Polling
        | FramePhase::Mapping
        | FramePhase::SendingPixels
        | FramePhase::Unmapping
        | FramePhase::Releasing { .. }
        | FramePhase::Done => false,
        FramePhase::Reporting { held } => held,
        _ => true,
    }
}

/// Whether the slot of a job is still held, by the job or by the consumer.
pub open spec fn holds_slot(t: Turn) -> bool {
    owes_slot(t.job.phase) || t.delivery.is_lent(t.job.number)
}

/// Whether no raw frame of that number is with the consumer, and none of its pictures.
pub open spec fn is_new(d: DeliveryModel, number: u64) -> bool {
    &&& !d.lent.contains_key(number)
    &&& forall|i: int| 0 <= i < d.staging.len() ==> #[trigger] d.staging[i] != Some(number)
}

/// However the outside work goes and whatever the consumer releases, the slot of a frame
/// is never given back twice, and it is the slot of that frame that is given back. It is
/// back in the pool exactly if neither the job nor the consumer holds it. After the job
/// only the consumer can hold it, with a raw frame that was handed over, and until it
/// releases that frame.
pub proof fn law_slot_is_given_back_once(d: DeliveryModel, job: JobModel, events: Seq<RunEvent>)
    requires
        is_new(d, job.number),
    ensures
        ({
            let end = after(first_turn(d, job), events);
            let count = give_backs(first_turn(d, job), events);
            &&& count <= 1
            &&& count == 0 <==> holds_slot(end)
            &&& end.job.slot == job.slot && end.job.number == job.number
            &&& end.action matches FrameAction::ReleaseSlot { slot } ==> slot == job.slot
            &&& end.delivery.is_lent(job.number) ==> {
                &&& end.delivery.lent[job.number] == job.slot
                &&& d.mode == DeliveryMode::Raw
                &&& !holds_slot(step(end, RunEvent::Released { number: job.number }))
            }
            &&& end.job.phase == FramePhase::Done && d.mode != DeliveryMode::Raw ==> count == 1
        }),
{
    let start = first_turn(d, job);
    lemma_slot_over_a_run(start, job.slot, job.number, d.mode == DeliveryMode::Raw, events);
    reveal(step);
}

/// What is true of the slot in every turn; `raw` says that frames are delivered raw.
spec fn slot_fits(t: Turn, slot: u32, number: u64, raw: bool) -> bool {
    &&& t.job.slot == slot
    &&& t.job.number == number
    &&& t.action matches FrameAction::ReleaseSlot { slot: s } ==> s == slot
    &&& t.delivery.is_lent(number) ==> {
        &&& t.delivery.lent[number] == slot
        &&& raw
        &&& t.job.phase == FramePhase::SendingRaw || t.job.phase == FramePhase::Done
    }
}

/// What one event does to the slot.
proof fn lemma_slot_over_a_step(t: Turn, event: RunEvent, slot: u32, number: u64, raw: bool)
    requires
        slot_fits(t, slot, number, raw),
    ensures
        slot_fits(step(t, event), slot, number, raw),
        gives_slot_back(t, event) <==> holds_slot(t) && !holds_slot(step(t, event)),
        holds_slot(step(t, event)) ==> holds_slot(t),
{
    reveal(step);
}

proof fn lemma_slot_over_a_run(
    start: Turn,
    slot: u32,
    number: u64,
    raw: bool,
    events: Seq<RunEvent>,
)
    requires
        slot_fits(start, slot, number, raw),
        start.action is ReleaseSlot <==> !holds_slot(start),
    ensures
        slot_fits(after(start, events), slot, number, raw),
        give_backs(start, events) == (if holds_slot(after(start, events)) {
            0nat
        } else {
            1
        }),
    decreases events.len(),
{
    if events.len() > 0 {
        lemma_slot_over_a_run(start, slot, number, raw, events.drop_last());
        lemma_slot_over_a_step(
            after(start, events.drop_last()),
            events.last(),
            slot,
            number,
            raw,
        );
    }
}

/// A release gives back the slot of its frame, once: a second one finds nothing, and no
/// other frame is touched.
pub proof fn law_release_gives_back_one_slot(d: DeliveryModel, number: u64, other: u64)
    requires
        number != other,
    ensures
        !d.after_release(number).is_lent(number),
        d.after_release(number).after_release(number) == d.after_release(number),
        d.after_release(number).is_lent(other) <==> d.is_lent(other),
        d.is_lent(other) ==> d.after_release(number).lent[other] == d.lent[other],
        d.after_release(number).staging == d.staging,
{
    assert(d.after_release(number).lent.remove(number) =~= d.after_release(number).lent);
}

/// Whether every frame that the consumer holds, and every picture that occupies a staging
/// texture, has a number that was given already.
pub open spec fn numbered(d: DeliveryModel) -> bool {
    &&& forall|n: u64| #[trigger] d.lent.contains_key(n) ==> n < d.taken_frames
    &&& forall|i: int|
        0 <= i < d.staging.len() ==> match #[trigger] d.staging[i] {
            Some(n) => n < d.taken_frames,
            None => true,
        }
}

/// Frames are numbered anew: the number that the next frame gets belongs to no frame that
/// the consumer still holds, however earlier jobs went. It takes all the numbers there
/// are to come around.
pub proof fn law_numbers_are_new(
    mode: DeliveryMode,
    cfg: EncoderConfig,
    d: DeliveryModel,
    job: JobModel,
    events: Seq<RunEvent>,
)
    requires
        d.wf(),
        numbered(d),
        d.taken_frames < u64::MAX,
        job.number == d.taken_frames,
    ensures
        numbered(DeliveryModel::fresh(mode, cfg)),
        is_new(d, d.taken_frames),
        numbered(after(first_turn(d, job), events).delivery),
{
    lemma_choice(d.staging, d.staging_next, 0);
    lemma_numbers_over_a_run(first_turn(d, job), events);
}

proof fn lemma_numbers_over_a_step(t: Turn, event: RunEvent)
    requires
        in_step(t.delivery, t.job),
        numbered(t.delivery),
        t.job.number < t.delivery.taken_frames,
    ensures
        in_step(step(t, event).delivery, step(t, event).job),
        numbered(step(t, event).delivery),
        step(t, event).job.number < step(t, event).delivery.taken_frames,
{
    reveal(step);
    if t.job.phase == FramePhase::CreatingStaging {
        lemma_choice(t.delivery.staging.push(None), 0, 0);
    }
}

proof fn lemma_numbers_over_a_run(start: Turn, events: Seq<RunEvent>)
    requires
        in_step(start.delivery, start.job),
        numbered(start.delivery),
        start.job.number < start.delivery.taken_frames,
    ensures
        in_step(after(start, events).delivery, after(start, events).job),
        numbered(after(start, events).delivery),
        after(start, events).job.number < after(start, events).delivery.taken_frames,
    decreases events.len(),
{
    if events.len() > 0 {
        lemma_numbers_over_a_run(start, events.drop_last());
        lemma_numbers_over_a_step(after(start, events.drop_last()), events.last());
    }
}

/// What holds of a delivery between two jobs: unless setting up the encoder
/// failed, everything is there that encoding needs, or nothing yet is.
pub open spec fn settled(d: DeliveryModel) -> bool {
    ||| d.encoder_failed
    ||| d.processor && d.nv12_texture && d.encoder
    ||| !d.processor && !d.nv12_texture && !d.encoder && d.enc_width == 0 && d.enc_height == 0
}

/// What holds of a delivery while a job is in some phase.
pub open spec fn steady(d: DeliveryModel, job: JobModel) -> bool {
    match job.phase {
        FramePhase::CreatingProcessor => !d.processor && !d.nv12_texture && !d.encoder,
        FramePhase::CreatingNv12 => d.processor && !d.nv12_texture && !d.encoder,
        FramePhase::CreatingEncoder
        | FramePhase::InitializingEncoder
        | FramePhase::StartingEncoder => d.processor && d.nv12_texture && !d.encoder,
        FramePhase::Converting | FramePhase::Encoding => {
            &&& d.processor && d.nv12_texture && d.encoder
            &&& d.enc_width == job.width
            &&& d.enc_height == job.height
        },
        FramePhase::Copying
        | FramePhase::ReleasingEarly
        | FramePhase::Polling
        | FramePhase::Mapping
        | FramePhase::SendingPixels
        | FramePhase::Unmapping => settled(d) && job.staging < d.staging.len(),
        FramePhase::CreatingStaging => settled(d) && d.staging.len() < STAGING_TEXTURES,
        _ => settled(d),
    }
}

/// A delivery begins settled, and every job that it can begin leaves it settled.
/// On the way, a picture is converted and encoded only when converter, texture
/// and encoder are there and have its size, and a picture is read back only
/// through a staging texture that there is.
pub proof fn law_delivery_stays_settled(
    mode: DeliveryMode,
    cfg: EncoderConfig,
    d: DeliveryModel,
    job: JobModel,
    events: Seq<RunEvent>,
)
    requires
        settled(d),
        d.wf(),
        d.accepts(job.width, job.height),
    ensures
        settled(DeliveryModel::fresh(mode, cfg)),
        DeliveryModel::fresh(mode, cfg).wf(),
        ({
            let end = after(first_turn(d, job), events);
            &&& steady(end.delivery, end.job)
            &&& in_step(end.delivery, end.job)
            &&& end.job.width == job.width
            &&& end.job.height == job.height
            &&& end.job.phase == FramePhase::Done ==> settled(end.delivery)
        }),
{
    lemma_choice(d.staging, d.staging_next, 0);
    lemma_steady_over_a_run(first_turn(d, job), events);
}

/// The staging texture that is chosen is one that there is, and is not occupied.
pub proof fn lemma_choice(table: Seq<Option<u64>>, next: u32, k: nat)
    requires
        table.len() <= STAGING_TEXTURES,
    ensures
        unoccupied(table, next, k) matches Some(i) ==> i < table.len() && table[i as int] is None,
    decreases table.len() - k,
{
    if k < table.len() {
        lemma_choice(table, next, k + 1);
    }
}

proof fn lemma_steady_over_a_step(t: Turn, event: RunEvent)
    requires
        steady(t.delivery, t.job),
        in_step(t.delivery, t.job),
    ensures
        ({
            let n = step(t, event);
            &&& steady(n.delivery, n.job)
            &&& in_step(n.delivery, n.job)
            &&& n.job.width == t.job.width
            &&& n.job.height == t.job.height
        }),
{
    reveal(step);
    if t.job.phase == FramePhase::CreatingStaging {
        lemma_choice(t.delivery.staging.push(None), 0, 0);
    }
}

proof fn lemma_steady_over_a_run(start: Turn, events: Seq<RunEvent>)
    requires
        steady(start.delivery, start.job),
        in_step(start.delivery, start.job),
    ensures
        ({
            let end = after(start, events);
            &&& steady(end.delivery, end.job)
            &&& in_step(end.delivery, end.job)
            &&& end.job.width == start.job.width
            &&& end.job.height == start.job.height
        }),
    decreases events.len(),
{
    if events.len() > 0 {
        lemma_steady_over_a_run(start, events.drop_last());
        lemma_steady_over_a_step(after(start, events.drop_last()), events.last());
    }
}

/// Whether an event is the consumer or the encoder that takes the frame.
pub open spec fn takes_frame(phase: FramePhase, event: RunEvent) -> bool {
    &&& phase == FramePhase::SendingRaw || phase == FramePhase::SendingPixels || phase
        == FramePhase::Encoding
    &&& event matches RunEvent::Answer(e) && !(e is Failed)
}

/// How often a frame was taken, by the consumer or by the encoder.
pub open spec fn takes(start: Turn, events: Seq<RunEvent>) -> nat
    decreases events.len(),
{
    if events.len() == 0 {
        0
    } else {
        let earlier = takes(start, events.drop_last());
        if takes_frame(after(start, events.drop_last()).job.phase, events.last()) {
            earlier + 1
        } else {
            earlier
        }
    }
}

/// Every frame that a session takes over counts once: as delivered if the consumer or the
/// encoder took it, and else as dropped. Nothing is counted before the job ends, and no
/// frame is taken twice.
pub proof fn law_every_frame_counts_once(d: DeliveryModel, job: JobModel, events: Seq<RunEvent>)
    ensures
        ({
            let end = after(first_turn(d, job), events);
            let count = takes(first_turn(d, job), events);
            &&& count <= 1
            &&& end.delivery.taken_frames == d.taken_frames.wrapping_add(1)
            &&& end.delivery.delivered_frames == (if end.job.phase == FramePhase::Done && count
                == 1 {
                d.delivered_frames.wrapping_add(1)
            } else {
                d.delivered_frames
            })
            &&& end.delivery.dropped_frames == (if end.job.phase == FramePhase::Done && count
                == 0 {
                d.dropped_frames.wrapping_add(1)
            } else {
                d.dropped_frames
            })
        }),
{
    lemma_count_over_a_run(first_turn(d, job), d, events);
}

/// Whether the counts of a turn fit how often the frame was taken, with a delivery that
/// stood at `base` before the job.
spec fn count_fits(t: Turn, count: nat, base: DeliveryModel) -> bool {
    &&& t.delivery.taken_frames == base.taken_frames.wrapping_add(1)
    &&& match t.job.phase {
        FramePhase::Done => {
            ||| count == 1 && t.delivery.delivered_frames == base.delivered_frames.wrapping_add(1)
                && t.delivery.dropped_frames == base.dropped_frames
            ||| count == 0 && t.delivery.delivered_frames == base.delivered_frames
                && t.delivery.dropped_frames == base.dropped_frames.wrapping_add(1)
        },
        phase => {
            &&& t.delivery.delivered_frames == base.delivered_frames
            &&& t.delivery.dropped_frames == base.dropped_frames
            &&& count == (if phase == (FramePhase::Releasing { delivered: true }) {
                1nat
            } else {
                0
            })
        },
    }
}

proof fn lemma_count_over_a_step(t: Turn, event: RunEvent, count: nat, base: DeliveryModel)
    requires
        count_fits(t, count, base),
    ensures
        count_fits(
            step(t, event),
            if takes_frame(t.job.phase, event) {
                count + 1
            } else {
                count
            },
            base,
        ),
{
    reveal(step);
}

proof fn lemma_count_over_a_run(start: Turn, base: DeliveryModel, events: Seq<RunEvent>)
    requires
        count_fits(start, 0, base),
    ensures
        count_fits(after(start, events), takes(start, events), base),
    decreases events.len(),
{
    if events.len() > 0 {
        lemma_count_over_a_run(start, base, events.drop_last());
        lemma_count_over_a_step(
            after(start, events.drop_last()),
            events.last(),
            takes(start, events.drop_last()),
            base,
        );
    }
}

/// Once setting up the encoder has failed it is never tried again: the failure
/// stays noted whatever comes, and every further frame is given back at once and
/// dropped, with nothing reported.
pub proof fn law_failed_encoder_is_left_alone(
    d: DeliveryModel,
    job: JobModel,
    events: Seq<RunEvent>,
    answer: FrameEvent,
)
    requires
        d.encoder_failed,
    ensures
        after(first_turn(d, job), events).delivery.encoder_failed,
        d.mode == DeliveryMode::Encoded ==> first_turn(d, job) == releasing(taken(d), job, false),
        d.mode == DeliveryMode::Encoded ==> after(
            first_turn(d, job),
            seq![RunEvent::Answer(answer)],
        ) == ended(dropped(taken(d)), job),
{
    reveal(step);
    reveal_with_fuel(after, 2);
    assert(seq![RunEvent::Answer(answer)].drop_last() =~= Seq::<RunEvent>::empty());
    lemma_failure_stays_noted(first_turn(d, job), events);
}

proof fn lemma_failure_over_a_step(t: Turn, event: RunEvent)
    requires
        t.delivery.encoder_failed,
    ensures
        step(t, event).delivery.encoder_failed,
{
    reveal(step);
}

proof fn lemma_failure_stays_noted(start: Turn, events: Seq<RunEvent>)
    requires
        start.delivery.encoder_failed,
    ensures
        after(start, events).delivery.encoder_failed,
    decreases events.len(),
{
    if events.len() > 0 {
        lemma_failure_stays_noted(start, events.drop_last());
        lemma_failure_over_a_step(after(start, events.drop_last()), events.last());
    }
}

/// A bound on the turns that a job still takes.
pub open spec fn turns_left(d: DeliveryModel, phase: FramePhase) -> int {
    match phase {
        FramePhase::Done => 0,
        FramePhase::Releasing { .. } | FramePhase::Unmapping => 1,
        FramePhase::Reporting { .. }
        | FramePhase::SendingRaw
        | FramePhase::SendingPixels
        | FramePhase::Encoding => 2,
        FramePhase::Mapping | FramePhase::Converting => 3,
        FramePhase::Polling | FramePhase::StartingEncoder => 4,
        FramePhase::ReleasingEarly | FramePhase::InitializingEncoder => 5,
        FramePhase::Copying | FramePhase::CreatingEncoder => 6,
        FramePhase::CreatingNv12 => 7,
        FramePhase::CreatingProcessor => 8,
        FramePhase::StoppingEncoder => 9,
        FramePhase::CreatingStaging => 6 + STAGING_TEXTURES - d.staging.len(),
    }
}

/// Every answer brings a job closer to its end, except that a copy which is not
/// complete is asked about again. A job begins with at most ten turns to go.
pub proof fn law_jobs_come_to_an_end(
    d: DeliveryModel,
    job: JobModel,
    fresh: JobModel,
    event: FrameEvent,
)
    requires
        in_step(d, job),
    ensures
        turns_left(first_turn(d, fresh).delivery, first_turn(d, fresh).job.phase) <= 10,
        0 <= turns_left(d, job.phase),
        turns_left(d, job.phase) == 0 <==> job.phase == FramePhase::Done,
        ({
            let t = next_turn(d, job, event);
            ||| job.phase == FramePhase::Done && t == ended(d, job)
            ||| job.phase == FramePhase::Polling && !(event is Finished) && t.delivery == d && t.job
                == job
            ||| turns_left(t.delivery, t.job.phase) < turns_left(d, job.phase)
        }),
{
}

/// The converter, the texture that it fills and what the encoder is told of its
/// input agree on the format of the pictures.
pub proof fn law_encoder_gets_what_it_expects(cfg: EncoderConfig)
    ensures
        encoder_format(cfg.hdr10) == FORMAT_P010 <==> encoder_color(cfg.hdr10)
            == ColorSpace::Rec2020Pq,
        encoder_format(cfg.hdr10) == FORMAT_P010 <==> input_type_of(
            cfg,
        ).contains(attr_guid(MediaKey::Subtype, SUBTYPE_P010)),
        encoder_format(cfg.hdr10) == FORMAT_NV12 <==> input_type_of(
            cfg,
        ).contains(attr_guid(MediaKey::Subtype, SUBTYPE_NV12)),
{
    let t = input_type_of(cfg);
    assert(t[1] == attr_guid(
        MediaKey::Subtype,
        if cfg.hdr10 {
            SUBTYPE_P010
        } else {
            SUBTYPE_NV12
        },
    ));
    assert(t.len() == 6);
}

/// The changed rectangles of a frame reach the encoder: with regions of interest asked
/// for, what the job of the frame submits are the left, top, right and bottom edges of
/// each rectangle in order, four numbers for each, and without it is nothing. No event
/// changes that on the way.
pub proof fn law_changed_rectangles_reach_the_encoder(
    d: DeliveryModel,
    frame: CapturedFrame,
    events: Seq<RunEvent>,
    i: int,
)
    ensures
        ({
            let end = after(first_turn(d, job_of(d, frame)), events);
            let rects = frame.dirty_rects@;
            &&& !d.enc_cfg.roi_enabled ==> end.job.roi_rects.len() == 0
            &&& d.enc_cfg.roi_enabled ==> {
                &&& end.job.roi_rects.len() == 4 * rects.len()
                &&& 0 <= i < rects.len() ==> {
                    &&& end.job.roi_rects[4 * i] == rects[i].left
                    &&& end.job.roi_rects[4 * i + 1] == rects[i].top
                    &&& end.job.roi_rects[4 * i + 2] == rects[i].right
                    &&& end.job.roi_rects[4 * i + 3] == rects[i].bottom
                }
            }
            &&& end.action matches FrameAction::Encode { timestamp_ns } ==> timestamp_ns
                == frame.timestamp_ns
        }),
{
    lemma_edges(frame.dirty_rects@, i);
    lemma_frame_over_a_run(first_turn(d, job_of(d, frame)), job_of(d, frame), events);
}

proof fn lemma_edges(rects: Seq<DirtyRect>, i: int)
    ensures
        edges_of(rects).len() == 4 * rects.len(),
        0 <= i < rects.len() ==> {
            &&& edges_of(rects)[4 * i] == rects[i].left
            &&& edges_of(rects)[4 * i + 1] == rects[i].top
            &&& edges_of(rects)[4 * i + 2] == rects[i].right
            &&& edges_of(rects)[4 * i + 3] == rects[i].bottom
        },
    decreases rects.len(),
{
    if rects.len() > 0 {
        lemma_edges(rects.drop_last(), i);
    }
}

/// Whether a turn still belongs to a frame.
spec fn frame_fits(t: Turn, job: JobModel) -> bool {
    &&& t.job.roi_rects == job.roi_rects
    &&& t.job.timestamp_ns == job.timestamp_ns
    &&& t.action matches FrameAction::Encode { timestamp_ns } ==> timestamp_ns == job.timestamp_ns
}

proof fn lemma_frame_over_a_step(t: Turn, event: RunEvent, job: JobModel)
    requires
        frame_fits(t, job),
    ensures
        frame_fits(step(t, event), job),
{
    reveal(step);
}

proof fn lemma_frame_over_a_run(start: Turn, job: JobModel, events: Seq<RunEvent>)
    requires
        frame_fits(start, job),
    ensures
        frame_fits(after(start, events), job),
    decreases events.len(),
{
    if events.len() > 0 {
        lemma_frame_over_a_run(start, job, events.drop_last());
        lemma_frame_over_a_step(after(start, events.drop_last()), events.last(), job);
    }
}

/// Pictures that are read back take the staging textures in turn: with none of them
/// occupied, the one whose turn it is is taken, and the turn passes to the next.
pub proof fn law_staging_textures_take_turns(d: DeliveryModel, job: JobModel)
    requires
        d.staging.len() == STAGING_TEXTURES,
        d.staging_next < STAGING_TEXTURES,
        forall|i: int| 0 <= i < d.staging.len() ==> #[trigger] d.staging[i] is None,
    ensures
        copying(d, job).action == (FrameAction::CopyToStaging { staging: d.staging_next }),
        copying(d, job).delivery.staging_next == (d.staging_next + 1) % 4,
{
    let i = in_turn(d.staging_next, 0, d.staging.len());
    assert(d.staging[i] is None);
}

/// Whether the buffer of a picture is finalized in a run.
pub open spec fn finalizes(events: Seq<RunEvent>, number: u64) -> bool {
    exists|i: int|
        0 <= i < events.len() && #[trigger] events[i] == (RunEvent::Finalized { number })
}

/// A staging texture with a picture that the consumer still has is not used again: while
/// later frames of the same size go their way, and until the buffer of the picture is
/// finalized, the texture stays with its picture, and nothing is copied to it, mapped
/// or unmapped.
pub proof fn law_textures_stay_with_the_consumer(
    d: DeliveryModel,
    job: JobModel,
    events: Seq<RunEvent>,
    i: int,
    number: u64,
)
    requires
        d.wf(),
        0 <= i < d.staging.len(),
        d.staging[i] == Some(number),
        number != job.number,
        job.width == d.staging_width,
        job.height == d.staging_height,
        !finalizes(events, number),
    ensures
        ({
            let end = after(first_turn(d, job), events);
            &&& i < end.delivery.staging.len()
            &&& end.delivery.staging[i] == Some(number)
            &&& end.action matches FrameAction::CopyToStaging { staging } ==> staging != i
            &&& end.action matches FrameAction::MapStaging { staging } ==> staging != i
            &&& end.action matches FrameAction::SendPixels { staging, .. } ==> staging != i
            &&& end.action matches FrameAction::UnmapStaging { staging } ==> staging != i
        }),
{
    lemma_choice(d.staging, d.staging_next, 0);
    lemma_out_over_a_run(first_turn(d, job), i, number, events);
}

/// Whether a staging texture is with a picture, and a job keeps away from it.
spec fn out_fits(t: Turn, i: int, number: u64) -> bool {
    &&& t.delivery.wf()
    &&& 0 <= i < t.delivery.staging.len()
    &&& t.delivery.staging[i] == Some(number)
    &&& number != t.job.number
    &&& t.action matches FrameAction::CopyToStaging { staging } ==> staging != i
    &&& t.action matches FrameAction::MapStaging { staging } ==> staging != i
    &&& t.action matches FrameAction::SendPixels { staging, .. } ==> staging != i
    &&& t.action matches FrameAction::UnmapStaging { staging } ==> staging != i
    &&& match t.job.phase {
        FramePhase::CreatingStaging => false,
        FramePhase::Copying
        | FramePhase::ReleasingEarly
        | FramePhase::Polling
        | FramePhase::Mapping
        | FramePhase::SendingPixels
        | FramePhase::Unmapping => t.job.staging != i,
        _ => true,
    }
}

proof fn lemma_out_over_a_step(t: Turn, event: RunEvent, i: int, number: u64)
    requires
        out_fits(t, i, number),
        event != (RunEvent::Finalized { number }),
    ensures
        out_fits(step(t, event), i, number),
{
    reveal(step);
    if let RunEvent::Finalized { number: other } = event {
        lemma_place(t.delivery.staging, other, 0);
    }
}

pub proof fn lemma_place(table: Seq<Option<u64>>, number: u64, i: nat)
    ensures
        place_of(table, number, i) <= table.len(),
        place_of(table, number, i) < table.len() ==> table[place_of(table, number, i) as int]
            == Some(number),
    decreases table.len() - i,
{
    if i < table.len() {
        lemma_place(table, number, i + 1);
    }
}

proof fn lemma_out_over_a_run(start: Turn, i: int, number: u64, events: Seq<RunEvent>)
    requires
        out_fits(start, i, number),
        !finalizes(events, number),
    ensures
        out_fits(after(start, events), i, number),
    decreases events.len(),
{
    if events.len() > 0 {
        let earlier = events.drop_last();
        lemma_no_finalizer_before(events, number);
        lemma_out_over_a_run(start, i, number, earlier);
        lemma_out_over_a_step(after(start, earlier), events.last(), i, number);
    }
}

/// How often a job asked to unmap its texture.
pub open spec fn unmaps(start: Turn, events: Seq<RunEvent>) -> nat
    decreases events.len(),
{
    if events.len() == 0 {
        0
    } else {
        let earlier = unmaps(start, events.drop_last());
        if events.last() is Answer && after(start, events).action is UnmapStaging {
            earlier + 1
        } else {
            earlier
        }
    }
}

/// Whether no staging texture is occupied by a frame.
pub open spec fn occupies_nothing(d: DeliveryModel, number: u64) -> bool {
    forall|i: int| 0 <= i < d.staging.len() ==> #[trigger] d.staging[i] != Some(number)
}

/// Whether a frame occupies this staging texture and no other.
pub open spec fn occupies(d: DeliveryModel, staging: u32, number: u64) -> bool {
    &&& staging < d.staging.len()
    &&& d.staging[staging as int] == Some(number)
    &&& forall|i: int|
        0 <= i < d.staging.len() && i != staging ==> #[trigger] d.staging[i] != Some(number)
}

/// A picture that the consumer took stays mapped for it: its job never unmaps it, and until
/// the buffer around it is finalized the frame keeps the texture. A picture that the
/// consumer did not get occupies no texture after its job.
pub proof fn law_taken_pictures_stay_mapped(
    d: DeliveryModel,
    job: JobModel,
    events: Seq<RunEvent>,
)
    requires
        d.wf(),
        d.mode == DeliveryMode::Cpu,
        is_new(d, job.number),
        !finalizes(events, job.number),
    ensures
        ({
            let start = first_turn(d, job);
            let end = after(start, events);
            &&& takes(start, events) == 1 ==> {
                &&& unmaps(start, events) == 0
                &&& occupies(end.delivery, end.job.staging, job.number)
            }
            &&& end.job.phase == FramePhase::Done && takes(start, events) == 0
                ==> occupies_nothing(end.delivery, job.number)
        }),
{
    lemma_choice(d.staging, d.staging_next, 0);
    lemma_mapping_over_a_run(first_turn(d, job), job.number, events);
}

/// What is true of the texture of a picture in every turn.
spec fn mapping_fits(t: Turn, number: u64, unmapped: nat, taken: nat) -> bool {
    &&& t.delivery.wf()
    &&& t.job.number == number
    &&& match t.job.phase {
        FramePhase::Copying
        | FramePhase::ReleasingEarly
        | FramePhase::Polling
        | FramePhase::Mapping
        | FramePhase::SendingPixels => {
            &&& occupies(t.delivery, t.job.staging, number)
            &&& unmapped == 0
            &&& taken == 0
        },
        FramePhase::Unmapping => occupies(t.delivery, t.job.staging, number) && taken == 0,
        FramePhase::CreatingStaging => {
            &&& occupies_nothing(t.delivery, number)
            &&& t.delivery.staging.len() < STAGING_TEXTURES
            &&& unmapped == 0
            &&& taken == 0
        },
        FramePhase::Reporting { .. } => occupies_nothing(t.delivery, number) && taken == 0,
        FramePhase::Releasing { delivered } => {
            &&& occupies_nothing(t.delivery, number)
            &&& taken == 0
            &&& !delivered
        },
        FramePhase::Done => {
            ||| taken == 1 && unmapped == 0 && occupies(t.delivery, t.job.staging, number)
            ||| taken == 0 && occupies_nothing(t.delivery, number)
        },
        _ => false,
    }
}

proof fn lemma_mapping_over_a_step(
    t: Turn,
    event: RunEvent,
    number: u64,
    unmapped: nat,
    taken: nat,
)
    requires
        mapping_fits(t, number, unmapped, taken),
        event != (RunEvent::Finalized { number }),
    ensures
        mapping_fits(
            step(t, event),
            number,
            if event is Answer && step(t, event).action is UnmapStaging {
                unmapped + 1
            } else {
                unmapped
            },
            if takes_frame(t.job.phase, event) {
                taken + 1
            } else {
                taken
            },
        ),
{
    reveal(step);
    if t.job.phase == FramePhase::CreatingStaging {
        lemma_choice(t.delivery.staging.push(None), 0, 0);
    }
    if let RunEvent::Finalized { number: other } = event {
        lemma_place(t.delivery.staging, other, 0);
    }
}

proof fn lemma_mapping_over_a_run(start: Turn, number: u64, events: Seq<RunEvent>)
    requires
        mapping_fits(start, number, 0, 0),
        !finalizes(events, number),
    ensures
        mapping_fits(
            after(start, events),
            number,
            unmaps(start, events),
            takes(start, events),
        ),
    decreases events.len(),
{
    if events.len() > 0 {
        let earlier = events.drop_last();
        lemma_no_finalizer_before(events, number);
        lemma_mapping_over_a_run(start, number, earlier);
        lemma_mapping_over_a_step(
            after(start, earlier),
            events.last(),
            number,
            unmaps(start, earlier),
            takes(start, earlier),
        );
    }
}

/// A run without the finalizer of a picture has none in what came before its last event,
/// and its last event is none.
proof fn lemma_no_finalizer_before(events: Seq<RunEvent>, number: u64)
    requires
        events.len() > 0,
        !finalizes(events, number),
    ensures
        !finalizes(events.drop_last(), number),
        events.last() != (RunEvent::Finalized { number }),
{
    let earlier = events.drop_last();
    assert forall|k: int| 0 <= k < earlier.len() implies #[trigger] earlier[k] != (
    RunEvent::Finalized { number }) by {
        assert(events[k] == earlier[k]);
    }
    assert(events.last() == events[events.len() - 1]);
}

/// A picture that the consumer took keeps its staging texture after the job, and the
/// finalizer of its buffer frees that texture.
pub proof fn law_finalizer_frees_the_texture(
    d: DeliveryModel,
    job: JobModel,
    answer: FrameEvent,
)
    requires
        job.phase == FramePhase::SendingPixels,
        !(answer is Failed),
        occupies(d, job.staging, job.number),
    ensures
        ({
            let end = next_turn(d, job, answer);
            let freed = end.delivery.after_finalizer(job.number);
            &&& end.job.phase == FramePhase::Done
            &&& end.delivery.staging == d.staging
            &&& place_of(end.delivery.staging, job.number, 0) == job.staging
            &&& freed.staging == d.staging.update(job.staging as int, None)
        }),
{
    lemma_only_place(d.staging, job.number, job.staging as nat, 0);
}

pub proof fn lemma_only_place(table: Seq<Option<u64>>, number: u64, place: nat, i: nat)
    requires
        i <= place < table.len(),
        table[place as int] == Some(number),
        forall|k: int| 0 <= k < table.len() && k != place ==> #[trigger] table[k] != Some(number),
    ensures
        place_of(table, number, i) == place,
    decreases table.len() - i,
{
    if i < place {
        assert(table[i as int] != Some(number));
        lemma_only_place(table, number, place, i + 1);
    }
}

} // verus!
