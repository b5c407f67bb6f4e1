//! What a job asks for on the way of its frame, whatever the answers are: which work, with
//! which values, and which work comes next.

use vstd::prelude::*;

use crate::encoder_config::EncoderConfig;
use crate::frame_job::{
    failure_payload, first_turn, gpu_desc, job_of, place_of, unoccupied, DeliveryMode,
    DeliveryModel, Finalized, FrameAction, FrameEvent, FrameFailure, FramePhase, JobModel, Turn,
};
use crate::frame_laws::{
    after, law_delivery_stays_settled, law_every_frame_counts_once, lemma_choice, lemma_only_place,
    lemma_place, settled, steady, step, takes, takes_frame, turns_left, RunEvent,
};
use crate::video_processor::ColorSpace;
use crate::wgc_source::CapturedFrame;

verus! {

/// Whether two jobs are of one frame.
pub open spec fn same_frame(a: JobModel, b: JobModel) -> bool {
    &&& a.number == b.number
    &&& a.slot == b.slot
    &&& a.width == b.width
    &&& a.height == b.height
    &&& a.timestamp_ns == b.timestamp_ns
    &&& a.size_changed == b.size_changed
    &&& a.roi_rects == b.roi_rects
}

/// Whether a turn asks for the work that its phase waits for.
pub open spec fn asks_for_its_phase(t: Turn) -> bool {
    match t.job.phase {
        FramePhase::SendingRaw => t.action is SendRaw,
        FramePhase::CreatingStaging => t.action is CreateStaging,
        FramePhase::Copying => t.action == (FrameAction::CopyToStaging { staging: t.job.staging }),
        FramePhase::ReleasingEarly => t.action == (FrameAction::ReleaseSlot { slot: t.job.slot }),
        FramePhase::Polling => t.action == (FrameAction::PollCopy { staging: t.job.staging }),
        FramePhase::Mapping => t.action == (FrameAction::MapStaging { staging: t.job.staging }),
        FramePhase::SendingPixels => t.action matches FrameAction::SendPixels {
            staging,
            stride,
            ..
        } && staging == t.job.staging && stride == t.job.row_pitch,
        FramePhase::Unmapping => t.action == (FrameAction::UnmapStaging { staging: t.job.staging }),
        FramePhase::StoppingEncoder => t.action is StopEncoder,
        FramePhase::CreatingProcessor => t.action is CreateProcessor,
        FramePhase::CreatingNv12 => t.action is CreateNv12,
        FramePhase::CreatingEncoder => t.action is CreateEncoder,
        FramePhase::InitializingEncoder => t.action is InitializeEncoder,
        FramePhase::StartingEncoder => t.action is StartEncoder,
        FramePhase::Converting => t.action is Convert,
        FramePhase::Encoding => t.action is Encode,
        FramePhase::Reporting { .. } => t.action is Report,
        FramePhase::Releasing { .. } => t.action == (FrameAction::ReleaseSlot { slot: t.job.slot }),
        FramePhase::Done => t.action is Done,
    }
}

/// Whether a picture is on its way through a staging texture.
pub open spec fn is_staged(phase: FramePhase) -> bool {
    match phase {
        FramePhase::Copying
        | FramePhase::ReleasingEarly
        | FramePhase::Polling
        | FramePhase::Mapping
        | FramePhase::SendingPixels
        | FramePhase::Unmapping => true,
        _ => false,
    }
}

/// Whether the textures that are read back through have the size of the frame, while a
/// picture is on its way through one of them.
pub open spec fn staging_fits(t: Turn) -> bool {
    is_staged(t.job.phase) ==> {
        &&& t.delivery.staging_width == t.job.width
        &&& t.delivery.staging_height == t.job.height
        &&& t.job.staging < t.delivery.staging.len()
    }
}

/// Whether the work of a turn has the size, the format and the time of a frame and of the
/// configuration of a delivery.
pub open spec fn values_fit(action: FrameAction, d: DeliveryModel, job: JobModel) -> bool {
    match action {
        FrameAction::CreateStaging { desc, .. } => {
            &&& desc.width == job.width
            &&& desc.height == job.height
            &&& desc.format == 87
            &&& desc.usage == 3
            &&& desc.bind_flags == 0
            &&& desc.cpu_access == 0x2_0000
        },
        FrameAction::SendPixels { stride, bytes, .. } => bytes == stride * job.height,
        FrameAction::CreateProcessor { width, height, color } => {
            &&& width == job.width
            &&& height == job.height
            &&& color == ColorSpace::Rec2020Pq <==> d.enc_cfg.hdr10
        },
        FrameAction::CreateNv12(desc) => {
            &&& desc.width == job.width
            &&& desc.height == job.height
            &&& d.enc_cfg.hdr10 ==> desc.format == 104
            &&& !d.enc_cfg.hdr10 ==> desc.format == 103
            &&& desc.usage == 0
            &&& desc.bind_flags == 0x20 + 0x8
            &&& desc.cpu_access == 0
        },
        FrameAction::InitializeEncoder(cfg) => {
            &&& cfg.width == job.width
            &&& cfg.height == job.height
            &&& cfg.codec == d.enc_cfg.codec
            &&& cfg.fps == d.enc_cfg.fps
            &&& cfg.bitrate_bps == d.enc_cfg.bitrate_bps
            &&& cfg.keyframe_interval_ms == d.enc_cfg.keyframe_interval_ms
            &&& cfg.hdr10 == d.enc_cfg.hdr10
            &&& cfg.ltr_count == d.enc_cfg.ltr_count
            &&& cfg.intra_refresh == d.enc_cfg.intra_refresh
            &&& cfg.intra_refresh_period == d.enc_cfg.intra_refresh_period
            &&& cfg.roi_enabled == d.enc_cfg.roi_enabled
        },
        FrameAction::Encode { timestamp_ns } => timestamp_ns == job.timestamp_ns,
        FrameAction::ReleaseSlot { slot } => slot == job.slot,
        _ => true,
    }
}

/// Whether work of this kind belongs to a way of delivering.
pub open spec fn mode_fits(action: FrameAction, mode: DeliveryMode) -> bool {
    match action {
        FrameAction::SendRaw => mode == DeliveryMode::Raw,
        FrameAction::CreateStaging { .. }
        | FrameAction::CopyToStaging { .. }
        | FrameAction::PollCopy { .. }
        | FrameAction::MapStaging { .. }
        | FrameAction::SendPixels { .. }
        | FrameAction::UnmapStaging { .. } => mode == DeliveryMode::Cpu,
        FrameAction::StopEncoder
        | FrameAction::CreateProcessor { .. }
        | FrameAction::CreateNv12(_)
        | FrameAction::CreateEncoder
        | FrameAction::InitializeEncoder(_)
        | FrameAction::StartEncoder
        | FrameAction::Convert
        | FrameAction::Encode { .. } => mode == DeliveryMode::Encoded,
        _ => true,
    }
}

/// What is true of the work in every turn of a job.
spec fn work_fits(t: Turn, d: DeliveryModel, job: JobModel) -> bool {
    &&& same_frame(t.job, job)
    &&& t.delivery.mode == d.mode
    &&& t.delivery.enc_cfg == d.enc_cfg
    &&& t.delivery.staging.len() <= 4
    &&& t.job.phase == FramePhase::CreatingStaging ==> t.delivery.staging.len() < 4
    &&& t.job.phase == FramePhase::CreatingStaging ==> forall|i: int|
        0 <= i < t.delivery.staging.len() ==> #[trigger] t.delivery.staging[i] is None
    &&& is_staged(t.job.phase) ==> d.mode == DeliveryMode::Cpu
    &&& asks_for_its_phase(t)
    &&& staging_fits(t)
    &&& values_fit(t.action, d, job)
    &&& mode_fits(t.action, d.mode)
    &&& t.action matches FrameAction::CreateStaging { first, .. } ==> first
        == (t.delivery.staging.len() == 0)
}

proof fn lemma_work_over_a_step(t: Turn, event: RunEvent, d: DeliveryModel, job: JobModel)
    requires
        work_fits(t, d, job),
    ensures
        work_fits(step(t, event), d, job),
{
    reveal(step);
    if t.job.phase == FramePhase::CreatingStaging {
        lemma_choice(t.delivery.staging.push(None), 0, 0);
    }
    if t.job.phase == FramePhase::Mapping {
        if let RunEvent::Answer(e) = event {
            let (stride, height) = (e.value(), t.job.height);
            assert(0 <= stride * height <= u64::MAX) by (nonlinear_arith)
                requires
                    0 <= stride <= u32::MAX,
                    0 <= height <= u32::MAX,
            ;
        }
    }
}

proof fn lemma_work_over_a_run(start: Turn, events: Seq<RunEvent>, d: DeliveryModel, job: JobModel)
    requires
        work_fits(start, d, job),
    ensures
        work_fits(after(start, events), d, job),
    decreases events.len(),
{
    if events.len() > 0 {
        lemma_work_over_a_run(start, events.drop_last(), d, job);
        lemma_work_over_a_step(after(start, events.drop_last()), events.last(), d, job);
    }
}

/// Whatever the answers are and whatever the consumer does, a job keeps its frame, and its
/// delivery keeps its mode and its configuration. All work is asked for with the size, the
/// time and the slot of the frame; an encoder is initialized with the configuration of the
/// session but for the size, and the converter and the texture that it fills follow that
/// configuration too. A picture is read back only through textures of its own size. No work
/// is asked for that another way of delivering needs.
pub proof fn law_work_fits_the_frame(d: DeliveryModel, job: JobModel, events: Seq<RunEvent>)
    requires
        d.wf(),
    ensures
        ({
            let end = after(first_turn(d, job), events);
            &&& same_frame(end.job, job)
            &&& end.delivery.mode == d.mode
            &&& end.delivery.enc_cfg == d.enc_cfg
            &&& asks_for_its_phase(end)
            &&& staging_fits(end)
            &&& values_fit(end.action, d, job)
            &&& mode_fits(end.action, d.mode)
            &&& end.action matches FrameAction::CreateStaging { first, .. } ==> first
                == (end.delivery.staging.len() == 0)
        }),
{
    lemma_choice(d.staging, d.staging_next, 0);
    lemma_work_over_a_run(first_turn(d, job), events, d, job);
}

/// Along every run of a job, an encoder that is to be initialized gets the width and the
/// height of the frame, and in every other field what the session was asked for.
pub proof fn law_encoder_is_initialized_as_asked(
    d: DeliveryModel,
    job: JobModel,
    events: Seq<RunEvent>,
    cfg: EncoderConfig,
)
    requires
        d.wf(),
        after(first_turn(d, job), events).action == FrameAction::InitializeEncoder(cfg),
    ensures
        cfg.width == job.width,
        cfg.height == job.height,
        cfg.codec == d.enc_cfg.codec,
        cfg.fps == d.enc_cfg.fps,
        cfg.bitrate_bps == d.enc_cfg.bitrate_bps,
        cfg.keyframe_interval_ms == d.enc_cfg.keyframe_interval_ms,
        cfg.hdr10 == d.enc_cfg.hdr10,
        cfg.ltr_count == d.enc_cfg.ltr_count,
        cfg.intra_refresh == d.enc_cfg.intra_refresh,
        cfg.intra_refresh_period == d.enc_cfg.intra_refresh_period,
        cfg.roi_enabled == d.enc_cfg.roi_enabled,
{
    law_work_fits_the_frame(d, job, events);
}

/// Along every run of a job, from the copy of a picture until it is with the consumer the
/// staging textures have the width and the height of the frame.
pub proof fn law_pictures_go_through_textures_of_their_size(
    d: DeliveryModel,
    job: JobModel,
    events: Seq<RunEvent>,
)
    requires
        d.wf(),
    ensures
        ({
            let end = after(first_turn(d, job), events);
            end.action is CopyToStaging || end.action is PollCopy || end.action is MapStaging
                || end.action is SendPixels || end.action is UnmapStaging ==> {
                &&& end.delivery.staging_width == job.width
                &&& end.delivery.staging_height == job.height
            }
        }),
{
    law_work_fits_the_frame(d, job, events);
}

/// A frame starts with what it needs. A raw one is handed over, and the consumer holds its
/// slot from then on. A picture is copied at once to a free texture if the textures have
/// its size; if one of width and height differs, textures are made anew, beginning with the
/// first. Video is converted at once if the encoder has the size of the frame; if one of
/// width and height differs, an encoder that is there is stopped, and a converter is made.
pub proof fn law_frames_start_with_what_they_need(d: DeliveryModel, job: JobModel)
    requires
        d.wf(),
    ensures
        ({
            let t = first_turn(d, job);
            let staged = d.staging_width == job.width && d.staging_height == job.height;
            let encodable = d.enc_width == job.width && d.enc_height == job.height;
            let free = exists|i: int| 0 <= i < d.staging.len() && #[trigger] d.staging[i] is None;
            match d.mode {
                DeliveryMode::Raw => {
                    &&& t.action == FrameAction::SendRaw
                    &&& t.delivery.lent == d.lent.insert(job.number, job.slot)
                },
                DeliveryMode::Cpu => {
                    &&& !staged ==> t.action is CreateStaging && t.delivery.staging.len() == 0
                    &&& staged && free ==> t.action is CopyToStaging
                    &&& staged && !free ==> t.action is ReleaseSlot
                },
                DeliveryMode::Encoded => {
                    &&& d.encoder_failed ==> t.action is ReleaseSlot
                    &&& !d.encoder_failed && encodable && d.processor ==> t.action
                        == FrameAction::Convert
                    &&& !d.encoder_failed && !encodable && d.encoder ==> t.action
                        == FrameAction::StopEncoder
                    &&& !d.encoder_failed && !encodable && !d.encoder
                        ==> t.action is CreateProcessor
                },
            }
        }),
{
    lemma_choice(d.staging, d.staging_next, 0);
    lemma_free_texture_is_found(d.staging, d.staging_next);
}

proof fn lemma_free_texture_is_found(table: Seq<Option<u64>>, next: u32)
    requires
        table.len() <= 4,
    ensures
        unoccupied(table, next, 0) is Some <==> exists|i: int|
            0 <= i < table.len() && #[trigger] table[i] is None,
{
    reveal_with_fuel(unoccupied, 5);
    lemma_choice(table, next, 0);
    if exists|i: int| 0 <= i < table.len() && #[trigger] table[i] is None {
        let i = choose|i: int| 0 <= i < table.len() && #[trigger] table[i] is None;
        if unoccupied(table, next, 0) is None {
            let n = table.len() as int;
            let k = (i - next) % n;
            assert(0 <= k < n && (next + k) % n == i) by {
                lemma_turn(next as int, i, n);
            }
            assert(table[(next + k) % n] is Some);
        }
    }
}

proof fn lemma_turn(next: int, i: int, n: int)
    requires
        0 <= i < n,
    ensures
        0 <= (i - next) % n < n,
        (next + (i - next) % n) % n == i,
{
    vstd::arithmetic::div_mod::lemma_mod_bound(i - next, n);
    vstd::arithmetic::div_mod::lemma_add_mod_noop_right(next, i - next, n);
    vstd::arithmetic::div_mod::lemma_small_mod(i as nat, n as nat);
}

/// The work that comes next, by the answer to the work before. What succeeded leads on: the
/// textures one after the other to the copy, the copy through the early release of the slot
/// and the question whether it is complete to the mapping and the hand-over, with rows as
/// long as the mapping said; the parts of the encoder one after the other to the
/// conversion and the encoding. What failed is reported under its own name with its own
/// code. A hand-over that failed gives back what was handed over, and everything ends.
pub proof fn law_answers_lead_on(
    d: DeliveryModel,
    job: JobModel,
    events: Seq<RunEvent>,
    event: FrameEvent,
)
    requires
        d.wf(),
        settled(d),
        d.accepts(job.width, job.height),
    ensures
        ({
            let t = after(first_turn(d, job), events);
            let n = step(t, RunEvent::Answer(event));
            leads_on(t, n, event)
        }),
{
    lemma_choice(d.staging, d.staging_next, 0);
    lemma_work_over_a_run(first_turn(d, job), events, d, job);
    lemma_reports_over_a_run(first_turn(d, job), events);
    law_delivery_stays_settled(d.mode, d.enc_cfg, d, job, events);
    lemma_one_answer(after(first_turn(d, job), events), event, d, job);
}

/// Whether a turn that was answered is followed by the right one.
pub open spec fn leads_on(t: Turn, n: Turn, event: FrameEvent) -> bool {
    let ok = !(event is Failed);
    match t.action {
        FrameAction::SendRaw => {
            &&& ok ==> n.action is Done
            &&& !ok && t.delivery.is_lent(t.job.number) ==> {
                &&& n.action == (FrameAction::ReleaseSlot { slot: t.job.slot })
                &&& !n.delivery.is_lent(t.job.number)
            }
            &&& !ok && !t.delivery.is_lent(t.job.number) ==> n.action is Done
        },
        FrameAction::CreateStaging { .. } => {
            &&& ok ==> n.delivery.staging.len() == t.delivery.staging.len() + 1
            &&& ok && t.delivery.staging.len() < 3 ==> n.action is CreateStaging
            &&& ok && t.delivery.staging.len() == 3 ==> n.action == (FrameAction::CopyToStaging {
                staging: 0,
            })
            &&& event matches FrameEvent::Failed { hr } ==> n.action == (FrameAction::Report {
                failure: FrameFailure::StagingTexture,
                hr,
            })
        },
        FrameAction::CopyToStaging { .. } => n.action == (FrameAction::ReleaseSlot {
            slot: t.job.slot,
        }),
        FrameAction::PollCopy { staging } => {
            &&& event is Finished ==> n.action == (FrameAction::MapStaging { staging })
            &&& !(event is Finished) ==> n.action == t.action
        },
        FrameAction::MapStaging { staging } => {
            &&& event matches FrameEvent::Finished { value } ==> n.action == (
            FrameAction::SendPixels {
                staging,
                stride: value,
                bytes: (value * t.job.height) as u64,
            })
            &&& event matches FrameEvent::Failed { hr } ==> n.action == (FrameAction::Report {
                failure: FrameFailure::MapStaging,
                hr,
            })
        },
        FrameAction::SendPixels { staging, .. } => {
            &&& ok ==> n.action is Done
            &&& !ok ==> n.action == (FrameAction::UnmapStaging { staging })
        },
        FrameAction::UnmapStaging { .. } => n.action is Done,
        FrameAction::StopEncoder => n.action is CreateProcessor && !n.delivery.encoder,
        FrameAction::CreateProcessor { .. } => {
            &&& ok ==> n.action is CreateNv12
            &&& gives_up(t, n, event, FrameFailure::Processor)
        },
        FrameAction::CreateNv12(_) => {
            &&& ok ==> n.action is CreateEncoder
            &&& gives_up(t, n, event, FrameFailure::Nv12Texture)
        },
        FrameAction::CreateEncoder => {
            &&& ok ==> n.action is InitializeEncoder
            &&& gives_up(t, n, event, FrameFailure::Encoder)
        },
        FrameAction::InitializeEncoder(_) => {
            &&& ok ==> n.action is StartEncoder
            &&& gives_up(t, n, event, FrameFailure::Encoder)
        },
        FrameAction::StartEncoder => {
            &&& ok ==> {
                &&& n.action is Convert
                &&& n.delivery.encoder
                &&& n.delivery.enc_width == t.job.width
                &&& n.delivery.enc_height == t.job.height
            }
            &&& gives_up(t, n, event, FrameFailure::Encoder)
        },
        FrameAction::Convert => {
            &&& ok ==> n.action is Encode
            &&& event matches FrameEvent::Failed { hr } ==> n.action == (FrameAction::Report {
                failure: FrameFailure::Processor,
                hr,
            }) && n.delivery.encoder_failed == t.delivery.encoder_failed
        },
        FrameAction::Encode { .. } => n.action == (FrameAction::ReleaseSlot { slot: t.job.slot }),
        FrameAction::Report { failure, .. } => {
            &&& failure == FrameFailure::MapStaging ==> n.action is Done
            &&& failure != FrameFailure::MapStaging ==> n.action == (FrameAction::ReleaseSlot {
                slot: t.job.slot,
            })
        },
        FrameAction::ReleaseSlot { .. } => {
            &&& t.job.phase == FramePhase::ReleasingEarly ==> n.action == (FrameAction::PollCopy {
                staging: t.job.staging,
            })
            &&& t.job.phase != FramePhase::ReleasingEarly ==> n.action is Done
        },
        FrameAction::Done => n.action is Done && n.delivery == t.delivery,
    }
}

/// Whether a failure to set up the encoder is reported and noted, and a success is not.
pub open spec fn gives_up(t: Turn, n: Turn, event: FrameEvent, failure: FrameFailure) -> bool {
    match event {
        FrameEvent::Failed { hr } => {
            &&& n.action == (FrameAction::Report { failure, hr })
            &&& n.delivery.encoder_failed
        },
        _ => n.delivery.encoder_failed == t.delivery.encoder_failed,
    }
}

proof fn lemma_one_answer(t: Turn, event: FrameEvent, d: DeliveryModel, job: JobModel)
    requires
        work_fits(t, d, job),
        reports_fit(t),
        steady(t.delivery, t.job),
    ensures
        leads_on(t, step(t, RunEvent::Answer(event)), event),
{
    reveal(step);
    if t.job.phase == FramePhase::CreatingStaging {
        let table = t.delivery.staging.push(None);
        if table.len() == 4 {
            assert(table[0] is None);
            assert(unoccupied(table, 0, 0) == Some(0u32));
        }
    }
}

/// Whether the slot is still held while a failure is reported, unless the picture was copied.
spec fn reports_fit(t: Turn) -> bool {
    t.action matches FrameAction::Report { failure, .. } ==> t.job.phase == (FramePhase::Reporting {
        held: failure != FrameFailure::MapStaging,
    })
}

proof fn lemma_reports_over_a_run(start: Turn, events: Seq<RunEvent>)
    requires
        reports_fit(start),
    ensures
        reports_fit(after(start, events)),
    decreases events.len(),
{
    if events.len() > 0 {
        lemma_reports_over_a_run(start, events.drop_last());
        reveal(step);
    }
}

/// Whether every event of a run is an answer that the work is done.
pub open spec fn all_goes_well(events: Seq<RunEvent>) -> bool {
    forall|i: int|
        0 <= i < events.len() ==> (#[trigger] events[i] matches RunEvent::Answer(e)
            && e is Finished)
}

/// A frame that nothing goes wrong with is delivered, and no later than after ten answers:
/// handed over raw, or as a picture wherever a texture is free for it or textures are made
/// anew, or taken by the encoder wherever setting it up has not failed before.
pub proof fn law_undisturbed_frames_are_delivered(
    d: DeliveryModel,
    job: JobModel,
    events: Seq<RunEvent>,
)
    requires
        d.wf(),
        settled(d),
        d.accepts(job.width, job.height),
        !d.encoder_failed,
        d.mode == DeliveryMode::Cpu && d.staging_width == job.width && d.staging_height
            == job.height ==> exists|i: int|
            0 <= i < d.staging.len() && #[trigger] d.staging[i] is None,
        all_goes_well(events),
        d.delivered_frames < u64::MAX,
    ensures
        ({
            let end = after(first_turn(d, job), events);
            &&& events.len() >= 10 ==> end.action is Done
            &&& !(end.action is Report)
            &&& end.action is Done ==> end.delivery.delivered_frames == d.delivered_frames + 1
            &&& end.delivery.dropped_frames == d.dropped_frames
        }),
{
    lemma_choice(d.staging, d.staging_next, 0);
    lemma_free_texture_is_found(d.staging, d.staging_next);
    lemma_well_over_a_run(d, job, events);
    law_delivery_stays_settled(d.mode, d.enc_cfg, d, job, events);
    law_every_frame_counts_once(d, job, events);
    law_work_fits_the_frame(d, job, events);
}

/// What is true of every turn of a frame that nothing went wrong with after so many answers.
spec fn well_fits(t: Turn, answers: nat, taken: nat) -> bool {
    &&& !(t.job.phase is Reporting)
    &&& t.job.phase != FramePhase::Unmapping
    &&& t.job.phase matches FramePhase::Releasing { delivered } ==> delivered
    &&& taken == (if t.job.phase is Releasing || t.job.phase == FramePhase::Done {
        1nat
    } else {
        0
    })
    &&& t.job.phase == FramePhase::Done || turns_left(t.delivery, t.job.phase) + answers <= 10
}

proof fn lemma_well_over_a_run(d: DeliveryModel, job: JobModel, events: Seq<RunEvent>)
    requires
        d.wf(),
        settled(d),
        d.accepts(job.width, job.height),
        well_fits(first_turn(d, job), 0, 0),
        all_goes_well(events),
    ensures
        well_fits(
            after(first_turn(d, job), events),
            events.len(),
            takes(first_turn(d, job), events),
        ),
    decreases events.len(),
{
    if events.len() > 0 {
        let start = first_turn(d, job);
        let earlier = events.drop_last();
        assert(all_goes_well(earlier)) by {
            assert forall|i: int| 0 <= i < earlier.len() implies (
            #[trigger] earlier[i] matches RunEvent::Answer(e) && e is Finished) by {
                assert(events[i] == earlier[i]);
            }
        }
        lemma_well_over_a_run(d, job, earlier);
        lemma_choice(d.staging, d.staging_next, 0);
        lemma_work_over_a_run(start, earlier, d, job);
        law_delivery_stays_settled(d.mode, d.enc_cfg, d, job, earlier);
        assert(events.last() == events[events.len() - 1]);
        lemma_well_over_a_step(
            after(start, earlier),
            events.last(),
            earlier.len(),
            takes(start, earlier),
            d,
            job,
        );
    }
}

proof fn lemma_well_over_a_step(
    t: Turn,
    event: RunEvent,
    answers: nat,
    taken: nat,
    d: DeliveryModel,
    job: JobModel,
)
    requires
        work_fits(t, d, job),
        steady(t.delivery, t.job),
        well_fits(t, answers, taken),
        event matches RunEvent::Answer(e) && e is Finished,
    ensures
        well_fits(
            step(t, event),
            answers + 1,
            if takes_frame(t.job.phase, event) {
                taken + 1
            } else {
                taken
            },
        ),
{
    reveal(step);
    if t.job.phase == FramePhase::CreatingStaging {
        let table = t.delivery.staging.push(None);
        if table.len() == 4 {
            assert(table[0] is None);
            assert(unoccupied(table, 0, 0) == Some(0u32));
        }
    }
}

/// The job of a frame is made of the frame: it keeps its slot, its size, its time and whether
/// its size changed, and it is numbered by the frames that were taken over before.
pub proof fn law_jobs_are_made_of_frames(d: DeliveryModel, frame: CapturedFrame)
    ensures
        ({
            let job = job_of(d, frame);
            &&& job.number == d.taken_frames
            &&& job.slot == frame.slot
            &&& job.width == frame.width
            &&& job.height == frame.height
            &&& job.timestamp_ns == frame.timestamp_ns
            &&& job.size_changed == frame.size_changed
            &&& job.staging == 0 && job.row_pitch == 0
        }),
{
}

/// A new delivery has counted nothing, holds nothing, and delivers as it was asked to.
pub proof fn law_deliveries_begin_empty(mode: DeliveryMode, cfg: EncoderConfig)
    ensures
        ({
            let d = DeliveryModel::fresh(mode, cfg);
            &&& d.mode == mode
            &&& d.enc_cfg == cfg
            &&& d.taken_frames == 0 && d.delivered_frames == 0 && d.dropped_frames == 0
            &&& !d.processor && !d.nv12_texture && !d.encoder && !d.encoder_failed
            &&& d.enc_width == 0 && d.enc_height == 0
            &&& forall|n: u64| !#[trigger] d.lent.contains_key(n)
            &&& d.staging.len() == 0
            &&& d.staging_width == 0 && d.staging_height == 0 && d.staging_next == 0
        }),
{
}

/// A frame is accepted unless something of its very size should be there and is not: a
/// staging texture to read it back, or the texture that is encoded from.
pub proof fn law_frames_are_accepted(d: DeliveryModel, width: u32, height: u32)
    ensures
        d.mode == DeliveryMode::Raw ==> d.accepts(width, height),
        d.mode == DeliveryMode::Cpu ==> (!d.accepts(width, height) <==> d.staging_width == width
            && d.staging_height == height && d.staging.len() == 0),
        d.mode == DeliveryMode::Encoded ==> (!d.accepts(width, height) <==> !d.encoder_failed
            && d.enc_width == width && d.enc_height == height && !d.nv12_texture),
{
}

/// A texture that the GPU draws to and reads has the asked size and format, and is not
/// reached from memory.
pub proof fn law_textures_are_as_asked(width: u32, height: u32, format: i32)
    ensures
        ({
            let desc = gpu_desc(width, height, format);
            &&& desc.width == width
            &&& desc.height == height
            &&& desc.format == format
            &&& desc.usage == 0
            &&& desc.bind_flags == 0x20 + 0x8
            &&& desc.cpu_access == 0
        }),
{
}

/// The report of a failure names its component. A texture that could not be made or mapped
/// is reported with its code and in fixed words, the converter and the encoder with the
/// words of the call.
pub proof fn law_failures_are_reported(failure: FrameFailure, hr: Option<i32>, text: Seq<char>)
    ensures
        ({
            let p = failure_payload(failure, hr, text);
            match failure {
                FrameFailure::StagingTexture => {
                    &&& p.component == "capture_session"@
                    &&& p.message == "failed to create staging texture"@
                    &&& hr matches Some(code) ==> p.hresult == code
                    &&& hr is None ==> p.hresult == 0
                },
                FrameFailure::MapStaging => {
                    &&& p.component == "capture_session"@
                    &&& p.message == "Map staging texture failed"@
                    &&& hr matches Some(code) ==> p.hresult == code
                    &&& hr is None ==> p.hresult == 0
                },
                FrameFailure::Nv12Texture => {
                    &&& p.component == "capture_session"@
                    &&& p.message == "failed to create NV12 texture"@
                    &&& hr matches Some(code) ==> p.hresult == code
                    &&& hr is None ==> p.hresult == 0
                },
                FrameFailure::Processor => {
                    &&& p.component == "video_processor"@
                    &&& p.message == text
                    &&& p.hresult == 0
                },
                FrameFailure::Encoder => {
                    &&& p.component == "mf_encoder"@
                    &&& p.message == text
                    &&& p.hresult == 0
                },
            }
        }),
{
}

/// A picture takes the first texture in turn that is not occupied, from the one whose turn
/// it is on; it occupies that texture and no other, and the turn passes to the one behind
/// it.
pub proof fn law_pictures_take_the_next_free_texture(d: DeliveryModel, job: JobModel, k: nat)
    requires
        d.wf(),
        d.mode == DeliveryMode::Cpu,
        d.staging_width == job.width,
        d.staging_height == job.height,
        k < d.staging.len(),
        forall|j: int|
            0 <= j < k ==> (#[trigger] d.staging[(d.staging_next + j) % (
            d.staging.len() as int)]) is Some,
        d.staging[(d.staging_next + k) % (d.staging.len() as int)] is None,
    ensures
        ({
            let t = first_turn(d, job);
            let n = d.staging.len() as int;
            let place = (d.staging_next + k) % n;
            &&& 0 <= place < n
            &&& t.action matches FrameAction::CopyToStaging { staging } && staging == place
            &&& t.job.staging == place
            &&& t.delivery.staging.len() == n
            &&& t.delivery.staging[place] == Some(job.number)
            &&& forall|i: int|
                0 <= i < n && i != place ==> #[trigger] t.delivery.staging[i] == d.staging[i]
            &&& t.delivery.staging_next == (place + 1) % n
        }),
{
    let n = d.staging.len() as int;
    vstd::arithmetic::div_mod::lemma_mod_bound(d.staging_next + k, n);
    lemma_skips_occupied(d.staging, d.staging_next, 0, k);
    let place = (d.staging_next + k) % n;
    vstd::arithmetic::div_mod::lemma_mod_bound(place + 1, n);
}

proof fn lemma_skips_occupied(table: Seq<Option<u64>>, next: u32, i: nat, k: nat)
    requires
        i <= k < table.len(),
        forall|j: int|
            i <= j < k ==> #[trigger] table[(next + j) % (table.len() as int)] is Some,
    ensures
        unoccupied(table, next, i) == unoccupied(table, next, k),
    decreases k - i,
{
    if i < k {
        assert(table[(next + i as int) % (table.len() as int)] is Some);
        lemma_skips_occupied(table, next, i + 1, k);
    }
}

/// The finalizer of a buffer empties the texture of its picture and no other, and changes
/// nothing else.
pub proof fn law_finalizers_empty_one_texture(d: DeliveryModel, number: u64, i: int)
    requires
        0 <= i < d.staging.len(),
    ensures
        ({
            let freed = d.after_finalizer(number);
            &&& freed.staging.len() == d.staging.len()
            &&& d.staging[i] != Some(number) ==> freed.staging[i] == d.staging[i]
            &&& d.staging[i] == Some(number) && (forall|j: int|
                0 <= j < d.staging.len() && j != i ==> #[trigger] d.staging[j] != Some(number))
                ==> freed.staging[i] is None
            &&& freed.lent == d.lent
            &&& freed.mode == d.mode && freed.enc_cfg == d.enc_cfg
            &&& freed.taken_frames == d.taken_frames
            &&& freed.delivered_frames == d.delivered_frames
            &&& freed.dropped_frames == d.dropped_frames
            &&& freed.processor == d.processor && freed.nv12_texture == d.nv12_texture
            &&& freed.encoder == d.encoder && freed.encoder_failed == d.encoder_failed
            &&& freed.enc_width == d.enc_width && freed.enc_height == d.enc_height
            &&& freed.staging_width == d.staging_width && freed.staging_height
                == d.staging_height
            &&& freed.staging_next == d.staging_next
        }),
{
    lemma_place(d.staging, number, 0);
    if d.staging[i] == Some(number) && (forall|j: int|
        0 <= j < d.staging.len() && j != i ==> #[trigger] d.staging[j] != Some(number)) {
        lemma_only_place(d.staging, number, i as nat, 0);
    }
}

/// A texture is used again exactly if it still belongs to the picture whose buffer was
/// finalized; one that was replaced goes. A release finds the slot of the frame that the
/// consumer holds, and nothing where it holds none of that number.
pub proof fn law_textures_and_slots_come_back(d: DeliveryModel, number: u64)
    requires
        d.wf(),
    ensures
        d.finalized(number) matches Finalized::Recycle { staging } ==> {
            &&& staging < d.staging.len()
            &&& d.staging[staging as int] == Some(number)
        },
        d.finalized(number) == Finalized::Discard <==> forall|i: int|
            0 <= i < d.staging.len() ==> #[trigger] d.staging[i] != Some(number),
        d.lent.contains_key(number) ==> d.slot_of(number) == Some(d.lent[number]),
        !d.lent.contains_key(number) ==> d.slot_of(number) is None,
        d.after_release(number).slot_of(number) is None,
{
    lemma_place(d.staging, number, 0);
    if d.finalized(number) == Finalized::Discard {
        assert forall|i: int| 0 <= i < d.staging.len() implies #[trigger] d.staging[i] != Some(
            number,
        ) by {
            if d.staging[i] == Some(number) {
                lemma_found_if_there(d.staging, number, 0, i);
            }
        }
    }
}

proof fn lemma_found_if_there(table: Seq<Option<u64>>, number: u64, from: nat, i: int)
    requires
        from <= i < table.len(),
        table[i] == Some(number),
    ensures
        place_of(table, number, from) <= i,
    decreases i - from,
{
    if table[from as int] != Some(number) {
        lemma_found_if_there(table, number, from + 1, i);
    }
}

} // verus!
