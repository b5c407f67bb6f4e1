//! What becomes of one captured frame on its way to the consumer of a session.
//!
//! A job asks for one piece of outside work at a time and is told how it went;
//! it ends with `FrameAction::Done`. What it handed to the consumer may stay with the
//! consumer after that: the slot of a raw frame until the consumer releases it, and
//! the mapped texture of a picture until the buffer around it is finalized.

use vstd::prelude::*;

use std::collections::HashMap;

use crate::encoder_config::EncoderConfig;
use crate::error::{ErrorPayload, PayloadModel};
use crate::mf_encoder::{FrameOptions, MfEncoder};
use crate::video_processor::ColorSpace;
use crate::wgc_source::{CapturedFrame, DirtyRect};

verus! {

/// How frames are delivered.
#[derive(Clone, Copy, PartialEq, Eq, Debug, Structural)]
pub enum DeliveryMode {
    /// Without the picture.
    Raw,
    /// With the picture in memory.
    Cpu,
    /// As encoded video.
    Encoded,
}

/// The number of textures through which pictures are read back.
pub const STAGING_TEXTURES: u32 = 4;

/// 8-bit BGRA.
pub const FORMAT_BGRA8: i32 = 87;

/// Half-float RGBA.
pub const FORMAT_RGBA16F: i32 = 10;

/// 8-bit 4:2:0.
pub const FORMAT_NV12: i32 = 103;

/// 10-bit 4:2:0.
pub const FORMAT_P010: i32 = 104;

/// Used by the GPU alone.
pub const USAGE_DEFAULT: i32 = 0;

/// Used to copy between GPU and memory.
pub const USAGE_STAGING: i32 = 3;

/// A render target that shaders can read.
pub const BIND_TARGET_AND_SHADER: u32 = 40;

/// Readable from memory.
pub const CPU_READ: u32 = 131072;

/// A texture to create: one level, one layer, one sample.
#[derive(Clone, Copy, PartialEq, Eq, Debug, Structural)]
pub struct TextureDesc {
    pub width: u32,
    pub height: u32,
    pub format: i32,
    pub usage: i32,
    pub bind_flags: u32,
    pub cpu_access: u32,
}

/// What a session remembers from frame to frame. The flags say which outside
/// objects it holds.
#[derive(Debug)]
pub struct Delivery {
    mode: DeliveryMode,
    enc_cfg: EncoderConfig,
    taken_frames: u64,
    delivered_frames: u64,
    dropped_frames: u64,
    processor: bool,
    nv12_texture: bool,
    encoder: bool,
    enc_width: u32,
    enc_height: u32,
    encoder_failed: bool,
    lent: HashMap<u64, u32>,
    staging: Vec<Option<u64>>,
    staging_width: u32,
    staging_height: u32,
    staging_next: u32,
}

/// The contents of a `Delivery` as mathematical values.
#[verifier::ext_equal]
pub struct DeliveryModel {
    pub mode: DeliveryMode,
    pub enc_cfg: EncoderConfig,
    /// The frames that the session took over so far, by which they are numbered.
    pub taken_frames: u64,
    pub delivered_frames: u64,
    pub dropped_frames: u64,
    pub processor: bool,
    pub nv12_texture: bool,
    pub encoder: bool,
    pub enc_width: u32,
    pub enc_height: u32,
    /// Setting up the encoder failed, and is not tried again.
    pub encoder_failed: bool,
    /// The raw frames that the consumer has not released, by their numbers, and the
    /// slots that it holds with them.
    pub lent: Map<u64, u32>,
    /// For each staging texture, the number of the frame that occupies it.
    pub staging: Seq<Option<u64>>,
    pub staging_width: u32,
    pub staging_height: u32,
    /// The staging texture whose turn it is.
    pub staging_next: u32,
}

impl View for Delivery {
    type V = DeliveryModel;

    closed spec fn view(&self) -> DeliveryModel {
        DeliveryModel {
            mode: self.mode,
            enc_cfg: self.enc_cfg,
            taken_frames: self.taken_frames,
            delivered_frames: self.delivered_frames,
            dropped_frames: self.dropped_frames,
            processor: self.processor,
            nv12_texture: self.nv12_texture,
            encoder: self.encoder,
            enc_width: self.enc_width,
            enc_height: self.enc_height,
            encoder_failed: self.encoder_failed,
            lent: self.lent@,
            staging: self.staging@,
            staging_width: self.staging_width,
            staging_height: self.staging_height,
            staging_next: self.staging_next,
        }
    }
}

/// What a job is waiting for.
#[derive(Clone, Copy, PartialEq, Eq, Debug, Structural)]
pub enum FramePhase {
    SendingRaw,
    CreatingStaging,
    Copying,
    ReleasingEarly,
    Polling,
    Mapping,
    SendingPixels,
    Unmapping,
    StoppingEncoder,
    CreatingProcessor,
    CreatingNv12,
    CreatingEncoder,
    InitializingEncoder,
    StartingEncoder,
    Converting,
    Encoding,
    /// A failure is being reported; `held` says whether the slot is still held.
    Reporting { held: bool },
    /// The slot is being given back; `delivered` says whether that completes a
    /// delivery.
    Releasing { delivered: bool },
    Done,
}

/// A captured frame on its way.
#[derive(Debug)]
pub struct FrameJob {
    number: u64,
    slot: u32,
    width: u32,
    height: u32,
    timestamp_ns: u64,
    size_changed: bool,
    phase: FramePhase,
    staging: u32,
    row_pitch: u32,
    roi_rects: Vec<i32>,
}

/// The contents of a `FrameJob` as mathematical values.
#[verifier::ext_equal]
pub struct JobModel {
    /// The number of the frame.
    pub number: u64,
    pub slot: u32,
    pub width: u32,
    pub height: u32,
    pub timestamp_ns: u64,
    pub size_changed: bool,
    pub phase: FramePhase,
    /// The staging texture of the picture.
    pub staging: u32,
    /// The length of a row of the mapped picture in bytes.
    pub row_pitch: u32,
    /// The regions of interest that the encoder is told of.
    pub roi_rects: Seq<i32>,
}

impl View for FrameJob {
    type V = JobModel;

    closed spec fn view(&self) -> JobModel {
        JobModel {
            number: self.number,
            slot: self.slot,
            width: self.width,
            height: self.height,
            timestamp_ns: self.timestamp_ns,
            size_changed: self.size_changed,
            phase: self.phase,
            staging: self.staging,
            row_pitch: self.row_pitch,
            roi_rects: self.roi_rects@,
        }
    }
}

/// A kind of failure that is reported.
#[derive(Clone, Copy, PartialEq, Eq, Debug, Structural)]
pub enum FrameFailure {
    StagingTexture,
    MapStaging,
    Processor,
    Nv12Texture,
    Encoder,
}

/// The outside work that a job asks for.
#[derive(Clone, Copy, PartialEq, Eq, Debug, Structural)]
pub enum FrameAction {
    /// Hand the frame to the consumer, without its picture. The consumer holds the
    /// slot until it releases the frame.
    SendRaw,
    /// Create a staging texture; the first of a set replaces the set before.
    CreateStaging { first: bool, desc: TextureDesc },
    /// Copy the picture of the slot to a staging texture.
    CopyToStaging { staging: u32 },
    /// Ask whether the copy is complete.
    PollCopy { staging: u32 },
    MapStaging { staging: u32 },
    /// Hand the frame to the consumer, with the mapped memory itself: so many bytes,
    /// in rows of that length. The texture stays mapped until the buffer around the
    /// memory is finalized.
    SendPixels { staging: u32, stride: u32, bytes: u64 },
    /// Unmap a texture that the consumer did not take.
    UnmapStaging { staging: u32 },
    StopEncoder,
    CreateProcessor { width: u32, height: u32, color: ColorSpace },
    CreateNv12(TextureDesc),
    CreateEncoder,
    InitializeEncoder(EncoderConfig),
    StartEncoder,
    /// Convert the picture of the slot.
    Convert,
    /// Queue the converted picture for the encoder, by `FrameJob::submit`.
    Encode { timestamp_ns: u64 },
    Report { failure: FrameFailure, hr: Option<i32> },
    /// Give the slot back to the pool.
    ReleaseSlot { slot: u32 },
    Done,
}

/// How the outside work went. The value of a success is the row pitch where a
/// texture was mapped, and means nothing elsewhere. A frame that the consumer does
/// not take is a failure of the hand-over.
#[derive(Clone, Copy, PartialEq, Eq, Debug, Structural)]
pub enum FrameEvent {
    Finished { value: u32 },
    /// The copy is not complete yet.
    Pending,
    Failed { hr: Option<i32> },
}

/// What becomes of the texture of a picture whose buffer was finalized. It is
/// unmapped either way.
#[derive(Clone, Copy, PartialEq, Eq, Debug, Structural)]
pub enum Finalized {
    /// The texture is used again.
    Recycle { staging: u32 },
    /// The texture has been replaced, and goes.
    Discard,
}

impl FrameEvent {
    /// The value of a success.
    pub open spec fn value(self) -> u32 {
        match self {
            FrameEvent::Finished { value } => value,
            _ => 0,
        }
    }

    /// Whether this can be the answer in a phase: only a copy can be pending.
    pub open spec fn fits(self, phase: FramePhase) -> bool {
        self == FrameEvent::Pending ==> phase == FramePhase::Polling
    }
}

/// A staging texture of the given size.
pub open spec fn staging_desc(width: u32, height: u32) -> TextureDesc {
    TextureDesc {
        width,
        height,
        format: FORMAT_BGRA8,
        usage: USAGE_STAGING,
        bind_flags: 0,
        cpu_access: CPU_READ,
    }
}

/// A texture of the given size that the GPU draws to and reads.
pub open spec fn gpu_desc(width: u32, height: u32, format: i32) -> TextureDesc {
    TextureDesc {
        width,
        height,
        format,
        usage: USAGE_DEFAULT,
        bind_flags: BIND_TARGET_AND_SHADER,
        cpu_access: 0,
    }
}

/// The format of the pictures that go into the encoder.
pub open spec fn encoder_format(hdr10: bool) -> i32 {
    if hdr10 {
        FORMAT_P010
    } else {
        FORMAT_NV12
    }
}

/// The conversion of captured pictures to those that go into the encoder.
pub open spec fn encoder_color(hdr10: bool) -> ColorSpace {
    if hdr10 {
        ColorSpace::Rec2020Pq
    } else {
        ColorSpace::Rec709Sdr
    }
}

/// A texture of the given size that the GPU draws to and reads.
pub fn gpu_texture(width: u32, height: u32, format: i32) -> (desc: TextureDesc)
    ensures
        desc == gpu_desc(width, height, format),
{
    TextureDesc {
        width,
        height,
        format,
        usage: USAGE_DEFAULT,
        bind_flags: BIND_TARGET_AND_SHADER,
        cpu_access: 0,
    }
}

fn staging_texture(width: u32, height: u32) -> (desc: TextureDesc)
    ensures
        desc == staging_desc(width, height),
{
    TextureDesc {
        width,
        height,
        format: FORMAT_BGRA8,
        usage: USAGE_STAGING,
        bind_flags: 0,
        cpu_access: CPU_READ,
    }
}

/// The entry of a table that belongs to a frame is emptied.
pub open spec fn emptied(table: Seq<Option<u64>>, i: int, number: u64) -> Seq<Option<u64>> {
    if 0 <= i < table.len() && table[i] == Some(number) {
        table.update(i, None)
    } else {
        table
    }
}

/// The first entry from `i` on that belongs to a frame; the length of the table if
/// none does.
pub open spec fn place_of(table: Seq<Option<u64>>, number: u64, i: nat) -> nat
    decreases table.len() - i,
{
    if i >= table.len() {
        table.len()
    } else if table[i as int] == Some(number) {
        i
    } else {
        place_of(table, number, i + 1)
    }
}

/// The staging texture `k` turns from now.
pub open spec fn in_turn(next: u32, k: nat, count: nat) -> int {
    (next + k) % (count as int)
}

/// The first staging texture that is not occupied, from the one `k` turns from now
/// on.
pub open spec fn unoccupied(table: Seq<Option<u64>>, next: u32, k: nat) -> Option<u32>
    decreases table.len() - k,
{
    if k >= table.len() {
        None
    } else if table[in_turn(next, k, table.len())] is None {
        Some(in_turn(next, k, table.len()) as u32)
    } else {
        unoccupied(table, next, k + 1)
    }
}

impl DeliveryModel {
    /// A delivery that holds no outside object yet.
    pub open spec fn fresh(mode: DeliveryMode, enc_cfg: EncoderConfig) -> DeliveryModel {
        DeliveryModel {
            mode,
            enc_cfg,
            taken_frames: 0,
            delivered_frames: 0,
            dropped_frames: 0,
            processor: false,
            nv12_texture: false,
            encoder: false,
            enc_width: 0,
            enc_height: 0,
            encoder_failed: false,
            lent: Map::empty(),
            staging: Seq::empty(),
            staging_width: 0,
            staging_height: 0,
            staging_next: 0,
        }
    }

    /// There are at most so many staging textures.
    pub open spec fn wf(self) -> bool {
        self.staging.len() <= STAGING_TEXTURES
    }

    /// Whether there is something to put a frame of this size into: a frame of
    /// the size that the textures are said to have needs those textures. It
    /// fails only for frames of no size before the first real one, and for
    /// frames that come back to a size while its textures could not be made.
    pub open spec fn accepts(self, width: u32, height: u32) -> bool {
        match self.mode {
            DeliveryMode::Raw => true,
            DeliveryMode::Cpu => {
                ||| self.staging_width != width
                ||| self.staging_height != height
                ||| self.staging.len() > 0
            },
            DeliveryMode::Encoded => {
                ||| self.encoder_failed
                ||| self.enc_width != width
                ||| self.enc_height != height
                ||| self.nv12_texture
            },
        }
    }

    /// The delivery after the consumer released a raw frame.
    pub open spec fn after_release(self, number: u64) -> DeliveryModel {
        DeliveryModel { lent: self.lent.remove(number), ..self }
    }

    /// Whether the consumer holds the raw frame of that number.
    pub open spec fn is_lent(self, number: u64) -> bool {
        self.lent.contains_key(number)
    }

    /// The slot that the consumer holds with the raw frame of that number.
    pub open spec fn slot_of(self, number: u64) -> Option<u32> {
        if self.lent.contains_key(number) {
            Some(self.lent[number])
        } else {
            None
        }
    }

    /// What becomes of the texture of a picture whose buffer was finalized.
    pub open spec fn finalized(self, number: u64) -> Finalized {
        let i = place_of(self.staging, number, 0);
        if i < self.staging.len() {
            Finalized::Recycle { staging: i as u32 }
        } else {
            Finalized::Discard
        }
    }

    /// The delivery after the buffer of a picture was finalized.
    pub open spec fn after_finalizer(self, number: u64) -> DeliveryModel {
        DeliveryModel {
            staging: emptied(self.staging, place_of(self.staging, number, 0) as int, number),
            ..self
        }
    }
}

/// A delivery, a job, and the work that the job asks for.
#[verifier::ext_equal]
pub struct Turn {
    pub delivery: DeliveryModel,
    pub job: JobModel,
    pub action: FrameAction,
}

impl JobModel {
    /// The job in another phase.
    pub open spec fn at(self, phase: FramePhase) -> JobModel {
        JobModel { phase, ..self }
    }
}

/// The slot is given back.
pub open spec fn releasing(d: DeliveryModel, job: JobModel, delivered: bool) -> Turn {
    Turn {
        delivery: d,
        job: job.at(FramePhase::Releasing { delivered }),
        action: FrameAction::ReleaseSlot { slot: job.slot },
    }
}

/// A failure is reported.
pub open spec fn reporting(
    d: DeliveryModel,
    job: JobModel,
    failure: FrameFailure,
    hr: Option<i32>,
    held: bool,
) -> Turn {
    Turn {
        delivery: d,
        job: job.at(FramePhase::Reporting { held }),
        action: FrameAction::Report { failure, hr },
    }
}

/// The picture is copied to the next staging texture in turn that is not occupied.
/// With all of them occupied the frame is dropped.
pub open spec fn copying(d: DeliveryModel, job: JobModel) -> Turn {
    match unoccupied(d.staging, d.staging_next, 0) {
        Some(staging) => Turn {
            delivery: DeliveryModel {
                staging: d.staging.update(staging as int, Some(job.number)),
                staging_next: ((staging + 1) % (d.staging.len() as int)) as u32,
                ..d
            },
            job: JobModel { staging, phase: FramePhase::Copying, ..job },
            action: FrameAction::CopyToStaging { staging },
        },
        None => releasing(d, job, false),
    }
}

/// A converter of the size of the frame is made, the first step of setting up
/// the encoder anew.
pub open spec fn preparing(d: DeliveryModel, job: JobModel) -> Turn {
    Turn {
        delivery: DeliveryModel { encoder: false, processor: false, nv12_texture: false, ..d },
        job: job.at(FramePhase::CreatingProcessor),
        action: FrameAction::CreateProcessor {
            width: job.width,
            height: job.height,
            color: encoder_color(d.enc_cfg.hdr10),
        },
    }
}

/// The picture is encoded, where there is an encoder, and the slot given back.
pub open spec fn encoding(d: DeliveryModel, job: JobModel) -> Turn {
    if d.encoder {
        Turn {
            delivery: d,
            job: job.at(FramePhase::Encoding),
            action: FrameAction::Encode { timestamp_ns: job.timestamp_ns },
        }
    } else {
        releasing(d, job, false)
    }
}

/// The picture is converted, where there is a converter, and then encoded.
pub open spec fn converting(d: DeliveryModel, job: JobModel) -> Turn {
    if d.processor {
        Turn { delivery: d, job: job.at(FramePhase::Converting), action: FrameAction::Convert }
    } else {
        encoding(d, job)
    }
}

/// The encoder could not be set up: it is not tried again.
pub open spec fn giving_up(
    d: DeliveryModel,
    job: JobModel,
    failure: FrameFailure,
    hr: Option<i32>,
) -> Turn {
    reporting(DeliveryModel { encoder_failed: true, ..d }, job, failure, hr, true)
}

/// A frame was taken over.
pub open spec fn taken(d: DeliveryModel) -> DeliveryModel {
    DeliveryModel { taken_frames: d.taken_frames.wrapping_add(1), ..d }
}

/// A frame was delivered.
pub open spec fn delivered(d: DeliveryModel) -> DeliveryModel {
    DeliveryModel { delivered_frames: d.delivered_frames.wrapping_add(1), ..d }
}

/// A frame was dropped.
pub open spec fn dropped(d: DeliveryModel) -> DeliveryModel {
    DeliveryModel { dropped_frames: d.dropped_frames.wrapping_add(1), ..d }
}

/// A staging texture is created.
pub open spec fn creating_staging(d: DeliveryModel, job: JobModel) -> Turn {
    Turn {
        delivery: d,
        job: job.at(FramePhase::CreatingStaging),
        action: FrameAction::CreateStaging {
            first: d.staging.len() == 0,
            desc: staging_desc(job.width, job.height),
        },
    }
}

/// How a job of a frame that was taken over begins.
pub open spec fn opening(d: DeliveryModel, job: JobModel) -> Turn {
    match d.mode {
        DeliveryMode::Raw => Turn {
            delivery: DeliveryModel {
                lent: d.lent.insert(job.number, job.slot),
                ..d
            },
            job: job.at(FramePhase::SendingRaw),
            action: FrameAction::SendRaw,
        },
        DeliveryMode::Cpu => if job.width != d.staging_width || job.height != d.staging_height {
            creating_staging(DeliveryModel { staging: Seq::empty(), ..d }, job)
        } else {
            copying(d, job)
        },
        DeliveryMode::Encoded => if d.encoder_failed {
            releasing(d, job, false)
        } else if d.enc_width != job.width || d.enc_height != job.height {
            if d.encoder {
                Turn {
                    delivery: d,
                    job: job.at(FramePhase::StoppingEncoder),
                    action: FrameAction::StopEncoder,
                }
            } else {
                preparing(d, job)
            }
        } else {
            converting(d, job)
        },
    }
}

/// How a job begins.
pub open spec fn first_turn(d: DeliveryModel, job: JobModel) -> Turn {
    opening(taken(d), job)
}

/// The job has ended.
pub open spec fn ended(d: DeliveryModel, job: JobModel) -> Turn {
    Turn { delivery: d, job: job.at(FramePhase::Done), action: FrameAction::Done }
}

/// The staging texture of a job is not occupied any more.
pub open spec fn vacated(d: DeliveryModel, job: JobModel) -> DeliveryModel {
    DeliveryModel { staging: emptied(d.staging, job.staging as int, job.number), ..d }
}

/// How a job goes on after the work that it asked for.
pub open spec fn next_turn(d: DeliveryModel, job: JobModel, event: FrameEvent) -> Turn {
    match job.phase {
        FramePhase::SendingRaw => match event {
            FrameEvent::Failed { .. } => if d.is_lent(job.number) {
                releasing(d.after_release(job.number), job, false)
            } else {
                ended(dropped(d), job)
            },
            _ => ended(delivered(d), job),
        },
        FramePhase::CreatingStaging => match event {
            FrameEvent::Failed { hr } => reporting(d, job, FrameFailure::StagingTexture, hr, true),
            _ => {
                let more = DeliveryModel { staging: d.staging.push(None), ..d };
                if more.staging.len() < STAGING_TEXTURES {
                    creating_staging(more, job)
                } else {
                    copying(
                        DeliveryModel {
                            staging_width: job.width,
                            staging_height: job.height,
                            staging_next: 0,
                            ..more
                        },
                        job,
                    )
                }
            },
        },
        FramePhase::Copying => Turn {
            delivery: d,
            job: job.at(FramePhase::ReleasingEarly),
            action: FrameAction::ReleaseSlot { slot: job.slot },
        },
        FramePhase::ReleasingEarly => Turn {
            delivery: d,
            job: job.at(FramePhase::Polling),
            action: FrameAction::PollCopy { staging: job.staging },
        },
        FramePhase::Polling => match event {
            FrameEvent::Finished { .. } => Turn {
                delivery: d,
                job: job.at(FramePhase::Mapping),
                action: FrameAction::MapStaging { staging: job.staging },
            },
            _ => Turn {
                delivery: d,
                job,
                action: FrameAction::PollCopy { staging: job.staging },
            },
        },
        FramePhase::Mapping => match event {
            FrameEvent::Failed { hr } => reporting(
                vacated(d, job),
                job,
                FrameFailure::MapStaging,
                hr,
                false,
            ),
            _ => Turn {
                delivery: d,
                job: JobModel {
                    row_pitch: event.value(),
                    phase: FramePhase::SendingPixels,
                    ..job
                },
                action: FrameAction::SendPixels {
                    staging: job.staging,
                    stride: event.value(),
                    bytes: (event.value() * job.height) as u64,
                },
            },
        },
        FramePhase::SendingPixels => match event {
            FrameEvent::Failed { .. } => Turn {
                delivery: d,
                job: job.at(FramePhase::Unmapping),
                action: FrameAction::UnmapStaging { staging: job.staging },
            },
            _ => ended(delivered(d), job),
        },
        FramePhase::Unmapping => ended(dropped(vacated(d, job)), job),
        FramePhase::StoppingEncoder => preparing(d, job),
        FramePhase::CreatingProcessor => match event {
            FrameEvent::Failed { hr } => giving_up(d, job, FrameFailure::Processor, hr),
            _ => Turn {
                delivery: DeliveryModel { processor: true, ..d },
                job: job.at(FramePhase::CreatingNv12),
                action: FrameAction::CreateNv12(
                    gpu_desc(job.width, job.height, encoder_format(d.enc_cfg.hdr10)),
                ),
            },
        },
        FramePhase::CreatingNv12 => match event {
            FrameEvent::Failed { hr } => giving_up(d, job, FrameFailure::Nv12Texture, hr),
            _ => Turn {
                delivery: DeliveryModel { nv12_texture: true, ..d },
                job: job.at(FramePhase::CreatingEncoder),
                action: FrameAction::CreateEncoder,
            },
        },
        FramePhase::CreatingEncoder => match event {
            FrameEvent::Failed { hr } => giving_up(d, job, FrameFailure::Encoder, hr),
            _ => Turn {
                delivery: d,
                job: job.at(FramePhase::InitializingEncoder),
                action: FrameAction::InitializeEncoder(
                    EncoderConfig { width: job.width, height: job.height, ..d.enc_cfg },
                ),
            },
        },
        FramePhase::InitializingEncoder => match event {
            FrameEvent::Failed { hr } => giving_up(d, job, FrameFailure::Encoder, hr),
            _ => Turn {
                delivery: d,
                job: job.at(FramePhase::StartingEncoder),
                action: FrameAction::StartEncoder,
            },
        },
        FramePhase::StartingEncoder => match event {
            FrameEvent::Failed { hr } => giving_up(d, job, FrameFailure::Encoder, hr),
            _ => converting(
                DeliveryModel {
                    encoder: true,
                    enc_width: job.width,
                    enc_height: job.height,
                    ..d
                },
                job,
            ),
        },
        FramePhase::Converting => match event {
            FrameEvent::Failed { hr } => reporting(d, job, FrameFailure::Processor, hr, true),
            _ => encoding(d, job),
        },
        FramePhase::Encoding => releasing(d, job, !(event is Failed)),
        FramePhase::Reporting { held } => if held {
            releasing(d, job, false)
        } else {
            ended(dropped(d), job)
        },
        FramePhase::Releasing { delivered: yes } => if yes {
            ended(delivered(d), job)
        } else {
            ended(dropped(d), job)
        },
        FramePhase::Done => ended(d, job),
    }
}

/// Whether a job in this phase reads a picture back.
spec fn reads_back(phase: FramePhase) -> bool {
    match phase {
        FramePhase::CreatingStaging
        | FramePhase::Copying
        | FramePhase::ReleasingEarly
        | FramePhase::Polling
        | FramePhase::Mapping
        | FramePhase::SendingPixels
        | FramePhase::Unmapping => true,
        _ => false,
    }
}

/// Whether a job in this phase encodes a picture.
spec fn encodes(phase: FramePhase) -> bool {
    match phase {
        FramePhase::SendingRaw
        | FramePhase::Reporting { .. }
        | FramePhase::Releasing { .. }
        | FramePhase::Done => false,
        _ => !reads_back(phase),
    }
}

/// What holds of a delivery and a job between two turns.
pub open spec fn in_step(d: DeliveryModel, job: JobModel) -> bool {
    &&& d.wf()
    &&& job.phase == FramePhase::CreatingStaging ==> d.staging.len() < STAGING_TEXTURES
}

/// The left, top, right and bottom edges of rectangles, one rectangle after the
/// other.
pub open spec fn edges_of(rects: Seq<DirtyRect>) -> Seq<i32>
    decreases rects.len(),
{
    if rects.len() == 0 {
        Seq::empty()
    } else {
        edges_of(rects.drop_last()) + seq![
            rects.last().left,
            rects.last().top,
            rects.last().right,
            rects.last().bottom,
        ]
    }
}

/// The regions of interest of a frame: its changed rectangles, where the encoder is to
/// be told of them.
pub open spec fn roi_of(cfg: EncoderConfig, rects: Seq<DirtyRect>) -> Seq<i32> {
    if cfg.roi_enabled {
        edges_of(rects)
    } else {
        Seq::empty()
    }
}

/// A job for a frame, before its first turn.
pub open spec fn job_of(d: DeliveryModel, frame: CapturedFrame) -> JobModel {
    JobModel {
        number: d.taken_frames,
        slot: frame.slot,
        width: frame.width,
        height: frame.height,
        timestamp_ns: frame.timestamp_ns,
        size_changed: frame.size_changed,
        phase: FramePhase::Done,
        staging: 0,
        row_pitch: 0,
        roi_rects: roi_of(d.enc_cfg, frame.dirty_rects@),
    }
}

fn edges(rects: &Vec<DirtyRect>) -> (values: Vec<i32>)
    ensures
        values@ == edges_of(rects@),
{
    let mut values: Vec<i32> = Vec::new();
    let mut i: usize = 0;
    while i < rects.len()
        invariant
            i <= rects.len(),
            values@ == edges_of(rects@.take(i as int)),
        decreases rects.len() - i,
    {
        let r = rects[i];
        values.push(r.left);
        values.push(r.top);
        values.push(r.right);
        values.push(r.bottom);
        i += 1;
        assert(rects@.take(i as int).drop_last() =~= rects@.take(i - 1));
        assert(values@ =~= edges_of(rects@.take(i as int)));
    }
    assert(rects@.take(i as int) =~= rects@);
    values
}

impl FrameJob {
    /// The number of the frame.
    pub fn number(&self) -> (number: u64)
        ensures
            number == self@.number,
    {
        self.number
    }

    /// The width of the frame.
    pub fn width(&self) -> (width: u32)
        ensures
            width == self@.width,
    {
        self.width
    }

    /// The height of the frame.
    pub fn height(&self) -> (height: u32)
        ensures
            height == self@.height,
    {
        self.height
    }

    /// The time of the frame in nanoseconds.
    pub fn timestamp_ns(&self) -> (t: u64)
        ensures
            t == self@.timestamp_ns,
    {
        self.timestamp_ns
    }

    /// Whether the frame has another size than the one before.
    pub fn size_changed(&self) -> (yes: bool)
        ensures
            yes == self@.size_changed,
    {
        self.size_changed
    }

    /// The length of a row of the mapped picture in bytes.
    pub fn row_pitch(&self) -> (pitch: u32)
        ensures
            pitch == self@.row_pitch,
    {
        self.row_pitch
    }

    /// Queues the converted picture for the encoder, with the time and the regions of
    /// interest of the frame and no long-term reference. The answer goes to
    /// `Delivery::advance`: an encoder that does not run takes nothing.
    pub fn submit<T>(&self, encoder: &mut MfEncoder<T>, surface: T) -> (answer: FrameEvent)
        ensures
            match answer {
                FrameEvent::Finished { .. } => {
                    &&& old(encoder).is_running()
                    &&& final(encoder).queue().len() == old(encoder).queue().len() + 1
                    &&& final(encoder).queue().drop_last() == old(encoder).queue()
                    &&& final(encoder).queue().last().tex == surface
                    &&& final(encoder).queue().last().timestamp_ns == self@.timestamp_ns
                    &&& final(encoder).queue().last().opts.mark_ltr == -1
                    &&& final(encoder).queue().last().opts.use_ltr == -1
                    &&& final(encoder).queue().last().opts.roi_rects@ == self@.roi_rects
                },
                FrameEvent::Failed { hr } => !old(encoder).is_running() && hr is None
                    && final(encoder)@ == old(encoder)@,
                FrameEvent::Pending => false,
            },
            final(encoder)@ == (match old(encoder)@ {
                Some(inner) => Some(inner.with_pending(final(encoder).queue())),
                None => None,
            }),
    {
        if !encoder.running() {
            return FrameEvent::Failed { hr: None };
        }
        let mut opts = FrameOptions::default();
        let mut i: usize = 0;
        while i < self.roi_rects.len()
            invariant
                i <= self.roi_rects.len(),
                opts.mark_ltr == -1,
                opts.use_ltr == -1,
                opts.roi_rects@ == self.roi_rects@.take(i as int),
            decreases self.roi_rects.len() - i,
        {
            opts.roi_rects.push(self.roi_rects[i]);
            i += 1;
            assert(opts.roi_rects@ =~= self.roi_rects@.take(i as int));
        }
        assert(self.roi_rects@.take(i as int) =~= self.roi_rects@);
        encoder.encode_frame(surface, self.timestamp_ns, opts);
        assert(encoder.queue().drop_last() =~= old(encoder).queue());
        FrameEvent::Finished { value: 0 }
    }

    fn release(&mut self, delivered: bool) -> (action: FrameAction)
        ensures
            forall|d: DeliveryModel| #[trigger] releasing(d, old(self)@, delivered) == (Turn {
                delivery: d,
                job: final(self)@,
                action,
            }),
    {
        self.phase = FramePhase::Releasing { delivered };
        FrameAction::ReleaseSlot { slot: self.slot }
    }

    fn report(&mut self, failure: FrameFailure, hr: Option<i32>, held: bool) -> (action: FrameAction)
        ensures
            forall|d: DeliveryModel| #[trigger] reporting(d, old(self)@, failure, hr, held) == (
            Turn { delivery: d, job: final(self)@, action }),
    {
        self.phase = FramePhase::Reporting { held };
        FrameAction::Report { failure, hr }
    }

    fn end(&mut self) -> (action: FrameAction)
        ensures
            forall|d: DeliveryModel| #[trigger] ended(d, old(self)@) == (Turn {
                delivery: d,
                job: final(self)@,
                action,
            }),
    {
        self.phase = FramePhase::Done;
        FrameAction::Done
    }
}

impl Delivery {
    /// A delivery that holds no outside object yet.
    pub fn new(mode: DeliveryMode, enc_cfg: EncoderConfig) -> (d: Self)
        ensures
            d@ == DeliveryModel::fresh(mode, enc_cfg),
    {
        broadcast use vstd::std_specs::hash::group_hash_axioms;

        Delivery {
            mode,
            enc_cfg,
            taken_frames: 0,
            delivered_frames: 0,
            dropped_frames: 0,
            processor: false,
            nv12_texture: false,
            encoder: false,
            enc_width: 0,
            enc_height: 0,
            encoder_failed: false,
            lent: HashMap::new(),
            staging: Vec::new(),
            staging_width: 0,
            staging_height: 0,
            staging_next: 0,
        }
    }

    /// How frames are delivered.
    pub fn mode(&self) -> (mode: DeliveryMode)
        ensures
            mode == self@.mode,
    {
        self.mode
    }

    /// How frames are encoded.
    pub fn enc_cfg(&self) -> (cfg: EncoderConfig)
        ensures
            cfg == self@.enc_cfg,
    {
        self.enc_cfg
    }

    /// Whether there is an encoder.
    pub fn has_encoder(&self) -> (yes: bool)
        ensures
            yes == self@.encoder,
    {
        self.encoder
    }

    /// The frames that were delivered so far.
    pub fn delivered_frames(&self) -> (n: u64)
        ensures
            n == self@.delivered_frames,
    {
        self.delivered_frames
    }

    /// The frames that were taken over and dropped so far.
    pub fn dropped_frames(&self) -> (n: u64)
        ensures
            n == self@.dropped_frames,
    {
        self.dropped_frames
    }

    /// Whether there is something to put a frame of this size into.
    pub fn accepts_size(&self, width: u32, height: u32) -> (yes: bool)
        ensures
            yes == self@.accepts(width, height),
    {
        match self.mode {
            DeliveryMode::Raw => true,
            DeliveryMode::Cpu => {
                self.staging_width != width || self.staging_height != height
                    || self.staging.len() > 0
            },
            DeliveryMode::Encoded => {
                self.encoder_failed || self.enc_width != width || self.enc_height != height
                    || self.nv12_texture
            },
        }
    }

    /// The next staging texture in turn that is not occupied.
    fn next_staging(&self) -> (r: Option<u32>)
        requires
            self@.wf(),
        ensures
            r == unoccupied(self@.staging, self@.staging_next, 0),
            r matches Some(staging) ==> staging < self@.staging.len(),
    {
        let count: usize = self.staging.len();
        let mut k: usize = 0;
        while k < count
            invariant
                k <= count,
                count == self.staging@.len(),
                count <= STAGING_TEXTURES,
                unoccupied(self.staging@, self.staging_next, 0) == unoccupied(
                    self.staging@,
                    self.staging_next,
                    k as nat,
                ),
            decreases count - k,
        {
            let staging: u64 = (self.staging_next as u64 + k as u64) % (count as u64);
            assert(staging == in_turn(self.staging_next, k as nat, count as nat));
            if self.staging[staging as usize].is_none() {
                return Some(staging as u32);
            }
            k += 1;
        }
        None
    }

    fn copy_picture(&mut self, job: &mut FrameJob) -> (action: FrameAction)
        requires
            old(self)@.wf(),
        ensures
            copying(old(self)@, old(job)@) == (Turn {
                delivery: final(self)@,
                job: final(job)@,
                action,
            }),
            final(self)@.staging.len() == old(self)@.staging.len(),
            final(job)@.phase != FramePhase::CreatingStaging,
    {
        match self.next_staging() {
            Some(staging) => {
                self.staging.set(staging as usize, Some(job.number));
                self.staging_next = (staging + 1) % (self.staging.len() as u32);
                job.staging = staging;
                job.phase = FramePhase::Copying;
                FrameAction::CopyToStaging { staging }
            },
            None => job.release(false),
        }
    }

    fn prepare_encoder(&mut self, job: &mut FrameJob) -> (action: FrameAction)
        ensures
            preparing(old(self)@, old(job)@) == (Turn {
                delivery: final(self)@,
                job: final(job)@,
                action,
            }),
    {
        self.encoder = false;
        self.processor = false;
        self.nv12_texture = false;
        job.phase = FramePhase::CreatingProcessor;
        let color = if self.enc_cfg.hdr10 {
            ColorSpace::Rec2020Pq
        } else {
            ColorSpace::Rec709Sdr
        };
        FrameAction::CreateProcessor { width: job.width, height: job.height, color }
    }

    fn encode_picture(&self, job: &mut FrameJob) -> (action: FrameAction)
        ensures
            encoding(self@, old(job)@) == (Turn { delivery: self@, job: final(job)@, action }),
    {
        if self.encoder {
            job.phase = FramePhase::Encoding;
            FrameAction::Encode { timestamp_ns: job.timestamp_ns }
        } else {
            job.release(false)
        }
    }

    fn convert_picture(&self, job: &mut FrameJob) -> (action: FrameAction)
        ensures
            converting(self@, old(job)@) == (Turn { delivery: self@, job: final(job)@, action }),
    {
        if self.processor {
            job.phase = FramePhase::Converting;
            FrameAction::Convert
        } else {
            self.encode_picture(job)
        }
    }

    fn give_up(&mut self, job: &mut FrameJob, failure: FrameFailure, hr: Option<i32>) -> (action:
        FrameAction)
        ensures
            giving_up(old(self)@, old(job)@, failure, hr) == (Turn {
                delivery: final(self)@,
                job: final(job)@,
                action,
            }),
    {
        self.encoder_failed = true;
        job.report(failure, hr, true)
    }

    fn count_delivered(&mut self)
        ensures
            final(self)@ == delivered(old(self)@),
    {
        self.delivered_frames = self.delivered_frames.wrapping_add(1);
    }

    fn count_dropped(&mut self)
        ensures
            final(self)@ == dropped(old(self)@),
    {
        self.dropped_frames = self.dropped_frames.wrapping_add(1);
    }

    /// Begins the job of a frame that was captured.
    pub fn begin(&mut self, frame: &CapturedFrame) -> (r: (FrameJob, FrameAction))
        requires
            old(self)@.accepts(frame.width, frame.height),
            old(self)@.wf(),
        ensures
            first_turn(old(self)@, job_of(old(self)@, *frame)) == (Turn {
                delivery: final(self)@,
                job: r.0@,
                action: r.1,
            }),
            in_step(final(self)@, r.0@),
    {
        broadcast use vstd::std_specs::hash::group_hash_axioms;

        let roi_rects: Vec<i32> = if self.enc_cfg.roi_enabled {
            edges(&frame.dirty_rects)
        } else {
            Vec::new()
        };
        let mut job = FrameJob {
            number: self.taken_frames,
            slot: frame.slot,
            width: frame.width,
            height: frame.height,
            timestamp_ns: frame.timestamp_ns,
            size_changed: frame.size_changed,
            phase: FramePhase::Done,
            staging: 0,
            row_pitch: 0,
            roi_rects,
        };
        assert(job@ == job_of(self@, *frame));
        self.taken_frames = self.taken_frames.wrapping_add(1);
        let action = match self.mode {
            DeliveryMode::Raw => {
                self.lent.insert(job.number, job.slot);
                job.phase = FramePhase::SendingRaw;
                FrameAction::SendRaw
            },
            DeliveryMode::Cpu => {
                if job.width != self.staging_width || job.height != self.staging_height {
                    self.staging.clear();
                    job.phase = FramePhase::CreatingStaging;
                    FrameAction::CreateStaging {
                        first: true,
                        desc: staging_texture(job.width, job.height),
                    }
                } else {
                    self.copy_picture(&mut job)
                }
            },
            DeliveryMode::Encoded => {
                if self.encoder_failed {
                    job.release(false)
                } else if self.enc_width != job.width || self.enc_height != job.height {
                    if self.encoder {
                        job.phase = FramePhase::StoppingEncoder;
                        FrameAction::StopEncoder
                    } else {
                        self.prepare_encoder(&mut job)
                    }
                } else {
                    self.convert_picture(&mut job)
                }
            },
        };
        (job, action)
    }

    fn staging_created(&mut self, job: &mut FrameJob) -> (action: FrameAction)
        requires
            old(job)@.phase == FramePhase::CreatingStaging,
            old(self)@.staging.len() < STAGING_TEXTURES,
        ensures
            next_turn(old(self)@, old(job)@, FrameEvent::Finished { value: 0 }) == (Turn {
                delivery: final(self)@,
                job: final(job)@,
                action,
            }),
            in_step(final(self)@, final(job)@),
    {
        self.staging.push(None);
        if self.staging.len() < STAGING_TEXTURES as usize {
            FrameAction::CreateStaging {
                first: false,
                desc: staging_texture(job.width, job.height),
            }
        } else {
            self.staging_width = job.width;
            self.staging_height = job.height;
            self.staging_next = 0;
            self.copy_picture(job)
        }
    }

    /// The staging texture of a job is not occupied any more.
    fn vacate(&mut self, job: &FrameJob)
        ensures
            final(self)@ == vacated(old(self)@, job@),
    {
        let i: usize = job.staging as usize;
        if i < self.staging.len() {
            if let Some(number) = self.staging[i] {
                if number == job.number {
                    self.staging.set(i, None);
                }
            }
        }
    }

    /// Takes a job on that reads a picture back.
    fn advance_picture(&mut self, job: &mut FrameJob, event: FrameEvent) -> (action: FrameAction)
        requires
            in_step(old(self)@, old(job)@),
            event.fits(old(job)@.phase),
            reads_back(old(job)@.phase),
        ensures
            next_turn(old(self)@, old(job)@, event) == (Turn {
                delivery: final(self)@,
                job: final(job)@,
                action,
            }),
            in_step(final(self)@, final(job)@),
    {
        let (failed, hr, pending, value): (bool, Option<i32>, bool, u32) = match event {
            FrameEvent::Failed { hr } => (true, hr, false, 0),
            FrameEvent::Pending => (false, None, true, 0),
            FrameEvent::Finished { value } => (false, None, false, value),
        };
        match job.phase {
            FramePhase::CreatingStaging => {
                if failed {
                    job.report(FrameFailure::StagingTexture, hr, true)
                } else {
                    self.staging_created(job)
                }
            },
            FramePhase::Copying => {
                job.phase = FramePhase::ReleasingEarly;
                FrameAction::ReleaseSlot { slot: job.slot }
            },
            FramePhase::ReleasingEarly => {
                job.phase = FramePhase::Polling;
                FrameAction::PollCopy { staging: job.staging }
            },
            FramePhase::Polling => {
                if failed || pending {
                    FrameAction::PollCopy { staging: job.staging }
                } else {
                    job.phase = FramePhase::Mapping;
                    FrameAction::MapStaging { staging: job.staging }
                }
            },
            FramePhase::Mapping => {
                if failed {
                    self.vacate(job);
                    job.report(FrameFailure::MapStaging, hr, false)
                } else {
                    job.row_pitch = value;
                    job.phase = FramePhase::SendingPixels;
                    let bytes: u64 = picture_bytes(value, job.height);
                    FrameAction::SendPixels { staging: job.staging, stride: value, bytes }
                }
            },
            FramePhase::SendingPixels => {
                if failed {
                    job.phase = FramePhase::Unmapping;
                    FrameAction::UnmapStaging { staging: job.staging }
                } else {
                    self.count_delivered();
                    job.end()
                }
            },
            FramePhase::Unmapping => {
                self.vacate(job);
                self.count_dropped();
                job.end()
            },
            _ => job.end(),
        }
    }

    /// Takes a job on that encodes a picture.
    fn advance_video(&mut self, job: &mut FrameJob, event: FrameEvent) -> (action: FrameAction)
        requires
            in_step(old(self)@, old(job)@),
            encodes(old(job)@.phase),
        ensures
            next_turn(old(self)@, old(job)@, event) == (Turn {
                delivery: final(self)@,
                job: final(job)@,
                action,
            }),
            in_step(final(self)@, final(job)@),
    {
        let (failed, hr): (bool, Option<i32>) = match event {
            FrameEvent::Failed { hr } => (true, hr),
            _ => (false, None),
        };
        match job.phase {
            FramePhase::StoppingEncoder => self.prepare_encoder(job),
            FramePhase::CreatingProcessor => {
                if failed {
                    self.give_up(job, FrameFailure::Processor, hr)
                } else {
                    self.processor = true;
                    job.phase = FramePhase::CreatingNv12;
                    let format: i32 = if self.enc_cfg.hdr10 {
                        FORMAT_P010
                    } else {
                        FORMAT_NV12
                    };
                    FrameAction::CreateNv12(gpu_texture(job.width, job.height, format))
                }
            },
            FramePhase::CreatingNv12 => {
                if failed {
                    self.give_up(job, FrameFailure::Nv12Texture, hr)
                } else {
                    self.nv12_texture = true;
                    job.phase = FramePhase::CreatingEncoder;
                    FrameAction::CreateEncoder
                }
            },
            FramePhase::CreatingEncoder => {
                if failed {
                    self.give_up(job, FrameFailure::Encoder, hr)
                } else {
                    job.phase = FramePhase::InitializingEncoder;
                    let mut cfg = self.enc_cfg;
                    cfg.width = job.width;
                    cfg.height = job.height;
                    FrameAction::InitializeEncoder(cfg)
                }
            },
            FramePhase::InitializingEncoder => {
                if failed {
                    self.give_up(job, FrameFailure::Encoder, hr)
                } else {
                    job.phase = FramePhase::StartingEncoder;
                    FrameAction::StartEncoder
                }
            },
            FramePhase::StartingEncoder => {
                if failed {
                    self.give_up(job, FrameFailure::Encoder, hr)
                } else {
                    self.encoder = true;
                    self.enc_width = job.width;
                    self.enc_height = job.height;
                    self.convert_picture(job)
                }
            },
            FramePhase::Converting => {
                if failed {
                    job.report(FrameFailure::Processor, hr, true)
                } else {
                    self.encode_picture(job)
                }
            },
            FramePhase::Encoding => job.release(!failed),
            _ => job.end(),
        }
    }

    /// Takes a job on after the work that it asked for.
    pub fn advance(&mut self, job: &mut FrameJob, event: FrameEvent) -> (action: FrameAction)
        requires
            in_step(old(self)@, old(job)@),
            event.fits(old(job)@.phase),
        ensures
            next_turn(old(self)@, old(job)@, event) == (Turn {
                delivery: final(self)@,
                job: final(job)@,
                action,
            }),
            in_step(final(self)@, final(job)@),
    {
        match job.phase {
            FramePhase::SendingRaw => {
                if matches!(event, FrameEvent::Failed { .. }) {
                    match self.take_lent(job.number) {
                        Some(_) => job.release(false),
                        None => {
                            self.count_dropped();
                            job.end()
                        },
                    }
                } else {
                    self.count_delivered();
                    job.end()
                }
            },
            FramePhase::Reporting { held } => {
                if held {
                    job.release(false)
                } else {
                    self.count_dropped();
                    job.end()
                }
            },
            FramePhase::Releasing { delivered } => {
                if delivered {
                    self.count_delivered();
                } else {
                    self.count_dropped();
                }
                job.end()
            },
            FramePhase::Done => job.end(),
            FramePhase::CreatingStaging
            | FramePhase::Copying
            | FramePhase::ReleasingEarly
            | FramePhase::Polling
            | FramePhase::Mapping
            | FramePhase::SendingPixels
            | FramePhase::Unmapping => self.advance_picture(job, event),
            _ => self.advance_video(job, event),
        }
    }

    fn take_lent(&mut self, number: u64) -> (slot: Option<u32>)
        ensures
            final(self)@ == old(self)@.after_release(number),
            slot == (if old(self)@.is_lent(number) {
                Some(old(self)@.lent[number])
            } else {
                None
            }),
    {
        broadcast use vstd::std_specs::hash::group_hash_axioms;

        let slot: Option<u32> = self.lent.remove(&number);
        assert(self@.lent =~= old(self)@.lent.remove(number));
        slot
    }

    /// The consumer releases a raw frame. The answer is the slot that it held, which goes
    /// back to the pool. A frame that is released already has no slot to give back.
    pub fn release_frame(&mut self, number: u64) -> (slot: Option<u32>)
        ensures
            final(self)@ == old(self)@.after_release(number),
            slot == (if old(self)@.is_lent(number) {
                Some(old(self)@.lent[number])
            } else {
                None
            }),
            slot == old(self)@.slot_of(number),
    {
        self.take_lent(number)
    }

    /// The buffer around a mapped picture was finalized. Its texture is unmapped, and is
    /// used again unless it has been replaced in the meantime.
    pub fn pixels_finalized(&mut self, number: u64) -> (r: Finalized)
        requires
            old(self)@.wf(),
        ensures
            final(self)@ == old(self)@.after_finalizer(number),
            r == ({
                let i = place_of(old(self)@.staging, number, 0);
                if i < old(self)@.staging.len() {
                    Finalized::Recycle { staging: i as u32 }
                } else {
                    Finalized::Discard
                }
            }),
            r == old(self)@.finalized(number),
    {
        let mut i: usize = 0;
        while i < self.staging.len()
            invariant
                i <= self.staging.len(),
                self@ == old(self)@,
                self@.staging == self.staging@,
                self.staging@.len() <= STAGING_TEXTURES,
                place_of(self.staging@, number, 0) == place_of(self.staging@, number, i as nat),
            decreases self.staging.len() - i,
        {
            if let Some(owner) = self.staging[i] {
                if owner == number {
                    self.staging.set(i, None);
                    return Finalized::Recycle { staging: i as u32 };
                }
            }
            i += 1;
        }
        Finalized::Discard
    }
}

/// The length of a picture in bytes.
pub(crate) fn picture_bytes(stride: u32, height: u32) -> (bytes: u64)
    ensures
        bytes == stride * height,
{
    assert(stride * height <= u64::MAX) by (nonlinear_arith);
    stride as u64 * height as u64
}

/// The report that a failure makes.
pub open spec fn failure_payload(
    failure: FrameFailure,
    hr: Option<i32>,
    text: Seq<char>,
) -> PayloadModel {
    let code = match hr {
        Some(code) => code,
        None => 0,
    };
    match failure {
        FrameFailure::StagingTexture => PayloadModel {
            component: "capture_session"@,
            hresult: code,
            message: "failed to create staging texture"@,
        },
        FrameFailure::MapStaging => PayloadModel {
            component: "capture_session"@,
            hresult: code,
            message: "Map staging texture failed"@,
        },
        FrameFailure::Nv12Texture => PayloadModel {
            component: "capture_session"@,
            hresult: code,
            message: "failed to create NV12 texture"@,
        },
        FrameFailure::Processor => PayloadModel {
            component: "video_processor"@,
            hresult: 0,
            message: text,
        },
        FrameFailure::Encoder => PayloadModel {
            component: "mf_encoder"@,
            hresult: 0,
            message: text,
        },
    }
}

/// The report that a failure makes. The text of the failed call goes into the
/// reports of the converter and of the encoder.
pub fn failure_report(failure: FrameFailure, hr: Option<i32>, text: &str) -> (p: ErrorPayload)
    ensures
        p@ == failure_payload(failure, hr, text@),
{
    let code: i32 = match hr {
        Some(code) => code,
        None => 0,
    };
    let (component, hresult, message) = match failure {
        FrameFailure::StagingTexture => (
            "capture_session",
            code,
            "failed to create staging texture",
        ),
        FrameFailure::MapStaging => ("capture_session", code, "Map staging texture failed"),
        FrameFailure::Nv12Texture => ("capture_session", code, "failed to create NV12 texture"),
        FrameFailure::Processor => ("video_processor", 0, text),
        FrameFailure::Encoder => ("mf_encoder", 0, text),
    };
    ErrorPayload { component: component.to_owned(), hresult, message: message.to_owned() }
}

} // verus!
