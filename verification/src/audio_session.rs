//! An audio session: what its options mean, what it hands to the consumer and
//! what it counts.

use vstd::prelude::*;

use crate::audio_format::AudioFormat;
use crate::bytes::{bytes_of, law_bytes_keep_words, law_words_have_four_bytes, push_words};
use crate::text::same_text;
use crate::wasapi_loopback::{
    chunk_of, content_of, default_options, first_free, law_delivered_audio_reads_back,
    law_handing_on_keeps_buffers_free, law_samples_are_handed_on, pool_after, released, AudioChunk,
    BufferModel, LoopbackMode, Packet, WasapiLoopback, WasapiLoopbackOptions,
};

verus! {

/// The options of an audio session.
#[derive(Debug)]
pub struct AudioOptionsJs {
    /// "systemLoopback" or "processLoopback".
    pub mode: String,
    pub pid: Option<u32>,
    pub include_tree: Option<bool>,
}

/// What an audio session has done so far.
#[derive(Debug, Clone, Copy, PartialEq, Eq, Structural)]
pub struct AudioStatsJs {
    pub delivered_chunks: u64,
    pub dropped_chunks: u64,
    pub discontinuities: u64,
}

/// What is wrong with the options of an audio session.
#[derive(Debug, Clone, Copy, PartialEq, Eq, Structural)]
pub enum AudioOptionError {
    PidMissing,
    UnknownMode,
}

/// A piece of audio as it is handed to the consumer.
#[derive(Debug)]
pub struct ChunkPayload {
    /// The samples, interleaved, four bytes each with the lowest byte first.
    pub data: Vec<u8>,
    pub frame_count: u32,
    pub sample_rate: u32,
    pub channels: u32,
    pub timestamp_ns: u64,
    pub silent: bool,
    pub discontinuity: bool,
}

/// An audio session.
#[derive(Debug)]
pub struct AudioSession {
    state: AudioState,
}

/// The state of an audio session.
#[derive(Debug, Clone, Copy)]
pub struct AudioState {
    pub running: bool,
    pub delivered: u64,
    pub dropped: u64,
    pub discontinuities: u64,
}

impl View for AudioSession {
    type V = AudioState;

    closed spec fn view(&self) -> AudioState {
        self.state
    }
}

impl AudioOptionError {
    /// The error in words.
    pub open spec fn text(self) -> Seq<char> {
        match self {
            AudioOptionError::PidMissing => "processLoopback requires opts.pid"@,
            AudioOptionError::UnknownMode => "mode must be 'systemLoopback' or 'processLoopback'"@,
        }
    }

    /// The error in words.
    pub fn reason(&self) -> (text: &'static str)
        ensures
            text@ == self.text(),
    {
        match self {
            AudioOptionError::PidMissing => "processLoopback requires opts.pid",
            AudioOptionError::UnknownMode => "mode must be 'systemLoopback' or 'processLoopback'",
        }
    }
}

/// What the options of a session ask for.
pub open spec fn loopback_of(opts: AudioOptionsJs) -> Result<
    WasapiLoopbackOptions,
    AudioOptionError,
> {
    if opts.mode@ == "systemLoopback"@ {
        Ok(default_options())
    } else if opts.mode@ == "processLoopback"@ {
        match opts.pid {
            Some(pid) => Ok(
                WasapiLoopbackOptions {
                    mode: LoopbackMode::ProcessTree,
                    target_pid: pid,
                    include_tree: match opts.include_tree {
                        Some(tree) => tree,
                        None => true,
                    },
                },
            ),
            None => Err(AudioOptionError::PidMissing),
        }
    } else {
        Err(AudioOptionError::UnknownMode)
    }
}

/// What the options of a session ask for.
pub fn loopback_options(opts: &AudioOptionsJs) -> (r: Result<
    WasapiLoopbackOptions,
    AudioOptionError,
>)
    ensures
        r == loopback_of(*opts),
{
    if same_text(opts.mode.as_str(), "systemLoopback") {
        return Ok(WasapiLoopbackOptions::default());
    }
    if same_text(opts.mode.as_str(), "processLoopback") {
        return match opts.pid {
            Some(pid) => Ok(
                WasapiLoopbackOptions {
                    mode: LoopbackMode::ProcessTree,
                    target_pid: pid,
                    include_tree: opts.include_tree.unwrap_or(true),
                },
            ),
            None => Err(AudioOptionError::PidMissing),
        };
    }
    Err(AudioOptionError::UnknownMode)
}

impl AudioState {
    /// The state of a new session.
    pub open spec fn fresh() -> AudioState {
        AudioState { running: false, delivered: 0, dropped: 0, discontinuities: 0 }
    }

    /// The session after a chunk was offered to the consumer.
    pub open spec fn after_chunk(self, discontinuity: bool, accepted: bool) -> AudioState {
        AudioState {
            running: self.running,
            delivered: if accepted {
                self.delivered.wrapping_add(1)
            } else {
                self.delivered
            },
            dropped: if accepted {
                self.dropped
            } else {
                self.dropped.wrapping_add(1)
            },
            discontinuities: if discontinuity {
                self.discontinuities.wrapping_add(1)
            } else {
                self.discontinuities
            },
        }
    }
}

impl AudioSession {
    /// A new session, with what it is to capture.
    pub fn new(opts: &AudioOptionsJs) -> (r: Result<
        (AudioSession, WasapiLoopbackOptions),
        AudioOptionError,
    >)
        ensures
            match loopback_of(*opts) {
                Ok(loopback) => r matches Ok((session, options)) && session@ == AudioState::fresh()
                    && options == loopback,
                Err(e) => r == Err::<(AudioSession, WasapiLoopbackOptions), AudioOptionError>(e),
            },
    {
        match loopback_options(opts) {
            Ok(loopback) => Ok(
                (
                    AudioSession {
                        state: AudioState {
                            running: false,
                            delivered: 0,
                            dropped: 0,
                            discontinuities: 0,
                        },
                    },
                    loopback,
                ),
            ),
            Err(e) => Err(e),
        }
    }

    /// Starts the session. The answer says whether the stream is to be started: it
    /// is not if the session runs already.
    pub fn start(&mut self) -> (go: bool)
        ensures
            go == !old(self)@.running,
            final(self)@ == (AudioState { running: true, ..old(self)@ }),
    {
        let ran = self.state.running;
        self.state.running = true;
        !ran
    }

    /// Stops the session. The answer says whether the stream is to be stopped: it
    /// is not if the session does not run.
    pub fn stop(&mut self) -> (go: bool)
        ensures
            go == old(self)@.running,
            final(self)@ == (AudioState { running: false, ..old(self)@ }),
    {
        let ran = self.state.running;
        self.state.running = false;
        ran
    }

    /// Is done with a chunk that was offered to the consumer, who took it or not: counts it
    /// and gives its buffer back to the stream.
    pub fn finish_chunk(&mut self, stream: &mut WasapiLoopback, chunk: AudioChunk, accepted: bool)
        ensures
            final(self)@ == old(self)@.after_chunk(chunk.discontinuity, accepted),
            final(stream)@ == old(stream)@.after_release(chunk.slot as int),
    {
        if chunk.discontinuity {
            self.state.discontinuities = self.state.discontinuities.wrapping_add(1);
        }
        if accepted {
            self.state.delivered = self.state.delivered.wrapping_add(1);
        } else {
            self.state.dropped = self.state.dropped.wrapping_add(1);
        }
        stream.release(chunk);
    }

    /// What the session has done so far.
    pub fn get_stats(&self) -> (stats: AudioStatsJs)
        ensures
            stats == (AudioStatsJs {
                delivered_chunks: self@.delivered,
                dropped_chunks: self@.dropped,
                discontinuities: self@.discontinuities,
            }),
    {
        AudioStatsJs {
            delivered_chunks: self.state.delivered,
            dropped_chunks: self.state.dropped,
            discontinuities: self.state.discontinuities,
        }
    }
}

/// A chunk as it is handed to the consumer, with the samples that stand at the
/// beginning of its buffer.
pub fn chunk_payload(chunk: &AudioChunk, buffer: &[u32]) -> (p: ChunkPayload)
    requires
        chunk.frame_count * chunk.channels <= buffer@.len(),
    ensures
        p.data@ == bytes_of(buffer@.take(chunk.frame_count * chunk.channels)),
        p.frame_count == chunk.frame_count,
        p.sample_rate == chunk.sample_rate,
        p.channels == chunk.channels,
        p.timestamp_ns == chunk.timestamp_ns,
        p.silent == chunk.silent,
        p.discontinuity == chunk.discontinuity,
{
    assert(0 <= chunk.frame_count * chunk.channels) by (nonlinear_arith)
        requires
            0 <= chunk.frame_count,
            0 <= chunk.channels,
    ;
    assert(buffer@.len() == buffer.len());
    let count: usize = chunk.frame_count as usize * chunk.channels as usize;
    let mut data: Vec<u8> = Vec::new();
    push_words(&mut data, buffer, count);
    assert(data@ =~= bytes_of(buffer@.take(count as int)));
    ChunkPayload {
        data,
        frame_count: chunk.frame_count,
        sample_rate: chunk.sample_rate,
        channels: chunk.channels,
        timestamp_ns: chunk.timestamp_ns,
        silent: chunk.silent,
        discontinuity: chunk.discontinuity,
    }
}

/// A packet that the stream took over, and how the consumer was offered what it became.
pub struct ChunkOffer {
    pub content: Seq<u32>,
    pub discontinuity: bool,
    pub accepted: bool,
}

/// The session and the pool of the stream after a packet: where there is a buffer for it, it
/// becomes a chunk, is offered, and the session is done with it.
pub open spec fn after_offer(
    session: AudioState,
    pool: Seq<BufferModel>,
    offer: ChunkOffer,
) -> (AudioState, Seq<BufferModel>) {
    let k = first_free(pool, 0);
    if k < pool.len() {
        (
            session.after_chunk(offer.discontinuity, offer.accepted),
            released(pool_after(pool, offer.content, true), k as int),
        )
    } else {
        (session, pool)
    }
}

/// The session and the pool of the stream after packets one after the other.
pub open spec fn after_offers(
    session: AudioState,
    pool: Seq<BufferModel>,
    offers: Seq<ChunkOffer>,
) -> (AudioState, Seq<BufferModel>)
    decreases offers.len(),
{
    if offers.len() == 0 {
        (session, pool)
    } else {
        let earlier = after_offers(session, pool, offers.drop_last());
        after_offer(earlier.0, earlier.1, offers.last())
    }
}

/// How many offers were accepted, or were not.
pub open spec fn offers_with(offers: Seq<ChunkOffer>, accepted: bool) -> nat
    decreases offers.len(),
{
    if offers.len() == 0 {
        0
    } else if offers.last().accepted == accepted {
        offers_with(offers.drop_last(), accepted) + 1
    } else {
        offers_with(offers.drop_last(), accepted)
    }
}

/// How many offers came after a loss.
pub open spec fn losses(offers: Seq<ChunkOffer>) -> nat
    decreases offers.len(),
{
    if offers.len() == 0 {
        0
    } else if offers.last().discontinuity {
        losses(offers.drop_last()) + 1
    } else {
        losses(offers.drop_last())
    }
}

/// Every chunk is counted exactly once, as delivered if the consumer took it and else as
/// dropped, and its buffer is given back whether it was taken or not: as long as one buffer
/// was free at first, no packet is lost, and the same buffers are free in the end.
pub proof fn law_every_chunk_is_counted_and_given_back(
    session: AudioState,
    pool: Seq<BufferModel>,
    offers: Seq<ChunkOffer>,
)
    requires
        first_free(pool, 0) < pool.len(),
        session.delivered + offers.len() <= u64::MAX,
        session.dropped + offers.len() <= u64::MAX,
        session.discontinuities + offers.len() <= u64::MAX,
    ensures
        ({
            let (end, left) = after_offers(session, pool, offers);
            &&& end.delivered == session.delivered + offers_with(offers, true)
            &&& end.dropped == session.dropped + offers_with(offers, false)
            &&& end.delivered + end.dropped == session.delivered + session.dropped + offers.len()
            &&& end.discontinuities == session.discontinuities + losses(offers)
            &&& end.running == session.running
            &&& left.len() == pool.len()
            &&& forall|j: int|
                0 <= j < pool.len() ==> (#[trigger] left[j]).in_use == pool[j].in_use
            &&& first_free(left, 0) == first_free(pool, 0)
        }),
        offers_with(offers, true) + offers_with(offers, false) == offers.len(),
        losses(offers) <= offers.len(),
    decreases offers.len(),
{
    if offers.len() > 0 {
        law_every_chunk_is_counted_and_given_back(session, pool, offers.drop_last());
        let before = after_offers(session, pool, offers.drop_last()).1;
        let content = offers.last().content;
        let after = released(pool_after(before, content, true), first_free(before, 0) as int);
        assert forall|j: int| 0 <= j < before.len() implies (#[trigger] after[j]).in_use
            == before[j].in_use by {
            law_handing_on_keeps_buffers_free(before, content, j);
        }
        lemma_same_first_free(before, after, 0);
    }
}

/// Where the same buffers are in use, the same one is the first that is not.
proof fn lemma_same_first_free(a: Seq<BufferModel>, b: Seq<BufferModel>, i: nat)
    requires
        a.len() == b.len(),
        forall|j: int| 0 <= j < a.len() ==> (#[trigger] b[j]).in_use == a[j].in_use,
    ensures
        first_free(b, i) == first_free(a, i),
    decreases a.len() - i,
{
    if i < a.len() {
        assert(b[i as int].in_use == a[i as int].in_use);
        lemma_same_first_free(a, b, i + 1);
    }
}

/// The bytes that the consumer gets are those of the samples that the stream
/// recorded.
pub proof fn law_audio_reaches_the_consumer(pool: Seq<BufferModel>, content: Seq<u32>)
    requires
        first_free(pool, 0) < pool.len(),
    ensures
        ({
            let k = first_free(pool, 0) as int;
            let buffer = pool_after(pool, content, true)[k].data;
            bytes_of(buffer.take(content.len() as int)) == bytes_of(
                content,
            )
        }),
{
    law_delivered_audio_reads_back(pool, content);
}

/// What the consumer gets of a packet that is not silent are its samples, four bytes
/// each with the lowest byte first, one for every frame and channel.
pub proof fn law_samples_reach_the_consumer(
    pool: Seq<BufferModel>,
    packet: Packet,
    format: AudioFormat,
    samples: Seq<u32>,
    chunk: AudioChunk,
    i: int,
)
    requires
        packet.flags & 2 == 0,
        samples.len() == packet.frames * format.channels,
        chunk_of(pool, packet, format, true) == Some(chunk),
        pool.len() <= usize::MAX,
        0 <= i < samples.len(),
    ensures
        ({
            let after = pool_after(pool, content_of(packet, format.channels, samples), true);
            let buffer = after[chunk.slot as int].data;
            let data = bytes_of(buffer.take(chunk.frame_count * chunk.channels));
            &&& data.len() == 4 * samples.len()
            &&& samples[i] == data[4 * i] + data[4 * i + 1] * 0x100 + data[4 * i + 2] * 0x1_0000
                + data[4 * i + 3] * 0x100_0000
        }),
{
    law_samples_are_handed_on(pool, packet, format, samples, chunk);
    let after = pool_after(pool, content_of(packet, format.channels, samples), true);
    let words = after[chunk.slot as int].data.take(chunk.frame_count * chunk.channels);
    law_words_have_four_bytes(words);
    law_bytes_keep_words(words, i);
}

/// The system is captured where "systemLoopback" is asked for, and the named process
/// where "processLoopback" is, with its children unless they are declined; that needs
/// a process, and any other mode is refused.
pub proof fn law_options_say_what_is_heard(opts: AudioOptionsJs)
    ensures
        ({
            let r = loopback_of(opts);
            let system = opts.mode@ == "systemLoopback"@;
            let process = opts.mode@ == "processLoopback"@;
            &&& system ==> (r matches Ok(o) && o.mode == LoopbackMode::SystemDefault)
            &&& process && opts.pid is None ==> r == Err::<WasapiLoopbackOptions, AudioOptionError>(
                AudioOptionError::PidMissing,
            )
            &&& process ==> (opts.pid matches Some(pid) ==> {
                &&& r matches Ok(o)
                &&& o.mode == LoopbackMode::ProcessTree
                &&& o.target_pid == pid
                &&& o.include_tree <==> opts.include_tree != Some(false)
            })
            &&& !system && !process ==> r == Err::<WasapiLoopbackOptions, AudioOptionError>(
                AudioOptionError::UnknownMode,
            )
        }),
{
    reveal_strlit("systemLoopback");
    reveal_strlit("processLoopback");
    assert("systemLoopback"@[0] != "processLoopback"@[0]);
}

/// A chunk counts once: as delivered or as dropped, and as a loss if it came after one.
/// A new session has counted nothing and does not run.
pub proof fn law_chunks_count_once(session: AudioState, discontinuity: bool, accepted: bool)
    requires
        session.delivered < u64::MAX,
        session.dropped < u64::MAX,
        session.discontinuities < u64::MAX,
    ensures
        ({
            let after = session.after_chunk(discontinuity, accepted);
            &&& after.running == session.running
            &&& accepted ==> after.delivered == session.delivered + 1 && after.dropped
                == session.dropped
            &&& !accepted ==> after.delivered == session.delivered && after.dropped
                == session.dropped + 1
            &&& discontinuity ==> after.discontinuities == session.discontinuities + 1
            &&& !discontinuity ==> after.discontinuities == session.discontinuities
        }),
        !AudioState::fresh().running,
        AudioState::fresh().delivered == 0,
        AudioState::fresh().dropped == 0,
        AudioState::fresh().discontinuities == 0,
{
}

} // verus!
