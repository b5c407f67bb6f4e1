//! What an encoder is asked to do, and the media types and tuning that follow
//! from it.

use vstd::prelude::*;

use crate::error::{ErrorModel, WincapError, WincapResult};

verus! {

/// A codec that hardware encoders offer.
#[derive(Clone, Copy, PartialEq, Eq, Debug, Structural)]
pub enum VideoCodec {
    H264,
    HEVC,
    AV1,
}

/// What to encode, and how.
#[derive(Clone, Copy, PartialEq, Eq, Debug, Structural)]
pub struct EncoderConfig {
    pub codec: VideoCodec,
    pub width: u32,
    pub height: u32,
    pub fps: u32,
    pub bitrate_bps: u32,
    pub keyframe_interval_ms: u32,
    pub hdr10: bool,
    pub ltr_count: u32,
    pub intra_refresh: bool,
    pub intra_refresh_period: u32,
    pub roi_enabled: bool,
}

/// The configuration that nothing was asked of.
pub open spec fn default_config() -> EncoderConfig {
    EncoderConfig {
        codec: VideoCodec::H264,
        width: 0,
        height: 0,
        fps: 60,
        bitrate_bps: 6_000_000,
        keyframe_interval_ms: 2000,
        hdr10: false,
        ltr_count: 0,
        intra_refresh: false,
        intra_refresh_period: 60,
        roi_enabled: false,
    }
}

impl Default for EncoderConfig {
    fn default() -> (cfg: Self)
        ensures
            cfg == default_config(),
    {
        EncoderConfig {
            codec: VideoCodec::H264,
            width: 0,
            height: 0,
            fps: 60,
            bitrate_bps: 6_000_000,
            keyframe_interval_ms: 2000,
            hdr10: false,
            ltr_count: 0,
            intra_refresh: false,
            intra_refresh_period: 60,
            roi_enabled: false,
        }
    }
}

/// The major type of every media type here: video.
pub const VIDEO_MAJOR_TYPE: u128 = 0x73646976_0000_0010_8000_00aa00389b71;

/// The subtype of H.264 video.
pub const SUBTYPE_H264: u128 = 0x34363248_0000_0010_8000_00aa00389b71;

/// The subtype of HEVC video.
pub const SUBTYPE_HEVC: u128 = 0x43564548_0000_0010_8000_00aa00389b71;

/// The subtype of AV1 video.
pub const SUBTYPE_AV1: u128 = 0x31305641_0000_0010_8000_00aa00389b71;

/// The subtype of 8-bit 4:2:0 pictures.
pub const SUBTYPE_NV12: u128 = 0x3231564e_0000_0010_8000_00aa00389b71;

/// The subtype of 10-bit 4:2:0 pictures.
pub const SUBTYPE_P010: u128 = 0x30313050_0000_0010_8000_00aa00389b71;

/// Progressive pictures.
pub const INTERLACE_PROGRESSIVE: u32 = 2;

/// The high profile of H.264.
pub const PROFILE_H264_HIGH: u32 = 100;

/// The 8-bit main profile of HEVC.
pub const PROFILE_HEVC_MAIN: u32 = 1;

/// The 10-bit main profile of HEVC.
pub const PROFILE_HEVC_MAIN10: u32 = 2;

/// BT.2020 primaries.
pub const PRIMARIES_BT2020: u32 = 9;

/// The PQ transfer function (SMPTE ST 2084).
pub const TRANSFER_PQ: u32 = 15;

/// The 10-bit BT.2020 matrix.
pub const MATRIX_BT2020_10: u32 = 4;

/// The studio range, 16 to 235.
pub const RANGE_16_235: u32 = 2;

/// Variable bit rate with low delay.
pub const RATE_CONTROL_LOW_DELAY_VBR: u32 = 4;

/// The attributes of a media type that are set here.
#[derive(Clone, Copy, PartialEq, Eq, Debug, Structural)]
pub enum MediaKey {
    MajorType,
    Subtype,
    AvgBitrate,
    FrameSize,
    FrameRate,
    PixelAspectRatio,
    InterlaceMode,
    Profile,
    VideoPrimaries,
    TransferFunction,
    YuvMatrix,
    NominalRange,
}

/// A value of a media-type attribute.
#[derive(Clone, Copy, PartialEq, Eq, Debug, Structural)]
pub enum MediaValue {
    Guid(u128),
    U32(u32),
    U64(u64),
}

/// One attribute of a media type.
#[derive(Clone, Copy, PartialEq, Eq, Debug, Structural)]
pub struct MediaAttribute {
    pub key: MediaKey,
    pub value: MediaValue,
}

/// The codec settings that are tuned here.
#[derive(Clone, Copy, PartialEq, Eq, Debug, Structural)]
pub enum CodecKey {
    RateControlMode,
    MeanBitRate,
    BPictureCount,
    GopSize,
    LowLatencyMode,
    RealTime,
    CabacEnable,
    LtrBufferControl,
    IntraRefresh,
    RoiEnabled,
    NumWorkerThreads,
}

/// A value of a codec setting.
#[derive(Clone, Copy, PartialEq, Eq, Debug, Structural)]
pub enum CodecValue {
    U32(u32),
    Bool(bool),
}

/// One codec setting.
#[derive(Clone, Copy, PartialEq, Eq, Debug, Structural)]
pub struct CodecSetting {
    pub key: CodecKey,
    pub value: CodecValue,
}

/// Everything that an encoder is set up with, in the order in which it is set.
#[derive(Debug)]
pub struct EncoderPlan {
    pub subtype: u128,
    pub output_type: Vec<MediaAttribute>,
    pub input_type: Vec<MediaAttribute>,
    pub tuning: Vec<CodecSetting>,
}

/// The subtype of the encoded video.
pub open spec fn codec_subtype(codec: VideoCodec) -> u128 {
    match codec {
        VideoCodec::H264 => SUBTYPE_H264,
        VideoCodec::HEVC => SUBTYPE_HEVC,
        VideoCodec::AV1 => SUBTYPE_AV1,
    }
}

/// Two 32-bit numbers as the halves of a 64-bit one.
pub open spec fn packed(high: u32, low: u32) -> u64 {
    (high * 0x1_0000_0000 + low) as u64
}

/// Packs two 32-bit numbers, the first in the upper half.
pub fn pack_2u32(high: u32, low: u32) -> (v: u64)
    ensures
        v == packed(high, low),
        v == high * 0x1_0000_0000 + low,
{
    let v: u64 = ((high as u64) << 32) | (low as u64);
    assert(v == high * 0x1_0000_0000 + low) by (bit_vector)
        requires
            v == ((high as u64) << 32) | (low as u64),
    ;
    v
}

/// An attribute with a 32-bit value.
pub open spec fn attr32(key: MediaKey, v: u32) -> MediaAttribute {
    MediaAttribute { key, value: MediaValue::U32(v) }
}

/// An attribute with a pair of 32-bit values.
pub open spec fn attr_pair(key: MediaKey, high: u32, low: u32) -> MediaAttribute {
    MediaAttribute { key, value: MediaValue::U64(packed(high, low)) }
}

/// An attribute with an identifier as its value.
pub open spec fn attr_guid(key: MediaKey, v: u128) -> MediaAttribute {
    MediaAttribute { key, value: MediaValue::Guid(v) }
}

/// The profile that the output type names, where it names one.
pub open spec fn profile_part(cfg: EncoderConfig) -> Seq<MediaAttribute> {
    match cfg.codec {
        VideoCodec::H264 => seq![attr32(MediaKey::Profile, PROFILE_H264_HIGH)],
        VideoCodec::HEVC => seq![
            attr32(
                MediaKey::Profile,
                if cfg.hdr10 {
                    PROFILE_HEVC_MAIN10
                } else {
                    PROFILE_HEVC_MAIN
                },
            ),
        ],
        VideoCodec::AV1 => Seq::empty(),
    }
}

/// The colour description of HDR10 video.
pub open spec fn hdr_part(cfg: EncoderConfig) -> Seq<MediaAttribute> {
    if cfg.hdr10 {
        seq![
            attr32(MediaKey::VideoPrimaries, PRIMARIES_BT2020),
            attr32(MediaKey::TransferFunction, TRANSFER_PQ),
            attr32(MediaKey::YuvMatrix, MATRIX_BT2020_10),
            attr32(MediaKey::NominalRange, RANGE_16_235),
        ]
    } else {
        Seq::empty()
    }
}

/// The media type of the encoded video.
pub open spec fn output_type_of(cfg: EncoderConfig) -> Seq<MediaAttribute> {
    seq![
        attr_guid(MediaKey::MajorType, VIDEO_MAJOR_TYPE),
        attr_guid(MediaKey::Subtype, codec_subtype(cfg.codec)),
        attr32(MediaKey::AvgBitrate, cfg.bitrate_bps),
        attr_pair(MediaKey::FrameSize, cfg.width, cfg.height),
        attr_pair(MediaKey::FrameRate, cfg.fps, 1),
        attr_pair(MediaKey::PixelAspectRatio, 1, 1),
        attr32(MediaKey::InterlaceMode, INTERLACE_PROGRESSIVE),
    ] + profile_part(cfg) + hdr_part(cfg)
}

/// The media type of the pictures to encode: 10-bit for HDR10, else 8-bit.
pub open spec fn input_type_of(cfg: EncoderConfig) -> Seq<MediaAttribute> {
    seq![
        attr_guid(MediaKey::MajorType, VIDEO_MAJOR_TYPE),
        attr_guid(
            MediaKey::Subtype,
            if cfg.hdr10 {
                SUBTYPE_P010
            } else {
                SUBTYPE_NV12
            },
        ),
        attr_pair(MediaKey::FrameSize, cfg.width, cfg.height),
        attr_pair(MediaKey::FrameRate, cfg.fps, 1),
        attr_pair(MediaKey::PixelAspectRatio, 1, 1),
        attr32(MediaKey::InterlaceMode, INTERLACE_PROGRESSIVE),
    ]
}

/// A setting with a 32-bit value.
pub open spec fn set32(key: CodecKey, v: u32) -> CodecSetting {
    CodecSetting { key, value: CodecValue::U32(v) }
}

/// A setting that is switched on.
pub open spec fn set_on(key: CodecKey) -> CodecSetting {
    CodecSetting { key, value: CodecValue::Bool(true) }
}

/// The frames from one key frame to the next: the key-frame interval at the
/// frame rate, and at least one. The product of the two is taken in 32 bits.
pub open spec fn gop_frames(fps: u32, interval_ms: u32) -> int {
    let frames = (fps * interval_ms) % 0x1_0000_0000 / 1000;
    if frames < 1 {
        1
    } else {
        frames
    }
}

/// The long-term reference control word: trust mode one, and the number of
/// reference buffers in the lower half.
pub open spec fn ltr_word(count: u32) -> u32 {
    (0x1_0000 + count % 0x1_0000) as u32
}

/// The tuning of the codec.
pub open spec fn tuning_of(cfg: EncoderConfig) -> Seq<CodecSetting> {
    seq![
        set32(CodecKey::RateControlMode, RATE_CONTROL_LOW_DELAY_VBR),
        set32(CodecKey::MeanBitRate, cfg.bitrate_bps),
        set32(CodecKey::BPictureCount, 0),
        set32(CodecKey::GopSize, gop_frames(cfg.fps, cfg.keyframe_interval_ms) as u32),
        set_on(CodecKey::LowLatencyMode),
        set_on(CodecKey::RealTime),
    ] + (if cfg.codec == VideoCodec::H264 {
        seq![set_on(CodecKey::CabacEnable)]
    } else {
        Seq::empty()
    }) + (if cfg.ltr_count > 0 {
        seq![set32(CodecKey::LtrBufferControl, ltr_word(cfg.ltr_count))]
    } else {
        Seq::empty()
    }) + (if cfg.intra_refresh {
        seq![set32(CodecKey::IntraRefresh, cfg.intra_refresh_period)]
    } else {
        Seq::empty()
    }) + (if cfg.roi_enabled {
        seq![set_on(CodecKey::RoiEnabled)]
    } else {
        Seq::empty()
    }) + seq![set32(CodecKey::NumWorkerThreads, 0)]
}

fn media32(key: MediaKey, v: u32) -> (a: MediaAttribute)
    ensures
        a == attr32(key, v),
{
    MediaAttribute { key, value: MediaValue::U32(v) }
}

fn media_pair(key: MediaKey, high: u32, low: u32) -> (a: MediaAttribute)
    ensures
        a == attr_pair(key, high, low),
{
    MediaAttribute { key, value: MediaValue::U64(pack_2u32(high, low)) }
}

fn media_guid(key: MediaKey, v: u128) -> (a: MediaAttribute)
    ensures
        a == attr_guid(key, v),
{
    MediaAttribute { key, value: MediaValue::Guid(v) }
}

fn codec32(key: CodecKey, v: u32) -> (s: CodecSetting)
    ensures
        s == set32(key, v),
{
    CodecSetting { key, value: CodecValue::U32(v) }
}

fn codec_on(key: CodecKey) -> (s: CodecSetting)
    ensures
        s == set_on(key),
{
    CodecSetting { key, value: CodecValue::Bool(true) }
}

/// The subtype of the encoded video.
pub fn subtype_of(codec: VideoCodec) -> (v: u128)
    ensures
        v == codec_subtype(codec),
{
    match codec {
        VideoCodec::H264 => SUBTYPE_H264,
        VideoCodec::HEVC => SUBTYPE_HEVC,
        VideoCodec::AV1 => SUBTYPE_AV1,
    }
}

fn output_type(cfg: &EncoderConfig) -> (attrs: Vec<MediaAttribute>)
    ensures
        attrs@ == output_type_of(*cfg),
{
    let mut attrs: Vec<MediaAttribute> = Vec::new();
    attrs.push(media_guid(MediaKey::MajorType, VIDEO_MAJOR_TYPE));
    attrs.push(media_guid(MediaKey::Subtype, subtype_of(cfg.codec)));
    attrs.push(media32(MediaKey::AvgBitrate, cfg.bitrate_bps));
    attrs.push(media_pair(MediaKey::FrameSize, cfg.width, cfg.height));
    attrs.push(media_pair(MediaKey::FrameRate, cfg.fps, 1));
    attrs.push(media_pair(MediaKey::PixelAspectRatio, 1, 1));
    attrs.push(media32(MediaKey::InterlaceMode, INTERLACE_PROGRESSIVE));
    if cfg.codec == VideoCodec::H264 {
        attrs.push(media32(MediaKey::Profile, PROFILE_H264_HIGH));
    } else if cfg.codec == VideoCodec::HEVC {
        let profile: u32 = if cfg.hdr10 {
            PROFILE_HEVC_MAIN10
        } else {
            PROFILE_HEVC_MAIN
        };
        attrs.push(media32(MediaKey::Profile, profile));
    }
    if cfg.hdr10 {
        attrs.push(media32(MediaKey::VideoPrimaries, PRIMARIES_BT2020));
        attrs.push(media32(MediaKey::TransferFunction, TRANSFER_PQ));
        attrs.push(media32(MediaKey::YuvMatrix, MATRIX_BT2020_10));
        attrs.push(media32(MediaKey::NominalRange, RANGE_16_235));
    }
    assert(attrs@ =~= output_type_of(*cfg));
    attrs
}

fn input_type(cfg: &EncoderConfig) -> (attrs: Vec<MediaAttribute>)
    ensures
        attrs@ == input_type_of(*cfg),
{
    let subtype: u128 = if cfg.hdr10 {
        SUBTYPE_P010
    } else {
        SUBTYPE_NV12
    };
    let mut attrs: Vec<MediaAttribute> = Vec::new();
    attrs.push(media_guid(MediaKey::MajorType, VIDEO_MAJOR_TYPE));
    attrs.push(media_guid(MediaKey::Subtype, subtype));
    attrs.push(media_pair(MediaKey::FrameSize, cfg.width, cfg.height));
    attrs.push(media_pair(MediaKey::FrameRate, cfg.fps, 1));
    attrs.push(media_pair(MediaKey::PixelAspectRatio, 1, 1));
    attrs.push(media32(MediaKey::InterlaceMode, INTERLACE_PROGRESSIVE));
    assert(attrs@ =~= input_type_of(*cfg));
    attrs
}

/// The frames from one key frame to the next.
pub fn gop_size(fps: u32, keyframe_interval_ms: u32) -> (frames: u32)
    ensures
        frames == gop_frames(fps, keyframe_interval_ms),
{
    let frames: u32 = fps.wrapping_mul(keyframe_interval_ms) / 1000;
    if frames < 1 {
        1
    } else {
        frames
    }
}

/// The long-term reference control word.
pub fn ltr_pack(count: u32) -> (word: u32)
    ensures
        word == ltr_word(count),
{
    let word: u32 = (0x0001u32 << 16) | (count & 0xFFFF);
    assert(word == 0x1_0000 + count % 0x1_0000) by (bit_vector)
        requires
            word == (0x0001u32 << 16) | (count & 0xFFFF),
    ;
    word
}

fn tuning(cfg: &EncoderConfig) -> (settings: Vec<CodecSetting>)
    ensures
        settings@ == tuning_of(*cfg),
{
    let mut settings: Vec<CodecSetting> = Vec::new();
    settings.push(codec32(CodecKey::RateControlMode, RATE_CONTROL_LOW_DELAY_VBR));
    settings.push(codec32(CodecKey::MeanBitRate, cfg.bitrate_bps));
    settings.push(codec32(CodecKey::BPictureCount, 0));
    settings.push(codec32(CodecKey::GopSize, gop_size(cfg.fps, cfg.keyframe_interval_ms)));
    settings.push(codec_on(CodecKey::LowLatencyMode));
    settings.push(codec_on(CodecKey::RealTime));
    if cfg.codec == VideoCodec::H264 {
        settings.push(codec_on(CodecKey::CabacEnable));
    }
    if cfg.ltr_count > 0 {
        settings.push(codec32(CodecKey::LtrBufferControl, ltr_pack(cfg.ltr_count)));
    }
    if cfg.intra_refresh {
        settings.push(codec32(CodecKey::IntraRefresh, cfg.intra_refresh_period));
    }
    if cfg.roi_enabled {
        settings.push(codec_on(CodecKey::RoiEnabled));
    }
    settings.push(codec32(CodecKey::NumWorkerThreads, 0));
    assert(settings@ =~= tuning_of(*cfg));
    settings
}

/// Whether a plan is the one for a configuration.
pub open spec fn is_plan_of(plan: EncoderPlan, cfg: EncoderConfig) -> bool {
    &&& plan.subtype == codec_subtype(cfg.codec)
    &&& plan.output_type@ == output_type_of(cfg)
    &&& plan.input_type@ == input_type_of(cfg)
    &&& plan.tuning@ == tuning_of(cfg)
}

/// Whether a configuration asks for something that no codec does: ten bits in
/// H.264.
pub open spec fn unencodable(cfg: EncoderConfig) -> bool {
    cfg.hdr10 && cfg.codec == VideoCodec::H264
}

/// Works out what an encoder is set up with.
pub fn plan_encoder(cfg: &EncoderConfig) -> (r: WincapResult<EncoderPlan>)
    ensures
        match r {
            Ok(plan) => !unencodable(*cfg) && is_plan_of(plan, *cfg),
            Err(e) => unencodable(*cfg) && e@ == (ErrorModel::General {
                component: "mf_encoder"@,
                message: "HDR10 requires HEVC or AV1 (no 10-bit H.264)"@,
            }),
        },
{
    if cfg.hdr10 && cfg.codec == VideoCodec::H264 {
        return Err(
            WincapError::general("mf_encoder", "HDR10 requires HEVC or AV1 (no 10-bit H.264)"),
        );
    }
    Ok(
        EncoderPlan {
            subtype: subtype_of(cfg.codec),
            output_type: output_type(cfg),
            input_type: input_type(cfg),
            tuning: tuning(cfg),
        },
    )
}

/// The halves of a packed number can be read back.
pub proof fn law_packing_keeps_both_halves(high: u32, low: u32)
    ensures
        packed(high, low) / 0x1_0000_0000 == high,
        packed(high, low) % 0x1_0000_0000 == low,
{
}

/// Every encoder is tuned for low latency: variable bit rate with low delay, no
/// B pictures, the low-latency mode and the real-time mode on.
pub proof fn law_tuning_is_low_latency(cfg: EncoderConfig)
    ensures
        tuning_of(cfg).contains(set32(CodecKey::RateControlMode, RATE_CONTROL_LOW_DELAY_VBR)),
        tuning_of(cfg).contains(set32(CodecKey::BPictureCount, 0)),
        tuning_of(cfg).contains(set_on(CodecKey::LowLatencyMode)),
        tuning_of(cfg).contains(set_on(CodecKey::RealTime)),
{
    let t = tuning_of(cfg);
    assert(t[0] == set32(CodecKey::RateControlMode, RATE_CONTROL_LOW_DELAY_VBR));
    assert(t[2] == set32(CodecKey::BPictureCount, 0));
    assert(t[4] == set_on(CodecKey::LowLatencyMode));
    assert(t[5] == set_on(CodecKey::RealTime));
}

/// What goes into an encoder has the size and rate of what comes out of it.
pub proof fn law_input_matches_output(cfg: EncoderConfig)
    ensures
        output_type_of(cfg).contains(attr_pair(MediaKey::FrameSize, cfg.width, cfg.height)),
        input_type_of(cfg).contains(attr_pair(MediaKey::FrameSize, cfg.width, cfg.height)),
        output_type_of(cfg).contains(attr_pair(MediaKey::FrameRate, cfg.fps, 1)),
        input_type_of(cfg).contains(attr_pair(MediaKey::FrameRate, cfg.fps, 1)),
{
    let o = output_type_of(cfg);
    let i = input_type_of(cfg);
    assert(o[3] == attr_pair(MediaKey::FrameSize, cfg.width, cfg.height));
    assert(i[2] == attr_pair(MediaKey::FrameSize, cfg.width, cfg.height));
    assert(o[4] == attr_pair(MediaKey::FrameRate, cfg.fps, 1));
    assert(i[3] == attr_pair(MediaKey::FrameRate, cfg.fps, 1));
}

/// Long-term references are set up exactly if some are asked for, intra refresh
/// exactly if it is asked for, with its period, and regions of interest exactly if
/// they are enabled.
pub proof fn law_tuning_follows_the_options(cfg: EncoderConfig)
    ensures
        cfg.ltr_count > 0 <==> exists|i: int|
            0 <= i < tuning_of(cfg).len() && (#[trigger] tuning_of(cfg)[i]).key
                == CodecKey::LtrBufferControl,
        cfg.intra_refresh <==> exists|i: int|
            0 <= i < tuning_of(cfg).len() && (#[trigger] tuning_of(cfg)[i]).key
                == CodecKey::IntraRefresh,
        cfg.intra_refresh <==> tuning_of(cfg).contains(
            set32(CodecKey::IntraRefresh, cfg.intra_refresh_period),
        ),
        cfg.roi_enabled <==> tuning_of(cfg).contains(set_on(CodecKey::RoiEnabled)),
{
    let t = tuning_of(cfg);
    let ltr: int = if cfg.codec == VideoCodec::H264 {
        7
    } else {
        6
    };
    let refresh = if cfg.ltr_count > 0 {
        ltr + 1
    } else {
        ltr
    };
    let roi = if cfg.intra_refresh {
        refresh + 1
    } else {
        refresh
    };
    if cfg.ltr_count > 0 {
        assert(t[ltr].key == CodecKey::LtrBufferControl);
    }
    if cfg.intra_refresh {
        assert(t[refresh] == set32(CodecKey::IntraRefresh, cfg.intra_refresh_period));
    }
    if cfg.roi_enabled {
        assert(t[roi] == set_on(CodecKey::RoiEnabled));
    }
}

/// Whether a media type gives an attribute one value and no other.
pub open spec fn says(attrs: Seq<MediaAttribute>, key: MediaKey, value: MediaValue) -> bool {
    &&& exists|i: int|
        0 <= i < attrs.len() && (#[trigger] attrs[i]).key == key && attrs[i].value == value
    &&& forall|i: int|
        0 <= i < attrs.len() && (#[trigger] attrs[i]).key == key ==> attrs[i].value == value
}

/// Whether a media type leaves an attribute out.
pub open spec fn leaves_out(attrs: Seq<MediaAttribute>, key: MediaKey) -> bool {
    forall|i: int| 0 <= i < attrs.len() ==> (#[trigger] attrs[i]).key != key
}

/// Whether a tuning gives a setting one value and no other.
pub open spec fn tunes(settings: Seq<CodecSetting>, key: CodecKey, value: CodecValue) -> bool {
    &&& exists|i: int|
        0 <= i < settings.len() && (#[trigger] settings[i]).key == key && settings[i].value == value
    &&& forall|i: int|
        0 <= i < settings.len() && (#[trigger] settings[i]).key == key ==> settings[i].value
            == value
}

/// Whether a tuning leaves a setting alone.
pub open spec fn leaves_alone(settings: Seq<CodecSetting>, key: CodecKey) -> bool {
    forall|i: int| 0 <= i < settings.len() ==> (#[trigger] settings[i]).key != key
}

/// The encoded video is progressive video of the asked codec (its four-character
/// code leads the subtype), bit rate, size and rate, with square pixels. H.264 has
/// the high profile and HEVC the main one, of ten bits for HDR10; of AV1 no profile
/// is said.
pub proof fn law_output_is_what_was_asked(plan: EncoderPlan, cfg: EncoderConfig)
    requires
        is_plan_of(plan, cfg),
    ensures
        ({
            let out = plan.output_type@;
            &&& plan.subtype == (match cfg.codec {
                VideoCodec::H264 => 0x34363248_0000_0010_8000_00aa00389b71u128,
                VideoCodec::HEVC => 0x43564548_0000_0010_8000_00aa00389b71u128,
                VideoCodec::AV1 => 0x31305641_0000_0010_8000_00aa00389b71u128,
            })
            &&& says(
                out,
                MediaKey::MajorType,
                MediaValue::Guid(0x73646976_0000_0010_8000_00aa00389b71),
            )
            &&& says(out, MediaKey::Subtype, MediaValue::Guid(plan.subtype))
            &&& says(out, MediaKey::AvgBitrate, MediaValue::U32(cfg.bitrate_bps))
            &&& says(
                out,
                MediaKey::FrameSize,
                MediaValue::U64((cfg.width * 0x1_0000_0000 + cfg.height) as u64),
            )
            &&& says(
                out,
                MediaKey::FrameRate,
                MediaValue::U64((cfg.fps * 0x1_0000_0000 + 1) as u64),
            )
            &&& says(out, MediaKey::PixelAspectRatio, MediaValue::U64(0x1_0000_0001))
            &&& says(out, MediaKey::InterlaceMode, MediaValue::U32(2))
            &&& cfg.codec == VideoCodec::H264 ==> says(
                out,
                MediaKey::Profile,
                MediaValue::U32(100),
            )
            &&& cfg.codec == VideoCodec::HEVC && cfg.hdr10 ==> says(
                out,
                MediaKey::Profile,
                MediaValue::U32(2),
            )
            &&& cfg.codec == VideoCodec::HEVC && !cfg.hdr10 ==> says(
                out,
                MediaKey::Profile,
                MediaValue::U32(1),
            )
            &&& cfg.codec == VideoCodec::AV1 ==> leaves_out(out, MediaKey::Profile)
        }),
{
    let out = plan.output_type@;
    assert(out[0].key == MediaKey::MajorType);
    assert(out[1].key == MediaKey::Subtype);
    assert(out[2].key == MediaKey::AvgBitrate);
    assert(out[3].key == MediaKey::FrameSize);
    assert(out[4].key == MediaKey::FrameRate);
    assert(out[5].key == MediaKey::PixelAspectRatio);
    assert(out[6].key == MediaKey::InterlaceMode);
    if cfg.codec != VideoCodec::AV1 {
        assert(out[7].key == MediaKey::Profile);
    }
}

/// The colours are described exactly for HDR10: BT.2020 primaries, the PQ curve, the
/// 10-bit BT.2020 matrix and the studio range.
pub proof fn law_colours_are_described_for_hdr(plan: EncoderPlan, cfg: EncoderConfig)
    requires
        is_plan_of(plan, cfg),
    ensures
        cfg.hdr10 ==> {
            &&& says(plan.output_type@, MediaKey::VideoPrimaries, MediaValue::U32(9))
            &&& says(plan.output_type@, MediaKey::TransferFunction, MediaValue::U32(15))
            &&& says(plan.output_type@, MediaKey::YuvMatrix, MediaValue::U32(4))
            &&& says(plan.output_type@, MediaKey::NominalRange, MediaValue::U32(2))
        },
        !cfg.hdr10 ==> {
            &&& leaves_out(plan.output_type@, MediaKey::VideoPrimaries)
            &&& leaves_out(plan.output_type@, MediaKey::TransferFunction)
            &&& leaves_out(plan.output_type@, MediaKey::YuvMatrix)
            &&& leaves_out(plan.output_type@, MediaKey::NominalRange)
        },
{
    let out = plan.output_type@;
    if cfg.hdr10 {
        let k: int = if cfg.codec == VideoCodec::AV1 {
            7
        } else {
            8
        };
        assert(out[k].key == MediaKey::VideoPrimaries);
        assert(out[k + 1].key == MediaKey::TransferFunction);
        assert(out[k + 2].key == MediaKey::YuvMatrix);
        assert(out[k + 3].key == MediaKey::NominalRange);
    }
}

/// The pictures to encode are progressive ones of the asked size and rate, with
/// square pixels, in P010 for HDR10 and in NV12 otherwise.
pub proof fn law_input_is_what_was_asked(plan: EncoderPlan, cfg: EncoderConfig)
    requires
        is_plan_of(plan, cfg),
    ensures
        ({
            let input = plan.input_type@;
            &&& says(
                input,
                MediaKey::MajorType,
                MediaValue::Guid(0x73646976_0000_0010_8000_00aa00389b71),
            )
            &&& cfg.hdr10 ==> says(
                input,
                MediaKey::Subtype,
                MediaValue::Guid(0x30313050_0000_0010_8000_00aa00389b71),
            )
            &&& !cfg.hdr10 ==> says(
                input,
                MediaKey::Subtype,
                MediaValue::Guid(0x3231564e_0000_0010_8000_00aa00389b71),
            )
            &&& says(
                input,
                MediaKey::FrameSize,
                MediaValue::U64((cfg.width * 0x1_0000_0000 + cfg.height) as u64),
            )
            &&& says(
                input,
                MediaKey::FrameRate,
                MediaValue::U64((cfg.fps * 0x1_0000_0000 + 1) as u64),
            )
            &&& says(input, MediaKey::PixelAspectRatio, MediaValue::U64(0x1_0000_0001))
            &&& says(input, MediaKey::InterlaceMode, MediaValue::U32(2))
        }),
{
    let input = plan.input_type@;
    assert(input[0].key == MediaKey::MajorType);
    assert(input[1].key == MediaKey::Subtype);
    assert(input[2].key == MediaKey::FrameSize);
    assert(input[3].key == MediaKey::FrameRate);
    assert(input[4].key == MediaKey::PixelAspectRatio);
    assert(input[5].key == MediaKey::InterlaceMode);
}

/// The codec is tuned to the asked bit rate, to variable bit rate with low delay, to
/// no B pictures, to low latency and real time, and to the default number of worker
/// threads. The arithmetic coder is switched on for H.264 alone.
pub proof fn law_tuning_is_what_was_asked(plan: EncoderPlan, cfg: EncoderConfig)
    requires
        is_plan_of(plan, cfg),
    ensures
        ({
            let t = plan.tuning@;
            &&& tunes(t, CodecKey::RateControlMode, CodecValue::U32(4))
            &&& tunes(t, CodecKey::MeanBitRate, CodecValue::U32(cfg.bitrate_bps))
            &&& tunes(t, CodecKey::BPictureCount, CodecValue::U32(0))
            &&& tunes(t, CodecKey::LowLatencyMode, CodecValue::Bool(true))
            &&& tunes(t, CodecKey::RealTime, CodecValue::Bool(true))
            &&& tunes(t, CodecKey::NumWorkerThreads, CodecValue::U32(0))
            &&& cfg.codec == VideoCodec::H264 ==> tunes(
                t,
                CodecKey::CabacEnable,
                CodecValue::Bool(true),
            )
            &&& cfg.codec != VideoCodec::H264 ==> leaves_alone(t, CodecKey::CabacEnable)
        }),
{
    let t = plan.tuning@;
    assert(t[0].key == CodecKey::RateControlMode);
    assert(t[1].key == CodecKey::MeanBitRate);
    assert(t[2].key == CodecKey::BPictureCount);
    assert(t[4].key == CodecKey::LowLatencyMode);
    assert(t[5].key == CodecKey::RealTime);
    assert(t[t.len() - 1].key == CodecKey::NumWorkerThreads);
    if cfg.codec == VideoCodec::H264 {
        assert(t[6].key == CodecKey::CabacEnable);
    }
}

/// What was not asked for is left alone. The long-term reference word holds trust
/// mode one in its upper half and the number of references in its lower half; intra
/// refresh has the asked period.
pub proof fn law_options_are_tuned_when_asked(plan: EncoderPlan, cfg: EncoderConfig)
    requires
        is_plan_of(plan, cfg),
    ensures
        ({
            let t = plan.tuning@;
            &&& cfg.ltr_count == 0 ==> leaves_alone(t, CodecKey::LtrBufferControl)
            &&& 0 < cfg.ltr_count < 0x1_0000 ==> tunes(
                t,
                CodecKey::LtrBufferControl,
                CodecValue::U32((0x1_0000 + cfg.ltr_count) as u32),
            )
            &&& cfg.intra_refresh ==> tunes(
                t,
                CodecKey::IntraRefresh,
                CodecValue::U32(cfg.intra_refresh_period),
            )
            &&& !cfg.intra_refresh ==> leaves_alone(t, CodecKey::IntraRefresh)
            &&& cfg.roi_enabled ==> tunes(t, CodecKey::RoiEnabled, CodecValue::Bool(true))
            &&& !cfg.roi_enabled ==> leaves_alone(t, CodecKey::RoiEnabled)
        }),
{
    let t = plan.tuning@;
    let ltr: int = if cfg.codec == VideoCodec::H264 {
        7
    } else {
        6
    };
    let refresh = if cfg.ltr_count > 0 {
        ltr + 1
    } else {
        ltr
    };
    let roi = if cfg.intra_refresh {
        refresh + 1
    } else {
        refresh
    };
    if cfg.ltr_count > 0 {
        assert(t[ltr].key == CodecKey::LtrBufferControl);
    }
    if cfg.intra_refresh {
        assert(t[refresh].key == CodecKey::IntraRefresh);
    }
    if cfg.roi_enabled {
        assert(t[roi].key == CodecKey::RoiEnabled);
    }
}

/// Ten bits are refused in H.264 and in nothing else.
pub proof fn law_only_ten_bit_h264_is_refused(cfg: EncoderConfig)
    ensures
        unencodable(cfg) <==> cfg.hdr10 && cfg.codec == VideoCodec::H264,
{
}

/// Where nothing is asked, the video is H.264 in eight bits at 60 frames and six
/// million bits a second, with a key frame every two seconds and no extras.
pub proof fn law_defaults(cfg: EncoderConfig)
    requires
        cfg == default_config(),
    ensures
        cfg.codec == VideoCodec::H264,
        cfg.width == 0 && cfg.height == 0,
        cfg.fps == 60,
        cfg.bitrate_bps == 6_000_000,
        cfg.keyframe_interval_ms == 2000,
        !cfg.hdr10,
        cfg.ltr_count == 0,
        !cfg.intra_refresh,
        cfg.intra_refresh_period == 60,
        !cfg.roi_enabled,
{
}

/// The long-term reference word has one in its upper half and the count, as far as it
/// fits, in its lower half.
pub proof fn law_reference_word_holds_the_count(count: u32)
    ensures
        ltr_word(count) / 0x1_0000 == 1,
        ltr_word(count) % 0x1_0000 == count % 0x1_0000,
{
}

/// Key frames come as often as asked: the frames from one to the next last no longer
/// than the asked interval, one more would, and there is at least one. The product of the
/// rate and the interval is kept in 32 bits.
pub proof fn law_key_frames_come_as_asked(plan: EncoderPlan, cfg: EncoderConfig, i: int)
    requires
        is_plan_of(plan, cfg),
        0 <= i < plan.tuning@.len(),
        plan.tuning@[i].key == CodecKey::GopSize,
    ensures
        i == 3,
        plan.tuning@[i].value matches CodecValue::U32(gop) && {
            let product = cfg.fps * cfg.keyframe_interval_ms;
            let kept = product % 0x1_0000_0000;
            &&& gop >= 1
            &&& gop == 1 || gop * 1000 <= kept
            &&& kept < (gop + 1) * 1000
            &&& product < 0x1_0000_0000 ==> kept == product
        },
{
    let product = cfg.fps * cfg.keyframe_interval_ms;
    assert(product >= 0) by (nonlinear_arith)
        requires
            product == cfg.fps * cfg.keyframe_interval_ms,
    ;
    assert(gop_frames(cfg.fps, cfg.keyframe_interval_ms) <= u32::MAX);
}

} // verus!
