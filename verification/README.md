# wincap

Windows screen capture with audio: Windows Graphics Capture, Media Foundation
hardware encoders and WASAPI loopback, as a Node.js addon.

`src/` is a library of decisions. The calls that capture, convert, encode and record
are made elsewhere; of the system it asks only the text of an error. Each of its
functions maps plain values to plain values, or takes a state and an event to the
next state and the next piece of outside work. What each function does is stated
in its contract and proved by Verus; properties that span several functions stand
beside them as `law_` proof functions.

`app/` is the addon. It performs the work that the library asks for, hands back
what came of it, and passes frames, encoded video and audio to JavaScript. Its
modules that call the operating system are compiled on Windows only.

| Module | What it decides |
| --- | --- |
| `capture_session` | what the options of a capture session mean, and the order of its set-up |
| `frame_job`, `frame_laws` | what becomes of a captured frame: sent raw, read back, or encoded |
| `wgc_source` | the life of a capture source, its frames, and the repetition of idle ones |
| `frame_pool` | who holds which texture |
| `encoder_config`, `mf_encoder` | how an encoder is chosen, set up, fed and read |
| `video_processor` | how pictures are converted for the encoder |
| `audio_session`, `wasapi_loopback`, `audio_format` | the same for audio |
| `sources`, `d3d_device` | what can be captured, and on which adapter |
| `spsc_ring` | a bounded queue between one producer and one consumer |
| `clock`, `error`, `text`, `bytes`, `runtime` | times, errors, text and bytes |
