use wincap::audio_format::{process_loopback_format, AudioFormat, WaveFormat};
use wincap::audio_session::{
    chunk_payload, loopback_options, AudioOptionError, AudioOptionsJs, AudioSession, AudioStatsJs,
};
use wincap::clock::hundred_ns_to_ns;
use wincap::error::WincapError;
use wincap::wasapi_loopback::{
    acquire_buffer, buffer_report, AudioChunk, AudioEvent, AudioStep, LoopEvent, LoopStep,
    LoopbackMode, LoopbackStop, Packet, PoolBuffer, WasapiLoopback, WasapiLoopbackOptions,
    BUFFER_EMPTY, POOL_SIZE, STREAM_FLAGS,
};

fn process_options() -> WasapiLoopbackOptions {
    WasapiLoopbackOptions { mode: LoopbackMode::ProcessTree, target_pid: 42, include_tree: false }
}

fn running() -> WasapiLoopback {
    let mut stream = WasapiLoopback::new(WasapiLoopbackOptions::default());
    assert!(stream.start());
    assert!(stream.stop_event_created(Ok(())).is_ok());
    stream
}

/// The chunk that a packet becomes.
fn chunk(stream: &mut WasapiLoopback, packet: Packet, samples: &[u32]) -> AudioChunk {
    match stream.packet(packet, samples) {
        LoopStep::Deliver(chunk) => chunk,
        other => panic!("not delivered: {:?}", other),
    }
}

fn bits(samples: &[f32]) -> Vec<u32> {
    samples.iter().map(|s| s.to_bits()).collect()
}

#[test]
fn formats_are_read() {
    let mut wf = process_loopback_format();
    assert_eq!(AudioFormat::from_wave_format(Some(&wf)), AudioFormat::default());
    assert_eq!(AudioFormat::default().bytes_per_frame(), 8);
    wf.cb_size = 21;
    assert!(!AudioFormat::from_wave_format(Some(&wf)).float32);
    wf.cb_size = 22;
    wf.sub_format = 1;
    assert!(!AudioFormat::from_wave_format(Some(&wf)).float32);
    let wf = WaveFormat { format_tag: 3, channels: 6, samples_per_sec: 44100, ..wf };
    let format = AudioFormat::from_wave_format(Some(&wf));
    assert!(format.float32);
    assert_eq!((format.channels, format.sample_rate, format.bits_per_sample), (6, 44100, 32));
    let wf = WaveFormat { format_tag: 1, bits_per_sample: 16, ..wf };
    let format = AudioFormat::from_wave_format(Some(&wf));
    assert!(!format.float32);
    assert_eq!(format.bytes_per_frame(), 12);
    let format = AudioFormat::from_wave_format(None);
    assert_eq!((format.channels, format.sample_rate, format.float32), (0, 0, true));
}

#[test]
fn options_are_understood() {
    let opts = |mode: &str, pid, include_tree| AudioOptionsJs {
        mode: mode.to_string(),
        pid,
        include_tree,
    };
    assert_eq!(
        loopback_options(&opts("systemLoopback", Some(5), Some(false))),
        Ok(WasapiLoopbackOptions::default()),
    );
    let process = loopback_options(&opts("processLoopback", Some(5), None)).unwrap();
    assert_eq!((process.mode, process.target_pid), (LoopbackMode::ProcessTree, 5));
    assert!(process.include_tree);
    let process = loopback_options(&opts("processLoopback", Some(5), Some(false))).unwrap();
    assert!(!process.include_tree);
    let e = AudioSession::new(&opts("processLoopback", None, None)).unwrap_err();
    assert_eq!(e, AudioOptionError::PidMissing);
    assert_eq!(e.reason(), "processLoopback requires opts.pid");
    let e = AudioSession::new(&opts("microphone", None, None)).unwrap_err();
    assert_eq!(e.reason(), "mode must be 'systemLoopback' or 'processLoopback'");
}

#[test]
fn system_audio_is_set_up_with_a_short_period() {
    let mut stream = running();
    let steps = vec![
        (AudioEvent::Begin, AudioStep::CreateEnumerator),
        (AudioEvent::EnumeratorCreated, AudioStep::FindDefaultEndpoint),
        (AudioEvent::EndpointFound, AudioStep::ActivateEndpoint),
        (AudioEvent::ClientReady, AudioStep::QueryMixFormat),
        (AudioEvent::FormatReady, AudioStep::QueryLowLatencyClient),
        (AudioEvent::LowLatencyClient { present: true }, AudioStep::QueryPeriod),
        (
            AudioEvent::Period(Some((48, 144))),
            AudioStep::InitializeLowLatency { flags: STREAM_FLAGS, period: 144 },
        ),
        (
            AudioEvent::Period(Some((480, 144))),
            AudioStep::InitializeLowLatency { flags: STREAM_FLAGS, period: 480 },
        ),
        (AudioEvent::LowLatencyInitialized { done: true }, AudioStep::CreateAudioEvent),
        (AudioEvent::AudioEventCreated(Ok(())), AudioStep::SetEventHandle),
        (AudioEvent::EventHandleSet, AudioStep::QueryCaptureClient),
        (AudioEvent::CaptureClientReady(None), AudioStep::StartStream),
        (AudioEvent::StreamStarted, AudioStep::Capture),
    ];
    for (event, step) in steps {
        assert_eq!(stream.setup_event(event).ok(), Some(step));
    }
    assert_eq!(stream.format(), AudioFormat::from_wave_format(None));
    assert_eq!(STREAM_FLAGS, 0x20000 | 0x40000 | 0x8000_0000 | 0x0800_0000);
}

#[test]
fn short_periods_fall_back_to_twenty_milliseconds() {
    let mut stream = running();
    let shared = AudioStep::InitializeShared { flags: STREAM_FLAGS, duration_hns: 200_000 };
    let events = vec![
        AudioEvent::LowLatencyClient { present: false },
        AudioEvent::Period(None),
        AudioEvent::LowLatencyInitialized { done: false },
    ];
    for event in events {
        assert_eq!(stream.setup_event(event).ok(), Some(shared));
    }
    assert_eq!(
        stream.setup_event(AudioEvent::SharedInitialized(Ok(()))).ok(),
        Some(AudioStep::CreateAudioEvent),
    );
}

#[test]
fn process_audio_is_set_up() {
    let mut stream = WasapiLoopback::new(process_options());
    assert_eq!(
        stream.setup_event(AudioEvent::Begin).ok(),
        Some(AudioStep::CreateActivationEvent),
    );
    assert_eq!(
        stream.setup_event(AudioEvent::ActivationEvent(Ok(()))).ok(),
        Some(AudioStep::ActivateProcess { pid: 42, mode: 0 }),
    );
    assert_eq!(
        stream.setup_event(AudioEvent::ActivationRequested).ok(),
        Some(AudioStep::AwaitActivation),
    );
    assert_eq!(
        stream.setup_event(AudioEvent::Activated { hr: 1, present: true }).ok(),
        Some(AudioStep::CastClient),
    );
    let format = process_loopback_format();
    assert_eq!(
        stream.setup_event(AudioEvent::ClientReady).ok(),
        Some(AudioStep::UseFormat(format)),
    );
    assert_eq!(
        stream.setup_event(AudioEvent::FormatReady).ok(),
        Some(AudioStep::InitializeShared { flags: STREAM_FLAGS, duration_hns: 200_000 }),
    );
    let _ = stream.setup_event(AudioEvent::CaptureClientReady(Some(format)));
    assert_eq!(stream.format(), AudioFormat::default());
    // The process is heard with its tree and without.
    let mut whole = WasapiLoopback::new(WasapiLoopbackOptions {
        include_tree: true,
        ..process_options()
    });
    assert_eq!(
        whole.setup_event(AudioEvent::ActivationEvent(Ok(()))).ok(),
        Some(AudioStep::ActivateProcess { pid: 42, mode: 0 }),
    );
}

#[test]
fn set_up_failures_are_told() {
    let mut stream = running();
    let cases = vec![
        (
            AudioEvent::ActivationEvent(Err(-1)),
            "wasapi_loopback: HRESULT 0xFFFFFFFF \u{2014} CreateEvent for activation",
        ),
        (
            AudioEvent::Activated { hr: -2, present: true },
            "wasapi_loopback: HRESULT 0xFFFFFFFE \u{2014} ActivateAudioInterfaceAsync result",
        ),
        (
            AudioEvent::Activated { hr: 0, present: false },
            "wasapi_loopback: activation returned null",
        ),
        (
            AudioEvent::SharedInitialized(Err(-3)),
            "wasapi_loopback: HRESULT 0xFFFFFFFD \u{2014} IAudioClient::Initialize",
        ),
        (
            AudioEvent::AudioEventCreated(Err(-4)),
            "wasapi_loopback: HRESULT 0xFFFFFFFC \u{2014} CreateEvent for audio",
        ),
    ];
    for (event, text) in cases {
        assert_eq!(stream.setup_event(event).unwrap_err().to_string(), text);
    }
    let e = WincapError::hresult("wasapi_loopback", -9, "client.Start");
    assert_eq!(stream.setup_failed(&e).unwrap().hresult, -9);
    let _ = stream.stop();
    // Until the thread has ended the consumer still hears of it.
    assert_eq!(stream.setup_failed(&e).unwrap().hresult, -9);
    stream.stopped();
    assert!(stream.setup_failed(&e).is_none());
}

#[test]
fn streams_start_and_stop() {
    let mut stream = WasapiLoopback::new(WasapiLoopbackOptions::default());
    assert_eq!(stream.format(), AudioFormat::default());
    assert!(stream.start());
    assert!(!stream.start());
    let e = stream.stop_event_created(Err(-8)).unwrap_err();
    assert_eq!(
        e.to_string(),
        "wasapi_loopback: HRESULT 0xFFFFFFF8 \u{2014} CreateEvent for stop signal",
    );
    assert_eq!(stream.stop(), None);
    let mut stream = running();
    assert_eq!(
        stream.stop(),
        Some(LoopbackStop { signal_stop_event: true, join_thread: true, close_stop_event: true }),
    );
    assert_eq!(stream.stop(), None);
    stream.stopped();
    assert!(stream.start());
}

#[test]
fn the_loop_goes_round() {
    let mut stream = running();
    let steps = vec![
        (LoopEvent::Started, LoopStep::Wait),
        (LoopEvent::Waited { answer: 258 }, LoopStep::Wait),
        (LoopEvent::Waited { answer: 0 }, LoopStep::NextPacket),
        (LoopEvent::Waited { answer: 1 }, LoopStep::Exit),
        (LoopEvent::Waited { answer: 0xFFFF_FFFF }, LoopStep::Exit),
        (LoopEvent::PacketSize(Some(480)), LoopStep::GetBuffer),
        (LoopEvent::PacketSize(Some(0)), LoopStep::Wait),
        (LoopEvent::PacketSize(None), LoopStep::Wait),
        (LoopEvent::BufferFailed { hr: BUFFER_EMPTY }, LoopStep::Wait),
        (LoopEvent::BufferFailed { hr: -7 }, LoopStep::Report { hr: -7 }),
        (LoopEvent::Reported, LoopStep::Wait),
        (LoopEvent::Delivered { frames: 480 }, LoopStep::ReleaseBuffer { frames: 480 }),
        (LoopEvent::Released, LoopStep::NextPacket),
    ];
    for (event, step) in steps {
        assert_eq!(stream.loop_event(event), step);
    }
    let p = buffer_report(-7);
    assert_eq!(
        (p.component.as_str(), p.hresult, p.message.as_str()),
        ("wasapi_loopback", -7, "GetBuffer failed"),
    );
    let _ = stream.stop();
    assert_eq!(stream.loop_event(LoopEvent::Started), LoopStep::Exit);
    assert_eq!(stream.loop_event(LoopEvent::Waited { answer: 258 }), LoopStep::Exit);
    let failed = LoopEvent::BufferFailed { hr: -7 };
    assert_eq!(stream.loop_event(failed), LoopStep::Report { hr: -7 });
    assert_eq!(stream.loop_event(LoopEvent::Reported), LoopStep::Exit);
    stream.stopped();
    assert_eq!(stream.loop_event(failed), LoopStep::Exit);
}

#[test]
fn packets_become_chunks() {
    let mut stream = running();
    let samples = bits(&[0.5, -0.5, 1.0, -1.0]);
    let packet = Packet { frames: 2, flags: 1, position: 12_345 };
    let step = stream.packet(packet, &samples);
    let LoopStep::Deliver(chunk) = step else { panic!("not delivered") };
    assert_eq!((chunk.slot, chunk.frame_count, chunk.channels), (0, 2, 2));
    assert_eq!((chunk.sample_rate, chunk.timestamp_ns), (48000, 1_234_500));
    assert!(chunk.discontinuity && !chunk.silent);
    let p = chunk_payload(&chunk, stream.samples(&chunk).unwrap());
    assert_eq!(p.data.len(), 16);
    assert_eq!(&p.data[8..12], &1.0f32.to_le_bytes()[..]);
    assert_eq!((p.frame_count, p.channels, p.sample_rate), (2, 2, 48000));
    assert!(p.discontinuity && !p.silent);
}

#[test]
fn silence_is_zero() {
    let mut stream = running();
    // A longer packet leaves samples behind in the buffer.
    let samples = bits(&[0.25; 8]);
    let long = chunk(&mut stream, Packet { frames: 4, flags: 0, position: 0 }, &samples);
    stream.release(long);
    let step = stream.packet(Packet { frames: 2, flags: 2, position: 0 }, &[]);
    let LoopStep::Deliver(chunk) = step else { panic!("not delivered") };
    assert!(chunk.silent && !chunk.discontinuity);
    assert_eq!(chunk.slot, 0);
    let p = chunk_payload(&chunk, stream.samples(&chunk).unwrap());
    assert_eq!(p.data, vec![0; 16]);
}

#[test]
fn packets_are_dropped_when_all_buffers_are_held() {
    let mut stream = running();
    let samples = bits(&[0.125, 0.25]);
    let packet = Packet { frames: 1, flags: 0, position: 0 };
    let mut chunks = Vec::new();
    for i in 0..POOL_SIZE {
        let chunk = chunk(&mut stream, packet, &samples);
        assert_eq!(chunk.slot, i);
        chunks.push(chunk);
    }
    let other = bits(&[9.0, 9.0]);
    assert_eq!(
        stream.packet(packet, &other),
        LoopStep::ReleaseBuffer { frames: 1 },
    );
    for chunk in &chunks {
        assert_eq!(stream.samples(chunk), Some(&samples[..]));
    }
    stream.release(chunks.remove(7));
    let again = chunk(&mut stream, packet, &other);
    assert_eq!(again.slot, 7);
    assert_eq!(stream.samples(&again), Some(&other[..]));
    // What was not given back stays as it was.
    for chunk in &chunks {
        assert_eq!(stream.samples(chunk), Some(&samples[..]));
    }
    assert_eq!(stream.packet(packet, &other), LoopStep::ReleaseBuffer { frames: 1 });
}

#[test]
fn unheard_packets_do_not_hold_buffers() {
    let mut stream = running();
    let _ = stream.stop();
    // A packet that comes before the thread has ended is still delivered.
    let packet = Packet { frames: 1, flags: 0, position: 0 };
    let late = chunk(&mut stream, packet, &[1, 2]);
    stream.release(late);
    stream.stopped();
    assert_eq!(stream.packet(packet, &[1, 2]), LoopStep::ReleaseBuffer { frames: 1 });
    // The buffer is free for the next consumer.
    assert!(stream.start());
    assert!(stream.stop_event_created(Ok(())).is_ok());
    let step = stream.packet(packet, &[1, 2]);
    assert!(matches!(step, LoopStep::Deliver(chunk) if chunk.slot == 0));
}

#[test]
fn buffers_grow_when_needed() {
    let mut pool: Vec<PoolBuffer> = vec![
        PoolBuffer { data: vec![5], in_use: true },
        PoolBuffer { data: vec![6, 7], in_use: false },
    ];
    assert_eq!(acquire_buffer(&mut pool, 4), Some(1));
    assert_eq!(pool[1].data, vec![6, 7, 0, 0]);
    assert!(pool[1].in_use);
    assert_eq!(acquire_buffer(&mut pool, 1), None);
    pool[1].in_use = false;
    assert_eq!(acquire_buffer(&mut pool, 1), Some(1));
    assert_eq!(pool[1].data, vec![6, 7, 0, 0]);
    assert_eq!(pool[0].data, vec![5]);
}

#[test]
fn sessions_count_chunks() {
    let opts = AudioOptionsJs {
        mode: "systemLoopback".to_string(),
        pid: None,
        include_tree: None,
    };
    let (mut session, loopback) = AudioSession::new(&opts).unwrap();
    assert_eq!(loopback.mode, LoopbackMode::SystemDefault);
    assert!(!session.stop());
    assert!(session.start());
    assert!(!session.start());
    let mut stream = running();
    let packet = |flags| Packet { frames: 1, flags, position: 0 };
    let first = chunk(&mut stream, packet(1), &[1, 2]);
    let second = chunk(&mut stream, packet(0), &[3, 4]);
    assert_eq!((first.slot, second.slot), (0, 1));
    // Taken or not, a chunk that the session is done with gives its buffer back.
    session.finish_chunk(&mut stream, first, true);
    let third = chunk(&mut stream, packet(0), &[5, 6]);
    assert_eq!(third.slot, 0);
    session.finish_chunk(&mut stream, second, false);
    session.finish_chunk(&mut stream, third, true);
    assert_eq!(chunk(&mut stream, packet(0), &[7, 8]).slot, 0);
    assert_eq!(
        session.get_stats(),
        AudioStatsJs { delivered_chunks: 2, dropped_chunks: 1, discontinuities: 1 },
    );
    assert!(session.stop());
    assert!(!session.stop());
}

#[test]
fn every_packet_is_given_back() {
    let mut stream = running();
    let mut waiting: Vec<u32> = (0..40).map(|i| i % 3 + 1).collect();
    waiting.reverse();
    let expected: Vec<u32> = waiting.iter().rev().copied().collect();
    let mut back: Vec<u32> = Vec::new();
    let mut held: Vec<AudioChunk> = Vec::new();
    let mut rounds = 0;
    let mut step = stream.loop_event(LoopEvent::Started);
    while step != LoopStep::Exit {
        let event = match step {
            LoopStep::Wait => {
                rounds += 1;
                LoopEvent::Waited { answer: if rounds > 3 { 1 } else { 0 } }
            }
            LoopStep::NextPacket => {
                LoopEvent::PacketSize(Some(waiting.last().copied().unwrap_or(0)))
            }
            LoopStep::GetBuffer => {
                let frames = waiting.pop().unwrap();
                let samples = vec![7u32; frames as usize * 2];
                step = stream.packet(Packet { frames, flags: 0, position: 0 }, &samples);
                continue;
            }
            LoopStep::Deliver(chunk) => {
                // The consumer keeps every chunk, so that the buffers run out.
                let frames = chunk.frame_count;
                held.push(chunk);
                LoopEvent::Delivered { frames }
            }
            LoopStep::ReleaseBuffer { frames } => {
                back.push(frames);
                LoopEvent::Released
            }
            LoopStep::Report { .. } => LoopEvent::Reported,
            LoopStep::Exit => unreachable!(),
        };
        step = stream.loop_event(event);
    }
    assert_eq!(back, expected);
    let slots: Vec<usize> = held.iter().map(|chunk| chunk.slot).collect();
    assert_eq!(slots, (0..POOL_SIZE).collect::<Vec<usize>>());
    // The stream has its packets back; the buffers come back when the consumer is done.
    for chunk in held {
        stream.release(chunk);
    }
    let packet = Packet { frames: 1, flags: 0, position: 0 };
    assert_eq!(chunk(&mut stream, packet, &[1, 2]).slot, 0);
}

#[test]
fn audio_and_video_share_a_clock() {
    let mut stream = running();
    let position: u64 = 10_000_000;
    let packet = Packet { frames: 1, flags: 0, position };
    let LoopStep::Deliver(chunk) = stream.packet(packet, &[0, 0]) else { panic!("not delivered") };
    assert_eq!(chunk.timestamp_ns, 1_000_000_000);
    assert_eq!(chunk.timestamp_ns, hundred_ns_to_ns(position as i64));
}

#[test]
fn long_packets_are_measured() {
    let stream = running();
    let packet = Packet { frames: 480, flags: 0, position: 0 };
    assert_eq!(stream.packet_samples(&packet), Some(960));
}
