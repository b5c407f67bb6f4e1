use wincap::d3d_device::{
    pick_adapter, preferred_adapter, AdapterChoice, AdapterLuid, AdapterRecord, OutputRecord,
};
use wincap::sources::{
    bounds, get_capabilities, get_windows_build, list_displays, list_windows, Capabilities,
    MonitorInfo, MonitorRecord, Rect, WindowRecord,
};
use wincap::video_processor::{ColorSetup, ColorSpace, Edges, VideoProcessor};

fn wide(s: &str, len: usize) -> Vec<u16> {
    let mut units: Vec<u16> = s.encode_utf16().collect();
    units.resize(len, 0);
    units
}

fn window(title: &str) -> WindowRecord {
    let n = title.encode_utf16().count();
    WindowRecord {
        hwnd: 0x99,
        visible: true,
        text_length: n as i32,
        ex_style: 0,
        title: wide(title, 512),
        title_len: n as i32,
        pid: 1234,
        rect: Edges { left: 10, top: 20, right: 110, bottom: 70 },
    }
}

#[test]
fn displays_are_listed() {
    let rect = Edges { left: -1920, top: 0, right: 0, bottom: 1080 };
    let monitors = vec![
        MonitorRecord {
            handle: 1,
            info: Some(MonitorInfo { device: wide("\\\\.\\DISPLAY1", 32), rect, flags: 1 }),
        },
        MonitorRecord { handle: 2, info: None },
        MonitorRecord {
            handle: 3,
            info: Some(MonitorInfo { device: vec![0x41, 0x42], rect, flags: 2 }),
        },
    ];
    let displays = list_displays(&monitors);
    assert_eq!(displays.len(), 2);
    assert_eq!(displays[0].kind, "display");
    assert_eq!(displays[0].name, "\\\\.\\DISPLAY1");
    assert_eq!((displays[0].monitor_handle, displays[0].primary), (1, true));
    assert_eq!(displays[0].bounds, Rect { x: -1920, y: 0, width: 1920, height: 1080 });
    // A name that fills its field has no zero behind it.
    assert_eq!(displays[1].name, "AB");
    assert_eq!((displays[1].monitor_handle, displays[1].primary), (3, false));
}

#[test]
fn windows_are_listed() {
    let mut hidden = window("hidden");
    hidden.visible = false;
    let mut untitled = window("");
    untitled.text_length = 0;
    let mut tool = window("tool");
    tool.ex_style = 0x80 | 0x100;
    let mut vanished = window("vanished");
    vanished.title_len = 0;
    let mut layered = window("b \u{1F600}");
    layered.ex_style = 0x8_0000;
    let windows = vec![window("a"), hidden, untitled, tool, vanished, layered];
    let listed = list_windows(&windows);
    assert_eq!(listed.len(), 2);
    assert_eq!((listed[0].kind.as_str(), listed[0].title.as_str()), ("window", "a"));
    assert_eq!((listed[0].hwnd, listed[0].pid), (0x99, 1234));
    assert_eq!(listed[0].bounds, Rect { x: 10, y: 20, width: 100, height: 50 });
    assert_eq!(listed[1].title, "b \u{1F600}");
}

#[test]
fn bounds_are_cut_to_their_type() {
    let r = bounds(&Edges { left: i32::MIN, top: 0, right: i32::MAX, bottom: -5 });
    assert_eq!((r.width, r.height), (-1, -5));
}

#[test]
fn capabilities_follow_the_build() {
    assert_eq!(
        get_capabilities(Some(true), 26100),
        Capabilities {
            wgc: true,
            wgc_border_optional: true,
            process_loopback: true,
            windows_build: 26100,
        },
    );
    let c = get_capabilities(Some(true), 22000);
    assert!(c.process_loopback && !c.wgc_border_optional);
    let c = get_capabilities(None, 19045);
    assert!(!c.wgc && !c.process_loopback && !c.wgc_border_optional);
    assert!(get_capabilities(Some(false), 22621).wgc_border_optional);
    assert!(!get_capabilities(Some(false), 22620).wgc_border_optional);
    assert!(!get_capabilities(Some(false), 21999).process_loopback);
}

#[test]
fn build_numbers_are_read() {
    assert_eq!(get_windows_build(Some((0, 26100))), 26100);
    assert_eq!(get_windows_build(Some((-1, 26100))), 0);
    assert_eq!(get_windows_build(None), 0);
}

#[test]
fn adapters_are_picked() {
    let luid = |low_part, high_part| AdapterLuid { low_part, high_part };
    let record = |l, usable| AdapterRecord { luid: l, usable };
    let adapters = vec![
        record(None, true),
        record(Some(luid(7, 1)), true),
        record(Some(luid(7, 0)), false),
        record(Some(luid(7, 0)), true),
        record(Some(luid(7, 0)), true),
    ];
    assert_eq!(pick_adapter(luid(7, 0), &adapters), AdapterChoice::Listed { index: 3 });
    assert_eq!(pick_adapter(luid(7, 1), &adapters), AdapterChoice::Listed { index: 1 });
    assert_eq!(pick_adapter(luid(8, 0), &adapters), AdapterChoice::HighPerformance);
    let zero = vec![record(Some(luid(0, 0)), true)];
    assert_eq!(pick_adapter(luid(0, 0), &zero), AdapterChoice::HighPerformance);
}

#[test]
fn converters_are_set_up() {
    let vp = VideoProcessor::new(640, 480, ColorSpace::Rec709Sdr, true);
    assert_eq!((vp.width(), vp.height()), (640, 480));
    assert_eq!(vp.color, ColorSetup::BitFields { stream: 36, output: 20 });
    assert_eq!(vp.full, Edges { left: 0, top: 0, right: 640, bottom: 480 });
    assert_eq!((vp.content.input_width, vp.content.output_height), (640, 480));
    assert_eq!((vp.content.rate_numerator, vp.content.rate_denominator), (60, 1));
    let vp = VideoProcessor::new(1, 1, ColorSpace::Rec2020Pq, true);
    assert_eq!(vp.color, ColorSetup::Dxgi { stream_space: 1, output_space: 13 });
    let vp = VideoProcessor::new(1, 1, ColorSpace::Rec2020Pq, false);
    assert_eq!(vp.color, ColorSetup::BitFields { stream: 32, output: 16 });
    let vp = VideoProcessor::new(u32::MAX, 0, ColorSpace::Rec709Sdr, false);
    assert_eq!(vp.full.right, -1);
}

#[test]
fn monitors_belong_to_adapters() {
    let output = |monitor, low_part| OutputRecord {
        monitor,
        adapter: AdapterLuid { low_part, high_part: 3 },
    };
    let outputs = vec![output(1, 10), output(2, 20), output(2, 30)];
    assert_eq!(preferred_adapter(&outputs, 1), outputs[0].adapter);
    assert_eq!(preferred_adapter(&outputs, 2), outputs[1].adapter);
    assert_eq!(preferred_adapter(&outputs, 4), AdapterLuid { low_part: 0, high_part: 0 });
}
