//! What can be captured, and what the system is capable of.

use vstd::prelude::*;

use crate::capture_session::{
    session_step_after, CaptureOptionError, SessionEvent, SessionStep, SourceSpec,
};
use crate::frame_job::DeliveryModel;
use crate::text::{decode_utf16_lossy, utf16_text};
use crate::video_processor::Edges;

verus! {

/// Rectangle with x, y, width, height.
#[derive(Debug, Clone, Copy, PartialEq, Eq, Structural)]
pub struct Rect {
    pub x: i32,
    pub y: i32,
    pub width: i32,
    pub height: i32,
}

/// A display that can be captured.
#[derive(Debug)]
pub struct DisplaySource {
    pub kind: String,
    pub monitor_handle: u64,
    pub name: String,
    pub primary: bool,
    pub bounds: Rect,
}

/// A window that can be captured.
#[derive(Debug)]
pub struct WindowSource {
    pub kind: String,
    pub hwnd: u64,
    pub title: String,
    pub pid: u32,
    pub bounds: Rect,
}

/// What the system is capable of.
#[derive(Debug, Clone, Copy, PartialEq, Eq, Structural)]
pub struct Capabilities {
    pub wgc: bool,
    pub wgc_border_optional: bool,
    pub process_loopback: bool,
    pub windows_build: u32,
}

/// The contents of a `DisplaySource` as mathematical values.
pub struct DisplayModel {
    pub kind: Seq<char>,
    pub monitor_handle: u64,
    pub name: Seq<char>,
    pub primary: bool,
    pub bounds: Rect,
}

/// The contents of a `WindowSource` as mathematical values.
pub struct WindowModel {
    pub kind: Seq<char>,
    pub hwnd: u64,
    pub title: Seq<char>,
    pub pid: u32,
    pub bounds: Rect,
}

impl View for DisplaySource {
    type V = DisplayModel;

    open spec fn view(&self) -> DisplayModel {
        DisplayModel {
            kind: self.kind@,
            monitor_handle: self.monitor_handle,
            name: self.name@,
            primary: self.primary,
            bounds: self.bounds,
        }
    }
}

impl View for WindowSource {
    type V = WindowModel;

    open spec fn view(&self) -> WindowModel {
        WindowModel {
            kind: self.kind@,
            hwnd: self.hwnd,
            title: self.title@,
            pid: self.pid,
            bounds: self.bounds,
        }
    }
}

/// What the system tells of a monitor.
#[derive(Debug)]
pub struct MonitorInfo {
    /// The name in UTF-16, with zeros behind it.
    pub device: Vec<u16>,
    pub rect: Edges,
    pub flags: u32,
}

/// A monitor that the system named, with what it tells of it.
#[derive(Debug)]
pub struct MonitorRecord {
    pub handle: u64,
    pub info: Option<MonitorInfo>,
}

/// A window that the system named, with what it tells of it.
#[derive(Debug)]
pub struct WindowRecord {
    pub hwnd: u64,
    pub visible: bool,
    pub text_length: i32,
    pub ex_style: u64,
    /// The title in UTF-16; `title_len` units of it count.
    pub title: Vec<u16>,
    pub title_len: i32,
    pub pid: u32,
    pub rect: Edges,
}

/// A rectangle by its corner and its size, which is cut to 32 bits.
pub open spec fn bounds_of(r: Edges) -> Rect {
    Rect {
        x: r.left,
        y: r.top,
        width: r.right.wrapping_sub(r.left),
        height: r.bottom.wrapping_sub(r.top),
    }
}

/// A rectangle by its corner and its size.
pub fn bounds(r: &Edges) -> (rect: Rect)
    ensures
        rect == bounds_of(*r),
        i32::MIN <= r.right - r.left <= i32::MAX ==> rect.width == r.right - r.left,
        i32::MIN <= r.bottom - r.top <= i32::MAX ==> rect.height == r.bottom - r.top,
{
    Rect {
        x: r.left,
        y: r.top,
        width: r.right.wrapping_sub(r.left),
        height: r.bottom.wrapping_sub(r.top),
    }
}

/// The first zero from `i` on; the length if there is none.
pub open spec fn zero_from(units: Seq<u16>, i: nat) -> nat
    decreases units.len() - i,
{
    if i >= units.len() {
        units.len()
    } else if units[i as int] == 0 {
        i
    } else {
        zero_from(units, i + 1)
    }
}

/// The text before the first zero.
pub open spec fn text_before_zero(units: Seq<u16>) -> Seq<char> {
    utf16_text(units.take(zero_from(units, 0) as int))
}

fn read_until_zero(units: &Vec<u16>) -> (s: String)
    ensures
        s@ == text_before_zero(units@),
{
    let mut end: usize = 0;
    while end < units.len() && units[end] != 0
        invariant
            end <= units.len(),
            zero_from(units@, 0) == zero_from(units@, end as nat),
        decreases units.len() - end,
    {
        end = end + 1;
    }
    assert(zero_from(units@, end as nat) == end);
    decode_utf16_lossy(vstd::slice::slice_subrange(units.as_slice(), 0, end))
}

/// The display that a monitor is, if the system tells anything of it.
pub open spec fn display_of(m: MonitorRecord) -> Option<DisplayModel> {
    match m.info {
        Some(info) => Some(
            DisplayModel {
                kind: "display"@,
                monitor_handle: m.handle,
                name: text_before_zero(info.device@),
                primary: info.flags % 2 == 1,
                bounds: bounds_of(info.rect),
            },
        ),
        None => None,
    }
}

/// The displays among the monitors, in their order.
pub open spec fn displays_of(monitors: Seq<MonitorRecord>) -> Seq<DisplayModel>
    decreases monitors.len(),
{
    if monitors.len() == 0 {
        Seq::empty()
    } else {
        let rest = displays_of(monitors.drop_last());
        match display_of(monitors.last()) {
            Some(d) => rest.push(d),
            None => rest,
        }
    }
}

/// Whether a window is offered: one that can be seen, has a title, and is no tool
/// window.
pub open spec fn is_offered(w: WindowRecord) -> bool {
    &&& w.visible
    &&& w.text_length != 0
    &&& (w.ex_style / 0x80) % 2 == 0
    &&& w.title_len > 0
}

/// The window that a record describes.
pub open spec fn window_of(w: WindowRecord) -> WindowModel {
    WindowModel {
        kind: "window"@,
        hwnd: w.hwnd,
        title: utf16_text(w.title@.take(w.title_len as int)),
        pid: w.pid,
        bounds: bounds_of(w.rect),
    }
}

/// The windows that are offered, in their order.
pub open spec fn windows_of(windows: Seq<WindowRecord>) -> Seq<WindowModel>
    decreases windows.len(),
{
    if windows.len() == 0 {
        Seq::empty()
    } else {
        let rest = windows_of(windows.drop_last());
        if is_offered(windows.last()) {
            rest.push(window_of(windows.last()))
        } else {
            rest
        }
    }
}

/// The displays among the monitors that the system named.
pub fn list_displays(monitors: &Vec<MonitorRecord>) -> (displays: Vec<DisplaySource>)
    ensures
        displays@.map_values(|d: DisplaySource| d@) == displays_of(monitors@),
{
    let mut displays: Vec<DisplaySource> = Vec::new();
    let mut i: usize = 0;
    assert(monitors@.take(0) =~= Seq::empty());
    assert(displays@.map_values(|d: DisplaySource| d@) =~= displays_of(monitors@.take(0)));
    while i < monitors.len()
        invariant
            i <= monitors.len(),
            displays@.map_values(|d: DisplaySource| d@) == displays_of(monitors@.take(i as int)),
        decreases monitors.len() - i,
    {
        let ghost before = displays@.map_values(|d: DisplaySource| d@);
        assert(monitors@.take(i + 1).drop_last() =~= monitors@.take(i as int));
        if let Some(info) = &monitors[i].info {
            let flags: u32 = info.flags;
            assert((flags & 1 != 0) == (flags % 2 == 1)) by (bit_vector);
            let display = DisplaySource {
                kind: "display".to_owned(),
                monitor_handle: monitors[i].handle,
                name: read_until_zero(&info.device),
                primary: (flags & 1) != 0,
                bounds: bounds(&info.rect),
            };
            displays.push(display);
            assert(displays@.map_values(|d: DisplaySource| d@) =~= before.push(display@));
        }
        i = i + 1;
    }
    assert(monitors@.take(i as int) =~= monitors@);
    displays
}

/// The windows to offer among those that the system named.
pub fn list_windows(windows: &Vec<WindowRecord>) -> (offered: Vec<WindowSource>)
    requires
        forall|i: int| 0 <= i < windows.len() ==> (#[trigger] windows[i]).title_len
            <= windows[i].title.len(),
    ensures
        offered@.map_values(|w: WindowSource| w@) == windows_of(windows@),
{
    let mut offered: Vec<WindowSource> = Vec::new();
    let mut i: usize = 0;
    assert(windows@.take(0) =~= Seq::empty());
    assert(offered@.map_values(|w: WindowSource| w@) =~= windows_of(windows@.take(0)));
    while i < windows.len()
        invariant
            i <= windows.len(),
            forall|i: int| 0 <= i < windows.len() ==> (#[trigger] windows[i]).title_len
                <= windows[i].title.len(),
            offered@.map_values(|w: WindowSource| w@) == windows_of(windows@.take(i as int)),
        decreases windows.len() - i,
    {
        let ghost before = offered@.map_values(|w: WindowSource| w@);
        assert(windows@.take(i + 1).drop_last() =~= windows@.take(i as int));
        let w = &windows[i];
        let ex: u64 = w.ex_style;
        assert((ex & 0x80 != 0) == ((ex / 0x80) % 2 != 0)) by (bit_vector);
        if w.visible && w.text_length != 0 && (ex & 0x80) == 0 && w.title_len > 0 {
            let title: &[u16] = vstd::slice::slice_subrange(
                w.title.as_slice(),
                0,
                w.title_len as usize,
            );
            assert(title@ =~= w.title@.take(w.title_len as int));
            let window = WindowSource {
                kind: "window".to_owned(),
                hwnd: w.hwnd,
                title: decode_utf16_lossy(title),
                pid: w.pid,
                bounds: bounds(&w.rect),
            };
            offered.push(window);
            assert(offered@.map_values(|w: WindowSource| w@) =~= before.push(window@));
        }
        i = i + 1;
    }
    assert(windows@.take(i as int) =~= windows@);
    offered
}

/// The first build that captures without a border.
pub const BORDER_OPTIONAL_BUILD: u32 = 22621;

/// The first build that captures the audio of a process.
pub const PROCESS_LOOPBACK_BUILD: u32 = 22000;

/// What a system of some build is capable of; whether it can capture at all it
/// says itself.
pub open spec fn capabilities_of(wgc: bool, build: u32) -> Capabilities {
    Capabilities {
        wgc,
        wgc_border_optional: build >= BORDER_OPTIONAL_BUILD,
        process_loopback: build >= PROCESS_LOOPBACK_BUILD,
        windows_build: build,
    }
}

/// What a system of some build is capable of.
pub fn get_capabilities(wgc: Option<bool>, build: u32) -> (c: Capabilities)
    ensures
        c == capabilities_of(wgc == Some(true), build),
{
    let wgc = wgc.unwrap_or(false);
    Capabilities {
        wgc,
        wgc_border_optional: build >= BORDER_OPTIONAL_BUILD,
        process_loopback: build >= PROCESS_LOOPBACK_BUILD,
        windows_build: build,
    }
}

/// The build number in the answer to a version query.
pub open spec fn build_in(answer: Option<(i32, u32)>) -> u32 {
    match answer {
        Some((status, build)) if status == 0 => build,
        _ => 0,
    }
}

/// The build number out of the answer to a version query, a status and a build;
/// 0 where the query could not be made or failed.
pub fn get_windows_build(answer: Option<(i32, u32)>) -> (build: u32)
    ensures
        build == (match answer {
            Some((status, build)) if status == 0 => build,
            _ => 0,
        }),
        build == build_in(answer),
{
    match answer {
        Some((status, build)) => if status == 0 {
            build
        } else {
            0
        },
        None => 0,
    }
}

/// Displays are listed one by one, in the order in which the system named them.
pub proof fn law_displays_are_listed_in_order(a: Seq<MonitorRecord>, b: Seq<MonitorRecord>)
    ensures
        displays_of(a + b) == displays_of(a) + displays_of(b),
        displays_of(a).len() <= a.len(),
    decreases a.len() + b.len(),
{
    if b.len() == 0 {
        assert(a + b =~= a);
        assert(displays_of(a) + displays_of(b) =~= displays_of(a));
        if a.len() > 0 {
            law_displays_are_listed_in_order(a.drop_last(), b);
        }
    } else {
        assert((a + b).drop_last() =~= a + b.drop_last());
        law_displays_are_listed_in_order(a, b.drop_last());
        assert(displays_of(a + b) =~= displays_of(a) + displays_of(b));
    }
}

/// Every window is judged by itself, and those that are offered keep the order in
/// which the system named them.
pub proof fn law_windows_are_listed_in_order(a: Seq<WindowRecord>, b: Seq<WindowRecord>)
    ensures
        windows_of(a + b) == windows_of(a) + windows_of(b),
        windows_of(a).len() <= a.len(),
    decreases a.len() + b.len(),
{
    if b.len() == 0 {
        assert(a + b =~= a);
        assert(windows_of(a) + windows_of(b) =~= windows_of(a));
        if a.len() > 0 {
            law_windows_are_listed_in_order(a.drop_last(), b);
        }
    } else {
        assert((a + b).drop_last() =~= a + b.drop_last());
        law_windows_are_listed_in_order(a, b.drop_last());
        assert(windows_of(a + b) =~= windows_of(a) + windows_of(b));
    }
}

/// What a display or a window is listed with is what a capture session takes as
/// its source.
pub proof fn law_listed_sources_can_be_captured(
    delivery: DeliveryModel,
    source: SourceSpec,
    m: MonitorRecord,
    w: WindowRecord,
)
    ensures
        ({
            let step = session_step_after(delivery, source, SessionEvent::PoolCreated);
            &&& display_of(m) matches Some(d) ==> source.kind@ == d.kind && source.monitor_handle
                == Some(d.monitor_handle) ==> step == Ok::<SessionStep, CaptureOptionError>(
                SessionStep::CaptureMonitor { handle: m.handle },
            )
            &&& is_offered(w) && source.kind@ == window_of(w).kind && source.hwnd == Some(
                window_of(w).hwnd,
            ) ==> step == Ok::<SessionStep, CaptureOptionError>(
                SessionStep::CaptureWindow { handle: w.hwnd },
            )
        }),
{
    reveal_strlit("display");
    reveal_strlit("window");
    assert("display"@.len() != "window"@.len());
}

/// A system that captures without a border also captures the audio of a process,
/// and a later build can do no less.
pub proof fn law_capabilities_grow_with_the_build(wgc: bool, build: u32, later: u32)
    requires
        build <= later,
    ensures
        capabilities_of(wgc, build).wgc_border_optional ==> capabilities_of(
            wgc,
            build,
        ).process_loopback,
        capabilities_of(wgc, build).process_loopback ==> capabilities_of(
            wgc,
            later,
        ).process_loopback,
        capabilities_of(wgc, build).wgc_border_optional ==> capabilities_of(
            wgc,
            later,
        ).wgc_border_optional,
{
}

/// A window is listed exactly if it can be seen, has a title of which some units
/// were read, and the tool window bit of its extended style is clear. It is listed
/// once, under its own handle and process, with the units of its title that were
/// read as its text, and with the corner and the size of its rectangle.
pub proof fn law_windows_are_listed_as_they_are(w: WindowRecord)
    ensures
        windows_of(seq![w]).len() == (if w.visible && w.text_length != 0 && w.title_len > 0
            && w.ex_style & 0x80 == 0 {
            1nat
        } else {
            0nat
        }),
        windows_of(seq![w]).len() == 1 ==> {
            let listed = windows_of(seq![w])[0];
            &&& listed.kind == "window"@
            &&& listed.hwnd == w.hwnd
            &&& listed.pid == w.pid
            &&& listed.title == utf16_text(w.title@.take(w.title_len as int))
            &&& listed.bounds.x == w.rect.left
            &&& listed.bounds.y == w.rect.top
            &&& i32::MIN <= w.rect.right - w.rect.left <= i32::MAX ==> listed.bounds.x
                + listed.bounds.width == w.rect.right
            &&& i32::MIN <= w.rect.bottom - w.rect.top <= i32::MAX ==> listed.bounds.y
                + listed.bounds.height == w.rect.bottom
        },
{
    let ex = w.ex_style;
    assert((ex & 0x80 != 0) == ((ex / 0x80) % 2 != 0)) by (bit_vector);
    assert(seq![w].drop_last() =~= Seq::empty());
    reveal_with_fuel(windows_of, 2);
}

/// The other bits of the extended style do not matter: of two windows that differ
/// in them alone, both are listed or neither is.
pub proof fn law_other_styles_do_not_matter(w: WindowRecord, v: WindowRecord)
    requires
        w.visible == v.visible,
        w.text_length == v.text_length,
        w.title_len == v.title_len,
        w.ex_style & 0x80 == v.ex_style & 0x80,
    ensures
        windows_of(seq![w]).len() == windows_of(seq![v]).len(),
{
    law_windows_are_listed_as_they_are(w);
    law_windows_are_listed_as_they_are(v);
}

/// Whatever the other windows are, a window of a list is in what is offered exactly
/// if it would be offered alone.
pub proof fn law_windows_are_judged_alone(windows: Seq<WindowRecord>, i: int)
    requires
        0 <= i < windows.len(),
    ensures
        windows_of(windows) == windows_of(windows.take(i)) + windows_of(seq![windows[i]])
            + windows_of(windows.skip(i + 1)),
{
    assert(windows =~= windows.take(i + 1) + windows.skip(i + 1));
    assert(windows.take(i + 1) =~= windows.take(i) + seq![windows[i]]);
    law_windows_are_listed_in_order(windows.take(i + 1), windows.skip(i + 1));
    law_windows_are_listed_in_order(windows.take(i), seq![windows[i]]);
}

/// A monitor is listed exactly if the system tells something of it: under its own
/// handle, as the primary one exactly if the lowest bit of its flags is set, and
/// with the corner and the size of its rectangle.
pub proof fn law_displays_are_listed_as_they_are(m: MonitorRecord)
    ensures
        m.info is None ==> displays_of(seq![m]).len() == 0,
        m.info matches Some(info) ==> {
            let listed = displays_of(seq![m])[0];
            &&& displays_of(seq![m]).len() == 1
            &&& listed.kind == "display"@
            &&& listed.monitor_handle == m.handle
            &&& listed.primary == (info.flags & 1 == 1)
            &&& listed.bounds.x == info.rect.left
            &&& listed.bounds.y == info.rect.top
            &&& i32::MIN <= info.rect.right - info.rect.left <= i32::MAX ==> listed.bounds.x
                + listed.bounds.width == info.rect.right
            &&& i32::MIN <= info.rect.bottom - info.rect.top <= i32::MAX ==> listed.bounds.y
                + listed.bounds.height == info.rect.bottom
        },
{
    if let Some(info) = m.info {
        let flags = info.flags;
        assert((flags & 1 == 1) == (flags % 2 == 1)) by (bit_vector);
    }
    assert(seq![m].drop_last() =~= Seq::empty());
    reveal_with_fuel(displays_of, 2);
}

proof fn lemma_first_zero(units: Seq<u16>, i: nat, n: nat)
    requires
        i <= n <= units.len(),
        forall|k: int| i <= k < n ==> #[trigger] units[k] != 0,
        n < units.len() ==> units[n as int] == 0,
    ensures
        zero_from(units, i) == n,
    decreases n - i,
{
    if i < n {
        assert(units[i as int] != 0);
        lemma_first_zero(units, i + 1, n);
    }
}

/// The name of a display is the text of all units in front of the first zero, or of
/// all units where there is no zero; what stands behind a zero does not matter.
pub proof fn law_names_end_at_the_first_zero(m: MonitorRecord, info: MonitorInfo, n: nat)
    requires
        m.info == Some(info),
        n <= info.device@.len(),
        forall|k: int| 0 <= k < n ==> #[trigger] info.device@[k] != 0,
        n < info.device@.len() ==> info.device@[n as int] == 0,
    ensures
        displays_of(seq![m])[0].name == utf16_text(info.device@.take(n as int)),
{
    lemma_first_zero(info.device@, 0, n);
    assert(seq![m].drop_last() =~= Seq::empty());
    reveal_with_fuel(displays_of, 2);
}

/// Capturing without a border starts with build 22621 and capturing the audio of a
/// process with build 22000; whether the system captures at all, and its build, are
/// handed on.
pub proof fn law_capabilities_follow_the_build(wgc: bool, build: u32)
    ensures
        capabilities_of(wgc, build).wgc == wgc,
        capabilities_of(wgc, build).windows_build == build,
        capabilities_of(wgc, build).wgc_border_optional <==> build >= 22621,
        capabilities_of(wgc, build).process_loopback <==> build >= 22000,
{
}

/// The build is what the system answered where the query succeeded, and zero otherwise.
pub proof fn law_build_comes_from_the_answer(status: i32, build: u32)
    ensures
        build_in(Some((0i32, build))) == build,
        status != 0 ==> build_in(Some((status, build))) == 0,
        build_in(None) == 0,
{
}

} // verus!
