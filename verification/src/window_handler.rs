//! Top-level windows as the window manager reports them, the rule that tells
//! an application window from the rest, and the pass that turns one walk over
//! the windows into the list of open application windows.

use vstd::prelude::*;

verus! {

/// Style bits of an overlapped window with caption, menu, frame and buttons.
pub const WS_OVERLAPPEDWINDOW: u32 = 0x00CF_0000;

/// Style bit of a popup window.
pub const WS_POPUP: u32 = 0x8000_0000;

/// Extended style bit of a tool window.
pub const WS_EX_TOOLWINDOW: u32 = 0x0000_0080;

/// The layout rectangle of a window, in screen coordinates.
#[derive(Clone, Copy, Debug, PartialEq, Eq)]
pub struct WindowRect {
    pub left: i32,
    pub top: i32,
    pub right: i32,
    pub bottom: i32,
}

impl WindowRect {
    /// The rectangle's width; zero or negative for a degenerate rectangle.
    pub open spec fn width(self) -> int {
        self.right - self.left
    }

    /// The rectangle's height; zero or negative for a degenerate rectangle.
    pub open spec fn height(self) -> int {
        self.bottom - self.top
    }

    /// Whether both extents are strictly positive.
    pub fn has_size(&self) -> (b: bool)
        ensures
            b == (self.width() > 0 && self.height() > 0),
    {
        self.right > self.left && self.bottom > self.top
    }
}

/// What reading one top-level window gives, before any filtering.
#[derive(Clone, Debug, PartialEq, Eq)]
pub struct WindowProbe {
    /// The native handle, valid only while the window lives.
    pub hwnd: isize,
    pub title: String,
    pub class_name: String,
    pub process_id: u32,
    pub visible: bool,
    /// The base style bits.
    pub style: u32,
    /// The extended style bits.
    pub ex_style: u32,
    pub rect: WindowRect,
    /// Whether the compositor keeps the window hidden. It is recorded and
    /// deliberately not part of the classification.
    pub cloaked: bool,
}

/// The virtual desktop that a lookup by window handle found. Each of the two
/// identities is asked for separately and may be missing on its own.
#[derive(Clone, Copy, Debug, PartialEq, Eq)]
pub struct DesktopLookup {
    /// The desktop's identifier, good for this session only.
    pub id: Option<u128>,
    /// The desktop's zero-based position.
    pub index: Option<u32>,
}

/// One window of a walk: what was read of it, the executable of its process
/// where that could be resolved, and its desktop where the lookup succeeded.
#[derive(Clone, Debug, PartialEq, Eq)]
pub struct WindowSighting {
    pub probe: WindowProbe,
    pub path: Option<String>,
    pub desktop: Option<DesktopLookup>,
}

/// The five fields of a window that outlive the session that saw it.
pub struct WindowRecord {
    pub title: Seq<char>,
    pub executable_path: Seq<char>,
    pub process_id: u32,
    pub class_name: Seq<char>,
    pub virtual_desktop_index: u32,
}

/// An open application window: its record and the two native identities that
/// mean something only in the session that produced them.
pub struct LiveWindow {
    pub record: WindowRecord,
    pub hwnd: isize,
    pub desktop_id: u128,
}

/// An open application window as one walk over the windows found it.
#[derive(Clone, Debug, PartialEq, Eq)]
pub struct WindowInfo {
    pub hwnd: isize,
    pub title: String,
    pub class_name: String,
    pub process_id: u32,
    pub desktop_id: u128,
    pub path: String,
    pub desktop_index: u32,
}

impl View for WindowInfo {
    type V = LiveWindow;

    open spec fn view(&self) -> LiveWindow {
        LiveWindow {
            record: WindowRecord {
                title: self.title@,
                executable_path: self.path@,
                process_id: self.process_id,
                class_name: self.class_name@,
                virtual_desktop_index: self.desktop_index,
            },
            hwnd: self.hwnd,
            desktop_id: self.desktop_id,
        }
    }
}

/// The models of a list of open windows, in the list's order.
pub open spec fn live_windows(windows: Seq<WindowInfo>) -> Seq<LiveWindow> {
    windows.map_values(|w: WindowInfo| w@)
}

/// The classification: a window counts as an application window exactly when
/// it has a title, is visible, is an overlapped or popup window, is no tool
/// window, and covers a rectangle of positive width and height.
pub open spec fn is_real_window(p: WindowProbe) -> bool {
    &&& p.title@.len() > 0
    &&& p.visible
    &&& ((p.style & WS_OVERLAPPEDWINDOW) != 0 || (p.style & WS_POPUP) != 0)
    &&& (p.ex_style & WS_EX_TOOLWINDOW) == 0
    &&& p.rect.width() > 0
    &&& p.rect.height() > 0
}

/// The desktop identifier recorded for a window: the one looked up, and zero
/// where the lookup or the identifier is missing.
pub open spec fn desktop_id_of(desktop: Option<DesktopLookup>) -> u128 {
    match desktop {
        Some(found) => match found.id {
            Some(id) => id,
            None => 0,
        },
        None => 0,
    }
}

/// The desktop position recorded for a window: the one looked up, and zero
/// where the lookup or the position is missing.
pub open spec fn desktop_index_of(desktop: Option<DesktopLookup>) -> u32 {
    match desktop {
        Some(found) => match found.index {
            Some(index) => index,
            None => 0,
        },
        None => 0,
    }
}

/// The executable path recorded for a window: the one resolved, and the
/// empty text where it could not be resolved.
pub open spec fn path_of(path: Option<String>) -> Seq<char> {
    match path {
        Some(p) => p@,
        None => Seq::empty(),
    }
}

/// The open window that a sighting stands for.
pub open spec fn observed(s: WindowSighting) -> LiveWindow {
    LiveWindow {
        record: WindowRecord {
            title: s.probe.title@,
            executable_path: path_of(s.path),
            process_id: s.probe.process_id,
            class_name: s.probe.class_name@,
            virtual_desktop_index: desktop_index_of(s.desktop),
        },
        hwnd: s.probe.hwnd,
        desktop_id: desktop_id_of(s.desktop),
    }
}

/// The result of one pass: the sightings that classify as application
/// windows, in the order of the walk, each as the window it stands for.
pub open spec fn enumerate(sightings: Seq<WindowSighting>) -> Seq<LiveWindow> {
    sightings.filter(|s: WindowSighting| is_real_window(s.probe)).map_values(
        |s: WindowSighting| observed(s),
    )
}

impl WindowProbe {
    /// Classifies the window.
    pub fn is_real(&self) -> (b: bool)
        ensures
            b == is_real_window(*self),
    {
        !self.title.as_str().is_empty() && self.visible && ((self.style & WS_OVERLAPPEDWINDOW) != 0
            || (self.style & WS_POPUP) != 0) && (self.ex_style & WS_EX_TOOLWINDOW) == 0
            && self.rect.has_size()
    }
}

/// The identifier of the desktop a window is on, zero where it is unknown.
/// A failed lookup is no error of the pass.
pub fn get_window_desktop_id(desktop: &Option<DesktopLookup>) -> (id: u128)
    ensures
        id == desktop_id_of(*desktop),
{
    match desktop {
        Some(found) => match found.id {
            Some(id) => id,
            None => 0,
        },
        None => 0,
    }
}

/// The position of the desktop a window is on, zero where it is unknown.
pub fn get_window_desktop_index(desktop: &Option<DesktopLookup>) -> (index: u32)
    ensures
        index == desktop_index_of(*desktop),
{
    match desktop {
        Some(found) => match found.index {
            Some(index) => index,
            None => 0,
        },
        None => 0,
    }
}

/// Takes one window of the walk into the list if it classifies as an
/// application window, and leaves the list as it is otherwise. The walk goes
/// on in either case.
pub fn enum_windows_proc(open_windows: &mut Vec<WindowInfo>, sighting: &WindowSighting) -> (go_on:
    bool)
    ensures
        go_on,
        is_real_window(sighting.probe) ==> {
            &&& final(open_windows)@.len() == old(open_windows)@.len() + 1
            &&& final(open_windows)@.drop_last() == old(open_windows)@
            &&& final(open_windows)@.last()@ == observed(*sighting)
        },
        !is_real_window(sighting.probe) ==> final(open_windows)@ == old(open_windows)@,
{
    if sighting.probe.is_real() {
        let path = match &sighting.path {
            Some(p) => p.clone(),
            None => String::new(),
        };
        let window = WindowInfo {
            hwnd: sighting.probe.hwnd,
            title: sighting.probe.title.clone(),
            class_name: sighting.probe.class_name.clone(),
            process_id: sighting.probe.process_id,
            desktop_id: get_window_desktop_id(&sighting.desktop),
            path,
            desktop_index: get_window_desktop_index(&sighting.desktop),
        };
        open_windows.push(window);
    }
    true
}

/// Why no connection to the virtual-desktop subsystem could be had.
#[derive(Clone, Copy, Debug, PartialEq, Eq)]
pub enum SessionError {
    /// The subsystem cannot be reached, or the threading model that it needs
    /// could not be set up.
    SubsystemUnavailable,
}

/// The token of a session with the virtual-desktop subsystem. Only
/// [`create_virtual_desktop_manager`] makes one, and only when it is told
/// that both steps of connecting went through; whether they did is the
/// caller's word. It carries no state.
#[derive(Debug)]
pub struct DesktopSession {
    sealed: (),
}

/// Decides whether a session stands, from the two steps of connecting: the
/// threading model was set up, and the subsystem answered the activation.
pub fn create_virtual_desktop_manager(threading_ready: bool, subsystem_reached: bool) -> (session:
    Result<DesktopSession, SessionError>)
    ensures
        session is Ok <==> threading_ready && subsystem_reached,
        session is Err ==> session->Err_0 == SessionError::SubsystemUnavailable,
{
    if threading_ready && subsystem_reached {
        Ok(DesktopSession { sealed: () })
    } else {
        Err(SessionError::SubsystemUnavailable)
    }
}

/// One more sighting at the end of a walk adds its window at the end of the
/// result if it classifies, and changes nothing otherwise.
pub proof fn lemma_enumerate_push(sightings: Seq<WindowSighting>, next: WindowSighting)
    ensures
        enumerate(sightings.push(next)) == if is_real_window(next.probe) {
            enumerate(sightings).push(observed(next))
        } else {
            enumerate(sightings)
        },
{
    reveal(Seq::filter);
    assert(sightings.push(next).drop_last() =~= sightings);
}

/// The open application windows of one finished walk, in the walk's order.
/// Every sighting is classified; what does not classify is left out, and a
/// missing path or desktop never ends the pass.
pub fn get_open_windows(session: &DesktopSession, sightings: &Vec<WindowSighting>) -> (open_windows:
    Vec<WindowInfo>)
    ensures
        live_windows(open_windows@) == enumerate(sightings@),
{
    let mut open_windows: Vec<WindowInfo> = Vec::new();
    let mut i: usize = 0;
    while i < sightings.len()
        invariant
            i <= sightings.len(),
            live_windows(open_windows@) == enumerate(sightings@.take(i as int)),
        decreases sightings.len() - i,
    {
        enum_windows_proc(&mut open_windows, &sightings[i]);
        proof {
            let seen = sightings@.take(i as int);
            let next = sightings@[i as int];
            lemma_enumerate_push(seen, next);
            assert(sightings@.take(i + 1) =~= seen.push(next));
        }
        i += 1;
    }
    assert(sightings@.take(i as int) =~= sightings@);
    open_windows
}

/// Whether two sightings agree in all that does not depend on which process
/// and which session showed the window: the texts, what the classification
/// reads, the resolved path and the desktop's position.
pub open spec fn same_window_state(a: WindowSighting, b: WindowSighting) -> bool {
    &&& a.probe.title@ == b.probe.title@
    &&& a.probe.class_name@ == b.probe.class_name@
    &&& a.probe.visible == b.probe.visible
    &&& a.probe.style == b.probe.style
    &&& a.probe.ex_style == b.probe.ex_style
    &&& a.probe.rect == b.probe.rect
    &&& path_of(a.path) == path_of(b.path)
    &&& desktop_index_of(a.desktop) == desktop_index_of(b.desktop)
}

/// Whether two records agree in title, class name, path and desktop
/// position, that is in all but the process id.
pub open spec fn same_record_but_process(a: WindowRecord, b: WindowRecord) -> bool {
    &&& a.title == b.title
    &&& a.class_name == b.class_name
    &&& a.executable_path == b.executable_path
    &&& a.virtual_desktop_index == b.virtual_desktop_index
}

/// Enumerating twice while no window changes gives the same windows: if two
/// walks see, place by place, windows in the same state, the two results
/// have the same length and agree, place by place, in title, class name,
/// path and desktop position.
pub proof fn lemma_enumeration_is_repeatable(
    first: Seq<WindowSighting>,
    second: Seq<WindowSighting>,
)
    requires
        first.len() == second.len(),
        forall|i: int| 0 <= i < first.len() ==> same_window_state(#[trigger] first[i], second[i]),
    ensures
        enumerate(first).len() == enumerate(second).len(),
        forall|j: int|
            0 <= j < enumerate(first).len() ==> same_record_but_process(
                #[trigger] enumerate(first)[j].record,
                enumerate(second)[j].record,
            ),
    decreases first.len(),
{
    if first.len() == 0 {
        reveal(Seq::filter);
    } else {
        let a = first.drop_last();
        let b = second.drop_last();
        lemma_enumeration_is_repeatable(a, b);
        lemma_enumerate_push(a, first.last());
        lemma_enumerate_push(b, second.last());
        assert(first =~= a.push(first.last()));
        assert(second =~= b.push(second.last()));
    }
}

/// What the classification turns away: a window without a title, a window
/// whose rectangle has no width or no height, and a tool window.
pub proof fn lemma_classification_rejects(p: WindowProbe)
    ensures
        p.title@.len() == 0 ==> !is_real_window(p),
        p.rect.width() <= 0 || p.rect.height() <= 0 ==> !is_real_window(p),
        (p.ex_style & WS_EX_TOOLWINDOW) != 0 ==> !is_real_window(p),
        !p.visible ==> !is_real_window(p),
{
}

/// Whether the compositor cloaks a window plays no part in the
/// classification: a cloaked window is listed like any other.
pub proof fn lemma_cloak_is_no_filter(p: WindowProbe, cloaked: bool)
    ensures
        is_real_window(WindowProbe { cloaked, ..p }) == is_real_window(p),
{
}

/// Whether the sighting at place `i` of a walk classifies as an application
/// window and stands for the window `listed`.
pub open spec fn is_sighting_of(
    sightings: Seq<WindowSighting>,
    i: int,
    listed: LiveWindow,
) -> bool {
    &&& 0 <= i < sightings.len()
    &&& is_real_window(sightings[i].probe)
    &&& observed(sightings[i]) == listed
}

/// Only what classifies is listed: every window of a pass stands for a
/// sighting of the walk that classifies as an application window, so it has
/// a title.
pub proof fn lemma_listed_window_was_sighted(sightings: Seq<WindowSighting>, j: int)
    requires
        0 <= j < enumerate(sightings).len(),
    ensures
        exists|i: int| is_sighting_of(sightings, i, enumerate(sightings)[j]),
        enumerate(sightings)[j].record.title.len() > 0,
{
    let keep = |s: WindowSighting| is_real_window(s.probe);
    let kept = sightings.filter(keep);
    sightings.lemma_filter_pred(keep, j);
    sightings.lemma_filter_contains_rev(keep, kept[j]);
    let i = choose|i: int| 0 <= i < sightings.len() && sightings[i] == kept[j];
    assert(is_sighting_of(sightings, i, enumerate(sightings)[j]));
}

/// A walk in which nothing classifies as an application window lists
/// nothing.
pub proof fn lemma_nothing_real_nothing_listed(sightings: Seq<WindowSighting>)
    requires
        forall|i: int| 0 <= i < sightings.len() ==> !is_real_window(#[trigger] sightings[i].probe),
    ensures
        enumerate(sightings).len() == 0,
{
    if enumerate(sightings).len() > 0 {
        lemma_listed_window_was_sighted(sightings, 0);
        let i = choose|i: int| is_sighting_of(sightings, i, enumerate(sightings)[0]);
        assert(is_real_window(sightings[i].probe));
    }
}

/// A pass keeps the order of the walk: of two windows that are listed, the
/// one listed first stands for a sighting that came earlier in the walk.
pub proof fn lemma_enumeration_keeps_walk_order(sightings: Seq<WindowSighting>, j1: int, j2: int)
    requires
        0 <= j1 < j2 < enumerate(sightings).len(),
    ensures
        exists|i1: int, i2: int|
            i1 < i2 && is_sighting_of(sightings, i1, enumerate(sightings)[j1]) && is_sighting_of(
                sightings,
                i2,
                enumerate(sightings)[j2],
            ),
    decreases sightings.len(),
{
    if sightings.len() == 0 {
        reveal(Seq::filter);
    } else {
        let front = sightings.drop_last();
        let last = sightings.last();
        lemma_enumerate_push(front, last);
        assert(sightings =~= front.push(last));
        if j2 < enumerate(front).len() {
            lemma_enumeration_keeps_walk_order(front, j1, j2);
            let (i1, i2) = choose|i1: int, i2: int|
                i1 < i2 && is_sighting_of(front, i1, enumerate(front)[j1]) && is_sighting_of(
                    front,
                    i2,
                    enumerate(front)[j2],
                );
            assert(is_sighting_of(sightings, i1, enumerate(sightings)[j1]));
            assert(is_sighting_of(sightings, i2, enumerate(sightings)[j2]));
        } else {
            lemma_listed_window_was_sighted(front, j1);
            let i1 = choose|i1: int| is_sighting_of(front, i1, enumerate(front)[j1]);
            let i2 = sightings.len() - 1;
            assert(is_sighting_of(sightings, i1, enumerate(sightings)[j1]));
            assert(is_sighting_of(sightings, i2, enumerate(sightings)[j2]));
        }
    }
}

} // verus!
