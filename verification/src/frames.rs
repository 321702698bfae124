//! Frames and targets: walking a page's frame tree, and choosing among
//! the browser's targets (the first page, the tabs, the target of an
//! iframe).
use vstd::prelude::*;
use crate::text::{text_or, str_eq, push_str, push_decimal, decimal};
use crate::cdp::{Params, object, str_m, bool_m};

verus! {

/// A frame of a page.
#[derive(Debug, Clone)]
pub struct Frame {
    pub id: String,
    pub parent_id: Option<String>,
    pub loader_id: String,
    pub name: Option<String>,
    pub url: String,
    pub security_origin: Option<String>,
    pub mime_type: Option<String>,
}

/// A frame and the frames inside it.
#[derive(Debug)]
pub struct FrameTree {
    pub frame: Frame,
    pub child_frames: Option<Vec<FrameTree>>,
}

/// The event of a frame that navigated.
#[derive(Debug, Clone)]
pub struct FrameNavigatedEvent {
    pub frame: Frame,
}

/// A target of the browser: a page, an iframe, a worker.
#[derive(Debug, Clone)]
pub struct TargetInfo {
    pub target_id: String,
    pub type_: String,
    pub title: String,
    pub url: String,
    pub attached: Option<bool>,
    pub opener_id: Option<String>,
    pub can_access_opener: Option<bool>,
    pub browser_context_id: Option<String>,
}

/// The child frames of a tree, none when it has none.
pub open spec fn children_of(t: FrameTree) -> Seq<FrameTree> {
    match t.child_frames {
        Some(c) => c@,
        None => Seq::empty(),
    }
}

/// The frames of a tree, each before the frames inside it.
pub open spec fn frames_in(t: FrameTree) -> Seq<Frame>
    decreases t,
{
    match t.child_frames {
        Some(c) => seq![t.frame] + frames_in_list(c@),
        None => seq![t.frame],
    }
}

/// The frames of a list of trees, in order.
pub open spec fn frames_in_list(ts: Seq<FrameTree>) -> Seq<Frame>
    decreases ts,
{
    if ts.len() == 0 {
        Seq::empty()
    } else {
        frames_in_list(ts.drop_last()) + frames_in(ts[ts.len() - 1])
    }
}

/// What a frame list shows of a frame: its id, URL, name, parent id and
/// security origin, each empty when the frame has none.
pub struct FrameSummary {
    pub id: String,
    pub url: String,
    pub name: String,
    pub parent_id: String,
    pub security_origin: String,
}

/// The texts of a frame summary.
pub struct SummaryView {
    pub id: Seq<char>,
    pub url: Seq<char>,
    pub name: Seq<char>,
    pub parent_id: Seq<char>,
    pub security_origin: Seq<char>,
}

impl View for FrameSummary {
    type V = SummaryView;

    open spec fn view(&self) -> SummaryView {
        SummaryView {
            id: self.id@,
            url: self.url@,
            name: self.name@,
            parent_id: self.parent_id@,
            security_origin: self.security_origin@,
        }
    }
}

/// The summary of a frame.
pub open spec fn summary_of(f: Frame) -> SummaryView {
    SummaryView {
        id: f.id@,
        url: f.url@,
        name: text_or(f.name, Seq::empty()),
        parent_id: text_or(f.parent_id, Seq::empty()),
        security_origin: text_or(f.security_origin, Seq::empty()),
    }
}

/// The views of a list of summaries.
pub open spec fn summary_views(v: Seq<FrameSummary>) -> Seq<SummaryView> {
    v.map_values(|x: FrameSummary| x@)
}

fn text_of(o: &Option<String>) -> (r: String)
    ensures
        r@ == text_or(*o, Seq::empty()),
{
    match o {
        Some(s) => s.clone(),
        None => String::new(),
    }
}

fn summarize(f: &Frame) -> (r: FrameSummary)
    ensures
        r@ == summary_of(*f),
{
    FrameSummary {
        id: f.id.clone(),
        url: f.url.clone(),
        name: text_of(&f.name),
        parent_id: text_of(&f.parent_id),
        security_origin: text_of(&f.security_origin),
    }
}

fn push_summaries(t: &FrameTree, out: &mut Vec<FrameSummary>)
    ensures
        summary_views(final(out)@) == summary_views(old(out)@) + frames_in(*t).map_values(|f: Frame| summary_of(f)),
    decreases t,
{
    out.push(summarize(&t.frame));
    let ghost start = summary_views(out@);
    assert(start =~= summary_views(old(out)@) + seq![summary_of(t.frame)]);
    match &t.child_frames {
        Some(c) => {
            let mut i: usize = 0;
            while i < c.len()
                invariant
                    i <= c@.len(),
                    t.child_frames == Some(*c),
                    summary_views(out@) == start + frames_in_list(c@.take(i as int)).map_values(|f: Frame| summary_of(f)),
                decreases c@.len() - i,
            {
                let ghost cs = c@.take(i + 1);
                let ghost before = summary_views(out@);
                proof {
                    assert(cs.drop_last() =~= c@.take(i as int));
                    assert(cs[cs.len() - 1] == c@[i as int]);
                }
                proof {
                    assert(decreases_to!(*t => t.child_frames));
                    assert(decreases_to!(t.child_frames => t.child_frames->0));
                    assert(t.child_frames->0 == *c);
                    assert(decreases_to!(c => c@));
                    assert(decreases_to!(c@ => c@[i as int]));
                    assert(decreases_to!(*t => c@[i as int]));
                }
                push_summaries(&c[i], out);
                proof {
                    let f = |f: Frame| summary_of(f);
                    assert(frames_in_list(cs) == frames_in_list(c@.take(i as int)) + frames_in(c@[i as int]));
                    assert(frames_in_list(cs).map_values(f) =~= frames_in_list(c@.take(i as int)).map_values(f)
                        + frames_in(c@[i as int]).map_values(f));
                }
                assert(summary_views(out@) =~= start + frames_in_list(cs).map_values(|f: Frame| summary_of(f)));
                i = i + 1;
            }
            assert(c@.take(c@.len() as int) =~= c@);
        },
        None => {},
    }
    proof {
        let f = |f: Frame| summary_of(f);
        match &t.child_frames {
            Some(c) => {
                let rest = frames_in_list(c@);
                assert(frames_in(*t) == seq![t.frame] + rest);
                assert(frames_in(*t).map_values(f) =~= seq![summary_of(t.frame)] + rest.map_values(f));
            },
            None => {
                assert(frames_in(*t).map_values(f) =~= seq![summary_of(t.frame)]);
            },
        }
    }
    assert(summary_views(out@) =~= summary_views(old(out)@) + frames_in(*t).map_values(|f: Frame| summary_of(f)));
}

/// The frames of a page, each before the frames inside it, as a frame list
/// shows them.
pub fn list_frames(t: &FrameTree) -> (r: Vec<FrameSummary>)
    ensures
        summary_views(r@) == frames_in(*t).map_values(|f: Frame| summary_of(f)),
{
    let mut out: Vec<FrameSummary> = Vec::new();
    push_summaries(t, &mut out);
    assert(summary_views(Seq::<FrameSummary>::empty()) =~= Seq::<SummaryView>::empty());
    assert(Seq::<SummaryView>::empty() + frames_in(*t).map_values(|f: Frame| summary_of(f)) =~= frames_in(*t).map_values(
        |f: Frame| summary_of(f),
    ));
    out
}

/// The URL of the first frame with the given id, in tree order.
pub open spec fn frame_url_of(frames: Seq<Frame>, id: Seq<char>) -> Option<Seq<char>> {
    if exists|i: int| 0 <= i < frames.len() && frames[i].id@ == id {
        let i = choose|i: int| 0 <= i < frames.len() && frames[i].id@ == id
            && forall|j: int| 0 <= j < i ==> frames[j].id@ != id;
        Some(frames[i].url@)
    } else {
        None
    }
}

/// The URL of the frame with the given id.
pub fn find_frame_url(t: &FrameTree, id: &str) -> (r: Option<String>)
    ensures
        r matches Some(u) ==> frame_url_of(frames_in(*t), id@) == Some(u@),
        r is None ==> frame_url_of(frames_in(*t), id@) is None,
{
    let all = list_frames(t);
    let ghost fs = frames_in(*t);
    assert(summary_views(all@).len() == all@.len());
    let mut i: usize = 0;
    while i < all.len()
        invariant
            i <= all@.len(),
            all@.len() == fs.len(),
            fs == frames_in(*t),
            summary_views(all@) == fs.map_values(|f: Frame| summary_of(f)),
            forall|j: int| 0 <= j < i ==> fs[j].id@ != id@,
        decreases all@.len() - i,
    {
        assert(summary_views(all@)[i as int] == summary_of(fs[i as int]));
        if str_eq(all[i].id.as_str(), id) {
            proof {
                let k = choose|k: int| 0 <= k < fs.len() && fs[k].id@ == id@
                    && forall|j: int| 0 <= j < k ==> fs[j].id@ != id@;
                assert(fs[i as int].id@ == id@);
                if k < i {
                    assert(fs[k].id@ != id@);
                } else if k > i {
                    assert(fs[i as int].id@ != id@);
                }
                assert(k == i);
                assert(frame_url_of(fs, id@) == Some(fs[i as int].url@));
                assert(all@[i as int].url@ == fs[i as int].url@);
            }
            let u = all[i].url.clone();
            assert(u@ == fs[i as int].url@);
            assert(frame_url_of(frames_in(*t), id@) == Some(u@));
            return Some(u);
        }
        i = i + 1;
    }
    proof {
        if exists|k: int| 0 <= k < fs.len() && fs[k].id@ == id@ {
            let k = choose|k: int| 0 <= k < fs.len() && fs[k].id@ == id@;
            assert(summary_views(all@)[k] == summary_of(fs[k]));
        }
    }
    None
}

// ───────────────────────── targets ─────────────────────────

/// The index of the first target of the given type.
pub open spec fn first_of_type(ts: Seq<TargetInfo>, kind: Seq<char>) -> Option<int> {
    if exists|i: int| 0 <= i < ts.len() && ts[i].type_@ == kind {
        Some(choose|i: int| 0 <= i < ts.len() && ts[i].type_@ == kind
            && forall|j: int| 0 <= j < i ==> ts[j].type_@ != kind)
    } else {
        None
    }
}

/// The first target that is a page, the one a new browser is driven
/// through.
pub fn first_page_target(ts: &Vec<TargetInfo>) -> (r: Option<usize>)
    ensures
        r matches Some(i) ==> first_of_type(ts@, "page"@) == Some(i as int),
        r is None ==> first_of_type(ts@, "page"@) is None,
{
    let mut i: usize = 0;
    while i < ts.len()
        invariant
            i <= ts@.len(),
            forall|j: int| 0 <= j < i ==> ts@[j].type_@ != "page"@,
        decreases ts@.len() - i,
    {
        if str_eq(ts[i].type_.as_str(), "page") {
            proof {
                let k = choose|k: int| 0 <= k < ts@.len() && ts@[k].type_@ == "page"@
                    && forall|j: int| 0 <= j < k ==> ts@[j].type_@ != "page"@;
                if k < i {
                    assert(ts@[k].type_@ != "page"@);
                } else if k > i {
                    assert(ts@[i as int].type_@ != "page"@);
                }
            }
            return Some(i);
        }
        i = i + 1;
    }
    None
}

/// The page targets, the tabs, in order.
pub open spec fn page_targets(ts: Seq<TargetInfo>) -> Seq<TargetInfo> {
    ts.filter(|t: TargetInfo| t.type_@ == "page"@)
}

/// The indices of the page targets, the tabs, in order.
pub fn tab_indices(ts: &Vec<TargetInfo>) -> (r: Vec<usize>)
    ensures
        r@.map_values(|i: usize| ts@[i as int]) == page_targets(ts@),
        forall|k: int| 0 <= k < r@.len() ==> r@[k] < ts@.len(),
{
    let mut r: Vec<usize> = Vec::new();
    let mut i: usize = 0;
    while i < ts.len()
        invariant
            i <= ts@.len(),
            forall|k: int| 0 <= k < r@.len() ==> r@[k] < i,
            r@.map_values(|j: usize| ts@[j as int]) == ts@.take(i as int).filter(|t: TargetInfo| t.type_@ == "page"@),
        decreases ts@.len() - i,
    {
        let ghost before = r@;
        if str_eq(ts[i].type_.as_str(), "page") {
            r.push(i);
        }
        proof {
            reveal(Seq::filter);
            let t = ts@.take(i + 1);
            assert(t.drop_last() =~= ts@.take(i as int));
            assert(t.last() == ts@[i as int]);
            assert(r@.map_values(|j: usize| ts@[j as int]) =~= t.filter(|t: TargetInfo| t.type_@ == "page"@));
        }
        i = i + 1;
    }
    assert(ts@.take(ts@.len() as int) =~= ts@);
    r
}

/// The message when a tab index is out of range.
pub open spec fn no_tab_message(index: nat, tabs: nat) -> Seq<char> {
    "Tab "@ + decimal(index) + " not found (have "@ + decimal(tabs) + ")"@
}

/// The target of the tab with the given index among the page targets, or
/// the message that there is no such tab.
pub fn tab_target(ts: &Vec<TargetInfo>, index: usize) -> (r: Result<usize, String>)
    ensures
        r matches Ok(i) ==> index < page_targets(ts@).len() && i < ts@.len() && ts@[i as int] == page_targets(ts@)[index as int],
        r matches Err(e) ==> index >= page_targets(ts@).len() && e@ == no_tab_message(index as nat, page_targets(ts@).len()),
{
    let tabs = tab_indices(ts);
    proof {
        assert(tabs@.map_values(|i: usize| ts@[i as int]).len() == tabs@.len());
    }
    if index >= tabs.len() {
        let mut e = String::new();
        push_str(&mut e, "Tab ");
        push_decimal(&mut e, index as u64);
        push_str(&mut e, " not found (have ");
        push_decimal(&mut e, tabs.len() as u64);
        push_str(&mut e, ")");
        return Err(e);
    }
    let i = tabs[index];
    assert(tabs@.map_values(|j: usize| ts@[j as int])[index as int] == ts@[i as int]);
    Ok(i)
}

/// The target of an iframe: an `iframe` target with the frame's id, or
/// (when the frame's URL is known) with the frame's URL.
pub open spec fn is_frame_target(t: TargetInfo, frame_id: Seq<char>, frame_url: Seq<char>) -> bool {
    t.type_@ == "iframe"@ && (t.target_id@ == frame_id || (frame_url.len() > 0 && t.url@ == frame_url))
}

/// The first target that is the given iframe's.
pub fn iframe_target(ts: &Vec<TargetInfo>, frame_id: &str, frame_url: &str) -> (r: Option<usize>)
    ensures
        r matches Some(i) ==> i < ts@.len() && is_frame_target(ts@[i as int], frame_id@, frame_url@)
            && forall|j: int| 0 <= j < i ==> !is_frame_target(#[trigger] ts@[j], frame_id@, frame_url@),
        r is None ==> forall|j: int| 0 <= j < ts@.len() ==> !is_frame_target(#[trigger] ts@[j], frame_id@, frame_url@),
{
    let mut i: usize = 0;
    while i < ts.len()
        invariant
            i <= ts@.len(),
            forall|j: int| 0 <= j < i ==> !is_frame_target(#[trigger] ts@[j], frame_id@, frame_url@),
        decreases ts@.len() - i,
    {
        let t = &ts[i];
        if str_eq(t.type_.as_str(), "iframe") && (str_eq(t.target_id.as_str(), frame_id) || (!frame_url.is_empty()
            && str_eq(t.url.as_str(), frame_url))) {
            return Some(i);
        }
        i = i + 1;
    }
    None
}

// ───────────────────────── the frame scripts run in ─────────────────────────

/// Where scripts run: the page's main frame when no frame is chosen, else
/// the chosen frame, through the DevTools session attached to it when it
/// runs in a process of its own.
#[derive(Debug, Clone)]
pub struct FrameFocus {
    pub frame_id: Option<String>,
    pub frame_session_id: Option<String>,
}

/// How scripts reach the frame they run in.
#[derive(Debug, Clone, Copy, PartialEq, Eq, Structural)]
pub enum FrameMode {
    /// The main frame.
    Main,
    /// A frame of the page's own process, through an isolated world.
    SameProcess,
    /// A frame of another process, through its own session.
    Oop,
}

/// The mode of a focus: by its own session when it has one, else by an
/// isolated world when a frame is chosen, else the main frame.
pub open spec fn mode_of(f: FrameFocus) -> FrameMode {
    if f.frame_session_id is Some {
        FrameMode::Oop
    } else if f.frame_id is Some {
        FrameMode::SameProcess
    } else {
        FrameMode::Main
    }
}

/// The name of a mode: `main`, `same-process` or `oop`.
pub open spec fn mode_name(m: FrameMode) -> Seq<char> {
    match m {
        FrameMode::Main => "main"@,
        FrameMode::SameProcess => "same-process"@,
        FrameMode::Oop => "oop"@,
    }
}

/// The report of a switch to a frame: how it is reached, and its URL.
pub open spec fn switched_text(oop: bool, frame_url: Seq<char>) -> Seq<char> {
    "switched to frame ("@ + (if oop { "OOP"@ } else { "same-process"@ }) + ", url="@ + frame_url + ")"@
}

impl FrameFocus {
    /// Only a chosen frame has a session of its own.
    pub open spec fn well_formed(&self) -> bool {
        self.frame_session_id is Some ==> self.frame_id is Some
    }

    /// The main frame, where scripts run when no frame is chosen.
    pub fn main_frame() -> (f: FrameFocus)
        ensures
            f.frame_id is None,
            f.frame_session_id is None,
            f.well_formed(),
    {
        FrameFocus { frame_id: None, frame_session_id: None }
    }

    /// Goes back to the main frame.
    pub fn to_main(&mut self) -> (m: String)
        ensures
            final(self).frame_id is None,
            final(self).frame_session_id is None,
            final(self).well_formed(),
            m@ == "switched to main frame"@,
    {
        self.frame_id = None;
        self.frame_session_id = None;
        "switched to main frame".to_string()
    }

    /// Chooses a frame of another process, reached through the session
    /// attached to its target.
    pub fn to_oop_frame(&mut self, frame_id: &str, session_id: &str, frame_url: &str) -> (m: String)
        ensures
            final(self).frame_id matches Some(f) && f@ == frame_id@,
            final(self).frame_session_id matches Some(s) && s@ == session_id@,
            final(self).well_formed(),
            m@ == switched_text(true, frame_url@),
    {
        self.frame_id = Some(frame_id.to_string());
        self.frame_session_id = Some(session_id.to_string());
        let mut m = String::new();
        push_str(&mut m, "switched to frame (OOP, url=");
        push_str(&mut m, frame_url);
        push_str(&mut m, ")");
        proof {
            reveal_strlit("switched to frame (OOP, url=");
            reveal_strlit("switched to frame (");
            reveal_strlit("OOP");
            reveal_strlit(", url=");
        }
        assert(m@ =~= switched_text(true, frame_url@));
        m
    }

    /// Chooses a frame of the page's own process, reached through an
    /// isolated world.
    pub fn to_frame_world(&mut self, frame_id: &str, frame_url: &str) -> (m: String)
        ensures
            final(self).frame_id matches Some(f) && f@ == frame_id@,
            final(self).frame_session_id is None,
            final(self).well_formed(),
            m@ == switched_text(false, frame_url@),
    {
        self.frame_id = Some(frame_id.to_string());
        self.frame_session_id = None;
        let mut m = String::new();
        push_str(&mut m, "switched to frame (same-process, url=");
        push_str(&mut m, frame_url);
        push_str(&mut m, ")");
        proof {
            reveal_strlit("switched to frame (same-process, url=");
            reveal_strlit("switched to frame (");
            reveal_strlit("same-process");
            reveal_strlit(", url=");
        }
        assert(m@ =~= switched_text(false, frame_url@));
        m
    }

    /// How scripts reach the chosen frame.
    pub fn mode(&self) -> (m: FrameMode)
        ensures
            m == mode_of(*self),
    {
        if self.frame_session_id.is_some() {
            FrameMode::Oop
        } else if self.frame_id.is_some() {
            FrameMode::SameProcess
        } else {
            FrameMode::Main
        }
    }

    /// What the focus is, as JSON: the frame's id (`none` for the main
    /// frame), whether it has a session of its own, and the mode's name.
    pub fn info(&self) -> (t: String)
        ensures
            t@ == object(str_m("frame_id"@, match self.frame_id { Some(f) => f@, None => "none"@ })
                + bool_m("has_oop_session"@, self.frame_session_id is Some)
                + str_m("mode"@, mode_name(mode_of(*self)))),
    {
        let mut p = Params::new();
        match &self.frame_id {
            Some(f) => p.text("frame_id", f.as_str()),
            None => p.text("frame_id", "none"),
        }
        p.flag("has_oop_session", self.frame_session_id.is_some());
        match self.mode() {
            FrameMode::Main => p.text("mode", "main"),
            FrameMode::SameProcess => p.text("mode", "same-process"),
            FrameMode::Oop => p.text("mode", "oop"),
        }
        proof {
            reveal_strlit("none");
        }
        assert(p.members() =~= str_m("frame_id"@, match self.frame_id { Some(f) => f@, None => "none"@ })
            + bool_m("has_oop_session"@, self.frame_session_id is Some)
            + str_m("mode"@, mode_name(mode_of(*self))));
        p.command("").params
    }
}

/// How a switch to a frame reaches it.
#[derive(Debug, Clone, Copy, PartialEq, Eq, Structural)]
pub enum FrameRoute {
    /// The frame is the page's main frame.
    Main,
    /// Attach to the target at this index, the frame's own process.
    Target(usize),
    /// Reach it through an isolated world of the page.
    World,
}

/// The URL of a frame of a tree, empty when no frame has the id.
pub open spec fn url_or_empty(t: FrameTree, id: Seq<char>) -> Seq<char> {
    match frame_url_of(frames_in(t), id) {
        Some(u) => u,
        None => Seq::empty(),
    }
}

/// How to switch to a frame: the main frame is switched to directly; else
/// through the first `iframe` target with the frame's id or URL, else
/// through an isolated world. The frame's URL comes along (empty when the
/// tree has no such frame).
pub fn frame_route(t: &FrameTree, ts: &Vec<TargetInfo>, frame_id: &str) -> (r: (FrameRoute, String))
    ensures
        frame_id@ == t.frame.id@ ==> r.0 == FrameRoute::Main,
        frame_id@ != t.frame.id@ ==> {
            &&& r.1@ == url_or_empty(*t, frame_id@)
            &&& match r.0 {
                FrameRoute::Main => false,
                FrameRoute::Target(i) => i < ts@.len() && is_frame_target(ts@[i as int], frame_id@, r.1@)
                    && forall|j: int| 0 <= j < i ==> !is_frame_target(#[trigger] ts@[j], frame_id@, r.1@),
                FrameRoute::World => forall|j: int| 0 <= j < ts@.len() ==> !is_frame_target(#[trigger] ts@[j], frame_id@, r.1@),
            }
        },
{
    if str_eq(t.frame.id.as_str(), frame_id) {
        return (FrameRoute::Main, String::new());
    }
    let url = match find_frame_url(t, frame_id) {
        Some(u) => u,
        None => String::new(),
    };
    match iframe_target(ts, frame_id, url.as_str()) {
        Some(i) => (FrameRoute::Target(i), url),
        None => (FrameRoute::World, url),
    }
}

} // verus!
