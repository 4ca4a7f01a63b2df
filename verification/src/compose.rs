//! The render composer: given a viewport, the screen state, and the
//! selection model, produce the full visual output of one frame — the three
//! base regions with their content, plus at most one centered overlay.

use crate::geometry::{
    centered_rect, centered_rect_spec, create_main_layout, footer_split_spec, main_layout_spec,
    rect_wf, split_footer, Rect,
};
use crate::screen::{hint_text, hint_text_spec, nav_label, nav_label_spec, CurrentScreen};
use crate::selection::{no_selection_text, StatefulList};
use vstd::prelude::*;

verus! {

/// The title bar's text.
pub open spec fn title_text_spec() -> Seq<char> {
    "Task Manager"@
}

/// The exit-confirmation overlay's prompt.
pub open spec fn exit_prompt_spec() -> Seq<char> {
    "Do you want to exit Task Manager?"@
}

/// The glyph prefixed to the marked list entry when it is drawn.
pub open spec fn highlight_marker_spec() -> Seq<char> {
    "* "@
}

/// The title bar's text.
pub fn title_text() -> (r: String)
    ensures
        r@ == title_text_spec(),
{
    "Task Manager".to_string()
}

/// The glyph prefixed to the marked list entry when it is drawn.
pub fn highlight_marker() -> (r: String)
    ensures
        r@ == highlight_marker_spec(),
{
    "* ".to_string()
}

/// One row of the task list: its text, and whether it is the marked
/// (selected) entry of this frame.
pub struct ListEntry {
    pub text: String,
    pub marked: bool,
}

/// Which overlay a frame shows.
#[derive(Clone, Copy, PartialEq, Eq, Structural, Debug)]
pub enum OverlayKind {
    TaskDetail,
    ExitConfirm,
}

/// A positioned overlay block, drawn last so it sits above the base layout.
pub struct Overlay {
    pub kind: OverlayKind,
    pub region: Rect,
    pub body: String,
}

/// Everything one frame draws: the three base regions with their content,
/// the footer's two parts, and at most one overlay.
pub struct FrameOutput {
    pub title_region: Rect,
    pub title: String,
    pub list_region: Rect,
    pub entries: Vec<ListEntry>,
    pub nav_region: Rect,
    pub nav: String,
    pub hint_region: Rect,
    pub hint: String,
    pub overlay: Option<Overlay>,
}

/// Compose one frame. Pure in its inputs: the same viewport, screen state
/// and selection model always yield the same output, and nothing is retained
/// across frames.
pub fn render(viewport: Rect, screen: CurrentScreen, list: &StatefulList) -> (out: FrameOutput)
    requires
        rect_wf(viewport),
        list.wf(),
    ensures
        out.title_region == main_layout_spec(viewport).title,
        out.list_region == main_layout_spec(viewport).list,
        out.nav_region == footer_split_spec(main_layout_spec(viewport).footer).0,
        out.hint_region == footer_split_spec(main_layout_spec(viewport).footer).1,
        out.title@ == title_text_spec(),
        out.nav@ == nav_label_spec(screen),
        out.hint@ == hint_text_spec(screen),
        out.entries@.len() == list.items().len(),
        forall|i: int|
            0 <= i < list.items().len() ==> (#[trigger] out.entries@[i]).text@
                == list.items()[i]@,
        forall|i: int|
            0 <= i < list.items().len() ==> (#[trigger] out.entries@[i]).marked == (list.sel()
                == Some(i as usize)),
        match screen {
            CurrentScreen::Main => out.overlay is None,
            CurrentScreen::Editing => out.overlay is None,
            CurrentScreen::Task => out.overlay matches Some(o) && o.kind
                == OverlayKind::TaskDetail && o.region == centered_rect_spec(20, 20, viewport) && (
            list.sel() is None ==> o.body@ == no_selection_text()) && (list.sel() matches Some(i)
                ==> o.body@ == list.items()[i as int]@),
            CurrentScreen::Exiting => out.overlay matches Some(o) && o.kind
                == OverlayKind::ExitConfirm && o.region == centered_rect_spec(60, 25, viewport)
                && o.body@ == exit_prompt_spec(),
        },
{
    let layout = create_main_layout(viewport);
    let (nav_region, hint_region) = split_footer(layout.footer);

    let sel = list.selected();
    let n = list.len();
    let mut entries: Vec<ListEntry> = Vec::new();
    let mut idx: usize = 0;
    while idx < n
        invariant
            n == list.items().len(),
            sel == list.sel(),
            list.wf(),
            idx <= n,
            entries@.len() == idx,
            forall|i: int|
                0 <= i < idx ==> (#[trigger] entries@[i]).text@ == list.items()[i]@,
            forall|i: int|
                0 <= i < idx ==> (#[trigger] entries@[i]).marked == (list.sel() == Some(
                    i as usize,
                )),
        decreases n - idx,
    {
        let marked = match sel {
            Some(s) => s == idx,
            None => false,
        };
        entries.push(ListEntry { text: list.task_at(idx).clone(), marked });
        idx = idx + 1;
    }

    let overlay = match screen {
        CurrentScreen::Main => None,
        CurrentScreen::Editing => None,
        CurrentScreen::Task => Some(
            Overlay {
                kind: OverlayKind::TaskDetail,
                region: centered_rect(20, 20, viewport),
                body: list.current(),
            },
        ),
        CurrentScreen::Exiting => Some(
            Overlay {
                kind: OverlayKind::ExitConfirm,
                region: centered_rect(60, 25, viewport),
                body: "Do you want to exit Task Manager?".to_string(),
            },
        ),
    };

    FrameOutput {
        title_region: layout.title,
        title: title_text(),
        list_region: layout.list,
        entries,
        nav_region,
        nav: nav_label(screen),
        hint_region,
        hint: hint_text(screen),
        overlay,
    }
}

} // verus!
