//! The syntax-highlighted file view: the consumer of the
//! application-domain job slot, including the freshness check that
//! keeps a superseded highlight from ever being shown.

use vstd::prelude::*;

use crate::input::{InputEvent, KeyConfig, KeyInput};
use crate::jobs::{AsyncSingleJob, ProgressPercent};
use crate::string_utils::{tabs_to_spaces, tabs_to_spaces_spec};
use crate::ui::{
    common_nav, common_nav_spec, EventState, MoveSelection, ParagraphState, ScrollPos,
};
use crate::{AsyncAppNotification, AsyncNotification, SyntaxHighlightProgress};
use vstd::string::StringExecFns;

verus! {

/// A highlighted document as the background highlighter hands it back:
/// the path it was computed for — the subject of the freshness check —
/// and the text that was highlighted.
pub struct SyntaxText {
    pub path: String,
    pub text: String,
}

impl SyntaxText {
    pub fn new(text: String, path: String) -> (r: SyntaxText)
        ensures
            r.text == text,
            r.path == path,
    {
        SyntaxText { path, text }
    }

    /// The path this highlight describes.
    pub fn path(&self) -> (r: &String)
        ensures
            r == &self.path,
    {
        &self.path
    }
}

/// The owned input snapshot a highlighting job runs on. The job may
/// finish long after the view has moved on; it never references live
/// view state.
pub struct AsyncSyntaxJob {
    pub content: String,
    pub path: String,
}

impl AsyncSyntaxJob {
    pub fn new(content: String, path: String) -> (r: AsyncSyntaxJob)
        ensures
            r.content == content,
            r.path == path,
    {
        AsyncSyntaxJob { content, path }
    }
}

/// What the view currently shows for a file: the finished highlight,
/// or the plain text while the highlight is still being computed (also
/// the home of a load-error message).
pub enum FileContent {
    Syntax(SyntaxText),
    Plain(String),
}

/// The component that owns the highlight job slot and the file being
/// shown.
pub struct SyntaxTextComponent {
    /// The file of interest: its path and what is shown for it.
    pub current_file: Option<(String, FileContent)>,
    /// The single-outstanding-job slot for highlighting work.
    pub async_highlighting: AsyncSingleJob<AsyncSyntaxJob, SyntaxText>,
    /// Progress of the outstanding highlight, mirrored for the title.
    pub syntax_progress: Option<ProgressPercent>,
    /// Scroll state of the paragraph that renders the content.
    pub paragraph_state: ParagraphState,
    pub focused: bool,
    pub key_config: KeyConfig,
}

impl SyntaxTextComponent {
    pub fn new(key_config: KeyConfig) -> (r: SyntaxTextComponent)
        ensures
            r.current_file is None,
            !r.async_highlighting.is_pending_spec(),
            r.async_highlighting.last_spec() is None,
            r.syntax_progress is None,
            r.paragraph_state == (ParagraphState {
                scroll: ScrollPos { x: 0, y: 0 },
                lines: 0,
                height: 0,
            }),
            !r.focused,
            r.key_config == key_config,
    {
        SyntaxTextComponent {
            current_file: None,
            async_highlighting: AsyncSingleJob::new(),
            syntax_progress: None,
            paragraph_state: ParagraphState::new(),
            focused: false,
            key_config,
        }
    }

    /// The file entry after a completed highlight is consumed: the
    /// highlight is applied only if it describes the file currently of
    /// interest; a stale one is discarded and the entry kept as it is.
    pub open spec fn applied_file(pre: Self) -> Option<(String, FileContent)> {
        match pre.async_highlighting.last_spec() {
            Some(syntax) => match pre.current_file {
                Some(pc) => if syntax.path@ == pc.0@ {
                    Some((pc.0, FileContent::Syntax(syntax)))
                } else {
                    pre.current_file
                },
                None => None,
            },
            None => pre.current_file,
        }
    }

    /// React to a bus notification. A progress signal refreshes the
    /// mirrored percentage; a completion consumes the slot's result and
    /// applies it only if it passes the freshness check. Signals of
    /// other domains leave the component untouched.
    pub fn update(&mut self, ev: AsyncNotification)
        ensures
            ev == AsyncNotification::App(
                AsyncAppNotification::SyntaxHighlighting(SyntaxHighlightProgress::Progress),
            ) ==> *final(self) == (SyntaxTextComponent {
                syntax_progress: old(self).async_highlighting.progress_spec(),
                ..*old(self)
            }),
            ev == AsyncNotification::App(
                AsyncAppNotification::SyntaxHighlighting(SyntaxHighlightProgress::Done),
            ) ==> {
                &&& final(self).syntax_progress is None
                &&& final(self).async_highlighting.last_spec() is None
                &&& final(self).async_highlighting.next_spec()
                    == old(self).async_highlighting.next_spec()
                &&& final(self).async_highlighting.running_spec()
                    == old(self).async_highlighting.running_spec()
                &&& final(self).current_file == Self::applied_file(*old(self))
                &&& final(self).paragraph_state == old(self).paragraph_state
                &&& final(self).focused == old(self).focused
                &&& final(self).key_config == old(self).key_config
            },
            !(ev matches AsyncNotification::App(_)) ==> *final(self) == *old(self),
    {
        match ev {
            AsyncNotification::App(AsyncAppNotification::SyntaxHighlighting(progress)) => {
                match progress {
                    SyntaxHighlightProgress::Progress => {
                        self.syntax_progress = self.async_highlighting.progress();
                    },
                    SyntaxHighlightProgress::Done => {
                        self.syntax_progress = None;
                        match self.async_highlighting.take_last() {
                            Some(syntax) => {
                                match self.current_file.take() {
                                    Some((path, content)) => {
                                        if syntax.path == path {
                                            self.current_file = Some((
                                                path,
                                                FileContent::Syntax(syntax),
                                            ));
                                        } else {
                                            self.current_file = Some((path, content));
                                        }
                                    },
                                    None => {},
                                }
                            },
                            None => {},
                        }
                    },
                }
            },
            AsyncNotification::Git(_) => {},
        }
    }

    /// Whether the highlight slot still owes a completion. This is the
    /// component's contribution to the aggregate busy flag.
    pub fn any_work_pending(&self) -> (r: bool)
        ensures
            r == self.async_highlighting.is_pending_spec(),
    {
        self.async_highlighting.is_pending()
    }

    /// Forget the file being shown.
    pub fn clear(&mut self)
        ensures
            *final(self) == (SyntaxTextComponent { current_file: None, ..*old(self) }),
    {
        self.current_file = None;
    }

    /// Show `path`. `fetched` is the outcome of reading the file from
    /// the repository, which happens outside this component: the raw
    /// content, or the error text of a failed read. A fresh content
    /// spawns a highlight job on the slot (superseding an outstanding
    /// one) and shows the plain text until the highlight lands; a read
    /// error is shown in place of the content. Loading the file already
    /// shown does nothing.
    pub fn load_file(&mut self, path: String, fetched: Result<String, String>)
        ensures
            ({
                let already = match old(self).current_file {
                    Some(pc) => pc.0@ == path@,
                    None => false,
                };
                &&& already ==> *final(self) == *old(self)
                &&& !already ==> match fetched {
                    Ok(content) => {
                        &&& (final(self).current_file matches Some(pc2) && pc2.0 == path && (
                        pc2.1 matches FileContent::Plain(shown) && shown@ == tabs_to_spaces_spec(
                            content@,
                        )))
                        &&& final(self).syntax_progress == Some(ProgressPercent { progress: 0 })
                        &&& (final(self).async_highlighting.next_spec() matches Some(job)
                            && job.path == path && job.content@ == tabs_to_spaces_spec(content@))
                        &&& final(self).async_highlighting.last_spec() is None
                        &&& final(self).async_highlighting.running_spec() == old(
                            self,
                        ).async_highlighting.running_spec()
                        &&& final(self).paragraph_state == old(self).paragraph_state
                        &&& final(self).focused == old(self).focused
                        &&& final(self).key_config == old(self).key_config
                    },
                    Err(err) => {
                        &&& (final(self).current_file matches Some(pc2) && pc2.0 == path && (
                        pc2.1 matches FileContent::Plain(shown) && shown@
                            == "error loading file: "@ + err@))
                        &&& final(self).async_highlighting == old(self).async_highlighting
                        &&& final(self).syntax_progress == old(self).syntax_progress
                        &&& final(self).paragraph_state == old(self).paragraph_state
                        &&& final(self).focused == old(self).focused
                        &&& final(self).key_config == old(self).key_config
                    },
                }
            }),
    {
        let already_loaded = match &self.current_file {
            Some(pc) => pc.0 == path,
            None => false,
        };
        if !already_loaded {
            match fetched {
                Ok(content) => {
                    let content = tabs_to_spaces(content);
                    self.syntax_progress = Some(ProgressPercent::empty());
                    let job = AsyncSyntaxJob::new(content.clone(), path.clone());
                    let _ = self.async_highlighting.spawn(job);
                    self.current_file = Some((path, FileContent::Plain(content)));
                },
                Err(err) => {
                    let msg = String::from_str("error loading file: ").concat(err.as_str());
                    self.current_file = Some((path, FileContent::Plain(msg)));
                },
            }
        }
    }

    /// The scroll offset the given navigation request aims at, before
    /// clamping.
    pub open spec fn scroll_target_spec(state: ParagraphState, nav: MoveSelection) -> u16 {
        match nav {
            MoveSelection::Down => state.scroll.y.saturating_add(1),
            MoveSelection::Up => state.scroll.y.saturating_sub(1),
            MoveSelection::Top => 0,
            MoveSelection::End => state.max_scroll(),
            MoveSelection::PageUp => state.scroll.y.saturating_sub(
                state.height.saturating_sub(2),
            ),
            MoveSelection::PageDown => state.scroll.y.saturating_add(
                state.height.saturating_sub(2),
            ),
            _ => state.scroll.y,
        }
    }

    /// The paragraph state after asking for scroll offset `pos`: the
    /// offset is clamped to the content, and on a real move the
    /// horizontal offset returns to the left edge.
    pub open spec fn set_scroll_spec(state: ParagraphState, pos: u16) -> ParagraphState {
        let clamped = if pos > state.max_scroll() {
            state.max_scroll()
        } else {
            pos
        };
        if clamped == state.scroll.y {
            state
        } else {
            ParagraphState { scroll: ScrollPos { x: 0, y: clamped }, ..state }
        }
    }

    /// Scroll to `pos` (clamped); reports whether the offset changed.
    pub fn set_scroll(&mut self, pos: u16) -> (changed: bool)
        ensures
            final(self).paragraph_state == Self::set_scroll_spec(old(self).paragraph_state, pos),
            changed == (final(self).paragraph_state != old(self).paragraph_state),
            *final(self) == (SyntaxTextComponent {
                paragraph_state: final(self).paragraph_state,
                ..*old(self)
            }),
    {
        let state = self.paragraph_state;
        let max = state.lines.saturating_sub(state.height.saturating_sub(2));
        let new_scroll_pos = if pos > max {
            max
        } else {
            pos
        };
        if new_scroll_pos == state.scroll.y {
            return false;
        }
        self.paragraph_state = ParagraphState {
            scroll: ScrollPos { x: 0, y: new_scroll_pos },
            ..state
        };
        true
    }

    /// Apply a navigation request to the scroll state; reports whether
    /// anything moved.
    pub fn scroll(&mut self, nav: MoveSelection) -> (changed: bool)
        ensures
            final(self).paragraph_state == Self::set_scroll_spec(
                old(self).paragraph_state,
                Self::scroll_target_spec(old(self).paragraph_state, nav),
            ),
            changed == (final(self).paragraph_state != old(self).paragraph_state),
            *final(self) == (SyntaxTextComponent {
                paragraph_state: final(self).paragraph_state,
                ..*old(self)
            }),
    {
        let state = self.paragraph_state;
        let new_scroll_pos = match nav {
            MoveSelection::Down => state.scroll.y.saturating_add(1),
            MoveSelection::Up => state.scroll.y.saturating_sub(1),
            MoveSelection::Top => 0,
            MoveSelection::End => state.lines.saturating_sub(state.height.saturating_sub(2)),
            MoveSelection::PageUp => state.scroll.y.saturating_sub(
                state.height.saturating_sub(2),
            ),
            MoveSelection::PageDown => state.scroll.y.saturating_add(
                state.height.saturating_sub(2),
            ),
            _ => state.scroll.y,
        };
        self.set_scroll(new_scroll_pos)
    }

    /// React to a key press: a navigation key scrolls the view and is
    /// consumed only if the view actually moved.
    pub fn event(&mut self, ev: &InputEvent) -> (r: EventState)
        ensures
            ({
                match *ev {
                    InputEvent::Input(key) => match common_nav_spec(key, old(self).key_config) {
                        Some(nav) => {
                            &&& final(self).paragraph_state == Self::set_scroll_spec(
                                old(self).paragraph_state,
                                Self::scroll_target_spec(old(self).paragraph_state, nav),
                            )
                            &&& (r is Consumed) == (final(self).paragraph_state != old(
                                self,
                            ).paragraph_state)
                            &&& *final(self) == (SyntaxTextComponent {
                                paragraph_state: final(self).paragraph_state,
                                ..*old(self)
                            })
                        },
                        None => *final(self) == *old(self) && r is NotConsumed,
                    },
                    _ => *final(self) == *old(self) && r is NotConsumed,
                }
            }),
    {
        if let InputEvent::Input(key) = ev {
            if let Some(nav) = common_nav(*key, &self.key_config) {
                return if self.scroll(nav) {
                    EventState::Consumed
                } else {
                    EventState::NotConsumed
                };
            }
        }
        EventState::NotConsumed
    }

    pub fn focused(&self) -> (r: bool)
        ensures
            r == self.focused,
    {
        self.focused
    }

    /// Focus or unfocus this component.
    pub fn focus(&mut self, focus: bool)
        ensures
            *final(self) == (SyntaxTextComponent { focused: focus, ..*old(self) }),
    {
        self.focused = focus;
    }
}

/// Busy-flag correctness: once a spinner tick has recorded what
/// [`SyntaxTextComponent::any_work_pending`] reports, the flag — and
/// with it the glyph, which [`crate::spinner::Spinner::glyph`] shows
/// exactly while the flag is set — is true if and only if the
/// component's slot still has an outstanding job: one spawned and not
/// yet completed.
pub proof fn lemma_busy_flag_matches_slot(comp: SyntaxTextComponent, sp: crate::spinner::Spinner)
    requires
        sp.pending == comp.async_highlighting.is_pending_spec(),
    ensures
        sp.pending <==> (comp.async_highlighting.next_spec() is Some
            || comp.async_highlighting.running_spec()),
{
}

/// Supersession for the highlight kind: once the file of interest is
/// `b`, a completed highlight that describes a different file `a` is
/// never applied — consuming it leaves the shown entry exactly as it
/// was.
pub proof fn lemma_superseded_highlight_discarded(
    pre: SyntaxTextComponent,
    a: SyntaxText,
    b: String,
    shown: FileContent,
)
    requires
        pre.current_file == Some((b, shown)),
        pre.async_highlighting.last_spec() == Some(a),
        a.path@ != b@,
    ensures
        SyntaxTextComponent::applied_file(pre) == pre.current_file,
{
}

} // verus!
