use crate::keys::{Key, KeyConfig};
use crate::notification::Notification;
use crate::single_job::{AsyncSingleJob, Job, JobOutput, PendingWork, SyntaxText};
use vstd::prelude::*;
use vstd::string::StringExecFns;

verus! {

/// What the viewer displays for the current file: the raw text as fetched
/// (which may be an inline fetch-error description), or the highlighted
/// form with its originating path embedded.
#[derive(Clone, Debug, PartialEq, Eq)]
pub enum FileContent {
    RawText(String),
    HighlightedText(SyntaxText),
}

/// An input event as the viewer sees it: a key identity, or anything else,
/// which the viewer ignores.
pub enum InputEvent {
    Key(Key),
    Other,
}

/// Whether the viewer consumed an input event.
#[derive(Clone, Copy, Debug, PartialEq, Eq, Structural)]
pub enum EventState {
    Consumed,
    NotConsumed,
}

/// The displayed content of a failed fetch: a human-readable description,
/// shown as data instead of raising.
pub open spec fn error_text(msg: Seq<char>) -> Seq<char> {
    "error loading file: "@ + msg
}

/// The file viewer: the canonical consumer of the single-flight runner.
///
/// It offloads syntax highlighting and applies an arriving result only if
/// the result's embedded path still equals the displayed path (the
/// staleness guard).
pub struct SyntaxTextComponent {
    /// The displayed file: its path and its content, raw or highlighted.
    pub current_file: Option<(String, FileContent)>,
    /// The single-flight runner for highlighting jobs.
    pub async_highlighting: AsyncSingleJob,
    /// Injected key bindings for the two scroll actions.
    pub key_config: KeyConfig,
    /// Scroll offset; saturates at zero on the low end.
    pub scroll_top: u16,
}

impl SyntaxTextComponent {
    /// The runner's bookkeeping is sound, and displayed highlighted text
    /// always embeds the displayed path — the invariant the staleness
    /// guard maintains.
    pub open spec fn wf(self) -> bool {
        &&& self.async_highlighting.wf()
        &&& match self.current_file {
            Some((p, FileContent::HighlightedText(s))) => s.path@ == p@,
            _ => true,
        }
    }

    /// Whether `path` is the path of the displayed file.
    pub open spec fn is_current_path(self, path: Seq<char>) -> bool {
        match self.current_file {
            Some((p, _)) => p@ == path,
            None => false,
        }
    }

    /// Whether `out` carries highlighted text whose embedded path is `path`.
    pub open spec fn output_matches(out: JobOutput, path: Seq<char>) -> bool {
        match out.text {
            Some(s) => s.path@ == path,
            None => false,
        }
    }

    pub fn new(key_config: KeyConfig) -> (r: Self)
        ensures
            r.wf(),
            r.current_file is None,
            r.scroll_top == 0,
            r.key_config == key_config,
            r.async_highlighting.notification == Notification::SyntaxHighlighting,
            r.async_highlighting.in_flight is None,
            r.async_highlighting.last_result is None,
            r.async_highlighting.next_ticket == 0,
    {
        SyntaxTextComponent {
            current_file: None,
            async_highlighting: AsyncSingleJob::new(Notification::SyntaxHighlighting),
            key_config,
            scroll_top: 0,
        }
    }

    /// Whether `path` is already the displayed file. Callers consult this
    /// before fetching, so that a reload of the displayed path fetches
    /// nothing; `load_file` applies the same guard to the state.
    pub fn is_file_loaded(&self, path: &String) -> (r: bool)
        ensures
            r == self.is_current_path(path@),
    {
        match &self.current_file {
            Some((current, _)) => *current == *path,
            None => false,
        }
    }

    /// Everything `load_file` promises, as one relation between the state
    /// before, the state after, and the work handed back.
    pub open spec fn load_file_rel(
        pre: Self,
        post: Self,
        path: String,
        fetched: Result<String, String>,
        work: Option<PendingWork>,
    ) -> bool {
        &&& post.is_current_path(path@)
        &&& post.key_config == pre.key_config
        &&& post.scroll_top == pre.scroll_top
        &&& if pre.is_current_path(path@) {
            post == pre && work is None
        } else {
            match fetched {
                Ok(content) => {
                    &&& post.current_file == Some((path, FileContent::RawText(content)))
                    &&& post.async_highlighting == pre.async_highlighting.spawn_spec()
                    &&& work == Some(
                        PendingWork {
                            ticket: pre.async_highlighting.next_ticket,
                            job: Job { content, path },
                        },
                    )
                },
                Err(msg) => {
                    &&& match post.current_file {
                        Some((p, c)) => p == path && match c {
                            FileContent::RawText(t) => t@ == error_text(msg@),
                            FileContent::HighlightedText(_) => false,
                        },
                        None => false,
                    }
                    &&& post.async_highlighting == pre.async_highlighting
                    &&& work is None
                },
            }
        }
    }

    /// Display a file. A request for the path already displayed is a no-op
    /// (idempotent reload guard; callers use it to skip refetching too).
    /// Otherwise the fetched raw content is displayed at once and a
    /// highlighting job is spawned for it; a failed fetch is displayed as
    /// an inline error description and spawns no job. The returned work,
    /// if any, must be run by the caller off this thread.
    pub fn load_file(&mut self, path: String, fetched: Result<String, String>) -> (work: Option<
        PendingWork,
    >)
        requires
            old(self).wf(),
            old(self).async_highlighting.next_ticket < u64::MAX,
        ensures
            final(self).wf(),
            Self::load_file_rel(*old(self), *final(self), path, fetched, work),
    {
        let already_loaded = match &self.current_file {
            Some((current, _)) => *current == path,
            None => false,
        };
        if already_loaded {
            return None;
        }
        match fetched {
            Ok(content) => {
                let work = self.async_highlighting.spawn(
                    Job { content: content.clone(), path: path.clone() },
                );
                self.current_file = Some((path, FileContent::RawText(content)));
                Some(work)
            },
            Err(msg) => {
                let text = "error loading file: ".to_owned().concat(msg.as_str());
                self.current_file = Some((path, FileContent::RawText(text)));
                None
            },
        }
    }

    /// State after one notification is handled: on the highlighting tag the
    /// slot is consumed, and the result replaces the displayed content only
    /// if its embedded path equals the displayed path.
    pub open spec fn update_spec(self, ev: Notification) -> Self {
        if ev != Notification::SyntaxHighlighting {
            self
        } else {
            let base = SyntaxTextComponent {
                async_highlighting: self.async_highlighting.take_spec(),
                ..self
            };
            match self.async_highlighting.last_result {
                Some(out) => match self.current_file {
                    Some((p, _)) => match out.text {
                        Some(syntax) => if syntax.path@ == p@ {
                            SyntaxTextComponent {
                                current_file: Some((p, FileContent::HighlightedText(syntax))),
                                ..base
                            }
                        } else {
                            base
                        },
                        None => base,
                    },
                    None => base,
                },
                None => base,
            }
        }
    }

    /// Handle one notification-channel message.
    pub fn update(&mut self, ev: Notification)
        ensures
            *final(self) == old(self).update_spec(ev),
            old(self).wf() ==> final(self).wf(),
    {
        if ev == Notification::SyntaxHighlighting {
            let taken = self.async_highlighting.take_last_result();
            if let Some(out) = taken {
                if let Some((path, content)) = &mut self.current_file {
                    if let Some(syntax) = out.text {
                        if syntax.path == *path {
                            *content = FileContent::HighlightedText(syntax);
                        }
                    }
                }
            }
        }
    }

    /// True iff a highlighting job is tracked as in flight.
    pub fn any_work_pending(&self) -> (r: bool)
        ensures
            r == (self.async_highlighting.in_flight is Some),
    {
        self.async_highlighting.is_pending()
    }

    /// Reset the displayed file. No in-flight job is cancelled; its result
    /// will be discarded by the staleness guard when it arrives.
    pub fn clear(&mut self)
        ensures
            final(self).current_file is None,
            final(self).async_highlighting == old(self).async_highlighting,
            final(self).key_config == old(self).key_config,
            final(self).scroll_top == old(self).scroll_top,
    {
        self.current_file = None;
    }

    /// Scroll offset after one input event: down moves one line further
    /// (capped at the type's maximum), up moves one line back, saturating
    /// at zero; any other key, or a non-key event, changes nothing. If both
    /// bindings name the same key, down wins.
    pub open spec fn scroll_after(self, event: InputEvent) -> u16 {
        match event {
            InputEvent::Key(key) => if key == self.key_config.move_down {
                if self.scroll_top < u16::MAX {
                    (self.scroll_top + 1) as u16
                } else {
                    u16::MAX
                }
            } else if key == self.key_config.move_up {
                if self.scroll_top > 0 {
                    (self.scroll_top - 1) as u16
                } else {
                    0
                }
            } else {
                self.scroll_top
            },
            InputEvent::Other => self.scroll_top,
        }
    }

    /// React to one input event: only the two scroll bindings matter, and
    /// the event is never consumed (it passes on to other components).
    pub fn event(&mut self, event: InputEvent) -> (r: EventState)
        ensures
            r == EventState::NotConsumed,
            final(self).scroll_top == old(self).scroll_after(event),
            final(self).current_file == old(self).current_file,
            final(self).async_highlighting == old(self).async_highlighting,
            final(self).key_config == old(self).key_config,
    {
        if let InputEvent::Key(key) = event {
            if key == self.key_config.move_down {
                if self.scroll_top < u16::MAX {
                    self.scroll_top = self.scroll_top + 1;
                }
            } else if key == self.key_config.move_up {
                if self.scroll_top > 0 {
                    self.scroll_top = self.scroll_top - 1;
                }
            }
        }
        EventState::NotConsumed
    }
}

/// Staleness guard: delivering a completed job whose output does not carry
/// the displayed path — because the user navigated away before the worker
/// finished, or because no highlighting was available — never changes the
/// displayed file.
pub proof fn lemma_stale_result_rejected(c: SyntaxTextComponent, ticket: u64, out: JobOutput)
    requires
        c.current_file is Some,
        !SyntaxTextComponent::output_matches(out, c.current_file->Some_0.0@),
    ensures
        ({
            let delivered = SyntaxTextComponent {
                async_highlighting: c.async_highlighting.complete_spec(ticket, out),
                ..c
            };
            delivered.update_spec(Notification::SyntaxHighlighting).current_file
                == c.current_file
        }),
{
}

/// The staleness scenario end to end: a highlight job spawned for one path
/// is still in flight when another file is loaded; when the old job's
/// completion is then delivered and consumed, the display still shows the
/// newly loaded file, never the old path's highlighted text.
pub proof fn lemma_switch_during_highlight(
    mid: SyntaxTextComponent,
    post: SyntaxTextComponent,
    path_b: String,
    fetched: Result<String, String>,
    work: Option<PendingWork>,
    ticket: u64,
    out: JobOutput,
)
    requires
        SyntaxTextComponent::load_file_rel(mid, post, path_b, fetched, work),
        // the late result embeds some other path (or no text at all)
        !SyntaxTextComponent::output_matches(out, path_b@),
    ensures
        ({
            let delivered = SyntaxTextComponent {
                async_highlighting: post.async_highlighting.complete_spec(ticket, out),
                ..post
            };
            let shown = delivered.update_spec(Notification::SyntaxHighlighting);
            shown.current_file == post.current_file && shown.is_current_path(path_b@)
        }),
{
    lemma_stale_result_rejected(post, ticket, out);
}

/// Idempotent reload: of two consecutive loads of the same path, the second
/// changes nothing and spawns no job, whatever either fetch returned.
pub proof fn lemma_idempotent_reload(
    pre: SyntaxTextComponent,
    mid: SyntaxTextComponent,
    post: SyntaxTextComponent,
    path: String,
    f1: Result<String, String>,
    f2: Result<String, String>,
    w1: Option<PendingWork>,
    w2: Option<PendingWork>,
)
    requires
        SyntaxTextComponent::load_file_rel(pre, mid, path, f1, w1),
        SyntaxTextComponent::load_file_rel(mid, post, path, f2, w2),
    ensures
        post == mid,
        w2 is None,
{
}

} // verus!
