//! The compile-run engine and the event dispatcher's decision rules.
//!
//! The engine is a state machine with two phases. While `Running`, the
//! script runtime holds the last program that compiled and ran whole, and
//! inbound MIDI messages are handed to its listener. After any script
//! failure the engine is `Broken`: the failure is reported, and the engine
//! waits for the next write to the active script file, re-reads it, and
//! tries again — an unbounded recovery loop that only a successful fix, a
//! watcher failure, or process death ends. A message whose listener
//! invocation failed is kept in the broken phase and replayed once right
//! after the fix succeeds.
//!
//! Every transition takes plain values that the surrounding application
//! read or was told (file contents, compile outcomes), mutates the engine,
//! and answers with the one action the application must perform next. The
//! application performs it and reports back; it decides nothing itself.

use vstd::prelude::*;

use crate::catalog::{
    EntryView, ScriptEntry, built_catalog, entries_view, index_of_path, build_catalog, find_path,
    path_views,
};
use crate::session::{Session, SessionView};

verus! {

/// The engine's phase: running the loaded program, or broken and waiting
/// for the active script to be fixed. A broken engine may hold one MIDI
/// message to replay once the fix succeeds.
pub enum Phase {
    Running,
    Broken { replay: Option<Vec<u8>> },
}

/// The mathematical shape of a phase.
pub enum PhaseView {
    Running,
    Broken { replay: Option<Seq<u8>> },
}

impl View for Phase {
    type V = PhaseView;

    open spec fn view(&self) -> PhaseView {
        match self {
            Phase::Running => PhaseView::Running,
            Phase::Broken { replay } => PhaseView::Broken {
                replay: match replay {
                    Some(m) => Some(m@),
                    None => None,
                },
            },
        }
    }
}

/// The message kept for replay, if the engine is broken and holds one.
pub open spec fn replay_of(phase: PhaseView) -> Option<Seq<u8>> {
    match phase {
        PhaseView::Running => None,
        PhaseView::Broken { replay } => replay,
    }
}

/// A condition on which the process must end with an error.
pub enum FatalError {
    /// No scripts are left to run.
    NoScriptsLeft,
    /// A script file that must be read could not be.
    ScriptUnreadable,
    /// The filesystem watcher itself failed; the text says how.
    WatchFailed(String),
}

/// The mathematical shape of a fatal condition.
pub enum FatalErrorView {
    NoScriptsLeft,
    ScriptUnreadable,
    WatchFailed(Seq<char>),
}

impl View for FatalError {
    type V = FatalErrorView;

    open spec fn view(&self) -> FatalErrorView {
        match self {
            FatalError::NoScriptsLeft => FatalErrorView::NoScriptsLeft,
            FatalError::ScriptUnreadable => FatalErrorView::ScriptUnreadable,
            FatalError::WatchFailed(m) => FatalErrorView::WatchFailed(m@),
        }
    }
}

/// What the application must do next. Each transition answers with
/// exactly one of these.
pub enum Action {
    /// Nothing; keep polling.
    Idle,
    /// Leave the event where it is; it is consumed again once recovery
    /// completes.
    Defer,
    /// Compile the active source, then report the outcome.
    Compile,
    /// Run the freshly compiled program, then report the outcome.
    RunChunk,
    /// Hand this message to the script's listener, then report the
    /// outcome.
    InvokeListener(Vec<u8>),
    /// Show the catalog with the active script marked.
    Render,
    /// Show this failure report; the engine is broken until the active
    /// script is written to again.
    ShowErrorAndWait(String),
    /// Show this report once; nothing is retried.
    ShowError(String),
    /// End the process with an error.
    Fatal(FatalError),
}

/// The mathematical shape of an action.
pub enum ActionView {
    Idle,
    Defer,
    Compile,
    RunChunk,
    InvokeListener(Seq<u8>),
    Render,
    ShowErrorAndWait(Seq<char>),
    ShowError(Seq<char>),
    Fatal(FatalErrorView),
}

impl View for Action {
    type V = ActionView;

    open spec fn view(&self) -> ActionView {
        match self {
            Action::Idle => ActionView::Idle,
            Action::Defer => ActionView::Defer,
            Action::Compile => ActionView::Compile,
            Action::RunChunk => ActionView::RunChunk,
            Action::InvokeListener(m) => ActionView::InvokeListener(m@),
            Action::Render => ActionView::Render,
            Action::ShowErrorAndWait(m) => ActionView::ShowErrorAndWait(m@),
            Action::ShowError(m) => ActionView::ShowError(m@),
            Action::Fatal(f) => ActionView::Fatal(f@),
        }
    }
}

/// What compiling the active source came to.
pub enum CompileOutcome {
    Compiled,
    Failed(String),
}

/// What running the compiled program's top level came to.
pub enum RunOutcome {
    Ran,
    Failed(String),
}

/// What handing a message to the listener came to: delivered; refused
/// because the script exposes no callable listener (the text says what is
/// wrong with its setup); or failed while the listener ran.
pub enum InvokeOutcome {
    Done,
    Misconfigured(String),
    Failed(String),
}

/// The engine: the session it steers, its phase, and the source text of
/// the program the runtime last loaded whole — `None` until the first
/// script has compiled and run.
pub struct Engine {
    pub session: Session,
    pub phase: Phase,
    pub loaded: Option<String>,
}

/// The mathematical shape of an engine.
#[verifier::ext_equal]
pub struct EngineView {
    pub session: SessionView,
    pub phase: PhaseView,
    pub loaded: Option<Seq<char>>,
}

impl View for Engine {
    type V = EngineView;

    open spec fn view(&self) -> EngineView {
        EngineView {
            session: self.session@,
            phase: self.phase@,
            loaded: match self.loaded {
                Some(s) => Some(s@),
                None => None,
            },
        }
    }
}

impl EngineView {
    /// The engine invariant is the session's.
    pub open spec fn wf(self) -> bool {
        self.session.wf()
    }
}

// ---------------------------------------------------------------------
// The transition relations. Each exec transition below promises exactly
// one of these of its pre-state, inputs, post-state and action, so that
// the laws at the end of this file can speak about runs of the machine.
// ---------------------------------------------------------------------

/// A failure report sends the engine into recovery: the session and the
/// loaded program stay as they are, a message already kept for replay is
/// kept, and the report is shown while the engine waits for a fix.
pub open spec fn enters_recovery(
    pre: EngineView,
    msg: Seq<char>,
    post: EngineView,
    action: ActionView,
) -> bool {
    &&& post.session == pre.session
    &&& post.loaded == pre.loaded
    &&& post.phase == (PhaseView::Broken { replay: replay_of(pre.phase) })
    &&& action == ActionView::ShowErrorAndWait(msg)
}

/// A successful compile changes nothing and asks for the run phase.
pub open spec fn compile_success_step(pre: EngineView, post: EngineView, action: ActionView) -> bool {
    &&& post == pre
    &&& action == ActionView::RunChunk
}

/// A failed compile is a failure report; the run phase is never asked
/// for.
pub open spec fn compile_failure_step(
    pre: EngineView,
    msg: Seq<char>,
    post: EngineView,
    action: ActionView,
) -> bool {
    enters_recovery(pre, msg, post, action)
}

/// A successful run phase: the runtime now holds the active source whole,
/// the engine runs, and a message kept for replay is handed to the
/// listener exactly now — otherwise the catalog is re-shown.
pub open spec fn run_success_step(pre: EngineView, post: EngineView, action: ActionView) -> bool {
    &&& post.session == pre.session
    &&& post.phase == PhaseView::Running
    &&& post.loaded == Some(pre.session.active_source)
    &&& action == (match replay_of(pre.phase) {
        Some(m) => ActionView::InvokeListener(m),
        None => ActionView::Render,
    })
}

/// A failed run phase is a failure report, like a failed compile.
pub open spec fn run_failure_step(
    pre: EngineView,
    msg: Seq<char>,
    post: EngineView,
    action: ActionView,
) -> bool {
    enters_recovery(pre, msg, post, action)
}

/// An inbound MIDI message: handed to the listener while running;
/// deferred while broken, so the queue keeps it for after recovery.
pub open spec fn midi_in_step(
    pre: EngineView,
    message: Seq<u8>,
    post: EngineView,
    action: ActionView,
) -> bool {
    &&& post == pre
    &&& action == (match pre.phase {
        PhaseView::Running => ActionView::InvokeListener(message),
        PhaseView::Broken { .. } => ActionView::Defer,
    })
}

/// A delivered message changes nothing.
pub open spec fn invoke_done_step(pre: EngineView, post: EngineView, action: ActionView) -> bool {
    &&& post == pre
    &&& action == ActionView::Idle
}

/// A structural refusal — the script exposes no callable listener — is
/// reported once and not retried: no recovery, nothing replayed.
pub open spec fn invoke_structural_step(
    pre: EngineView,
    msg: Seq<char>,
    post: EngineView,
    action: ActionView,
) -> bool {
    &&& post == pre
    &&& action == ActionView::ShowError(msg)
}

/// A listener that failed on a message: the engine breaks, keeps that
/// message for replay after the fix, and reports the failure.
pub open spec fn invoke_failure_step(
    pre: EngineView,
    message: Seq<u8>,
    msg: Seq<char>,
    post: EngineView,
    action: ActionView,
) -> bool {
    &&& post.session == pre.session
    &&& post.loaded == pre.loaded
    &&& post.phase == (PhaseView::Broken { replay: Some(message) })
    &&& action == ActionView::ShowErrorAndWait(msg)
}

/// A malformed outbound message is a script bug like any other failure:
/// reported, and resolved through the same recovery.
pub open spec fn send_failure_step(
    pre: EngineView,
    msg: Seq<char>,
    post: EngineView,
    action: ActionView,
) -> bool {
    enters_recovery(pre, msg, post, action)
}

/// A write to a script file, with what re-reading that file yielded. A
/// write elsewhere than the active script changes nothing; a write to the
/// active script re-reads it and compiles the fresh text, whether the
/// engine was broken (the fix attempt) or running (a proactive reload);
/// an active script that cannot be re-read is fatal.
pub open spec fn modified_step(
    pre: EngineView,
    path: Seq<char>,
    read: Option<Seq<char>>,
    post: EngineView,
    action: ActionView,
) -> bool {
    if path != pre.session.active_path {
        &&& post == pre
        &&& action == ActionView::Idle
    } else {
        match read {
            Some(src) => {
                &&& post.session == (SessionView { active_source: src, ..pre.session })
                &&& post.phase == pre.phase
                &&& post.loaded == pre.loaded
                &&& action == ActionView::Compile
            },
            None => {
                &&& post == pre
                &&& action == ActionView::Fatal(FatalErrorView::ScriptUnreadable)
            },
        }
    }
}

/// A new script file appeared: the catalog is rebuilt from the fresh
/// listing and re-shown. The active script is found again by its path; if
/// the listing no longer holds it, the index is only clamped into range.
/// A listing with no scripts at all is fatal.
pub open spec fn created_step(
    pre: EngineView,
    new_paths: Seq<Seq<char>>,
    post: EngineView,
    action: ActionView,
) -> bool {
    let cat = built_catalog(new_paths);
    &&& post.session.catalog == cat
    &&& post.session.active_path == pre.session.active_path
    &&& post.session.active_source == pre.session.active_source
    &&& post.session.active_index == (match index_of_path(cat, pre.session.active_path) {
        Some(i) => i,
        None => if 0 <= pre.session.active_index < cat.len() {
            pre.session.active_index
        } else {
            0
        },
    })
    &&& post.phase == pre.phase
    &&& post.loaded == pre.loaded
    &&& action == (if cat.len() == 0 {
        ActionView::Fatal(FatalErrorView::NoScriptsLeft)
    } else {
        ActionView::Render
    })
}

/// A script file disappeared. The catalog is rebuilt from the fresh
/// listing; then, in order: if the active script still reads and is still
/// listed, only its position is taken over and the catalog re-shown. If
/// it no longer reads but the listing holds a script path the old catalog
/// did not — the rename candidate, read as `renamed` — the session moves
/// to that path with its text and recompiles. Otherwise the active script
/// is gone: with no scripts left that is fatal; else the session falls
/// back to the first script of the rebuilt catalog, whose text was read
/// as `fallback_read`, and recompiles — and if even that text cannot be
/// read, that is fatal too.
/// The position the still-readable active script keeps after the rebuild,
/// if it is still listed.
pub open spec fn kept_position(
    cat: Seq<EntryView>,
    active_read: Option<Seq<char>>,
    active_path: Seq<char>,
) -> Option<int> {
    if active_read is Some {
        index_of_path(cat, active_path)
    } else {
        None
    }
}

/// Where the active script went if it was renamed rather than deleted:
/// the candidate path, its text, and its position in the rebuilt catalog.
/// Nothing, unless the active script no longer reads, a candidate with
/// its text is at hand, and the rebuilt catalog lists the candidate.
pub open spec fn rename_resolution(
    cat: Seq<EntryView>,
    active_read: Option<Seq<char>>,
    renamed: Option<(Seq<char>, Seq<char>)>,
) -> Option<(Seq<char>, Seq<char>, int)> {
    if active_read is None {
        match renamed {
            Some((p, src)) => match index_of_path(cat, p) {
                Some(j) => Some((p, src, j)),
                None => None,
            },
            None => None,
        }
    } else {
        None
    }
}

/// The last resort after the active script disappeared: fatal with no
/// scripts left; else fall back to the first script of the rebuilt
/// catalog and recompile; fatal if even its text could not be read.
pub open spec fn removed_fallback(
    pre: EngineView,
    cat: Seq<EntryView>,
    fallback_read: Option<Seq<char>>,
    post: EngineView,
    action: ActionView,
) -> bool {
    if cat.len() == 0 {
        &&& post.session.active_index == 0
        &&& post.session.active_path == pre.session.active_path
        &&& post.session.active_source == pre.session.active_source
        &&& action == ActionView::Fatal(FatalErrorView::NoScriptsLeft)
    } else {
        match fallback_read {
            Some(src) => {
                &&& post.session.active_index == 0
                &&& post.session.active_path == cat[0].path
                &&& post.session.active_source == src
                &&& action == ActionView::Compile
            },
            None => {
                &&& post.session.active_index == 0
                &&& post.session.active_path == pre.session.active_path
                &&& post.session.active_source == pre.session.active_source
                &&& action == ActionView::Fatal(FatalErrorView::ScriptUnreadable)
            },
        }
    }
}

pub open spec fn removed_step(
    pre: EngineView,
    new_paths: Seq<Seq<char>>,
    active_read: Option<Seq<char>>,
    renamed: Option<(Seq<char>, Seq<char>)>,
    fallback_read: Option<Seq<char>>,
    post: EngineView,
    action: ActionView,
) -> bool {
    let cat = built_catalog(new_paths);
    &&& post.session.catalog == cat
    &&& post.phase == pre.phase
    &&& post.loaded == pre.loaded
    &&& match kept_position(cat, active_read, pre.session.active_path) {
        Some(i) => {
            &&& post.session.active_index == i
            &&& post.session.active_path == pre.session.active_path
            &&& post.session.active_source == pre.session.active_source
            &&& action == ActionView::Render
        },
        None => match rename_resolution(cat, active_read, renamed) {
            Some((p, src, j)) => {
                &&& post.session.active_index == j
                &&& post.session.active_path == p
                &&& post.session.active_source == src
                &&& action == ActionView::Compile
            },
            None => removed_fallback(pre, cat, fallback_read, post, action),
        },
    }
}

/// The watcher itself failed: fatal, nothing else changes.
pub open spec fn watch_error_step(
    pre: EngineView,
    msg: Seq<char>,
    post: EngineView,
    action: ActionView,
) -> bool {
    &&& post == pre
    &&& action == ActionView::Fatal(FatalErrorView::WatchFailed(msg))
}

/// A selection that named the script at `index`, with what reading that
/// script's file yielded: the session switches to it and compiles; a file
/// that cannot be read is fatal.
pub open spec fn selection_read_step(
    pre: EngineView,
    index: int,
    read: Option<Seq<char>>,
    post: EngineView,
    action: ActionView,
) -> bool {
    match read {
        Some(src) => {
            &&& post.session.catalog == pre.session.catalog
            &&& post.session.active_index == index
            &&& post.session.active_path == pre.session.catalog[index].path
            &&& post.session.active_source == src
            &&& post.phase == pre.phase
            &&& post.loaded == pre.loaded
            &&& action == ActionView::Compile
        },
        None => {
            &&& post == pre
            &&& action == ActionView::Fatal(FatalErrorView::ScriptUnreadable)
        },
    }
}


// ---------------------------------------------------------------------
// The machine itself.
// ---------------------------------------------------------------------

/// The view of an optional text, such as what reading a file yielded.
pub open spec fn text_view(read: Option<String>) -> Option<Seq<char>> {
    match read {
        Some(s) => Some(s@),
        None => None,
    }
}

/// The view of an optional pair of path and text.
pub open spec fn pair_view(renamed: Option<(String, String)>) -> Option<(Seq<char>, Seq<char>)> {
    match renamed {
        Some((p, s)) => Some((p@, s@)),
        None => None,
    }
}

impl Engine {
    /// An engine that starts at the given script of a catalog, not yet
    /// compiled: the runtime holds nothing until the first load succeeds.
    pub fn new(catalog: Vec<ScriptEntry>, index: usize, source: String) -> (e: Engine)
        requires
            index < catalog@.len(),
        ensures
            e@.session.catalog == entries_view(catalog@),
            e@.session.active_index == index as int,
            e@.session.active_path == entries_view(catalog@)[index as int].path,
            e@.session.active_source == source@,
            e@.phase == PhaseView::Running,
            e@.loaded is None,
            e@.wf(),
    {
        Engine {
            session: Session::new(catalog, index, source),
            phase: Phase::Running,
            loaded: None,
        }
    }

    /// Takes the phase out of the engine, leaving `Running` in its place
    /// for the moment.
    fn take_phase(&mut self) -> (ph: Phase)
        ensures
            ph == old(self).phase,
            final(self).phase is Running,
            final(self).session == old(self).session,
            final(self).loaded == old(self).loaded,
    {
        let mut ph = Phase::Running;
        core::mem::swap(&mut self.phase, &mut ph);
        ph
    }

    /// Breaks the engine on a failure report: whatever was kept for
    /// replay stays kept, and the report is shown while the engine waits
    /// for the active script to be written to.
    fn break_with(&mut self, msg: String) -> (action: Action)
        ensures
            enters_recovery(old(self)@, msg@, final(self)@, action@),
    {
        let ph = self.take_phase();
        let replay = match ph {
            Phase::Running => None,
            Phase::Broken { replay } => replay,
        };
        self.phase = Phase::Broken { replay };
        Action::ShowErrorAndWait(msg)
    }

    /// Learns what compiling the active source came to. Success moves on
    /// to the run phase; failure is reported and recovery begins — the
    /// run phase is never reached with a program that did not compile.
    pub fn on_compile_outcome(&mut self, outcome: CompileOutcome) -> (action: Action)
        ensures
            outcome is Compiled ==> compile_success_step(old(self)@, final(self)@, action@),
            outcome matches CompileOutcome::Failed(m) ==> compile_failure_step(
                old(self)@,
                m@,
                final(self)@,
                action@,
            ),
            old(self)@.wf() ==> final(self)@.wf(),
    {
        match outcome {
            CompileOutcome::Compiled => Action::RunChunk,
            CompileOutcome::Failed(m) => self.break_with(m),
        }
    }

    /// Learns what the run phase came to. Success means the runtime now
    /// holds the active source whole: the engine runs again, and a
    /// message kept for replay is handed to the listener exactly now.
    /// Failure is reported and recovery begins.
    pub fn on_run_outcome(&mut self, outcome: RunOutcome) -> (action: Action)
        ensures
            outcome is Ran ==> run_success_step(old(self)@, final(self)@, action@),
            outcome matches RunOutcome::Failed(m) ==> run_failure_step(
                old(self)@,
                m@,
                final(self)@,
                action@,
            ),
            old(self)@.wf() ==> final(self)@.wf(),
    {
        match outcome {
            RunOutcome::Ran => {
                let ph = self.take_phase();
                self.loaded = Some(self.session.active_source.clone());
                match ph {
                    Phase::Broken { replay: Some(m) } => Action::InvokeListener(m),
                    _ => Action::Render,
                }
            },
            RunOutcome::Failed(m) => self.break_with(m),
        }
    }

    /// An inbound MIDI message: handed to the listener while running, and
    /// left in its queue while broken — recovery consumes nothing else.
    pub fn on_midi_in(&self, message: Vec<u8>) -> (action: Action)
        ensures
            midi_in_step(self@, message@, self@, action@),
    {
        match &self.phase {
            Phase::Running => Action::InvokeListener(message),
            Phase::Broken { .. } => Action::Defer,
        }
    }

    /// Learns what handing a message to the listener came to. A delivered
    /// message is done with. A script without a callable listener is a
    /// setup error: reported once, not retried. A listener that failed on
    /// the message breaks the engine and keeps the message for replay
    /// after the fix.
    pub fn on_invoke_outcome(&mut self, message: Vec<u8>, outcome: InvokeOutcome) -> (action:
        Action)
        ensures
            outcome is Done ==> invoke_done_step(old(self)@, final(self)@, action@),
            outcome matches InvokeOutcome::Misconfigured(m) ==> invoke_structural_step(
                old(self)@,
                m@,
                final(self)@,
                action@,
            ),
            outcome matches InvokeOutcome::Failed(m) ==> invoke_failure_step(
                old(self)@,
                message@,
                m@,
                final(self)@,
                action@,
            ),
            old(self)@.wf() ==> final(self)@.wf(),
    {
        match outcome {
            InvokeOutcome::Done => Action::Idle,
            InvokeOutcome::Misconfigured(m) => Action::ShowError(m),
            InvokeOutcome::Failed(m) => {
                self.phase = Phase::Broken { replay: Some(message) };
                Action::ShowErrorAndWait(m)
            },
        }
    }

    /// A report that a script handed the send primitive something that is
    /// no MIDI message: a script bug, resolved through the same recovery
    /// as any other failure.
    pub fn on_send_failure(&mut self, report: String) -> (action: Action)
        ensures
            send_failure_step(old(self)@, report@, final(self)@, action@),
            old(self)@.wf() ==> final(self)@.wf(),
    {
        self.break_with(report)
    }

    /// A write notice for a script file, with what re-reading that file
    /// yielded. A write to the active script takes the fresh text and
    /// compiles it — the fix attempt while broken, a proactive reload
    /// while running. Writes elsewhere change nothing.
    pub fn on_modified(&mut self, path: &String, read: Option<String>) -> (action: Action)
        ensures
            modified_step(old(self)@, path@, text_view(read), final(self)@, action@),
            old(self)@.wf() ==> final(self)@.wf(),
    {
        if !path.eq(&self.session.active_path) {
            return Action::Idle;
        }
        match read {
            Some(src) => {
                self.session.active_source = src;
                proof {
                    assert(self@.session =~= (SessionView {
                        active_source: self@.session.active_source,
                        ..old(self)@.session
                    }));
                }
                Action::Compile
            },
            None => Action::Fatal(FatalError::ScriptUnreadable),
        }
    }

    /// A new script file appeared: rebuild the catalog from the fresh
    /// listing and show it again, with the active script found again by
    /// its path.
    pub fn on_created(&mut self, new_paths: Vec<String>) -> (action: Action)
        ensures
            created_step(old(self)@, path_views(new_paths@), final(self)@, action@),
            final(self)@.wf(),
    {
        let cat = build_catalog(&new_paths);
        let idx = match find_path(&cat, &self.session.active_path) {
            Some(i) => i,
            None => if self.session.active_index < cat.len() {
                self.session.active_index
            } else {
                0
            },
        };
        let empty = cat.len() == 0;
        self.session.catalog = cat;
        self.session.active_index = idx;
        if empty {
            Action::Fatal(FatalError::NoScriptsLeft)
        } else {
            Action::Render
        }
    }

    /// A script file disappeared: rebuild the catalog, and resolve what
    /// became of the active script. `active_read` is what re-reading the
    /// active script yielded; `renamed` is the rename candidate with its
    /// text, if the listing held a script path the old catalog did not;
    /// `fallback_read` is what reading the first script of the fresh
    /// listing yielded. A still-readable active script keeps its place; a
    /// renamed one is followed and recompiled; a deleted one falls back
    /// to the first script left, and with none left the process ends.
    pub fn on_removed(
        &mut self,
        new_paths: Vec<String>,
        active_read: Option<String>,
        renamed: Option<(String, String)>,
        fallback_read: Option<String>,
    ) -> (action: Action)
        ensures
            removed_step(
                old(self)@,
                path_views(new_paths@),
                text_view(active_read),
                pair_view(renamed),
                text_view(fallback_read),
                final(self)@,
                action@,
            ),
            final(self)@.wf(),
    {
        let cat = build_catalog(&new_paths);
        if active_read.is_some() {
            match find_path(&cat, &self.session.active_path) {
                Some(i) => {
                    self.session.catalog = cat;
                    self.session.active_index = i;
                    return Action::Render;
                },
                None => {},
            }
        } else {
            match renamed {
                Some((p, src)) => {
                    match find_path(&cat, &p) {
                        Some(j) => {
                            self.session.catalog = cat;
                            self.session.active_index = j;
                            self.session.active_path = p;
                            self.session.active_source = src;
                            return Action::Compile;
                        },
                        None => {},
                    }
                },
                None => {},
            }
        }
        if cat.len() == 0 {
            self.session.catalog = cat;
            self.session.active_index = 0;
            return Action::Fatal(FatalError::NoScriptsLeft);
        }
        match fallback_read {
            Some(src) => {
                let first = cat[0].path.clone();
                self.session.catalog = cat;
                self.session.active_index = 0;
                self.session.active_path = first;
                self.session.active_source = src;
                Action::Compile
            },
            None => {
                self.session.catalog = cat;
                self.session.active_index = 0;
                Action::Fatal(FatalError::ScriptUnreadable)
            },
        }
    }

    /// The watcher itself failed: fatal.
    pub fn on_watch_error(&self, report: String) -> (action: Action)
        ensures
            watch_error_step(self@, report@, self@, action@),
    {
        Action::Fatal(FatalError::WatchFailed(report))
    }

    /// A selection that named the script at `index`, with what reading
    /// that script's file yielded: switch to it and compile its text.
    pub fn on_selection_read(&mut self, index: usize, read: Option<String>) -> (action: Action)
        requires
            index < old(self)@.session.catalog.len(),
        ensures
            selection_read_step(old(self)@, index as int, text_view(read), final(self)@, action@),
            old(self)@.wf() ==> final(self)@.wf(),
    {
        match read {
            Some(src) => {
                self.session.apply_selection(index, src);
                Action::Compile
            },
            None => Action::Fatal(FatalError::ScriptUnreadable),
        }
    }
}


// ---------------------------------------------------------------------
// Laws of the machine. Each is proved from the transition relations
// alone, so it holds of every run the relations admit.
// ---------------------------------------------------------------------

/// A script that fails to compile never reaches the run phase, and the
/// program the runtime holds — the previous successfully loaded script,
/// which keeps receiving MIDI input — is untouched.
pub proof fn lemma_compile_failure_never_runs(
    pre: EngineView,
    msg: Seq<char>,
    post: EngineView,
    action: ActionView,
)
    requires
        compile_failure_step(pre, msg, post, action),
    ensures
        action != ActionView::RunChunk,
        post.loaded == pre.loaded,
        post.session == pre.session,
        post.phase is Broken,
{
}

/// A broken engine whose active script is edited to a valid program
/// reaches success within one retry cycle: the write re-reads and
/// compiles, the compile succeeds, the run succeeds, and the engine runs
/// the fresh text with nothing left pending — no further retry occurs.
pub proof fn lemma_fix_reaches_success(
    v0: EngineView,
    src: Seq<char>,
    v1: EngineView,
    a1: ActionView,
    v2: EngineView,
    a2: ActionView,
    v3: EngineView,
    a3: ActionView,
)
    requires
        v0.phase is Broken,
        modified_step(v0, v0.session.active_path, Some(src), v1, a1),
        compile_success_step(v1, v2, a2),
        run_success_step(v2, v3, a3),
    ensures
        a1 == ActionView::Compile,
        a2 == ActionView::RunChunk,
        v3.phase == PhaseView::Running,
        v3.loaded == Some(src),
        replay_of(v3.phase) is None,
{
}

/// A MIDI message whose listener invocation failed is replayed exactly
/// once: right after the fix succeeds it is handed to the listener, and
/// the running engine keeps nothing more to replay — a later successful
/// run hands over no message again.
pub proof fn lemma_failed_message_replayed_once(
    v0: EngineView,
    message: Seq<u8>,
    err: Seq<char>,
    v1: EngineView,
    a1: ActionView,
    src: Seq<char>,
    v2: EngineView,
    a2: ActionView,
    v3: EngineView,
    a3: ActionView,
    v4: EngineView,
    a4: ActionView,
)
    requires
        v0.phase is Running,
        invoke_failure_step(v0, message, err, v1, a1),
        modified_step(v1, v1.session.active_path, Some(src), v2, a2),
        compile_success_step(v2, v3, a3),
        run_success_step(v3, v4, a4),
    ensures
        a4 == ActionView::InvokeListener(message),
        v4.phase == PhaseView::Running,
        replay_of(v4.phase) is None,
        forall|v5: EngineView, a5: ActionView|
            #[trigger] run_success_step(v4, v5, a5) ==> a5 != ActionView::InvokeListener(message),
{
}

/// Removing the active script while other scripts remain falls back to
/// the first script of the rebuilt catalog — a deterministic choice —
/// and goes on compiling instead of ending the process.
pub proof fn lemma_active_removed_falls_back(
    pre: EngineView,
    new_paths: Seq<Seq<char>>,
    fallback_src: Seq<char>,
    post: EngineView,
    action: ActionView,
)
    requires
        removed_step(pre, new_paths, None, None, Some(fallback_src), post, action),
        built_catalog(new_paths).len() > 0,
    ensures
        post.session.active_index == 0,
        post.session.active_path == built_catalog(new_paths)[0].path,
        post.session.active_source == fallback_src,
        action == ActionView::Compile,
        !(action is Fatal),
{
}

/// Removing the last script is fatal, whatever else the removal looked
/// like: with nothing left in the rebuilt catalog the process must end
/// with an error, never hang silently.
pub proof fn lemma_no_scripts_left_is_fatal(
    pre: EngineView,
    new_paths: Seq<Seq<char>>,
    active_read: Option<Seq<char>>,
    renamed: Option<(Seq<char>, Seq<char>)>,
    fallback_read: Option<Seq<char>>,
    post: EngineView,
    action: ActionView,
)
    requires
        removed_step(pre, new_paths, active_read, renamed, fallback_read, post, action),
        built_catalog(new_paths).len() == 0,
    ensures
        action == ActionView::Fatal(FatalErrorView::NoScriptsLeft),
{
}

} // verus!
