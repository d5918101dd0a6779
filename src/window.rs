use vstd::prelude::*;

use crate::config::{RuntimeType, WindowProviderConfig};
use crate::worker::{worker_step, CommonProviderState, WorkerAction, WorkerEvent};

verus! {

/// A change of the foreground window, as the OS reports it.
#[derive(Clone, Debug, Eq, PartialEq)]
pub struct WindowEvent {
    pub hwnd: isize,
    pub title: String,
}

#[derive(Debug, Clone, PartialEq, Eq)]
pub struct WindowOutput {
    pub title: String,
    pub hwnd: isize,
}

/// Whether `pattern` occurs in `text` as a run of consecutive characters.
pub open spec fn contains_text(text: Seq<char>, pattern: Seq<char>) -> bool {
    exists|i: int|
        0 <= i && i + pattern.len() <= text.len() && #[trigger] text.subrange(
            i,
            i + pattern.len(),
        ) == pattern
}

/// The text in the titles of this application's own windows.
pub open spec fn own_window_marker() -> Seq<char> {
    seq!['Z', 'e', 'b', 'a', 'r']
}

/// A focus change is reported unless the window has no title or is one of
/// this application's own windows.
pub open spec fn is_reported(title: Seq<char>) -> bool {
    title.len() > 0 && !contains_text(title, own_window_marker())
}

/// Relies on str::contains: whether `pattern` occurs in `text`.
#[verifier::external_body]
fn text_contains(text: &str, pattern: &str) -> (r: bool)
    ensures
        r == contains_text(text@, pattern@),
{
    text.contains(pattern)
}

/// Turns a focus change into an output, or drops it (see `is_reported`).
pub fn window_output(event: WindowEvent) -> (r: Option<WindowOutput>)
    ensures
        r is Some <==> is_reported(event.title@),
        r matches Some(o) ==> o.title@ == event.title@ && o.hwnd == event.hwnd,
{
    if event.title.as_str().is_empty() {
        return None;
    }
    let marker = "Zebar";
    proof {
        reveal_strlit("Zebar");
        assert(marker@ =~= own_window_marker());
    }
    if text_contains(event.title.as_str(), marker) {
        None
    } else {
        Some(WindowOutput { title: event.title, hwnd: event.hwnd })
    }
}

/// The window provider: reports foreground-window changes as they happen.
pub struct WindowProvider {
    pub config: WindowProviderConfig,
    pub common: CommonProviderState,
}

impl WindowProvider {
    pub fn new(config: WindowProviderConfig, common: CommonProviderState) -> (r: WindowProvider)
        ensures
            r.config == config,
            r.common == common,
    {
        WindowProvider { config, common }
    }

    pub fn runtime_type(&self) -> (r: RuntimeType)
        ensures
            r == RuntimeType::Async,
    {
        RuntimeType::Async
    }

    /// One step of the event loop; focus changes answer no function calls.
    pub fn handle(&mut self, event: WorkerEvent<WindowOutput>) -> (r: WorkerAction<WindowOutput>)
        ensures
            final(self).config == old(self).config,
            final(self).common.config_hash == old(self).common.config_hash,
            (final(self).common.running, r) == worker_step(old(self).common.running, false, event),
    {
        self.common.handle(false, event)
    }
}

} // verus!
