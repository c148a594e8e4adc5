//! The background listener's decisions. The loop itself (polling the cancel
//! channel, reading, emitting events, waiting) runs in the host; each step
//! hands what happened to a function here, which says what to do next.

use crate::device::{PortHandle, ReadOutcome};
use crate::text::{concat2, concat3, push_char};
use vstd::prelude::*;
use vstd::string::StrSliceExecFns;

verus! {

/// Listener window without an explicit timeout, in milliseconds.
pub const DEFAULT_LISTEN_TIMEOUT_MS: u64 = 200;

/// Longest read timeout a listener polls with, in milliseconds.
pub const MAX_POLL_TIMEOUT_MS: u64 = 100;

/// Chunk size of a listener read without an explicit size, in bytes.
pub const DEFAULT_CHUNK_SIZE: usize = 1024;

/// Timing of a listener.
#[derive(Debug, Copy, Clone, PartialEq, Eq, Structural)]
pub struct ListenerConfig {
    /// Read timeout of each poll, in milliseconds.
    pub poll_timeout_ms: u64,
    /// How long data accumulates before it is emitted, in milliseconds.
    pub window_ms: u64,
    /// Largest read per poll, in bytes.
    pub chunk_size: usize,
}

/// The timing for a listener started with `timeout` and `size`: the window
/// is the timeout (200 ms by default), each poll waits at most 100 ms, and
/// reads take up to `size` bytes (1024 by default).
pub open spec fn config_for(timeout: Option<u64>, size: Option<usize>) -> ListenerConfig {
    let t = match timeout { Some(t) => t, None => DEFAULT_LISTEN_TIMEOUT_MS };
    ListenerConfig {
        poll_timeout_ms: if t < MAX_POLL_TIMEOUT_MS { t } else { MAX_POLL_TIMEOUT_MS },
        window_ms: t,
        chunk_size: match size { Some(s) => s, None => DEFAULT_CHUNK_SIZE },
    }
}

/// The timing for a listener started with `timeout` and `size`.
pub fn listener_config(timeout: Option<u64>, size: Option<usize>) -> (r: ListenerConfig)
    ensures
        r == config_for(timeout, size),
{
    let t = match timeout { Some(t) => t, None => DEFAULT_LISTEN_TIMEOUT_MS };
    ListenerConfig {
        poll_timeout_ms: if t < MAX_POLL_TIMEOUT_MS { t } else { MAX_POLL_TIMEOUT_MS },
        window_ms: t,
        chunk_size: match size { Some(s) => s, None => DEFAULT_CHUNK_SIZE },
    }
}

/// `p` with every `.` and `/` replaced by `-`.
pub open spec fn event_suffix(p: Seq<char>) -> Seq<char> {
    p.map_values(|c: char| if c == '.' || c == '/' { '-' } else { c })
}

/// Name of the data event of the port `p`.
pub open spec fn read_event_name(p: Seq<char>) -> Seq<char> {
    "plugin-serialplugin-read-"@ + event_suffix(p)
}

/// Name of the disconnect event of the port `p`.
pub open spec fn disconnected_event_name(p: Seq<char>) -> Seq<char> {
    "plugin-serialplugin-disconnected-"@ + event_suffix(p)
}

/// `path` with every `.` and `/` replaced by `-`.
pub fn sanitize(path: &str) -> (r: String)
    ensures
        r@ == event_suffix(path@),
{
    let n = path.unicode_len();
    let mut r = String::new();
    let mut i: usize = 0;
    while i < n
        invariant
            n == path@.len(),
            i <= n,
            r@ == event_suffix(path@.subrange(0, i as int)),
        decreases n - i,
    {
        let c = path.get_char(i);
        let d = if c == '.' || c == '/' {
            '-'
        } else {
            c
        };
        push_char(&mut r, d);
        assert(event_suffix(path@.subrange(0, i + 1)) =~= event_suffix(path@.subrange(0, i as int)).push(d));
        i = i + 1;
    }
    assert(path@.subrange(0, n as int) =~= path@);
    r
}

/// Name of the data event of `path`.
pub fn read_event(path: &String) -> (r: String)
    ensures
        r@ == read_event_name(path@),
{
    let s = sanitize(path.as_str());
    concat2("plugin-serialplugin-read-", s.as_str())
}

/// Name of the disconnect event of `path`.
pub fn disconnected_event(path: &String) -> (r: String)
    ensures
        r@ == disconnected_event_name(path@),
{
    let s = sanitize(path.as_str());
    concat2("plugin-serialplugin-disconnected-", s.as_str())
}

/// What a non-blocking poll of the cancel channel found.
pub enum ChannelPoll {
    /// A cancel signal arrived.
    Cancelled,
    /// The sending side is gone: the port's record was torn down.
    SenderDropped,
    /// Nothing arrived.
    Empty,
}

/// What the listener does next.
pub enum ListenerStep {
    /// Poll again, keeping the current window.
    Continue,
    /// Start a new window; nothing to emit.
    RestartWindow,
    /// Emit these bytes as one data event and start a new window.
    Emit(Vec<u8>),
    /// Emit a disconnect event with this message and stop.
    Disconnect(String),
    /// Stop without emitting anything.
    Stop,
}

/// Message of the disconnect event when the registry entry went away.
pub open spec fn dropped_text(p: Seq<char>) -> Seq<char> {
    "Serial port "@ + p + " disconnected!"@
}

/// Message of the disconnect event after a failed read.
pub open spec fn failed_text(p: Seq<char>, m: Seq<char>) -> Seq<char> {
    "Serial port "@ + p + " disconnected due to error: "@ + m
}

/// The step for a poll of the cancel channel: stop on a signal, report a
/// disconnect when the sender is gone, and go on to read (`None`) otherwise.
pub fn on_signal(path: &String, poll: ChannelPoll) -> (r: Option<ListenerStep>)
    ensures
        poll is Cancelled ==> r matches Some(ListenerStep::Stop),
        poll is SenderDropped ==> (r matches Some(ListenerStep::Disconnect(m)) && m@ == dropped_text(path@)),
        poll is Empty ==> r is None,
{
    match poll {
        ChannelPoll::Cancelled => Some(ListenerStep::Stop),
        ChannelPoll::SenderDropped => Some(
            ListenerStep::Disconnect(concat3("Serial port ", path.as_str(), " disconnected!")),
        ),
        ChannelPoll::Empty => None,
    }
}

/// Bytes accumulated by a listener since its last event.
pub struct ListenerState {
    /// The accumulated bytes.
    pub pending: Vec<u8>,
}

/// The bytes a read contributes: its data, or nothing.
pub open spec fn read_bytes(outcome: ReadOutcome) -> Seq<u8> {
    match outcome {
        ReadOutcome::Data(v) => v@,
        _ => Seq::empty(),
    }
}

/// The step after a read of the port `p` that produced `outcome`,
/// `elapsed_ms` into a window of `window_ms`, with `before` accumulated and
/// `after` accumulated afterwards.
pub open spec fn read_step(
    p: Seq<char>,
    before: Seq<u8>,
    after: Seq<u8>,
    outcome: ReadOutcome,
    elapsed_ms: u64,
    window_ms: u64,
    r: ListenerStep,
) -> bool {
    let acc = before + read_bytes(outcome);
    match outcome {
        ReadOutcome::Failed(m) => (r matches ListenerStep::Disconnect(t) && t@ == failed_text(p, m@))
            && after == before,
        _ => if elapsed_ms <= window_ms {
            r is Continue && after == acc
        } else if acc.len() == 0 {
            r is RestartWindow && after == Seq::<u8>::empty()
        } else {
            (r matches ListenerStep::Emit(v) && v@ == acc) && after == Seq::<u8>::empty()
        },
    }
}

impl ListenerState {
    /// Nothing accumulated.
    pub fn new() -> (r: ListenerState)
        ensures
            r.pending@ == Seq::<u8>::empty(),
    {
        ListenerState { pending: Vec::new() }
    }

    /// The step after a read of the port at `path`, `elapsed_ms` after the
    /// current window began. A failed read ends the listener with a
    /// disconnect notice. Otherwise the bytes accumulate; once the window is
    /// over they are emitted as one event, never an empty one, and the
    /// accumulation starts afresh.
    pub fn on_read(
        &mut self,
        path: &String,
        outcome: ReadOutcome,
        elapsed_ms: u64,
        window_ms: u64,
    ) -> (r: ListenerStep)
        ensures
            read_step(path@, old(self).pending@, final(self).pending@, outcome, elapsed_ms, window_ms, r),
    {
        match outcome {
            ReadOutcome::Failed(m) => {
                let t = concat3("Serial port ", path.as_str(), " disconnected due to error: ");
                return ListenerStep::Disconnect(t.concat(m.as_str()));
            },
            ReadOutcome::Data(v) => {
                let mut v = v;
                self.pending.append(&mut v);
            },
            ReadOutcome::TimedOut => {},
        }
        if elapsed_ms <= window_ms {
            ListenerStep::Continue
        } else if self.pending.len() == 0 {
            assert(self.pending@ =~= Seq::<u8>::empty());
            ListenerStep::RestartWindow
        } else {
            let mut out: Vec<u8> = Vec::new();
            std::mem::swap(&mut out, &mut self.pending);
            ListenerStep::Emit(out)
        }
    }

    /// One poll of a listener: reads up to `config.chunk_size` bytes from
    /// `handle` and takes the step that `on_read` gives for what arrived.
    pub fn listen_step(
        &mut self,
        handle: &mut PortHandle,
        path: &String,
        config: &ListenerConfig,
        elapsed_ms: u64,
    ) -> (r: ListenerStep)
        ensures
            exists|o: ReadOutcome|
                (o matches ReadOutcome::Data(v) ==> v@.len() <= config.chunk_size) && #[trigger] read_step(
                    path@,
                    old(self).pending@,
                    final(self).pending@,
                    o,
                    elapsed_ms,
                    config.window_ms,
                    r,
                ),
    {
        let outcome = handle.read_chunk(config.chunk_size);
        let ghost o = outcome;
        let r = self.on_read(path, outcome, elapsed_ms, config.window_ms);
        assert(read_step(path@, old(self).pending@, self.pending@, o, elapsed_ms, config.window_ms, r));
        r
    }
}

} // verus!
