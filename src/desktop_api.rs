//! The command surface: every operation a host performs on serial ports,
//! each checked against the registry of open ports.
//!
//! Background listeners run outside this module. Their controls (`L`, for
//! instance a cancel sender with a thread handle) are stored in the registry
//! and handed back to the caller whenever a command stops a listener, so
//! that the caller signals it and waits for it.

use crate::device::{open_port, PortHandle, PortSettings, ReadOutcome};
use crate::discovery::{
    listing_views, reported_views, sorted_by_name, sorted_listing, PortDetails, PortKind,
};
use crate::error::Error;
use crate::listener::{ListenerConfig, listener_config};
use crate::registry::{SerialportInfo, SerialportState, entries_map, unique_paths};
use crate::state::{ClearBuffer, DataBits, FlowControl, Parity, StopBits};
use crate::text::{concat2, concat3, decimal, decimal_string, decode_lossy, join, joined, lossy_text};
use vstd::prelude::*;
use vstd::utf8::{decode_utf8, encode_utf8, valid_utf8};

verus! {

/// The message for a command on a path that is not registered.
pub open spec fn not_found_text(p: Seq<char>) -> Seq<char> {
    "Port '"@ + p + "' not found"@
}

/// The message for closing a path that is not registered.
pub open spec fn not_open_text(p: Seq<char>) -> Seq<char> {
    "Serial port "@ + p + " is not open!"@
}

/// The message for opening a path that is registered already.
pub open spec fn already_open_text(p: Seq<char>) -> Seq<char> {
    "Serial port "@ + p + " is already open"@
}

/// The message for a read that saw no data within `ms` milliseconds.
pub open spec fn no_data_text(ms: nat) -> Seq<char> {
    "no data received within "@ + decimal(ms) + " ms"@
}

/// `r` is the library's own error with the message `t`.
pub open spec fn is_text_error<T>(r: Result<T, Error>, t: Seq<char>) -> bool {
    r matches Err(Error::String(m)) && m@ == t
}

/// The effect of a command that uses the handle of `p` in place: when `p` is
/// registered only its handle may change; otherwise nothing changes and the
/// result is the not-found error.
pub open spec fn handle_command<L, T>(
    before: Map<Seq<char>, SerialportInfo<L>>,
    after: Map<Seq<char>, SerialportInfo<L>>,
    p: Seq<char>,
    r: Result<T, Error>,
) -> bool {
    if before.contains_key(p) {
        after == before.insert(
            p,
            (SerialportInfo { serialport: after[p].serialport, listener: before[p].listener }),
        )
    } else {
        after == before && is_text_error(r, not_found_text(p))
    }
}

/// The effect of a command that only queries the handle of `p`.
pub open spec fn query_command<L, T>(
    ports: Map<Seq<char>, SerialportInfo<L>>,
    p: Seq<char>,
    r: Result<T, Error>,
) -> bool {
    !ports.contains_key(p) ==> is_text_error(r, not_found_text(p))
}

/// The effect of emptying the listener slot of `p`: the former listener is
/// returned, or the not-found error when `p` is not registered.
pub open spec fn detach_effect<L>(
    before: Map<Seq<char>, SerialportInfo<L>>,
    after: Map<Seq<char>, SerialportInfo<L>>,
    p: Seq<char>,
    r: Result<Option<L>, Error>,
) -> bool {
    if before.contains_key(p) {
        &&& r == Ok::<Option<L>, Error>(before[p].listener)
        &&& after == before.insert(
            p,
            (SerialportInfo { serialport: before[p].serialport, listener: None }),
        )
    } else {
        after == before && is_text_error(r, not_found_text(p))
    }
}

/// The effect of `open`: a registered path keeps its record and the result
/// is the already-open error; otherwise, on success, the path is registered
/// with a new handle and no listener, and on failure nothing changes.
pub open spec fn open_effect<L>(
    before: Map<Seq<char>, SerialportInfo<L>>,
    after: Map<Seq<char>, SerialportInfo<L>>,
    p: Seq<char>,
    r: Result<(), Error>,
) -> bool {
    &&& before.contains_key(p) ==> after == before && is_text_error(r, already_open_text(p))
    &&& !before.contains_key(p) && r is Ok ==> after == before.insert(
        p,
        (SerialportInfo { serialport: after[p].serialport, listener: None }),
    )
    &&& r is Err ==> after == before
}

/// `r` is the library's own error whose message is `pre` followed by some
/// detail.
pub open spec fn error_with_prefix<T>(r: Result<T, Error>, pre: Seq<char>) -> bool {
    r matches Err(Error::String(m)) && exists|d: Seq<char>| m@ == #[trigger] (pre + d)
}

/// The effect of `start_listening`: for a registered `p` the listener slot
/// is emptied first and its former content handed back (`previous`),
/// whatever follows; then, on success, the new listener's handle, timing
/// and event names are returned, and on failure the error names the step
/// that failed. An unregistered `p` is not found and nothing changes.
pub open spec fn start_effect<L>(
    before: Map<Seq<char>, SerialportInfo<L>>,
    after: Map<Seq<char>, SerialportInfo<L>>,
    p: Seq<char>,
    timeout: Option<u64>,
    size: Option<usize>,
    previous: Option<L>,
    r: Result<ListenerStart, Error>,
) -> bool {
    if !before.contains_key(p) {
        &&& previous is None
        &&& after == before
        &&& is_text_error(r, not_found_text(p))
    } else {
        &&& previous == before[p].listener
        &&& after == before.insert(
            p,
            (SerialportInfo { serialport: before[p].serialport, listener: None }),
        )
        &&& r is Err ==> error_with_prefix(r, "Failed to clone serial port: "@) || error_with_prefix(
            r,
            "Failed to set short timeout: "@,
        )
        &&& r matches Ok(s) ==> {
            &&& s.config == crate::listener::config_for(timeout, size)
            &&& s.read_event@ == crate::listener::read_event_name(p)
            &&& s.disconnected_event@ == crate::listener::disconnected_event_name(p)
        }
    }
}

/// The effect of `attach_listener`: `l` fills the listener slot of `p` and
/// the former content is handed back; an unregistered `p` is not found.
pub open spec fn attach_effect<L>(
    before: Map<Seq<char>, SerialportInfo<L>>,
    after: Map<Seq<char>, SerialportInfo<L>>,
    p: Seq<char>,
    l: L,
    r: Result<Option<L>, Error>,
) -> bool {
    if before.contains_key(p) {
        &&& r == Ok::<Option<L>, Error>(before[p].listener)
        &&& after == before.insert(
            p,
            (SerialportInfo { serialport: before[p].serialport, listener: Some(l) }),
        )
    } else {
        after == before && is_text_error(r, not_found_text(p))
    }
}

/// A command on a path that is not registered changes nothing and reports
/// the path as not found, whether it uses the port's handle or its listener.
pub proof fn law_absent_path<L, T>(
    before: Map<Seq<char>, SerialportInfo<L>>,
    after: Map<Seq<char>, SerialportInfo<L>>,
    p: Seq<char>,
    r: Result<T, Error>,
    detached: Result<Option<L>, Error>,
    detached_after: Map<Seq<char>, SerialportInfo<L>>,
)
    requires
        !before.contains_key(p),
        handle_command(before, after, p, r),
        detach_effect(before, detached_after, p, detached),
    ensures
        after == before && is_text_error(r, not_found_text(p)),
        detached_after == before && is_text_error(detached, not_found_text(p)),
{
}

/// Opening a path twice without closing it in between: the second call is
/// refused as already open and the registry keeps what the first made.
pub proof fn law_open_twice<L>(
    m0: Map<Seq<char>, SerialportInfo<L>>,
    m1: Map<Seq<char>, SerialportInfo<L>>,
    m2: Map<Seq<char>, SerialportInfo<L>>,
    p: Seq<char>,
    r1: Result<(), Error>,
    r2: Result<(), Error>,
)
    requires
        open_effect(m0, m1, p, r1),
        r1 is Ok,
        open_effect(m1, m2, p, r2),
    ensures
        is_text_error(r2, already_open_text(p)),
        m2 == m1,
        m1.contains_key(p),
{
    if m0.contains_key(p) {
        assert(is_text_error(r1, already_open_text(p)));
    }
}

/// Stopping a listener twice in a row: the second call succeeds, hands back
/// nothing and changes nothing.
pub proof fn law_stop_twice<L>(
    m0: Map<Seq<char>, SerialportInfo<L>>,
    m1: Map<Seq<char>, SerialportInfo<L>>,
    m2: Map<Seq<char>, SerialportInfo<L>>,
    p: Seq<char>,
    r1: Result<Option<L>, Error>,
    r2: Result<Option<L>, Error>,
)
    requires
        detach_effect(m0, m1, p, r1),
        r1 is Ok,
        detach_effect(m1, m2, p, r2),
    ensures
        r2 == Ok::<Option<L>, Error>(None),
        m2 == m1,
{
    if !m0.contains_key(p) {
        assert(is_text_error(r1, not_found_text(p)));
    }
    assert(m1.contains_key(p));
    assert(m2 =~= m1);
}

/// Replacing a listener: `start_listening` hands back the former listener
/// before the new one exists, and installing the new one displaces nothing,
/// so a port never has two listeners.
pub proof fn law_listener_replaced<L>(
    m0: Map<Seq<char>, SerialportInfo<L>>,
    m1: Map<Seq<char>, SerialportInfo<L>>,
    m2: Map<Seq<char>, SerialportInfo<L>>,
    p: Seq<char>,
    timeout: Option<u64>,
    size: Option<usize>,
    l: L,
    previous: Option<L>,
    r1: Result<ListenerStart, Error>,
    r2: Result<Option<L>, Error>,
)
    requires
        start_effect(m0, m1, p, timeout, size, previous, r1),
        r1 is Ok,
        attach_effect(m1, m2, p, l, r2),
    ensures
        m0.contains_key(p),
        previous == m0[p].listener,
        r2 == Ok::<Option<L>, Error>(None),
        m2.contains_key(p) && m2[p].listener == Some(l),
{
}

/// What a caller needs to run a new listener: a second handle on the port,
/// its timing, and the names of its events.
pub struct ListenerStart {
    /// A duplicate of the port's handle, with the listener's short timeout.
    pub handle: PortHandle,
    /// Timing and chunk size of the new listener.
    pub config: ListenerConfig,
    /// Name of the data event.
    pub read_event: String,
    /// Name of the disconnect event.
    pub disconnected_event: String,
}

/// The library error for a driver failure message.
fn driver_error(m: String) -> (e: Error)
    ensures
        e == Error::SerialPort(m),
{
    Error::SerialPort(m)
}

/// The not-found error for `path`.
fn not_found(path: &String) -> (e: Error)
    ensures
        e matches Error::String(m) && m@ == not_found_text(path@),
{
    Error::String(concat3("Port '", path.as_str(), "' not found"))
}

/// The error of a listener that did not terminate cleanly.
pub fn listener_join_error(detail: &str) -> (e: Error)
    ensures
        e matches Error::String(m) && m@ == "Failed to join thread: "@ + detail@,
{
    Error::String(concat2("Failed to join thread: ", detail))
}

/// The message for a listener of `p` that did not terminate cleanly.
pub open spec fn join_failure_text(p: Seq<char>, detail: Seq<char>) -> Seq<char> {
    "Port "@ + p + " thread join: "@ + detail
}

/// The per-port message of a listener of `path` that did not terminate
/// cleanly while all ports were closed.
pub fn join_failure(path: &String, detail: &str) -> (r: String)
    ensures
        r@ == join_failure_text(path@, detail@),
{
    concat3("Port ", path.as_str(), " thread join: ").concat(detail)
}

/// The outcome of closing every port, from the failures met on the way:
/// success when there were none, otherwise one error listing them all.
pub fn close_all_result(failures: Vec<String>) -> (r: Result<(), Error>)
    ensures
        failures@.len() == 0 <==> r is Ok,
        failures@.len() > 0 ==> is_text_error(
            r,
            joined(failures@.map_values(|s: String| s@), ", "@),
        ),
{
    if failures.len() == 0 {
        Ok(())
    } else {
        Err(Error::String(join(&failures, ", ")))
    }
}

/// What a one-shot read of a registered port with timeout `t` and size
/// `n` may return: the text of at most `n` received bytes (exactly their
/// characters when they are valid UTF-8), or the error of the step that
/// failed.
pub open spec fn one_shot_read(r: Result<String, Error>, t: u64, n: usize) -> bool {
    &&& r matches Ok(s) ==> exists|v: Seq<u8>|
        v.len() <= n && s@ == #[trigger] lossy_text(v) && (valid_utf8(v) ==> s@ == decode_utf8(v))
    &&& r is Err ==> error_with_prefix(r, "Failed to set timeout: "@) || is_text_error(
        r,
        no_data_text(t as nat),
    ) || error_with_prefix(r, "Failed to read data: "@)
}

/// What reading bytes from a registered port with timeout `t` and size `n`
/// may return: at most `n` bytes (none when `n` is 0), or the no-data error,
/// or a read failure.
pub open spec fn bulk_read(r: Result<Vec<u8>, Error>, t: u64, n: usize) -> bool {
    &&& r matches Ok(v) ==> v@.len() <= n
    &&& n == 0 ==> (r matches Ok(v) && v@.len() == 0)
    &&& r is Err ==> is_text_error(r, no_data_text(t as nat)) || error_with_prefix(
        r,
        "Failed to read data: "@,
    )
}

/// What `read_binary` does after one read: append received bytes and go on,
/// stop when the port has nothing more (no data yet is an error), or fail.
pub enum BinaryStep {
    /// Bytes were appended; read again.
    More,
    /// Stop and return what has been gathered.
    Done,
    /// Stop with this error.
    Fail(Error),
}

/// The step of `read_binary` for one read outcome, with `buffer` holding
/// what was gathered so far and `timeout_ms` the read's timeout.
pub fn read_binary_step(buffer: &mut Vec<u8>, outcome: ReadOutcome, timeout_ms: u64) -> (r:
    BinaryStep)
    ensures
        outcome matches ReadOutcome::Data(v) ==> if v@.len() > 0 {
            r is More && final(buffer)@ == old(buffer)@ + v@
        } else {
            r is Done && final(buffer)@ == old(buffer)@
        },
        outcome is TimedOut && old(buffer)@.len() == 0 ==> (r matches BinaryStep::Fail(e) && e is String
            && e.text() == no_data_text(timeout_ms as nat)),
        outcome is TimedOut && old(buffer)@.len() > 0 ==> r is Done,
        outcome matches ReadOutcome::Failed(m) ==> (r matches BinaryStep::Fail(e) && e is String
            && e.text() == "Failed to read data: "@ + m@),
        !(outcome is Data) ==> final(buffer)@ == old(buffer)@,
{
    match outcome {
        ReadOutcome::Data(v) => {
            if v.len() == 0 {
                BinaryStep::Done
            } else {
                let mut v = v;
                buffer.append(&mut v);
                BinaryStep::More
            }
        },
        ReadOutcome::TimedOut => {
            if buffer.len() == 0 {
                let ms = decimal_string(timeout_ms);
                BinaryStep::Fail(Error::String(concat3("no data received within ", ms.as_str(), " ms")))
            } else {
                BinaryStep::Done
            }
        },
        ReadOutcome::Failed(m) => BinaryStep::Fail(
            Error::String(concat2("Failed to read data: ", m.as_str())),
        ),
    }
}

/// The result of a one-shot read whose timeout was `timeout_ms`, from what
/// the device produced: the bytes decoded as text, or an error.
pub fn read_result(timeout_ms: u64, outcome: ReadOutcome) -> (r: Result<String, Error>)
    ensures
        outcome matches ReadOutcome::Data(v) ==> (r matches Ok(s) && s@ == lossy_text(v@) && (
        valid_utf8(v@) ==> s@ == decode_utf8(v@))),
        outcome is TimedOut ==> is_text_error(r, no_data_text(timeout_ms as nat)),
        outcome matches ReadOutcome::Failed(m) ==> is_text_error(r, "Failed to read data: "@ + m@),
{
    match outcome {
        ReadOutcome::Data(v) => Ok(decode_lossy(v.as_slice())),
        ReadOutcome::TimedOut => {
            let ms = decimal_string(timeout_ms);
            Err(Error::String(concat3("no data received within ", ms.as_str(), " ms")))
        },
        ReadOutcome::Failed(m) => Err(Error::String(concat2("Failed to read data: ", m.as_str()))),
    }
}

#[verifier::external_type_specification]
#[verifier::external_body]
pub struct ExInstant(std::time::Instant);

/// Relies on `std::time::Instant::now`.
#[verifier::external_body]
fn clock_start() -> std::time::Instant {
    std::time::Instant::now()
}

/// Relies on `std::time::Instant::elapsed`, in whole milliseconds.
#[verifier::external_body]
fn elapsed_ms(start: &std::time::Instant) -> u128 {
    start.elapsed().as_millis()
}

/// Read timeout of a one-shot read without an explicit one, in milliseconds.
pub const DEFAULT_READ_TIMEOUT_MS: u64 = 1000;

/// Buffer size of a read without an explicit one, in bytes.
pub const DEFAULT_READ_SIZE: usize = 1024;

/// The serial ports of an application: the registry of open ports and the
/// commands on it.
pub struct SerialPort<L> {
    serialports: SerialportState<L>,
}

impl<L> View for SerialPort<L> {
    type V = Map<Seq<char>, SerialportInfo<L>>;

    closed spec fn view(&self) -> Map<Seq<char>, SerialportInfo<L>> {
        self.serialports@
    }
}

impl<L> SerialPort<L> {
    /// Well-formedness of the registry.
    pub closed spec fn wf(&self) -> bool {
        self.serialports.wf()
    }

    /// No port open.
    pub fn new() -> (r: Self)
        ensures
            r.wf(),
            r@ == Map::<Seq<char>, SerialportInfo<L>>::empty(),
    {
        SerialPort { serialports: SerialportState::new() }
    }

    /// The ports that the driver's enumeration `reported`, ordered by path,
    /// each with its attributes. The caller passes an empty list when the
    /// enumeration failed.
    pub fn available_ports(&self, reported: Vec<(String, PortKind)>) -> (r: Result<
        Vec<(String, PortDetails)>,
        Error,
    >)
        ensures
            r matches Ok(v) && sorted_by_name(v@) && listing_views(v@).to_multiset()
                == reported_views(reported@).to_multiset(),
    {
        Ok(sorted_listing(reported))
    }

    /// The paths of the open ports, each once.
    pub fn managed_ports(&self) -> (r: Result<Vec<String>, Error>)
        requires
            self.wf(),
        ensures
            r matches Ok(v) && v@.len() == self@.dom().len() && (forall|k: Seq<char>|
                self@.contains_key(k) <==> exists|j: int| 0 <= j < v@.len() && v@[j]@ == k)
                && (forall|a: int, b: int|
                0 <= a < v@.len() && 0 <= b < v@.len() && v@[a]@ == v@[b]@ ==> a == b),
    {
        let v = self.serialports.keys();
        assert(self@ == self.serialports@);
        Ok(v)
    }

    /// Opens `path` with the given settings (absent ones take their
    /// defaults) and registers it without a listener. A path that is open
    /// already is refused and keeps its record.
    pub fn open(
        &mut self,
        path: String,
        baud_rate: u32,
        data_bits: Option<DataBits>,
        flow_control: Option<FlowControl>,
        parity: Option<Parity>,
        stop_bits: Option<StopBits>,
        timeout: Option<u64>,
    ) -> (r: Result<(), Error>)
        requires
            old(self).wf(),
        ensures
            final(self).wf(),
            open_effect(old(self)@, final(self)@, path@, r),
            !old(self)@.contains_key(path@) && r is Err ==> error_with_prefix(
                r,
                "Failed to open serial port: "@,
            ),
    {
        if self.serialports.contains(&path) {
            return Err(Error::String(concat3("Serial port ", path.as_str(), " is already open")));
        }
        let settings = PortSettings::resolve(
            baud_rate,
            data_bits,
            flow_control,
            parity,
            stop_bits,
            timeout,
        );
        match open_port(path.as_str(), &settings) {
            Ok(handle) => {
                let info = SerialportInfo::new(handle);
                self.serialports.insert(path, info);
                Ok(())
            },
            Err(m) => Err(Error::String(concat2("Failed to open serial port: ", m.as_str()))),
        }
    }

    /// Registers `handle`, already open, under `path`, without a listener.
    /// A path that is open already is refused and keeps its record.
    pub fn open_handle(&mut self, path: String, handle: PortHandle) -> (r: Result<(), Error>)
        requires
            old(self).wf(),
        ensures
            final(self).wf(),
            open_effect(old(self)@, final(self)@, path@, r),
            !old(self)@.contains_key(path@) ==> r is Ok && final(self)@[path@].serialport == handle,
    {
        if self.serialports.contains(&path) {
            return Err(Error::String(concat3("Serial port ", path.as_str(), " is already open")));
        }
        self.serialports.insert(path, SerialportInfo::new(handle));
        Ok(())
    }

    /// Closes `path`: its record leaves the registry and its listener, if
    /// any, is handed back to be signalled and waited for.
    pub fn close(&mut self, path: String) -> (r: Result<Option<L>, Error>)
        requires
            old(self).wf(),
        ensures
            final(self).wf(),
            old(self)@.contains_key(path@) ==> r == Ok::<Option<L>, Error>(
                old(self)@[path@].listener,
            ) && final(self)@ == old(self)@.remove(path@),
            !old(self)@.contains_key(path@) ==> final(self)@ == old(self)@ && is_text_error(
                r,
                not_open_text(path@),
            ),
    {
        match self.serialports.remove(&path) {
            Some(info) => Ok(info.listener),
            None => Err(Error::String(concat3("Serial port ", path.as_str(), " is not open!"))),
        }
    }

    /// Closes `path` if it is open; an absent path is no error.
    pub fn force_close(&mut self, path: String) -> (r: Result<Option<L>, Error>)
        requires
            old(self).wf(),
        ensures
            final(self).wf(),
            final(self)@ == old(self)@.remove(path@),
            old(self)@.contains_key(path@) ==> r == Ok::<Option<L>, Error>(
                old(self)@[path@].listener,
            ),
            !old(self)@.contains_key(path@) ==> r == Ok::<Option<L>, Error>(None),
    {
        match self.serialports.remove(&path) {
            Some(info) => Ok(info.listener),
            None => {
                assert(self@ =~= old(self)@.remove(path@));
                Ok(None)
            },
        }
    }

    /// Closes every port: the registry is left empty and each closed
    /// path comes back with its listener, to be signalled and waited for.
    pub fn close_all(&mut self) -> (r: Vec<(String, Option<L>)>)
        requires
            old(self).wf(),
        ensures
            final(self).wf(),
            final(self)@ == Map::<Seq<char>, SerialportInfo<L>>::empty(),
            r@.len() == old(self)@.dom().len(),
            forall|k: Seq<char>|
                old(self)@.contains_key(k) <==> exists|j: int| 0 <= j < r@.len() && r@[j].0@ == k,
            forall|j: int|
                0 <= j < r@.len() ==> (#[trigger] r@[j]).1 == old(self)@[r@[j].0@].listener,
            forall|a: int, b: int|
                0 <= a < r@.len() && 0 <= b < r@.len() && r@[a].0@ == r@[b].0@ ==> a == b,
    {
        let mut drained = self.serialports.drain();
        let ghost all = drained@;
        let ghost n = all.len();
        proof {
            crate::registry::lemma_dom_len(all);
        }
        let mut r: Vec<(String, Option<L>)> = Vec::new();
        while drained.len() > 0
            invariant
                unique_paths(all),
                n == all.len(),
                drained@ == all.subrange(0, drained@.len() as int),
                r@.len() + drained@.len() == n,
                forall|j: int|
                    0 <= j < r@.len() ==> #[trigger] r@[j].0@ == all[n - 1 - j].path@ && r@[j].1
                        == all[n - 1 - j].info.listener,
            decreases drained@.len(),
        {
            let e = drained.pop().unwrap();
            r.push((e.path, e.info.listener));
        }
        proof {
            assert forall|j: int| 0 <= j < r@.len() implies (#[trigger] r@[j]).1 == entries_map(
                all,
            )[r@[j].0@].listener by {
                crate::registry::lemma_lookup(all, n - 1 - j);
            }
            assert forall|k: Seq<char>| entries_map(all).contains_key(k) implies exists|j: int|
                0 <= j < r@.len() && r@[j].0@ == k by {
                let i = choose|i: int| 0 <= i < all.len() && all[i].path@ == k;
                assert(r@[n - 1 - i].0@ == k);
            }
            assert forall|k: Seq<char>| (exists|j: int| 0 <= j < r@.len() && r@[j].0@ == k) implies entries_map(all).contains_key(k) by {
                let j = choose|j: int| 0 <= j < r@.len() && r@[j].0@ == k;
                crate::registry::lemma_lookup(all, n - 1 - j);
            }
            assert forall|a: int, b: int|
                0 <= a < r@.len() && 0 <= b < r@.len() && r@[a].0@ == r@[b].0@ implies a == b by {
                assert(all[n - 1 - a].path@ == all[n - 1 - b].path@);
            }
        }
        r
    }

    /// Stops the listener of `path` without waiting for it: the slot is
    /// emptied and the former listener handed back. A port without a
    /// listener is left as it is.
    pub fn cancel_read(&mut self, path: String) -> (r: Result<Option<L>, Error>)
        requires
            old(self).wf(),
        ensures
            final(self).wf(),
            detach_effect(old(self)@, final(self)@, path@, r),
    {
        self.detach(&path)
    }

    /// Stops the listener of `path`, as `cancel_read` does.
    pub fn stop_listening(&mut self, path: String) -> (r: Result<Option<L>, Error>)
        requires
            old(self).wf(),
        ensures
            final(self).wf(),
            detach_effect(old(self)@, final(self)@, path@, r),
    {
        self.detach(&path)
    }

    fn detach(&mut self, path: &String) -> (r: Result<Option<L>, Error>)
        requires
            old(self).wf(),
        ensures
            final(self).wf(),
            detach_effect(old(self)@, final(self)@, path@, r),
    {
        match self.serialports.replace_listener(path, None) {
            Some(previous) => Ok(previous),
            None => Err(not_found(path)),
        }
    }

    /// Prepares a new listener on `path`: empties the listener slot and
    /// hands back the listener that was there (to be stopped and waited for
    /// by the caller), then duplicates the handle with the listener's short
    /// timeout.
    pub fn start_listening(&mut self, path: String, timeout: Option<u64>, size: Option<usize>) -> (r:
        (Option<L>, Result<ListenerStart, Error>))
        requires
            old(self).wf(),
        ensures
            final(self).wf(),
            start_effect(old(self)@, final(self)@, path@, timeout, size, r.0, r.1),
    {
        let previous = match self.serialports.replace_listener(&path, None) {
            Some(p) => p,
            None => return (None, Err(not_found(&path))),
        };
        let i = match self.serialports.find(&path) {
            Some(i) => i,
            None => return (previous, Err(not_found(&path))),
        };
        let config = listener_config(timeout, size);
        let mut handle = match self.serialports.handle(i).duplicate() {
            Ok(h) => h,
            Err(m) => {
                return (
                    previous,
                    Err(Error::String(concat2("Failed to clone serial port: ", m.as_str()))),
                );
            },
        };
        match handle.set_timeout_ms(config.poll_timeout_ms) {
            Ok(()) => {},
            Err(m) => {
                return (
                    previous,
                    Err(Error::String(concat2("Failed to set short timeout: ", m.as_str()))),
                );
            },
        }
        (
            previous,
            Ok(ListenerStart {
                handle,
                config,
                read_event: crate::listener::read_event(&path),
                disconnected_event: crate::listener::disconnected_event(&path),
            }),
        )
    }

    /// Stores the controls of a listener that now runs for `path`, handing
    /// back whatever the slot held.
    pub fn attach_listener(&mut self, path: String, listener: L) -> (r: Result<Option<L>, Error>)
        requires
            old(self).wf(),
        ensures
            final(self).wf(),
            attach_effect(old(self)@, final(self)@, path@, listener, r),
    {
        match self.serialports.replace_listener(&path, Some(listener)) {
            Some(previous) => Ok(previous),
            None => Err(not_found(&path)),
        }
    }

    /// One read from `path`: sets the port's timeout to `timeout` (1000 ms
    /// by default), reads up to `size` bytes (1024 by default) and decodes
    /// them as text. No data within the timeout is an error.
    pub fn read(&mut self, path: String, timeout: Option<u64>, size: Option<usize>) -> (r: Result<
        String,
        Error,
    >)
        requires
            old(self).wf(),
        ensures
            final(self).wf(),
            handle_command(old(self)@, final(self)@, path@, r),
            old(self)@.contains_key(path@) ==> one_shot_read(
                r,
                match timeout { Some(t) => t, None => DEFAULT_READ_TIMEOUT_MS },
                match size { Some(n) => n, None => DEFAULT_READ_SIZE },
            ),
    {
        let i = match self.serialports.find(&path) {
            Some(i) => i,
            None => return Err(not_found(&path)),
        };
        let timeout_ms = match timeout { Some(t) => t, None => DEFAULT_READ_TIMEOUT_MS };
        let max = match size { Some(n) => n, None => DEFAULT_READ_SIZE };
        let handle = self.serialports.handle_mut(i);
        match handle.set_timeout_ms(timeout_ms) {
            Ok(()) => {},
            Err(m) => {
                return Err(Error::String(concat2("Failed to set timeout: ", m.as_str())));
            },
        }
        let outcome = handle.read_chunk(max);
        let ghost o = outcome;
        let r = read_result(timeout_ms, outcome);
        proof {
            if let ReadOutcome::Data(v) = o {
                let s = r->Ok_0;
                assert(v@.len() <= max && s@ == lossy_text(v@));
            }
        }
        r
    }

    /// Reads from `path` until `size` bytes (1024 by default) have arrived,
    /// the port has nothing more, or `timeout` (1000 ms by default) has
    /// passed. No data at all before the port times out is an error.
    pub fn read_binary(&mut self, path: String, timeout: Option<u64>, size: Option<usize>) -> (r:
        Result<Vec<u8>, Error>)
        requires
            old(self).wf(),
        ensures
            final(self).wf(),
            handle_command(old(self)@, final(self)@, path@, r),
            old(self)@.contains_key(path@) ==> bulk_read(
                r,
                match timeout { Some(t) => t, None => DEFAULT_READ_TIMEOUT_MS },
                match size { Some(n) => n, None => DEFAULT_READ_SIZE },
            ),
    {
        let i = match self.serialports.find(&path) {
            Some(i) => i,
            None => return Err(not_found(&path)),
        };
        let target = match size { Some(n) => n, None => DEFAULT_READ_SIZE };
        let timeout_ms = match timeout { Some(t) => t, None => DEFAULT_READ_TIMEOUT_MS };
        let mut buffer: Vec<u8> = Vec::new();
        let start = clock_start();
        while buffer.len() < target && elapsed_ms(&start) < timeout_ms as u128
            invariant
                buffer@.len() <= target,
                target == (match size { Some(n) => n, None => DEFAULT_READ_SIZE }),
                timeout_ms == (match timeout { Some(t) => t, None => DEFAULT_READ_TIMEOUT_MS }),
                self.wf(),
                i < self.serialports.size(),
                self.serialports.key_at(i as int) == path@,
                old(self)@.contains_key(path@),
                self@ == old(self)@.insert(
                    path@,
                    (SerialportInfo { serialport: self@[path@].serialport, listener: old(self)@[path@].listener }),
                ),
            decreases target - buffer@.len(),
        {
            let outcome = self.serialports.handle_mut(i).read_chunk(target - buffer.len());
            assert(self@ =~= old(self)@.insert(
                path@,
                (SerialportInfo { serialport: self@[path@].serialport, listener: old(self)@[path@].listener }),
            ));
            let ghost before = buffer@;
            let ghost o = outcome;
            match read_binary_step(&mut buffer, outcome, timeout_ms) {
                BinaryStep::More => {
                    assert(buffer@.len() > before.len());
                },
                BinaryStep::Done => {
                    break;
                },
                BinaryStep::Fail(e) => {
                    proof {
                        assert(target > 0);
                        let t = timeout_ms as nat;
                        match o {
                            ReadOutcome::Failed(m) => {
                                let pre = "Failed to read data: "@;
                                assert(e.text() == pre + m@);
                                assert(error_with_prefix(Err::<Vec<u8>, Error>(e), pre));
                            },
                            ReadOutcome::TimedOut => {
                                assert(is_text_error(Err::<Vec<u8>, Error>(e), no_data_text(t)));
                            },
                            ReadOutcome::Data(v) => {},
                        }
                        assert(bulk_read(Err::<Vec<u8>, Error>(e), timeout_ms, target));
                    }
                    return Err(e);
                },
            }
        }
        Ok(buffer)
    }

    /// Writes the UTF-8 bytes of `value` to `path`; the count written.
    pub fn write(&mut self, path: String, value: String) -> (r: Result<usize, Error>)
        requires
            old(self).wf(),
        ensures
            final(self).wf(),
            handle_command(old(self)@, final(self)@, path@, r),
            r matches Ok(n) ==> n <= encode_utf8(value@).len(),
            old(self)@.contains_key(path@) && r is Err ==> error_with_prefix(
                r,
                "Failed to write data: "@,
            ),
    {
        let i = match self.serialports.find(&path) {
            Some(i) => i,
            None => return Err(not_found(&path)),
        };
        let bytes = value.as_str().as_bytes();
        match self.serialports.handle_mut(i).write_bytes(bytes) {
            Ok(n) => Ok(n),
            Err(m) => Err(Error::String(concat2("Failed to write data: ", m.as_str()))),
        }
    }

    /// Writes `value` to `path`; the count written.
    pub fn write_binary(&mut self, path: String, value: Vec<u8>) -> (r: Result<usize, Error>)
        requires
            old(self).wf(),
        ensures
            final(self).wf(),
            handle_command(old(self)@, final(self)@, path@, r),
            r matches Ok(n) ==> n <= value@.len(),
            old(self)@.contains_key(path@) && r is Err ==> error_with_prefix(
                r,
                "Failed to write binary data: "@,
            ),
    {
        let i = match self.serialports.find(&path) {
            Some(i) => i,
            None => return Err(not_found(&path)),
        };
        match self.serialports.handle_mut(i).write_bytes(value.as_slice()) {
            Ok(n) => Ok(n),
            Err(m) => Err(Error::String(concat2("Failed to write binary data: ", m.as_str()))),
        }
    }

    /// Sets the baud rate of `path`.
    pub fn set_baud_rate(&mut self, path: String, baud_rate: u32) -> (r: Result<(), Error>)
        requires
            old(self).wf(),
        ensures
            final(self).wf(),
            handle_command(old(self)@, final(self)@, path@, r),
            old(self)@.contains_key(path@) && r is Err ==> error_with_prefix(
                r,
                "Failed to set baud rate: "@,
            ),
    {
        let i = match self.serialports.find(&path) {
            Some(i) => i,
            None => return Err(not_found(&path)),
        };
        match self.serialports.handle_mut(i).set_baud_rate(baud_rate) {
            Ok(()) => Ok(()),
            Err(m) => Err(Error::String(concat2("Failed to set baud rate: ", m.as_str()))),
        }
    }

    /// Sets the data bits of `path`.
    pub fn set_data_bits(&mut self, path: String, data_bits: DataBits) -> (r: Result<(), Error>)
        requires
            old(self).wf(),
        ensures
            final(self).wf(),
            handle_command(old(self)@, final(self)@, path@, r),
            old(self)@.contains_key(path@) && r is Err ==> r->Err_0 is SerialPort,
    {
        let i = match self.serialports.find(&path) {
            Some(i) => i,
            None => return Err(not_found(&path)),
        };
        match self.serialports.handle_mut(i).set_data_bits(data_bits) {
            Ok(()) => Ok(()),
            Err(m) => Err(driver_error(m)),
        }
    }

    /// Sets the flow control of `path`.
    pub fn set_flow_control(&mut self, path: String, flow_control: FlowControl) -> (r: Result<(), Error>)
        requires
            old(self).wf(),
        ensures
            final(self).wf(),
            handle_command(old(self)@, final(self)@, path@, r),
            old(self)@.contains_key(path@) && r is Err ==> r->Err_0 is SerialPort,
    {
        let i = match self.serialports.find(&path) {
            Some(i) => i,
            None => return Err(not_found(&path)),
        };
        match self.serialports.handle_mut(i).set_flow_control(flow_control) {
            Ok(()) => Ok(()),
            Err(m) => Err(driver_error(m)),
        }
    }

    /// Sets the parity of `path`.
    pub fn set_parity(&mut self, path: String, parity: Parity) -> (r: Result<(), Error>)
        requires
            old(self).wf(),
        ensures
            final(self).wf(),
            handle_command(old(self)@, final(self)@, path@, r),
            old(self)@.contains_key(path@) && r is Err ==> r->Err_0 is SerialPort,
    {
        let i = match self.serialports.find(&path) {
            Some(i) => i,
            None => return Err(not_found(&path)),
        };
        match self.serialports.handle_mut(i).set_parity(parity) {
            Ok(()) => Ok(()),
            Err(m) => Err(driver_error(m)),
        }
    }

    /// Sets the stop bits of `path`.
    pub fn set_stop_bits(&mut self, path: String, stop_bits: StopBits) -> (r: Result<(), Error>)
        requires
            old(self).wf(),
        ensures
            final(self).wf(),
            handle_command(old(self)@, final(self)@, path@, r),
            old(self)@.contains_key(path@) && r is Err ==> r->Err_0 is SerialPort,
    {
        let i = match self.serialports.find(&path) {
            Some(i) => i,
            None => return Err(not_found(&path)),
        };
        match self.serialports.handle_mut(i).set_stop_bits(stop_bits) {
            Ok(()) => Ok(()),
            Err(m) => Err(driver_error(m)),
        }
    }

    /// Sets the read timeout of `path`, in milliseconds.
    pub fn set_timeout(&mut self, path: String, timeout_ms: u64) -> (r: Result<(), Error>)
        requires
            old(self).wf(),
        ensures
            final(self).wf(),
            handle_command(old(self)@, final(self)@, path@, r),
            old(self)@.contains_key(path@) && r is Err ==> r->Err_0 is SerialPort,
    {
        let i = match self.serialports.find(&path) {
            Some(i) => i,
            None => return Err(not_found(&path)),
        };
        match self.serialports.handle_mut(i).set_timeout_ms(timeout_ms) {
            Ok(()) => Ok(()),
            Err(m) => Err(driver_error(m)),
        }
    }

    /// Drives the RTS line of `path`.
    pub fn write_request_to_send(&mut self, path: String, level: bool) -> (r: Result<(), Error>)
        requires
            old(self).wf(),
        ensures
            final(self).wf(),
            handle_command(old(self)@, final(self)@, path@, r),
            old(self)@.contains_key(path@) && r is Err ==> r->Err_0 is SerialPort,
    {
        let i = match self.serialports.find(&path) {
            Some(i) => i,
            None => return Err(not_found(&path)),
        };
        match self.serialports.handle_mut(i).write_request_to_send(level) {
            Ok(()) => Ok(()),
            Err(m) => Err(driver_error(m)),
        }
    }

    /// Drives the DTR line of `path`.
    pub fn write_data_terminal_ready(&mut self, path: String, level: bool) -> (r: Result<(), Error>)
        requires
            old(self).wf(),
        ensures
            final(self).wf(),
            handle_command(old(self)@, final(self)@, path@, r),
            old(self)@.contains_key(path@) && r is Err ==> r->Err_0 is SerialPort,
    {
        let i = match self.serialports.find(&path) {
            Some(i) => i,
            None => return Err(not_found(&path)),
        };
        match self.serialports.handle_mut(i).write_data_terminal_ready(level) {
            Ok(()) => Ok(()),
            Err(m) => Err(driver_error(m)),
        }
    }

    /// The CTS line of `path`.
    pub fn read_clear_to_send(&mut self, path: String) -> (r: Result<bool, Error>)
        requires
            old(self).wf(),
        ensures
            final(self).wf(),
            handle_command(old(self)@, final(self)@, path@, r),
            old(self)@.contains_key(path@) && r is Err ==> r->Err_0 is SerialPort,
    {
        let i = match self.serialports.find(&path) {
            Some(i) => i,
            None => return Err(not_found(&path)),
        };
        match self.serialports.handle_mut(i).read_clear_to_send() {
            Ok(v) => Ok(v),
            Err(m) => Err(driver_error(m)),
        }
    }

    /// The DSR line of `path`.
    pub fn read_data_set_ready(&mut self, path: String) -> (r: Result<bool, Error>)
        requires
            old(self).wf(),
        ensures
            final(self).wf(),
            handle_command(old(self)@, final(self)@, path@, r),
            old(self)@.contains_key(path@) && r is Err ==> r->Err_0 is SerialPort,
    {
        let i = match self.serialports.find(&path) {
            Some(i) => i,
            None => return Err(not_found(&path)),
        };
        match self.serialports.handle_mut(i).read_data_set_ready() {
            Ok(v) => Ok(v),
            Err(m) => Err(driver_error(m)),
        }
    }

    /// The RI line of `path`.
    pub fn read_ring_indicator(&mut self, path: String) -> (r: Result<bool, Error>)
        requires
            old(self).wf(),
        ensures
            final(self).wf(),
            handle_command(old(self)@, final(self)@, path@, r),
            old(self)@.contains_key(path@) && r is Err ==> r->Err_0 is SerialPort,
    {
        let i = match self.serialports.find(&path) {
            Some(i) => i,
            None => return Err(not_found(&path)),
        };
        match self.serialports.handle_mut(i).read_ring_indicator() {
            Ok(v) => Ok(v),
            Err(m) => Err(driver_error(m)),
        }
    }

    /// The CD line of `path`.
    pub fn read_carrier_detect(&mut self, path: String) -> (r: Result<bool, Error>)
        requires
            old(self).wf(),
        ensures
            final(self).wf(),
            handle_command(old(self)@, final(self)@, path@, r),
            old(self)@.contains_key(path@) && r is Err ==> r->Err_0 is SerialPort,
    {
        let i = match self.serialports.find(&path) {
            Some(i) => i,
            None => return Err(not_found(&path)),
        };
        match self.serialports.handle_mut(i).read_carrier_detect() {
            Ok(v) => Ok(v),
            Err(m) => Err(driver_error(m)),
        }
    }

    /// The number of received bytes waiting in `path`.
    pub fn bytes_to_read(&self, path: String) -> (r: Result<u32, Error>)
        requires
            self.wf(),
        ensures
            query_command(self@, path@, r),
            self@.contains_key(path@) && r is Err ==> r->Err_0 is SerialPort,
    {
        let i = match self.serialports.find(&path) {
            Some(i) => i,
            None => return Err(not_found(&path)),
        };
        match self.serialports.handle(i).bytes_to_read() {
            Ok(v) => Ok(v),
            Err(m) => Err(driver_error(m)),
        }
    }

    /// The number of bytes of `path` not transmitted yet.
    pub fn bytes_to_write(&self, path: String) -> (r: Result<u32, Error>)
        requires
            self.wf(),
        ensures
            query_command(self@, path@, r),
            self@.contains_key(path@) && r is Err ==> r->Err_0 is SerialPort,
    {
        let i = match self.serialports.find(&path) {
            Some(i) => i,
            None => return Err(not_found(&path)),
        };
        match self.serialports.handle(i).bytes_to_write() {
            Ok(v) => Ok(v),
            Err(m) => Err(driver_error(m)),
        }
    }

    /// Starts a break condition on `path`.
    pub fn set_break(&self, path: String) -> (r: Result<(), Error>)
        requires
            self.wf(),
        ensures
            query_command(self@, path@, r),
            self@.contains_key(path@) && r is Err ==> r->Err_0 is SerialPort,
    {
        let i = match self.serialports.find(&path) {
            Some(i) => i,
            None => return Err(not_found(&path)),
        };
        match self.serialports.handle(i).set_break() {
            Ok(v) => Ok(v),
            Err(m) => Err(driver_error(m)),
        }
    }

    /// Ends the break condition on `path`.
    pub fn clear_break(&self, path: String) -> (r: Result<(), Error>)
        requires
            self.wf(),
        ensures
            query_command(self@, path@, r),
            self@.contains_key(path@) && r is Err ==> r->Err_0 is SerialPort,
    {
        let i = match self.serialports.find(&path) {
            Some(i) => i,
            None => return Err(not_found(&path)),
        };
        match self.serialports.handle(i).clear_break() {
            Ok(v) => Ok(v),
            Err(m) => Err(driver_error(m)),
        }
    }

    /// Discards the selected buffers of `path`.
    pub fn clear_buffer(&self, path: String, buffer_to_clear: ClearBuffer) -> (r: Result<(), Error>)
        requires
            self.wf(),
        ensures
            query_command(self@, path@, r),
            self@.contains_key(path@) && r is Err ==> r->Err_0 is SerialPort,
    {
        let i = match self.serialports.find(&path) {
            Some(i) => i,
            None => return Err(not_found(&path)),
        };
        match self.serialports.handle(i).clear(buffer_to_clear) {
            Ok(()) => Ok(()),
            Err(m) => Err(driver_error(m)),
        }
    }
}

} // verus!
