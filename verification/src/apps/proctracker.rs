//! ProcessTracker: a process that periodically reports how many processes are alive,
//! on screen or on the console.
//!
//! The decisions live here; drawing, logging and reading the process table are done
//! by the caller, which hands back the process count it observed.
use vstd::prelude::*;

use crate::kui::{decimal, push_decimal};
use vstd::string::{StrSliceExecFns, StringExecFns};

verus! {

/// Scheduling status of a process.
#[derive(Clone, Copy, Debug, PartialEq, Eq, Structural)]
pub enum ProcessStatus {
    Running,
}

/// Why a process refused an IPC message.
#[derive(Debug)]
pub enum IpcReceiveError {
    Message(&'static str),
}

/// What a tick asks the caller to do.
#[derive(Clone, Copy, Debug, PartialEq, Eq, Structural)]
pub enum TickAction {
    /// Nothing to report: yield.
    Yield,
    /// Report time: toggle the DBG LED, log the tick count, count the live processes
    /// (painting the table when `draw` is set, printing it otherwise), hand the count
    /// to `report_count`, log the change it names, and yield.
    Report { ticks: u32, draw: bool },
}

/// How the number of live processes moved since the last count.
#[derive(Clone, Copy, Debug, PartialEq, Eq, Structural)]
pub enum CountChange {
    /// Same number as before.
    Unchanged,
    /// Fewer processes: this many are still active.
    Closed(u32),
    /// More processes: this many are registered now.
    Registered(u32),
}

/// State of the tracker process.
pub struct ProcessTracker {
    pid: u32,
    name: &'static str,
    status: ProcessStatus,
    tick_count: u32,
    /// How often (in ticks) to refresh the table and log process-count changes.
    report_every: u32,
    current_amount: u32,
    last_amount: u32,
    draw_to_screen: bool,
}

/// Ghost picture of the tracker.
pub struct TrackerView {
    pub pid: u32,
    pub status: ProcessStatus,
    pub tick_count: u32,
    pub report_every: u32,
    pub current_amount: u32,
    pub last_amount: u32,
    pub draw_to_screen: bool,
}

/// `t` is a multiple of `m` as `u32::is_multiple_of` defines it (only 0 is a multiple of 0).
pub open spec fn multiple_of(t: u32, m: u32) -> bool {
    if m == 0 {
        t == 0
    } else {
        t % m == 0
    }
}

impl View for ProcessTracker {
    type V = TrackerView;

    closed spec fn view(&self) -> TrackerView {
        TrackerView {
            pid: self.pid,
            status: self.status,
            tick_count: self.tick_count,
            report_every: self.report_every,
            current_amount: self.current_amount,
            last_amount: self.last_amount,
            draw_to_screen: self.draw_to_screen,
        }
    }
}

impl ProcessTracker {
    pub closed spec fn spec_name(&self) -> &'static str {
        self.name
    }

    /// A tracker that draws to the screen and reports every million ticks.
    pub fn new() -> (r: ProcessTracker)
        ensures
            r@ == (TrackerView {
                pid: 0,
                status: ProcessStatus::Running,
                tick_count: 0,
                report_every: 1_000_000,
                current_amount: 0,
                last_amount: 0,
                draw_to_screen: true,
            }),
            r.spec_name()@ == "ProcessTracker"@,
    {
        ProcessTracker {
            pid: 0,
            name: "ProcessTracker",
            status: ProcessStatus::Running,
            tick_count: 0,
            report_every: 1_000_000,
            current_amount: 0,
            last_amount: 0,
            draw_to_screen: true,
        }
    }

    /// Start-up: returns `true` when the table must be painted right away (the caller
    /// then paints it and records the count with `record_count`).
    pub fn on_init(&self) -> (r: bool)
        ensures
            r == self@.draw_to_screen,
    {
        self.draw_to_screen
    }

    /// Records the number of live processes painted at start-up (no change is logged).
    pub fn record_count(&mut self, n: u32)
        ensures
            final(self)@ == (TrackerView { current_amount: n, last_amount: n, ..old(self)@ }),
            final(self).spec_name() == old(self).spec_name(),
    {
        self.current_amount = n;
        self.last_amount = self.current_amount;
    }

    /// Counts a tick and decides whether this one reports.
    pub fn on_tick(&mut self) -> (r: TickAction)
        requires
            old(self)@.tick_count < u32::MAX,
        ensures
            final(self)@ == (TrackerView { tick_count: (old(self)@.tick_count + 1) as u32, ..old(self)@ }),
            final(self).spec_name() == old(self).spec_name(),
            !multiple_of(final(self)@.tick_count, old(self)@.report_every) ==> r == TickAction::Yield,
            multiple_of(final(self)@.tick_count, old(self)@.report_every) ==> r == (TickAction::Report {
                ticks: final(self)@.tick_count,
                draw: old(self)@.draw_to_screen,
            }),
    {
        self.tick_count = self.tick_count + 1;
        let due = if self.report_every == 0 {
            self.tick_count == 0
        } else {
            self.tick_count % self.report_every == 0
        };
        if !due {
            return TickAction::Yield;
        }
        TickAction::Report { ticks: self.tick_count, draw: self.draw_to_screen }
    }

    /// Records the number of live processes counted at a report and names the change
    /// from the previous count: fewer processes are logged as closed, more as
    /// registered.
    pub fn report_count(&mut self, n: u32) -> (r: CountChange)
        ensures
            final(self)@ == (TrackerView { current_amount: n, last_amount: n, ..old(self)@ }),
            final(self).spec_name() == old(self).spec_name(),
            r == (if n < old(self)@.last_amount {
                CountChange::Closed(n)
            } else if n > old(self)@.last_amount {
                CountChange::Registered(n)
            } else {
                CountChange::Unchanged
            }),
    {
        let r = if n < self.last_amount {
            CountChange::Closed(n)
        } else if n > self.last_amount {
            CountChange::Registered(n)
        } else {
            CountChange::Unchanged
        };
        self.current_amount = n;
        self.last_amount = n;
        r
    }

    /// Ticks counted so far.
    pub fn tick_count(&self) -> (r: u32)
        ensures
            r == self@.tick_count,
    {
        self.tick_count
    }

    pub fn pid(&self) -> (r: u32)
        ensures
            r == self@.pid,
    {
        self.pid
    }

    pub fn name(&self) -> (r: &'static str)
        ensures
            r == self.spec_name(),
    {
        self.name
    }

    pub fn set_pid(&mut self, pid: u32)
        ensures
            final(self)@ == (TrackerView { pid, ..old(self)@ }),
            final(self).spec_name() == old(self).spec_name(),
    {
        self.pid = pid;
    }

    pub fn set_name(&mut self, name: &'static str)
        ensures
            final(self)@ == old(self)@,
            final(self).spec_name() == name,
    {
        self.name = name;
    }

    pub fn status(&self) -> (r: ProcessStatus)
        ensures
            r == self@.status,
    {
        self.status
    }

    pub fn set_status(&mut self, status: ProcessStatus)
        ensures
            final(self)@ == (TrackerView { status, ..old(self)@ }),
            final(self).spec_name() == old(self).spec_name(),
    {
        self.status = status;
    }

    /// The tracker takes no IPC data.
    pub fn receive<T>(&mut self, data: T) -> (r: Result<(), IpcReceiveError>)
        ensures
            final(self)@ == old(self)@,
            final(self).spec_name() == old(self).spec_name(),
            r matches Err(IpcReceiveError::Message(m)) && m@ == "Not expecting any data"@,
    {
        Err(IpcReceiveError::Message("Not expecting any data"))
    }

    /// The tracker has no subscribers to keep.
    pub fn bind(&mut self, subscriber: u32)
        ensures
            final(self)@ == old(self)@,
            final(self).spec_name() == old(self).spec_name(),
    {
    }
}

/// A tick reports exactly when its count is a whole number of report intervals: for
/// a non-zero interval `m`, `t` is some `q * m`; with interval 0 only tick 0 would.
pub proof fn lemma_multiple_of_means(t: u32, m: u32)
    ensures
        m > 0 ==> (multiple_of(t, m) <==> exists|q: int| 0 <= q && #[trigger] (q * m) == t),
        m == 0 ==> (multiple_of(t, m) <==> t == 0),
{
    if m > 0 {
        vstd::arithmetic::div_mod::lemma_fundamental_div_mod(t as int, m as int);
        let ti = t as int;
        let mi = m as int;
        let q = ti / mi;
        if multiple_of(t, m) {
            assert(q * mi == ti) by (nonlinear_arith)
                requires ti == mi * q + ti % mi, ti % mi == 0;
            assert(q >= 0);
        }
        if exists|q: int| 0 <= q && #[trigger] (q * m) == t {
            let p = choose|q: int| 0 <= q && #[trigger] (q * m) == t;
            vstd::arithmetic::div_mod::lemma_mod_multiples_basic(p, m as int);
        }
    }
}

/// Between two reports the tracker yields on every tick: from a report at tick `t`,
/// the next `report_every - 1` ticks are not multiples of `report_every`, and tick
/// `t + report_every` is.
pub proof fn lemma_reports_are_periodic(t: u32, m: u32, k: u32)
    requires
        m > 0,
        t % m == 0,
        0 < k < m,
        t + m <= u32::MAX,
    ensures
        !multiple_of((t + k) as u32, m),
        multiple_of((t + m) as u32, m),
{
    vstd::arithmetic::div_mod::lemma_fundamental_div_mod(t as int, m as int);
    let q = t as int / m as int;
    vstd::arithmetic::div_mod::lemma_mod_multiples_vanish(q + 1, 0, m as int);
    assert((t + m) as int == m * (q + 1)) by (nonlinear_arith)
        requires t as int == m * q, m > 0;
    vstd::arithmetic::div_mod::lemma_mod_multiples_basic(q + 1, m as int);
    assert((q + 1) * m == m * (q + 1)) by (nonlinear_arith);
    vstd::arithmetic::div_mod::lemma_mod_multiples_vanish(q, k as int, m as int);
    assert((t + k) as int == m * q + k) by (nonlinear_arith)
        requires t as int == m * q;
    vstd::arithmetic::div_mod::lemma_small_mod(k as nat, m as nat);
}

/// How a status reads in the table and on the console.
pub open spec fn status_name(st: ProcessStatus) -> Seq<char> {
    match st {
        ProcessStatus::Running => "Running"@,
    }
}

/// Name of `st` as it is printed.
pub fn status_text(st: ProcessStatus) -> (r: &'static str)
    ensures
        r@ == status_name(st),
{
    match st {
        ProcessStatus::Running => "Running",
    }
}

/// `n` spaces.
pub open spec fn spaces(n: nat) -> Seq<char> {
    Seq::new(n, |i: int| ' ')
}

/// `s` right-aligned in a field of `w` characters.
pub open spec fn pad_left(s: Seq<char>, w: nat) -> Seq<char> {
    if s.len() < w {
        spaces((w - s.len()) as nat) + s
    } else {
        s
    }
}

/// `s` left-aligned in a field of `w` characters.
pub open spec fn pad_right(s: Seq<char>, w: nat) -> Seq<char> {
    if s.len() < w {
        s + spaces((w - s.len()) as nat)
    } else {
        s
    }
}

fn push_spaces(s: &mut String, n: usize)
    ensures
        final(s)@ == old(s)@ + spaces(n as nat),
{
    let mut i: usize = 0;
    while i < n
        invariant
            i <= n,
            s@ == old(s)@ + spaces(i as nat),
        decreases n - i,
    {
        s.append(" ");
        i = i + 1;
        proof {
            reveal_strlit(" ");
            assert(s@ =~= old(s)@ + spaces(i as nat));
        }
    }
}

/// Table row: `"PID: {pid} | {name} | {status}"`.
pub open spec fn row_line(pid: u32, name: Seq<char>, st: ProcessStatus) -> Seq<char> {
    "PID: "@ + decimal(pid as nat) + " | "@ + name + " | "@ + status_name(st)
}

/// Text of one row of the on-screen process table.
pub fn row_text(pid: u32, name: &str, st: ProcessStatus) -> (r: String)
    ensures
        r@ == row_line(pid, name@, st),
{
    let mut s = String::from_str("PID: ");
    push_decimal(&mut s, pid as usize);
    s.append(" | ");
    s.append(name);
    s.append(" | ");
    s.append(status_text(st));
    s
}

/// Top of row `i` of the on-screen table: rows are 22 px apart from y = 70.
pub fn row_y(i: u32) -> (r: u32)
    requires
        70 + i * 22 <= u32::MAX,
    ensures
        r == 70 + i * 22,
{
    70 + i * 22
}

/// Console header: `"--- {n} processes alive ---"`.
pub open spec fn console_header_line(n: usize) -> Seq<char> {
    "--- "@ + decimal(n as nat) + " processes alive ---"@
}

/// Header of the console listing.
pub fn console_header(n: usize) -> (r: String)
    ensures
        r@ == console_header_line(n),
{
    let mut s = String::from_str("--- ");
    push_decimal(&mut s, n);
    s.append(" processes alive ---");
    s
}

/// Console row: `"  pid {pid:>3}  {name:<16} {status}"`.
pub open spec fn console_row_line(pid: u32, name: Seq<char>, st: ProcessStatus) -> Seq<char> {
    "  pid "@ + pad_left(decimal(pid as nat), 3) + "  "@ + pad_right(name, 16) + " "@ + status_name(st)
}

/// One line of the console listing.
pub fn console_row(pid: u32, name: &str, st: ProcessStatus) -> (r: String)
    ensures
        r@ == console_row_line(pid, name@, st),
{
    let mut digits = String::new();
    push_decimal(&mut digits, pid as usize);
    let dl = digits.as_str().unicode_len();
    let mut s = String::from_str("  pid ");
    if dl < 3 {
        push_spaces(&mut s, 3 - dl);
    }
    s.append(digits.as_str());
    s.append("  ");
    s.append(name);
    let nl = name.unicode_len();
    if nl < 16 {
        push_spaces(&mut s, 16 - nl);
    }
    s.append(" ");
    s.append(status_text(st));
    proof {
        assert(s@ =~= console_row_line(pid, name@, st));
    }
    s
}

/// Log line of a report: `"Ticks: {ticks}"`.
pub fn ticks_message(ticks: u32) -> (r: String)
    ensures
        r@ == "Ticks: "@ + decimal(ticks as nat),
{
    let mut s = String::from_str("Ticks: ");
    push_decimal(&mut s, ticks as usize);
    s
}

/// Log line when processes went away: `"One or more processes closed. {n} active"`.
pub fn closed_message(n: u32) -> (r: String)
    ensures
        r@ == "One or more processes closed. "@ + decimal(n as nat) + " active"@,
{
    let mut s = String::from_str("One or more processes closed. ");
    push_decimal(&mut s, n as usize);
    s.append(" active");
    s
}

/// Log line when processes appeared: `"Registered {n} new process(es)"`.
pub fn registered_message(n: u32) -> (r: String)
    ensures
        r@ == "Registered "@ + decimal(n as nat) + " new process(es)"@,
{
    let mut s = String::from_str("Registered ");
    push_decimal(&mut s, n as usize);
    s.append(" new process(es)");
    s
}

} // verus!
