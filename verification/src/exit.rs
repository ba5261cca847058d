//! The exit dispatch loop: classification of the reasons guest execution
//! returns to the host, and the loop's behavior over a whole trace of exits.
//!
//! The loop's policy is closed-variant dispatch with fail-fast: every
//! enumerated non-terminal exit is logged and the guest is resumed; shutdown
//! is logged and terminates the loop; any exit outside the enumerated set
//! aborts the host, since silently continuing would mask a host/guest
//! contract violation.

use vstd::prelude::*;

verus! {

/// Why guest execution returned control to the host. Non-terminal variants
/// carry the triggering address and, for I/O and MMIO transfers, the data;
/// `Other` stands for any reason outside the enumerated set and carries the
/// facility's raw reason code for the diagnostic.
#[derive(Clone, Debug, PartialEq, Eq)]
pub enum ExitEvent {
    /// An in-port instruction trapped at the given port.
    IoIn { addr: u16 },
    /// An out-port instruction trapped at the given port with the given data.
    IoOut { addr: u16, data: Vec<u8> },
    /// A read instruction trapped at the given memory-mapped address.
    MmioRead { addr: u64 },
    /// A write instruction trapped at the given address with the given data.
    MmioWrite { addr: u64, data: Vec<u8> },
    /// A debug trap.
    DebugTrap,
    /// An interrupt window exit.
    Interrupt,
    /// The facility reported an unknown exit.
    Unknown,
    /// The guest halted; the only terminal exit.
    Shutdown,
    /// An exit reason outside the enumerated set; fatal by policy.
    Other { code: u32 },
}

/// What the loop does with one observed exit.
#[derive(Clone, Copy, Debug, PartialEq, Eq, Structural)]
pub enum Disposition {
    /// Log the exit and resume the guest.
    Resume,
    /// Log the exit and leave the loop normally.
    Terminate,
    /// Abort the host with a diagnostic identifying the exit.
    Fatal,
}

/// The state of the dispatch loop.
#[derive(Clone, Copy, Debug, PartialEq, Eq, Structural)]
pub enum LoopState {
    /// Immediately after reset, before the first resume.
    Ready,
    /// The guest is executing (or about to be resumed).
    Running,
    /// A shutdown exit was dispatched; the loop ended normally.
    Terminated,
    /// An exit outside the enumerated set was observed; the host aborts.
    Aborted,
}

/// The dispatch policy, per exit reason: shutdown terminates, an
/// out-of-set reason is fatal, every other enumerated reason is logged and
/// resumed.
pub open spec fn disposition_of(e: ExitEvent) -> Disposition {
    match e {
        ExitEvent::Shutdown => Disposition::Terminate,
        ExitEvent::Other { .. } => Disposition::Fatal,
        _ => Disposition::Resume,
    }
}

/// Classifies one exit according to the dispatch policy.
pub fn classify(e: &ExitEvent) -> (d: Disposition)
    ensures
        d == disposition_of(*e),
{
    match e {
        ExitEvent::Shutdown => Disposition::Terminate,
        ExitEvent::Other { .. } => Disposition::Fatal,
        _ => Disposition::Resume,
    }
}

/// The exits the loop logs, given the trace of exits the guest produces:
/// every resumed exit in order, the terminating shutdown included, nothing
/// after a terminal or fatal exit.
pub open spec fn run_log(events: Seq<ExitEvent>) -> Seq<ExitEvent>
    decreases events.len(),
{
    if events.len() == 0 {
        Seq::empty()
    } else {
        match disposition_of(events[0]) {
            Disposition::Resume => seq![events[0]] + run_log(events.drop_first()),
            Disposition::Terminate => seq![events[0]],
            Disposition::Fatal => Seq::empty(),
        }
    }
}

/// The loop's state after the trace: still running if the trace ends
/// without a terminal exit, terminated on shutdown, aborted on an
/// out-of-set reason.
pub open spec fn run_state(events: Seq<ExitEvent>) -> LoopState
    decreases events.len(),
{
    if events.len() == 0 {
        LoopState::Running
    } else {
        match disposition_of(events[0]) {
            Disposition::Resume => run_state(events.drop_first()),
            Disposition::Terminate => LoopState::Terminated,
            Disposition::Fatal => LoopState::Aborted,
        }
    }
}

/// The exit the loop aborted on, if any.
pub open spec fn run_fault(events: Seq<ExitEvent>) -> Option<ExitEvent>
    decreases events.len(),
{
    if events.len() == 0 {
        None
    } else {
        match disposition_of(events[0]) {
            Disposition::Resume => run_fault(events.drop_first()),
            Disposition::Terminate => None,
            Disposition::Fatal => Some(events[0]),
        }
    }
}

/// What a whole run of the dispatch loop produced.
#[derive(Clone, Debug, PartialEq, Eq)]
pub struct RunOutcome {
    /// The exits that were dispatched and logged, in program order.
    pub log: Vec<ExitEvent>,
    /// The loop's state afterward.
    pub state: LoopState,
    /// The unhandled exit the loop aborted on, if any.
    pub fault: Option<ExitEvent>,
}

/// Drives the dispatch loop over a trace of exits, consuming events in
/// order until one is terminal or fatal. The log receives exactly the
/// dispatched events, each held unchanged.
pub fn run_events(events: Vec<ExitEvent>) -> (r: RunOutcome)
    ensures
        r.log@ == run_log(events@),
        r.state == run_state(events@),
        r.fault == run_fault(events@),
        r.state == LoopState::Aborted <==> r.fault is Some,
{
    let ghost orig: Seq<ExitEvent> = events@;
    let mut remaining = events;
    let mut log: Vec<ExitEvent> = Vec::new();
    let mut state = LoopState::Running;
    let mut fault: Option<ExitEvent> = None;
    let mut done: bool = false;
    while !done && remaining.len() > 0
        invariant
            !done ==> state == LoopState::Running && fault is None && run_log(orig) == log@
                + run_log(remaining@) && run_state(orig) == run_state(remaining@) && run_fault(
                orig,
            ) == run_fault(remaining@),
            done ==> run_log(orig) == log@ && run_state(orig) == state && run_fault(orig)
                == fault,
            done ==> (state == LoopState::Aborted <==> fault is Some),
            done ==> state != LoopState::Running,
        decreases remaining@.len(),
    {
        let ghost pre: Seq<ExitEvent> = remaining@;
        let e = remaining.remove(0);
        proof {
            assert(pre.remove(0) =~= pre.drop_first());
        }
        match classify(&e) {
            Disposition::Resume => {
                let ghost pre_log: Seq<ExitEvent> = log@;
                log.push(e);
                proof {
                    assert(run_log(pre) == seq![pre[0]] + run_log(pre.drop_first()));
                    assert(pre_log + run_log(pre) =~= log@ + run_log(remaining@));
                }
            },
            Disposition::Terminate => {
                let ghost pre_log: Seq<ExitEvent> = log@;
                log.push(e);
                state = LoopState::Terminated;
                done = true;
                proof {
                    assert(run_log(pre) == seq![pre[0]]);
                    assert(pre_log + run_log(pre) =~= log@);
                }
            },
            Disposition::Fatal => {
                fault = Some(e);
                state = LoopState::Aborted;
                done = true;
                proof {
                    assert(run_log(pre) == Seq::<ExitEvent>::empty());
                    assert(log@ + run_log(pre) =~= log@);
                }
            },
        }
    }
    if !done {
        proof {
            assert(run_log(remaining@) == Seq::<ExitEvent>::empty());
            assert(log@ + run_log(remaining@) =~= log@);
        }
    }
    RunOutcome { log, state, fault }
}

/// The loop logs a well-behaved trace exactly and terminates: for any trace
/// whose exits are all resume-class except a final terminate-class exit,
/// the log is the whole trace, unchanged and in program order — each
/// logged entry carries the very address and data of the exit it records —
/// the loop ends in the terminated state, and no fault is reported.
pub proof fn lemma_trace_logged_exactly(events: Seq<ExitEvent>)
    requires
        events.len() >= 1,
        forall|i: int|
            0 <= i < events.len() - 1 ==> disposition_of(#[trigger] events[i])
                == Disposition::Resume,
        disposition_of(events[events.len() - 1]) == Disposition::Terminate,
    ensures
        run_log(events) == events,
        run_state(events) == LoopState::Terminated,
        run_fault(events) is None,
    decreases events.len(),
{
    if events.len() == 1 {
        assert(disposition_of(events[0]) == Disposition::Terminate);
        assert(run_log(events) =~= events);
    } else {
        assert(disposition_of(events[0]) == Disposition::Resume);
        let rest = events.drop_first();
        assert forall|i: int|
            0 <= i < rest.len() - 1 implies disposition_of(#[trigger] rest[i])
            == Disposition::Resume by {
            assert(rest[i] == events[i + 1]);
        }
        assert(rest[rest.len() - 1] == events[events.len() - 1]);
        lemma_trace_logged_exactly(rest);
        assert(run_log(events) =~= events);
    }
}

/// A trace of I/O-out exits followed by one shutdown yields exactly those
/// I/O-out log entries in program order — same port, same data — followed
/// by the shutdown entry, and the loop terminates with no fault.
pub proof fn lemma_io_out_trace(events: Seq<ExitEvent>)
    requires
        events.len() >= 1,
        forall|i: int| 0 <= i < events.len() - 1 ==> #[trigger] events[i] is IoOut,
        events[events.len() - 1] is Shutdown,
    ensures
        run_log(events) == events,
        run_state(events) == LoopState::Terminated,
        run_fault(events) is None,
{
    assert forall|i: int|
        0 <= i < events.len() - 1 implies disposition_of(#[trigger] events[i])
        == Disposition::Resume by {
        assert(events[i] is IoOut);
    }
    lemma_trace_logged_exactly(events);
}

/// A guest whose code issues a single halt-equivalent instruction produces
/// the one shutdown exit: the loop logs exactly that event and terminates.
pub proof fn lemma_single_shutdown(events: Seq<ExitEvent>)
    requires
        events == seq![ExitEvent::Shutdown],
    ensures
        run_log(events) == events,
        run_state(events) == LoopState::Terminated,
        run_fault(events) is None,
{
    lemma_trace_logged_exactly(events);
}

} // verus!
