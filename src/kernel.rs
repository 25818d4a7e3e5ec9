//! The boot diagnostic sequence as a state machine.
//!
//! The kernel cannot issue firmware calls or touch control registers from
//! here: each step hands back the actions to perform, in order, and the
//! driver feeds the outcome of the last one back in as the next event.
//! Every path ends in the shutdown call, after a success line or a failure
//! line.
use vstd::prelude::*;
use crate::mmio::{is_valid_header, VirtIoHeader};
use crate::sbi::{
    get_marchid, get_mimpid, get_mvendorid, get_sbi_impl_id, get_sbi_impl_version,
    get_spec_version, probe_extension, shutdown, shutdown_call, standard, SbiCall, SbiRet,
    EXTENSION_BASE, FUNCTION_BASE_GET_MARCHID, FUNCTION_BASE_GET_MIMPID,
    FUNCTION_BASE_GET_MVENDORID, FUNCTION_BASE_GET_SBI_IMPL_ID,
    FUNCTION_BASE_GET_SBI_IMPL_VERSION, FUNCTION_BASE_GET_SPEC_VERSION,
    FUNCTION_BASE_PROBE_EXTENSION,
};

verus! {

/// The identity queries of the base extension, in the order they are made.
#[derive(Clone, Copy, Debug, PartialEq, Eq, Structural)]
pub enum Query {
    SpecVersion,
    ImplId,
    ImplVersion,
    Mvendorid,
    Marchid,
    Mimpid,
}

pub open spec fn query_call(q: Query) -> SbiCall {
    let function = match q {
        Query::SpecVersion => FUNCTION_BASE_GET_SPEC_VERSION,
        Query::ImplId => FUNCTION_BASE_GET_SBI_IMPL_ID,
        Query::ImplVersion => FUNCTION_BASE_GET_SBI_IMPL_VERSION,
        Query::Mvendorid => FUNCTION_BASE_GET_MVENDORID,
        Query::Marchid => FUNCTION_BASE_GET_MARCHID,
        Query::Mimpid => FUNCTION_BASE_GET_MIMPID,
    };
    standard(EXTENSION_BASE, function, 0)
}

pub open spec fn next_query(q: Query) -> Option<Query> {
    match q {
        Query::SpecVersion => Some(Query::ImplId),
        Query::ImplId => Some(Query::ImplVersion),
        Query::ImplVersion => Some(Query::Mvendorid),
        Query::Mvendorid => Some(Query::Marchid),
        Query::Marchid => Some(Query::Mimpid),
        Query::Mimpid => None,
    }
}

impl Query {
    /// The firmware call that makes this query.
    pub fn call(&self) -> (r: SbiCall)
        ensures
            r == query_call(*self),
    {
        match self {
            Query::SpecVersion => get_spec_version(),
            Query::ImplId => get_sbi_impl_id(),
            Query::ImplVersion => get_sbi_impl_version(),
            Query::Mvendorid => get_mvendorid(),
            Query::Marchid => get_marchid(),
            Query::Mimpid => get_mimpid(),
        }
    }

    /// The query that follows this one, if any.
    pub fn next(&self) -> (r: Option<Query>)
        ensures
            r == next_query(*self),
    {
        match self {
            Query::SpecVersion => Some(Query::ImplId),
            Query::ImplId => Some(Query::ImplVersion),
            Query::ImplVersion => Some(Query::Mvendorid),
            Query::Mvendorid => Some(Query::Marchid),
            Query::Marchid => Some(Query::Mimpid),
            Query::Mimpid => None,
        }
    }
}

/// Why the diagnostic failed.
#[derive(Clone, Copy, Debug, PartialEq, Eq, Structural)]
pub enum Failure {
    /// The firmware has no base extension.
    NoBaseExtension,
    /// The MMIO window holds no recognisable virtio device.
    NoDevice,
    /// The kernel panicked.
    Panic,
    /// The driver reported an event that the current step does not wait for.
    UnexpectedEvent,
}

/// A line of the console transcript.
#[derive(Clone, Copy, Debug, PartialEq, Eq, Structural)]
pub enum Message {
    Banner { hart_id: usize, dtb: usize },
    TestingBaseExtension,
    /// The probe of the base extension answered zero.
    NoBaseExtension,
    BaseExtensionVersion { version: usize },
    Identity { query: Query, value: usize },
    TestingInstructionEmulation,
    CurrentTime { time: u64 },
    TestingDevice,
    DeviceFound { device_id: u32 },
    DeviceNotFound { header: VirtIoHeader },
    TriggerIllegalInstruction,
    Success,
    Failed { reason: Failure },
}

/// Something for the driver to do.
#[derive(Clone, Copy, Debug, PartialEq, Eq, Structural)]
pub enum Action {
    /// Print a line on the console.
    Print { message: Message },
    /// Make a firmware call. A standard call is answered by `Event::Returned`;
    /// the shutdown call does not return.
    Call { call: SbiCall },
    /// Read the `time` register; answered by `Event::TimeRead`.
    ReadTime,
    /// Read the virtio MMIO header; answered by `Event::DeviceHeader`.
    ReadDeviceHeader,
    /// Point `stvec` at the trap entry, in direct mode.
    InstallTrapVector,
    /// Execute an illegal instruction; answered by `Event::Resumed` once the
    /// trap handler has skipped it.
    TriggerIllegalInstruction,
}

/// What the driver reports back.
#[derive(Clone, Copy, Debug, PartialEq, Eq, Structural)]
pub enum Event {
    /// The hart has booted with this id and device-tree address.
    Booted { hart_id: usize, dtb: usize },
    /// A standard firmware call returned.
    Returned { ret: SbiRet },
    TimeRead { time: u64 },
    DeviceHeader { header: VirtIoHeader },
    /// Execution continued after the illegal instruction.
    Resumed,
    /// The kernel panicked.
    Panicked,
}

/// Where the diagnostic stands: which answer it waits for.
#[derive(Clone, Copy, Debug, PartialEq, Eq, Structural)]
pub enum Phase {
    Boot,
    ProbingBase,
    Querying { query: Query },
    ReadingTime,
    CheckingDevice,
    AwaitingTrap,
    Halted,
}

pub open spec fn print(message: Message) -> Action {
    Action::Print { message }
}

pub open spec fn call(c: SbiCall) -> Action {
    Action::Call { call: c }
}

/// Report the failure and power off.
pub open spec fn fail(reason: Failure) -> (Phase, Seq<Action>) {
    (Phase::Halted, seq![print(Message::Failed { reason }), call(shutdown_call())])
}

/// The step of the diagnostic: the next phase and the actions to perform.
pub open spec fn transition(phase: Phase, event: Event) -> (Phase, Seq<Action>) {
    if phase is Halted {
        (Phase::Halted, Seq::empty())
    } else if event is Panicked {
        fail(Failure::Panic)
    } else {
        match (phase, event) {
            (Phase::Boot, Event::Booted { hart_id, dtb }) => (
                Phase::ProbingBase,
                seq![
                    print(Message::Banner { hart_id, dtb }),
                    print(Message::TestingBaseExtension),
                    call(standard(EXTENSION_BASE, FUNCTION_BASE_PROBE_EXTENSION, EXTENSION_BASE)),
                ],
            ),
            (Phase::ProbingBase, Event::Returned { ret }) => if ret.value == 0 {
                (
                    Phase::Halted,
                    seq![
                        print(Message::NoBaseExtension),
                        print(Message::Failed { reason: Failure::NoBaseExtension }),
                        call(shutdown_call()),
                    ],
                )
            } else {
                (
                    Phase::Querying { query: Query::SpecVersion },
                    seq![
                        print(Message::BaseExtensionVersion { version: ret.value }),
                        call(query_call(Query::SpecVersion)),
                    ],
                )
            },
            (Phase::Querying { query }, Event::Returned { ret }) => match next_query(query) {
                Some(q) => (
                    Phase::Querying { query: q },
                    seq![print(Message::Identity { query, value: ret.value }), call(query_call(q))],
                ),
                None => (
                    Phase::ReadingTime,
                    seq![
                        print(Message::Identity { query, value: ret.value }),
                        print(Message::TestingInstructionEmulation),
                        Action::ReadTime,
                    ],
                ),
            },
            (Phase::ReadingTime, Event::TimeRead { time }) => (
                Phase::CheckingDevice,
                seq![
                    print(Message::CurrentTime { time }),
                    print(Message::TestingDevice),
                    Action::ReadDeviceHeader,
                ],
            ),
            (Phase::CheckingDevice, Event::DeviceHeader { header }) => if is_valid_header(
                header.magic,
                header.version,
                header.device_id,
            ) {
                (
                    Phase::AwaitingTrap,
                    seq![
                        print(Message::DeviceFound { device_id: header.device_id }),
                        Action::InstallTrapVector,
                        print(Message::TriggerIllegalInstruction),
                        Action::TriggerIllegalInstruction,
                    ],
                )
            } else {
                (
                    Phase::Halted,
                    seq![
                        print(Message::DeviceNotFound { header }),
                        print(Message::Failed { reason: Failure::NoDevice }),
                        call(shutdown_call()),
                    ],
                )
            },
            (Phase::AwaitingTrap, Event::Resumed) => (
                Phase::Halted,
                seq![print(Message::Success), call(shutdown_call())],
            ),
            _ => fail(Failure::UnexpectedEvent),
        }
    }
}

/// The phase reached and the actions issued after feeding `events` in order.
pub open spec fn run(phase: Phase, events: Seq<Event>) -> (Phase, Seq<Action>)
    decreases events.len(),
{
    if events.len() == 0 {
        (phase, Seq::empty())
    } else {
        let step = transition(phase, events[0]);
        let rest = run(step.0, events.drop_first());
        (rest.0, step.1 + rest.1)
    }
}

/// Whether no action of `actions` prints a failure.
pub open spec fn no_failure(actions: Seq<Action>) -> bool {
    forall|i: int|
        0 <= i < actions.len() ==> !(#[trigger] actions[i] is Print && actions[i]->message is Failed)
}

proof fn lemma_no_failure_concat(a: Seq<Action>, b: Seq<Action>)
    requires
        no_failure(a),
        no_failure(b),
    ensures
        no_failure(a + b),
{
    assert forall|i: int| 0 <= i < (a + b).len() implies !(#[trigger] (a + b)[i] is Print && (a
        + b)[i]->message is Failed) by {
        if i >= a.len() {
            assert((a + b)[i] == b[i - a.len()]);
        }
    }
}

/// A step that does not halt, and the step that follows the return from the
/// trap, print no failure.
proof fn lemma_no_failure_step(phase: Phase, event: Event)
    requires
        !(transition(phase, event).0 is Halted) || (phase is AwaitingTrap && event is Resumed),
    ensures
        no_failure(transition(phase, event).1),
{
    let actions = transition(phase, event).1;
    assert forall|i: int| 0 <= i < actions.len() implies !(#[trigger] actions[i] is Print
        && actions[i]->message is Failed) by {
    }
}

/// What a healthy platform reports: the boot, a present base extension,
/// the six identity answers, the time, a device header and the return from
/// the deliberate trap.
pub open spec fn healthy_events(
    hart_id: usize,
    dtb: usize,
    base: SbiRet,
    ids: Seq<SbiRet>,
    time: u64,
    header: VirtIoHeader,
) -> Seq<Event> {
    seq![Event::Booted { hart_id, dtb }, Event::Returned { ret: base }]
        + ids.map_values(|r: SbiRet| Event::Returned { ret: r })
        + seq![Event::TimeRead { time }, Event::DeviceHeader { header }, Event::Resumed]
}

/// On a platform whose base extension is present and whose MMIO window holds
/// a valid device, the diagnostic probes the base extension, triggers the
/// illegal instruction after installing the trap vector, and, once resumed,
/// reports success and shuts down, with no failure on the way.
pub proof fn lemma_healthy_run_succeeds(
    hart_id: usize,
    dtb: usize,
    base: SbiRet,
    ids: Seq<SbiRet>,
    time: u64,
    header: VirtIoHeader,
)
    requires
        base.value != 0,
        ids.len() == 6,
        is_valid_header(header.magic, header.version, header.device_id),
    ensures
        ({
            let (phase, actions) = run(
                Phase::Boot,
                healthy_events(hart_id, dtb, base, ids, time, header),
            );
            &&& phase is Halted
            &&& actions.len() >= 2
            &&& actions[actions.len() - 2] == print(Message::Success)
            &&& actions.last() == call(shutdown_call())
            &&& actions.contains(
                call(standard(EXTENSION_BASE, FUNCTION_BASE_PROBE_EXTENSION, EXTENSION_BASE)),
            )
            &&& actions.contains(Action::InstallTrapVector)
            &&& actions.contains(Action::TriggerIllegalInstruction)
            &&& forall|i: int|
                0 <= i < actions.len() ==> !(#[trigger] actions[i] is Print && actions[i]->message is Failed)
        }),
{
    let e = healthy_events(hart_id, dtb, base, ids, time, header);
    let events = e;
    assert(e.len() == 11);
    reveal_with_fuel(run, 12);
    assert(e[0] == Event::Booted { hart_id, dtb });
    assert(e[1] == Event::Returned { ret: base });
    assert(e[2] == Event::Returned { ret: ids[0] });
    assert(e[3] == Event::Returned { ret: ids[1] });
    assert(e[4] == Event::Returned { ret: ids[2] });
    assert(e[5] == Event::Returned { ret: ids[3] });
    assert(e[6] == Event::Returned { ret: ids[4] });
    assert(e[7] == Event::Returned { ret: ids[5] });
    assert(e[8] == Event::TimeRead { time });
    assert(e[9] == Event::DeviceHeader { header });
    assert(e[10] == Event::Resumed);
    let s1 = transition(Phase::Boot, e[0]);
    let s2 = transition(s1.0, e[1]);
    let s3 = transition(s2.0, e[2]);
    let s4 = transition(s3.0, e[3]);
    let s5 = transition(s4.0, e[4]);
    let s6 = transition(s5.0, e[5]);
    let s7 = transition(s6.0, e[6]);
    let s8 = transition(s7.0, e[7]);
    let s9 = transition(s8.0, e[8]);
    let s10 = transition(s9.0, e[9]);
    let s11 = transition(s10.0, e[10]);
    assert(s11.0 is Halted);
    let all = s1.1 + s2.1 + s3.1 + s4.1 + s5.1 + s6.1 + s7.1 + s8.1 + s9.1 + s10.1 + s11.1;
    assert(run(Phase::Boot, events) == (s11.0, all)) by {
        assert(events.drop_first()[0] == e[1]);
        assert(events.drop_first().drop_first()[0] == e[2]);
        assert(events.drop_first().drop_first().drop_first()[0] == e[3]);
        assert(events.drop_first().drop_first().drop_first().drop_first()[0] == e[4]);
        assert(events.drop_first().drop_first().drop_first().drop_first().drop_first()[0] == e[5]);
        assert(events.drop_first().drop_first().drop_first().drop_first().drop_first().drop_first()[0] == e[6]);
        assert(events.drop_first().drop_first().drop_first().drop_first().drop_first().drop_first().drop_first()[0] == e[7]);
        assert(events.drop_first().drop_first().drop_first().drop_first().drop_first().drop_first().drop_first().drop_first()[0] == e[8]);
        assert(events.drop_first().drop_first().drop_first().drop_first().drop_first().drop_first().drop_first().drop_first().drop_first()[0] == e[9]);
        assert(events.drop_first().drop_first().drop_first().drop_first().drop_first().drop_first().drop_first().drop_first().drop_first().drop_first()[0] == e[10]);
        assert(events.drop_first().drop_first().drop_first().drop_first().drop_first().drop_first().drop_first().drop_first().drop_first().drop_first().drop_first().len() == 0);
        assert(s11.1 + Seq::<Action>::empty() == s11.1);
    }
    assert(s1.1.len() == 3 && s2.1.len() == 2 && s3.1.len() == 2 && s4.1.len() == 2);
    assert(s5.1.len() == 2 && s6.1.len() == 2 && s7.1.len() == 2 && s8.1.len() == 3);
    assert(s9.1.len() == 3 && s10.1.len() == 4 && s11.1.len() == 2);
    assert(all.len() == 27);
    assert(all[2] == s1.1[2]);
    assert(all[22] == s10.1[1]);
    assert(all[24] == s10.1[3]);
    assert(all[25] == s11.1[0]);
    assert(all[26] == s11.1[1]);
    lemma_no_failure_step(Phase::Boot, e[0]);
    lemma_no_failure_step(s1.0, e[1]);
    lemma_no_failure_step(s2.0, e[2]);
    lemma_no_failure_step(s3.0, e[3]);
    lemma_no_failure_step(s4.0, e[4]);
    lemma_no_failure_step(s5.0, e[5]);
    lemma_no_failure_step(s6.0, e[6]);
    lemma_no_failure_step(s7.0, e[7]);
    lemma_no_failure_step(s8.0, e[8]);
    lemma_no_failure_step(s9.0, e[9]);
    lemma_no_failure_step(s10.0, e[10]);
    lemma_no_failure_concat(s1.1, s2.1);
    lemma_no_failure_concat(s1.1 + s2.1, s3.1);
    lemma_no_failure_concat(s1.1 + s2.1 + s3.1, s4.1);
    lemma_no_failure_concat(s1.1 + s2.1 + s3.1 + s4.1, s5.1);
    lemma_no_failure_concat(s1.1 + s2.1 + s3.1 + s4.1 + s5.1, s6.1);
    lemma_no_failure_concat(s1.1 + s2.1 + s3.1 + s4.1 + s5.1 + s6.1, s7.1);
    lemma_no_failure_concat(s1.1 + s2.1 + s3.1 + s4.1 + s5.1 + s6.1 + s7.1, s8.1);
    lemma_no_failure_concat(s1.1 + s2.1 + s3.1 + s4.1 + s5.1 + s6.1 + s7.1 + s8.1, s9.1);
    lemma_no_failure_concat(s1.1 + s2.1 + s3.1 + s4.1 + s5.1 + s6.1 + s7.1 + s8.1 + s9.1, s10.1);
    lemma_no_failure_concat(
        s1.1 + s2.1 + s3.1 + s4.1 + s5.1 + s6.1 + s7.1 + s8.1 + s9.1 + s10.1,
        s11.1,
    );
}

/// The diagnostic kernel's control state.
#[derive(Clone, Copy, Debug)]
pub struct Kernel {
    pub phase: Phase,
}

/// The actions that report `reason` and power off.
fn fail_actions(reason: Failure) -> (r: Vec<Action>)
    ensures
        r@ == fail(reason).1,
{
    let v = vec![Action::Print { message: Message::Failed { reason } }, Action::Call { call: shutdown() }];
    assert(v@ =~= fail(reason).1);
    v
}

impl Kernel {
    /// A kernel that has not booted yet.
    pub fn new() -> (k: Kernel)
        ensures
            k.phase == Phase::Boot,
    {
        Kernel { phase: Phase::Boot }
    }

    /// Takes one event and hands back the actions to perform, in order. A
    /// step that halts ends with the shutdown call; a halted kernel does
    /// nothing more.
    pub fn handle(&mut self, event: Event) -> (r: Vec<Action>)
        ensures
            (final(self).phase, r@) == transition(old(self).phase, event),
            final(self).phase is Halted && !(old(self).phase is Halted) ==> r@.len() > 0
                && r@.last() == call(shutdown_call()),
            old(self).phase is Halted ==> final(self).phase is Halted && r@.len() == 0,
    {
        if let Phase::Halted = self.phase {
            return Vec::new();
        }
        if let Event::Panicked = event {
            self.phase = Phase::Halted;
            return fail_actions(Failure::Panic);
        }
        let (next, actions) = match (self.phase, event) {
            (Phase::Boot, Event::Booted { hart_id, dtb }) => (
                Phase::ProbingBase,
                vec![
                    Action::Print { message: Message::Banner { hart_id, dtb } },
                    Action::Print { message: Message::TestingBaseExtension },
                    Action::Call { call: probe_extension(EXTENSION_BASE) },
                ],
            ),
            (Phase::ProbingBase, Event::Returned { ret }) => if ret.value == 0 {
                (
                    Phase::Halted,
                    vec![
                        Action::Print { message: Message::NoBaseExtension },
                        Action::Print { message: Message::Failed { reason: Failure::NoBaseExtension } },
                        Action::Call { call: shutdown() },
                    ],
                )
            } else {
                (
                    Phase::Querying { query: Query::SpecVersion },
                    vec![
                        Action::Print { message: Message::BaseExtensionVersion { version: ret.value } },
                        Action::Call { call: Query::SpecVersion.call() },
                    ],
                )
            },
            (Phase::Querying { query }, Event::Returned { ret }) => match query.next() {
                Some(q) => (
                    Phase::Querying { query: q },
                    vec![
                        Action::Print { message: Message::Identity { query, value: ret.value } },
                        Action::Call { call: q.call() },
                    ],
                ),
                None => (
                    Phase::ReadingTime,
                    vec![
                        Action::Print { message: Message::Identity { query, value: ret.value } },
                        Action::Print { message: Message::TestingInstructionEmulation },
                        Action::ReadTime,
                    ],
                ),
            },
            (Phase::ReadingTime, Event::TimeRead { time }) => (
                Phase::CheckingDevice,
                vec![
                    Action::Print { message: Message::CurrentTime { time } },
                    Action::Print { message: Message::TestingDevice },
                    Action::ReadDeviceHeader,
                ],
            ),
            (Phase::CheckingDevice, Event::DeviceHeader { header }) => if header.verify() {
                (
                    Phase::AwaitingTrap,
                    vec![
                        Action::Print { message: Message::DeviceFound { device_id: header.device_id } },
                        Action::InstallTrapVector,
                        Action::Print { message: Message::TriggerIllegalInstruction },
                        Action::TriggerIllegalInstruction,
                    ],
                )
            } else {
                (
                    Phase::Halted,
                    vec![
                        Action::Print { message: Message::DeviceNotFound { header } },
                        Action::Print { message: Message::Failed { reason: Failure::NoDevice } },
                        Action::Call { call: shutdown() },
                    ],
                )
            },
            (Phase::AwaitingTrap, Event::Resumed) => (
                Phase::Halted,
                vec![Action::Print { message: Message::Success }, Action::Call { call: shutdown() }],
            ),
            _ => (Phase::Halted, fail_actions(Failure::UnexpectedEvent)),
        };
        assert(actions@ =~= transition(self.phase, event).1);
        self.phase = next;
        actions
    }
}

} // verus!
