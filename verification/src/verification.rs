//! Interactive device-verification: drives one short-authentication-string
//! exchange end to end from the engine's reported state transitions, under
//! one absolute wall-clock deadline for the whole flow. The active flows
//! are tracked in a table keyed by flow identifier; a flow's entry is
//! removed before its terminal notification is delivered, so no later
//! confirm or cancel can find a finished flow.

use vstd::prelude::*;

use crate::util::eq_str;

verus! {

use vstd::string::StringExecFns;

/// The phase of a verification flow, as delivered to an observer.
#[derive(Clone, Copy, Debug, PartialEq, Eq, Structural)]
pub enum SasPhase {
    Requested,
    Ready,
    Emojis,
    Confirmed,
    Cancelled,
    Failed,
    Done,
}

/// The payload delivered when both sides have exchanged keys and emoji
/// symbols are available for comparison.
#[derive(Clone, Debug)]
pub struct SasEmojis {
    pub flow_id: String,
    pub other_user: String,
    pub other_device: String,
    pub emojis: Vec<String>,
}

/// The callback a consumer registers to follow one verification flow.
pub trait VerificationObserver {
    fn on_phase(&self, flow_id: String, phase: SasPhase);
    fn on_emojis(&self, payload: SasEmojis);
    fn on_error(&self, flow_id: String, message: String);
}

/// The callback a consumer registers to hear about incoming verification
/// requests.
pub trait VerificationInboxObserver {
    fn on_request(&self, flow_id: String, from_user: String, from_device: String);
    fn on_error(&self, message: String);
}

/// One entry of the active-flow table (also used for the inbox of incoming
/// requests): a flow identifier and the other party's identifiers.
pub struct FlowEntry {
    pub flow_id: String,
    pub other_user: String,
    pub other_device: String,
}

/// Whether an entry carries the given flow identifier.
pub open spec fn entry_matches(e: FlowEntry, flow: Seq<char>) -> bool {
    e.flow_id@ == flow
}

/// Whether some entry in the sequence carries the given flow identifier.
pub open spec fn table_contains(s: Seq<FlowEntry>, flow: Seq<char>) -> bool {
    exists|i: int| 0 <= i < s.len() && entry_matches(#[trigger] s[i], flow)
}

/// What recording a flow does: a present entry is replaced, a missing one
/// is appended; either way the flow is tracked with these identifiers.
pub open spec fn table_upsert_step(
    pre: Seq<FlowEntry>,
    flow: Seq<char>,
    user: Seq<char>,
    device: Seq<char>,
    post: Seq<FlowEntry>,
) -> bool {
    if table_contains(pre, flow) {
        exists|j: int|
            {
                &&& 0 <= j < pre.len()
                &&& entry_matches(#[trigger] pre[j], flow)
                &&& post.len() == pre.len()
                &&& entry_matches(post[j], flow)
                &&& post[j].other_user@ == user
                &&& post[j].other_device@ == device
                &&& forall|i: int| 0 <= i < pre.len() && i != j ==> post[i] == pre[i]
            }
    } else {
        &&& post.len() == pre.len() + 1
        &&& forall|i: int| 0 <= i < pre.len() ==> post[i] == pre[i]
        &&& entry_matches(post[pre.len() as int], flow)
        &&& post[pre.len() as int].other_user@ == user
        &&& post[pre.len() as int].other_device@ == device
    }
}

/// What removing a flow does: its entry (if any) disappears, nothing else
/// moves.
pub open spec fn table_remove_step(
    pre: Seq<FlowEntry>,
    flow: Seq<char>,
    post: Seq<FlowEntry>,
) -> bool {
    if table_contains(pre, flow) {
        exists|j: int|
            {
                &&& 0 <= j < pre.len()
                &&& entry_matches(#[trigger] pre[j], flow)
                &&& post == pre.remove(j)
            }
    } else {
        post == pre
    }
}

/// The table of active flows, keyed by flow identifier. The engine handles
/// the flows stand for live with the caller; the table decides whether a
/// confirm or cancel can still find its flow.
pub struct FlowTable {
    entries: Vec<FlowEntry>,
}

impl View for FlowTable {
    type V = Seq<FlowEntry>;

    closed spec fn view(&self) -> Seq<FlowEntry> {
        self.entries@
    }
}

impl FlowTable {
    /// Well-formedness: at most one entry per flow identifier.
    pub open spec fn wf(&self) -> bool {
        forall|i: int, j: int|
            0 <= i < j < self@.len() ==> (#[trigger] self@[i]).flow_id@ != (
            #[trigger] self@[j]).flow_id@
    }

    pub fn new() -> (t: FlowTable)
        ensures
            t.wf(),
            t@ == Seq::<FlowEntry>::empty(),
    {
        FlowTable { entries: Vec::new() }
    }

    /// How many flows are active right now.
    pub fn active_count(&self) -> (n: usize)
        ensures
            n == self@.len(),
    {
        self.entries.len()
    }

    /// Whether a flow with this identifier is active. A confirm or cancel
    /// finds its flow exactly when this holds.
    pub fn contains(&self, flow_id: &str) -> (r: bool)
        ensures
            r == table_contains(self@, flow_id@),
    {
        let n: usize = self.entries.len();
        let mut i: usize = 0;
        while i < n
            invariant
                n == self.entries.len(),
                i <= n,
                forall|j: int| 0 <= j < i ==> !entry_matches(#[trigger] self@[j], flow_id@),
            decreases n - i,
        {
            if eq_str(self.entries[i].flow_id.as_str(), flow_id) {
                proof {
                    assert(entry_matches(self@[i as int], flow_id@));
                }
                return true;
            }
            i = i + 1;
        }
        false
    }

    /// Records a flow with the other party's identifiers, replacing any
    /// earlier entry for the same flow.
    pub fn insert(&mut self, flow_id: &str, other_user: &str, other_device: &str)
        requires
            old(self).wf(),
        ensures
            final(self).wf(),
            table_upsert_step(old(self)@, flow_id@, other_user@, other_device@, final(self)@),
            table_contains(final(self)@, flow_id@),
    {
        let ghost pre = *old(self);
        let entry = FlowEntry {
            flow_id: flow_id.to_owned(),
            other_user: other_user.to_owned(),
            other_device: other_device.to_owned(),
        };
        let n: usize = self.entries.len();
        let mut i: usize = 0;
        while i < n
            invariant
                pre == *old(self),
                pre.wf(),
                *self == pre,
                entry.flow_id@ == flow_id@,
                entry.other_user@ == other_user@,
                entry.other_device@ == other_device@,
                n == self.entries.len(),
                i <= n,
                forall|j: int| 0 <= j < i ==> !entry_matches(#[trigger] self@[j], flow_id@),
            decreases n - i,
        {
            if eq_str(self.entries[i].flow_id.as_str(), flow_id) {
                proof {
                    assert(entry_matches(pre@[i as int], flow_id@));
                }
                self.entries.set(i, entry);
                proof {
                    assert(entry_matches(self@[i as int], flow_id@));
                    assert(forall|w: int| 0 <= w < self@.len() && w != i ==> self@[w] == pre@[w]);
                }
                return ;
            }
            i = i + 1;
        }
        self.entries.push(entry);
        proof {
            assert(entry_matches(self@[pre@.len() as int], flow_id@));
            assert forall|a: int, b: int| 0 <= a < b < self@.len() implies (
            #[trigger] self@[a]).flow_id@ != (#[trigger] self@[b]).flow_id@ by {
                if b < self@.len() - 1 {
                    assert(self@[a] == pre@[a]);
                    assert(self@[b] == pre@[b]);
                } else {
                    assert(self@[a] == pre@[a]);
                }
            }
        }
    }

    /// Removes a flow's entry, reporting whether it was active. A second
    /// call with the same identifier returns false and changes nothing.
    pub fn remove(&mut self, flow_id: &str) -> (was_active: bool)
        requires
            old(self).wf(),
        ensures
            final(self).wf(),
            table_remove_step(old(self)@, flow_id@, final(self)@),
            was_active == table_contains(old(self)@, flow_id@),
            !table_contains(final(self)@, flow_id@),
    {
        let ghost pre = *old(self);
        let n: usize = self.entries.len();
        let mut i: usize = 0;
        while i < n
            invariant
                pre == *old(self),
                pre.wf(),
                *self == pre,
                n == self.entries.len(),
                i <= n,
                forall|j: int| 0 <= j < i ==> !entry_matches(#[trigger] self@[j], flow_id@),
            decreases n - i,
        {
            if eq_str(self.entries[i].flow_id.as_str(), flow_id) {
                proof {
                    assert(entry_matches(pre@[i as int], flow_id@));
                }
                self.entries.remove(i);
                proof {
                    assert(self@ == pre@.remove(i as int));
                    assert forall|w: int| 0 <= w < self@.len() implies !entry_matches(
                        #[trigger] self@[w],
                        flow_id@,
                    ) by {
                        if w < i {
                            assert(self@[w] == pre@[w]);
                        } else {
                            assert(self@[w] == pre@[w + 1]);
                        }
                    }
                    assert forall|a: int, b: int| 0 <= a < b < self@.len() implies (
                    #[trigger] self@[a]).flow_id@ != (#[trigger] self@[b]).flow_id@ by {
                        if a < i {
                            assert(self@[a] == pre@[a]);
                        } else {
                            assert(self@[a] == pre@[a + 1]);
                        }
                        if b < i {
                            assert(self@[b] == pre@[b]);
                        } else {
                            assert(self@[b] == pre@[b + 1]);
                        }
                    }
                }
                return true;
            }
            i = i + 1;
        }
        false
    }

    /// The other party's identifiers for an active flow, if any.
    pub fn lookup(&self, flow_id: &str) -> (r: Option<(String, String)>)
        requires
            self.wf(),
        ensures
            match r {
                Some(p) => exists|i: int|
                    0 <= i < self@.len() && entry_matches(#[trigger] self@[i], flow_id@)
                        && self@[i].other_user@ == p.0@ && self@[i].other_device@ == p.1@,
                None => !table_contains(self@, flow_id@),
            },
    {
        let n: usize = self.entries.len();
        let mut i: usize = 0;
        while i < n
            invariant
                n == self.entries.len(),
                i <= n,
                forall|j: int| 0 <= j < i ==> !entry_matches(#[trigger] self@[j], flow_id@),
            decreases n - i,
        {
            if eq_str(self.entries[i].flow_id.as_str(), flow_id) {
                proof {
                    assert(entry_matches(self@[i as int], flow_id@));
                }
                return Some(
                    (self.entries[i].other_user.clone(), self.entries[i].other_device.clone()),
                );
            }
            i = i + 1;
        }
        None
    }
}


/// How long a whole verification flow may take, in milliseconds.
pub const VERIFICATION_TIMEOUT_MS: u64 = 120000;

/// One state reported by the engine for a pending verification request.
#[derive(Clone, Debug)]
pub enum RequestEvent {
    Created,
    Requested,
    Ready,
    TransitionedToSas { other_user: String, other_device: String },
    TransitionedOther,
    Cancelled { reason: String },
    Done,
}

/// The engine's reply to an attempt to start the key exchange.
#[derive(Clone, Debug)]
pub enum StartSasResult {
    Started { other_user: String, other_device: String },
    NotYetAvailable,
    Failed { message: String },
}

/// One state reported by the engine for a running key exchange.
#[derive(Clone, Debug)]
pub enum SasEvent {
    Created,
    Started,
    Accepted,
    KeysExchanged { emojis: Option<Vec<String>>, decimals: Option<String> },
    Confirmed,
    Done,
    Cancelled { reason: String },
}

/// One input to the verification machine.
#[derive(Clone, Debug)]
pub enum FlowEvent {
    Request(RequestEvent),
    StartOutcome(StartSasResult),
    Sas(SasEvent),
    RequestStreamEnded,
    SasStreamEnded,
    TimedOut,
}

/// What the caller must do next on the machine's behalf.
#[derive(Clone, Copy, Debug, PartialEq, Eq, Structural)]
pub enum FlowAction {
    StartSas,
}

/// One notification for the flow's observer.
#[derive(Clone, Debug)]
pub enum FlowOutput {
    Phase { flow_id: String, phase: SasPhase },
    Emojis { payload: SasEmojis },
    Error { flow_id: String, message: String },
}

/// Where the machine stands: pumping the request stream, pumping the key
/// exchange, or finished for good.
#[derive(Clone, Copy, Debug, PartialEq, Eq, Structural)]
pub enum FlowStage {
    AwaitingRequest,
    SasActive,
    Terminated,
}

/// Whether an output is the phase notification for this flow.
pub open spec fn is_phase_output(o: FlowOutput, flow: Seq<char>, ph: SasPhase) -> bool {
    o matches FlowOutput::Phase { flow_id, phase } && flow_id@ == flow && phase == ph
}

/// Whether an output is an error notification with this message.
pub open spec fn is_error_output(o: FlowOutput, flow: Seq<char>, message: Seq<char>) -> bool {
    o matches FlowOutput::Error { flow_id, message: m } && flow_id@ == flow && m@ == message
}

/// Whether an output carries exactly these emoji symbols and identifies
/// the flow and the other party.
pub open spec fn is_emoji_output(
    o: FlowOutput,
    flow: Seq<char>,
    user: Seq<char>,
    device: Seq<char>,
    emojis: Seq<Seq<char>>,
) -> bool {
    o matches FlowOutput::Emojis { payload } && payload.flow_id@ == flow && payload.other_user@
        == user && payload.other_device@ == device && payload.emojis.deep_view() == emojis
}

/// The message delivered when the flow exceeds its deadline.
pub open spec fn timeout_message() -> Seq<char> {
    "Verification timed out waiting for SAS"@
}

/// Whether this step runs out of time: the deadline has passed, or the
/// wait for the event itself timed out.
pub open spec fn machine_timed_out(m: VerificationMachine, ev: FlowEvent, now_ms: u64) -> bool {
    now_ms >= m.deadline_ms() || ev is TimedOut
}

/// Drives one verification flow: an explicit stage, an absolute deadline,
/// and the bounded auto-start bookkeeping for a locally initiated flow.
pub struct VerificationMachine {
    flow_id: String,
    we_started: bool,
    deadline_ms: u64,
    start_attempts: u32,
    awaiting_start: bool,
    stage: FlowStage,
    other_user: String,
    other_device: String,
}

impl VerificationMachine {
    /// The flow this machine drives.
    pub closed spec fn flow(&self) -> Seq<char> {
        self.flow_id@
    }

    /// Whether the local side initiated the request.
    pub closed spec fn spec_we_started(&self) -> bool {
        self.we_started
    }

    /// The absolute wall-clock deadline, in milliseconds.
    pub closed spec fn deadline_ms(&self) -> u64 {
        self.deadline_ms
    }

    /// How many automatic key-exchange starts have been attempted.
    pub closed spec fn start_attempts(&self) -> u32 {
        self.start_attempts
    }

    /// Whether a start attempt is in flight, awaiting its outcome.
    pub closed spec fn awaiting_start(&self) -> bool {
        self.awaiting_start
    }

    /// Where the machine stands.
    pub closed spec fn stage(&self) -> FlowStage {
        self.stage
    }

    /// The other party, as recorded when the key exchange was attached.
    pub closed spec fn other_user(&self) -> Seq<char> {
        self.other_user@
    }

    /// The other party's device, as recorded at attach.
    pub closed spec fn other_device(&self) -> Seq<char> {
        self.other_device@
    }

    /// A machine for a fresh flow: the deadline is set one timeout span
    /// from now, and nothing has been attempted yet.
    pub fn new(flow_id: String, we_started: bool, now_ms: u64) -> (m: VerificationMachine)
        requires
            now_ms <= u64::MAX - VERIFICATION_TIMEOUT_MS,
        ensures
            m.flow() == flow_id@,
            m.spec_we_started() == we_started,
            m.deadline_ms() == now_ms + VERIFICATION_TIMEOUT_MS,
            m.start_attempts() == 0,
            !m.awaiting_start(),
            m.stage() is AwaitingRequest,
    {
        VerificationMachine {
            flow_id,
            we_started,
            deadline_ms: now_ms + VERIFICATION_TIMEOUT_MS,
            start_attempts: 0,
            awaiting_start: false,
            stage: FlowStage::AwaitingRequest,
            other_user: String::new(),
            other_device: String::new(),
        }
    }

    /// Whether the machine has finished for good; its loop may stop.
    pub fn is_terminated(&self) -> (r: bool)
        ensures
            r == (self.stage() is Terminated),
    {
        match self.stage {
            FlowStage::Terminated => true,
            _ => false,
        }
    }

    /// The absolute deadline, for computing the remaining wait.
    pub fn deadline(&self) -> (d: u64)
        ensures
            d == self.deadline_ms(),
    {
        self.deadline_ms
    }
}

/// Identity that every step preserves: the flow, who started it, and the
/// deadline never change.
pub open spec fn same_identity(pre: VerificationMachine, post: VerificationMachine) -> bool {
    &&& post.flow() == pre.flow()
    &&& post.spec_we_started() == pre.spec_we_started()
    &&& post.deadline_ms() == pre.deadline_ms()
}

/// A step that changes nothing and says nothing.
pub open spec fn ignored_step(
    pre: VerificationMachine,
    table_pre: Seq<FlowEntry>,
    post: VerificationMachine,
    table_post: Seq<FlowEntry>,
    outs: Seq<FlowOutput>,
    action: Option<FlowAction>,
) -> bool {
    post == pre && table_post == table_pre && outs.len() == 0 && action is None
}

/// Attaching the key exchange: the flow is recorded in the table with the
/// other party's identifiers before the Ready phase is delivered, and the
/// machine turns to pumping the exchange.
pub open spec fn attach_step(
    pre: VerificationMachine,
    table_pre: Seq<FlowEntry>,
    user: Seq<char>,
    device: Seq<char>,
    post: VerificationMachine,
    table_post: Seq<FlowEntry>,
    outs: Seq<FlowOutput>,
    action: Option<FlowAction>,
) -> bool {
    &&& same_identity(pre, post)
    &&& post.stage() is SasActive
    &&& !post.awaiting_start()
    &&& post.start_attempts() == pre.start_attempts()
    &&& post.other_user() == user
    &&& post.other_device() == device
    &&& table_upsert_step(table_pre, pre.flow(), user, device, table_post)
    &&& outs.len() == 1
    &&& is_phase_output(outs[0], pre.flow(), SasPhase::Ready)
    &&& action is None
}

/// Ending the flow for good, with its table entry gone.
pub open spec fn terminal_step(
    pre: VerificationMachine,
    table_pre: Seq<FlowEntry>,
    post: VerificationMachine,
    table_post: Seq<FlowEntry>,
) -> bool {
    &&& same_identity(pre, post)
    &&& post.stage() is Terminated
    &&& table_remove_step(table_pre, pre.flow(), table_post)
    &&& !table_contains(table_post, pre.flow())
}

/// What one request-stream state does, while the machine still pumps the
/// request stream and time remains.
pub open spec fn request_step(
    pre: VerificationMachine,
    table_pre: Seq<FlowEntry>,
    rev: RequestEvent,
    post: VerificationMachine,
    table_post: Seq<FlowEntry>,
    outs: Seq<FlowOutput>,
    action: Option<FlowAction>,
) -> bool {
    if pre.stage() is AwaitingRequest {
        match rev {
            RequestEvent::Created => ignored_step(pre, table_pre, post, table_post, outs, action),
            RequestEvent::Requested => ignored_step(
                pre,
                table_pre,
                post,
                table_post,
                outs,
                action,
            ),
            RequestEvent::Ready => {
                if pre.spec_we_started() && !pre.awaiting_start() && pre.start_attempts() < 2 {
                    &&& same_identity(pre, post)
                    &&& post.stage() is AwaitingRequest
                    &&& post.start_attempts() == pre.start_attempts() + 1
                    &&& post.awaiting_start()
                    &&& post.other_user() == pre.other_user()
                    &&& post.other_device() == pre.other_device()
                    &&& table_post == table_pre
                    &&& outs.len() == 0
                    &&& action == Some(FlowAction::StartSas)
                } else {
                    ignored_step(pre, table_pre, post, table_post, outs, action)
                }
            },
            RequestEvent::TransitionedToSas { other_user, other_device } => attach_step(
                pre,
                table_pre,
                other_user@,
                other_device@,
                post,
                table_post,
                outs,
                action,
            ),
            RequestEvent::TransitionedOther => {
                &&& terminal_step(pre, table_pre, post, table_post)
                &&& outs.len() == 1
                &&& is_error_output(
                    outs[0],
                    pre.flow(),
                    "Verification transitioned to a non-SAS method (unsupported in this UI)"@,
                )
                &&& action is None
            },
            RequestEvent::Cancelled { reason } => {
                &&& terminal_step(pre, table_pre, post, table_post)
                &&& outs.len() == 2
                &&& is_phase_output(outs[0], pre.flow(), SasPhase::Cancelled)
                &&& is_error_output(outs[1], pre.flow(), reason@)
                &&& action is None
            },
            RequestEvent::Done => {
                &&& terminal_step(pre, table_pre, post, table_post)
                &&& outs.len() == 1
                &&& is_phase_output(outs[0], pre.flow(), SasPhase::Done)
                &&& action is None
            },
        }
    } else {
        ignored_step(pre, table_pre, post, table_post, outs, action)
    }
}

/// What the engine's reply to a start attempt does: a started exchange
/// attaches; "not yet available" and a failed call release the in-flight
/// flag so one later Ready transition may retry (bounded overall).
pub open spec fn start_outcome_step(
    pre: VerificationMachine,
    table_pre: Seq<FlowEntry>,
    res: StartSasResult,
    post: VerificationMachine,
    table_post: Seq<FlowEntry>,
    outs: Seq<FlowOutput>,
    action: Option<FlowAction>,
) -> bool {
    if pre.stage() is AwaitingRequest && pre.awaiting_start() {
        match res {
            StartSasResult::Started { other_user, other_device } => attach_step(
                pre,
                table_pre,
                other_user@,
                other_device@,
                post,
                table_post,
                outs,
                action,
            ),
            StartSasResult::NotYetAvailable => {
                &&& same_identity(pre, post)
                &&& post.stage() is AwaitingRequest
                &&& post.start_attempts() == pre.start_attempts()
                &&& !post.awaiting_start()
                &&& post.other_user() == pre.other_user()
                &&& post.other_device() == pre.other_device()
                &&& table_post == table_pre
                &&& outs.len() == 0
                &&& action is None
            },
            StartSasResult::Failed { message } => {
                &&& same_identity(pre, post)
                &&& post.stage() is AwaitingRequest
                &&& post.start_attempts() == pre.start_attempts()
                &&& !post.awaiting_start()
                &&& post.other_user() == pre.other_user()
                &&& post.other_device() == pre.other_device()
                &&& table_post == table_pre
                &&& outs.len() == 1
                &&& is_error_output(outs[0], pre.flow(), "start_sas failed: "@ + message@)
                &&& action is None
            },
        }
    } else {
        ignored_step(pre, table_pre, post, table_post, outs, action)
    }
}

/// What one key-exchange state does, while the exchange is attached and
/// time remains.
pub open spec fn sas_step(
    pre: VerificationMachine,
    table_pre: Seq<FlowEntry>,
    sev: SasEvent,
    post: VerificationMachine,
    table_post: Seq<FlowEntry>,
    outs: Seq<FlowOutput>,
    action: Option<FlowAction>,
) -> bool {
    if pre.stage() is SasActive {
        match sev {
            SasEvent::Created => ignored_step(pre, table_pre, post, table_post, outs, action),
            SasEvent::Started => ignored_step(pre, table_pre, post, table_post, outs, action),
            SasEvent::Accepted => ignored_step(pre, table_pre, post, table_post, outs, action),
            SasEvent::KeysExchanged { emojis, decimals } => {
                match emojis {
                    Some(e) => {
                        &&& post == pre
                        &&& table_post == table_pre
                        &&& outs.len() == 2
                        &&& is_phase_output(outs[0], pre.flow(), SasPhase::Emojis)
                        &&& is_emoji_output(
                            outs[1],
                            pre.flow(),
                            pre.other_user(),
                            pre.other_device(),
                            e.deep_view(),
                        )
                        &&& action is None
                    },
                    None => {
                        match decimals {
                            Some(d) => {
                                &&& post == pre
                                &&& table_post == table_pre
                                &&& outs.len() == 2
                                &&& is_phase_output(outs[0], pre.flow(), SasPhase::Failed)
                                &&& is_error_output(
                                    outs[1],
                                    pre.flow(),
                                    "SAS is decimal-only ("@ + d@
                                        + ") but currently UI is emoji-only"@,
                                )
                                &&& action is None
                            },
                            None => {
                                &&& post == pre
                                &&& table_post == table_pre
                                &&& outs.len() == 2
                                &&& is_phase_output(outs[0], pre.flow(), SasPhase::Failed)
                                &&& is_error_output(
                                    outs[1],
                                    pre.flow(),
                                    "KeysExchanged but no emojis provided"@,
                                )
                                &&& action is None
                            },
                        }
                    },
                }
            },
            SasEvent::Confirmed => {
                &&& post == pre
                &&& table_post == table_pre
                &&& outs.len() == 1
                &&& is_phase_output(outs[0], pre.flow(), SasPhase::Confirmed)
                &&& action is None
            },
            SasEvent::Done => {
                &&& terminal_step(pre, table_pre, post, table_post)
                &&& outs.len() == 1
                &&& is_phase_output(outs[0], pre.flow(), SasPhase::Done)
                &&& action is None
            },
            SasEvent::Cancelled { reason } => {
                &&& terminal_step(pre, table_pre, post, table_post)
                &&& outs.len() == 2
                &&& is_phase_output(outs[0], pre.flow(), SasPhase::Cancelled)
                &&& is_error_output(outs[1], pre.flow(), reason@)
                &&& action is None
            },
        }
    } else {
        ignored_step(pre, table_pre, post, table_post, outs, action)
    }
}

/// The whole transition table of one machine step: a finished flow says
/// nothing more; a flow out of time emits exactly one timeout error and
/// finishes with its table entry gone; otherwise the event decides.
pub open spec fn flow_step(
    pre: VerificationMachine,
    table_pre: Seq<FlowEntry>,
    ev: FlowEvent,
    now_ms: u64,
    post: VerificationMachine,
    table_post: Seq<FlowEntry>,
    outs: Seq<FlowOutput>,
    action: Option<FlowAction>,
) -> bool {
    if pre.stage() is Terminated {
        ignored_step(pre, table_pre, post, table_post, outs, action)
    } else if machine_timed_out(pre, ev, now_ms) {
        &&& terminal_step(pre, table_pre, post, table_post)
        &&& outs.len() == 1
        &&& is_error_output(outs[0], pre.flow(), timeout_message())
        &&& action is None
    } else {
        match ev {
            FlowEvent::Request(rev) => request_step(
                pre,
                table_pre,
                rev,
                post,
                table_post,
                outs,
                action,
            ),
            FlowEvent::StartOutcome(res) => start_outcome_step(
                pre,
                table_pre,
                res,
                post,
                table_post,
                outs,
                action,
            ),
            FlowEvent::Sas(sev) => sas_step(pre, table_pre, sev, post, table_post, outs, action),
            FlowEvent::RequestStreamEnded => {
                if pre.stage() is AwaitingRequest {
                    &&& terminal_step(pre, table_pre, post, table_post)
                    &&& outs.len() == 1
                    &&& is_error_output(outs[0], pre.flow(), "Verification request stream ended"@)
                    &&& action is None
                } else {
                    ignored_step(pre, table_pre, post, table_post, outs, action)
                }
            },
            FlowEvent::SasStreamEnded => {
                if pre.stage() is SasActive {
                    &&& terminal_step(pre, table_pre, post, table_post)
                    &&& outs.len() == 0
                    &&& action is None
                } else {
                    ignored_step(pre, table_pre, post, table_post, outs, action)
                }
            },
            FlowEvent::TimedOut => ignored_step(pre, table_pre, post, table_post, outs, action),
        }
    }
}


/// A phase notification for this flow.
pub fn phase_output(flow_id: &str, ph: SasPhase) -> (o: FlowOutput)
    ensures
        is_phase_output(o, flow_id@, ph),
{
    FlowOutput::Phase { flow_id: flow_id.to_owned(), phase: ph }
}

/// An error notification for this flow.
pub fn error_output(flow_id: &str, message: String) -> (o: FlowOutput)
    ensures
        is_error_output(o, flow_id@, message@),
{
    FlowOutput::Error { flow_id: flow_id.to_owned(), message }
}

/// Copies a list of strings.
fn clone_strings(v: &Vec<String>) -> (r: Vec<String>)
    ensures
        r@ == v@,
{
    let mut r: Vec<String> = Vec::new();
    let n: usize = v.len();
    let mut i: usize = 0;
    while i < n
        invariant
            n == v.len(),
            i <= n,
            r@ =~= v@.take(i as int),
        decreases n - i,
    {
        r.push(v[i].clone());
        i = i + 1;
    }
    proof {
        assert(v@.take(n as int) =~= v@);
    }
    r
}

impl VerificationMachine {
    /// Feeds one event through the machine: mutates the stage and the
    /// active-flow table, and hands back the notifications to deliver and
    /// the engine call (if any) to make.
    pub fn on_event(&mut self, table: &mut FlowTable, ev: &FlowEvent, now_ms: u64) -> (r: (
        Vec<FlowOutput>,
        Option<FlowAction>,
    ))
        requires
            old(table).wf(),
        ensures
            final(table).wf(),
            flow_step(
                *old(self),
                old(table)@,
                *ev,
                now_ms,
                *final(self),
                final(table)@,
                r.0@,
                r.1,
            ),
    {
        let mut outs: Vec<FlowOutput> = Vec::new();
        if matches!(self.stage, FlowStage::Terminated) {
            return (outs, None);
        }
        if now_ms >= self.deadline_ms || matches!(ev, FlowEvent::TimedOut) {
            self.stage = FlowStage::Terminated;
            let _ = table.remove(self.flow_id.as_str());
            outs.push(
                error_output(
                    self.flow_id.as_str(),
                    "Verification timed out waiting for SAS".to_owned(),
                ),
            );
            return (outs, None);
        }
        match ev {
            FlowEvent::Request(rev) => {
                if !matches!(self.stage, FlowStage::AwaitingRequest) {
                    return (outs, None);
                }
                match rev {
                    RequestEvent::Created => (outs, None),
                    RequestEvent::Requested => (outs, None),
                    RequestEvent::Ready => {
                        if self.we_started && !self.awaiting_start && self.start_attempts < 2 {
                            self.start_attempts = self.start_attempts + 1;
                            self.awaiting_start = true;
                            return (outs, Some(FlowAction::StartSas));
                        }
                        (outs, None)
                    },
                    RequestEvent::TransitionedToSas { other_user, other_device } => {
                        self.stage = FlowStage::SasActive;
                        self.awaiting_start = false;
                        self.other_user = other_user.clone();
                        self.other_device = other_device.clone();
                        table.insert(
                            self.flow_id.as_str(),
                            other_user.as_str(),
                            other_device.as_str(),
                        );
                        outs.push(phase_output(self.flow_id.as_str(), SasPhase::Ready));
                        (outs, None)
                    },
                    RequestEvent::TransitionedOther => {
                        self.stage = FlowStage::Terminated;
                        let _ = table.remove(self.flow_id.as_str());
                        outs.push(
                            error_output(
                                self.flow_id.as_str(),
                                "Verification transitioned to a non-SAS method (unsupported in this UI)".to_owned(),
                            ),
                        );
                        (outs, None)
                    },
                    RequestEvent::Cancelled { reason } => {
                        self.stage = FlowStage::Terminated;
                        let _ = table.remove(self.flow_id.as_str());
                        outs.push(phase_output(self.flow_id.as_str(), SasPhase::Cancelled));
                        outs.push(error_output(self.flow_id.as_str(), reason.clone()));
                        (outs, None)
                    },
                    RequestEvent::Done => {
                        self.stage = FlowStage::Terminated;
                        let _ = table.remove(self.flow_id.as_str());
                        outs.push(phase_output(self.flow_id.as_str(), SasPhase::Done));
                        (outs, None)
                    },
                }
            },
            FlowEvent::StartOutcome(res) => {
                if !(matches!(self.stage, FlowStage::AwaitingRequest) && self.awaiting_start) {
                    return (outs, None);
                }
                match res {
                    StartSasResult::Started { other_user, other_device } => {
                        self.stage = FlowStage::SasActive;
                        self.awaiting_start = false;
                        self.other_user = other_user.clone();
                        self.other_device = other_device.clone();
                        table.insert(
                            self.flow_id.as_str(),
                            other_user.as_str(),
                            other_device.as_str(),
                        );
                        outs.push(phase_output(self.flow_id.as_str(), SasPhase::Ready));
                        (outs, None)
                    },
                    StartSasResult::NotYetAvailable => {
                        self.awaiting_start = false;
                        (outs, None)
                    },
                    StartSasResult::Failed { message } => {
                        self.awaiting_start = false;
                        let mut text = "start_sas failed: ".to_owned();
                        text.append(message.as_str());
                        outs.push(error_output(self.flow_id.as_str(), text));
                        (outs, None)
                    },
                }
            },
            FlowEvent::Sas(sev) => {
                if !matches!(self.stage, FlowStage::SasActive) {
                    return (outs, None);
                }
                match sev {
                    SasEvent::Created => (outs, None),
                    SasEvent::Started => (outs, None),
                    SasEvent::Accepted => (outs, None),
                    SasEvent::KeysExchanged { emojis, decimals } => {
                        match emojis {
                            Some(e) => {
                                let payload = SasEmojis {
                                    flow_id: self.flow_id.clone(),
                                    other_user: self.other_user.clone(),
                                    other_device: self.other_device.clone(),
                                    emojis: clone_strings(e),
                                };
                                outs.push(phase_output(self.flow_id.as_str(), SasPhase::Emojis));
                                outs.push(FlowOutput::Emojis { payload });
                                (outs, None)
                            },
                            None => {
                                match decimals {
                                    Some(d) => {
                                        outs.push(
                                            phase_output(self.flow_id.as_str(), SasPhase::Failed),
                                        );
                                        let mut text = "SAS is decimal-only (".to_owned();
                                        text.append(d.as_str());
                                        text.append(") but currently UI is emoji-only");
                                        outs.push(error_output(self.flow_id.as_str(), text));
                                        (outs, None)
                                    },
                                    None => {
                                        outs.push(
                                            phase_output(self.flow_id.as_str(), SasPhase::Failed),
                                        );
                                        outs.push(
                                            error_output(
                                                self.flow_id.as_str(),
                                                "KeysExchanged but no emojis provided".to_owned(),
                                            ),
                                        );
                                        (outs, None)
                                    },
                                }
                            },
                        }
                    },
                    SasEvent::Confirmed => {
                        outs.push(phase_output(self.flow_id.as_str(), SasPhase::Confirmed));
                        (outs, None)
                    },
                    SasEvent::Done => {
                        self.stage = FlowStage::Terminated;
                        let _ = table.remove(self.flow_id.as_str());
                        outs.push(phase_output(self.flow_id.as_str(), SasPhase::Done));
                        (outs, None)
                    },
                    SasEvent::Cancelled { reason } => {
                        self.stage = FlowStage::Terminated;
                        let _ = table.remove(self.flow_id.as_str());
                        outs.push(phase_output(self.flow_id.as_str(), SasPhase::Cancelled));
                        outs.push(error_output(self.flow_id.as_str(), reason.clone()));
                        (outs, None)
                    },
                }
            },
            FlowEvent::RequestStreamEnded => {
                if matches!(self.stage, FlowStage::AwaitingRequest) {
                    self.stage = FlowStage::Terminated;
                    let _ = table.remove(self.flow_id.as_str());
                    outs.push(
                        error_output(
                            self.flow_id.as_str(),
                            "Verification request stream ended".to_owned(),
                        ),
                    );
                }
                (outs, None)
            },
            FlowEvent::SasStreamEnded => {
                if matches!(self.stage, FlowStage::SasActive) {
                    self.stage = FlowStage::Terminated;
                    let _ = table.remove(self.flow_id.as_str());
                }
                (outs, None)
            },
            FlowEvent::TimedOut => (outs, None),
        }
    }
}

/// A finished machine never leaves its terminal stage while steps keep
/// being fed to it.
proof fn lemma_stays_terminated(
    machines: Seq<VerificationMachine>,
    tables: Seq<Seq<FlowEntry>>,
    evs: Seq<FlowEvent>,
    times: Seq<u64>,
    outs: Seq<Seq<FlowOutput>>,
    actions: Seq<Option<FlowAction>>,
    start: int,
    j: int,
)
    requires
        machines.len() == evs.len() + 1,
        tables.len() == evs.len() + 1,
        times.len() == evs.len(),
        outs.len() == evs.len(),
        actions.len() == evs.len(),
        forall|i: int|
            0 <= i < evs.len() ==> #[trigger] flow_step(
                machines[i],
                tables[i],
                evs[i],
                times[i],
                machines[i + 1],
                tables[i + 1],
                outs[i],
                actions[i],
            ),
        0 <= start <= j <= evs.len(),
        machines[start].stage() is Terminated,
    ensures
        machines[j].stage() is Terminated,
    decreases j - start,
{
    if j > start {
        lemma_stays_terminated(machines, tables, evs, times, outs, actions, start, j - 1);
        let i = j - 1;
        assert(flow_step(
            machines[i],
            tables[i],
            evs[i],
            times[i],
            machines[i + 1],
            tables[i + 1],
            outs[i],
            actions[i],
        ));
        assert(machines[j] == machines[i + 1]);
    }
}

/// Law: a flow that exceeds its deadline emits exactly one timeout
/// notification and no further notifications: the step that runs out of
/// time delivers a single timeout error, and every later step of the run
/// delivers nothing.
pub proof fn lemma_timeout_emits_exactly_once(
    machines: Seq<VerificationMachine>,
    tables: Seq<Seq<FlowEntry>>,
    evs: Seq<FlowEvent>,
    times: Seq<u64>,
    outs: Seq<Seq<FlowOutput>>,
    actions: Seq<Option<FlowAction>>,
    k: int,
)
    requires
        machines.len() == evs.len() + 1,
        tables.len() == evs.len() + 1,
        times.len() == evs.len(),
        outs.len() == evs.len(),
        actions.len() == evs.len(),
        forall|i: int|
            0 <= i < evs.len() ==> #[trigger] flow_step(
                machines[i],
                tables[i],
                evs[i],
                times[i],
                machines[i + 1],
                tables[i + 1],
                outs[i],
                actions[i],
            ),
        0 <= k < evs.len(),
        !(machines[k].stage() is Terminated),
        machine_timed_out(machines[k], evs[k], times[k]),
    ensures
        outs[k].len() == 1,
        is_error_output(outs[k][0], machines[k].flow(), timeout_message()),
        forall|j: int| k < j < evs.len() ==> (#[trigger] outs[j]).len() == 0,
{
    let i = k;
    assert(flow_step(
        machines[i],
        tables[i],
        evs[i],
        times[i],
        machines[i + 1],
        tables[i + 1],
        outs[i],
        actions[i],
    ));
    assert forall|j: int| k < j < evs.len() implies (#[trigger] outs[j]).len() == 0 by {
        lemma_stays_terminated(machines, tables, evs, times, outs, actions, k + 1, j);
        let w = j;
        assert(flow_step(
            machines[w],
            tables[w],
            evs[w],
            times[w],
            machines[w + 1],
            tables[w + 1],
            outs[w],
            actions[w],
        ));
    }
}

} // verus!
