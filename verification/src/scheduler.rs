//! The increment scheduler: the per-increment state machine.
//!
//! The scheduler is the sole driver of a run. It owns the authoritative
//! generator and decides everything; all outside effects are returned as
//! [`Command`] values that a thin unverified driver performs in order,
//! feeding the outcome back through the `on_*` methods named in each
//! command's documentation. All waiting is a cooperative poll loop at a
//! fixed quantum: sleep, re-check the condition, and opportunistically
//! refresh the predictive preview if the input changed.
//!
//! The machine maintains, as ghost state, the full log of generation
//! calls (`draws`) and of current-slot publications and consumption
//! acknowledgements (`slots`). Its well-formedness invariant pins the
//! scheduling discipline: indices strictly ascend by one and freeze at
//! Terminal, at most one artifact is ever awaiting consumption, and two
//! consecutive Drawing generations are at least the minimum delay apart.

use vstd::prelude::*;
use crate::art::{ArtAction, ArtIncrement, LivedrawArt};
use crate::input::Input;
use crate::notify::PlotUpdateAction;
use crate::plotdata::{fresh_plotdata_of, plot_make_new_plotdata, PenTravelMetadata};
use crate::preview::{drawn_concat, generate_svg_all, preview_run, SimStep};

verus! {

/// The poll quantum of every cooperative wait, in milliseconds.
pub const POLL_QUANTUM_MS: u64 = 500;

/// One outside effect the driver must perform. Commands are executed in
/// the order returned; a command whose documentation names an `on_*`
/// method is a question, and the driver calls that method with the answer.
pub enum Command<G> {
    /// Purge stale handshake artifacts and ensure the directory exists.
    ResetStore,
    /// Post a lifecycle notification to the control service.
    Emit(PlotUpdateAction),
    /// Poll the control service for the input document; answer with
    /// `on_input`.
    FetchInput,
    /// Overwrite the predictive artifact with these groups.
    WritePredictive(Vec<G>),
    /// Read and delete the finished artifact if it exists; answer with
    /// `on_finished`.
    ReadFinished,
    /// Write the current artifact from these groups and the carried
    /// metadata, and add the groups to the cumulative artifact.
    Publish { groups: Vec<G>, plotdata: Option<PenTravelMetadata> },
    /// Check whether the current artifact still exists on disk; answer
    /// with `on_current_checked`.
    CheckCurrent,
    /// Sleep for the poll quantum, in milliseconds.
    Sleep(u64),
    /// Read the wall clock; answer with `on_time`.
    CheckTime,
    /// Write the shutdown artifact that sends the plotter home.
    WriteHome(PenTravelMetadata),
}

/// Where the machine stands, which is also which answer it awaits.
#[derive(Clone, Copy, PartialEq, Eq, Structural, Debug)]
pub enum Phase {
    /// Constructed; `start` has not run.
    Ready,
    /// Awaiting the initial input poll (`on_input`).
    FirstInput,
    /// Inside a pause action, awaiting the clock (`on_time`).
    Pausing,
    /// Inside a pause action, awaiting an input poll (`on_input`).
    PausingInput,
    /// Awaiting the input poll that precedes generation (`on_input`).
    RequestInput,
    /// Drawing generated, awaiting the finished artifact's metadata
    /// (`on_finished`).
    PublishMeta,
    /// Artifact published, awaiting the existence check
    /// (`on_current_checked`).
    AwaitConsumption,
    /// Artifact still present, awaiting an input poll (`on_input`).
    ConsumptionInput,
    /// Consumption acknowledged, awaiting the clock (`on_time`).
    AwaitDelay,
    /// Delay not yet elapsed, awaiting an input poll (`on_input`).
    DelayInput,
    /// Terminal generated, awaiting the finished artifact's metadata
    /// (`on_finished`).
    CleanupMeta,
    /// The run is over; no method may be called again.
    Done,
}

/// What one generation call returned.
pub enum DrawKind {
    Drawn,
    Skipped,
    Ended,
}

/// The ghost record of one `draw_increment` call.
pub struct DrawRec<G> {
    /// The index passed to the call.
    pub index: int,
    /// The wall-clock time of the call, in milliseconds.
    pub time: int,
    /// What came back.
    pub kind: DrawKind,
    /// The groups of a Drawing; empty otherwise.
    pub groups: Seq<G>,
}

/// The ghost record of one current-slot transition.
pub enum SlotEv {
    /// The artifact for this index was published to the current slot.
    Published(int),
    /// The artifact for this index disappeared: consumption acknowledged.
    Acked(int),
}

/// The index a slot event speaks of.
pub open spec fn slot_index(e: SlotEv) -> int {
    match e {
        SlotEv::Published(i) => i,
        SlotEv::Acked(i) => i,
    }
}

/// Publications and acknowledgements alternate strictly, starting with a
/// publication, and each acknowledgement names the publication before it.
pub open spec fn slots_alt(s: Seq<SlotEv>) -> bool {
    &&& forall|j: int| 0 <= j < s.len() ==> ((#[trigger] s[j]) is Published <==> j % 2 == 0)
    &&& forall|j1: int, j2: int|
        0 <= j1 < j2 < s.len() && j2 == j1 + 1 && j2 % 2 == 1 ==> slot_index(#[trigger] s[j2])
            == slot_index(#[trigger] s[j1])
}

/// How many publications of a slot log are not yet acknowledged.
pub open spec fn pending_publishes(s: Seq<SlotEv>) -> int
    decreases s.len(),
{
    if s.len() == 0 {
        0
    } else {
        pending_publishes(s.drop_last()) + match s.last() {
            SlotEv::Published(_) => 1,
            SlotEv::Acked(_) => -1,
        }
    }
}

/// Whether a command sequence rewrites the predictive preview.
pub open spec fn has_predictive<G>(cmds: Seq<Command<G>>) -> bool {
    exists|k: int| 0 <= k < cmds.len() && (#[trigger] cmds[k]) is WritePredictive
}

/// The announcements of one scan of the pre-increment actions from
/// position `from`: each chat message is emitted in order, and the scan
/// stops at the first pause, whose countdown is emitted last.
pub open spec fn action_emits<G>(actions: Seq<ArtAction>, from: int) -> Seq<Command<G>>
    decreases actions.len() - from,
{
    if from < 0 || from >= actions.len() {
        Seq::empty()
    } else {
        match actions[from] {
            ArtAction::Pause(text, duration_ms) => seq![
                Command::Emit(PlotUpdateAction::PlotArtCountdownPause(text, duration_ms)),
            ],
            ArtAction::ChatMessage(message) => seq![
                Command::Emit(PlotUpdateAction::PlotArtChatMessage(message)),
            ] + action_emits(actions, from + 1),
        }
    }
}

/// Where the scan from `from` stops: just past the first pause, or at the
/// end of the list when no pause remains.
pub open spec fn action_scan_stop(actions: Seq<ArtAction>, from: int) -> int
    decreases actions.len() - from,
{
    if from < 0 || from >= actions.len() {
        actions.len() as int
    } else if actions[from] is Pause {
        from + 1
    } else {
        action_scan_stop(actions, from + 1)
    }
}

/// Whether the scan from `from` hits a pause.
pub open spec fn scan_hits_pause(actions: Seq<ArtAction>, from: int) -> bool
    decreases actions.len() - from,
{
    if from < 0 || from >= actions.len() {
        false
    } else if actions[from] is Pause {
        true
    } else {
        scan_hits_pause(actions, from + 1)
    }
}

/// A pause's deadline: `now` plus its duration, saturated at the clock's
/// top.
pub open spec fn pause_deadline(now: int, duration: int) -> int {
    if now + duration <= u64::MAX {
        now + duration
    } else {
        u64::MAX as int
    }
}

/// The log record a generation answer leaves behind.
pub open spec fn draw_kind_of<G>(inc: ArtIncrement<G>) -> DrawKind {
    match inc {
        ArtIncrement::SVG(_) => DrawKind::Drawn,
        ArtIncrement::Continue => DrawKind::Skipped,
        ArtIncrement::End => DrawKind::Ended,
    }
}

/// The groups a generation answer carries: those of a Drawing, nothing
/// otherwise.
pub open spec fn draw_groups_of<G>(inc: ArtIncrement<G>) -> Seq<G> {
    match inc {
        ArtIncrement::SVG(parts) => parts@,
        _ => Seq::empty(),
    }
}

/// Law: in every reachable machine, the index passed to the generator
/// strictly increased by one on every Drawing or Skip result — the j-th
/// generation call of the run used index j — and no generation call
/// follows a Terminal: a Terminal record can only close the log.
pub proof fn lemma_index_discipline<T: LivedrawArt + Clone>(s: &Scheduler<T>)
    requires
        s.wf(),
    ensures
        forall|j: int| 0 <= j < s.draws@.len() ==> (#[trigger] s.draws@[j]).index == j,
        forall|j: int| 0 <= j < s.draws@.len() - 1 ==> !((#[trigger] s.draws@[j]).kind is Ended),
{
}

proof fn lemma_alt_pending(s: Seq<SlotEv>, j: int)
    requires
        slots_alt(s),
        0 <= j <= s.len(),
    ensures
        pending_publishes(s.take(j)) == j % 2,
    decreases j,
{
    if j == 0 {
        assert(s.take(0) =~= Seq::<SlotEv>::empty());
    } else {
        lemma_alt_pending(s, j - 1);
        assert(s.take(j).drop_last() =~= s.take(j - 1));
        assert(s.take(j).last() == s[j - 1]);
    }
}

/// Law: at most one artifact is ever awaiting consumption. In every
/// prefix of a reachable machine's slot log, the number of publications
/// not yet acknowledged is zero or one: the current slot is published to
/// again only after the previous artifact's consumption was acknowledged.
pub proof fn lemma_single_artifact_in_flight<T: LivedrawArt + Clone>(s: &Scheduler<T>, j: int)
    requires
        s.wf(),
        0 <= j <= s.slots@.len(),
    ensures
        0 <= pending_publishes(s.slots@.take(j)) <= 1,
{
    lemma_alt_pending(s.slots@, j);
}

/// Law: the wall-clock time between the generation call that produced a
/// Drawing and the next generation call is at least the minimum delay.
/// No such bound is stated when the earlier call produced Skip: an index
/// reached through Skip bypasses the delay.
pub proof fn lemma_minimum_delay<T: LivedrawArt + Clone>(s: &Scheduler<T>, j: int)
    requires
        s.wf(),
        1 <= j < s.draws@.len(),
        s.draws@[j - 1].kind is Drawn,
    ensures
        s.draws@[j].time >= s.draws@[j - 1].time + s.delay_ms,
{
}

/// The increment scheduler. See the module documentation.
pub struct Scheduler<T: LivedrawArt> {
    /// The authoritative generator. The predictive preview only ever runs
    /// on an independent copy of it.
    pub art: T,
    /// Where the machine stands.
    pub phase: Phase,
    /// The index of the increment being worked on.
    pub index: usize,
    /// The last input document observed.
    pub last_input: Option<Input>,
    /// The minimum delay between increments, in milliseconds, read from
    /// the generator once at construction.
    pub delay_ms: u64,
    /// The latest wall-clock time observed, in milliseconds.
    pub clock_ms: u64,
    /// When generation began for the increment in flight.
    pub gen_start_ms: u64,
    /// When the running pause action ends.
    pub pause_end_ms: u64,
    /// The pre-increment actions of the current index.
    pub actions: Vec<ArtAction>,
    /// The first action of `actions` not yet run.
    pub actions_pos: usize,
    /// The groups of a generated Drawing, held until publication.
    pub pending_groups: Option<Vec<T::Group>>,
    /// Ghost log of every generation call, in order.
    pub draws: Ghost<Seq<DrawRec<T::Group>>>,
    /// Ghost log of every publication and acknowledgement, in order.
    pub slots: Ghost<Seq<SlotEv>>,
}

impl<T: LivedrawArt + Clone> Scheduler<T> {
    /// The view of the last observed input, if any.
    pub open spec fn last_seen(&self) -> Option<Seq<char>> {
        match self.last_input {
            Some(v) => Some(v@),
            None => None,
        }
    }

    /// The discipline of the generation log: indices ascend by one from
    /// zero, Terminal can only be last, times never run backwards nor past
    /// the observed clock, and a generation that follows a Drawing is at
    /// least the minimum delay later.
    pub open spec fn draws_ok(&self) -> bool {
        let d = self.draws@;
        &&& forall|j: int| 0 <= j < d.len() ==> (#[trigger] d[j]).index == j
        &&& forall|j: int| 0 <= j < d.len() - 1 ==> !((#[trigger] d[j]).kind is Ended)
        &&& forall|j: int| 0 <= j < d.len() ==> (#[trigger] d[j]).time <= self.clock_ms as int
        &&& forall|j1: int, j2: int|
            0 <= j1 < j2 < d.len() ==> (#[trigger] d[j1]).time <= (#[trigger] d[j2]).time
        &&& forall|j1: int, j2: int|
            0 <= j1 < j2 < d.len() && j2 == j1 + 1 && d[j1].kind is Drawn
                ==> (#[trigger] d[j2]).time >= (#[trigger] d[j1]).time + self.delay_ms
    }

    /// If the last generation was a Drawing, the minimum delay has already
    /// elapsed since it: a further generation may happen now.
    pub open spec fn paced(&self) -> bool {
        self.draws@.len() > 0 && self.draws@.last().kind is Drawn
            ==> self.clock_ms as int >= self.draws@.last().time + self.delay_ms
    }

    /// The machine is between increments, free to generate the next one.
    pub open spec fn pre_request(&self) -> bool {
        &&& self.index == self.draws@.len()
        &&& forall|j: int| 0 <= j < self.draws@.len() ==> !((#[trigger] self.draws@[j]).kind is Ended)
        &&& self.last_input is Some
        &&& self.paced()
        &&& self.actions_pos <= self.actions.len()
    }

    /// A Drawing for the current index was generated and not yet paced
    /// out: its record closes the log.
    pub open spec fn post_draw(&self) -> bool {
        &&& self.draws@.len() == self.index + 1
        &&& self.draws@.last().kind is Drawn
        &&& self.gen_start_ms as int == self.draws@.last().time
        &&& self.last_input is Some
    }

    /// Terminal was generated: the log is closed for good.
    pub open spec fn post_end(&self) -> bool {
        &&& self.draws@.len() == self.index + 1
        &&& self.draws@.last().kind is Ended
    }

    /// The phase-dependent part of the invariant.
    pub open spec fn phase_ok(&self) -> bool {
        &&& ((self.slots@.len() % 2 == 1) <==> (self.phase is AwaitConsumption
            || self.phase is ConsumptionInput))
        &&& match self.phase {
            Phase::Ready => self.draws@.len() == 0 && self.slots@.len() == 0 && self.index == 0
                && self.last_input is None,
            Phase::FirstInput => self.draws@.len() == 0 && self.slots@.len() == 0 && self.index
                == 0,
            Phase::Pausing => self.pre_request(),
            Phase::PausingInput => self.pre_request(),
            Phase::RequestInput => self.pre_request(),
            Phase::PublishMeta => self.post_draw() && (self.pending_groups matches Some(g)
                && g@ == self.draws@.last().groups),
            Phase::AwaitConsumption => self.post_draw() && self.slots@.len() > 0
                && self.slots@.last() == SlotEv::Published(self.index as int),
            Phase::ConsumptionInput => self.post_draw() && self.slots@.len() > 0
                && self.slots@.last() == SlotEv::Published(self.index as int),
            Phase::AwaitDelay => self.post_draw(),
            Phase::DelayInput => self.post_draw(),
            Phase::CleanupMeta => self.post_end(),
            Phase::Done => self.post_end(),
        }
    }

    /// The machine's well-formedness invariant: established by `new` and
    /// preserved by every transition.
    pub open spec fn wf(&self) -> bool {
        &&& self.draws_ok()
        &&& slots_alt(self.slots@)
        &&& self.phase_ok()
    }

    /// What one scan of the pre-increment actions `actions` from position
    /// `from`, at wall-clock time `now`, did and said: `emitted` is
    /// exactly the scan's announcements, the cursor stopped at the scan's
    /// stop position, and the machine entered a pause — with its deadline
    /// set to `now` plus the pause's duration — exactly when the scan hit
    /// one.
    pub open spec fn action_scan_post(
        &self,
        actions: Seq<ArtAction>,
        from: int,
        now: int,
        emitted: Seq<Command<T::Group>>,
    ) -> bool {
        &&& emitted == action_emits::<T::Group>(actions, from)
        &&& self.actions_pos as int == action_scan_stop(actions, from)
        &&& (self.phase is Pausing <==> scan_hits_pause(actions, from))
        &&& (scan_hits_pause(actions, from) ==> (actions[action_scan_stop(actions, from)
            - 1] matches ArtAction::Pause(_text, duration_ms) && self.pause_end_ms as int
            == pause_deadline(now, duration_ms as int)))
    }

    /// Which phases await an input poll, answered through `on_input`.
    pub open spec fn awaits_input(&self) -> bool {
        ||| self.phase is FirstInput
        ||| self.phase is PausingInput
        ||| self.phase is RequestInput
        ||| self.phase is ConsumptionInput
        ||| self.phase is DelayInput
    }

    /// A fresh machine around the authoritative generator. The minimum
    /// delay is read from the generator once, here.
    pub fn new(art: T) -> (s: Scheduler<T>)
        ensures
            s.wf(),
            s.phase is Ready,
            s.draws@ == Seq::<DrawRec<T::Group>>::empty(),
            s.slots@ == Seq::<SlotEv>::empty(),
            s.index == 0,
            s.clock_ms == 0,
            s.last_input is None,
    {
        let delay_ms = art.delay_between_increments();
        Scheduler {
            art,
            phase: Phase::Ready,
            index: 0,
            last_input: None,
            delay_ms,
            clock_ms: 0,
            gen_start_ms: 0,
            pause_end_ms: 0,
            actions: Vec::new(),
            actions_pos: 0,
            pending_groups: None,
            draws: Ghost(Seq::empty()),
            slots: Ghost(Seq::empty()),
        }
    }

    /// Begins the run: purge stale artifacts, announce the start, and ask
    /// for the initial input.
    pub fn start(&mut self) -> (cmds: Vec<Command<T::Group>>)
        requires
            old(self).wf(),
            old(self).phase is Ready,
        ensures
            final(self).wf(),
            final(self).phase is FirstInput,
            final(self).draws@ == old(self).draws@,
            final(self).slots@ == old(self).slots@,
            final(self).delay_ms == old(self).delay_ms,
            final(self).clock_ms == old(self).clock_ms,
            final(self).index == old(self).index,
            final(self).last_seen() == old(self).last_seen(),
            cmds@.len() == 3,
            cmds@[0] is ResetStore,
            cmds@[1] == Command::<T::Group>::Emit(PlotUpdateAction::PlotArtStart),
            cmds@[2] is FetchInput,
    {
        self.phase = Phase::FirstInput;
        let mut cmds: Vec<Command<T::Group>> = Vec::new();
        cmds.push(Command::ResetStore);
        cmds.push(Command::Emit(PlotUpdateAction::PlotArtStart));
        cmds.push(Command::FetchInput);
        cmds
    }

    /// Runs the pre-increment actions of the current index from the start.
    fn enter_pre_action(&mut self, now_ms: u64) -> (cmds: Vec<Command<T::Group>>)
        requires
            old(self).draws_ok(),
            slots_alt(old(self).slots@),
            old(self).slots@.len() % 2 == 0,
            old(self).index == old(self).draws@.len(),
            forall|j: int|
                0 <= j < old(self).draws@.len() ==> !((#[trigger] old(self).draws@[j]).kind
                    is Ended),
            old(self).last_input is Some,
            old(self).paced(),
            now_ms == old(self).clock_ms,
        ensures
            final(self).wf(),
            final(self).phase is Pausing || final(self).phase is RequestInput,
            final(self).draws@ == old(self).draws@,
            final(self).slots@ == old(self).slots@,
            final(self).index == old(self).index,
            final(self).delay_ms == old(self).delay_ms,
            final(self).clock_ms == old(self).clock_ms,
            final(self).last_seen() == old(self).last_seen(),
            final(self).action_scan_post(final(self).actions@, 0, now_ms as int, cmds@.drop_last()),
            forall|k: int| 0 <= k < cmds@.len() ==> !((#[trigger] cmds@[k]) is WritePredictive),
            final(self).phase is RequestInput ==> cmds@.len() > 0 && cmds@.last() is FetchInput,
            final(self).phase is Pausing ==> cmds@.len() > 0 && cmds@.last() is CheckTime,
    {
        self.actions = self.art.actions_before_increment(self.index);
        self.actions_pos = 0;
        self.advance_actions(now_ms)
    }

    /// Runs pre-increment actions from `actions_pos` on: chat messages are
    /// announced immediately; the first pause stops the scan and starts
    /// the pause wait. With no action left, the machine asks for the input
    /// that precedes generation.
    fn advance_actions(&mut self, now_ms: u64) -> (cmds: Vec<Command<T::Group>>)
        requires
            old(self).draws_ok(),
            slots_alt(old(self).slots@),
            old(self).slots@.len() % 2 == 0,
            old(self).index == old(self).draws@.len(),
            forall|j: int|
                0 <= j < old(self).draws@.len() ==> !((#[trigger] old(self).draws@[j]).kind
                    is Ended),
            old(self).last_input is Some,
            old(self).paced(),
            old(self).actions_pos <= old(self).actions.len(),
            now_ms == old(self).clock_ms,
        ensures
            final(self).wf(),
            final(self).phase is Pausing || final(self).phase is RequestInput,
            final(self).draws@ == old(self).draws@,
            final(self).slots@ == old(self).slots@,
            final(self).index == old(self).index,
            final(self).delay_ms == old(self).delay_ms,
            final(self).clock_ms == old(self).clock_ms,
            final(self).last_seen() == old(self).last_seen(),
            final(self).actions == old(self).actions,
            final(self).action_scan_post(
                old(self).actions@,
                old(self).actions_pos as int,
                now_ms as int,
                cmds@.drop_last(),
            ),
            forall|k: int| 0 <= k < cmds@.len() ==> !((#[trigger] cmds@[k]) is WritePredictive),
            final(self).phase is RequestInput ==> cmds@.len() > 0 && cmds@.last() is FetchInput,
            final(self).phase is Pausing ==> cmds@.len() > 0 && cmds@.last() is CheckTime,
    {
        let ghost from = self.actions_pos as int;
        let mut cmds: Vec<Command<T::Group>> = Vec::new();
        let mut pos = self.actions_pos;
        let mut pause_for: Option<u64> = None;
        while pos < self.actions.len() && pause_for.is_none()
            invariant
                self.actions_pos <= pos <= self.actions.len(),
                from == self.actions_pos as int,
                forall|k: int| 0 <= k < cmds@.len() ==> !((#[trigger] cmds@[k]) is WritePredictive),
                pause_for is None ==> {
                    &&& cmds@ + action_emits::<T::Group>(self.actions@, pos as int)
                        == action_emits::<T::Group>(self.actions@, from)
                    &&& action_scan_stop(self.actions@, pos as int) == action_scan_stop(
                        self.actions@,
                        from,
                    )
                    &&& scan_hits_pause(self.actions@, pos as int) == scan_hits_pause(
                        self.actions@,
                        from,
                    )
                },
                pause_for matches Some(d) ==> {
                    &&& cmds@ == action_emits::<T::Group>(self.actions@, from)
                    &&& pos as int == action_scan_stop(self.actions@, from)
                    &&& scan_hits_pause(self.actions@, from)
                    &&& (self.actions@[pos - 1] matches ArtAction::Pause(_text, d2) && d2 == d)
                },
            decreases self.actions.len() - pos,
        {
            match &self.actions[pos] {
                ArtAction::ChatMessage(message) => {
                    let ghost before = cmds@;
                    cmds.push(
                        Command::Emit(PlotUpdateAction::PlotArtChatMessage(message.clone())),
                    );
                    proof {
                        assert(cmds@ + action_emits::<T::Group>(self.actions@, pos as int + 1)
                            =~= before + action_emits::<T::Group>(self.actions@, pos as int));
                    }
                }
                ArtAction::Pause(text, duration_ms) => {
                    let ghost before = cmds@;
                    cmds.push(
                        Command::Emit(
                            PlotUpdateAction::PlotArtCountdownPause(text.clone(), *duration_ms),
                        ),
                    );
                    proof {
                        assert(cmds@ =~= before + action_emits::<T::Group>(
                            self.actions@,
                            pos as int,
                        ));
                    }
                    pause_for = Some(*duration_ms);
                }
            }
            pos = pos + 1;
        }
        self.actions_pos = pos;
        let ghost emitted = cmds@;
        match pause_for {
            Some(duration_ms) => {
                self.pause_end_ms = if now_ms <= u64::MAX - duration_ms {
                    now_ms + duration_ms
                } else {
                    u64::MAX
                };
                self.phase = Phase::Pausing;
                cmds.push(Command::CheckTime);
            }
            None => {
                proof {
                    assert(emitted + action_emits::<T::Group>(self.actions@, pos as int)
                        =~= emitted);
                }
                self.phase = Phase::RequestInput;
                cmds.push(Command::FetchInput);
            }
        }
        proof {
            assert(cmds@.drop_last() =~= emitted);
        }
        cmds
    }

    /// Receives a polled input document at wall-clock time `now_ms`.
    ///
    /// The predictive preview is rewritten exactly when the fresh document
    /// differs by value from the last one observed (and unconditionally on
    /// the initial poll). In the generation phase the machine announces
    /// which increment is prepared, asks the generator to draw it, and
    /// applies the answer through [`Self::on_increment`], whose contract
    /// pins what each kind of answer does: a Drawing moves on to
    /// publication, Skip advances the index by one and asks for input
    /// again with no artifact and no delay, and Terminal moves on to
    /// cleanup.
    pub fn on_input(&mut self, input: Input, now_ms: u64) -> (cmds: Vec<Command<T::Group>>)
        requires
            old(self).wf(),
            old(self).awaits_input(),
            now_ms >= old(self).clock_ms,
            old(self).index < usize::MAX,
        ensures
            final(self).wf(),
            final(self).delay_ms == old(self).delay_ms,
            final(self).clock_ms == now_ms,
            final(self).last_seen() == Some(input@),
            final(self).slots@ == old(self).slots@,
            has_predictive(cmds@) <==> (old(self).phase is FirstInput || old(self).last_seen()
                != Some(input@)),
            // a due preview is exactly one write, first, of a completed
            // run from the current index, announced at once
            (old(self).phase is FirstInput || old(self).last_seen() != Some(input@)) ==> {
                &&& cmds@.len() >= 2
                &&& (cmds@[0] matches Command::WritePredictive(g) && (exists|
                    plog: Seq<SimStep<T::Group>>,
                    cap: Option<usize>,
                |
                    g@ == drawn_concat(plog) && #[trigger] preview_run(
                        plog,
                        old(self).index as int,
                        cap,
                    )))
                &&& cmds@[1] == Command::<T::Group>::Emit(PlotUpdateAction::PlotPredictiveWritten)
            },
            forall|k: int| 1 <= k < cmds@.len() ==> !((#[trigger] cmds@[k]) is WritePredictive),
            !(old(self).phase is RequestInput) ==> final(self).draws@ == old(self).draws@ && final(self).index
                == old(self).index,
            old(self).phase is RequestInput ==> {
                &&& final(self).draws@.len() == old(self).draws@.len() + 1
                &&& final(self).draws@.drop_last() == old(self).draws@
                &&& final(self).draws@.last().index == old(self).index as int
                &&& final(self).draws@.last().time == now_ms as int
                &&& (final(self).draws@.last().kind is Drawn <==> final(self).phase is PublishMeta)
                &&& (final(self).draws@.last().kind is Skipped <==> final(self).phase is RequestInput)
                &&& (final(self).draws@.last().kind is Ended <==> final(self).phase is CleanupMeta)
                &&& (final(self).phase is RequestInput ==> final(self).index == old(self).index + 1)
                &&& (!(final(self).phase is RequestInput) ==> final(self).index == old(self).index)
            },
            old(self).phase is FirstInput ==> final(self).phase is Pausing || final(self).phase is RequestInput,
            // the initial poll runs the first index's pre-increment
            // actions right after the preview pair
            old(self).phase is FirstInput ==> cmds@.len() >= 3 && final(self).action_scan_post(
                final(self).actions@,
                0,
                now_ms as int,
                cmds@.subrange(2, cmds@.len() - 1),
            ),
            // the generation poll announces which increment is prepared
            old(self).phase is RequestInput ==> cmds@.len() >= 2 && (cmds@[cmds@.len()
                - 2] matches Command::Emit(a) && (a matches PlotUpdateAction::PlotIncrPrepare(
                i,
                _total,
            ) && i == old(self).index)),
            old(self).phase is PausingInput ==> final(self).phase is Pausing && final(self).actions
                == old(self).actions && final(self).actions_pos == old(self).actions_pos && final(self).pause_end_ms
                == old(self).pause_end_ms,
            old(self).phase is ConsumptionInput ==> final(self).phase is AwaitConsumption,
            old(self).phase is DelayInput ==> final(self).phase is AwaitDelay,
            // the machine always asks its next question, so the driver
            // never stalls
            cmds@.len() > 0,
            final(self).phase is RequestInput ==> cmds@.last() is FetchInput,
            final(self).phase is Pausing ==> cmds@.last() is CheckTime,
            final(self).phase is AwaitConsumption ==> cmds@.last() is CheckCurrent,
            final(self).phase is AwaitDelay ==> cmds@.last() is CheckTime,
            final(self).phase is PublishMeta || final(self).phase is CleanupMeta ==> cmds@.last()
                is ReadFinished,
    {
        self.clock_ms = now_ms;
        let mut cmds: Vec<Command<T::Group>> = Vec::new();
        let first = match self.phase {
            Phase::FirstInput => true,
            _ => false,
        };
        let changed = match &self.last_input {
            Some(prev) => !prev.same_as(&input),
            None => true,
        };
        if first || changed {
            let cap = self.art.get_predictive_max_next_increments();
            let (preview, log) = generate_svg_all(&self.art, &input, self.index, cap);
            proof {
                assert(preview_run(log@, self.index as int, cap));
            }
            cmds.push(Command::WritePredictive(preview));
            cmds.push(Command::Emit(PlotUpdateAction::PlotPredictiveWritten));
        }
        match self.phase {
            Phase::FirstInput => {
                self.last_input = Some(input);
                let mut more = self.enter_pre_action(now_ms);
                let ghost scanned = more@.drop_last();
                cmds.append(&mut more);
                proof {
                    assert(cmds@.subrange(2, cmds@.len() - 1) =~= scanned);
                }
            }
            Phase::PausingInput => {
                self.last_input = Some(input);
                cmds.push(Command::Sleep(POLL_QUANTUM_MS));
                cmds.push(Command::CheckTime);
                self.phase = Phase::Pausing;
            }
            Phase::ConsumptionInput => {
                self.last_input = Some(input);
                cmds.push(Command::Sleep(POLL_QUANTUM_MS));
                cmds.push(Command::CheckCurrent);
                self.phase = Phase::AwaitConsumption;
            }
            Phase::DelayInput => {
                self.last_input = Some(input);
                cmds.push(Command::Sleep(POLL_QUANTUM_MS));
                cmds.push(Command::CheckTime);
                self.phase = Phase::AwaitDelay;
            }
            Phase::RequestInput => {
                self.last_input = Some(input.clone());
                let total = self.art.estimate_total_increments();
                cmds.push(Command::Emit(PlotUpdateAction::PlotIncrPrepare(self.index, total)));
                let inc = self.art.draw_increment(&input, self.index);
                let mut more = self.on_increment(inc, now_ms);
                cmds.append(&mut more);
                proof {
                    assert(self.draws@.drop_last() =~= old(self).draws@);
                }
            }
            _ => {
                proof {
                    assert(false);
                }
            }
        }
        proof {
            if old(self).phase is FirstInput || old(self).last_seen() != Some(input@) {
                assert(cmds@[0] is WritePredictive);
                assert(forall|k: int|
                    1 <= k < cmds@.len() ==> !((#[trigger] cmds@[k]) is WritePredictive));
            } else {
                assert(forall|k: int|
                    0 <= k < cmds@.len() ==> !((#[trigger] cmds@[k]) is WritePredictive));
            }
        }
        cmds
    }

    /// Applies the generator's answer for the current index, observed at
    /// wall-clock time `now_ms`: the log gains exactly the record of this
    /// answer — its index, time, kind and drawn groups — and the machine
    /// moves to publication (a Drawing, whose groups are held for the
    /// publish step), back to requesting input with the index advanced by
    /// one (Skip), or to cleanup (Terminal).
    pub fn on_increment(&mut self, inc: ArtIncrement<T::Group>, now_ms: u64) -> (cmds: Vec<
        Command<T::Group>,
    >)
        requires
            old(self).wf(),
            old(self).phase is RequestInput,
            now_ms == old(self).clock_ms,
            old(self).index < usize::MAX,
        ensures
            final(self).wf(),
            final(self).slots@ == old(self).slots@,
            final(self).delay_ms == old(self).delay_ms,
            final(self).clock_ms == old(self).clock_ms,
            final(self).last_seen() == old(self).last_seen(),
            final(self).draws@ == old(self).draws@.push(
                DrawRec {
                    index: old(self).index as int,
                    time: now_ms as int,
                    kind: draw_kind_of(inc),
                    groups: draw_groups_of(inc),
                },
            ),
            inc is SVG ==> final(self).phase is PublishMeta && final(self).index == old(self).index
                && final(self).gen_start_ms == now_ms && cmds@.len() == 1 && cmds@[0]
                is ReadFinished,
            inc is Continue ==> final(self).phase is RequestInput
                && final(self).index == old(self).index + 1 && cmds@.len() == 1 && cmds@[0]
                is FetchInput,
            inc is End ==> final(self).phase is CleanupMeta && final(self).index == old(self).index
                && cmds@.len() == 1 && cmds@[0] is ReadFinished,
    {
        let mut cmds: Vec<Command<T::Group>> = Vec::new();
        match inc {
            ArtIncrement::SVG(parts) => {
                self.draws = Ghost(
                    self.draws@.push(
                        DrawRec {
                            index: self.index as int,
                            time: now_ms as int,
                            kind: DrawKind::Drawn,
                            groups: parts@,
                        },
                    ),
                );
                proof {
                    assert(self.draws@.drop_last() =~= old(self).draws@);
                }
                self.pending_groups = Some(parts);
                self.gen_start_ms = now_ms;
                self.phase = Phase::PublishMeta;
                cmds.push(Command::ReadFinished);
            }
            ArtIncrement::Continue => {
                self.draws = Ghost(
                    self.draws@.push(
                        DrawRec {
                            index: self.index as int,
                            time: now_ms as int,
                            kind: DrawKind::Skipped,
                            groups: Seq::empty(),
                        },
                    ),
                );
                proof {
                    assert(self.draws@.drop_last() =~= old(self).draws@);
                }
                self.index = self.index + 1;
                self.phase = Phase::RequestInput;
                cmds.push(Command::FetchInput);
            }
            ArtIncrement::End => {
                self.draws = Ghost(
                    self.draws@.push(
                        DrawRec {
                            index: self.index as int,
                            time: now_ms as int,
                            kind: DrawKind::Ended,
                            groups: Seq::empty(),
                        },
                    ),
                );
                proof {
                    assert(self.draws@.drop_last() =~= old(self).draws@);
                }
                self.phase = Phase::CleanupMeta;
                cmds.push(Command::ReadFinished);
            }
        }
        cmds
    }

    /// Receives the metadata of the finished artifact, or nothing if the
    /// consumer left none.
    ///
    /// After a Drawing this publishes the generated groups with the
    /// carried metadata reset for a fresh artifact, announces the
    /// increment, and begins the consumption wait. After Terminal this
    /// writes the home-reset artifact exactly when leftover metadata
    /// exists, announces the stop, and finishes the run.
    pub fn on_finished(&mut self, finished: Option<PenTravelMetadata>) -> (cmds: Vec<
        Command<T::Group>,
    >)
        requires
            old(self).wf(),
            old(self).phase is PublishMeta || old(self).phase is CleanupMeta,
        ensures
            final(self).wf(),
            final(self).draws@ == old(self).draws@,
            final(self).index == old(self).index,
            final(self).delay_ms == old(self).delay_ms,
            final(self).clock_ms == old(self).clock_ms,
            final(self).last_seen() == old(self).last_seen(),
            old(self).phase is PublishMeta ==> {
                &&& final(self).phase is AwaitConsumption
                &&& final(self).slots@ == old(self).slots@.push(SlotEv::Published(old(self).index as int))
                &&& cmds@.len() == 3
                &&& (cmds@[0] matches Command::Publish { groups, plotdata } ==> groups@
                    == final(self).draws@.last().groups && (plotdata is Some <==> finished is Some))
                // the published metadata is the carried one with the
                // travel and pause fields reset
                &&& (finished matches Some(m) ==> (cmds@[0] matches Command::Publish {
                    groups: _g,
                    plotdata,
                } && (plotdata matches Some(p) && fresh_plotdata_of(m@, p@))))
                &&& cmds@[0] is Publish
                &&& cmds@[1] == Command::<T::Group>::Emit(
                    PlotUpdateAction::PlotIncrStart(old(self).index),
                )
                &&& cmds@[2] is CheckCurrent
            },
            old(self).phase is CleanupMeta ==> {
                &&& final(self).phase is Done
                &&& final(self).slots@ == old(self).slots@
                &&& (finished is Some ==> cmds@.len() == 2 && cmds@[0] is WriteHome && cmds@[1]
                    == Command::<T::Group>::Emit(PlotUpdateAction::PlotArtStop))
                // the home artifact carries the reset metadata too
                &&& (finished matches Some(m) ==> (cmds@[0] matches Command::WriteHome(p)
                    && fresh_plotdata_of(m@, p@)))
                &&& (finished is None ==> cmds@.len() == 1 && cmds@[0] == Command::<
                    T::Group,
                >::Emit(PlotUpdateAction::PlotArtStop))
            },
    {
        let mut cmds: Vec<Command<T::Group>> = Vec::new();
        match self.phase {
            Phase::PublishMeta => {
                let plotdata = match finished {
                    Some(m) => Some(plot_make_new_plotdata(&m)),
                    None => None,
                };
                let groups = match self.pending_groups.take() {
                    Some(g) => g,
                    None => {
                        proof {
                            assert(false);
                        }
                        Vec::new()
                    }
                };
                cmds.push(Command::Publish { groups, plotdata });
                cmds.push(Command::Emit(PlotUpdateAction::PlotIncrStart(self.index)));
                cmds.push(Command::CheckCurrent);
                self.slots = Ghost(self.slots@.push(SlotEv::Published(self.index as int)));
                self.phase = Phase::AwaitConsumption;
            }
            Phase::CleanupMeta => {
                match finished {
                    Some(m) => {
                        cmds.push(Command::WriteHome(plot_make_new_plotdata(&m)));
                    }
                    None => {}
                }
                cmds.push(Command::Emit(PlotUpdateAction::PlotArtStop));
                self.phase = Phase::Done;
            }
            _ => {
                proof {
                    assert(false);
                }
            }
        }
        cmds
    }

    /// Receives the existence check of the current artifact.
    ///
    /// While the artifact is still on disk the machine keeps polling;
    /// its disappearance is the consumption acknowledgement, after which
    /// the minimum-delay wait begins.
    pub fn on_current_checked(&mut self, present: bool) -> (cmds: Vec<Command<T::Group>>)
        requires
            old(self).wf(),
            old(self).phase is AwaitConsumption,
        ensures
            final(self).wf(),
            final(self).draws@ == old(self).draws@,
            final(self).index == old(self).index,
            final(self).delay_ms == old(self).delay_ms,
            final(self).clock_ms == old(self).clock_ms,
            final(self).last_seen() == old(self).last_seen(),
            present ==> {
                &&& final(self).phase is ConsumptionInput
                &&& final(self).slots@ == old(self).slots@
                &&& cmds@.len() == 1
                &&& cmds@[0] is FetchInput
            },
            !present ==> {
                &&& final(self).phase is AwaitDelay
                &&& final(self).slots@ == old(self).slots@.push(SlotEv::Acked(old(self).index as int))
                &&& cmds@.len() == 2
                &&& cmds@[0] == Command::<T::Group>::Emit(
                    PlotUpdateAction::PlotIncrEnd(old(self).index),
                )
                &&& cmds@[1] is CheckTime
            },
    {
        let mut cmds: Vec<Command<T::Group>> = Vec::new();
        if present {
            cmds.push(Command::FetchInput);
            self.phase = Phase::ConsumptionInput;
        } else {
            self.slots = Ghost(self.slots@.push(SlotEv::Acked(self.index as int)));
            cmds.push(Command::Emit(PlotUpdateAction::PlotIncrEnd(self.index)));
            cmds.push(Command::CheckTime);
            self.phase = Phase::AwaitDelay;
        }
        cmds
    }

    /// Receives the wall clock during a pause or the minimum-delay wait.
    ///
    /// A pause ends once the clock passes its deadline; the delay wait
    /// ends once at least the minimum delay has elapsed since generation
    /// began, and only then does the index advance to the next increment.
    pub fn on_time(&mut self, now_ms: u64) -> (cmds: Vec<Command<T::Group>>)
        requires
            old(self).wf(),
            old(self).phase is Pausing || old(self).phase is AwaitDelay,
            now_ms >= old(self).clock_ms,
            old(self).index < usize::MAX,
        ensures
            final(self).wf(),
            final(self).draws@ == old(self).draws@,
            final(self).slots@ == old(self).slots@,
            final(self).delay_ms == old(self).delay_ms,
            final(self).clock_ms == now_ms,
            final(self).last_seen() == old(self).last_seen(),
            old(self).phase is Pausing ==> {
                &&& final(self).index == old(self).index
                &&& (now_ms <= old(self).pause_end_ms ==> final(self).phase is PausingInput && cmds@.len()
                    == 1 && cmds@[0] is FetchInput && final(self).actions == old(self).actions
                    && final(self).actions_pos == old(self).actions_pos && final(self).pause_end_ms
                    == old(self).pause_end_ms)
                // past the deadline the scan resumes where it stopped
                &&& (now_ms > old(self).pause_end_ms ==> (final(self).phase is Pausing
                    || final(self).phase is RequestInput) && final(self).actions == old(self).actions
                    && final(self).action_scan_post(
                    old(self).actions@,
                    old(self).actions_pos as int,
                    now_ms as int,
                    cmds@.drop_last(),
                ))
            },
            old(self).phase is AwaitDelay ==> {
                &&& (now_ms < old(self).gen_start_ms + old(self).delay_ms ==> final(self).phase
                    is DelayInput && final(self).index == old(self).index && cmds@.len() == 1 && cmds@[0]
                    is FetchInput)
                // once the delay has elapsed, the next index's fresh
                // action list is scanned from its start
                &&& (now_ms >= old(self).gen_start_ms + old(self).delay_ms ==> (final(self).phase
                    is Pausing || final(self).phase is RequestInput) && final(self).index
                    == old(self).index + 1 && final(self).action_scan_post(
                    final(self).actions@,
                    0,
                    now_ms as int,
                    cmds@.drop_last(),
                ))
            },
            // the machine always asks its next question, so the driver
            // never stalls
            cmds@.len() > 0,
            final(self).phase is RequestInput ==> cmds@.last() is FetchInput,
            final(self).phase is Pausing ==> cmds@.last() is CheckTime,
            final(self).phase is PausingInput ==> cmds@.last() is FetchInput,
            final(self).phase is DelayInput ==> cmds@.last() is FetchInput,
    {
        self.clock_ms = now_ms;
        match self.phase {
            Phase::Pausing => {
                if now_ms > self.pause_end_ms {
                    self.advance_actions(now_ms)
                } else {
                    self.phase = Phase::PausingInput;
                    let mut cmds: Vec<Command<T::Group>> = Vec::new();
                    cmds.push(Command::FetchInput);
                    cmds
                }
            }
            Phase::AwaitDelay => {
                if now_ms - self.gen_start_ms >= self.delay_ms {
                    self.index = self.index + 1;
                    self.enter_pre_action(now_ms)
                } else {
                    self.phase = Phase::DelayInput;
                    let mut cmds: Vec<Command<T::Group>> = Vec::new();
                    cmds.push(Command::FetchInput);
                    cmds
                }
            }
            _ => {
                proof {
                    assert(false);
                }
                Vec::new()
            }
        }
    }
}

} // verus!
