//! The launch sequence of the sidecar as a state machine.
//!
//! The machine decides; the caller acts. Each call of `Supervisor::step`
//! takes the outcome of the last action (a port was allocated, a probe
//! answered, the clock was read) and returns the next action to perform.
//! The transition function `next` defines the machine, and the lemmas of
//! this module are proved of it.
use vstd::prelude::*;

verus! {

/// The skills port that is used when nothing stands against it.
pub const DEFAULT_SKILLS_PORT: u32 = 4097;

/// How long, in nanoseconds since the spawn, the sidecar may stay
/// unreachable: seven seconds.
pub const READINESS_TIMEOUT_NANOS: u128 = 7_000_000_000;

/// The pause before each readiness probe, in milliseconds.
pub const POLL_INTERVAL_MILLIS: u64 = 10;

/// The pause between the first successful probe and readiness, in
/// milliseconds.
pub const GRACE_DELAY_MILLIS: u64 = 10;

/// The status with which the application exits after a failed launch.
pub const FAILURE_EXIT_CODE: i32 = 1;

/// The states of a launch.
#[derive(Clone, Copy, Debug, PartialEq, Eq, Structural)]
pub enum Stage {
    Idle,
    Resolving,
    Spawning,
    AlreadySatisfied,
    AwaitingReadiness,
    Ready,
    FailedTimeout,
    Terminated,
}

/// Where exactly the machine stands: the stage, and within it the answer
/// that is awaited.
#[derive(Clone, Copy, Debug, PartialEq, Eq, Structural)]
pub enum Phase {
    /// Nothing has happened yet.
    Idle,
    /// An ephemeral port for the primary service was asked for.
    AwaitingPrimaryPort,
    /// A probe of the primary port was asked for, before any spawn.
    ProbingPrimary,
    /// A probe of the default skills port was asked for.
    ProbingDefaultSkills,
    /// An ephemeral port for the skills service was asked for.
    AwaitingSkillsPort,
    /// The spawn was asked for.
    Spawning,
    /// The time since the spawn was asked for.
    CheckingClock,
    /// The pause before a probe was asked for.
    Pausing,
    /// A probe of the spawned sidecar was asked for.
    ProbingReadiness,
    /// The sidecar answered; the grace delay was asked for.
    Warming,
    /// The sidecar that was spawned is reachable.
    Ready,
    /// No spawn was needed.
    AlreadySatisfied,
    /// The wait ran out; the user's choice was asked for.
    TimedOut,
    /// The user chose to copy the logs; the copy was asked for.
    CopyingLogs,
    /// The launch failed and the exit was asked for.
    Failed,
    /// The application is exiting.
    Terminated,
}

/// What the user chose after a failed launch.
#[derive(Clone, Copy, Debug, PartialEq, Eq, Structural)]
pub enum RecoveryChoice {
    CopyLogsAndExit,
    Exit,
}

/// What the launch was configured with, before any port is chosen.
#[derive(Clone, Copy, Debug, PartialEq, Eq, Structural)]
pub struct LaunchPlan {
    /// A base URL was given: the primary service lives elsewhere and no
    /// local process is wanted.
    pub external_base: bool,
    /// The primary port that was fixed at build time or given at run time.
    pub configured_port: Option<u32>,
    /// The skills port that was given, which is then used as it is.
    pub skills_port_override: Option<u32>,
}

/// The outcome of the action that the machine asked for last.
#[derive(Clone, Copy, Debug, PartialEq, Eq, Structural)]
pub enum Event {
    /// The application starts.
    Start(LaunchPlan),
    /// The system handed out a free port.
    PortAllocated(u32),
    /// A probe was made; `true` when something accepted the connection.
    Probed(bool),
    /// The child process was launched.
    Spawned,
    /// The clock was read, this long after the spawn.
    Clock { elapsed_nanos: u128 },
    /// A pause is over.
    Slept,
    /// The user answered the recovery dialog.
    RecoveryChosen(RecoveryChoice),
    /// The attempt to copy the logs is over, whatever came of it.
    LogsCopied,
    /// The application is exiting.
    ExitRequested,
}

/// What the caller is to do next.
#[derive(Clone, Copy, Debug, PartialEq, Eq, Structural)]
pub enum Action {
    /// Obtain a free port and answer with `Event::PortAllocated`.
    AllocatePort,
    /// Probe the port on the loopback address and answer with
    /// `Event::Probed`.
    Probe { port: u32 },
    /// Launch the child process and answer with `Event::Spawned`.
    Spawn { port: u32, skills_port: u32 },
    /// Read the time since the spawn and answer with `Event::Clock`.
    ReadClock,
    /// Pause and answer with `Event::Slept`.
    Sleep { millis: u64 },
    /// Hand the resolved ports on; `owns_child` says whether a child
    /// process was launched and is to be kept for the kill command.
    Publish { primary_port: Option<u32>, skills_port: u32, owns_child: bool },
    /// Offer the recovery choice and answer with `Event::RecoveryChosen`.
    AskRecovery,
    /// Copy the collected logs and answer with `Event::LogsCopied`.
    CopyLogs,
    /// Exit the application with this status.
    Exit { code: i32 },
    /// Terminate the child process that is kept, if there is one.
    Terminate,
    /// The event does not belong to the phase: do nothing.
    Ignore,
}

/// The machine's state as plain values.
pub struct SupervisorState {
    pub phase: Phase,
    pub primary_port: Option<u32>,
    pub skills_port: u32,
    pub skills_port_override: Option<u32>,
    pub owns_child: bool,
}

/// A state and the action that led to it.
pub struct Transition {
    pub state: SupervisorState,
    pub action: Action,
}

/// The stage that a phase belongs to.
pub open spec fn stage_of(phase: Phase) -> Stage {
    match phase {
        Phase::Idle => Stage::Idle,
        Phase::AwaitingPrimaryPort => Stage::Resolving,
        Phase::ProbingPrimary => Stage::Resolving,
        Phase::ProbingDefaultSkills => Stage::Resolving,
        Phase::AwaitingSkillsPort => Stage::Resolving,
        Phase::Spawning => Stage::Spawning,
        Phase::CheckingClock => Stage::AwaitingReadiness,
        Phase::Pausing => Stage::AwaitingReadiness,
        Phase::ProbingReadiness => Stage::AwaitingReadiness,
        Phase::Warming => Stage::AwaitingReadiness,
        Phase::Ready => Stage::Ready,
        Phase::AlreadySatisfied => Stage::AlreadySatisfied,
        Phase::TimedOut => Stage::FailedTimeout,
        Phase::CopyingLogs => Stage::FailedTimeout,
        Phase::Failed => Stage::FailedTimeout,
        Phase::Terminated => Stage::Terminated,
    }
}

/// The state before anything has happened.
pub open spec fn initial_state() -> SupervisorState {
    SupervisorState {
        phase: Phase::Idle,
        primary_port: None,
        skills_port: DEFAULT_SKILLS_PORT,
        skills_port_override: None,
        owns_child: false,
    }
}

/// The skills port where no spawn takes place: the override, else the
/// default.
pub open spec fn unspawned_skills_port(skills_port_override: Option<u32>) -> u32 {
    match skills_port_override {
        Some(port) => port,
        None => DEFAULT_SKILLS_PORT,
    }
}

/// `s` in another phase.
pub open spec fn in_phase(s: SupervisorState, phase: Phase) -> SupervisorState {
    SupervisorState { phase: phase, ..s }
}

/// The state in which the ports are settled and the spawn is asked for.
pub open spec fn spawning(s: SupervisorState, skills_port: u32) -> Transition {
    Transition {
        state: SupervisorState { phase: Phase::Spawning, skills_port: skills_port, ..s },
        action: Action::Spawn { port: s.primary_port.unwrap(), skills_port: skills_port },
    }
}

/// The state in which the primary service is taken as given.
pub open spec fn satisfied(s: SupervisorState) -> Transition {
    let skills_port = unspawned_skills_port(s.skills_port_override);
    Transition {
        state: SupervisorState { phase: Phase::AlreadySatisfied, skills_port: skills_port, ..s },
        action: Action::Publish {
            primary_port: s.primary_port,
            skills_port: skills_port,
            owns_child: false,
        },
    }
}

/// `s` left as it is, the event ignored.
pub open spec fn ignored(s: SupervisorState) -> Transition {
    Transition { state: s, action: Action::Ignore }
}

/// What the start of the application leads to.
pub open spec fn started(plan: LaunchPlan) -> Transition {
    let s = SupervisorState {
        skills_port_override: plan.skills_port_override,
        ..initial_state()
    };
    if plan.external_base {
        satisfied(s)
    } else {
        match plan.configured_port {
            Some(port) => Transition {
                state: SupervisorState {
                    phase: Phase::ProbingPrimary,
                    primary_port: Some(port),
                    ..s
                },
                action: Action::Probe { port: port },
            },
            None => Transition {
                state: in_phase(s, Phase::AwaitingPrimaryPort),
                action: Action::AllocatePort,
            },
        }
    }
}

/// The transition function: the state that `event` leads to from `s`, and
/// the action to perform. An event that the phase does not await changes
/// nothing; the exit of the application is heeded in every phase.
pub open spec fn next(s: SupervisorState, event: Event) -> Transition {
    match (s.phase, event) {
        (Phase::Terminated, _) => ignored(s),
        (_, Event::ExitRequested) => Transition {
            state: in_phase(s, Phase::Terminated),
            action: Action::Terminate,
        },
        (Phase::Idle, Event::Start(plan)) => started(plan),
        (Phase::AwaitingPrimaryPort, Event::PortAllocated(port)) => Transition {
            state: SupervisorState { phase: Phase::ProbingPrimary, primary_port: Some(port), ..s },
            action: Action::Probe { port: port },
        },
        (Phase::ProbingPrimary, Event::Probed(true)) => satisfied(s),
        (Phase::ProbingPrimary, Event::Probed(false)) => match s.skills_port_override {
            Some(port) => spawning(s, port),
            None => if s.primary_port == Some(DEFAULT_SKILLS_PORT) {
                Transition {
                    state: in_phase(s, Phase::AwaitingSkillsPort),
                    action: Action::AllocatePort,
                }
            } else {
                Transition {
                    state: in_phase(s, Phase::ProbingDefaultSkills),
                    action: Action::Probe { port: DEFAULT_SKILLS_PORT },
                }
            },
        },
        (Phase::ProbingDefaultSkills, Event::Probed(true)) => Transition {
            state: in_phase(s, Phase::AwaitingSkillsPort),
            action: Action::AllocatePort,
        },
        (Phase::ProbingDefaultSkills, Event::Probed(false)) => spawning(s, DEFAULT_SKILLS_PORT),
        (Phase::AwaitingSkillsPort, Event::PortAllocated(port)) => if Some(port)
            == s.primary_port {
            Transition { state: s, action: Action::AllocatePort }
        } else {
            spawning(s, port)
        },
        (Phase::Spawning, Event::Spawned) => Transition {
            state: SupervisorState { phase: Phase::CheckingClock, owns_child: true, ..s },
            action: Action::ReadClock,
        },
        (Phase::CheckingClock, Event::Clock { elapsed_nanos }) => if elapsed_nanos
            > READINESS_TIMEOUT_NANOS {
            Transition { state: in_phase(s, Phase::TimedOut), action: Action::AskRecovery }
        } else {
            Transition {
                state: in_phase(s, Phase::Pausing),
                action: Action::Sleep { millis: POLL_INTERVAL_MILLIS },
            }
        },
        (Phase::Pausing, Event::Slept) => Transition {
            state: in_phase(s, Phase::ProbingReadiness),
            action: Action::Probe { port: s.primary_port.unwrap() },
        },
        (Phase::ProbingReadiness, Event::Probed(true)) => Transition {
            state: in_phase(s, Phase::Warming),
            action: Action::Sleep { millis: GRACE_DELAY_MILLIS },
        },
        (Phase::ProbingReadiness, Event::Probed(false)) => Transition {
            state: in_phase(s, Phase::CheckingClock),
            action: Action::ReadClock,
        },
        (Phase::Warming, Event::Slept) => Transition {
            state: in_phase(s, Phase::Ready),
            action: Action::Publish {
                primary_port: s.primary_port,
                skills_port: s.skills_port,
                owns_child: true,
            },
        },
        (Phase::TimedOut, Event::RecoveryChosen(RecoveryChoice::CopyLogsAndExit)) => Transition {
            state: in_phase(s, Phase::CopyingLogs),
            action: Action::CopyLogs,
        },
        (Phase::TimedOut, Event::RecoveryChosen(RecoveryChoice::Exit)) => Transition {
            state: in_phase(s, Phase::Failed),
            action: Action::Exit { code: FAILURE_EXIT_CODE },
        },
        (Phase::CopyingLogs, Event::LogsCopied) => Transition {
            state: in_phase(s, Phase::Failed),
            action: Action::Exit { code: FAILURE_EXIT_CODE },
        },
        _ => ignored(s),
    }
}

/// What holds of every state that a launch can reach: a primary port is
/// known wherever one is used, a child process is owned exactly in the
/// phases that follow a spawn, and a skills port that was chosen here
/// differs from the primary port.
pub open spec fn consistent(s: SupervisorState) -> bool {
    &&& match s.phase {
        Phase::Idle => !s.owns_child && s.primary_port is None,
        Phase::AwaitingPrimaryPort => !s.owns_child && s.primary_port is None,
        Phase::ProbingPrimary => !s.owns_child && s.primary_port is Some,
        Phase::ProbingDefaultSkills => {
            &&& !s.owns_child
            &&& s.primary_port is Some
            &&& s.primary_port != Some(DEFAULT_SKILLS_PORT)
            &&& s.skills_port_override is None
        },
        Phase::AwaitingSkillsPort => {
            &&& !s.owns_child
            &&& s.primary_port is Some
            &&& s.skills_port_override is None
        },
        Phase::Spawning => !s.owns_child && s.primary_port is Some && ports_apart(s),
        Phase::CheckingClock => s.owns_child && s.primary_port is Some && ports_apart(s),
        Phase::Pausing => s.owns_child && s.primary_port is Some && ports_apart(s),
        Phase::ProbingReadiness => s.owns_child && s.primary_port is Some && ports_apart(s),
        Phase::Warming => s.owns_child && s.primary_port is Some && ports_apart(s),
        Phase::Ready => s.owns_child && s.primary_port is Some && ports_apart(s),
        Phase::AlreadySatisfied => !s.owns_child,
        Phase::TimedOut => s.owns_child && s.primary_port is Some && ports_apart(s),
        Phase::CopyingLogs => s.owns_child && s.primary_port is Some && ports_apart(s),
        Phase::Failed => s.owns_child && s.primary_port is Some && ports_apart(s),
        Phase::Terminated => true,
    }
}

/// The skills port is the override, or it differs from the primary port.
pub open spec fn ports_apart(s: SupervisorState) -> bool {
    match s.skills_port_override {
        Some(port) => s.skills_port == port,
        None => s.primary_port != Some(s.skills_port),
    }
}

/// The state that a run of events leads to.
pub open spec fn run(s: SupervisorState, events: Seq<Event>) -> SupervisorState
    decreases events.len(),
{
    if events.len() == 0 {
        s
    } else {
        next(run(s, events.drop_last()), events.last()).state
    }
}

/// The actions that a run of events asks for, one for each event.
pub open spec fn actions(s: SupervisorState, events: Seq<Event>) -> Seq<Action>
    decreases events.len(),
{
    if events.len() == 0 {
        Seq::empty()
    } else {
        actions(s, events.drop_last()).push(
            next(run(s, events.drop_last()), events.last()).action,
        )
    }
}

/// One round of an unanswered wait: the clock is read, the pause is
/// taken, the probe fails.
pub open spec fn unanswered_round(elapsed_nanos: u128) -> Seq<Event> {
    seq![Event::Clock { elapsed_nanos: elapsed_nanos }, Event::Slept, Event::Probed(false)]
}

/// The rounds of an unanswered wait, one for each clock reading.
pub open spec fn unanswered_rounds(readings: Seq<u128>) -> Seq<Event>
    decreases readings.len(),
{
    if readings.len() == 0 {
        Seq::empty()
    } else {
        unanswered_rounds(readings.drop_last()) + unanswered_round(readings.last())
    }
}

/// Every transition keeps the state consistent.
pub proof fn lemma_next_consistent(s: SupervisorState, event: Event)
    requires
        consistent(s),
    ensures
        consistent(next(s, event).state),
{
}

/// Every run from a consistent state ends in a consistent state.
pub proof fn lemma_run_consistent(s: SupervisorState, events: Seq<Event>)
    requires
        consistent(s),
    ensures
        consistent(run(s, events)),
    decreases events.len(),
{
    if events.len() > 0 {
        lemma_run_consistent(s, events.drop_last());
        lemma_next_consistent(run(s, events.drop_last()), events.last());
    }
}

/// A run in two parts is the run of the second part from where the first
/// one ended.
pub proof fn lemma_run_concat(s: SupervisorState, first: Seq<Event>, second: Seq<Event>)
    ensures
        run(s, first + second) == run(run(s, first), second),
    decreases second.len(),
{
    if second.len() == 0 {
        assert(first + second == first);
    } else {
        lemma_run_concat(s, first, second.drop_last());
        assert((first + second).drop_last() == first + second.drop_last());
    }
}

/// The ports of a spawn differ whenever the skills port was chosen here:
/// no transition asks for a spawn on two equal ports unless the skills
/// port was given from outside.
pub proof fn lemma_spawn_ports_differ(s: SupervisorState, event: Event)
    requires
        consistent(s),
        next(s, event).action is Spawn,
        next(s, event).state.skills_port_override is None,
    ensures
        next(s, event).action->Spawn_port != next(s, event).action->Spawn_skills_port,
        next(s, event).state.primary_port == Some(next(s, event).action->Spawn_port),
        next(s, event).state.skills_port == next(s, event).action->Spawn_skills_port,
{
}

/// Wherever a child process is owned and the skills port was chosen here,
/// the two ports that are in use differ.
pub proof fn lemma_owned_ports_differ(s: SupervisorState, events: Seq<Event>)
    requires
        consistent(s),
        run(s, events).owns_child,
        run(s, events).skills_port_override is None,
        run(s, events).phase != Phase::Terminated,
    ensures
        run(s, events).primary_port is Some,
        run(s, events).primary_port != Some(run(s, events).skills_port),
{
    lemma_run_consistent(s, events);
}

/// A service that already listens on the primary port settles the launch
/// at once: the state is `AlreadySatisfied`, the ports are handed on, and
/// no child process is owned.
pub proof fn lemma_listening_service_satisfies(s: SupervisorState)
    requires
        consistent(s),
        s.phase == Phase::ProbingPrimary,
    ensures
        next(s, Event::Probed(true)).state.phase == Phase::AlreadySatisfied,
        !next(s, Event::Probed(true)).state.owns_child,
        next(s, Event::Probed(true)).action == (Action::Publish {
            primary_port: s.primary_port,
            skills_port: unspawned_skills_port(s.skills_port_override),
            owns_child: false,
        }),
{
}

/// Once the launch is satisfied without a spawn, nothing that happens
/// later asks for one, and no child process is ever owned.
pub proof fn lemma_satisfied_never_spawns(s: SupervisorState, events: Seq<Event>)
    requires
        consistent(s),
        s.phase == Phase::AlreadySatisfied,
    ensures
        !run(s, events).owns_child,
        run(s, events).phase == Phase::AlreadySatisfied || run(s, events).phase
            == Phase::Terminated,
        forall|i: int| 0 <= i < events.len() ==> !(#[trigger] actions(s, events)[i] is Spawn),
        actions(s, events).len() == events.len(),
    decreases events.len(),
{
    if events.len() > 0 {
        lemma_satisfied_never_spawns(s, events.drop_last());
    }
}

/// A child process is owned only after a spawn was answered: a transition
/// that begins to own one starts in `Spawning` and takes `Spawned`.
pub proof fn lemma_child_only_by_spawn(s: SupervisorState, event: Event)
    requires
        !s.owns_child,
        next(s, event).state.owns_child,
    ensures
        s.phase == Phase::Spawning,
        event == Event::Spawned,
{
}

/// The wait fails exactly when the clock shows more than the timeout: at
/// a reading of seven seconds or less the wait goes on with a pause.
pub proof fn lemma_timeout_threshold(s: SupervisorState, elapsed_nanos: u128)
    requires
        s.phase == Phase::CheckingClock,
    ensures
        elapsed_nanos > READINESS_TIMEOUT_NANOS ==> next(
            s,
            Event::Clock { elapsed_nanos: elapsed_nanos },
        ) == (Transition { state: in_phase(s, Phase::TimedOut), action: Action::AskRecovery }),
        elapsed_nanos <= READINESS_TIMEOUT_NANOS ==> next(
            s,
            Event::Clock { elapsed_nanos: elapsed_nanos },
        ) == (Transition {
            state: in_phase(s, Phase::Pausing),
            action: Action::Sleep { millis: POLL_INTERVAL_MILLIS },
        }),
{
}

/// The launch fails only at a clock reading above the timeout.
pub proof fn lemma_failure_needs_timeout(s: SupervisorState, event: Event)
    requires
        stage_of(s.phase) != Stage::FailedTimeout,
        stage_of(next(s, event).state.phase) == Stage::FailedTimeout,
    ensures
        s.phase == Phase::CheckingClock,
        event is Clock,
        event->elapsed_nanos > READINESS_TIMEOUT_NANOS,
        next(s, event).state.phase == Phase::TimedOut,
{
}

/// A wait that nothing answers goes on as long as the clock shows no
/// more than the timeout: after any number of such rounds the machine
/// reads the clock again, and nothing else has changed.
pub proof fn lemma_unanswered_wait_goes_on(s: SupervisorState, readings: Seq<u128>)
    requires
        s.phase == Phase::CheckingClock,
        forall|i: int| 0 <= i < readings.len() ==> readings[i] <= READINESS_TIMEOUT_NANOS,
    ensures
        run(s, unanswered_rounds(readings)) == s,
    decreases readings.len(),
{
    if readings.len() > 0 {
        let before = unanswered_rounds(readings.drop_last());
        let round = unanswered_round(readings.last());
        lemma_unanswered_wait_goes_on(s, readings.drop_last());
        lemma_run_concat(s, before, round);
        lemma_round(s, readings.last());
    }
}

/// One unanswered round within the timeout leads back to the clock.
proof fn lemma_round(s: SupervisorState, elapsed_nanos: u128)
    requires
        s.phase == Phase::CheckingClock,
        elapsed_nanos <= READINESS_TIMEOUT_NANOS,
    ensures
        run(s, unanswered_round(elapsed_nanos)) == s,
{
    let round = unanswered_round(elapsed_nanos);
    let two = round.drop_last();
    let one = two.drop_last();
    assert(one.drop_last() =~= Seq::<Event>::empty());
    assert(run(s, one.drop_last()) == s);
    assert(one.last() == Event::Clock { elapsed_nanos: elapsed_nanos });
    assert(run(s, one) == in_phase(s, Phase::Pausing));
    assert(two.last() == Event::Slept);
    assert(run(s, two) == in_phase(s, Phase::ProbingReadiness));
    assert(round.last() == Event::Probed(false));
    assert(run(s, round) == in_phase(s, Phase::CheckingClock));
}

/// A wait that nothing answers fails at the first clock reading above the
/// timeout, and not before: after rounds within the timeout, the reading
/// `late` leads to `TimedOut` and asks for the recovery choice.
pub proof fn lemma_unanswered_wait_times_out(
    s: SupervisorState,
    readings: Seq<u128>,
    late: u128,
)
    requires
        s.phase == Phase::CheckingClock,
        forall|i: int| 0 <= i < readings.len() ==> readings[i] <= READINESS_TIMEOUT_NANOS,
        late > READINESS_TIMEOUT_NANOS,
    ensures
        next(run(s, unanswered_rounds(readings)), Event::Clock { elapsed_nanos: late }) == (
        Transition { state: in_phase(s, Phase::TimedOut), action: Action::AskRecovery }),
{
    lemma_unanswered_wait_goes_on(s, readings);
}

/// How late the failure of an unanswered wait can come. The clock is
/// read once in every round; where no reading lies more than `gap` after
/// the one before it (the first no more than `gap` after the spawn), the
/// reading at which the wait fails lies above the timeout by `gap` at
/// most.
pub proof fn lemma_timeout_within_one_gap(readings: Seq<u128>, late: u128, gap: u128)
    requires
        forall|i: int| 0 <= i < readings.len() ==> readings[i] <= READINESS_TIMEOUT_NANOS,
        late > READINESS_TIMEOUT_NANOS,
        readings.len() == 0 ==> late <= gap,
        readings.len() > 0 ==> late <= readings.last() + gap,
    ensures
        READINESS_TIMEOUT_NANOS < late <= READINESS_TIMEOUT_NANOS + gap,
{
}

/// Readiness comes only after the grace delay: the one transition into
/// `Ready` starts in `Warming` and takes the end of a pause, and the one
/// transition into `Warming` is the successful probe, which asks for a
/// pause of the grace delay.
pub proof fn lemma_ready_after_grace(s: SupervisorState, event: Event)
    ensures
        s.phase != Phase::Ready && next(s, event).state.phase == Phase::Ready ==> s.phase
            == Phase::Warming && event == Event::Slept,
        s.phase != Phase::Warming && next(s, event).state.phase == Phase::Warming ==> s.phase
            == Phase::ProbingReadiness && event == Event::Probed(true) && next(s, event).action
            == (Action::Sleep { millis: GRACE_DELAY_MILLIS }),
        s.phase == Phase::ProbingReadiness && event == Event::Probed(true) ==> next(
            s,
            event,
        ).state.phase == Phase::Warming,
{
}

/// The machine that runs one launch.
#[derive(Debug)]
pub struct Supervisor {
    phase: Phase,
    primary_port: Option<u32>,
    skills_port: u32,
    skills_port_override: Option<u32>,
    owns_child: bool,
}

impl View for Supervisor {
    type V = SupervisorState;

    closed spec fn view(&self) -> SupervisorState {
        SupervisorState {
            phase: self.phase,
            primary_port: self.primary_port,
            skills_port: self.skills_port,
            skills_port_override: self.skills_port_override,
            owns_child: self.owns_child,
        }
    }
}

impl Supervisor {
    #[verifier::type_invariant]
    spec fn well_formed(&self) -> bool {
        consistent(self@)
    }

    /// A machine in which nothing has happened yet.
    pub fn new() -> (r: Supervisor)
        ensures
            r@ == initial_state(),
            consistent(r@),
    {
        Supervisor {
            phase: Phase::Idle,
            primary_port: None,
            skills_port: DEFAULT_SKILLS_PORT,
            skills_port_override: None,
            owns_child: false,
        }
    }

    /// The phase that the machine is in.
    pub fn phase(&self) -> (r: Phase)
        ensures
            r == self@.phase,
    {
        self.phase
    }

    /// The stage that the machine is in.
    pub fn stage(&self) -> (r: Stage)
        ensures
            r == stage_of(self@.phase),
    {
        match self.phase {
            Phase::Idle => Stage::Idle,
            Phase::AwaitingPrimaryPort
            | Phase::ProbingPrimary
            | Phase::ProbingDefaultSkills
            | Phase::AwaitingSkillsPort => Stage::Resolving,
            Phase::Spawning => Stage::Spawning,
            Phase::CheckingClock
            | Phase::Pausing
            | Phase::ProbingReadiness
            | Phase::Warming => Stage::AwaitingReadiness,
            Phase::Ready => Stage::Ready,
            Phase::AlreadySatisfied => Stage::AlreadySatisfied,
            Phase::TimedOut | Phase::CopyingLogs | Phase::Failed => Stage::FailedTimeout,
            Phase::Terminated => Stage::Terminated,
        }
    }

    /// The primary port, once it is known; never known where a base URL
    /// was given.
    pub fn primary_port(&self) -> (r: Option<u32>)
        ensures
            r == self@.primary_port,
    {
        self.primary_port
    }

    /// The skills port as it stands.
    pub fn skills_port(&self) -> (r: u32)
        ensures
            r == self@.skills_port,
    {
        self.skills_port
    }

    /// Whether a child process was launched in this run.
    pub fn owns_child(&self) -> (r: bool)
        ensures
            r == self@.owns_child,
    {
        self.owns_child
    }

    /// Takes the outcome of the last action and returns the next one.
    pub fn step(&mut self, event: Event) -> (action: Action)
        ensures
            final(self)@ == next(old(self)@, event).state,
            action == next(old(self)@, event).action,
            consistent(old(self)@),
            consistent(final(self)@),
    {
        proof {
            use_type_invariant(&*self);
            lemma_next_consistent(self@, event);
        }
        let (state, action) = advance(
            self.phase,
            self.primary_port,
            self.skills_port,
            self.skills_port_override,
            self.owns_child,
            event,
        );
        *self = state;
        action
    }
}

/// The transition function on the machine's fields.
fn advance(
    phase: Phase,
    primary_port: Option<u32>,
    skills_port: u32,
    skills_port_override: Option<u32>,
    owns_child: bool,
    event: Event,
) -> (r: (Supervisor, Action))
    requires
        consistent(
            SupervisorState { phase, primary_port, skills_port, skills_port_override, owns_child },
        ),
    ensures
        r.0@ == next(
            SupervisorState { phase, primary_port, skills_port, skills_port_override, owns_child },
            event,
        ).state,
        r.1 == next(
            SupervisorState { phase, primary_port, skills_port, skills_port_override, owns_child },
            event,
        ).action,
{
    proof {
        lemma_next_consistent(
            SupervisorState { phase, primary_port, skills_port, skills_port_override, owns_child },
            event,
        );
    }
    let stay = Supervisor { phase, primary_port, skills_port, skills_port_override, owns_child };
    match (phase, event) {
        (Phase::Terminated, _) => (stay, Action::Ignore),
        (_, Event::ExitRequested) => (
            Supervisor { phase: Phase::Terminated, ..stay },
            Action::Terminate,
        ),
        (Phase::Idle, Event::Start(plan)) => {
            if plan.external_base {
                let port = match plan.skills_port_override {
                    Some(port) => port,
                    None => DEFAULT_SKILLS_PORT,
                };
                (
                    Supervisor {
                        phase: Phase::AlreadySatisfied,
                        primary_port: None,
                        skills_port: port,
                        skills_port_override: plan.skills_port_override,
                        owns_child: false,
                    },
                    Action::Publish { primary_port: None, skills_port: port, owns_child: false },
                )
            } else {
                match plan.configured_port {
                    Some(port) => (
                        Supervisor {
                            phase: Phase::ProbingPrimary,
                            primary_port: Some(port),
                            skills_port: DEFAULT_SKILLS_PORT,
                            skills_port_override: plan.skills_port_override,
                            owns_child: false,
                        },
                        Action::Probe { port },
                    ),
                    None => (
                        Supervisor {
                            phase: Phase::AwaitingPrimaryPort,
                            primary_port: None,
                            skills_port: DEFAULT_SKILLS_PORT,
                            skills_port_override: plan.skills_port_override,
                            owns_child: false,
                        },
                        Action::AllocatePort,
                    ),
                }
            }
        },
        (Phase::AwaitingPrimaryPort, Event::PortAllocated(port)) => (
            Supervisor { phase: Phase::ProbingPrimary, primary_port: Some(port), ..stay },
            Action::Probe { port },
        ),
        (Phase::ProbingPrimary, Event::Probed(true)) => {
            let port = match skills_port_override {
                Some(port) => port,
                None => DEFAULT_SKILLS_PORT,
            };
            (
                Supervisor { phase: Phase::AlreadySatisfied, skills_port: port, ..stay },
                Action::Publish { primary_port, skills_port: port, owns_child: false },
            )
        },
        (Phase::ProbingPrimary, Event::Probed(false)) => {
            let primary = primary_port.unwrap();
            match skills_port_override {
                Some(port) => (
                    Supervisor { phase: Phase::Spawning, skills_port: port, ..stay },
                    Action::Spawn { port: primary, skills_port: port },
                ),
                None => {
                    if primary == DEFAULT_SKILLS_PORT {
                        (
                            Supervisor { phase: Phase::AwaitingSkillsPort, ..stay },
                            Action::AllocatePort,
                        )
                    } else {
                        (
                            Supervisor { phase: Phase::ProbingDefaultSkills, ..stay },
                            Action::Probe { port: DEFAULT_SKILLS_PORT },
                        )
                    }
                },
            }
        },
        (Phase::ProbingDefaultSkills, Event::Probed(true)) => (
            Supervisor { phase: Phase::AwaitingSkillsPort, ..stay },
            Action::AllocatePort,
        ),
        (Phase::ProbingDefaultSkills, Event::Probed(false)) => (
            Supervisor { phase: Phase::Spawning, skills_port: DEFAULT_SKILLS_PORT, ..stay },
            Action::Spawn { port: primary_port.unwrap(), skills_port: DEFAULT_SKILLS_PORT },
        ),
        (Phase::AwaitingSkillsPort, Event::PortAllocated(port)) => {
            let primary = primary_port.unwrap();
            if port == primary {
                (stay, Action::AllocatePort)
            } else {
                (
                    Supervisor { phase: Phase::Spawning, skills_port: port, ..stay },
                    Action::Spawn { port: primary, skills_port: port },
                )
            }
        },
        (Phase::Spawning, Event::Spawned) => (
            Supervisor { phase: Phase::CheckingClock, owns_child: true, ..stay },
            Action::ReadClock,
        ),
        (Phase::CheckingClock, Event::Clock { elapsed_nanos }) => {
            if elapsed_nanos > READINESS_TIMEOUT_NANOS {
                (Supervisor { phase: Phase::TimedOut, ..stay }, Action::AskRecovery)
            } else {
                (
                    Supervisor { phase: Phase::Pausing, ..stay },
                    Action::Sleep { millis: POLL_INTERVAL_MILLIS },
                )
            }
        },
        (Phase::Pausing, Event::Slept) => (
            Supervisor { phase: Phase::ProbingReadiness, ..stay },
            Action::Probe { port: primary_port.unwrap() },
        ),
        (Phase::ProbingReadiness, Event::Probed(true)) => (
            Supervisor { phase: Phase::Warming, ..stay },
            Action::Sleep { millis: GRACE_DELAY_MILLIS },
        ),
        (Phase::ProbingReadiness, Event::Probed(false)) => (
            Supervisor { phase: Phase::CheckingClock, ..stay },
            Action::ReadClock,
        ),
        (Phase::Warming, Event::Slept) => (
            Supervisor { phase: Phase::Ready, ..stay },
            Action::Publish { primary_port, skills_port, owns_child: true },
        ),
        (Phase::TimedOut, Event::RecoveryChosen(RecoveryChoice::CopyLogsAndExit)) => (
            Supervisor { phase: Phase::CopyingLogs, ..stay },
            Action::CopyLogs,
        ),
        (Phase::TimedOut, Event::RecoveryChosen(RecoveryChoice::Exit)) => (
            Supervisor { phase: Phase::Failed, ..stay },
            Action::Exit { code: FAILURE_EXIT_CODE },
        ),
        (Phase::CopyingLogs, Event::LogsCopied) => (
            Supervisor { phase: Phase::Failed, ..stay },
            Action::Exit { code: FAILURE_EXIT_CODE },
        ),
        _ => (stay, Action::Ignore),
    }
}

} // verus!
