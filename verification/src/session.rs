//! Session lifecycle: deriving the coarse application-facing state from the
//! runtime's session events.
//!
//! The runtime side of the driver polls the event stream and hands the
//! decoded events, in arrival order, to [`SessionStateMachine::handle_openxr_events`].
//! The machine applies the transition table, reports a derived state only on
//! an actual transition (edge-triggered), and tells its caller which session
//! calls to perform and whether to idle before the next tick.

use vstd::prelude::*;

use crate::event::XRState;

verus! {

/// How long the driving loop should idle, in milliseconds, when the session
/// is paused and a poll produced no transition. Bounded, so that an exit
/// signal stays checkable at tick granularity.
pub const IDLE_SLEEP_MILLIS: u64 = 100;

/// The runtime's code for the two-eye stereo view configuration, the one
/// configuration this driver runs.
pub const VIEW_CONFIGURATION_PRIMARY_STEREO: i64 = 2;

/// Session options fixed at startup.
#[derive(Clone, Copy, Debug, PartialEq, Eq, Structural)]
pub struct XrOptions {
    /// The runtime's code for the view configuration to begin the session
    /// with.
    pub view_type: i64,
    /// Whether hand trackers should be created for this session.
    pub hand_trackers: bool,
}

impl Default for XrOptions {
    /// Stereo head-mounted display without hand trackers.
    fn default() -> (options: XrOptions)
        ensures
            options.view_type == VIEW_CONFIGURATION_PRIMARY_STEREO,
            !options.hand_trackers,
    {
        XrOptions { view_type: VIEW_CONFIGURATION_PRIMARY_STEREO, hand_trackers: false }
    }
}

/// A session lifecycle state as the runtime reports it.
#[derive(Clone, Copy, Debug, PartialEq, Eq, Structural)]
pub enum RuntimeSessionState {
    Idle,
    Ready,
    Synchronized,
    Visible,
    Focused,
    Stopping,
    Exiting,
    LossPending,
    /// A lifecycle state this table does not recognize; logged and ignored.
    Unknown,
}

/// A decoded event from the runtime's event stream.
#[derive(Clone, Copy, Debug, PartialEq, Eq, Structural)]
pub enum RuntimeEvent {
    SessionStateChanged(RuntimeSessionState),
    /// Top-level fatal loss of the runtime instance, distinct from the
    /// session-state events.
    InstanceLossPending,
    /// The runtime dropped this many queued events; logged and ignored.
    EventsLost(u32),
    ReferenceSpaceChangePending,
    PerfSettingsChanged,
    VisibilityMaskChanged,
    InteractionProfileChanged,
    MainSessionVisibilityChanged,
    /// An event kind this table does not recognize; logged and ignored.
    Unknown,
}

/// A blocking session call that the caller must perform against the runtime
/// as a consequence of a poll, in the order returned.
#[derive(Clone, Copy, Debug, PartialEq, Eq, Structural)]
pub enum SessionAction {
    /// Begin the session and sync the frame loop with the runtime. The caller
    /// may also request a preferred display refresh rate here; a failure to
    /// change the rate is non-fatal.
    BeginSession,
    /// End the session; the frame loop must stop.
    EndSession,
}

/// The transition table: which derived state, if any, an event targets.
pub open spec fn event_target(e: RuntimeEvent) -> Option<XRState> {
    match e {
        RuntimeEvent::SessionStateChanged(rs) => match rs {
            RuntimeSessionState::Ready => Some(XRState::Running),
            RuntimeSessionState::Stopping => Some(XRState::Paused),
            RuntimeSessionState::Exiting => Some(XRState::Exiting),
            RuntimeSessionState::LossPending => Some(XRState::Exiting),
            RuntimeSessionState::Visible => Some(XRState::Running),
            RuntimeSessionState::Focused => Some(XRState::RunningFocused),
            RuntimeSessionState::Idle => Some(XRState::Paused),
            RuntimeSessionState::Synchronized => Some(XRState::Running),
            RuntimeSessionState::Unknown => None,
        },
        RuntimeEvent::InstanceLossPending => Some(XRState::Exiting),
        _ => None,
    }
}

/// Which session call an event obliges, independent of whether the derived
/// state changes.
pub open spec fn event_session_action(e: RuntimeEvent) -> Option<SessionAction> {
    match e {
        RuntimeEvent::SessionStateChanged(RuntimeSessionState::Ready) => Some(
            SessionAction::BeginSession,
        ),
        RuntimeEvent::SessionStateChanged(RuntimeSessionState::Stopping) => Some(
            SessionAction::EndSession,
        ),
        _ => None,
    }
}

/// Whether an event makes the poll return immediately, skipping the remaining
/// queued events of that call.
pub open spec fn event_short_circuits(e: RuntimeEvent) -> bool {
    ||| e == RuntimeEvent::SessionStateChanged(RuntimeSessionState::Exiting)
    ||| e == RuntimeEvent::SessionStateChanged(RuntimeSessionState::LossPending)
    ||| e == RuntimeEvent::InstanceLossPending
}

pub open spec fn event_action_seq(e: RuntimeEvent) -> Seq<SessionAction> {
    match event_session_action(e) {
        Some(a) => seq![a],
        None => Seq::empty(),
    }
}

/// One edge-triggered transition: move to the event's target state if that
/// differs from the current state, remembering the state left behind.
pub ghost struct StepModel {
    pub current: XRState,
    pub previous: XRState,
    pub changed: bool,
}

pub open spec fn step_model(current: XRState, previous: XRState, e: RuntimeEvent) -> StepModel {
    match event_target(e) {
        Some(target) => if target != current {
            StepModel { current: target, previous: current, changed: true }
        } else {
            StepModel { current, previous, changed: false }
        },
        None => StepModel { current, previous, changed: false },
    }
}

/// What one poll call does, given the machine's state and the queued events:
/// the state it ends in, whether any event changed the state, the session
/// calls obliged, and how many events it consumed before stopping.
pub ghost struct PollModel {
    pub current: XRState,
    pub previous: XRState,
    pub changed: bool,
    pub actions: Seq<SessionAction>,
    pub consumed: int,
}

pub open spec fn poll_model(
    current: XRState,
    previous: XRState,
    events: Seq<RuntimeEvent>,
) -> PollModel
    decreases events.len(),
{
    if events.len() == 0 {
        PollModel { current, previous, changed: false, actions: Seq::empty(), consumed: 0 }
    } else {
        let e = events[0];
        let step = step_model(current, previous, e);
        if event_short_circuits(e) {
            PollModel {
                current: step.current,
                previous: step.previous,
                changed: step.changed,
                actions: event_action_seq(e),
                consumed: 1,
            }
        } else {
            let rest = poll_model(step.current, step.previous, events.subrange(1, events.len() as int));
            PollModel {
                current: rest.current,
                previous: rest.previous,
                changed: step.changed || rest.changed,
                actions: event_action_seq(e) + rest.actions,
                consumed: 1 + rest.consumed,
            }
        }
    }
}

/// The transition table read as a function: the state an event leads to,
/// with unrecognized entries leaving the state unchanged.
pub open spec fn table_next(current: XRState, e: RuntimeEvent) -> XRState {
    match event_target(e) {
        Some(target) => target,
        None => current,
    }
}

/// The edge-triggered report the table prescribes for one event: the target
/// state if it differs from the current one, nothing otherwise.
pub open spec fn table_emit(current: XRState, e: RuntimeEvent) -> Option<XRState> {
    match event_target(e) {
        Some(target) => if target != current {
            Some(target)
        } else {
            None
        },
        None => None,
    }
}

/// The derived states the machine reports when the events are fed to it one
/// per poll call, in order.
pub open spec fn poll_emission_stream(
    current: XRState,
    previous: XRState,
    events: Seq<RuntimeEvent>,
) -> Seq<Option<XRState>>
    decreases events.len(),
{
    if events.len() == 0 {
        Seq::empty()
    } else {
        let m = poll_model(current, previous, seq![events[0]]);
        seq![
            if m.changed {
                Some(m.current)
            } else {
                None
            },
        ] + poll_emission_stream(m.current, m.previous, events.subrange(1, events.len() as int))
    }
}

/// The reports the transition table itself prescribes for the same feeding.
pub open spec fn table_stream(current: XRState, events: Seq<RuntimeEvent>) -> Seq<
    Option<XRState>,
>
    decreases events.len(),
{
    if events.len() == 0 {
        Seq::empty()
    } else {
        seq![table_emit(current, events[0])] + table_stream(
            table_next(current, events[0]),
            events.subrange(1, events.len() as int),
        )
    }
}

/// For every finite sequence of runtime session events fed to the machine one
/// per poll, the sequence of derived states it reports matches the transition
/// table exactly, with no report for an event that does not change the
/// current state.
pub proof fn lemma_poll_stream_matches_table(
    current: XRState,
    previous: XRState,
    events: Seq<RuntimeEvent>,
)
    ensures
        poll_emission_stream(current, previous, events) == table_stream(current, events),
    decreases events.len(),
{
    if events.len() == 0 {
        assert(poll_emission_stream(current, previous, events) =~= table_stream(current, events));
    } else {
        let e = events[0];
        let single = seq![e];
        assert(single[0] == e);
        assert(single.subrange(1, 1) =~= Seq::<RuntimeEvent>::empty());
        let m = poll_model(current, previous, single);
        let step = step_model(current, previous, e);
        if !event_short_circuits(e) {
            let empty_rest = poll_model(step.current, step.previous, single.subrange(1, 1));
            assert(single.subrange(1, 1).len() == 0);
            assert(empty_rest.current == step.current);
            assert(empty_rest.changed == false);
        }
        assert(m.current == step.current);
        assert(m.changed == step.changed);
        assert(m.current == table_next(current, e));
        assert((if m.changed {
            Some(m.current)
        } else {
            None::<XRState>
        }) == table_emit(current, e));
        lemma_poll_stream_matches_table(
            m.current,
            m.previous,
            events.subrange(1, events.len() as int),
        );
        assert(poll_emission_stream(current, previous, events) =~= table_stream(current, events));
    }
}

/// The outcome of one poll call.
#[derive(Clone, Debug)]
pub struct PollOutcome {
    /// The derived state, reported only when some event actually changed it.
    pub changed_state: Option<XRState>,
    /// Session calls the caller must now perform, in order.
    pub actions: Vec<SessionAction>,
    /// How many of the handed events were consumed; the rest were skipped
    /// because an event forced an immediate return.
    pub events_consumed: usize,
    /// Whether the caller should perform the bounded idle sleep before the
    /// next tick: the session is paused and nothing changed this poll.
    pub idle_sleep: bool,
}

/// Derives the application-facing session state from runtime events and owns
/// the one-slot previous-state history kept for diagnostics.
#[derive(Clone, Copy, Debug)]
pub struct SessionStateMachine {
    session_state: XRState,
    previous_frame_state: XRState,
}

impl SessionStateMachine {
    /// The current derived state.
    pub closed spec fn current(&self) -> XRState {
        self.session_state
    }

    /// The state before the most recent transition (diagnostics only).
    pub closed spec fn previous(&self) -> XRState {
        self.previous_frame_state
    }

    pub fn new() -> (m: SessionStateMachine)
        ensures
            m.current() == XRState::Paused,
            m.previous() == XRState::Paused,
    {
        SessionStateMachine {
            session_state: XRState::Paused,
            previous_frame_state: XRState::Paused,
        }
    }

    pub fn state(&self) -> (s: XRState)
        ensures
            s == self.current(),
    {
        self.session_state
    }

    pub fn previous_state(&self) -> (s: XRState)
        ensures
            s == self.previous(),
    {
        self.previous_frame_state
    }

    /// Whether frames are currently owed to the runtime.
    pub fn is_running(&self) -> (r: bool)
        ensures
            r == (self.current() == XRState::Running || self.current()
                == XRState::RunningFocused),
    {
        self.session_state == XRState::Running || self.session_state == XRState::RunningFocused
    }

    /// Edge-triggered move to `state`: a no-op unless it differs from the
    /// current state; on a move, the flag is raised and the old state kept.
    fn change_state(&mut self, state: XRState, state_flag: &mut bool) -> (moved: bool)
        ensures
            moved == (old(self).current() != state),
            moved ==> final(self).current() == state && final(self).previous() == old(
                self,
            ).current() && *final(state_flag),
            !moved ==> *final(self) == *old(self) && *final(state_flag) == *old(state_flag),
    {
        if self.session_state != state {
            self.previous_frame_state = self.session_state;
            self.session_state = state;
            *state_flag = true;
            true
        } else {
            false
        }
    }

    fn get_changed_state(&self, state_flag: &bool) -> (r: Option<XRState>)
        ensures
            r == if *state_flag {
                Some(self.current())
            } else {
                None::<XRState>
            },
    {
        if *state_flag {
            Some(self.session_state)
        } else {
            None
        }
    }

    /// Apply the transition table to one event: perform its edge-triggered
    /// transition, record the session call it obliges, and say whether the
    /// poll must return immediately.
    fn process_event(
        &mut self,
        e: &RuntimeEvent,
        actions: &mut Vec<SessionAction>,
        state_flag: &mut bool,
    ) -> (short: bool)
        ensures
            ({
                let step = step_model(old(self).current(), old(self).previous(), *e);
                &&& final(self).current() == step.current
                &&& final(self).previous() == step.previous
                &&& *final(state_flag) == (*old(state_flag) || step.changed)
                &&& final(actions)@ =~= old(actions)@ + event_action_seq(*e)
                &&& short == event_short_circuits(*e)
            }),
    {
        let ghost a0 = actions@;
        match e {
            RuntimeEvent::SessionStateChanged(rs) => {
                match rs {
                    RuntimeSessionState::Ready => {
                        actions.push(SessionAction::BeginSession);
                        self.change_state(XRState::Running, state_flag);
                        proof {
                            assert(actions@ =~= a0 + event_action_seq(*e));
                        }
                        false
                    },
                    RuntimeSessionState::Stopping => {
                        actions.push(SessionAction::EndSession);
                        self.change_state(XRState::Paused, state_flag);
                        proof {
                            assert(actions@ =~= a0 + event_action_seq(*e));
                        }
                        false
                    },
                    RuntimeSessionState::Exiting | RuntimeSessionState::LossPending => {
                        self.change_state(XRState::Exiting, state_flag);
                        proof {
                            assert(actions@ =~= a0 + event_action_seq(*e));
                        }
                        true
                    },
                    RuntimeSessionState::Visible => {
                        self.change_state(XRState::Running, state_flag);
                        proof {
                            assert(actions@ =~= a0 + event_action_seq(*e));
                        }
                        false
                    },
                    RuntimeSessionState::Focused => {
                        self.change_state(XRState::RunningFocused, state_flag);
                        proof {
                            assert(actions@ =~= a0 + event_action_seq(*e));
                        }
                        false
                    },
                    RuntimeSessionState::Idle => {
                        self.change_state(XRState::Paused, state_flag);
                        proof {
                            assert(actions@ =~= a0 + event_action_seq(*e));
                        }
                        false
                    },
                    RuntimeSessionState::Synchronized => {
                        self.change_state(XRState::Running, state_flag);
                        proof {
                            assert(actions@ =~= a0 + event_action_seq(*e));
                        }
                        false
                    },
                    RuntimeSessionState::Unknown => {
                        proof {
                            assert(actions@ =~= a0 + event_action_seq(*e));
                        }
                        false
                    },
                }
            },
            RuntimeEvent::InstanceLossPending => {
                self.change_state(XRState::Exiting, state_flag);
                proof {
                    assert(actions@ =~= a0 + event_action_seq(*e));
                }
                true
            },
            _ => {
                proof {
                    assert(actions@ =~= a0 + event_action_seq(*e));
                }
                false
            },
        }
    }

    /// Apply the transition table to the events of one poll, in arrival
    /// order. An event targeting the Exiting state makes the call return
    /// immediately, leaving later events unconsumed. The reported state is
    /// edge-triggered: `changed_state` is `Some` only if some event actually
    /// moved the machine. `idle_sleep` asks the caller for the bounded pause
    /// exactly when the machine is left Paused and nothing moved it.
    pub fn handle_openxr_events(&mut self, events: &Vec<RuntimeEvent>) -> (outcome: PollOutcome)
        ensures
            ({
                let m = poll_model(old(self).current(), old(self).previous(), events@);
                &&& final(self).current() == m.current
                &&& final(self).previous() == m.previous
                &&& outcome.changed_state == if m.changed {
                    Some(m.current)
                } else {
                    None::<XRState>
                }
                &&& outcome.actions@ =~= m.actions
                &&& outcome.events_consumed == m.consumed
                &&& outcome.idle_sleep == (m.current == XRState::Paused && !m.changed)
            }),
    {
        let ghost c0 = self.current();
        let ghost p0 = self.previous();
        let ghost m = poll_model(c0, p0, events@);
        let mut actions: Vec<SessionAction> = Vec::new();
        let mut state_changed = false;
        let n = events.len();
        let mut i: usize = 0;
        proof {
            assert(events@.subrange(0, n as int) =~= events@);
            assert(actions@ + m.actions =~= m.actions);
        }
        while i < n
            invariant
                n == events@.len(),
                0 <= i <= n,
                c0 == old(self).current(),
                p0 == old(self).previous(),
                m == poll_model(c0, p0, events@),
                ({
                    let rest = poll_model(
                        self.current(),
                        self.previous(),
                        events@.subrange(i as int, n as int),
                    );
                    &&& m.current == rest.current
                    &&& m.previous == rest.previous
                    &&& m.changed == (state_changed || rest.changed)
                    &&& m.actions =~= actions@ + rest.actions
                    &&& m.consumed == i + rest.consumed
                }),
            decreases n - i,
        {
            let ghost pre = *self;
            let ghost pre_changed = state_changed;
            let ghost pre_actions = actions@;
            let ghost tail = events@.subrange(i as int, n as int);
            proof {
                assert(tail.len() == n - i);
                assert(tail[0] == events@[i as int]);
                assert(tail.subrange(1, tail.len() as int) =~= events@.subrange(
                    i as int + 1,
                    n as int,
                ));
            }
            let short = self.process_event(&events[i], &mut actions, &mut state_changed);
            proof {
                let e = events@[i as int];
                let step = step_model(pre.current(), pre.previous(), e);
                let rest = poll_model(pre.current(), pre.previous(), tail);
                if short {
                    assert(rest.current == step.current);
                    assert(rest.changed == step.changed);
                    assert(rest.consumed == 1);
                    assert(rest.actions =~= event_action_seq(e));
                    assert(m.actions =~= pre_actions + event_action_seq(e));
                    assert(m.actions =~= actions@);
                    assert(step.current == XRState::Exiting);
                } else {
                    let next_tail = events@.subrange(i as int + 1, n as int);
                    let rest_next = poll_model(step.current, step.previous, next_tail);
                    assert(poll_model(step.current, step.previous, tail.subrange(1, tail.len() as int))
                        == rest_next);
                    assert(rest.actions =~= event_action_seq(e) + rest_next.actions);
                    assert(m.actions =~= pre_actions + (event_action_seq(e) + rest_next.actions));
                    assert(m.actions =~= (pre_actions + event_action_seq(e)) + rest_next.actions);
                    assert(m.actions =~= actions@ + rest_next.actions);
                }
            }
            if short {
                let changed_state = self.get_changed_state(&state_changed);
                return PollOutcome {
                    changed_state,
                    actions,
                    events_consumed: i + 1,
                    idle_sleep: false,
                };
            }
            i = i + 1;
        }
        proof {
            assert(events@.subrange(n as int, n as int) =~= Seq::<RuntimeEvent>::empty());
            assert(m.actions =~= actions@ + Seq::<SessionAction>::empty());
            assert(m.actions =~= actions@);
        }
        let changed_state = self.get_changed_state(&state_changed);
        let idle_sleep = !state_changed && self.session_state == XRState::Paused;
        PollOutcome { changed_state, actions, events_consumed: n, idle_sleep }
    }
}

} // verus!
