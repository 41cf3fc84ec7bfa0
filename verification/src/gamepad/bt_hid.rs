//! Events of the Bluetooth Classic HID host and the state that a DualShock 4
//! controller is in, as far as the robot needs to know it.
//!
//! The HID host stack, its callbacks and the channel that carries their events belong
//! to the firmware. Here each event is applied to the controller state, and the choice
//! of what is worth a log line is made.

use vstd::prelude::*;

use super::ds4_report::{parse, parse_spec};
use super::{neutral_state, GamepadState};
use crate::arith::abs_int;

verus! {

/// An event of the Bluetooth Classic HID host.
#[derive(Debug)]
pub enum GamepadEvent {
    Connected { name: String },
    Disconnected,
    /// A raw HID input report, decoded by [`parse`].
    RawInput { report_id: u16, data: Vec<u8> },
    /// The Bluetooth stack reported the link policy negotiation after the connection as
    /// done (GAP mode change event).
    LinkReady,
}

/// How far a stick Y value must move since it was last logged for a new log line.
pub const STICK_LOG_THRESHOLD: i8 = 10;

/// How many raw input reports are logged after start-up, to check the report layout on
/// the device.
pub const RAW_INPUT_LOG_BUDGET: u8 = 5;

/// What an event is worth logging.
#[derive(Debug, Clone, Copy, PartialEq, Eq, Structural)]
pub struct EventNotes {
    /// The raw bytes of this input report are to be logged.
    pub raw_logged: bool,
    /// The buttons differ from the previous state.
    pub buttons_changed: bool,
    /// A stick Y value moved by at least [`STICK_LOG_THRESHOLD`] since last logged.
    pub stick_moved: bool,
    /// The input report is not one that [`parse`] understands (reported only while raw
    /// reports are still being logged).
    pub unrecognized: bool,
}

/// Nothing worth logging beyond the event itself.
pub open spec fn no_notes() -> EventNotes {
    EventNotes { raw_logged: false, buttons_changed: false, stick_moved: false, unrecognized: false }
}

/// The state of a [`Ds4Gamepad`].
pub struct Ds4GamepadModel {
    pub last_state: GamepadState,
    pub connected: bool,
    pub operation_ready: bool,
    pub raw_input_log_budget: u8,
    pub last_logged_stick_y: (i8, i8),
}

/// A DualShock 4 as seen through the events of the HID host.
pub struct Ds4Gamepad {
    last_state: GamepadState,
    connected: bool,
    /// Whether [`GamepadEvent::LinkReady`] came since the last connection.
    operation_ready: bool,
    /// Raw input reports still to be logged.
    raw_input_log_budget: u8,
    /// Left and right stick Y values when last logged.
    last_logged_stick_y: (i8, i8),
}

impl View for Ds4Gamepad {
    type V = Ds4GamepadModel;

    closed spec fn view(&self) -> Ds4GamepadModel {
        Ds4GamepadModel {
            last_state: self.last_state,
            connected: self.connected,
            operation_ready: self.operation_ready,
            raw_input_log_budget: self.raw_input_log_budget,
            last_logged_stick_y: self.last_logged_stick_y,
        }
    }
}

/// Whether a stick Y value moved far enough from the logged one to be logged again.
pub open spec fn moved_enough(now: i8, logged: i8) -> bool {
    abs_int(now - logged) >= STICK_LOG_THRESHOLD
}

/// The effect of one event on a controller, and what it is worth logging.
pub open spec fn event_step(m: Ds4GamepadModel, e: GamepadEvent) -> (Ds4GamepadModel, EventNotes) {
    match e {
        GamepadEvent::Connected { .. } => (Ds4GamepadModel { connected: true, ..m }, no_notes()),
        GamepadEvent::Disconnected => (
            Ds4GamepadModel {
                connected: false,
                operation_ready: false,
                last_state: neutral_state(),
                ..m
            },
            no_notes(),
        ),
        GamepadEvent::LinkReady => (Ds4GamepadModel { operation_ready: true, ..m }, no_notes()),
        GamepadEvent::RawInput { report_id, data } => {
            let should_log = m.raw_input_log_budget > 0;
            let budget = if should_log {
                (m.raw_input_log_budget - 1) as u8
            } else {
                m.raw_input_log_budget
            };
            match parse_spec(report_id, data@) {
                Some(s) => {
                    let moved = moved_enough(s.left_stick_y, m.last_logged_stick_y.0)
                        || moved_enough(s.right_stick_y, m.last_logged_stick_y.1);
                    (
                        Ds4GamepadModel {
                            raw_input_log_budget: budget,
                            last_state: s,
                            last_logged_stick_y: if moved {
                                (s.left_stick_y, s.right_stick_y)
                            } else {
                                m.last_logged_stick_y
                            },
                            ..m
                        },
                        EventNotes {
                            raw_logged: should_log,
                            buttons_changed: s.buttons != m.last_state.buttons,
                            stick_moved: moved,
                            unrecognized: false,
                        },
                    )
                },
                None => (
                    Ds4GamepadModel { raw_input_log_budget: budget, ..m },
                    EventNotes {
                        raw_logged: should_log,
                        buttons_changed: false,
                        stick_moved: false,
                        unrecognized: should_log,
                    },
                ),
            }
        },
    }
}

/// The state of a controller that has not been connected yet.
pub open spec fn initial_model() -> Ds4GamepadModel {
    Ds4GamepadModel {
        last_state: neutral_state(),
        connected: false,
        operation_ready: false,
        raw_input_log_budget: RAW_INPUT_LOG_BUDGET,
        last_logged_stick_y: (0, 0),
    }
}

impl Ds4Gamepad {
    /// A controller that is not connected, with neutral input.
    pub fn new() -> (g: Self)
        ensures
            g@ == initial_model(),
    {
        Ds4Gamepad {
            last_state: GamepadState::default(),
            connected: false,
            operation_ready: false,
            raw_input_log_budget: RAW_INPUT_LOG_BUDGET,
            last_logged_stick_y: (0, 0),
        }
    }

    pub fn is_connected(&self) -> (b: bool)
        ensures
            b == self@.connected,
    {
        self.connected
    }

    /// Whether the Bluetooth stack finished its link policy negotiation after the
    /// connection (sniff mode and so on), from which on input arrives steadily.
    pub fn is_operation_ready(&self) -> (b: bool)
        ensures
            b == self@.operation_ready,
    {
        self.operation_ready
    }

    /// The input as of the last recognized report (neutral after a disconnection).
    pub fn last_state(&self) -> (s: GamepadState)
        ensures
            s == self@.last_state,
    {
        self.last_state
    }

    /// Applies one event of the HID host and says what it is worth logging.
    pub fn handle_event(&mut self, event: &GamepadEvent) -> (notes: EventNotes)
        ensures
            (final(self)@, notes) == event_step(old(self)@, *event),
    {
        match event {
            GamepadEvent::Connected { .. } => {
                self.connected = true;
                EventNotes {
                    raw_logged: false,
                    buttons_changed: false,
                    stick_moved: false,
                    unrecognized: false,
                }
            },
            GamepadEvent::Disconnected => {
                self.connected = false;
                self.operation_ready = false;
                self.last_state = GamepadState::default();
                EventNotes {
                    raw_logged: false,
                    buttons_changed: false,
                    stick_moved: false,
                    unrecognized: false,
                }
            },
            GamepadEvent::LinkReady => {
                self.operation_ready = true;
                EventNotes {
                    raw_logged: false,
                    buttons_changed: false,
                    stick_moved: false,
                    unrecognized: false,
                }
            },
            GamepadEvent::RawInput { report_id, data } => {
                let should_log = self.raw_input_log_budget > 0;
                if should_log {
                    self.raw_input_log_budget = self.raw_input_log_budget - 1;
                }
                match parse(*report_id, data.as_slice()) {
                    Some(state) => {
                        let buttons_changed = state.buttons != self.last_state.buttons;
                        let (last_left_y, last_right_y) = self.last_logged_stick_y;
                        let left_diff: i16 = state.left_stick_y as i16 - last_left_y as i16;
                        let right_diff: i16 = state.right_stick_y as i16 - last_right_y as i16;
                        let left_abs: i16 = if left_diff < 0 {
                            -left_diff
                        } else {
                            left_diff
                        };
                        let right_abs: i16 = if right_diff < 0 {
                            -right_diff
                        } else {
                            right_diff
                        };
                        let moved = left_abs >= STICK_LOG_THRESHOLD as i16 || right_abs
                            >= STICK_LOG_THRESHOLD as i16;
                        if moved {
                            self.last_logged_stick_y = (state.left_stick_y, state.right_stick_y);
                        }
                        self.last_state = state;
                        EventNotes {
                            raw_logged: should_log,
                            buttons_changed,
                            stick_moved: moved,
                            unrecognized: false,
                        }
                    },
                    None => EventNotes {
                        raw_logged: should_log,
                        buttons_changed: false,
                        stick_moved: false,
                        unrecognized: should_log,
                    },
                }
            },
        }
    }
}

/// The controller after a sequence of events.
pub open spec fn run_events(m: Ds4GamepadModel, events: Seq<GamepadEvent>) -> Ds4GamepadModel
    decreases events.len(),
{
    if events.len() == 0 {
        m
    } else {
        run_events(event_step(m, events[0]).0, events.drop_first())
    }
}

/// How many of a sequence of events get their raw bytes logged.
pub open spec fn raw_logs(m: Ds4GamepadModel, events: Seq<GamepadEvent>) -> nat
    decreases events.len(),
{
    if events.len() == 0 {
        0
    } else {
        let (next, notes) = event_step(m, events[0]);
        (if notes.raw_logged {
            1nat
        } else {
            0nat
        }) + raw_logs(next, events.drop_first())
    }
}

/// Every raw report that is logged uses up one unit of the budget, so over the whole
/// life of a controller at most [`RAW_INPUT_LOG_BUDGET`] raw reports are logged.
pub proof fn lemma_raw_log_budget(m: Ds4GamepadModel, events: Seq<GamepadEvent>)
    ensures
        raw_logs(m, events) + run_events(m, events).raw_input_log_budget
            == m.raw_input_log_budget,
        m == initial_model() ==> raw_logs(m, events) <= RAW_INPUT_LOG_BUDGET,
    decreases events.len(),
{
    if events.len() > 0 {
        lemma_raw_log_budget(event_step(m, events[0]).0, events.drop_first());
    }
}

/// A disconnection forgets the connection, the link readiness and the input, whatever
/// came before; a connection or a link-ready event leaves the input as it was.
pub proof fn lemma_connection_events(m: Ds4GamepadModel, name: String)
    ensures
        !event_step(m, GamepadEvent::Disconnected).0.connected,
        !event_step(m, GamepadEvent::Disconnected).0.operation_ready,
        event_step(m, GamepadEvent::Disconnected).0.last_state == neutral_state(),
        event_step(m, GamepadEvent::Connected { name }).0.connected,
        event_step(m, GamepadEvent::Connected { name }).0.last_state == m.last_state,
        event_step(m, GamepadEvent::LinkReady).0.operation_ready,
        event_step(m, GamepadEvent::LinkReady).0.last_state == m.last_state,
{
}

/// An input report that [`parse`] understands becomes the input; any other one leaves
/// the input as it was.
pub proof fn lemma_raw_input_sets_state(m: Ds4GamepadModel, report_id: u16, data: Vec<u8>)
    ensures
        ({
            let next = event_step(m, GamepadEvent::RawInput { report_id, data }).0;
            match parse_spec(report_id, data@) {
                Some(s) => next.last_state == s,
                None => next.last_state == m.last_state,
            }
        }),
{
}

/// A flag that `raise` events set and disconnections clear, after a sequence of events:
/// set when some raising event has no disconnection after it, or when it was set before
/// and no disconnection came.
pub open spec fn flag_after(
    start: bool,
    events: Seq<GamepadEvent>,
    raise: spec_fn(GamepadEvent) -> bool,
) -> bool {
    ||| exists|i: int|
        0 <= i < events.len() && raise(#[trigger] events[i]) && forall|j: int|
            i < j < events.len() ==> !(#[trigger] events[j] is Disconnected)
    ||| start && forall|j: int| 0 <= j < events.len() ==> !(#[trigger] events[j] is Disconnected)
}

/// After a sequence of events, the controller counts as connected when some connection
/// event has no disconnection after it, or when it was connected before and no
/// disconnection came.
pub open spec fn connected_after(start: bool, events: Seq<GamepadEvent>) -> bool {
    flag_after(start, events, |e: GamepadEvent| e is Connected)
}

/// After a sequence of events, the link counts as ready when some link-ready event has
/// no disconnection after it (whether or not a connection came before it), or when it
/// was ready before and no disconnection came.
pub open spec fn ready_after(start: bool, events: Seq<GamepadEvent>) -> bool {
    flag_after(start, events, |e: GamepadEvent| e is LinkReady)
}

/// Whether an event replaces the input: a disconnection, or an input report that
/// [`parse`] understands.
pub open spec fn sets_input(e: GamepadEvent) -> bool {
    match e {
        GamepadEvent::Disconnected => true,
        GamepadEvent::RawInput { report_id, data } => parse_spec(report_id, data@) is Some,
        _ => false,
    }
}

/// The input that an input-replacing event leaves: neutral after a disconnection, the
/// decoded state after a report.
pub open spec fn input_of(e: GamepadEvent) -> GamepadState {
    match e {
        GamepadEvent::RawInput { report_id, data } => match parse_spec(report_id, data@) {
            Some(s) => s,
            None => neutral_state(),
        },
        _ => neutral_state(),
    }
}

/// `k` is the last event of the sequence that replaces the input.
pub open spec fn last_input_event(events: Seq<GamepadEvent>, k: int) -> bool {
    &&& 0 <= k < events.len()
    &&& sets_input(events[k])
    &&& forall|j: int| k < j < events.len() ==> !sets_input(#[trigger] events[j])
}

/// A flag of the controller that `raise` events set, disconnections clear and other
/// events leave alone follows [`flag_after`] over any sequence of events.
proof fn lemma_flag_after_events(
    m: Ds4GamepadModel,
    events: Seq<GamepadEvent>,
    flag: spec_fn(Ds4GamepadModel) -> bool,
    raise: spec_fn(GamepadEvent) -> bool,
)
    requires
        forall|e: GamepadEvent| #[trigger] raise(e) ==> !(e is Disconnected),
        forall|n: Ds4GamepadModel, e: GamepadEvent|
            #[trigger] flag(event_step(n, e).0) == if e is Disconnected {
                false
            } else if raise(e) {
                true
            } else {
                flag(n)
            },
    ensures
        flag(run_events(m, events)) == flag_after(flag(m), events, raise),
    decreases events.len(),
{
    if events.len() > 0 {
        let e0 = events[0];
        let rest = events.drop_first();
        let next = event_step(m, e0).0;
        lemma_flag_after_events(next, rest, flag, raise);
        assert(flag(next) == if e0 is Disconnected {
            false
        } else if raise(e0) {
            true
        } else {
            flag(m)
        });
        assert forall|j: int| 0 <= j < rest.len() implies rest[j] == events[j + 1] by {}
        let lhs = flag_after(flag(next), rest, raise);
        let rhs = flag_after(flag(m), events, raise);
        if lhs {
            if exists|i: int|
                0 <= i < rest.len() && raise(#[trigger] rest[i]) && forall|j: int|
                    i < j < rest.len() ==> !(#[trigger] rest[j] is Disconnected) {
                let i = choose|i: int|
                    0 <= i < rest.len() && raise(#[trigger] rest[i]) && forall|j: int|
                        i < j < rest.len() ==> !(#[trigger] rest[j] is Disconnected);
                assert(raise(events[i + 1]));
                assert forall|j: int| i + 1 < j < events.len() implies !(
                #[trigger] events[j] is Disconnected) by {
                    assert(rest[j - 1] == events[j]);
                }
            } else if raise(e0) {
                assert forall|j: int| 0 < j < events.len() implies !(
                #[trigger] events[j] is Disconnected) by {
                    assert(rest[j - 1] == events[j]);
                }
            } else {
                assert forall|j: int| 0 <= j < events.len() implies !(
                #[trigger] events[j] is Disconnected) by {
                    if j > 0 {
                        assert(rest[j - 1] == events[j]);
                    }
                }
            }
            assert(rhs);
        } else if rhs {
            if exists|i: int|
                0 <= i < events.len() && raise(#[trigger] events[i]) && forall|j: int|
                    i < j < events.len() ==> !(#[trigger] events[j] is Disconnected) {
                let i = choose|i: int|
                    0 <= i < events.len() && raise(#[trigger] events[i]) && forall|j: int|
                        i < j < events.len() ==> !(#[trigger] events[j] is Disconnected);
                if i == 0 {
                    assert forall|j: int| 0 <= j < rest.len() implies !(
                    #[trigger] rest[j] is Disconnected) by {
                        assert(events[j + 1] == rest[j]);
                    }
                } else {
                    assert(raise(rest[i - 1]));
                    assert forall|j: int| i - 1 < j < rest.len() implies !(
                    #[trigger] rest[j] is Disconnected) by {
                        assert(events[j + 1] == rest[j]);
                    }
                }
            } else {
                assert(!(events[0] is Disconnected));
                assert forall|j: int| 0 <= j < rest.len() implies !(
                #[trigger] rest[j] is Disconnected) by {
                    assert(events[j + 1] == rest[j]);
                }
            }
            assert(lhs);
        }
    }
}

/// The connection flag after a whole queue of events: connected exactly when a
/// connection event has no disconnection after it (or, with no disconnection at all,
/// when it was connected before). Link-ready events and input reports never change it.
pub proof fn lemma_connected_after_events(m: Ds4GamepadModel, events: Seq<GamepadEvent>)
    ensures
        run_events(m, events).connected == connected_after(m.connected, events),
{
    let flag = |n: Ds4GamepadModel| n.connected;
    let raise = |e: GamepadEvent| e is Connected;
    assert forall|n: Ds4GamepadModel, e: GamepadEvent|
        #[trigger] flag(event_step(n, e).0) == if e is Disconnected {
            false
        } else if raise(e) {
            true
        } else {
            flag(n)
        } by {}
    lemma_flag_after_events(m, events, flag, raise);
}

/// The link readiness after a whole queue of events: ready exactly when a link-ready
/// event has no disconnection after it (or, with no disconnection at all, when it was
/// ready before). Connection events and input reports never change it.
pub proof fn lemma_ready_after_events(m: Ds4GamepadModel, events: Seq<GamepadEvent>)
    ensures
        run_events(m, events).operation_ready == ready_after(m.operation_ready, events),
{
    let flag = |n: Ds4GamepadModel| n.operation_ready;
    let raise = |e: GamepadEvent| e is LinkReady;
    assert forall|n: Ds4GamepadModel, e: GamepadEvent|
        #[trigger] flag(event_step(n, e).0) == if e is Disconnected {
            false
        } else if raise(e) {
            true
        } else {
            flag(n)
        } by {}
    lemma_flag_after_events(m, events, flag, raise);
}

/// The input after a whole queue of events is that of the last event that replaces it
/// (neutral for a disconnection, the decoded state for a recognized report); with no
/// such event it is the input from before. Applying no events changes nothing.
pub proof fn lemma_input_after_events(m: Ds4GamepadModel, events: Seq<GamepadEvent>)
    ensures
        forall|k: int|
            #[trigger] last_input_event(events, k) ==> run_events(m, events).last_state
                == input_of(events[k]),
        (forall|j: int| 0 <= j < events.len() ==> !sets_input(#[trigger] events[j]))
            ==> run_events(m, events).last_state == m.last_state,
        run_events(m, Seq::empty()) == m,
    decreases events.len(),
{
    if events.len() > 0 {
        let e0 = events[0];
        let rest = events.drop_first();
        let next = event_step(m, e0).0;
        lemma_input_after_events(next, rest);
        assert forall|j: int| 0 <= j < rest.len() implies rest[j] == events[j + 1] by {}
        assert(sets_input(e0) ==> next.last_state == input_of(e0));
        assert(!sets_input(e0) ==> next.last_state == m.last_state);
        assert forall|k: int| #[trigger] last_input_event(events, k) implies run_events(
            m,
            events,
        ).last_state == input_of(events[k]) by {
            if k == 0 {
                assert forall|j: int| 0 <= j < rest.len() implies !sets_input(
                    #[trigger] rest[j],
                ) by {
                    assert(events[j + 1] == rest[j]);
                }
            } else {
                assert forall|j: int| k - 1 < j < rest.len() implies !sets_input(
                    #[trigger] rest[j],
                ) by {
                    assert(events[j + 1] == rest[j]);
                }
                assert(last_input_event(rest, k - 1));
            }
        }
        if forall|j: int| 0 <= j < events.len() ==> !sets_input(#[trigger] events[j]) {
            assert(!sets_input(events[0]));
            assert forall|j: int| 0 <= j < rest.len() implies !sets_input(#[trigger] rest[j]) by {
                assert(events[j + 1] == rest[j]);
            }
        }
    }
}

// ---------------------------------------------------------------------------------
// Device search
// ---------------------------------------------------------------------------------

/// `name` begins with the bytes of `prefix`.
pub open spec fn has_prefix(name: Seq<u8>, prefix: Seq<u8>) -> bool {
    prefix.len() <= name.len() && name.subrange(0, prefix.len() as int) == prefix
}

/// The UTF-8 bytes of a string.
pub open spec fn utf8_bytes(s: Seq<char>) -> Seq<u8> {
    vstd::utf8::encode_utf8(s)
}

/// Whether the `i`-th name found by a device scan matches `prefix`, as `str::starts_with`
/// decides it.
pub open spec fn name_matches(names: Seq<String>, i: int, prefix: Seq<char>) -> bool {
    has_prefix(utf8_bytes(names[i]@), utf8_bytes(prefix))
}

fn bytes_start_with(name: &[u8], prefix: &[u8]) -> (b: bool)
    ensures
        b == has_prefix(name@, prefix@),
{
    if prefix.len() > name.len() {
        return false;
    }
    let mut i: usize = 0;
    while i < prefix.len()
        invariant
            prefix@.len() <= name@.len(),
            i <= prefix@.len(),
            forall|j: int| 0 <= j < i ==> name@[j] == prefix@[j],
        decreases prefix@.len() - i,
    {
        if name[i] != prefix[i] {
            assert(name@.subrange(0, prefix@.len() as int)[i as int] != prefix@[i as int]);
            return false;
        }
        i = i + 1;
    }
    assert(name@.subrange(0, prefix@.len() as int) =~= prefix@);
    true
}

/// Among the names of the HID devices that a scan found, in the order found, the index
/// of the device to connect to: the last one whose name begins with `prefix`, or `None`
/// when none does.
pub fn select_scan_target(names: &Vec<String>, prefix: &str) -> (target: Option<usize>)
    ensures
        match target {
            Some(i) => {
                &&& i < names@.len()
                &&& name_matches(names@, i as int, prefix@)
                &&& forall|j: int| i < j < names@.len() ==> !name_matches(names@, j, prefix@)
            },
            None => forall|j: int| 0 <= j < names@.len() ==> !name_matches(names@, j, prefix@),
        },
{
    let prefix_bytes = prefix.as_bytes();
    let mut target: Option<usize> = None;
    let mut i: usize = 0;
    while i < names.len()
        invariant
            i <= names@.len(),
            prefix_bytes@ == utf8_bytes(prefix@),
            match target {
                Some(t) => {
                    &&& t < i
                    &&& name_matches(names@, t as int, prefix@)
                    &&& forall|j: int| t < j < i ==> !name_matches(names@, j, prefix@)
                },
                None => forall|j: int| 0 <= j < i ==> !name_matches(names@, j, prefix@),
            },
        decreases names@.len() - i,
    {
        let name_bytes = names[i].as_str().as_bytes();
        if bytes_start_with(name_bytes, prefix_bytes) {
            target = Some(i);
        }
        i = i + 1;
    }
    target
}

} // verus!
