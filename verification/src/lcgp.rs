//! The presence node: the mode of an endpoint, its custom states, and what
//! it does with a ring.

use crate::registry::Registry;
use crate::text::str_eq;
use crate::time::{utc_now, Timestamp, WallClock};
use crate::types::{
    BehaviorResult, BehaviorResultView, ChimeMessage, ChimeMessageView, ChimeResponse,
    ChimeResponseMessage, ChimeResponseMessageView, CustomBehavior, CustomLcgpState,
    CustomLcgpStateView, LcgpMode, LcgpModeView, ModeUpdate, ModeUpdateView, StateCondition,
    StateConditionView, TimeRange,
};
use vstd::hash_map::StringHashMap;
use vstd::prelude::*;
use vstd::string::StringExecFns;

verus! {

/// Seconds of an unchanged mode after which the mode is announced again.
pub const MODE_UPDATE_INTERVAL_SECS: u64 = 300;

/// Seconds between two looks at the custom states that may be entered by
/// themselves.
pub const AUTO_STATE_INTERVAL_SECS: u64 = 30;

/// Milliseconds that a node in `ChillGrinding` waits before it answers by
/// itself.
pub const CHILL_GRINDING_DELAY_MS: u64 = 10000;

/// What a node does with a ring.
#[derive(Clone, Copy, Debug, PartialEq, Eq)]
pub struct ChimeDecision {
    /// Whether the ring is played.
    pub should_chime: bool,
    /// The reply that the node gives by itself, and the milliseconds to wait
    /// before it; no wait means at once.
    pub auto_response: Option<(ChimeResponse, Option<u64>)>,
}

/// The custom state that was asked for is not registered.
#[derive(Debug, PartialEq)]
pub struct NotFoundError {
    /// The name that was asked for.
    pub name: String,
}

impl NotFoundError {
    /// The error in words.
    pub fn message(&self) -> (text: String)
        ensures
            text@ == "Custom state '"@ + self.name@ + "' not found"@,
    {
        let mut text = String::from_str("Custom state '");
        text.append(self.name.as_str());
        text.append("' not found");
        text
    }
}

/// The ring identifiers that a list of strings holds.
pub open spec fn id_set(list: Seq<String>) -> Set<Seq<char>> {
    Set::new(|id: Seq<char>| exists|i: int| 0 <= i < list.len() && (#[trigger] list[i])@ == id)
}

/// Whether the single-precision number with the bits `bits` is greater than
/// one half. Positive numbers are ordered as their bits are; one half is
/// `0x3F00_0000` and infinity `0x7F80_0000`, beyond which no number stands.
pub open spec fn load_is_high(bits: u32) -> bool {
    0x3F00_0000 < bits <= 0x7F80_0000
}

/// The state of a presence node, as mathematics.
pub struct LcgpNodeView {
    pub node_id: Seq<char>,
    pub mode: LcgpModeView,
    /// The registered custom states, by name.
    pub custom_states: Map<Seq<char>, CustomLcgpStateView>,
    /// The behaviours, each by the name of the custom state to which it is
    /// attached.
    pub behaviors: Map<Seq<char>, AttachedBehavior>,
    /// When the mode was last set.
    pub last_mode_update: Timestamp,
    /// The rings that wait for a reply.
    pub pending: Set<Seq<char>>,
    /// The condition store.
    pub conditions: Map<Seq<char>, bool>,
}

impl LcgpNodeView {
    /// What the condition store holds for `key`; a key that is missing
    /// counts as `false`.
    pub open spec fn condition(&self, key: Seq<char>) -> bool {
        self.conditions.contains_key(key) && self.conditions[key]
    }

    /// Whether one condition holds at the clock reading `now`.
    pub open spec fn condition_holds(&self, condition: StateConditionView, now: WallClock) -> bool {
        match condition {
            StateConditionView::TimeRange(range) => range.contains(now),
            StateConditionView::UserPresence(required) => self.condition("user_presence"@)
                == required,
            StateConditionView::SystemLoad(bits) => self.conditions.contains_key("system_load"@)
                && self.conditions["system_load"@] == load_is_high(bits),
            StateConditionView::NetworkActivity(required) => self.condition("network_activity"@)
                == required,
            StateConditionView::CalendarBusy(required) => self.condition("calendar_busy"@)
                == required,
            StateConditionView::Custom(key, expected) => self.condition(key) == (expected
                == "true"@),
        }
    }

    /// Whether the state's own rules let it be entered at `now`: the moment
    /// lies in its active hours, where it has any, and each of its conditions
    /// holds.
    pub open spec fn eligible(&self, state: CustomLcgpStateView, now: WallClock) -> bool {
        &&& state.active_hours matches Some(range) ==> range.contains(now)
        &&& forall|i: int|
            0 <= i < state.conditions.len() ==> self.condition_holds(
                #[trigger] state.conditions[i],
                now,
            )
    }

    /// Whether the state registered as `name` competes for entry at `now`,
    /// where the behaviours attached to the names in `vetoed` said no.
    pub open spec fn candidate(&self, name: Seq<char>, now: WallClock, vetoed: Set<Seq<char>>)
        -> bool {
        &&& self.custom_states.contains_key(name)
        &&& self.eligible(self.custom_states[name], now)
        &&& !vetoed.contains(name)
    }

    /// Whether `choice` is a right answer to the question which custom state
    /// to enter at `now`: nothing where nothing competes, else a competitor
    /// that none outranks. Between competitors of one rank either is right.
    pub open spec fn is_best(
        &self,
        choice: Option<Seq<char>>,
        now: WallClock,
        vetoed: Set<Seq<char>>,
    ) -> bool {
        match choice {
            None => forall|name: Seq<char>| !self.candidate(name, now, vetoed),
            Some(best) => {
                &&& self.candidate(best, now, vetoed)
                &&& forall|name: Seq<char>| #[trigger]
                    self.candidate(name, now, vetoed) ==> self.custom_states[name].rank()
                        <= self.custom_states[best].rank()
            },
        }
    }

    /// The announcement of the mode at the moment `at`. It carries the custom
    /// state that the mode names, where that state is registered.
    pub open spec fn mode_update(&self, at: Timestamp) -> ModeUpdateView {
        ModeUpdateView {
            timestamp: at,
            mode: self.mode,
            node_id: self.node_id,
            custom_state: match self.mode {
                LcgpModeView::Custom(name) => if self.custom_states.contains_key(name) {
                    Some(self.custom_states[name])
                } else {
                    None
                },
                _ => None,
            },
        }
    }

    /// Whether the mode names a registered custom state to which a behaviour
    /// is attached, so that the behaviour decides in place of the state.
    pub open spec fn overridden(&self) -> bool {
        self.mode matches LcgpModeView::Custom(name) && self.custom_states.contains_key(name)
            && self.behaviors.contains_key(name)
    }

    /// What the node does with a ring. `verdict` is what the attached
    /// behaviour said, where the mode is overridden, and is not looked at in
    /// a built-in mode.
    pub open spec fn decision(&self, verdict: Option<BehaviorResultView>) -> ChimeDecision {
        match self.mode {
            LcgpModeView::DoNotDisturb => ChimeDecision {
                should_chime: false,
                auto_response: None,
            },
            LcgpModeView::Available => ChimeDecision { should_chime: true, auto_response: None },
            LcgpModeView::ChillGrinding => ChimeDecision {
                should_chime: true,
                auto_response: Some((ChimeResponse::Positive, Some(CHILL_GRINDING_DELAY_MS))),
            },
            LcgpModeView::Grinding => ChimeDecision {
                should_chime: true,
                auto_response: Some((ChimeResponse::Positive, None)),
            },
            LcgpModeView::Custom(name) => {
                if !self.custom_states.contains_key(name) {
                    ChimeDecision { should_chime: false, auto_response: None }
                } else {
                    match verdict {
                        Some(said) => ChimeDecision {
                            should_chime: said.should_chime,
                            auto_response: match said.auto_response {
                                Some(response) => Some((response, said.delay_ms)),
                                None => None,
                            },
                        },
                        None => {
                            let state = self.custom_states[name];
                            ChimeDecision {
                                should_chime: state.should_chime,
                                auto_response: match state.auto_response {
                                    Some(response) => Some((response, state.auto_response_delay)),
                                    None => None,
                                },
                            }
                        },
                    }
                }
            },
        }
    }
}

/// Nanoseconds from `earlier` to `later`.
pub open spec fn nanos_between(earlier: Timestamp, later: Timestamp) -> int {
    (later.unix_seconds - earlier.unix_seconds) * 1_000_000_000 + (later.subsec_nanos
        - earlier.subsec_nanos)
}

/// A behaviour as a node keeps it, attached to the name of a custom state.
pub struct AttachedBehavior {
    pub behavior: Box<dyn CustomBehavior>,
}

/// Attaching a behaviour adds its name to the names that have one, and
/// puts it in the place of what that name had.
proof fn lemma_attached_names(
    attached: Map<Seq<char>, AttachedBehavior>,
    name: Seq<char>,
    new: AttachedBehavior,
)
    ensures
        attached.insert(name, new).dom() == attached.dom().insert(name),
        attached.insert(name, new)[name] == new,
{
}

/// Detaching a behaviour takes its name from the names that have one.
proof fn lemma_detached_names(attached: Map<Seq<char>, AttachedBehavior>, name: Seq<char>)
    ensures
        attached.remove(name).dom() == attached.dom().remove(name),
{
}

/// Whether `name` is one of `names`.
fn holds_name(names: &Vec<String>, name: &str) -> (found: bool)
    ensures
        found == names.deep_view().to_set().contains(name@),
{
    let mut i: usize = 0;
    while i < names.len()
        invariant
            i <= names.len(),
            forall|j: int| 0 <= j < i ==> names[j]@ != name@,
        decreases names.len() - i,
    {
        if str_eq(names[i].as_str(), name) {
            assert(names.deep_view()[i as int] == name@);
            return true;
        }
        i += 1;
    }
    false
}

/// A presence node: one per endpoint, for as long as the endpoint lives.
pub struct LcgpNode {
    node_id: String,
    mode: LcgpMode,
    custom_states: Registry<CustomLcgpState>,
    custom_behaviors: StringHashMap<AttachedBehavior>,
    last_mode_update: Timestamp,
    pending_responses: Vec<String>,
    state_conditions: StringHashMap<bool>,
}

impl View for LcgpNode {
    type V = LcgpNodeView;

    closed spec fn view(&self) -> LcgpNodeView {
        LcgpNodeView {
            node_id: self.node_id@,
            mode: self.mode@,
            custom_states: self.custom_states@.map_values(|state: CustomLcgpState| state@),
            behaviors: self.custom_behaviors@,
            last_mode_update: self.last_mode_update,
            pending: id_set(self.pending_responses@),
            conditions: self.state_conditions@,
        }
    }
}

impl LcgpNode {
    /// A node in mode `Available`, with nothing registered and nothing
    /// pending, whose mode counts as set at the clock reading `now`.
    pub fn new_at(node_id: String, now: Timestamp) -> (node: LcgpNode)
        ensures
            node@ == (LcgpNodeView {
                node_id: node_id@,
                mode: LcgpModeView::Available,
                custom_states: Map::empty(),
                behaviors: Map::empty(),
                last_mode_update: now,
                pending: Set::empty(),
                conditions: Map::empty(),
            }),
    {
        let node = LcgpNode {
            node_id,
            mode: LcgpMode::Available,
            custom_states: Registry::new(),
            custom_behaviors: StringHashMap::new(),
            last_mode_update: now,
            pending_responses: Vec::new(),
            state_conditions: StringHashMap::new(),
        };
        assert(node@.custom_states =~= Map::empty());
        assert(node@.pending =~= Set::empty());
        node
    }

    /// A node in mode `Available`, with nothing registered and nothing
    /// pending, whose mode counts as set now.
    pub fn new(node_id: String) -> (node: LcgpNode)
        ensures
            node@ == (LcgpNodeView {
                node_id: node_id@,
                mode: LcgpModeView::Available,
                custom_states: Map::empty(),
                behaviors: Map::empty(),
                last_mode_update: node@.last_mode_update,
                pending: Set::empty(),
                conditions: Map::empty(),
            }),
    {
        let now = utc_now();
        LcgpNode::new_at(node_id, now.timestamp)
    }

    /// The node's identifier.
    pub fn node_id(&self) -> (id: &String)
        ensures
            id@ == self@.node_id,
    {
        &self.node_id
    }

    /// Sets the mode, whatever it was, and records `now` as the moment of
    /// the change.
    pub fn set_mode_at(&mut self, mode: LcgpMode, now: Timestamp)
        ensures
            final(self)@ == (LcgpNodeView { mode: mode@, last_mode_update: now, ..old(self)@ }),
    {
        self.mode = mode;
        self.last_mode_update = now;
    }

    /// Sets the mode, whatever it was, and records the present moment as the
    /// moment of the change.
    pub fn set_mode(&mut self, mode: LcgpMode)
        ensures
            final(self)@ == (LcgpNodeView {
                mode: mode@,
                last_mode_update: final(self)@.last_mode_update,
                ..old(self)@
            }),
    {
        let now = utc_now();
        self.set_mode_at(mode, now.timestamp);
    }

    /// The mode.
    pub fn get_mode(&self) -> (mode: LcgpMode)
        ensures
            mode@ == self@.mode,
    {
        self.mode.clone()
    }

    /// Registers a custom state under its name. A state that was registered
    /// under that name before is replaced.
    pub fn register_custom_state(&mut self, state: CustomLcgpState)
        ensures
            final(self)@ == (LcgpNodeView {
                custom_states: old(self)@.custom_states.insert(state@.name, state@),
                ..old(self)@
            }),
    {
        let name = state.name.clone();
        let ghost before = self.custom_states@;
        self.custom_states.insert(name, state);
        assert(self@.custom_states =~= before.map_values(|s: CustomLcgpState| s@).insert(
            state@.name,
            state@,
        ));
    }

    /// Attaches a behaviour to the custom state of the given name. It takes
    /// the place of one that was attached to that name before.
    pub fn attach_behavior(&mut self, state_name: String, attached: AttachedBehavior)
        ensures
            final(self)@ == (LcgpNodeView {
                behaviors: old(self)@.behaviors.insert(state_name@, attached),
                ..old(self)@
            }),
            final(self)@.behaviors.dom() == old(self)@.behaviors.dom().insert(state_name@),
            final(self)@.behaviors[state_name@] == attached,
    {
        proof {
            lemma_attached_names(self.custom_behaviors@, state_name@, attached);
        }
        self.custom_behaviors.insert(state_name, attached);
    }

    /// Attaches a behaviour to the custom state of the given name. It takes
    /// the place of one that was attached to that name before.
    pub fn register_custom_behavior(&mut self, state_name: String, behavior: Box<dyn CustomBehavior>)
        ensures
            final(self)@ == (LcgpNodeView {
                behaviors: old(self)@.behaviors.insert(
                    state_name@,
                    AttachedBehavior { behavior },
                ),
                ..old(self)@
            }),
            final(self)@.behaviors.dom() == old(self)@.behaviors.dom().insert(state_name@),
    {
        self.attach_behavior(state_name, AttachedBehavior { behavior });
    }

    /// Takes the custom state of the given name out of the registry, if it
    /// is there. A node whose mode names the state keeps its mode, and from
    /// then on plays no ring.
    pub fn unregister_custom_state(&mut self, name: &str)
        ensures
            final(self)@ == (LcgpNodeView {
                custom_states: old(self)@.custom_states.remove(name@),
                ..old(self)@
            }),
    {
        let ghost before = self.custom_states@;
        self.custom_states.remove(name);
        assert(self@.custom_states =~= before.map_values(|s: CustomLcgpState| s@).remove(name@));
    }

    /// Detaches the behaviour from the custom state of the given name, if
    /// one is attached; the state's own fields decide again.
    pub fn unregister_custom_behavior(&mut self, state_name: &str)
        ensures
            final(self)@ == (LcgpNodeView {
                behaviors: old(self)@.behaviors.remove(state_name@),
                ..old(self)@
            }),
            final(self)@.behaviors.dom() == old(self)@.behaviors.dom().remove(state_name@),
    {
        proof {
            lemma_detached_names(self.custom_behaviors@, state_name@);
        }
        self.custom_behaviors.remove(state_name);
    }

    /// The custom state registered as `name`.
    pub fn get_custom_state(&self, name: &str) -> (state: Option<CustomLcgpState>)
        ensures
            state.deep_view() == (if self@.custom_states.contains_key(name@) {
                Some(self@.custom_states[name@])
            } else {
                None
            }),
    {
        match self.custom_states.get(name) {
            Some(state) => Some(state.clone()),
            None => None,
        }
    }

    /// Enters the custom state of the given name, if it is registered.
    /// Otherwise nothing changes and the error names the state.
    pub fn set_custom_mode_at(&mut self, state_name: String, now: Timestamp) -> (outcome: Result<
        (),
        NotFoundError,
    >)
        ensures
            old(self)@.custom_states.contains_key(state_name@) ==> outcome is Ok && final(self)@ == (
            LcgpNodeView {
                mode: LcgpModeView::Custom(state_name@),
                last_mode_update: now,
                ..old(self)@
            }),
            !old(self)@.custom_states.contains_key(state_name@) ==> final(self)@ == old(self)@,
            !old(self)@.custom_states.contains_key(state_name@) ==> (outcome matches Err(e)
                && e.name@ == state_name@),
    {
        if self.custom_states.contains_key(state_name.as_str()) {
            self.set_mode_at(LcgpMode::Custom(state_name), now);
            Ok(())
        } else {
            Err(NotFoundError { name: state_name })
        }
    }

    /// Enters the custom state of the given name, if it is registered.
    /// Otherwise nothing changes and the error names the state.
    pub fn set_custom_mode(&mut self, state_name: String) -> (outcome: Result<(), NotFoundError>)
        ensures
            old(self)@.custom_states.contains_key(state_name@) ==> outcome is Ok && final(self)@ == (
            LcgpNodeView {
                mode: LcgpModeView::Custom(state_name@),
                last_mode_update: final(self)@.last_mode_update,
                ..old(self)@
            }),
            !old(self)@.custom_states.contains_key(state_name@) ==> final(self)@ == old(self)@,
            !old(self)@.custom_states.contains_key(state_name@) ==> (outcome matches Err(e)
                && e.name@ == state_name@),
    {
        let now = utc_now();
        self.set_custom_mode_at(state_name, now.timestamp)
    }

    /// The names of the registered custom states, each once, in no
    /// particular order.
    pub fn get_available_custom_states(&self) -> (names: Vec<String>)
        ensures
            names.deep_view().no_duplicates(),
            forall|name: Seq<char>|
                names.deep_view().contains(name) <==> self@.custom_states.contains_key(name),
    {
        self.custom_states.keys()
    }

    /// Stores `value` for `key` in the condition store.
    pub fn set_condition(&mut self, key: String, value: bool)
        ensures
            final(self)@ == (LcgpNodeView {
                conditions: old(self)@.conditions.insert(key@, value),
                ..old(self)@
            }),
    {
        self.state_conditions.insert(key, value);
    }

    /// Whether the clock reading `now` lies in the window.
    pub fn is_time_in_range(&self, time_range: &TimeRange, now: &WallClock) -> (inside: bool)
        ensures
            inside == time_range@.contains(*now),
    {
        let mut on_day = false;
        let mut i: usize = 0;
        while i < time_range.days_of_week.len()
            invariant
                i <= time_range.days_of_week.len(),
                on_day == time_range.days_of_week@.take(i as int).contains(now.weekday),
            decreases time_range.days_of_week.len() - i,
        {
            let ghost more = time_range.days_of_week@.take(i + 1);
            if time_range.days_of_week[i] == now.weekday {
                assert(more[i as int] == now.weekday);
                on_day = true;
            }
            i += 1;
        }
        assert(time_range.days_of_week@.take(time_range.days_of_week.len() as int)
            =~= time_range.days_of_week@);
        if !on_day {
            return false;
        }
        let current: u32 = now.hour as u32 * 60 + now.minute as u32;
        let start: u32 = time_range.start_hour as u32 * 60 + time_range.start_minute as u32;
        let end: u32 = time_range.end_hour as u32 * 60 + time_range.end_minute as u32;
        if start <= end {
            current >= start && current < end
        } else {
            current >= start || current < end
        }
    }

    /// What the condition store holds for `key`; a key that is missing
    /// counts as `false`.
    pub fn condition(&self, key: &str) -> (value: bool)
        ensures
            value == self@.condition(key@),
    {
        match self.state_conditions.get(key) {
            Some(value) => *value,
            None => false,
        }
    }

    /// Whether one condition holds at the clock reading `now`.
    pub fn evaluate_condition(&self, condition: &StateCondition, now: &WallClock) -> (holds: bool)
        ensures
            holds == self@.condition_holds(condition@, *now),
    {
        match condition {
            StateCondition::UserPresence(required) => self.condition("user_presence") == *required,
            StateCondition::SystemLoad(bits) => {
                let high = 0x3F00_0000 < *bits && *bits <= 0x7F80_0000;
                match self.state_conditions.get("system_load") {
                    Some(stored) => *stored == high,
                    None => false,
                }
            },
            StateCondition::NetworkActivity(required) => self.condition("network_activity")
                == *required,
            StateCondition::CalendarBusy(required) => self.condition("calendar_busy") == *required,
            StateCondition::Custom(key, expected) => {
                let wanted = str_eq(expected.as_str(), "true");
                self.condition(key.as_str()) == wanted
            },
            StateCondition::TimeRange(time_range) => self.is_time_in_range(time_range, now),
        }
    }

    /// Whether the state's own rules let it be entered at `now`.
    pub fn is_eligible(&self, state: &CustomLcgpState, now: &WallClock) -> (eligible: bool)
        ensures
            eligible == self@.eligible(state@, *now),
    {
        if let Some(time_range) = &state.active_hours {
            if !self.is_time_in_range(time_range, now) {
                return false;
            }
        }
        let mut i: usize = 0;
        while i < state.conditions.len()
            invariant
                i <= state.conditions.len(),
                forall|j: int|
                    0 <= j < i ==> self@.condition_holds(#[trigger] state@.conditions[j], *now),
            decreases state.conditions.len() - i,
        {
            assert(state@.conditions[i as int] == state.conditions[i as int]@);
            if !self.evaluate_condition(&state.conditions[i], now) {
                return false;
            }
            i += 1;
        }
        true
    }

    /// Whether `state` may be entered at `now`: its own rules allow it and
    /// the behaviour attached to its name, where there is one, agrees. The
    /// behaviour is asked only where the state's own rules allow entry.
    pub fn evaluate_state_conditions(&self, state: &CustomLcgpState, now: &WallClock) -> (enter:
        bool)
        ensures
            enter ==> self@.eligible(state@, *now),
            !self@.behaviors.contains_key(state@.name) ==> enter == self@.eligible(state@, *now),
    {
        if !self.is_eligible(state, now) {
            return false;
        }
        match self.custom_behaviors.get(state.name.as_str()) {
            Some(attached) => attached.behavior.evaluate_conditions(state),
            None => true,
        }
    }

    /// The custom state to enter at `now`, if any, where the behaviours
    /// attached to the names in `vetoed` said no: among the registered states
    /// whose own rules allow entry and whose name is not vetoed, one of the
    /// highest priority.
    pub fn choose_custom_state(&self, now: &WallClock, vetoed: &Vec<String>) -> (best: Option<
        String,
    >)
        ensures
            self@.is_best(best.deep_view(), *now, vetoed.deep_view().to_set()),
    {
        let count = self.custom_states.len();
        let mut leader: Option<(usize, u8)> = None;
        let ghost refused = vetoed.deep_view().to_set();
        let ghost names = self.custom_states.names();
        let mut i: usize = 0;
        while i < count
            invariant
                i <= count,
                count == names.len(),
                names == self.custom_states.names(),
                names.no_duplicates(),
                refused == vetoed.deep_view().to_set(),
                leader matches Some((at, rank)) ==> at < i && self@.candidate(
                    names[at as int],
                    *now,
                    refused,
                ) && rank == self@.custom_states[names[at as int]].rank(),
                forall|j: int|
                    0 <= j < i && self@.candidate(#[trigger] names[j], *now, refused) ==> (
                    leader matches Some((at, rank)) && self@.custom_states[names[j]].rank()
                        <= rank),
            decreases count - i,
        {
            let state = self.custom_states.value_at(i);
            let name = self.custom_states.name_at(i);
            if self.is_eligible(state, now) && !holds_name(vetoed, name.as_str()) {
                let priority = match state.priority {
                    Some(p) => p,
                    None => 0,
                };
                let takes_lead = match leader {
                    Some((_, rank)) => priority > rank,
                    None => true,
                };
                if takes_lead {
                    leader = Some((i, priority));
                }
            }
            i += 1;
        }
        let best = match leader {
            Some((at, _)) => Some(self.custom_states.name_at(at).clone()),
            None => None,
        };
        proof {
            assert forall|name: Seq<char>| #[trigger]
                self@.candidate(name, *now, refused) implies (leader matches Some((at, rank))
                && self@.custom_states[name].rank() <= rank) by {
                self.custom_states.lemma_position(name);
            }
        }
        best
    }

    /// The names, each once, of the registered custom states whose behaviour
    /// was asked at `now` and said no. A behaviour is asked only where the
    /// state's own rules allow entry; where none is asked, none is named.
    fn vetoed_states(&self, now: &WallClock) -> (vetoed: Vec<String>)
        ensures
            forall|name: Seq<char>|
                vetoed.deep_view().contains(name) ==> #[trigger] self@.asks(name, *now),
            vetoed.deep_view().no_duplicates(),
            vetoed.deep_view().to_set().subset_of(self@.behaviors.dom()),
            (forall|name: Seq<char>| !self@.asks(name, *now)) ==> vetoed.deep_view()
                == Seq::<Seq<char>>::empty(),
    {
        let count = self.custom_states.len();
        let mut vetoed: Vec<String> = Vec::new();
        let ghost names = self.custom_states.names();
        let mut i: usize = 0;
        while i < count
            invariant
                i <= count,
                count == names.len(),
                names == self.custom_states.names(),
                names.no_duplicates(),
                forall|j: int|
                    0 <= j < vetoed.len() ==> self@.asks(#[trigger] vetoed[j]@, *now),
                forall|j: int|
                    0 <= j < vetoed.len() ==> exists|k: int|
                        0 <= k < i && names[k] == #[trigger] vetoed[j]@,
                forall|a: int, b: int|
                    0 <= a < b < vetoed.len() ==> vetoed[a]@ != vetoed[b]@,
            decreases count - i,
        {
            let state = self.custom_states.value_at(i);
            let name = self.custom_states.name_at(i);
            if self.is_eligible(state, now) {
                match self.custom_behaviors.get(name.as_str()) {
                    Some(attached) => {
                        if !attached.behavior.evaluate_conditions(state) {
                            proof {
                                assert forall|a: int| 0 <= a < vetoed.len() implies vetoed[a]@
                                    != names[i as int] by {
                                    let k = choose|k: int|
                                        0 <= k < i && names[k] == #[trigger] vetoed[a]@;
                                    assert(names[k] != names[i as int]);
                                }
                            }
                            vetoed.push(name.clone());
                        }
                    },
                    None => {},
                }
            }
            i += 1;
        }
        proof {
            let listed = vetoed.deep_view();
            assert forall|name: Seq<char>| listed.contains(name) implies #[trigger] self@.asks(
                name,
                *now,
            ) by {
                let j = listed.index_of(name);
                assert(vetoed[j]@ == name);
            }
            assert(listed.no_duplicates());
            if listed.len() > 0 {
                assert(listed.contains(listed[0]));
            }
        }
        vetoed
    }

    /// The custom state to enter at `now`, if any: among the registered
    /// states whose own rules allow entry and whose behaviour, where one is
    /// attached, agrees, one of the highest priority.
    ///
    /// What the behaviours say is not known beforehand, so the contract
    /// speaks of the set of names whose behaviour said no: whichever that
    /// set was, the answer is what [`LcgpNode::choose_custom_state`] gives
    /// for it. A node without behaviours has no such names.
    pub fn evaluate_auto_state_transitions_at(&self, now: &WallClock) -> (best: Option<String>)
        ensures
            exists|vetoed: Set<Seq<char>>|
                vetoed.subset_of(self@.behaviors.dom()) && #[trigger] self@.is_best(
                    best.deep_view(),
                    *now,
                    vetoed,
                ),
    {
        let vetoed = self.vetoed_states(now);
        let best = self.choose_custom_state(now, &vetoed);
        assert(self@.is_best(best.deep_view(), *now, vetoed.deep_view().to_set()));
        best
    }

    /// The custom state to enter now, if any: see
    /// [`LcgpNode::evaluate_auto_state_transitions_at`].
    pub fn evaluate_auto_state_transitions(&self) -> (best: Option<String>)
        ensures
            exists|now: WallClock, vetoed: Set<Seq<char>>|
                vetoed.subset_of(self@.behaviors.dom()) && #[trigger] self@.is_best(
                    best.deep_view(),
                    now,
                    vetoed,
                ),
    {
        let now = utc_now();
        self.evaluate_auto_state_transitions_at(&now)
    }

    /// Whether the mode has stood unchanged for the announce interval at the
    /// moment `now`.
    pub fn should_send_mode_update_at(&self, now: Timestamp) -> (due: bool)
        ensures
            due == (nanos_between(self@.last_mode_update, now) >= MODE_UPDATE_INTERVAL_SECS
                * 1_000_000_000),
    {
        let seconds: i128 = now.unix_seconds as i128 - self.last_mode_update.unix_seconds as i128;
        let nanos: i128 = now.subsec_nanos as i128 - self.last_mode_update.subsec_nanos as i128;
        let elapsed: i128 = seconds * 1_000_000_000 + nanos;
        elapsed >= MODE_UPDATE_INTERVAL_SECS as i128 * 1_000_000_000
    }

    /// Whether the mode has stood unchanged for the announce interval at
    /// the moment that the clock shows: see
    /// [`LcgpNode::should_send_mode_update_at`].
    pub fn should_send_mode_update(&self) -> (due: bool)
        ensures
            exists|now: Timestamp|
                due == (#[trigger] nanos_between(self@.last_mode_update, now)
                    >= MODE_UPDATE_INTERVAL_SECS * 1_000_000_000),
    {
        let now = utc_now();
        let due = self.should_send_mode_update_at(now.timestamp);
        due
    }

    /// The announcement of the node's mode, stamped `at`.
    pub fn create_mode_update_at(&self, at: Timestamp) -> (update: ModeUpdate)
        ensures
            update@ == self@.mode_update(at),
    {
        let mode = self.get_mode();
        let custom_state = match &mode {
            LcgpMode::Custom(name) => self.get_custom_state(name.as_str()),
            _ => None,
        };
        ModeUpdate { timestamp: at, mode, node_id: self.node_id.clone(), custom_state }
    }

    /// The announcement of the node's mode, stamped with the present moment.
    pub fn create_mode_update(&self) -> (update: ModeUpdate)
        ensures
            update@ == self@.mode_update(update@.timestamp),
    {
        let now = utc_now();
        self.create_mode_update_at(now.timestamp)
    }

    /// What the node does with a ring, given what the attached behaviour
    /// said of it (`None` where no behaviour was asked).
    pub fn decide(&self, verdict: &Option<BehaviorResult>) -> (decision: ChimeDecision)
        ensures
            decision == self@.decision(verdict.deep_view()),
    {
        match &self.mode {
            LcgpMode::DoNotDisturb => ChimeDecision { should_chime: false, auto_response: None },
            LcgpMode::Available => ChimeDecision { should_chime: true, auto_response: None },
            LcgpMode::ChillGrinding => ChimeDecision {
                should_chime: true,
                auto_response: Some((ChimeResponse::Positive, Some(CHILL_GRINDING_DELAY_MS))),
            },
            LcgpMode::Grinding => ChimeDecision {
                should_chime: true,
                auto_response: Some((ChimeResponse::Positive, None)),
            },
            LcgpMode::Custom(name) => {
                match self.custom_states.get(name.as_str()) {
                    None => ChimeDecision { should_chime: false, auto_response: None },
                    Some(state) => match verdict {
                        Some(said) => ChimeDecision {
                            should_chime: said.should_chime,
                            auto_response: match said.auto_response {
                                Some(response) => Some((response, said.delay_ms)),
                                None => None,
                            },
                        },
                        None => ChimeDecision {
                            should_chime: state.should_chime,
                            auto_response: match state.auto_response {
                                Some(response) => Some((response, state.auto_response_delay)),
                                None => None,
                            },
                        },
                    },
                }
            },
        }
    }

    /// Asks the behaviour that overrides the active custom state, if there
    /// is one, what to do with the ring.
    fn incoming_verdict(&self, chime: &ChimeMessage) -> (verdict: Option<BehaviorResult>)
        ensures
            verdict is Some <==> self@.overridden(),
    {
        match &self.mode {
            LcgpMode::Custom(name) => match self.custom_states.get(name.as_str()) {
                Some(state) => match self.custom_behaviors.get(name.as_str()) {
                    Some(attached) => Some(attached.behavior.on_incoming_chime(chime, state)),
                    None => None,
                },
                None => None,
            },
            _ => None,
        }
    }

    /// Asks the behaviour that overrides the active custom state, if there
    /// is one, how to react to the user's reply.
    fn user_response_verdict(&self, response: &ChimeResponse) -> (verdict: Option<BehaviorResult>)
        ensures
            verdict is Some <==> self@.overridden(),
    {
        match &self.mode {
            LcgpMode::Custom(name) => match self.custom_states.get(name.as_str()) {
                Some(state) => match self.custom_behaviors.get(name.as_str()) {
                    Some(attached) => Some(attached.behavior.on_user_response(response, state)),
                    None => None,
                },
                None => None,
            },
            _ => None,
        }
    }

    /// What the node does with the ring `chime`. Where a behaviour overrides
    /// the active custom state it is asked once, and what it says decides.
    pub fn chime_decision(&self, chime: &ChimeMessage) -> (decision: ChimeDecision)
        ensures
            !self@.overridden() ==> decision == self@.decision(None),
            self@.overridden() ==> exists|said: BehaviorResultView|
                decision == #[trigger] self@.decision(Some(said)),
    {
        let verdict = self.incoming_verdict(chime);
        let decision = self.decide(&verdict);
        decision
    }

    /// Whether the ring is played. Never in `DoNotDisturb`, always in the
    /// other three built-in modes, whatever the ring holds; in a custom
    /// state as the state says, or the behaviour attached to it; not at all
    /// in a custom state that is not registered.
    pub fn should_chime(&self, incoming_chime: &ChimeMessage) -> (chime: bool)
        ensures
            self@.mode is DoNotDisturb ==> !chime,
            self@.mode is Available || self@.mode is ChillGrinding || self@.mode is Grinding
                ==> chime,
            !self@.overridden() ==> chime == self@.decision(None).should_chime,
    {
        self.chime_decision(incoming_chime).should_chime
    }

    /// The reply that the node gives by itself, and the milliseconds to wait
    /// before it: none in `DoNotDisturb` and `Available`, a positive one
    /// after ten seconds in `ChillGrinding`, a positive one at once in
    /// `Grinding`; in a custom state as the state says, or the behaviour
    /// attached to it.
    pub fn should_auto_respond(&self, incoming_chime: &ChimeMessage) -> (reply: Option<
        (ChimeResponse, Option<u64>),
    >)
        ensures
            self@.mode is DoNotDisturb || self@.mode is Available ==> reply is None,
            self@.mode is ChillGrinding ==> reply == Some(
                (ChimeResponse::Positive, Some(10000u64)),
            ),
            self@.mode is Grinding ==> reply == Some((ChimeResponse::Positive, None::<u64>)),
            !self@.overridden() ==> reply == self@.decision(None).auto_response,
    {
        self.chime_decision(incoming_chime).auto_response
    }

    /// Notes that the ring `chime_id` waits for a reply.
    pub fn add_pending_response(&mut self, chime_id: String)
        ensures
            final(self)@ == (LcgpNodeView {
                pending: old(self)@.pending.insert(chime_id@),
                ..old(self)@
            }),
    {
        let ghost before = self.pending_responses@;
        self.pending_responses.push(chime_id);
        proof {
            let after = self.pending_responses@;
            assert forall|id: Seq<char>| id_set(after).contains(id) <==> id_set(before).insert(
                chime_id@,
            ).contains(id) by {
                if id_set(before).contains(id) {
                    let i = choose|i: int| 0 <= i < before.len() && (#[trigger] before[i])@ == id;
                    assert(after[i]@ == id);
                }
                if id == chime_id@ {
                    assert(after[before.len() as int]@ == id);
                }
            }
            assert(id_set(after) =~= id_set(before).insert(chime_id@));
        }
    }

    /// Notes that the ring `chime_id` waits for a reply no longer. Nothing
    /// changes where it did not wait.
    pub fn remove_pending_response(&mut self, chime_id: &str)
        ensures
            final(self)@ == (LcgpNodeView {
                pending: old(self)@.pending.remove(chime_id@),
                ..old(self)@
            }),
    {
        let ghost before = self.pending_responses@;
        let mut kept: Vec<String> = Vec::new();
        let mut i: usize = 0;
        while i < self.pending_responses.len()
            invariant
                i <= self.pending_responses.len(),
                self.pending_responses@ == before,
                *self == *old(self),
                id_set(kept@) == id_set(before.take(i as int)).remove(chime_id@),
            decreases self.pending_responses.len() - i,
        {
            let ghost kept_before = kept@;
            let ghost seen = before.take(i as int);
            let ghost more = before.take(i + 1);
            let keep = !str_eq(self.pending_responses[i].as_str(), chime_id);
            if keep {
                kept.push(self.pending_responses[i].clone());
            }
            proof {
                assert forall|id: Seq<char>| id_set(kept@).contains(id) <==> (id != chime_id@
                    && id_set(more).contains(id)) by {
                    if id_set(kept@).contains(id) {
                        let j = choose|j: int| 0 <= j < kept@.len() && (#[trigger] kept@[j])@ == id;
                        if j < kept_before.len() {
                            assert(id_set(kept_before).contains(id));
                            let k = choose|k: int|
                                0 <= k < seen.len() && (#[trigger] seen[k])@ == id;
                            assert(more[k]@ == id);
                        } else {
                            assert(more[i as int]@ == id);
                        }
                    }
                    if id != chime_id@ && id_set(more).contains(id) {
                        let k = choose|k: int| 0 <= k < more.len() && (#[trigger] more[k])@ == id;
                        if k < i {
                            assert(id_set(kept_before).contains(id));
                            let j = choose|j: int|
                                0 <= j < kept_before.len() && (#[trigger] kept_before[j])@ == id;
                            assert(kept@[j]@ == id);
                        } else {
                            assert(kept@[kept_before.len() as int]@ == id);
                        }
                    }
                }
            }
            i += 1;
        }
        assert(before.take(before.len() as int) =~= before);
        self.pending_responses = kept;
    }

    /// Whether the ring `chime_id` waits for a reply.
    pub fn has_pending_response(&self, chime_id: &str) -> (pending: bool)
        ensures
            pending == self@.pending.contains(chime_id@),
    {
        let mut i: usize = 0;
        while i < self.pending_responses.len()
            invariant
                i <= self.pending_responses.len(),
                forall|j: int| 0 <= j < i ==> self.pending_responses[j]@ != chime_id@,
            decreases self.pending_responses.len() - i,
        {
            if str_eq(self.pending_responses[i].as_str(), chime_id) {
                return true;
            }
            i += 1;
        }
        false
    }

    /// Resolves the ring `chime_id` in one step: says whether it waited for
    /// a reply, and notes that it waits no longer. Of several callers that
    /// resolve one ring, one at most is told that it waited.
    pub fn take_pending_response(&mut self, chime_id: &str) -> (was_pending: bool)
        ensures
            was_pending == old(self)@.pending.contains(chime_id@),
            final(self)@ == (LcgpNodeView {
                pending: old(self)@.pending.remove(chime_id@),
                ..old(self)@
            }),
    {
        let was_pending = self.has_pending_response(chime_id);
        self.remove_pending_response(chime_id);
        was_pending
    }

    /// A ring from this node, stamped `at`. The node that rings takes the
    /// mode `Grinding`.
    pub fn create_chime_message_at(
        &mut self,
        message: Option<String>,
        chime_id: Option<String>,
        notes: Option<Vec<String>>,
        chords: Option<Vec<String>>,
        at: Timestamp,
    ) -> (chime: ChimeMessage)
        ensures
            final(self)@ == (LcgpNodeView {
                mode: LcgpModeView::Grinding,
                last_mode_update: at,
                ..old(self)@
            }),
            chime@ == (ChimeMessageView {
                timestamp: at,
                from_node: old(self)@.node_id,
                message: message.deep_view(),
                chime_id: chime_id.deep_view(),
                notes: notes.deep_view(),
                chords: chords.deep_view(),
            }),
    {
        self.set_mode_at(LcgpMode::Grinding, at);
        ChimeMessage {
            timestamp: at,
            from_node: self.node_id.clone(),
            message,
            chime_id,
            notes,
            chords,
        }
    }

    /// A ring from this node, stamped with the present moment. The node that
    /// rings takes the mode `Grinding`.
    pub fn create_chime_message(
        &mut self,
        message: Option<String>,
        chime_id: Option<String>,
        notes: Option<Vec<String>>,
        chords: Option<Vec<String>>,
    ) -> (chime: ChimeMessage)
        ensures
            final(self)@ == (LcgpNodeView {
                mode: LcgpModeView::Grinding,
                last_mode_update: chime@.timestamp,
                ..old(self)@
            }),
            chime@ == (ChimeMessageView {
                timestamp: chime@.timestamp,
                from_node: old(self)@.node_id,
                message: message.deep_view(),
                chime_id: chime_id.deep_view(),
                notes: notes.deep_view(),
                chords: chords.deep_view(),
            }),
    {
        let now = utc_now();
        self.create_chime_message_at(message, chime_id, notes, chords, now.timestamp)
    }

    /// A reply from this node to the ring `original_chime_id`, stamped `at`.
    pub fn create_response_at(
        &self,
        response: ChimeResponse,
        original_chime_id: Option<String>,
        at: Timestamp,
    ) -> (reply: ChimeResponseMessage)
        ensures
            reply@ == (ChimeResponseMessageView {
                timestamp: at,
                response,
                node_id: self@.node_id,
                original_chime_id: original_chime_id.deep_view(),
            }),
    {
        ChimeResponseMessage {
            timestamp: at,
            response,
            node_id: self.node_id.clone(),
            original_chime_id,
        }
    }

    /// A reply from this node to the ring `original_chime_id`, stamped with
    /// the present moment.
    pub fn create_response(&self, response: ChimeResponse, original_chime_id: Option<String>) -> (reply:
        ChimeResponseMessage)
        ensures
            reply@ == (ChimeResponseMessageView {
                timestamp: reply@.timestamp,
                response,
                node_id: self@.node_id,
                original_chime_id: original_chime_id.deep_view(),
            }),
    {
        let now = utc_now();
        self.create_response_at(response, original_chime_id, now.timestamp)
    }
}

/// An automatic reply that waits for its delay to pass.
#[derive(Debug, PartialEq)]
pub struct DelayedResponse {
    /// The ring that is to be answered.
    pub chime_id: Option<String>,
    pub response: ChimeResponse,
    /// Milliseconds to wait before the reply is due.
    pub delay_ms: u64,
}

/// [`DelayedResponse`] with its text as characters.
pub struct DelayedResponseView {
    pub chime_id: Option<Seq<char>>,
    pub response: ChimeResponse,
    pub delay_ms: u64,
}

impl DeepView for DelayedResponse {
    type V = DelayedResponseView;

    open spec fn deep_view(&self) -> DelayedResponseView {
        self@
    }
}

impl View for DelayedResponse {
    type V = DelayedResponseView;

    open spec fn view(&self) -> DelayedResponseView {
        DelayedResponseView {
            chime_id: self.chime_id.deep_view(),
            response: self.response,
            delay_ms: self.delay_ms,
        }
    }
}

/// The state of a presence handler, as mathematics.
pub struct LcgpHandlerView {
    pub node: LcgpNodeView,
    /// The automatic replies that were put off and not yet handed out.
    pub scheduled: Seq<DelayedResponseView>,
}

impl LcgpNodeView {
    /// Whether the behaviour attached to `name` is asked at `now` if the
    /// state may be entered: `name` is a registered state whose own rules
    /// allow entry, and a behaviour is attached to it. No other behaviour has
    /// a say.
    pub open spec fn asks(&self, name: Seq<char>, now: WallClock) -> bool {
        &&& self.custom_states.contains_key(name)
        &&& self.eligible(self.custom_states[name], now)
        &&& self.behaviors.contains_key(name)
    }

    /// The node once the ring `chime_id`, where the ring has an identifier,
    /// waits for a reply.
    pub open spec fn awaiting(self, chime_id: Option<Seq<char>>) -> LcgpNodeView {
        match chime_id {
            Some(id) => LcgpNodeView { pending: self.pending.insert(id), ..self },
            None => self,
        }
    }

    /// The node once the ring `chime_id`, where the ring has an identifier,
    /// waits for a reply no longer.
    pub open spec fn resolved(self, chime_id: Option<Seq<char>>) -> LcgpNodeView {
        match chime_id {
            Some(id) => LcgpNodeView { pending: self.pending.remove(id), ..self },
            None => self,
        }
    }

    /// The node once it was asked at the moment `at` to enter the custom
    /// state `name`: it enters a state that is registered and stays as it is
    /// for one that is not.
    pub open spec fn entering(self, name: Seq<char>, at: Timestamp) -> LcgpNodeView {
        if self.custom_states.contains_key(name) {
            LcgpNodeView { mode: LcgpModeView::Custom(name), last_mode_update: at, ..self }
        } else {
            self
        }
    }

    /// The reply of this node to the ring `chime_id`, stamped `at`.
    pub open spec fn reply(
        self,
        response: ChimeResponse,
        chime_id: Option<Seq<char>>,
        at: Timestamp,
    ) -> ChimeResponseMessageView {
        ChimeResponseMessageView {
            timestamp: at,
            response,
            node_id: self.node_id,
            original_chime_id: chime_id,
        }
    }
}

impl LcgpHandlerView {
    /// The handler after a ring with the identifier `chime_id` on which the
    /// node decided `decision`. A ring that is not played, or that is
    /// answered at once, leaves no trace. One that is answered later waits
    /// for its reply and has that reply put off; one that is not answered by
    /// the node waits for the user.
    pub open spec fn after_ring(self, chime_id: Option<Seq<char>>, decision: ChimeDecision)
        -> LcgpHandlerView {
        if !decision.should_chime {
            self
        } else {
            match decision.auto_response {
                Some((response, None)) => self,
                Some((response, Some(delay_ms))) => LcgpHandlerView {
                    node: self.node.awaiting(chime_id),
                    scheduled: self.scheduled.push(
                        DelayedResponseView { chime_id, response, delay_ms },
                    ),
                },
                None => LcgpHandlerView { node: self.node.awaiting(chime_id), ..self },
            }
        }
    }

    /// The reply that is due at once to a ring on which the node decided
    /// `decision`: the automatic reply of a ring that is played and answered
    /// without delay, and none otherwise.
    pub open spec fn reply_to_ring(
        self,
        chime_id: Option<Seq<char>>,
        decision: ChimeDecision,
        at: Timestamp,
    ) -> Option<ChimeResponseMessageView> {
        if decision.should_chime {
            match decision.auto_response {
                Some((response, None)) => Some(self.node.reply(response, chime_id, at)),
                _ => None,
            }
        } else {
            None
        }
    }

    /// Whether handling a ring took the handler from `self` to `after` and
    /// produced `reply`, where the node decided `decision`. The reply is
    /// stamped with some moment.
    pub open spec fn ring_handled(
        self,
        after: LcgpHandlerView,
        chime_id: Option<Seq<char>>,
        decision: ChimeDecision,
        reply: Option<ChimeResponseMessageView>,
    ) -> bool {
        &&& after == self.after_ring(chime_id, decision)
        &&& exists|at: Timestamp| reply == #[trigger] self.reply_to_ring(chime_id, decision, at)
    }

    /// The handler after the delay of the put-off reply `due` has passed:
    /// the ring that it answers waits no longer.
    pub open spec fn after_delay(self, due: DelayedResponseView) -> LcgpHandlerView {
        LcgpHandlerView { node: self.node.resolved(due.chime_id), ..self }
    }

    /// The reply that goes out when the delay of the put-off reply `due` has
    /// passed: the reply that was put off, if its ring still waits for one,
    /// and none if the ring was resolved meanwhile or has no identifier.
    pub open spec fn reply_after_delay(self, due: DelayedResponseView, at: Timestamp) -> Option<
        ChimeResponseMessageView,
    > {
        match due.chime_id {
            Some(id) => if self.node.pending.contains(id) {
                Some(self.node.reply(due.response, due.chime_id, at))
            } else {
                None
            },
            None => None,
        }
    }

    /// The handler after the user replied to the ring `chime_id` at the
    /// moment `at`: the ring waits no longer, and the node was asked to
    /// enter the custom state `next_state`, where the behaviour named one.
    pub open spec fn after_user_response(
        self,
        chime_id: Option<Seq<char>>,
        next_state: Option<Seq<char>>,
        at: Timestamp,
    ) -> LcgpHandlerView {
        let node = self.node.resolved(chime_id);
        LcgpHandlerView {
            node: match next_state {
                Some(name) => node.entering(name, at),
                None => node,
            },
            ..self
        }
    }

    /// Whether handling the user's reply took the handler from `self` to
    /// `after` and produced `reply`, where the behaviour asked for
    /// `next_state`. The reply is always there, stamped with some moment.
    pub open spec fn user_response_handled(
        self,
        after: LcgpHandlerView,
        response: ChimeResponse,
        chime_id: Option<Seq<char>>,
        next_state: Option<Seq<char>>,
        reply: Option<ChimeResponseMessageView>,
    ) -> bool {
        exists|at: Timestamp|
            after == #[trigger] self.after_user_response(chime_id, next_state, at) && reply
                == Some(self.node.reply(response, chime_id, at))
    }

    /// The handler after the periodic look at the custom states found
    /// `choice` at the moment `at`: the node enters the state that was found
    /// unless it is in that state already.
    pub open spec fn after_auto_choice(self, choice: Option<Seq<char>>, at: Timestamp)
        -> LcgpHandlerView {
        match choice {
            Some(name) => if self.node.mode == LcgpModeView::Custom(name) {
                self
            } else {
                LcgpHandlerView { node: self.node.entering(name, at), ..self }
            },
            None => self,
        }
    }

    /// The announcement that is due at the moment `now`: that of the node's
    /// mode, if the mode has stood unchanged for the announce interval, and
    /// none otherwise.
    pub open spec fn due_mode_update(self, now: Timestamp) -> Option<ModeUpdateView> {
        if nanos_between(self.node.last_mode_update, now) >= MODE_UPDATE_INTERVAL_SECS
            * 1_000_000_000 {
            Some(self.node.mode_update(now))
        } else {
            None
        }
    }

    /// The state that the periodic look makes the node enter, if any.
    pub open spec fn entered_by_auto_choice(self, choice: Option<Seq<char>>) -> Option<Seq<char>> {
        match choice {
            Some(name) => if self.node.mode != LcgpModeView::Custom(name)
                && self.node.custom_states.contains_key(name) {
                Some(name)
            } else {
                None
            },
            None => None,
        }
    }
}

/// The presence handler: it turns a ring into a decision, keeps the replies
/// that were put off, and runs the node's periodic duties one step at a time.
/// Whoever owns the handler owns the node; to wait, and to send what the
/// handler returns, is the owner's part.
pub struct LcgpHandler {
    pub node: LcgpNode,
    /// Replies that were put off and not yet handed out for waiting.
    pub chill_grinding_tasks: Vec<DelayedResponse>,
}

impl View for LcgpHandler {
    type V = LcgpHandlerView;

    open spec fn view(&self) -> LcgpHandlerView {
        LcgpHandlerView { node: self.node@, scheduled: self.chill_grinding_tasks.deep_view() }
    }
}

impl LcgpHandler {
    /// A handler for `node`, with no reply put off.
    pub fn new(node: LcgpNode) -> (handler: LcgpHandler)
        ensures
            handler@ == (LcgpHandlerView { node: node@, scheduled: Seq::empty() }),
    {
        let handler = LcgpHandler { node, chill_grinding_tasks: Vec::new() };
        assert(handler.chill_grinding_tasks.deep_view() =~= Seq::empty());
        handler
    }

    /// Carries out what the node decided on a ring with the identifier
    /// `chime_id`, at the moment `at`, and returns the reply that is to be
    /// sent at once, if any.
    pub fn apply_decision_at(
        &mut self,
        chime_id: Option<String>,
        decision: ChimeDecision,
        at: Timestamp,
    ) -> (reply: Option<ChimeResponseMessage>)
        ensures
            final(self)@ == old(self)@.after_ring(chime_id.deep_view(), decision),
            reply.deep_view() == old(self)@.reply_to_ring(chime_id.deep_view(), decision, at),
    {
        if !decision.should_chime {
            return None;
        }
        match decision.auto_response {
            Some((response, None)) => Some(self.node.create_response_at(response, chime_id, at)),
            Some((response, Some(delay_ms))) => {
                if let Some(id) = &chime_id {
                    self.node.add_pending_response(id.clone());
                }
                let ghost before = self.chill_grinding_tasks.deep_view();
                let task = DelayedResponse { chime_id, response, delay_ms };
                let ghost pushed = task@;
                self.chill_grinding_tasks.push(task);
                assert(self.chill_grinding_tasks.deep_view() =~= before.push(pushed));
                None
            },
            None => {
                if let Some(id) = &chime_id {
                    self.node.add_pending_response(id.clone());
                }
                None
            },
        }
    }

    /// Handles a ring. A ring that the node does not play is dropped. One
    /// that the node answers at once has its reply returned, for the caller
    /// to send. One that the node answers after a delay is noted as waiting
    /// and its reply is put off: see [`LcgpHandler::take_scheduled_responses`].
    /// Any other is noted as waiting for the user.
    ///
    /// Where a behaviour overrides the active custom state, it is asked
    /// once, and the contract holds for what it said.
    pub fn handle_incoming_chime(&mut self, chime: ChimeMessage) -> (reply: Option<
        ChimeResponseMessage,
    >)
        ensures
            !old(self)@.node.overridden() ==> old(self)@.ring_handled(
                final(self)@,
                chime@.chime_id,
                old(self)@.node.decision(None),
                reply.deep_view(),
            ),
            old(self)@.node.overridden() ==> exists|said: BehaviorResultView| #[trigger]
                old(self)@.ring_handled(
                    final(self)@,
                    chime@.chime_id,
                    old(self)@.node.decision(Some(said)),
                    reply.deep_view(),
                ),
    {
        let verdict = self.node.incoming_verdict(&chime);
        let decision = self.node.decide(&verdict);
        let now = utc_now();
        let ghost before = self@;
        let ghost id = chime@.chime_id;
        let reply = self.apply_decision_at(chime.chime_id, decision, now.timestamp);
        proof {
            assert(before.ring_handled(self@, id, decision, reply.deep_view()));
        }
        reply
    }

    /// Hands out the replies that were put off since the last call, oldest
    /// first. The caller waits out the delay of each and then calls
    /// [`LcgpHandler::complete_delayed_response`] with it.
    pub fn take_scheduled_responses(&mut self) -> (scheduled: Vec<DelayedResponse>)
        ensures
            scheduled.deep_view() == old(self)@.scheduled,
            final(self)@ == (LcgpHandlerView { scheduled: Seq::empty(), ..old(self)@ }),
    {
        let mut scheduled: Vec<DelayedResponse> = Vec::new();
        std::mem::swap(&mut scheduled, &mut self.chill_grinding_tasks);
        assert(self.chill_grinding_tasks.deep_view() =~= Seq::empty());
        scheduled
    }

    /// Called when the delay of a put-off reply has passed, at the moment
    /// `at`. Returns the reply if its ring still waits for one, and notes in
    /// the same step that the ring waits no longer. Returns nothing if the
    /// ring was resolved meanwhile.
    pub fn complete_delayed_response_at(&mut self, due: &DelayedResponse, at: Timestamp) -> (reply:
        Option<ChimeResponseMessage>)
        ensures
            final(self)@ == old(self)@.after_delay(due@),
            reply.deep_view() == old(self)@.reply_after_delay(due@, at),
    {
        match &due.chime_id {
            Some(id) => {
                if self.node.take_pending_response(id.as_str()) {
                    Some(self.node.create_response_at(due.response, Some(id.clone()), at))
                } else {
                    None
                }
            },
            None => None,
        }
    }

    /// Called when the delay of a put-off reply has passed. Returns the
    /// reply, stamped with the present moment, if its ring still waits for
    /// one, and notes in the same step that the ring waits no longer.
    pub fn complete_delayed_response(&mut self, due: &DelayedResponse) -> (reply: Option<
        ChimeResponseMessage,
    >)
        ensures
            final(self)@ == old(self)@.after_delay(due@),
            exists|at: Timestamp|
                reply.deep_view() == #[trigger] old(self)@.reply_after_delay(due@, at),
    {
        let now = utc_now();
        let reply = self.complete_delayed_response_at(due, now.timestamp);
        reply
    }

    /// Carries out the user's reply to the ring `chime_id` at the moment
    /// `at`, where the behaviour asked for the custom state `next_state`.
    pub fn apply_user_response_at(
        &mut self,
        response: ChimeResponse,
        chime_id: Option<String>,
        next_state: Option<String>,
        at: Timestamp,
    ) -> (reply: Option<ChimeResponseMessage>)
        ensures
            final(self)@ == old(self)@.after_user_response(
                chime_id.deep_view(),
                next_state.deep_view(),
                at,
            ),
            reply.deep_view() == Some(old(self)@.node.reply(response, chime_id.deep_view(), at)),
    {
        if let Some(id) = &chime_id {
            self.node.remove_pending_response(id.as_str());
        }
        if let Some(name) = next_state {
            let _ = self.node.set_custom_mode_at(name, at);
        }
        Some(self.node.create_response_at(response, chime_id, at))
    }

    /// Handles the user's own reply to a ring: the ring waits no longer,
    /// whether or not it waited, and the reply is returned for the caller to
    /// send. Where a behaviour overrides the active custom state it is told
    /// of the reply, and the node is asked to enter the state that it names.
    pub fn handle_user_response(&mut self, response: ChimeResponse, chime_id: Option<String>) -> (reply:
        Option<ChimeResponseMessage>)
        ensures
            reply is Some,
            !old(self)@.node.overridden() ==> old(self)@.user_response_handled(
                final(self)@,
                response,
                chime_id.deep_view(),
                None,
                reply.deep_view(),
            ),
            old(self)@.node.overridden() ==> exists|next_state: Option<Seq<char>>| #[trigger]
                old(self)@.user_response_handled(
                    final(self)@,
                    response,
                    chime_id.deep_view(),
                    next_state,
                    reply.deep_view(),
                ),
    {
        let verdict = self.node.user_response_verdict(&response);
        let next_state = match verdict {
            Some(said) => said.next_state,
            None => None,
        };
        let now = utc_now();
        let ghost before = self@;
        let ghost id = chime_id.deep_view();
        let ghost next = next_state.deep_view();
        let reply = self.apply_user_response_at(response, chime_id, next_state, now.timestamp);
        proof {
            assert(before.user_response_handled(self@, response, id, next, reply.deep_view()));
        }
        reply
    }

    /// Whether the ring is played: see [`LcgpNode::should_chime`].
    pub fn should_chime(&self, chime_message: &ChimeMessage) -> (chime: bool)
        ensures
            self@.node.mode is DoNotDisturb ==> !chime,
            self@.node.mode is Available || self@.node.mode is ChillGrinding
                || self@.node.mode is Grinding ==> chime,
            !self@.node.overridden() ==> chime == self@.node.decision(None).should_chime,
    {
        self.node.should_chime(chime_message)
    }

    /// One periodic look at the custom states, at the clock reading `now`:
    /// the node enters the state that
    /// [`LcgpNode::evaluate_auto_state_transitions_at`] finds, unless it is
    /// in that state already. Returns the state that was entered.
    pub fn auto_state_tick_at(&mut self, now: &WallClock) -> (entered: Option<String>)
        ensures
            exists|choice: Option<Seq<char>>, vetoed: Set<Seq<char>>|
                vetoed.subset_of(old(self)@.node.behaviors.dom()) && #[trigger] old(self)@.node.is_best(
                    choice,
                    *now,
                    vetoed,
                ) && final(self)@ == old(self)@.after_auto_choice(choice, now.timestamp)
                    && entered.deep_view() == old(self)@.entered_by_auto_choice(choice),
    {
        let ghost before = self@;
        let best = self.node.evaluate_auto_state_transitions_at(now);
        let ghost choice = best.deep_view();
        let ghost vetoed = choose|vetoed: Set<Seq<char>>|
            vetoed.subset_of(before.node.behaviors.dom()) && #[trigger] before.node.is_best(
                choice,
                *now,
                vetoed,
            );
        let entered = match best {
            Some(name) => {
                let active = match &self.node.mode {
                    LcgpMode::Custom(current) => str_eq(current.as_str(), name.as_str()),
                    _ => false,
                };
                if active {
                    None
                } else {
                    let entered = name.clone();
                    match self.node.set_custom_mode_at(name, now.timestamp) {
                        Ok(()) => Some(entered),
                        Err(_) => None,
                    }
                }
            },
            None => None,
        };
        entered
    }

    /// One periodic look at the custom states, now.
    pub fn auto_state_tick(&mut self) -> (entered: Option<String>)
        ensures
            exists|choice: Option<Seq<char>>, now: WallClock, vetoed: Set<Seq<char>>|
                vetoed.subset_of(old(self)@.node.behaviors.dom()) && #[trigger] old(self)@.node.is_best(
                    choice,
                    now,
                    vetoed,
                ) && final(self)@ == old(self)@.after_auto_choice(choice, now.timestamp)
                    && entered.deep_view() == old(self)@.entered_by_auto_choice(choice),
    {
        let now = utc_now();
        self.auto_state_tick_at(&now)
    }

    /// One periodic look at the mode, at the moment `now`: the announcement
    /// of the mode, if the mode has stood unchanged for the announce
    /// interval, and nothing otherwise.
    pub fn mode_update_tick_at(&self, now: Timestamp) -> (update: Option<ModeUpdate>)
        ensures
            update.deep_view() == self@.due_mode_update(now),
    {
        if self.node.should_send_mode_update_at(now) {
            Some(self.node.create_mode_update_at(now))
        } else {
            None
        }
    }

    /// One periodic look at the mode, now: what
    /// [`LcgpHandler::mode_update_tick_at`] returns for the moment that the
    /// clock shows.
    pub fn mode_update_tick(&self) -> (update: Option<ModeUpdate>)
        ensures
            exists|now: Timestamp| update.deep_view() == #[trigger] self@.due_mode_update(now),
    {
        let now = utc_now();
        let update = self.mode_update_tick_at(now.timestamp);
        update
    }

    /// Registers a custom state with the node.
    pub fn register_custom_state(&mut self, state: CustomLcgpState)
        ensures
            final(self)@ == (LcgpHandlerView {
                node: LcgpNodeView {
                    custom_states: old(self)@.node.custom_states.insert(state@.name, state@),
                    ..old(self)@.node
                },
                ..old(self)@
            }),
    {
        self.node.register_custom_state(state);
    }

    /// Attaches a behaviour to the custom state of the given name. It takes
    /// the place of one that was attached to that name before.
    pub fn register_custom_behavior(&mut self, state_name: String, behavior: Box<dyn CustomBehavior>)
        ensures
            final(self)@ == (LcgpHandlerView {
                node: LcgpNodeView {
                    behaviors: old(self)@.node.behaviors.insert(
                        state_name@,
                        AttachedBehavior { behavior },
                    ),
                    ..old(self)@.node
                },
                ..old(self)@
            }),
            final(self)@.node.behaviors.dom() == old(self)@.node.behaviors.dom().insert(
                state_name@,
            ),
    {
        self.node.attach_behavior(state_name, AttachedBehavior { behavior });
    }

    /// Stores `value` for `key` in the node's condition store.
    pub fn set_condition(&mut self, key: String, value: bool)
        ensures
            final(self)@ == (LcgpHandlerView {
                node: LcgpNodeView {
                    conditions: old(self)@.node.conditions.insert(key@, value),
                    ..old(self)@.node
                },
                ..old(self)@
            }),
    {
        self.node.set_condition(key, value);
    }

    /// The names of the registered custom states, each once, in no
    /// particular order.
    pub fn get_available_custom_states(&self) -> (names: Vec<String>)
        ensures
            names.deep_view().no_duplicates(),
            forall|name: Seq<char>|
                names.deep_view().contains(name) <==> self@.node.custom_states.contains_key(name),
    {
        self.node.get_available_custom_states()
    }

    /// Enters the custom state of the given name, if it is registered.
    /// Otherwise nothing changes and the error names the state.
    pub fn set_custom_mode(&mut self, state_name: String) -> (outcome: Result<(), NotFoundError>)
        ensures
            old(self)@.node.custom_states.contains_key(state_name@) ==> outcome is Ok
                && final(self)@ == (LcgpHandlerView {
                node: LcgpNodeView {
                    mode: LcgpModeView::Custom(state_name@),
                    last_mode_update: final(self)@.node.last_mode_update,
                    ..old(self)@.node
                },
                ..old(self)@
            }),
            !old(self)@.node.custom_states.contains_key(state_name@) ==> final(self)@ == old(
                self,
            )@,
            !old(self)@.node.custom_states.contains_key(state_name@) ==> (outcome matches Err(e)
                && e.name@ == state_name@),
    {
        self.node.set_custom_mode(state_name)
    }
}

/// In the built-in modes what a behaviour says plays no part: a node in
/// `DoNotDisturb` never plays a ring, and a node in `Available`,
/// `ChillGrinding` or `Grinding` plays every ring.
pub proof fn lemma_builtin_modes_decide_alone(node: LcgpNodeView, verdict: Option<BehaviorResultView>)
    ensures
        node.mode is DoNotDisturb ==> !node.decision(verdict).should_chime,
        node.mode is Available || node.mode is ChillGrinding || node.mode is Grinding
            ==> node.decision(verdict).should_chime,
        !(node.mode is Custom) ==> node.decision(verdict) == node.decision(None),
{
}

/// A node that is asked to enter a custom state enters it exactly when the
/// state is registered, and is unchanged when it is not.
pub proof fn lemma_custom_mode_needs_registration(node: LcgpNodeView, name: Seq<char>, at: Timestamp)
    ensures
        node.custom_states.contains_key(name) ==> node.entering(name, at).mode
            == LcgpModeView::Custom(name),
        !node.custom_states.contains_key(name) ==> node.entering(name, at) == node,
{
}

/// A ring that the node does not play is dropped: nothing waits, nothing is
/// put off and nothing is answered. So it is with every ring that reaches a
/// node in `DoNotDisturb`.
pub proof fn lemma_silenced_ring_leaves_no_trace(
    before: LcgpHandlerView,
    after: LcgpHandlerView,
    chime_id: Option<Seq<char>>,
    decision: ChimeDecision,
    reply: Option<ChimeResponseMessageView>,
)
    requires
        before.ring_handled(after, chime_id, decision, reply),
        !decision.should_chime,
    ensures
        after == before,
        reply is None,
        before.node.mode is DoNotDisturb ==> !before.node.decision(None).should_chime,
{
}

/// A ring that reaches a node in `Available` waits for the user: it is not
/// answered and no reply is put off.
pub proof fn lemma_available_waits_for_the_user(
    before: LcgpHandlerView,
    after: LcgpHandlerView,
    ring: Seq<char>,
    reply: Option<ChimeResponseMessageView>,
)
    requires
        before.node.mode is Available,
        before.ring_handled(after, Some(ring), before.node.decision(None), reply),
    ensures
        reply is None,
        after.node.pending == before.node.pending.insert(ring),
        after.scheduled == before.scheduled,
        after.node.mode == before.node.mode,
{
}

/// A ring that reaches a node in `Grinding` is answered positively at once,
/// with the ring's identifier, and is never noted as waiting.
pub proof fn lemma_grinding_replies_at_once(
    before: LcgpHandlerView,
    after: LcgpHandlerView,
    chime_id: Option<Seq<char>>,
    reply: Option<ChimeResponseMessageView>,
)
    requires
        before.node.mode is Grinding,
        before.ring_handled(after, chime_id, before.node.decision(None), reply),
    ensures
        reply matches Some(sent) && sent.response == ChimeResponse::Positive
            && sent.original_chime_id == chime_id && sent.node_id == before.node.node_id,
        after == before,
{
}

/// A ring that reaches a node in `ChillGrinding` is not answered at once: it
/// is noted as waiting, and a positive reply is put off by ten seconds. When
/// the delay has passed and nobody has resolved the ring, that reply goes
/// out and the ring waits no longer; when the delay passes once more,
/// nothing goes out.
pub proof fn lemma_chill_grinding_replies_once(
    before: LcgpHandlerView,
    after: LcgpHandlerView,
    ring: Seq<char>,
    reply: Option<ChimeResponseMessageView>,
    at: Timestamp,
)
    requires
        before.node.mode is ChillGrinding,
        before.ring_handled(after, Some(ring), before.node.decision(None), reply),
    ensures
        reply is None,
        after.node.pending.contains(ring),
        after.scheduled == before.scheduled.push(
            DelayedResponseView {
                chime_id: Some(ring),
                response: ChimeResponse::Positive,
                delay_ms: 10000,
            },
        ),
        after.reply_after_delay(after.scheduled.last(), at) == Some(
            after.node.reply(ChimeResponse::Positive, Some(ring), at),
        ),
        !after.after_delay(after.scheduled.last()).node.pending.contains(ring),
        after.after_delay(after.scheduled.last()).reply_after_delay(after.scheduled.last(), at)
            is None,
{
}

/// Once the user has replied to a ring, the reply that was put off for that
/// ring does not go out, whenever its delay passes: one reply at most is
/// given to a ring. This holds as long as no ring of the same identifier
/// arrives in between.
pub proof fn lemma_user_response_beats_delayed_reply(
    before: LcgpHandlerView,
    ring: Seq<char>,
    next_state: Option<Seq<char>>,
    replied_at: Timestamp,
    due: DelayedResponseView,
    due_at: Timestamp,
)
    requires
        due.chime_id == Some(ring),
    ensures
        !before.after_user_response(Some(ring), next_state, replied_at).node.pending.contains(
            ring,
        ),
        before.after_user_response(Some(ring), next_state, replied_at).reply_after_delay(
            due,
            due_at,
        ) is None,
{
}

/// A reply that was put off goes out at most once: after its delay has
/// passed once, its passing again yields nothing.
pub proof fn lemma_delayed_reply_goes_out_once(
    before: LcgpHandlerView,
    due: DelayedResponseView,
    at: Timestamp,
)
    ensures
        before.after_delay(due).reply_after_delay(due, at) is None,
{
}

/// The user's reply to a ring that does not wait changes nothing about the
/// rings that wait, and is answered with a reply all the same; so replying
/// twice yields two replies, and the second changes nothing that the first
/// has not changed.
pub proof fn lemma_user_response_is_idempotent(
    before: LcgpHandlerView,
    ring: Seq<char>,
    first_at: Timestamp,
    second_at: Timestamp,
)
    ensures
        !before.node.pending.contains(ring) ==> before.after_user_response(
            Some(ring),
            None,
            first_at,
        ) == before,
        before.after_user_response(Some(ring), None, first_at).after_user_response(
            Some(ring),
            None,
            second_at,
        ) == before.after_user_response(Some(ring), None, first_at),
{
    let once = before.after_user_response(Some(ring), None, first_at);
    assert(once.node.pending.remove(ring) =~= once.node.pending);
    if !before.node.pending.contains(ring) {
        assert(before.node.pending.remove(ring) =~= before.node.pending);
    }
}

/// Among the custom states that compete for entry, one that outranks every
/// other is the one that is chosen.
pub proof fn lemma_highest_priority_wins(
    node: LcgpNodeView,
    choice: Option<Seq<char>>,
    now: WallClock,
    vetoed: Set<Seq<char>>,
    top: Seq<char>,
)
    requires
        node.is_best(choice, now, vetoed),
        node.candidate(top, now, vetoed),
        forall|other: Seq<char>| #[trigger]
            node.candidate(other, now, vetoed) && other != top ==> node.custom_states[other].rank()
                < node.custom_states[top].rank(),
    ensures
        choice == Some(top),
{
}

/// The periodic look at the custom states does not disturb a node that is
/// in the chosen state already, and enters nothing where nothing competes.
pub proof fn lemma_auto_choice_does_not_thrash(
    before: LcgpHandlerView,
    choice: Option<Seq<char>>,
    at: Timestamp,
)
    ensures
        choice matches Some(name) && before.node.mode == LcgpModeView::Custom(name)
            ==> before.after_auto_choice(choice, at) == before && before.entered_by_auto_choice(
            choice,
        ) is None,
        choice is None ==> before.after_auto_choice(choice, at) == before,
{
}

} // verus!
