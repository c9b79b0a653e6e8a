//! The data that chime endpoints hold and exchange.
//!
//! Every type that holds text has a mathematical twin, reached with `@`, in
//! which each string is its sequence of characters. Contracts speak of the
//! twins.

pub use crate::notes;
use crate::text::{clone_opt_string, clone_opt_strings, clone_strings};
use crate::time::{Timestamp, WallClock};
pub use crate::topic::TopicBuilder;
use vstd::prelude::*;

verus! {

/// The reply to a ring.
#[derive(Clone, Copy, Debug, PartialEq, Eq, Structural)]
pub enum ChimeResponse {
    Positive,
    Negative,
}

/// The disposition of an endpoint towards incoming rings.
#[derive(Debug, PartialEq)]
pub enum LcgpMode {
    DoNotDisturb,
    Available,
    ChillGrinding,
    Grinding,
    /// A user-defined state, by name.
    Custom(String),
}

/// [`LcgpMode`] with its name as characters.
pub enum LcgpModeView {
    DoNotDisturb,
    Available,
    ChillGrinding,
    Grinding,
    Custom(Seq<char>),
}

impl View for LcgpMode {
    type V = LcgpModeView;

    open spec fn view(&self) -> LcgpModeView {
        match *self {
            LcgpMode::DoNotDisturb => LcgpModeView::DoNotDisturb,
            LcgpMode::Available => LcgpModeView::Available,
            LcgpMode::ChillGrinding => LcgpModeView::ChillGrinding,
            LcgpMode::Grinding => LcgpModeView::Grinding,
            LcgpMode::Custom(name) => LcgpModeView::Custom(name@),
        }
    }
}

impl DeepView for LcgpMode {
    type V = LcgpModeView;

    open spec fn deep_view(&self) -> LcgpModeView {
        self@
    }
}

impl Clone for LcgpMode {
    fn clone(&self) -> (copy: LcgpMode)
        ensures
            copy@ == self@,
    {
        match self {
            LcgpMode::DoNotDisturb => LcgpMode::DoNotDisturb,
            LcgpMode::Available => LcgpMode::Available,
            LcgpMode::ChillGrinding => LcgpMode::ChillGrinding,
            LcgpMode::Grinding => LcgpMode::Grinding,
            LcgpMode::Custom(name) => LcgpMode::Custom(name.clone()),
        }
    }
}

/// A weekly window of time, possibly spanning midnight.
#[derive(Debug, PartialEq)]
pub struct TimeRange {
    /// 0 to 23.
    pub start_hour: u8,
    /// 0 to 59.
    pub start_minute: u8,
    /// 0 to 23.
    pub end_hour: u8,
    /// 0 to 59.
    pub end_minute: u8,
    /// The days on which the window is open, Sunday = 0.
    pub days_of_week: Vec<u8>,
}

/// [`TimeRange`] with its days as a sequence.
pub struct TimeRangeView {
    pub start_hour: u8,
    pub start_minute: u8,
    pub end_hour: u8,
    pub end_minute: u8,
    pub days_of_week: Seq<u8>,
}

impl TimeRangeView {
    /// The first minute of the day that lies in the window.
    pub open spec fn start(&self) -> int {
        self.start_hour as int * 60 + self.start_minute as int
    }

    /// The first minute of the day after the window.
    pub open spec fn end(&self) -> int {
        self.end_hour as int * 60 + self.end_minute as int
    }

    /// Whether the minute of the day `minute` lies in `[start, end)`, where a
    /// window whose start lies after its end runs through midnight.
    pub open spec fn covers_minute(&self, minute: int) -> bool {
        if self.start() <= self.end() {
            self.start() <= minute < self.end()
        } else {
            minute >= self.start() || minute < self.end()
        }
    }

    /// Whether the clock reading `now` lies in the window: its weekday is one
    /// of the window's days and its minute of the day is covered.
    pub open spec fn contains(&self, now: WallClock) -> bool {
        self.days_of_week.contains(now.weekday) && self.covers_minute(now.minute_of_day())
    }
}

/// A window whose start lies after its end is open exactly when the window
/// from its end to its start is closed: it runs through midnight.
pub proof fn lemma_window_through_midnight(window: TimeRangeView, minute: int)
    requires
        window.start() > window.end(),
    ensures
        window.covers_minute(minute) <==> !(window.end() <= minute < window.start()),
{
}

/// A window that starts and ends at the same minute is never open.
pub proof fn lemma_window_of_no_length(window: TimeRangeView, now: WallClock)
    requires
        window.start() == window.end(),
    ensures
        !window.contains(now),
{
}

impl View for TimeRange {
    type V = TimeRangeView;

    open spec fn view(&self) -> TimeRangeView {
        TimeRangeView {
            start_hour: self.start_hour,
            start_minute: self.start_minute,
            end_hour: self.end_hour,
            end_minute: self.end_minute,
            days_of_week: self.days_of_week@,
        }
    }
}

impl DeepView for TimeRange {
    type V = TimeRangeView;

    open spec fn deep_view(&self) -> TimeRangeView {
        self@
    }
}

impl Clone for TimeRange {
    fn clone(&self) -> (copy: TimeRange)
        ensures
            copy@ == self@,
    {
        let mut days: Vec<u8> = Vec::new();
        let mut i: usize = 0;
        while i < self.days_of_week.len()
            invariant
                i <= self.days_of_week.len(),
                days@ == self.days_of_week@.take(i as int),
            decreases self.days_of_week.len() - i,
        {
            days.push(self.days_of_week[i]);
            i += 1;
        }
        assert(self.days_of_week@.take(self.days_of_week.len() as int) =~= self.days_of_week@);
        TimeRange {
            start_hour: self.start_hour,
            start_minute: self.start_minute,
            end_hour: self.end_hour,
            end_minute: self.end_minute,
            days_of_week: days,
        }
    }
}

/// Something that must hold for a custom state to be entered by itself.
#[derive(Debug, PartialEq)]
pub enum StateCondition {
    /// The present moment lies in the window.
    TimeRange(TimeRange),
    /// `true`: the user is present; `false`: away.
    UserPresence(bool),
    /// A load threshold, as the bits of an IEEE 754 single-precision number.
    SystemLoad(u32),
    /// `true`: the network is active; `false`: idle.
    NetworkActivity(bool),
    /// `true`: in a meeting; `false`: free.
    CalendarBusy(bool),
    /// A named condition and the value it must have, written `"true"` or
    /// anything else for false.
    Custom(String, String),
}

/// [`StateCondition`] with its text as characters.
pub enum StateConditionView {
    TimeRange(TimeRangeView),
    UserPresence(bool),
    SystemLoad(u32),
    NetworkActivity(bool),
    CalendarBusy(bool),
    Custom(Seq<char>, Seq<char>),
}

impl View for StateCondition {
    type V = StateConditionView;

    open spec fn view(&self) -> StateConditionView {
        match *self {
            StateCondition::TimeRange(range) => StateConditionView::TimeRange(range@),
            StateCondition::UserPresence(b) => StateConditionView::UserPresence(b),
            StateCondition::SystemLoad(bits) => StateConditionView::SystemLoad(bits),
            StateCondition::NetworkActivity(b) => StateConditionView::NetworkActivity(b),
            StateCondition::CalendarBusy(b) => StateConditionView::CalendarBusy(b),
            StateCondition::Custom(key, value) => StateConditionView::Custom(key@, value@),
        }
    }
}

impl DeepView for StateCondition {
    type V = StateConditionView;

    open spec fn deep_view(&self) -> StateConditionView {
        self@
    }
}

impl Clone for StateCondition {
    fn clone(&self) -> (copy: StateCondition)
        ensures
            copy@ == self@,
    {
        match self {
            StateCondition::TimeRange(range) => StateCondition::TimeRange(range.clone()),
            StateCondition::UserPresence(b) => StateCondition::UserPresence(*b),
            StateCondition::SystemLoad(bits) => StateCondition::SystemLoad(*bits),
            StateCondition::NetworkActivity(b) => StateCondition::NetworkActivity(*b),
            StateCondition::CalendarBusy(b) => StateCondition::CalendarBusy(*b),
            StateCondition::Custom(key, value) => StateCondition::Custom(key.clone(), value.clone()),
        }
    }
}

/// A user-defined presence state, registered with a node under its name.
#[derive(Debug, PartialEq)]
pub struct CustomLcgpState {
    pub name: String,
    pub should_chime: bool,
    pub auto_response: Option<ChimeResponse>,
    /// Milliseconds to wait before the automatic reply.
    pub auto_response_delay: Option<u64>,
    pub description: Option<String>,
    /// Higher wins; absent counts as 0.
    pub priority: Option<u8>,
    /// When the state may be entered by itself.
    pub active_hours: Option<TimeRange>,
    /// What must hold for the state to be entered by itself.
    pub conditions: Vec<StateCondition>,
}

/// [`CustomLcgpState`] with its text as characters.
pub struct CustomLcgpStateView {
    pub name: Seq<char>,
    pub should_chime: bool,
    pub auto_response: Option<ChimeResponse>,
    pub auto_response_delay: Option<u64>,
    pub description: Option<Seq<char>>,
    pub priority: Option<u8>,
    pub active_hours: Option<TimeRangeView>,
    pub conditions: Seq<StateConditionView>,
}

impl CustomLcgpStateView {
    /// The priority that the state competes with.
    pub open spec fn rank(&self) -> u8 {
        match self.priority {
            Some(p) => p,
            None => 0,
        }
    }
}

impl View for CustomLcgpState {
    type V = CustomLcgpStateView;

    open spec fn view(&self) -> CustomLcgpStateView {
        CustomLcgpStateView {
            name: self.name@,
            should_chime: self.should_chime,
            auto_response: self.auto_response,
            auto_response_delay: self.auto_response_delay,
            description: self.description.deep_view(),
            priority: self.priority,
            active_hours: self.active_hours.deep_view(),
            conditions: self.conditions.deep_view(),
        }
    }
}

impl DeepView for CustomLcgpState {
    type V = CustomLcgpStateView;

    open spec fn deep_view(&self) -> CustomLcgpStateView {
        self@
    }
}

impl Clone for CustomLcgpState {
    fn clone(&self) -> (copy: CustomLcgpState)
        ensures
            copy@ == self@,
    {
        let mut conditions: Vec<StateCondition> = Vec::new();
        let mut i: usize = 0;
        while i < self.conditions.len()
            invariant
                i <= self.conditions.len(),
                conditions.deep_view() == self.conditions.deep_view().take(i as int),
            decreases self.conditions.len() - i,
        {
            let ghost before = conditions.deep_view();
            conditions.push(self.conditions[i].clone());
            assert(conditions.deep_view() =~= before.push(self.conditions[i as int]@));
            i += 1;
        }
        assert(self.conditions.deep_view().take(self.conditions.len() as int)
            =~= self.conditions.deep_view());
        let active_hours = match &self.active_hours {
            Some(range) => Some(range.clone()),
            None => None,
        };
        CustomLcgpState {
            name: self.name.clone(),
            should_chime: self.should_chime,
            auto_response: self.auto_response,
            auto_response_delay: self.auto_response_delay,
            description: clone_opt_string(&self.description),
            priority: self.priority,
            active_hours,
            conditions,
        }
    }
}

/// What a behaviour override decides.
#[derive(Debug, PartialEq)]
pub struct BehaviorResult {
    pub should_chime: bool,
    pub auto_response: Option<ChimeResponse>,
    pub delay_ms: Option<u64>,
    /// The custom state to move to afterwards.
    pub next_state: Option<String>,
}

/// [`BehaviorResult`] with its text as characters.
pub struct BehaviorResultView {
    pub should_chime: bool,
    pub auto_response: Option<ChimeResponse>,
    pub delay_ms: Option<u64>,
    pub next_state: Option<Seq<char>>,
}

impl DeepView for BehaviorResult {
    type V = BehaviorResultView;

    open spec fn deep_view(&self) -> BehaviorResultView {
        self@
    }
}

impl View for BehaviorResult {
    type V = BehaviorResultView;

    open spec fn view(&self) -> BehaviorResultView {
        BehaviorResultView {
            should_chime: self.should_chime,
            auto_response: self.auto_response,
            delay_ms: self.delay_ms,
            next_state: self.next_state.deep_view(),
        }
    }
}

impl Clone for BehaviorResult {
    fn clone(&self) -> (copy: BehaviorResult)
        ensures
            copy@ == self@,
    {
        BehaviorResult {
            should_chime: self.should_chime,
            auto_response: self.auto_response,
            delay_ms: self.delay_ms,
            next_state: clone_opt_string(&self.next_state),
        }
    }
}

/// A behaviour that a user of the library attaches to a custom state by name.
/// Where one is attached it decides in place of the state's own fields.
pub trait CustomBehavior: Send + Sync {
    /// Decides how to treat a ring that arrives while `state` is active.
    fn on_incoming_chime(&self, chime: &ChimeMessage, state: &CustomLcgpState) -> BehaviorResult;

    /// Reacts to the user's own reply while `state` is active.
    fn on_user_response(&self, response: &ChimeResponse, state: &CustomLcgpState) -> BehaviorResult;

    /// Decides what happens when nobody replied in time.
    fn on_timeout(&self, state: &CustomLcgpState) -> BehaviorResult;

    /// Whether `state` may be entered by itself right now.
    fn evaluate_conditions(&self, state: &CustomLcgpState) -> bool;
}

/// A ring as it arrives.
#[derive(Debug, PartialEq)]
pub struct ChimeMessage {
    pub timestamp: Timestamp,
    pub from_node: String,
    pub message: Option<String>,
    /// Identifies the ring, so that a reply can name it.
    pub chime_id: Option<String>,
    pub notes: Option<Vec<String>>,
    pub chords: Option<Vec<String>>,
}

/// [`ChimeMessage`] with its text as characters.
pub struct ChimeMessageView {
    pub timestamp: Timestamp,
    pub from_node: Seq<char>,
    pub message: Option<Seq<char>>,
    pub chime_id: Option<Seq<char>>,
    pub notes: Option<Seq<Seq<char>>>,
    pub chords: Option<Seq<Seq<char>>>,
}

impl DeepView for ChimeMessage {
    type V = ChimeMessageView;

    open spec fn deep_view(&self) -> ChimeMessageView {
        self@
    }
}

impl View for ChimeMessage {
    type V = ChimeMessageView;

    open spec fn view(&self) -> ChimeMessageView {
        ChimeMessageView {
            timestamp: self.timestamp,
            from_node: self.from_node@,
            message: self.message.deep_view(),
            chime_id: self.chime_id.deep_view(),
            notes: self.notes.deep_view(),
            chords: self.chords.deep_view(),
        }
    }
}

impl Clone for ChimeMessage {
    fn clone(&self) -> (copy: ChimeMessage)
        ensures
            copy@ == self@,
    {
        ChimeMessage {
            timestamp: self.timestamp,
            from_node: self.from_node.clone(),
            message: clone_opt_string(&self.message),
            chime_id: clone_opt_string(&self.chime_id),
            notes: clone_opt_strings(&self.notes),
            chords: clone_opt_strings(&self.chords),
        }
    }
}

/// A reply to a ring, as it is sent.
#[derive(Debug, PartialEq)]
pub struct ChimeResponseMessage {
    pub timestamp: Timestamp,
    pub response: ChimeResponse,
    pub node_id: String,
    /// The ring that is answered.
    pub original_chime_id: Option<String>,
}

/// [`ChimeResponseMessage`] with its text as characters.
pub struct ChimeResponseMessageView {
    pub timestamp: Timestamp,
    pub response: ChimeResponse,
    pub node_id: Seq<char>,
    pub original_chime_id: Option<Seq<char>>,
}

impl DeepView for ChimeResponseMessage {
    type V = ChimeResponseMessageView;

    open spec fn deep_view(&self) -> ChimeResponseMessageView {
        self@
    }
}

impl View for ChimeResponseMessage {
    type V = ChimeResponseMessageView;

    open spec fn view(&self) -> ChimeResponseMessageView {
        ChimeResponseMessageView {
            timestamp: self.timestamp,
            response: self.response,
            node_id: self.node_id@,
            original_chime_id: self.original_chime_id.deep_view(),
        }
    }
}

impl Clone for ChimeResponseMessage {
    fn clone(&self) -> (copy: ChimeResponseMessage)
        ensures
            copy@ == self@,
    {
        ChimeResponseMessage {
            timestamp: self.timestamp,
            response: self.response,
            node_id: self.node_id.clone(),
            original_chime_id: clone_opt_string(&self.original_chime_id),
        }
    }
}

/// The announcement of a node's mode to its peers.
#[derive(Debug, PartialEq)]
pub struct ModeUpdate {
    pub timestamp: Timestamp,
    pub mode: LcgpMode,
    pub node_id: String,
    /// The custom state that the mode names, where it names one that is
    /// registered.
    pub custom_state: Option<CustomLcgpState>,
}

/// [`ModeUpdate`] with its text as characters.
pub struct ModeUpdateView {
    pub timestamp: Timestamp,
    pub mode: LcgpModeView,
    pub node_id: Seq<char>,
    pub custom_state: Option<CustomLcgpStateView>,
}

impl DeepView for ModeUpdate {
    type V = ModeUpdateView;

    open spec fn deep_view(&self) -> ModeUpdateView {
        self@
    }
}

impl View for ModeUpdate {
    type V = ModeUpdateView;

    open spec fn view(&self) -> ModeUpdateView {
        ModeUpdateView {
            timestamp: self.timestamp,
            mode: self.mode@,
            node_id: self.node_id@,
            custom_state: self.custom_state.deep_view(),
        }
    }
}

/// What a chime says of itself.
#[derive(Debug, PartialEq)]
pub struct ChimeInfo {
    pub id: String,
    pub name: String,
    pub description: Option<String>,
    /// The notes that the chime can play.
    pub notes: Vec<String>,
    /// The chords that the chime can play.
    pub chords: Vec<String>,
    pub created_at: Timestamp,
}

/// [`ChimeInfo`] with its text as characters.
pub struct ChimeInfoView {
    pub id: Seq<char>,
    pub name: Seq<char>,
    pub description: Option<Seq<char>>,
    pub notes: Seq<Seq<char>>,
    pub chords: Seq<Seq<char>>,
    pub created_at: Timestamp,
}

impl DeepView for ChimeInfo {
    type V = ChimeInfoView;

    open spec fn deep_view(&self) -> ChimeInfoView {
        self@
    }
}

impl View for ChimeInfo {
    type V = ChimeInfoView;

    open spec fn view(&self) -> ChimeInfoView {
        ChimeInfoView {
            id: self.id@,
            name: self.name@,
            description: self.description.deep_view(),
            notes: self.notes.deep_view(),
            chords: self.chords.deep_view(),
            created_at: self.created_at,
        }
    }
}

impl Clone for ChimeInfo {
    fn clone(&self) -> (copy: ChimeInfo)
        ensures
            copy@ == self@,
    {
        ChimeInfo {
            id: self.id.clone(),
            name: self.name.clone(),
            description: clone_opt_string(&self.description),
            notes: clone_strings(&self.notes),
            chords: clone_strings(&self.chords),
            created_at: self.created_at,
        }
    }
}

/// Whether a chime is there, and in which mode.
#[derive(Debug, PartialEq)]
pub struct ChimeStatus {
    pub chime_id: String,
    pub online: bool,
    pub mode: LcgpMode,
    pub last_seen: Timestamp,
    pub node_id: String,
}

/// [`ChimeStatus`] with its text as characters.
pub struct ChimeStatusView {
    pub chime_id: Seq<char>,
    pub online: bool,
    pub mode: LcgpModeView,
    pub last_seen: Timestamp,
    pub node_id: Seq<char>,
}

impl DeepView for ChimeStatus {
    type V = ChimeStatusView;

    open spec fn deep_view(&self) -> ChimeStatusView {
        self@
    }
}

impl View for ChimeStatus {
    type V = ChimeStatusView;

    open spec fn view(&self) -> ChimeStatusView {
        ChimeStatusView {
            chime_id: self.chime_id@,
            online: self.online,
            mode: self.mode@,
            last_seen: self.last_seen,
            node_id: self.node_id@,
        }
    }
}

/// The chimes of a user.
#[derive(Debug, PartialEq)]
pub struct ChimeList {
    pub user: String,
    pub chimes: Vec<ChimeInfo>,
    pub timestamp: Timestamp,
}

/// [`ChimeList`] with its text as characters.
pub struct ChimeListView {
    pub user: Seq<char>,
    pub chimes: Seq<ChimeInfoView>,
    pub timestamp: Timestamp,
}

impl DeepView for ChimeList {
    type V = ChimeListView;

    open spec fn deep_view(&self) -> ChimeListView {
        self@
    }
}

impl View for ChimeList {
    type V = ChimeListView;

    open spec fn view(&self) -> ChimeListView {
        ChimeListView {
            user: self.user@,
            chimes: self.chimes.deep_view(),
            timestamp: self.timestamp,
        }
    }
}

/// A ringer asks which chimes are there.
#[derive(Debug, PartialEq)]
pub struct RingerDiscovery {
    pub ringer_id: String,
    pub user: String,
    pub timestamp: Timestamp,
}

/// [`RingerDiscovery`] with its text as characters.
pub struct RingerDiscoveryView {
    pub ringer_id: Seq<char>,
    pub user: Seq<char>,
    pub timestamp: Timestamp,
}

impl DeepView for RingerDiscovery {
    type V = RingerDiscoveryView;

    open spec fn deep_view(&self) -> RingerDiscoveryView {
        self@
    }
}

impl View for RingerDiscovery {
    type V = RingerDiscoveryView;

    open spec fn view(&self) -> RingerDiscoveryView {
        RingerDiscoveryView {
            ringer_id: self.ringer_id@,
            user: self.user@,
            timestamp: self.timestamp,
        }
    }
}

/// A ringer says that it is there, and which chimes it can ring.
#[derive(Debug, PartialEq)]
pub struct RingerAvailable {
    pub ringer_id: String,
    pub user: String,
    pub available_chimes: Vec<String>,
    pub timestamp: Timestamp,
}

/// [`RingerAvailable`] with its text as characters.
pub struct RingerAvailableView {
    pub ringer_id: Seq<char>,
    pub user: Seq<char>,
    pub available_chimes: Seq<Seq<char>>,
    pub timestamp: Timestamp,
}

impl DeepView for RingerAvailable {
    type V = RingerAvailableView;

    open spec fn deep_view(&self) -> RingerAvailableView {
        self@
    }
}

impl View for RingerAvailable {
    type V = RingerAvailableView;

    open spec fn view(&self) -> RingerAvailableView {
        RingerAvailableView {
            ringer_id: self.ringer_id@,
            user: self.user@,
            available_chimes: self.available_chimes.deep_view(),
            timestamp: self.timestamp,
        }
    }
}

/// The request to ring a chime.
#[derive(Debug, PartialEq)]
pub struct ChimeRingRequest {
    pub chime_id: String,
    pub user: String,
    pub notes: Option<Vec<String>>,
    pub chords: Option<Vec<String>>,
    pub duration_ms: Option<u64>,
    pub timestamp: Timestamp,
}

/// [`ChimeRingRequest`] with its text as characters.
pub struct ChimeRingRequestView {
    pub chime_id: Seq<char>,
    pub user: Seq<char>,
    pub notes: Option<Seq<Seq<char>>>,
    pub chords: Option<Seq<Seq<char>>>,
    pub duration_ms: Option<u64>,
    pub timestamp: Timestamp,
}

impl DeepView for ChimeRingRequest {
    type V = ChimeRingRequestView;

    open spec fn deep_view(&self) -> ChimeRingRequestView {
        self@
    }
}

impl View for ChimeRingRequest {
    type V = ChimeRingRequestView;

    open spec fn view(&self) -> ChimeRingRequestView {
        ChimeRingRequestView {
            chime_id: self.chime_id@,
            user: self.user@,
            notes: self.notes.deep_view(),
            chords: self.chords.deep_view(),
            duration_ms: self.duration_ms,
            timestamp: self.timestamp,
        }
    }
}

} // verus!
