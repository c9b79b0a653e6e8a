//! Routing of messages by topic: who is subscribed to what, and which
//! subscriptions an inbound message goes to.
//!
//! The connection to the broker is not kept here. What is to be sent is
//! returned as a value, and what arrived is handed in as one; the owner of
//! the client moves both over the wire.

use crate::matcher::{topic_matches, topic_matches_spec};
use crate::registry::Registry;
use crate::time::{utc_now, Timestamp};
use crate::topic::{
    chime_facet_topic, chime_list_topic, ringer_available_topic, ringer_discover_topic,
    user_chimes_pattern, valid_segment, InvalidTopicSegment, TopicBuilder,
};
use crate::types::{
    ChimeInfo, ChimeInfoView, ChimeList, ChimeListView, ChimeResponseMessage, ChimeRingRequest,
    ChimeStatus, RingerAvailable, RingerDiscovery,
};
use vstd::prelude::*;
use vstd::string::StringExecFns;

verus! {

/// Delivery at least once: the quality of service of every message of the
/// topic scheme.
pub const QOS_AT_LEAST_ONCE: i32 = 1;

/// Whether a client is connected to its broker.
#[derive(Clone, Copy, Debug, PartialEq, Eq, Structural)]
pub enum Connection {
    Disconnected,
    Connected,
}

impl Connection {
    /// Whether a client that is asked to connect has to dial the broker: one
    /// that is connected has not, so that connecting twice is connecting
    /// once.
    pub fn must_dial(self) -> (dial: bool)
        ensures
            dial == (self is Disconnected),
    {
        match self {
            Connection::Disconnected => true,
            Connection::Connected => false,
        }
    }

    /// Whether a client that is asked to disconnect has to hang up: one that
    /// is not connected has not.
    pub fn must_hang_up(self) -> (hang_up: bool)
        ensures
            hang_up == (self is Connected),
    {
        match self {
            Connection::Disconnected => false,
            Connection::Connected => true,
        }
    }

    /// The state after a client was asked to connect, where `dialled` says
    /// whether dialling the broker succeeded; it is not looked at for a
    /// client that was connected already.
    pub open spec fn connecting(self, dialled: bool) -> Connection {
        if self is Connected || dialled {
            Connection::Connected
        } else {
            Connection::Disconnected
        }
    }

    /// The state after a client was asked to disconnect, where `hung_up`
    /// says whether hanging up succeeded; it is not looked at for a client
    /// that was not connected.
    pub open spec fn disconnecting(self, hung_up: bool) -> Connection {
        if self is Disconnected || hung_up {
            Connection::Disconnected
        } else {
            Connection::Connected
        }
    }

    /// The state after a client was asked to connect.
    pub fn after_connect(self, dialled: bool) -> (next: Connection)
        ensures
            next == self.connecting(dialled),
    {
        match self {
            Connection::Connected => Connection::Connected,
            Connection::Disconnected => if dialled {
                Connection::Connected
            } else {
                Connection::Disconnected
            },
        }
    }

    /// The state after a client was asked to disconnect.
    pub fn after_disconnect(self, hung_up: bool) -> (next: Connection)
        ensures
            next == self.disconnecting(hung_up),
    {
        match self {
            Connection::Disconnected => Connection::Disconnected,
            Connection::Connected => if hung_up {
                Connection::Disconnected
            } else {
                Connection::Connected
            },
        }
    }
}

/// To connect a client that is connected, or to disconnect one that is not,
/// changes nothing and asks nothing of the broker; and once connecting has
/// succeeded, connecting again has nothing left to do, and likewise for
/// disconnecting.
pub proof fn lemma_connection_is_idempotent(state: Connection, first: bool, second: bool)
    ensures
        state is Connected ==> state.connecting(first) == state,
        state is Disconnected ==> state.disconnecting(first) == state,
        state.connecting(true).connecting(second) == state.connecting(true),
        state.disconnecting(true).disconnecting(second) == state.disconnecting(true),
        state.connecting(true) is Connected,
        state.disconnecting(true) is Disconnected,
{
}

/// A message as it crosses the wire.
#[derive(Debug, PartialEq)]
pub struct MqttMessage {
    pub topic: String,
    pub payload: String,
    pub qos: i32,
    /// Whether the broker keeps the message for those who subscribe later.
    pub retain: bool,
}

/// [`MqttMessage`] with its text as characters.
pub struct MqttMessageView {
    pub topic: Seq<char>,
    pub payload: Seq<char>,
    pub qos: i32,
    pub retain: bool,
}

impl DeepView for MqttMessage {
    type V = MqttMessageView;

    open spec fn deep_view(&self) -> MqttMessageView {
        self@
    }
}

impl View for MqttMessage {
    type V = MqttMessageView;

    open spec fn view(&self) -> MqttMessageView {
        MqttMessageView {
            topic: self.topic@,
            payload: self.payload@,
            qos: self.qos,
            retain: self.retain,
        }
    }
}

impl Clone for MqttMessage {
    fn clone(&self) -> (copy: MqttMessage)
        ensures
            copy@ == self@,
    {
        MqttMessage {
            topic: self.topic.clone(),
            payload: self.payload.clone(),
            qos: self.qos,
            retain: self.retain,
        }
    }
}

/// What a client keeps for one pattern that it is subscribed to.
pub struct Subscription<H> {
    pub qos: i32,
    /// Whatever the owner wants called with the messages that match.
    pub handler: H,
}

/// The positions in `patterns`, in rising order, of the patterns that admit
/// `topic`.
pub open spec fn matching_positions(patterns: Seq<Seq<char>>, topic: Seq<char>) -> Seq<int>
    decreases patterns.len(),
{
    if patterns.len() == 0 {
        Seq::empty()
    } else {
        let before = matching_positions(patterns.drop_last(), topic);
        if topic_matches_spec(patterns.last(), topic) {
            before.push(patterns.len() - 1)
        } else {
            before
        }
    }
}

/// A position is among the matching ones exactly when it is a position of
/// the list and the pattern there admits the topic; and the matching
/// positions rise.
pub proof fn lemma_matching_positions(patterns: Seq<Seq<char>>, topic: Seq<char>)
    ensures
        forall|i: int|
            matching_positions(patterns, topic).contains(i) <==> (0 <= i < patterns.len()
                && topic_matches_spec(patterns[i], topic)),
        forall|a: int, b: int|
            0 <= a < b < matching_positions(patterns, topic).len() ==> matching_positions(
                patterns,
                topic,
            )[a] < matching_positions(patterns, topic)[b],
    decreases patterns.len(),
{
    let found = matching_positions(patterns, topic);
    if patterns.len() > 0 {
        let shorter = patterns.drop_last();
        let before = matching_positions(shorter, topic);
        lemma_matching_positions(shorter, topic);
        let last = patterns.len() - 1;
        assert forall|i: int| found.contains(i) <==> (0 <= i < patterns.len()
            && topic_matches_spec(patterns[i], topic)) by {
            if found.contains(i) {
                let k = found.index_of(i);
                if k < before.len() {
                    assert(before.contains(i));
                }
            }
            if 0 <= i < patterns.len() && topic_matches_spec(patterns[i], topic) {
                if i < last {
                    assert(before.contains(i));
                    let k = before.index_of(i);
                    assert(found[k] == i);
                } else {
                    assert(found[found.len() - 1] == i);
                }
            }
        }
        assert forall|a: int, b: int| 0 <= a < b < found.len() implies found[a] < found[b] by {
            if b == before.len() {
                assert(before.contains(before[a]));
            }
        }
    }
}

/// A message goes to a subscription that is added last exactly when its
/// pattern admits the topic, and goes on to every subscription that it went
/// to before: subscriptions that overlap are all served.
pub proof fn lemma_new_subscription_is_served(
    patterns: Seq<Seq<char>>,
    pattern: Seq<char>,
    topic: Seq<char>,
)
    ensures
        matching_positions(patterns.push(pattern), topic).contains(patterns.len() as int)
            <==> topic_matches_spec(pattern, topic),
        forall|i: int|
            matching_positions(patterns, topic).contains(i) ==> matching_positions(
                patterns.push(pattern),
                topic,
            ).contains(i),
{
    lemma_matching_positions(patterns, topic);
    lemma_matching_positions(patterns.push(pattern), topic);
}

/// The routing table of a pub/sub client: the patterns that it is subscribed
/// to, each with its handler, in the order in which they were first
/// subscribed.
pub struct MqttClient<H> {
    subscriptions: Registry<Subscription<H>>,
}

impl<H> MqttClient<H> {
    /// The patterns, in the order in which they were first subscribed.
    pub closed spec fn patterns(&self) -> Seq<Seq<char>> {
        self.subscriptions.names()
    }

    /// What is kept for each pattern.
    pub closed spec fn subscriptions(&self) -> Map<Seq<char>, Subscription<H>> {
        self.subscriptions@
    }

    /// Whether `after` is this table with `subscription` kept for
    /// `pattern`: a pattern that is new stands last, one that was there keeps
    /// its place and has what is kept for it replaced.
    pub open spec fn with_subscription(
        &self,
        after: MqttClient<H>,
        pattern: Seq<char>,
        subscription: Subscription<H>,
    ) -> bool {
        &&& after.subscriptions() == self.subscriptions().insert(pattern, subscription)
        &&& after.patterns() == if self.subscriptions().contains_key(pattern) {
            self.patterns()
        } else {
            self.patterns().push(pattern)
        }
    }

    /// A client that is subscribed to nothing.
    pub fn new() -> (client: MqttClient<H>)
        ensures
            client.patterns() == Seq::<Seq<char>>::empty(),
            client.subscriptions() == Map::<Seq<char>, Subscription<H>>::empty(),
    {
        MqttClient { subscriptions: Registry::new() }
    }

    /// The message that publishing `payload` on `topic` puts on the wire.
    /// `retain` asks the broker to keep the message for those who subscribe
    /// later.
    pub fn publish(&self, topic: &str, payload: &str, qos: i32, retain: bool) -> (message:
        MqttMessage)
        ensures
            message@ == (MqttMessageView { topic: topic@, payload: payload@, qos, retain }),
    {
        MqttMessage {
            topic: String::from_str(topic),
            payload: String::from_str(payload),
            qos,
            retain,
        }
    }

    /// Subscribes `handler` to the messages whose topic `topic` admits. A
    /// handler that was subscribed to the same pattern before is replaced.
    pub fn subscribe(&mut self, topic: &str, qos: i32, handler: H)
        ensures
            old(self).with_subscription(*final(self), topic@, Subscription { qos, handler }),
    {
        self.subscriptions.insert(String::from_str(topic), Subscription { qos, handler });
    }

    /// Ends the subscription to the pattern `topic`, if there is one. The
    /// other patterns keep their order.
    pub fn unsubscribe(&mut self, topic: &str)
        ensures
            final(self).subscriptions() == old(self).subscriptions().remove(topic@),
            old(self).subscriptions().contains_key(topic@) ==> final(self).patterns() == old(
                self,
            ).patterns().remove(old(self).patterns().index_of(topic@)),
            !old(self).subscriptions().contains_key(topic@) ==> final(self).patterns() == old(
                self,
            ).patterns(),
    {
        self.subscriptions.remove(topic);
    }

    /// How many patterns the client is subscribed to.
    pub fn subscription_count(&self) -> (count: usize)
        ensures
            count == self.patterns().len(),
            self.patterns().no_duplicates(),
    {
        self.subscriptions.len()
    }

    /// The pattern at position `i`.
    pub fn pattern_at(&self, i: usize) -> (pattern: &String)
        requires
            i < self.patterns().len(),
        ensures
            pattern@ == self.patterns()[i as int],
    {
        self.subscriptions.name_at(i)
    }

    /// What is kept for the pattern at position `i`.
    pub fn subscription_at(&self, i: usize) -> (subscription: &Subscription<H>)
        requires
            i < self.patterns().len(),
        ensures
            self.subscriptions().contains_key(self.patterns()[i as int]),
            *subscription == self.subscriptions()[self.patterns()[i as int]],
    {
        self.subscriptions.value_at(i)
    }

    /// The subscriptions that a message published on `topic` goes to: the
    /// position of every pattern that admits the topic, in rising order. A
    /// message goes to all of them, not to the first alone.
    pub fn dispatch(&self, topic: &str) -> (positions: Vec<usize>)
        ensures
            positions@.map_values(|i: usize| i as int) == matching_positions(
                self.patterns(),
                topic@,
            ),
            forall|k: int| 0 <= k < positions.len() ==> positions[k] < self.patterns().len(),
    {
        let count = self.subscriptions.len();
        let mut positions: Vec<usize> = Vec::new();
        let mut i: usize = 0;
        while i < count
            invariant
                i <= count,
                count == self.patterns().len(),
                positions@.map_values(|i: usize| i as int) == matching_positions(
                    self.patterns().take(i as int),
                    topic@,
                ),
                forall|k: int| 0 <= k < positions.len() ==> positions[k] < self.patterns().len(),
            decreases count - i,
        {
            let ghost more = self.patterns().take(i + 1);
            assert(more.drop_last() =~= self.patterns().take(i as int));
            let pattern = self.subscriptions.name_at(i);
            if topic_matches(pattern.as_str(), topic) {
                positions.push(i);
            }
            i += 1;
        }
        assert(self.patterns().take(count as int) =~= self.patterns());
        positions
    }
}

/// A value that is to be published: where, and how. To encode the value and
/// to put it on the wire is left to the owner.
pub struct Outbound<T> {
    pub topic: String,
    pub payload: T,
    pub qos: i32,
    /// Whether the broker keeps the message for those who subscribe later.
    pub retain: bool,
}

/// Why a list of strings could not be published.
#[derive(Debug, PartialEq)]
pub enum PublishError {
    /// The user or the chime identifier cannot stand in a topic.
    Topic(InvalidTopicSegment),
    /// The encoder refused the list; its words. The encoder refuses no list
    /// of strings, so this is what its error would become, not one that a
    /// caller meets.
    Encoding(String),
}

/// Whether `outcome` publishes the list of the chimes of `user` as of the
/// moment `at`, for the broker to keep; or refuses a user that cannot stand
/// in a topic.
pub open spec fn publishes_chime_list(
    outcome: Result<Outbound<ChimeList>, InvalidTopicSegment>,
    user: Seq<char>,
    chimes: Seq<ChimeInfoView>,
    at: Timestamp,
) -> bool {
    match outcome {
        Ok(out) => {
            &&& valid_segment(user)
            &&& out.topic@ == chime_list_topic(user)
            &&& out.payload@ == (ChimeListView { user, chimes, timestamp: at })
            &&& out.qos == QOS_AT_LEAST_ONCE
            &&& out.retain
        },
        Err(refused) => !valid_segment(user) && refused.segment@ == user,
    }
}

/// Whether `outcome` publishes `payload` on `topic`, at least once and kept
/// or not as `retain` says, where the one segment that the topic is built
/// from is valid; and else refuses that segment.
pub open spec fn sends<T>(
    outcome: Result<Outbound<T>, InvalidTopicSegment>,
    segment: Seq<char>,
    topic: Seq<char>,
    payload: T,
    retain: bool,
) -> bool {
    match outcome {
        Ok(out) => {
            &&& valid_segment(segment)
            &&& out.topic@ == topic
            &&& out.payload == payload
            &&& out.qos == QOS_AT_LEAST_ONCE
            &&& out.retain == retain
        },
        Err(refused) => !valid_segment(segment) && refused.segment@ == segment,
    }
}

/// As [`sends`], for a topic built from a user and a chime identifier: where
/// one of the two is not valid, the first that is not is refused.
pub open spec fn sends_for_chime<T>(
    outcome: Result<Outbound<T>, InvalidTopicSegment>,
    user: Seq<char>,
    chime_id: Seq<char>,
    topic: Seq<char>,
    payload: T,
    retain: bool,
) -> bool {
    match outcome {
        Ok(out) => {
            &&& valid_segment(user)
            &&& valid_segment(chime_id)
            &&& out.topic@ == topic
            &&& out.payload == payload
            &&& out.qos == QOS_AT_LEAST_ONCE
            &&& out.retain == retain
        },
        Err(refused) => if valid_segment(user) {
            !valid_segment(chime_id) && refused.segment@ == chime_id
        } else {
            refused.segment@ == user
        },
    }
}

fn outbound<T>(topic: Result<String, InvalidTopicSegment>, payload: T, retain: bool) -> (outcome:
    Result<Outbound<T>, InvalidTopicSegment>)
    ensures
        match topic {
            Ok(built) => outcome matches Ok(out) && out.topic == built && out.payload == payload
                && out.qos == QOS_AT_LEAST_ONCE && out.retain == retain,
            Err(refused) => outcome == Err::<Outbound<T>, InvalidTopicSegment>(refused),
        },
{
    match topic {
        Ok(topic) => Ok(Outbound { topic, payload, qos: QOS_AT_LEAST_ONCE, retain }),
        Err(refused) => Err(refused),
    }
}

/// The JSON text that stands for a list of strings.
pub uninterp spec fn json_of_strings(list: Seq<Seq<char>>) -> Seq<char>;

/// Trusted: `serde_json::Error`, the error of the JSON encoder, carried as
/// a value of which nothing is known.
#[verifier::external_type_specification]
#[verifier::external_body]
pub struct ExJsonError(serde_json::Error);

/// Trusted: `serde_json::to_string`, called on a list of strings. The
/// contract claims that the call succeeds, since the encoder fails only
/// through a value's own way of writing itself or through a map key that is
/// no string, and a list of strings has neither; and that the text which
/// comes back depends on the strings of the list alone. It gives that text
/// a name and says nothing else of it.
#[verifier::external_body]
fn strings_to_json(list: &Vec<String>) -> (outcome: Result<String, serde_json::Error>)
    ensures
        outcome is Ok,
        outcome matches Ok(text) ==> text@ == json_of_strings(list.deep_view()),
{
    serde_json::to_string(list)
}

/// Trusted: the words of an error of serde_json, as its `Display` gives them
/// through `to_string`. Nothing is claimed of them.
#[verifier::external_body]
fn json_error_text(error: &serde_json::Error) -> String {
    error.to_string()
}

/// The message that publishes the encoded list `json` on `topic`, at least
/// once and for the broker to keep.
pub fn list_message(topic: String, json: String) -> (message: MqttMessage)
    ensures
        message@ == (MqttMessageView {
            topic: topic@,
            payload: json@,
            qos: QOS_AT_LEAST_ONCE,
            retain: true,
        }),
{
    MqttMessage { topic, payload: json, qos: QOS_AT_LEAST_ONCE, retain: true }
}

/// The list `list`, encoded and ready to be published on the topic that was
/// built, or the refusal that came of building the topic handed on. The
/// encoder is asked only where the topic was built, and does not refuse a
/// list of strings.
fn publish_list(topic: Result<String, InvalidTopicSegment>, list: &Vec<String>) -> (outcome:
    Result<MqttMessage, PublishError>)
    ensures
        match topic {
            Ok(built) => outcome matches Ok(message) && message@ == (MqttMessageView {
                topic: built@,
                payload: json_of_strings(list.deep_view()),
                qos: QOS_AT_LEAST_ONCE,
                retain: true,
            }),
            Err(refused) => outcome == Err::<MqttMessage, PublishError>(
                PublishError::Topic(refused),
            ),
        },
{
    match topic {
        Ok(topic) => match strings_to_json(list) {
            Ok(json) => Ok(list_message(topic, json)),
            Err(error) => Err(PublishError::Encoding(json_error_text(&error))),
        },
        Err(refused) => Err(PublishError::Topic(refused)),
    }
}

/// What publishing a list of strings as a facet of a chime comes to: the
/// refusal of the first segment that is not valid, and where both are valid
/// the message that carries the JSON text of the list, kept by the broker.
pub open spec fn publishes_list(
    outcome: Result<MqttMessage, PublishError>,
    user: Seq<char>,
    chime_id: Seq<char>,
    facet: Seq<char>,
    list: Seq<Seq<char>>,
) -> bool {
    if !valid_segment(user) {
        outcome matches Err(PublishError::Topic(refused)) && refused.segment@ == user
    } else if !valid_segment(chime_id) {
        outcome matches Err(PublishError::Topic(refused)) && refused.segment@ == chime_id
    } else {
        outcome matches Ok(message) && message@ == (MqttMessageView {
            topic: chime_facet_topic(user, chime_id, facet),
            payload: json_of_strings(list),
            qos: QOS_AT_LEAST_ONCE,
            retain: true,
        })
    }
}

/// The pub/sub client of one user's chimes: a routing table, and the topic
/// scheme applied to the user's name.
pub struct ChimeNetMqtt<H> {
    pub client: MqttClient<H>,
    pub user: String,
}

impl<H> ChimeNetMqtt<H> {
    /// A client for `user` that is subscribed to nothing.
    pub fn new(user: &str) -> (net: ChimeNetMqtt<H>)
        ensures
            net.user@ == user@,
            net.client.patterns() == Seq::<Seq<char>>::empty(),
            net.client.subscriptions() == Map::<Seq<char>, Subscription<H>>::empty(),
    {
        ChimeNetMqtt { client: MqttClient::new(), user: String::from_str(user) }
    }

    /// The user's list of chimes as of the moment `at`.
    pub fn chime_list_at(&self, chimes: &Vec<ChimeInfo>, at: Timestamp) -> (list: ChimeList)
        ensures
            list@ == (ChimeListView {
                user: self.user@,
                chimes: chimes.deep_view(),
                timestamp: at,
            }),
    {
        let mut copies: Vec<ChimeInfo> = Vec::new();
        let mut i: usize = 0;
        while i < chimes.len()
            invariant
                i <= chimes.len(),
                copies.deep_view() == chimes.deep_view().take(i as int),
            decreases chimes.len() - i,
        {
            let ghost before = copies.deep_view();
            copies.push(chimes[i].clone());
            assert(copies.deep_view() =~= before.push(chimes[i as int]@));
            i += 1;
        }
        assert(chimes.deep_view().take(chimes.len() as int) =~= chimes.deep_view());
        ChimeList { user: self.user.clone(), chimes: copies, timestamp: at }
    }

    /// Publishes the user's list of chimes, stamped `at`, for the broker to
    /// keep.
    pub fn publish_chime_list_at(&self, chimes: &Vec<ChimeInfo>, at: Timestamp) -> (outcome:
        Result<Outbound<ChimeList>, InvalidTopicSegment>)
        ensures
            publishes_chime_list(outcome, self.user@, chimes.deep_view(), at),
    {
        let list = self.chime_list_at(chimes, at);
        outbound(TopicBuilder::chime_list(self.user.as_str()), list, true)
    }

    /// Publishes the user's list of chimes, stamped with the moment that the
    /// clock shows, for the broker to keep.
    pub fn publish_chime_list(&self, chimes: &Vec<ChimeInfo>) -> (outcome: Result<
        Outbound<ChimeList>,
        InvalidTopicSegment,
    >)
        ensures
            exists|at: Timestamp| #[trigger]
                publishes_chime_list(outcome, self.user@, chimes.deep_view(), at),
    {
        let now = utc_now();
        let outcome = self.publish_chime_list_at(chimes, now.timestamp);
        assert(publishes_chime_list(outcome, self.user@, chimes.deep_view(), now.timestamp));
        outcome
    }

    /// Publishes the notes of a chime, as JSON, for the broker to keep.
    pub fn publish_chime_notes(&self, chime_id: &str, notes: &Vec<String>) -> (outcome: Result<
        MqttMessage,
        PublishError,
    >)
        ensures
            publishes_list(outcome, self.user@, chime_id@, "notes"@, notes.deep_view()),
    {
        publish_list(TopicBuilder::chime_notes(self.user.as_str(), chime_id), notes)
    }

    /// Publishes the chords of a chime, as JSON, for the broker to keep.
    pub fn publish_chime_chords(&self, chime_id: &str, chords: &Vec<String>) -> (outcome: Result<
        MqttMessage,
        PublishError,
    >)
        ensures
            publishes_list(outcome, self.user@, chime_id@, "chords"@, chords.deep_view()),
    {
        publish_list(TopicBuilder::chime_chords(self.user.as_str(), chime_id), chords)
    }

    /// Publishes the status of a chime, for the broker to keep.
    pub fn publish_chime_status(&self, chime_id: &str, status: ChimeStatus) -> (outcome: Result<
        Outbound<ChimeStatus>,
        InvalidTopicSegment,
    >)
        ensures
            sends_for_chime(
                outcome,
                self.user@,
                chime_id@,
                chime_facet_topic(self.user@, chime_id@, "status"@),
                status,
                true,
            ),
    {
        outbound(TopicBuilder::chime_status(self.user.as_str(), chime_id), status, true)
    }

    /// Publishes a ring for one of the user's own chimes. Rings are not kept.
    pub fn publish_chime_ring(&self, chime_id: &str, ring_request: ChimeRingRequest) -> (outcome:
        Result<Outbound<ChimeRingRequest>, InvalidTopicSegment>)
        ensures
            sends_for_chime(
                outcome,
                self.user@,
                chime_id@,
                chime_facet_topic(self.user@, chime_id@, "ring"@),
                ring_request,
                false,
            ),
    {
        outbound(TopicBuilder::chime_ring(self.user.as_str(), chime_id), ring_request, false)
    }

    /// Publishes a ring for a chime of `user`. Rings are not kept.
    pub fn publish_chime_ring_to_user(
        &self,
        user: &str,
        chime_id: &str,
        ring_request: ChimeRingRequest,
    ) -> (outcome: Result<Outbound<ChimeRingRequest>, InvalidTopicSegment>)
        ensures
            sends_for_chime(
                outcome,
                user@,
                chime_id@,
                chime_facet_topic(user@, chime_id@, "ring"@),
                ring_request,
                false,
            ),
    {
        outbound(TopicBuilder::chime_ring(user, chime_id), ring_request, false)
    }

    /// Publishes the reply to a ring of the chime `chime_id`. Replies are
    /// not kept.
    pub fn publish_chime_response(&self, chime_id: &str, response: ChimeResponseMessage) -> (outcome:
        Result<Outbound<ChimeResponseMessage>, InvalidTopicSegment>)
        ensures
            sends_for_chime(
                outcome,
                self.user@,
                chime_id@,
                chime_facet_topic(self.user@, chime_id@, "response"@),
                response,
                false,
            ),
    {
        outbound(TopicBuilder::chime_response(self.user.as_str(), chime_id), response, false)
    }

    /// Publishes a ringer's question who is there. It is not kept.
    pub fn publish_ringer_discovery(&self, discovery: RingerDiscovery) -> (outcome: Result<
        Outbound<RingerDiscovery>,
        InvalidTopicSegment,
    >)
        ensures
            sends(outcome, self.user@, ringer_discover_topic(self.user@), discovery, false),
    {
        outbound(TopicBuilder::ringer_discover(self.user.as_str()), discovery, false)
    }

    /// Publishes a ringer's word that it is there, for the broker to keep.
    pub fn publish_ringer_available(&self, available: RingerAvailable) -> (outcome: Result<
        Outbound<RingerAvailable>,
        InvalidTopicSegment,
    >)
        ensures
            sends(outcome, self.user@, ringer_available_topic(self.user@), available, true),
    {
        outbound(TopicBuilder::ringer_available(self.user.as_str()), available, true)
    }

    /// Subscribes `handler` to the pattern `topic`, where `topic` was built,
    /// and returns the pattern; hands a refusal on and changes nothing.
    fn subscribe_built(&mut self, topic: Result<String, InvalidTopicSegment>, handler: H) -> (outcome:
        Result<String, InvalidTopicSegment>)
        ensures
            outcome == topic,
            final(self).user == old(self).user,
            match topic {
                Ok(pattern) => old(self).client.with_subscription(
                    final(self).client,
                    pattern@,
                    Subscription { qos: QOS_AT_LEAST_ONCE, handler },
                ),
                Err(_) => final(self).client == old(self).client,
            },
    {
        match topic {
            Ok(pattern) => {
                self.client.subscribe(pattern.as_str(), QOS_AT_LEAST_ONCE, handler);
                Ok(pattern)
            },
            Err(refused) => Err(refused),
        }
    }

    /// Subscribes `handler` to the rings of the user's chime `chime_id` and
    /// returns the topic, for the owner to subscribe to at the broker.
    pub fn subscribe_to_chime_rings(&mut self, chime_id: &str, handler: H) -> (outcome: Result<
        String,
        InvalidTopicSegment,
    >)
        ensures
            final(self).user == old(self).user,
            crate::topic::built_from_two(
                outcome,
                old(self).user@,
                chime_id@,
                chime_facet_topic(old(self).user@, chime_id@, "ring"@),
            ),
            match outcome {
                Ok(pattern) => old(self).client.with_subscription(
                    final(self).client,
                    pattern@,
                    Subscription { qos: QOS_AT_LEAST_ONCE, handler },
                ),
                Err(_) => final(self).client == old(self).client,
            },
    {
        let topic = TopicBuilder::chime_ring(self.user.as_str(), chime_id);
        self.subscribe_built(topic, handler)
    }

    /// Subscribes `handler` to every facet of every chime of `user` and
    /// returns the pattern, for the owner to subscribe to at the broker.
    pub fn subscribe_to_user_chimes(&mut self, user: &str, handler: H) -> (outcome: Result<
        String,
        InvalidTopicSegment,
    >)
        ensures
            final(self).user == old(self).user,
            crate::topic::built_from(outcome, user@, user_chimes_pattern(user@)),
            match outcome {
                Ok(pattern) => old(self).client.with_subscription(
                    final(self).client,
                    pattern@,
                    Subscription { qos: QOS_AT_LEAST_ONCE, handler },
                ),
                Err(_) => final(self).client == old(self).client,
            },
    {
        let topic = TopicBuilder::user_chimes(user);
        self.subscribe_built(topic, handler)
    }

    /// Subscribes `handler` to the questions of the user's ringers and
    /// returns the topic, for the owner to subscribe to at the broker.
    pub fn subscribe_to_ringer_discovery(&mut self, handler: H) -> (outcome: Result<
        String,
        InvalidTopicSegment,
    >)
        ensures
            final(self).user == old(self).user,
            crate::topic::built_from(
                outcome,
                old(self).user@,
                ringer_discover_topic(old(self).user@),
            ),
            match outcome {
                Ok(pattern) => old(self).client.with_subscription(
                    final(self).client,
                    pattern@,
                    Subscription { qos: QOS_AT_LEAST_ONCE, handler },
                ),
                Err(_) => final(self).client == old(self).client,
            },
    {
        let topic = TopicBuilder::ringer_discover(self.user.as_str());
        self.subscribe_built(topic, handler)
    }

    /// Subscribes `handler` to the pattern `topic`, as it stands.
    pub fn subscribe(&mut self, topic: &str, qos: i32, handler: H)
        ensures
            final(self).user == old(self).user,
            old(self).client.with_subscription(
                final(self).client,
                topic@,
                Subscription { qos, handler },
            ),
    {
        self.client.subscribe(topic, qos, handler);
    }
}

} // verus!
