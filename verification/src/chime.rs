//! A chime: what it says of itself, its presence handler, and its part in
//! the topic scheme.
//!
//! A chime neither plays nor sends. What is to be played and what is to be
//! sent it returns, and what arrived it is handed.

use crate::audio::{chime_tones, tones_of_chime, Tone};
use crate::lcgp::{ChimeDecision, LcgpHandler, LcgpHandlerView, LcgpNode, LcgpNodeView};
use crate::mqtt::{
    publishes_list, sends_for_chime, ChimeNetMqtt, MqttMessage, Outbound, PublishError,
    Subscription,
};
use crate::text::{clone_opt_string, clone_opt_strings};
use crate::time::{utc_now, Timestamp};
use crate::topic::{
    built_from_two, chime_facet_topic, chime_list_topic, valid_segment, InvalidTopicSegment,
};
use crate::types::{
    BehaviorResultView, ChimeInfo, ChimeInfoView, ChimeList, ChimeListView, ChimeMessage,
    ChimeMessageView, ChimeResponse, ChimeResponseMessage, ChimeResponseMessageView,
    ChimeRingRequest, ChimeRingRequestView, ChimeStatus, ChimeStatusView, LcgpMode, LcgpModeView,
};
use vstd::prelude::*;
use vstd::string::StringExecFns;

verus! {

/// Whether `c` can stand in the text of a UUID: a hyphen, a digit, or one of
/// the letters a to f.
pub open spec fn uuid_char(c: char) -> bool {
    c == '-' || ('0' <= c && c <= '9') || ('a' <= c && c <= 'f')
}

/// Whether `text` has the shape of a UUID in its usual writing: 36
/// characters, each a hyphen or a lower-case hexadecimal digit.
pub open spec fn uuid_text(text: Seq<char>) -> bool {
    &&& text.len() == 36
    &&& forall|i: int| 0 <= i < text.len() ==> uuid_char(#[trigger] text[i])
}

/// The text of a UUID can fill one level of a topic.
pub proof fn lemma_uuid_is_valid_segment(text: Seq<char>)
    requires
        uuid_text(text),
    ensures
        valid_segment(text),
{
}

/// Trusted: draws a random UUID with `uuid::Uuid::new_v4` and writes it out
/// with `to_string`, which the uuid crate gives the hyphenated lower-case
/// form. The contract claims the shape of that text and nothing of its
/// value.
#[verifier::external_body]
fn random_uuid() -> (text: String)
    ensures
        uuid_text(text@),
{
    uuid::Uuid::new_v4().to_string()
}

/// The identifier of the presence node of the chime `chime_id` of `user`.
pub open spec fn node_id_of(user: Seq<char>, chime_id: Seq<char>) -> Seq<char> {
    user + "_"@ + chime_id
}

/// The ring that a request to ring stands for: it comes from the user who
/// asked and is identified by the chime that is asked for.
pub open spec fn ring_of(request: ChimeRingRequestView) -> ChimeMessageView {
    ChimeMessageView {
        timestamp: request.timestamp,
        from_node: request.user,
        message: None,
        chime_id: Some(request.chime_id),
        notes: request.notes,
        chords: request.chords,
    }
}

/// What handling a request to ring comes to.
pub struct RingOutcome {
    /// The tones to play, where the ring is played.
    pub play: Option<Vec<Tone>>,
    /// The reply to send at once, if any.
    pub response: Option<ChimeResponseMessage>,
}

/// Whether handling the request `request` took the presence handler from
/// `before` to `after` and came to `play` and `response`, where the node
/// decided `decision`: the ring is played exactly when the decision says so,
/// with the tones that the request names.
pub open spec fn ring_request_handled(
    before: LcgpHandlerView,
    after: LcgpHandlerView,
    request: ChimeRingRequestView,
    decision: ChimeDecision,
    play: Option<Seq<Tone>>,
    response: Option<ChimeResponseMessageView>,
) -> bool {
    &&& before.ring_handled(after, Some(request.chime_id), decision, response)
    &&& play == (if decision.should_chime {
        Some(chime_tones(request.notes, request.chords, request.duration_ms))
    } else {
        None
    })
}

/// Whether `outcome` publishes the request `request` on the topic of the
/// rings of the chime that it asks for, at least once and not kept; or, where
/// the user or the chime identifier cannot stand in a topic, refuses the
/// first of the two that cannot.
pub open spec fn rings(
    outcome: Result<Outbound<ChimeRingRequest>, InvalidTopicSegment>,
    request: ChimeRingRequestView,
) -> bool {
    if !valid_segment(request.user) {
        outcome matches Err(refused) && refused.segment@ == request.user
    } else if !valid_segment(request.chime_id) {
        outcome matches Err(refused) && refused.segment@ == request.chime_id
    } else {
        &&& outcome matches Ok(out)
        &&& out.topic@ == chime_facet_topic(request.user, request.chime_id, "ring"@)
        &&& out.payload@ == request
        &&& out.qos == crate::mqtt::QOS_AT_LEAST_ONCE
        &&& !out.retain
    }
}

/// What a chime publishes of itself.
pub struct ChimeAnnouncement {
    pub list: Outbound<ChimeList>,
    pub notes: MqttMessage,
    pub chords: MqttMessage,
    pub status: Outbound<ChimeStatus>,
}

/// One chime of one user.
pub struct ChimeInstance<H> {
    pub info: ChimeInfo,
    pub lcgp_handler: LcgpHandler,
    pub mqtt: ChimeNetMqtt<H>,
}

impl<H> ChimeInstance<H> {
    /// The chime `chime_id` of `user`, made at the moment `at`: its
    /// presence node is named after the user and the chime and is in mode
    /// `Available`, and it is subscribed to nothing.
    pub fn with_id(
        chime_id: String,
        name: String,
        description: Option<String>,
        notes: Vec<String>,
        chords: Vec<String>,
        user: String,
        at: Timestamp,
    ) -> (chime: ChimeInstance<H>)
        ensures
            chime.info@ == (ChimeInfoView {
                id: chime_id@,
                name: name@,
                description: description.deep_view(),
                notes: notes.deep_view(),
                chords: chords.deep_view(),
                created_at: at,
            }),
            chime.lcgp_handler@ == (LcgpHandlerView {
                node: LcgpNodeView {
                    node_id: node_id_of(user@, chime_id@),
                    mode: LcgpModeView::Available,
                    custom_states: Map::empty(),
                    behaviors: Map::empty(),
                    last_mode_update: at,
                    pending: Set::empty(),
                    conditions: Map::empty(),
                },
                scheduled: Seq::empty(),
            }),
            chime.mqtt.user@ == user@,
            chime.mqtt.client.patterns() == Seq::<Seq<char>>::empty(),
            chime.mqtt.client.subscriptions() == Map::<Seq<char>, Subscription<H>>::empty(),
    {
        let mut node_id = user.clone();
        node_id.append("_");
        node_id.append(chime_id.as_str());
        let info = ChimeInfo { id: chime_id, name, description, notes, chords, created_at: at };
        let lcgp_handler = LcgpHandler::new(LcgpNode::new_at(node_id, at));
        let mqtt = ChimeNetMqtt::new(user.as_str());
        ChimeInstance { info, lcgp_handler, mqtt }
    }

    /// A new chime of `user`, under a random identifier that can stand in a
    /// topic. Its presence node is named after the user and the chime and is
    /// in mode `Available`.
    pub fn new(
        name: String,
        description: Option<String>,
        notes: Vec<String>,
        chords: Vec<String>,
        user: String,
    ) -> (chime: ChimeInstance<H>)
        ensures
            uuid_text(chime.info@.id),
            valid_segment(chime.info@.id),
            chime.info@ == (ChimeInfoView {
                id: chime.info@.id,
                name: name@,
                description: description.deep_view(),
                notes: notes.deep_view(),
                chords: chords.deep_view(),
                created_at: chime.info@.created_at,
            }),
            chime.lcgp_handler@ == (LcgpHandlerView {
                node: LcgpNodeView {
                    node_id: node_id_of(user@, chime.info@.id),
                    mode: LcgpModeView::Available,
                    custom_states: Map::empty(),
                    behaviors: Map::empty(),
                    last_mode_update: chime.info@.created_at,
                    pending: Set::empty(),
                    conditions: Map::empty(),
                },
                scheduled: Seq::empty(),
            }),
            chime.mqtt.user@ == user@,
            chime.mqtt.client.patterns() == Seq::<Seq<char>>::empty(),
    {
        let chime_id = random_uuid();
        proof {
            lemma_uuid_is_valid_segment(chime_id@);
        }
        let now = utc_now();
        ChimeInstance::with_id(chime_id, name, description, notes, chords, user, now.timestamp)
    }

    /// Subscribes `handler` to the rings of this chime and returns the
    /// topic, for the owner to subscribe to at the broker.
    pub fn subscribe_to_rings(&mut self, handler: H) -> (outcome: Result<
        String,
        InvalidTopicSegment,
    >)
        ensures
            final(self).info == old(self).info,
            final(self).lcgp_handler == old(self).lcgp_handler,
            final(self).mqtt.user == old(self).mqtt.user,
            built_from_two(
                outcome,
                old(self).mqtt.user@,
                old(self).info@.id,
                chime_facet_topic(old(self).mqtt.user@, old(self).info@.id, "ring"@),
            ),
            match outcome {
                Ok(pattern) => old(self).mqtt.client.with_subscription(
                    final(self).mqtt.client,
                    pattern@,
                    Subscription { qos: crate::mqtt::QOS_AT_LEAST_ONCE, handler },
                ),
                Err(_) => final(self).mqtt.client == old(self).mqtt.client,
            },
    {
        self.mqtt.subscribe_to_chime_rings(self.info.id.as_str(), handler)
    }

    /// The ring that a request to ring stands for.
    pub fn ring_message(request: &ChimeRingRequest) -> (ring: ChimeMessage)
        ensures
            ring@ == ring_of(request@),
    {
        ChimeMessage {
            timestamp: request.timestamp,
            from_node: request.user.clone(),
            message: None,
            chime_id: Some(request.chime_id.clone()),
            notes: clone_opt_strings(&request.notes),
            chords: clone_opt_strings(&request.chords),
        }
    }

    /// Handles a request to ring this chime: the presence handler is asked
    /// what to do with the ring, the tones of the ring are returned where it
    /// is played, and the reply where one is due at once.
    ///
    /// Where a behaviour overrides the active custom state, it is asked
    /// once, and the contract holds for what it said.
    pub fn handle_ring_request(&mut self, request: &ChimeRingRequest) -> (outcome: RingOutcome)
        ensures
            final(self).info == old(self).info,
            final(self).mqtt == old(self).mqtt,
            !old(self).lcgp_handler@.node.overridden() ==> ring_request_handled(
                old(self).lcgp_handler@,
                final(self).lcgp_handler@,
                request@,
                old(self).lcgp_handler@.node.decision(None),
                outcome.play.deep_view(),
                outcome.response.deep_view(),
            ),
            old(self).lcgp_handler@.node.overridden() ==> exists|said: BehaviorResultView|
                ring_request_handled(
                    old(self).lcgp_handler@,
                    final(self).lcgp_handler@,
                    request@,
                    #[trigger] old(self).lcgp_handler@.node.decision(Some(said)),
                    outcome.play.deep_view(),
                    outcome.response.deep_view(),
                ),
    {
        let ring = Self::ring_message(request);
        let decision = self.lcgp_handler.node.chime_decision(&ring);
        let now = utc_now();
        let response = self.lcgp_handler.apply_decision_at(ring.chime_id, decision, now.timestamp);
        let play = if decision.should_chime {
            let tones = tones_of_chime(&request.notes, &request.chords, request.duration_ms);
            assert(tones.deep_view() =~= tones@);
            Some(tones)
        } else {
            None
        };
        RingOutcome { play, response }
    }

    /// The status of this chime at the moment `at`.
    pub open spec fn status(&self, online: bool, at: Timestamp) -> ChimeStatusView {
        ChimeStatusView {
            chime_id: self.info@.id,
            online,
            mode: self.lcgp_handler@.node.mode,
            last_seen: at,
            node_id: self.lcgp_handler@.node.node_id,
        }
    }

    /// Whether `outcome` publishes the status of this chime at the moment
    /// `at` on the topic of its status, for the broker to keep; or, where
    /// the user or the chime cannot stand in a topic, refuses the first of
    /// the two that cannot.
    pub open spec fn publishes_status(
        &self,
        outcome: Result<Outbound<ChimeStatus>, InvalidTopicSegment>,
        online: bool,
        at: Timestamp,
    ) -> bool {
        match outcome {
            Ok(out) => {
                &&& valid_segment(self.mqtt.user@)
                &&& valid_segment(self.info@.id)
                &&& out.topic@ == chime_facet_topic(self.mqtt.user@, self.info@.id, "status"@)
                &&& out.payload@ == self.status(online, at)
                &&& out.qos == crate::mqtt::QOS_AT_LEAST_ONCE
                &&& out.retain
            },
            Err(refused) => if valid_segment(self.mqtt.user@) {
                !valid_segment(self.info@.id) && refused.segment@ == self.info@.id
            } else {
                refused.segment@ == self.mqtt.user@
            },
        }
    }

    /// Whether `outcome` is what this chime publishes of itself at the
    /// moment `at`: the list of the user's chimes that holds this chime
    /// alone, its notes, its chords, and its status as online, all for the
    /// broker to keep. Where the user or the chime cannot stand in a topic,
    /// the first of the two that cannot is refused; else nothing is.
    pub open spec fn announces(
        &self,
        outcome: Result<ChimeAnnouncement, PublishError>,
        at: Timestamp,
    ) -> bool {
        if !valid_segment(self.mqtt.user@) {
            outcome matches Err(PublishError::Topic(refused)) && refused.segment@
                == self.mqtt.user@
        } else if !valid_segment(self.info@.id) {
            outcome matches Err(PublishError::Topic(refused)) && refused.segment@ == self.info@.id
        } else {
            &&& outcome matches Ok(told)
            &&& told.list.topic@ == chime_list_topic(self.mqtt.user@)
            &&& told.list.retain
            &&& told.list.qos == crate::mqtt::QOS_AT_LEAST_ONCE
            &&& told.list.payload@ == (ChimeListView {
                user: self.mqtt.user@,
                chimes: seq![self.info@],
                timestamp: at,
            })
            &&& publishes_list(
                Ok(told.notes),
                self.mqtt.user@,
                self.info@.id,
                "notes"@,
                self.info@.notes,
            )
            &&& publishes_list(
                Ok(told.chords),
                self.mqtt.user@,
                self.info@.id,
                "chords"@,
                self.info@.chords,
            )
            &&& self.publishes_status(Ok(told.status), true, at)
        }
    }

    /// The status of this chime at the moment `at`.
    pub fn status_at(&self, online: bool, at: Timestamp) -> (status: ChimeStatus)
        ensures
            status@ == self.status(online, at),
    {
        ChimeStatus {
            chime_id: self.info.id.clone(),
            online,
            mode: self.lcgp_handler.node.get_mode(),
            last_seen: at,
            node_id: self.lcgp_handler.node.node_id().clone(),
        }
    }

    /// Publishes the status of this chime at the moment `at`, for the broker
    /// to keep.
    pub fn publish_status_at(&self, online: bool, at: Timestamp) -> (outcome: Result<
        Outbound<ChimeStatus>,
        InvalidTopicSegment,
    >)
        ensures
            self.publishes_status(outcome, online, at),
    {
        let status = self.status_at(online, at);
        self.mqtt.publish_chime_status(self.info.id.as_str(), status)
    }

    /// What this chime publishes of itself at the moment `at`: the list of
    /// the user's chimes that holds this chime alone, its notes, its chords,
    /// and its status as online; all for the broker to keep.
    pub fn publish_chime_info_at(&self, at: Timestamp) -> (outcome: Result<
        ChimeAnnouncement,
        PublishError,
    >)
        ensures
            self.announces(outcome, at),
    {
        let mut chimes: Vec<ChimeInfo> = Vec::new();
        chimes.push(self.info.clone());
        assert(chimes.deep_view() =~= seq![self.info@]);
        let list = match self.mqtt.publish_chime_list_at(&chimes, at) {
            Ok(out) => out,
            Err(refused) => {
                return Err(PublishError::Topic(refused));
            },
        };
        let notes = match self.mqtt.publish_chime_notes(self.info.id.as_str(), &self.info.notes) {
            Ok(message) => message,
            Err(error) => {
                return Err(error);
            },
        };
        let chords = match self.mqtt.publish_chime_chords(
            self.info.id.as_str(),
            &self.info.chords,
        ) {
            Ok(message) => message,
            Err(error) => {
                return Err(error);
            },
        };
        let status = match self.publish_status_at(true, at) {
            Ok(out) => out,
            Err(refused) => {
                return Err(PublishError::Topic(refused));
            },
        };
        Ok(ChimeAnnouncement { list, notes, chords, status })
    }

    /// What this chime publishes of itself at the moment that the clock
    /// shows: see [`ChimeInstance::publish_chime_info_at`].
    pub fn publish_chime_info(&self) -> (outcome: Result<ChimeAnnouncement, PublishError>)
        ensures
            exists|at: Timestamp| #[trigger] self.announces(outcome, at),
    {
        let now = utc_now();
        let outcome = self.publish_chime_info_at(now.timestamp);
        outcome
    }

    /// Sets the mode at the moment `at` and publishes the status that
    /// follows, for the broker to keep. The mode is set whether or not the
    /// status can be published.
    pub fn set_mode_at(&mut self, mode: LcgpMode, at: Timestamp) -> (outcome: Result<
        Outbound<ChimeStatus>,
        InvalidTopicSegment,
    >)
        ensures
            final(self).info == old(self).info,
            final(self).mqtt == old(self).mqtt,
            final(self).lcgp_handler@ == (LcgpHandlerView {
                node: LcgpNodeView {
                    mode: mode@,
                    last_mode_update: at,
                    ..old(self).lcgp_handler@.node
                },
                ..old(self).lcgp_handler@
            }),
            final(self).publishes_status(outcome, true, at),
    {
        self.lcgp_handler.node.set_mode_at(mode, at);
        self.publish_status_at(true, at)
    }

    /// Sets the mode at the moment that the clock shows and publishes the
    /// status that follows: see [`ChimeInstance::set_mode_at`].
    pub fn set_mode(&mut self, mode: LcgpMode) -> (outcome: Result<
        Outbound<ChimeStatus>,
        InvalidTopicSegment,
    >)
        ensures
            final(self).info == old(self).info,
            final(self).mqtt == old(self).mqtt,
            final(self).lcgp_handler@ == (LcgpHandlerView {
                node: LcgpNodeView {
                    mode: mode@,
                    last_mode_update: final(self).lcgp_handler@.node.last_mode_update,
                    ..old(self).lcgp_handler@.node
                },
                ..old(self).lcgp_handler@
            }),
            final(self).publishes_status(
                outcome,
                true,
                final(self).lcgp_handler@.node.last_mode_update,
            ),
    {
        let now = utc_now();
        self.set_mode_at(mode, now.timestamp)
    }

    /// The request, stamped `at`, to ring the chime `chime_id` of `user`,
    /// on the topic of that chime's rings. Rings are not kept.
    pub fn ring_other_chime_at(
        &self,
        user: &str,
        chime_id: &str,
        notes: Option<Vec<String>>,
        chords: Option<Vec<String>>,
        duration_ms: Option<u64>,
        at: Timestamp,
    ) -> (outcome: Result<Outbound<ChimeRingRequest>, InvalidTopicSegment>)
        ensures
            rings(
                outcome,
                ChimeRingRequestView {
                    chime_id: chime_id@,
                    user: user@,
                    notes: notes.deep_view(),
                    chords: chords.deep_view(),
                    duration_ms,
                    timestamp: at,
                },
            ),
    {
        let ring_request = ChimeRingRequest {
            chime_id: String::from_str(chime_id),
            user: String::from_str(user),
            notes,
            chords,
            duration_ms,
            timestamp: at,
        };
        self.mqtt.publish_chime_ring_to_user(user, chime_id, ring_request)
    }

    /// The request, stamped with the moment that the clock shows, to ring
    /// the chime `chime_id` of `user`: see
    /// [`ChimeInstance::ring_other_chime_at`].
    pub fn ring_other_chime(
        &self,
        user: &str,
        chime_id: &str,
        notes: Option<Vec<String>>,
        chords: Option<Vec<String>>,
        duration_ms: Option<u64>,
    ) -> (outcome: Result<Outbound<ChimeRingRequest>, InvalidTopicSegment>)
        ensures
            exists|at: Timestamp| #[trigger]
                rings(
                    outcome,
                    ChimeRingRequestView {
                        chime_id: chime_id@,
                        user: user@,
                        notes: notes.deep_view(),
                        chords: chords.deep_view(),
                        duration_ms,
                        timestamp: at,
                    },
                ),
    {
        let now = utc_now();
        let ghost asked = ChimeRingRequestView {
            chime_id: chime_id@,
            user: user@,
            notes: notes.deep_view(),
            chords: chords.deep_view(),
            duration_ms,
            timestamp: now.timestamp,
        };
        let outcome = self.ring_other_chime_at(
            user,
            chime_id,
            notes,
            chords,
            duration_ms,
            now.timestamp,
        );
        assert(rings(outcome, asked));
        outcome
    }

    /// Publishes a reply that this chime gives by itself: on the topic of
    /// this chime's replies. Replies are not kept.
    pub fn publish_automatic_response(&self, reply: ChimeResponseMessage) -> (outcome: Result<
        Outbound<ChimeResponseMessage>,
        InvalidTopicSegment,
    >)
        ensures
            sends_for_chime(
                outcome,
                self.mqtt.user@,
                self.info@.id,
                chime_facet_topic(self.mqtt.user@, self.info@.id, "response"@),
                reply,
                false,
            ),
    {
        self.mqtt.publish_chime_response(self.info.id.as_str(), reply)
    }

    /// Whether `outcome` publishes the user's reply `reply`: on the topic of
    /// the replies of the chime that the ring's identifier names, at least
    /// once and not kept. A reply to a ring without an identifier is not
    /// published. Where the user or the identifier cannot stand in a topic,
    /// the first of the two that cannot is refused.
    pub open spec fn publishes_user_response(
        &self,
        outcome: Result<Option<Outbound<ChimeResponseMessage>>, InvalidTopicSegment>,
        reply: ChimeResponseMessageView,
    ) -> bool {
        match reply.original_chime_id {
            None => outcome matches Ok(None),
            Some(id) => if !valid_segment(self.mqtt.user@) {
                outcome matches Err(refused) && refused.segment@ == self.mqtt.user@
            } else if !valid_segment(id) {
                outcome matches Err(refused) && refused.segment@ == id
            } else {
                &&& outcome matches Ok(Some(out))
                &&& out.topic@ == chime_facet_topic(self.mqtt.user@, id, "response"@)
                &&& out.payload@ == reply
                &&& out.qos == crate::mqtt::QOS_AT_LEAST_ONCE
                &&& !out.retain
            },
        }
    }

    /// Publishes the user's reply to a ring: on the topic of the replies of
    /// the chime that the ring's identifier names. A reply to a ring without
    /// an identifier is not published.
    pub fn publish_user_response(&self, reply: ChimeResponseMessage) -> (outcome: Result<
        Option<Outbound<ChimeResponseMessage>>,
        InvalidTopicSegment,
    >)
        ensures
            self.publishes_user_response(outcome, reply@),
            outcome matches Ok(Some(out)) ==> out.payload == reply,
    {
        let id = clone_opt_string(&reply.original_chime_id);
        match id {
            Some(id) => match self.mqtt.publish_chime_response(id.as_str(), reply) {
                Ok(out) => Ok(Some(out)),
                Err(refused) => Err(refused),
            },
            None => Ok(None),
        }
    }

    /// Handles the user's reply to the ring `original_chime_id` and publishes
    /// the reply that the presence handler returns: see
    /// [`LcgpHandler::handle_user_response`] for what becomes of the handler
    /// and what the reply holds. The handler takes note of the reply whether
    /// or not it can be published.
    pub fn respond_to_chime(&mut self, response: ChimeResponse, original_chime_id: Option<String>) -> (outcome:
        Result<Option<Outbound<ChimeResponseMessage>>, InvalidTopicSegment>)
        ensures
            final(self).info == old(self).info,
            final(self).mqtt == old(self).mqtt,
            !old(self).lcgp_handler@.node.overridden() ==> exists|reply: ChimeResponseMessageView|
                #[trigger] old(self).lcgp_handler@.user_response_handled(
                    final(self).lcgp_handler@,
                    response,
                    original_chime_id.deep_view(),
                    None,
                    Some(reply),
                ) && old(self).publishes_user_response(outcome, reply),
            old(self).lcgp_handler@.node.overridden() ==> exists|
                next_state: Option<Seq<char>>,
                reply: ChimeResponseMessageView,
            | #[trigger]
                old(self).lcgp_handler@.user_response_handled(
                    final(self).lcgp_handler@,
                    response,
                    original_chime_id.deep_view(),
                    next_state,
                    Some(reply),
                ) && old(self).publishes_user_response(outcome, reply),
    {
        let ghost before = self.lcgp_handler@;
        let reply = self.lcgp_handler.handle_user_response(response, original_chime_id);
        let ghost said = reply->0@;
        proof {
            if before.node.overridden() {
                let next_state = choose|next_state: Option<Seq<char>>| #[trigger]
                    before.user_response_handled(
                        self.lcgp_handler@,
                        response,
                        original_chime_id.deep_view(),
                        next_state,
                        reply.deep_view(),
                    );
                assert(before.user_response_handled(
                    self.lcgp_handler@,
                    response,
                    original_chime_id.deep_view(),
                    next_state,
                    Some(said),
                ));
            } else {
                assert(before.user_response_handled(
                    self.lcgp_handler@,
                    response,
                    original_chime_id.deep_view(),
                    None,
                    Some(said),
                ));
            }
        }
        match reply {
            Some(reply) => self.publish_user_response(reply),
            None => Ok(None),
        }
    }

    /// Publishes the status of this chime as offline at the moment `at`,
    /// for the broker to keep.
    pub fn shutdown_at(&self, at: Timestamp) -> (outcome: Result<
        Outbound<ChimeStatus>,
        InvalidTopicSegment,
    >)
        ensures
            self.publishes_status(outcome, false, at),
    {
        self.publish_status_at(false, at)
    }

    /// Publishes the status of this chime as offline at the moment that the
    /// clock shows.
    pub fn shutdown(&self) -> (outcome: Result<Outbound<ChimeStatus>, InvalidTopicSegment>)
        ensures
            exists|at: Timestamp| #[trigger] self.publishes_status(outcome, false, at),
    {
        let now = utc_now();
        let outcome = self.shutdown_at(now.timestamp);
        outcome
    }
}

/// The name under which the manager of the chimes of `user` goes to the
/// broker.
pub fn manager_client_id(user: &str) -> (id: String)
    ensures
        id@ == "chime_manager_"@ + user@,
{
    let mut id = String::from_str("chime_manager_");
    id.append(user);
    id
}

} // verus!
