use chimenet::chime::manager_client_id;
use chimenet::{
    BehaviorResult, ChimeInstance, ChimeMessage, ChimeResponse, ChimeRingRequest,
    CustomBehavior, CustomLcgpState, InvalidTopicSegment, LcgpMode, MqttMessage, PublishError,
    Timestamp, Tone,
};

type Chime = ChimeInstance<u32>;

fn at(seconds: i64) -> Timestamp {
    Timestamp { unix_seconds: seconds, subsec_nanos: 0 }
}

fn chime_of(user: &str, id: &str) -> Chime {
    ChimeInstance::with_id(
        id.to_string(),
        "Door".to_string(),
        Some("front door".to_string()),
        vec!["C4".to_string(), "G4".to_string()],
        vec!["C".to_string()],
        user.to_string(),
        at(100),
    )
}

fn request(notes: Option<Vec<String>>, duration_ms: Option<u64>) -> ChimeRingRequest {
    ChimeRingRequest {
        chime_id: "abc".to_string(),
        user: "bob".to_string(),
        notes,
        chords: None,
        duration_ms,
        timestamp: at(7),
    }
}

struct Silent;

impl CustomBehavior for Silent {
    fn on_incoming_chime(&self, _chime: &ChimeMessage, _state: &CustomLcgpState) -> BehaviorResult {
        BehaviorResult {
            should_chime: false,
            auto_response: Some(ChimeResponse::Negative),
            delay_ms: None,
            next_state: None,
        }
    }

    fn on_user_response(&self, _response: &ChimeResponse, _state: &CustomLcgpState) -> BehaviorResult {
        BehaviorResult { should_chime: false, auto_response: None, delay_ms: None, next_state: None }
    }

    fn on_timeout(&self, _state: &CustomLcgpState) -> BehaviorResult {
        BehaviorResult { should_chime: false, auto_response: None, delay_ms: None, next_state: None }
    }

    fn evaluate_conditions(&self, _state: &CustomLcgpState) -> bool {
        true
    }
}

#[test]
fn a_chime_made_with_an_identifier() {
    let chime = chime_of("alice", "abc");
    assert_eq!(chime.info.id, "abc");
    assert_eq!(chime.info.name, "Door");
    assert_eq!(chime.info.description, Some("front door".to_string()));
    assert_eq!(chime.info.notes, vec!["C4", "G4"]);
    assert_eq!(chime.info.chords, vec!["C"]);
    assert_eq!(chime.info.created_at, at(100));
    assert_eq!(chime.lcgp_handler.node.node_id(), "alice_abc");
    assert_eq!(chime.lcgp_handler.node.get_mode(), LcgpMode::Available);
    assert_eq!(chime.mqtt.user, "alice");
    assert_eq!(chime.mqtt.client.subscription_count(), 0);
}

#[test]
fn a_new_chime_has_a_random_identifier_that_fits_a_topic() {
    let make = || -> Chime {
        ChimeInstance::new("Door".to_string(), None, vec![], vec![], "alice".to_string())
    };
    let chime = make();
    let id = chime.info.id.clone();
    assert_eq!(id.chars().count(), 36);
    assert!(id.chars().all(|c| c == '-' || c.is_ascii_digit() || ('a'..='f').contains(&c)));
    assert_eq!(id.chars().filter(|c| *c == '-').count(), 4);
    assert_eq!(*chime.lcgp_handler.node.node_id(), format!("alice_{}", id));
    assert!(chime.publish_status_at(true, at(1)).is_ok());
    assert_ne!(make().info.id, id);
}

#[test]
fn a_chime_subscribes_to_its_own_rings() {
    let mut chime = chime_of("alice", "abc");
    assert_eq!(chime.subscribe_to_rings(5), Ok("/alice/chime/abc/ring".to_string()));
    assert_eq!(chime.mqtt.client.dispatch("/alice/chime/abc/ring"), vec![0]);
    assert!(chime.mqtt.client.dispatch("/alice/chime/abd/ring").is_empty());
    let mut odd = chime_of("alice", "a/b");
    assert_eq!(odd.subscribe_to_rings(5), Err(InvalidTopicSegment { segment: "a/b".to_string() }));
}

#[test]
fn a_request_stands_for_a_ring() {
    let ring = Chime::ring_message(&request(Some(vec!["A4".to_string()]), Some(9)));
    assert_eq!(
        ring,
        ChimeMessage {
            timestamp: at(7),
            from_node: "bob".to_string(),
            message: None,
            chime_id: Some("abc".to_string()),
            notes: Some(vec!["A4".to_string()]),
            chords: None,
        }
    );
}

#[test]
fn an_available_chime_plays_and_waits() {
    let mut chime = chime_of("alice", "abc");
    let outcome = chime.handle_ring_request(&request(Some(vec!["A4".to_string()]), Some(9)));
    assert_eq!(outcome.play, Some(vec![Tone { centihertz: 44_000, duration_ms: 9 }]));
    assert_eq!(outcome.response, None);
    assert!(chime.lcgp_handler.node.has_pending_response("abc"));
}

#[test]
fn a_grinding_chime_plays_and_answers() {
    let mut chime = chime_of("alice", "abc");
    chime.lcgp_handler.node.set_mode(LcgpMode::Grinding);
    let outcome = chime.handle_ring_request(&request(None, None));
    assert_eq!(outcome.play.unwrap().len(), 3);
    let reply = outcome.response.unwrap();
    assert_eq!(reply.response, ChimeResponse::Positive);
    assert_eq!(reply.original_chime_id, Some("abc".to_string()));
    assert_eq!(reply.node_id, "alice_abc");
    assert!(!chime.lcgp_handler.node.has_pending_response("abc"));
    let out = chime.publish_automatic_response(reply.clone()).unwrap();
    assert_eq!((out.topic.as_str(), out.qos, out.retain), ("/alice/chime/abc/response", 1, false));
    assert_eq!(out.payload, reply);
    let out = chime.publish_user_response(reply.clone()).unwrap().unwrap();
    assert_eq!((out.topic.as_str(), out.qos, out.retain), ("/alice/chime/abc/response", 1, false));
}

#[test]
fn a_chill_grinding_chime_plays_and_answers_later() {
    let mut chime = chime_of("alice", "abc");
    chime.lcgp_handler.node.set_mode(LcgpMode::ChillGrinding);
    let outcome = chime.handle_ring_request(&request(None, None));
    assert!(outcome.play.is_some());
    assert_eq!(outcome.response, None);
    let scheduled = chime.lcgp_handler.take_scheduled_responses();
    assert_eq!(scheduled.len(), 1);
    assert_eq!(scheduled[0].delay_ms, 10_000);
}

#[test]
fn a_chime_that_is_not_to_be_disturbed_stays_silent() {
    let mut chime = chime_of("alice", "abc");
    chime.lcgp_handler.node.set_mode(LcgpMode::DoNotDisturb);
    let outcome = chime.handle_ring_request(&request(None, None));
    assert_eq!(outcome.play, None);
    assert_eq!(outcome.response, None);
    assert!(!chime.lcgp_handler.node.has_pending_response("abc"));
}

#[test]
fn a_behaviour_is_asked_once_for_the_whole_ring() {
    let mut chime = chime_of("alice", "abc");
    chime.lcgp_handler.register_custom_state(CustomLcgpState {
        name: "meeting".to_string(),
        should_chime: true,
        auto_response: None,
        auto_response_delay: None,
        description: None,
        priority: None,
        active_hours: None,
        conditions: vec![],
    });
    chime.lcgp_handler.register_custom_behavior("meeting".to_string(), Box::new(Silent));
    chime.lcgp_handler.set_custom_mode("meeting".to_string()).unwrap();
    let outcome = chime.handle_ring_request(&request(None, None));
    assert_eq!(outcome.play, None);
    assert_eq!(outcome.response, None);
}

#[test]
fn a_chime_tells_of_itself() {
    let chime = chime_of("alice", "abc");
    let told = chime.publish_chime_info_at(at(200)).ok().unwrap();
    assert_eq!((told.list.topic.as_str(), told.list.qos, told.list.retain), ("/alice/chime/list", 1, true));
    assert_eq!(told.list.payload.user, "alice");
    assert_eq!(told.list.payload.timestamp, at(200));
    assert_eq!(told.list.payload.chimes.len(), 1);
    assert_eq!(told.list.payload.chimes[0], chime.info);
    assert_eq!(
        told.notes,
        MqttMessage {
            topic: "/alice/chime/abc/notes".to_string(),
            payload: "[\"C4\",\"G4\"]".to_string(),
            qos: 1,
            retain: true,
        }
    );
    assert_eq!(
        told.chords,
        MqttMessage {
            topic: "/alice/chime/abc/chords".to_string(),
            payload: "[\"C\"]".to_string(),
            qos: 1,
            retain: true,
        }
    );
    assert_eq!(
        (told.status.topic.as_str(), told.status.qos, told.status.retain),
        ("/alice/chime/abc/status", 1, true)
    );
    assert!(told.status.payload.online);
    assert_eq!(told.status.payload.chime_id, "abc");
    assert_eq!(told.status.payload.node_id, "alice_abc");
    assert_eq!(told.status.payload.mode, LcgpMode::Available);
    assert_eq!(told.status.payload.last_seen, at(200));
    assert!(chime.publish_chime_info().is_ok());
}

#[test]
fn a_chime_that_cannot_be_named_tells_nothing() {
    let chime = chime_of("al/ice", "abc");
    assert_eq!(
        chime.publish_chime_info_at(at(1)).err(),
        Some(PublishError::Topic(InvalidTopicSegment { segment: "al/ice".to_string() }))
    );
    let chime = chime_of("alice", "#");
    assert_eq!(
        chime.publish_chime_info().err(),
        Some(PublishError::Topic(InvalidTopicSegment { segment: "#".to_string() }))
    );
    assert!(chime.shutdown().is_err());
}

#[test]
fn setting_the_mode_publishes_the_status() {
    let mut chime = chime_of("alice", "abc");
    let out = chime.set_mode_at(LcgpMode::DoNotDisturb, at(300)).ok().unwrap();
    assert_eq!(out.topic, "/alice/chime/abc/status");
    assert!(out.retain);
    assert!(out.payload.online);
    assert_eq!(out.payload.mode, LcgpMode::DoNotDisturb);
    assert_eq!(out.payload.last_seen, at(300));
    assert_eq!(chime.lcgp_handler.node.get_mode(), LcgpMode::DoNotDisturb);
    let out = chime.set_mode(LcgpMode::Grinding).ok().unwrap();
    assert_eq!(out.payload.mode, LcgpMode::Grinding);
    let mut odd = chime_of("a+b", "abc");
    assert!(odd.set_mode(LcgpMode::Grinding).is_err());
    assert_eq!(odd.lcgp_handler.node.get_mode(), LcgpMode::Grinding);
}

#[test]
fn ringing_another_chime() {
    let chime = chime_of("alice", "abc");
    let out = chime
        .ring_other_chime_at("bob", "xyz", None, Some(vec!["Am".to_string()]), Some(250), at(400))
        .ok()
        .unwrap();
    assert_eq!((out.topic.as_str(), out.qos, out.retain), ("/bob/chime/xyz/ring", 1, false));
    assert_eq!(
        out.payload,
        ChimeRingRequest {
            chime_id: "xyz".to_string(),
            user: "bob".to_string(),
            notes: None,
            chords: Some(vec!["Am".to_string()]),
            duration_ms: Some(250),
            timestamp: at(400),
        }
    );
    assert_eq!(
        chime.ring_other_chime("bob", "x+z", None, None, None).err(),
        Some(InvalidTopicSegment { segment: "x+z".to_string() })
    );
    assert_eq!(chime.ring_other_chime("bob", "xyz", None, None, None).ok().unwrap().payload.user, "bob");
}

#[test]
fn the_users_reply_is_published_under_the_ring() {
    let mut chime = chime_of("alice", "abc");
    chime.handle_ring_request(&request(None, None));
    assert!(chime.lcgp_handler.node.has_pending_response("abc"));
    let out = chime.respond_to_chime(ChimeResponse::Negative, Some("abc".to_string())).unwrap().unwrap();
    assert_eq!((out.topic.as_str(), out.qos, out.retain), ("/alice/chime/abc/response", 1, false));
    assert_eq!(out.payload.response, ChimeResponse::Negative);
    assert_eq!(out.payload.original_chime_id, Some("abc".to_string()));
    assert_eq!(out.payload.node_id, "alice_abc");
    assert!(!chime.lcgp_handler.node.has_pending_response("abc"));
}

#[test]
fn a_reply_to_no_ring_is_not_published() {
    let mut chime = chime_of("alice", "abc");
    assert!(chime.respond_to_chime(ChimeResponse::Positive, None).unwrap().is_none());
    assert_eq!(
        chime.respond_to_chime(ChimeResponse::Positive, Some("a/b".to_string())).err(),
        Some(InvalidTopicSegment { segment: "a/b".to_string() })
    );
}

#[test]
fn shutting_down_publishes_the_chime_as_offline() {
    let mut chime = chime_of("alice", "abc");
    chime.lcgp_handler.node.set_mode(LcgpMode::ChillGrinding);
    let out = chime.shutdown_at(at(500)).ok().unwrap();
    assert_eq!((out.topic.as_str(), out.qos, out.retain), ("/alice/chime/abc/status", 1, true));
    assert!(!out.payload.online);
    assert_eq!(out.payload.mode, LcgpMode::ChillGrinding);
    assert_eq!(out.payload.last_seen, at(500));
    assert!(!chime.shutdown().ok().unwrap().payload.online);
}

#[test]
fn the_manager_goes_by_the_users_name() {
    assert_eq!(manager_client_id("alice"), "chime_manager_alice");
    assert_eq!(manager_client_id(""), "chime_manager_");
}

#[test]
fn an_automatic_reply_goes_out_under_the_chime_and_a_manual_one_under_the_ring() {
    let chime = chime_of("alice", "abc");
    let reply = chimenet::ChimeResponseMessage {
        timestamp: at(1),
        response: ChimeResponse::Positive,
        node_id: "alice_abc".to_string(),
        original_chime_id: Some("ring-7".to_string()),
    };
    assert_eq!(chime.publish_automatic_response(reply.clone()).unwrap().topic, "/alice/chime/abc/response");
    assert_eq!(
        chime.publish_user_response(reply.clone()).unwrap().unwrap().topic,
        "/alice/chime/ring-7/response"
    );
    let unnamed = chimenet::ChimeResponseMessage { original_chime_id: None, ..reply };
    assert!(chime.publish_user_response(unnamed.clone()).unwrap().is_none());
    assert!(chime.publish_automatic_response(unnamed).is_ok());
}
