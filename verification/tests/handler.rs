use chimenet::{
    BehaviorResult, ChimeMessage, ChimeResponse, ChimeResponseMessage, CustomBehavior,
    CustomLcgpState, DelayedResponse, LcgpHandler, LcgpMode, LcgpNode, NotFoundError,
    StateCondition, Timestamp, WallClock,
};

fn at(seconds: i64) -> Timestamp {
    Timestamp { unix_seconds: seconds, subsec_nanos: 0 }
}

fn noon() -> WallClock {
    WallClock { timestamp: at(50_000), weekday: 2, hour: 12, minute: 0 }
}

fn handler_in(mode: LcgpMode) -> LcgpHandler {
    let mut node = LcgpNode::new_at("alice_chime".to_string(), at(1_000));
    node.set_mode_at(mode, at(1_000));
    LcgpHandler::new(node)
}

fn ring(id: Option<&str>) -> ChimeMessage {
    ChimeMessage {
        timestamp: at(5),
        from_node: "bob".to_string(),
        message: None,
        chime_id: id.map(|id| id.to_string()),
        notes: None,
        chords: None,
    }
}

fn state(name: &str, priority: u8) -> CustomLcgpState {
    CustomLcgpState {
        name: name.to_string(),
        should_chime: true,
        auto_response: None,
        auto_response_delay: None,
        description: None,
        priority: Some(priority),
        active_hours: None,
        conditions: vec![],
    }
}

struct Meeting;

impl CustomBehavior for Meeting {
    fn on_incoming_chime(&self, _chime: &ChimeMessage, _state: &CustomLcgpState) -> BehaviorResult {
        BehaviorResult {
            should_chime: false,
            auto_response: Some(ChimeResponse::Negative),
            delay_ms: Some(2000),
            next_state: None,
        }
    }

    fn on_user_response(&self, response: &ChimeResponse, _state: &CustomLcgpState) -> BehaviorResult {
        BehaviorResult {
            should_chime: true,
            auto_response: None,
            delay_ms: None,
            next_state: match response {
                ChimeResponse::Positive => Some("open".to_string()),
                ChimeResponse::Negative => None,
            },
        }
    }

    fn on_timeout(&self, _state: &CustomLcgpState) -> BehaviorResult {
        BehaviorResult { should_chime: false, auto_response: None, delay_ms: None, next_state: None }
    }

    fn evaluate_conditions(&self, _state: &CustomLcgpState) -> bool {
        true
    }
}

struct Leaves(&'static str);

impl CustomBehavior for Leaves {
    fn on_incoming_chime(&self, _chime: &ChimeMessage, _state: &CustomLcgpState) -> BehaviorResult {
        BehaviorResult {
            should_chime: true,
            auto_response: Some(ChimeResponse::Positive),
            delay_ms: None,
            next_state: None,
        }
    }

    fn on_user_response(&self, _response: &ChimeResponse, _state: &CustomLcgpState) -> BehaviorResult {
        BehaviorResult {
            should_chime: true,
            auto_response: None,
            delay_ms: None,
            next_state: Some(self.0.to_string()),
        }
    }

    fn on_timeout(&self, _state: &CustomLcgpState) -> BehaviorResult {
        BehaviorResult { should_chime: false, auto_response: None, delay_ms: None, next_state: None }
    }

    fn evaluate_conditions(&self, _state: &CustomLcgpState) -> bool {
        true
    }
}

#[test]
fn grinding_answers_at_once() {
    let mut handler = handler_in(LcgpMode::Grinding);
    let reply = handler.handle_incoming_chime(ring(Some("r1"))).unwrap();
    assert_eq!(reply.response, ChimeResponse::Positive);
    assert_eq!(reply.original_chime_id, Some("r1".to_string()));
    assert_eq!(reply.node_id, "alice_chime");
    assert!(!handler.node.has_pending_response("r1"));
    assert!(handler.take_scheduled_responses().is_empty());
}

#[test]
fn grinding_answers_a_ring_without_identifier() {
    let mut handler = handler_in(LcgpMode::Grinding);
    let reply = handler.handle_incoming_chime(ring(None)).unwrap();
    assert_eq!(reply.response, ChimeResponse::Positive);
    assert_eq!(reply.original_chime_id, None);
}

#[test]
fn chill_grinding_answers_after_ten_seconds() {
    let mut handler = handler_in(LcgpMode::ChillGrinding);
    assert_eq!(handler.handle_incoming_chime(ring(Some("r2"))), None);
    assert!(handler.node.has_pending_response("r2"));
    let scheduled = handler.take_scheduled_responses();
    assert_eq!(
        scheduled,
        vec![DelayedResponse {
            chime_id: Some("r2".to_string()),
            response: ChimeResponse::Positive,
            delay_ms: 10_000,
        }]
    );
    assert!(handler.take_scheduled_responses().is_empty());
    assert!(handler.node.has_pending_response("r2"));
    let reply = handler.complete_delayed_response_at(&scheduled[0], at(1_010));
    assert_eq!(
        reply,
        Some(ChimeResponseMessage {
            timestamp: at(1_010),
            response: ChimeResponse::Positive,
            node_id: "alice_chime".to_string(),
            original_chime_id: Some("r2".to_string()),
        })
    );
    assert!(!handler.node.has_pending_response("r2"));
    assert_eq!(handler.complete_delayed_response_at(&scheduled[0], at(1_020)), None);
    assert_eq!(handler.complete_delayed_response(&scheduled[0]), None);
}

#[test]
fn the_users_reply_beats_the_delayed_one() {
    let mut handler = handler_in(LcgpMode::ChillGrinding);
    assert_eq!(handler.handle_incoming_chime(ring(Some("r2"))), None);
    let scheduled = handler.take_scheduled_responses();
    let manual = handler.handle_user_response(ChimeResponse::Negative, Some("r2".to_string())).unwrap();
    assert_eq!(manual.response, ChimeResponse::Negative);
    assert_eq!(manual.original_chime_id, Some("r2".to_string()));
    assert!(!handler.node.has_pending_response("r2"));
    assert_eq!(handler.complete_delayed_response(&scheduled[0]), None);
    assert_eq!(handler.complete_delayed_response_at(&scheduled[0], at(2_000)), None);
}

#[test]
fn the_users_reply_after_the_delayed_one_is_still_given() {
    let mut handler = handler_in(LcgpMode::ChillGrinding);
    handler.handle_incoming_chime(ring(Some("r2")));
    let scheduled = handler.take_scheduled_responses();
    assert!(handler.complete_delayed_response(&scheduled[0]).is_some());
    let manual = handler.handle_user_response(ChimeResponse::Negative, Some("r2".to_string()));
    assert_eq!(manual.unwrap().response, ChimeResponse::Negative);
}

#[test]
fn each_delayed_ring_is_answered_by_itself() {
    let mut handler = handler_in(LcgpMode::ChillGrinding);
    handler.handle_incoming_chime(ring(Some("a")));
    handler.handle_incoming_chime(ring(Some("b")));
    let scheduled = handler.take_scheduled_responses();
    assert_eq!(scheduled.len(), 2);
    assert_eq!(scheduled[0].chime_id, Some("a".to_string()));
    assert_eq!(scheduled[1].chime_id, Some("b".to_string()));
    handler.handle_user_response(ChimeResponse::Positive, Some("a".to_string()));
    assert_eq!(handler.complete_delayed_response(&scheduled[0]), None);
    let reply = handler.complete_delayed_response(&scheduled[1]).unwrap();
    assert_eq!(reply.original_chime_id, Some("b".to_string()));
}

#[test]
fn a_delayed_ring_without_identifier_is_never_answered() {
    let mut handler = handler_in(LcgpMode::ChillGrinding);
    assert_eq!(handler.handle_incoming_chime(ring(None)), None);
    let scheduled = handler.take_scheduled_responses();
    assert_eq!(scheduled.len(), 1);
    assert_eq!(scheduled[0].chime_id, None);
    assert_eq!(handler.complete_delayed_response(&scheduled[0]), None);
}

#[test]
fn available_waits_for_the_user() {
    let mut handler = handler_in(LcgpMode::Available);
    assert_eq!(handler.handle_incoming_chime(ring(Some("r3"))), None);
    assert!(handler.node.has_pending_response("r3"));
    assert!(handler.take_scheduled_responses().is_empty());
    assert_eq!(handler.handle_incoming_chime(ring(None)), None);
    let reply = handler.handle_user_response(ChimeResponse::Positive, Some("r3".to_string())).unwrap();
    assert_eq!(reply.response, ChimeResponse::Positive);
    assert!(!handler.node.has_pending_response("r3"));
}

#[test]
fn do_not_disturb_drops_the_ring() {
    let mut handler = handler_in(LcgpMode::DoNotDisturb);
    assert_eq!(handler.handle_incoming_chime(ring(Some("r4"))), None);
    assert!(!handler.node.has_pending_response("r4"));
    assert!(handler.take_scheduled_responses().is_empty());
    assert!(!handler.should_chime(&ring(Some("r4"))));
}

#[test]
fn replying_twice_gives_two_replies() {
    let mut handler = handler_in(LcgpMode::Available);
    let first = handler.handle_user_response(ChimeResponse::Negative, Some("gone".to_string()));
    let second = handler.handle_user_response(ChimeResponse::Negative, Some("gone".to_string()));
    let first = first.unwrap();
    let second = second.unwrap();
    assert_eq!(first.response, ChimeResponse::Negative);
    assert_eq!(second.response, ChimeResponse::Negative);
    assert_eq!(first.original_chime_id, Some("gone".to_string()));
    assert_eq!(second.original_chime_id, Some("gone".to_string()));
    assert!(!handler.node.has_pending_response("gone"));
    assert_eq!(handler.node.get_mode(), LcgpMode::Available);
}

#[test]
fn replying_to_no_ring_in_particular() {
    let mut handler = handler_in(LcgpMode::Available);
    handler.handle_incoming_chime(ring(Some("r1")));
    let reply = handler.handle_user_response(ChimeResponse::Positive, None).unwrap();
    assert_eq!(reply.original_chime_id, None);
    assert!(handler.node.has_pending_response("r1"));
}

#[test]
fn a_custom_state_with_a_delay_puts_its_reply_off() {
    let mut handler = handler_in(LcgpMode::Available);
    handler.register_custom_state(CustomLcgpState {
        auto_response: Some(ChimeResponse::Negative),
        auto_response_delay: Some(250),
        ..state("busy", 1)
    });
    assert_eq!(handler.set_custom_mode("busy".to_string()), Ok(()));
    assert_eq!(handler.handle_incoming_chime(ring(Some("r5"))), None);
    assert!(handler.node.has_pending_response("r5"));
    let scheduled = handler.take_scheduled_responses();
    assert_eq!(scheduled[0].delay_ms, 250);
    assert_eq!(scheduled[0].response, ChimeResponse::Negative);
    let reply = handler.complete_delayed_response(&scheduled[0]).unwrap();
    assert_eq!(reply.response, ChimeResponse::Negative);
}

#[test]
fn a_custom_state_without_a_reply_waits_for_the_user() {
    let mut handler = handler_in(LcgpMode::Available);
    handler.register_custom_state(state("open", 1));
    handler.set_custom_mode("open".to_string()).unwrap();
    assert_eq!(handler.handle_incoming_chime(ring(Some("r6"))), None);
    assert!(handler.node.has_pending_response("r6"));
    assert!(handler.take_scheduled_responses().is_empty());
}

#[test]
fn a_behaviour_that_silences_the_ring_leaves_no_trace() {
    let mut handler = handler_in(LcgpMode::Available);
    handler.register_custom_state(state("meeting", 1));
    handler.register_custom_behavior("meeting".to_string(), Box::new(Meeting));
    handler.set_custom_mode("meeting".to_string()).unwrap();
    assert!(!handler.should_chime(&ring(Some("r7"))));
    assert_eq!(handler.handle_incoming_chime(ring(Some("r7"))), None);
    assert!(!handler.node.has_pending_response("r7"));
    assert!(handler.take_scheduled_responses().is_empty());
}

#[test]
fn a_behaviour_can_answer_at_once() {
    let mut handler = handler_in(LcgpMode::Available);
    handler.register_custom_state(CustomLcgpState { should_chime: false, ..state("auto", 1) });
    handler.register_custom_behavior("auto".to_string(), Box::new(Leaves("auto")));
    handler.set_custom_mode("auto".to_string()).unwrap();
    let reply = handler.handle_incoming_chime(ring(Some("r8"))).unwrap();
    assert_eq!(reply.response, ChimeResponse::Positive);
    assert!(!handler.node.has_pending_response("r8"));
}

#[test]
fn a_behaviour_can_move_the_node_on_after_the_users_reply() {
    let mut handler = handler_in(LcgpMode::Available);
    handler.register_custom_state(state("meeting", 1));
    handler.register_custom_state(state("open", 1));
    handler.register_custom_behavior("meeting".to_string(), Box::new(Meeting));
    handler.set_custom_mode("meeting".to_string()).unwrap();
    handler.node.add_pending_response("r9".to_string());
    let reply = handler.handle_user_response(ChimeResponse::Negative, Some("r9".to_string())).unwrap();
    assert_eq!(reply.response, ChimeResponse::Negative);
    assert_eq!(handler.node.get_mode(), LcgpMode::Custom("meeting".to_string()));
    assert!(!handler.node.has_pending_response("r9"));
    let reply = handler.handle_user_response(ChimeResponse::Positive, Some("r9".to_string())).unwrap();
    assert_eq!(reply.response, ChimeResponse::Positive);
    assert_eq!(handler.node.get_mode(), LcgpMode::Custom("open".to_string()));
}

#[test]
fn a_next_state_that_is_not_registered_changes_nothing() {
    let mut handler = handler_in(LcgpMode::Available);
    handler.register_custom_state(state("focus", 1));
    handler.register_custom_behavior("focus".to_string(), Box::new(Leaves("Available")));
    handler.set_custom_mode("focus".to_string()).unwrap();
    let reply = handler.handle_user_response(ChimeResponse::Positive, Some("r1".to_string()));
    assert!(reply.is_some());
    assert_eq!(handler.node.get_mode(), LcgpMode::Custom("focus".to_string()));
}

#[test]
fn carrying_out_the_users_reply_with_a_given_next_state() {
    let mut handler = handler_in(LcgpMode::Grinding);
    handler.register_custom_state(state("open", 1));
    handler.node.add_pending_response("r1".to_string());
    let reply = handler.apply_user_response_at(
        ChimeResponse::Positive,
        Some("r1".to_string()),
        Some("open".to_string()),
        at(77),
    );
    assert_eq!(
        reply,
        Some(ChimeResponseMessage {
            timestamp: at(77),
            response: ChimeResponse::Positive,
            node_id: "alice_chime".to_string(),
            original_chime_id: Some("r1".to_string()),
        })
    );
    assert_eq!(handler.node.get_mode(), LcgpMode::Custom("open".to_string()));
    assert!(!handler.node.has_pending_response("r1"));
    assert!(!handler.node.should_send_mode_update_at(at(376)));
    assert!(handler.node.should_send_mode_update_at(at(377)));
}

#[test]
fn the_periodic_look_enters_the_best_state_once() {
    let mut handler = handler_in(LcgpMode::Available);
    handler.register_custom_state(state("low", 50));
    handler.register_custom_state(state("high", 100));
    assert_eq!(handler.auto_state_tick_at(&noon()), Some("high".to_string()));
    assert_eq!(handler.node.get_mode(), LcgpMode::Custom("high".to_string()));
    assert!(handler.node.should_send_mode_update_at(at(50_300)));
    assert!(!handler.node.should_send_mode_update_at(at(50_299)));
    let later = WallClock { timestamp: at(60_000), ..noon() };
    assert_eq!(handler.auto_state_tick_at(&later), None);
    assert_eq!(handler.node.get_mode(), LcgpMode::Custom("high".to_string()));
    assert!(handler.node.should_send_mode_update_at(at(50_300)));
    assert_eq!(handler.auto_state_tick(), None);
}

#[test]
fn the_periodic_look_leaves_the_mode_where_nothing_competes() {
    let mut handler = handler_in(LcgpMode::Grinding);
    assert_eq!(handler.auto_state_tick_at(&noon()), None);
    handler.register_custom_state(CustomLcgpState {
        conditions: vec![StateCondition::UserPresence(true)],
        ..state("here", 9)
    });
    assert_eq!(handler.auto_state_tick_at(&noon()), None);
    assert_eq!(handler.node.get_mode(), LcgpMode::Grinding);
    handler.set_condition("user_presence".to_string(), true);
    assert_eq!(handler.auto_state_tick_at(&noon()), Some("here".to_string()));
    assert_eq!(handler.node.get_mode(), LcgpMode::Custom("here".to_string()));
}

#[test]
fn the_mode_is_announced_when_it_is_due() {
    let mut handler = handler_in(LcgpMode::ChillGrinding);
    assert_eq!(handler.mode_update_tick_at(at(1_299)), None);
    let update = handler.mode_update_tick_at(at(1_300)).unwrap();
    assert_eq!(update.mode, LcgpMode::ChillGrinding);
    assert_eq!(update.node_id, "alice_chime");
    assert_eq!(update.timestamp, at(1_300));
    assert_eq!(update.custom_state, None);
    assert!(handler.mode_update_tick().is_some());
    handler.node.set_mode(LcgpMode::Available);
    assert_eq!(handler.mode_update_tick(), None);
}

#[test]
fn the_handler_hands_on_to_its_node() {
    let mut handler = handler_in(LcgpMode::Available);
    handler.register_custom_state(state("focus", 1));
    handler.register_custom_state(state("lunch", 1));
    assert_eq!(handler.get_available_custom_states(), vec!["focus", "lunch"]);
    assert_eq!(
        handler.set_custom_mode("dinner".to_string()),
        Err(NotFoundError { name: "dinner".to_string() })
    );
    assert_eq!(handler.node.get_mode(), LcgpMode::Available);
    assert_eq!(handler.set_custom_mode("lunch".to_string()), Ok(()));
    assert_eq!(handler.node.get_mode(), LcgpMode::Custom("lunch".to_string()));
}

#[test]
fn carrying_out_a_given_decision() {
    let mut handler = handler_in(LcgpMode::DoNotDisturb);
    let decision = chimenet::ChimeDecision {
        should_chime: true,
        auto_response: Some((ChimeResponse::Negative, Some(40))),
    };
    assert_eq!(handler.apply_decision_at(Some("r1".to_string()), decision, at(9)), None);
    assert!(handler.node.has_pending_response("r1"));
    assert_eq!(handler.take_scheduled_responses()[0].delay_ms, 40);
    let silent = chimenet::ChimeDecision { should_chime: false, ..decision };
    assert_eq!(handler.apply_decision_at(Some("r2".to_string()), silent, at(9)), None);
    assert!(!handler.node.has_pending_response("r2"));
    let at_once = chimenet::ChimeDecision {
        should_chime: true,
        auto_response: Some((ChimeResponse::Negative, None)),
    };
    let reply = handler.apply_decision_at(Some("r3".to_string()), at_once, at(9)).unwrap();
    assert_eq!(reply.timestamp, at(9));
    assert_eq!(reply.response, ChimeResponse::Negative);
}
