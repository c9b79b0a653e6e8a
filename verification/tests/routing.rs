use chimenet::Connection::{Connected, Disconnected};
use chimenet::{
    ChimeInfo, ChimeNetMqtt, ChimeResponse, ChimeResponseMessage, ChimeRingRequest, ChimeStatus,
    InvalidTopicSegment, LcgpMode, MqttClient, MqttMessage, PublishError, Registry,
    RingerAvailable, RingerDiscovery, Timestamp,
};

fn at(seconds: i64) -> Timestamp {
    Timestamp { unix_seconds: seconds, subsec_nanos: 0 }
}

fn info(id: &str) -> ChimeInfo {
    ChimeInfo {
        id: id.to_string(),
        name: "Door".to_string(),
        description: Some("front door".to_string()),
        notes: vec!["C4".to_string(), "E4".to_string()],
        chords: vec!["Am".to_string()],
        created_at: at(1),
    }
}

fn patterns(client: &MqttClient<u32>) -> Vec<String> {
    (0..client.subscription_count()).map(|i| client.pattern_at(i).clone()).collect()
}

fn handlers(client: &MqttClient<u32>, topic: &str) -> Vec<u32> {
    client.dispatch(topic).into_iter().map(|i| client.subscription_at(i).handler).collect()
}

#[test]
fn a_published_message_carries_what_it_was_given() {
    let client: MqttClient<u32> = MqttClient::new();
    assert_eq!(
        client.publish("/alice/chime/list", "[]", 1, true),
        MqttMessage {
            topic: "/alice/chime/list".to_string(),
            payload: "[]".to_string(),
            qos: 1,
            retain: true,
        }
    );
    let message = client.publish("t", "p", 0, false);
    assert_eq!(message.qos, 0);
    assert!(!message.retain);
    assert_eq!(message.clone(), message);
}

#[test]
fn a_message_goes_to_every_subscription_that_matches() {
    let mut client: MqttClient<u32> = MqttClient::new();
    client.subscribe("/alice/chime/+/+", 1, 10);
    client.subscribe("/bob/#", 1, 20);
    client.subscribe("/alice/#", 1, 30);
    client.subscribe("/alice/chime/abc/ring", 1, 40);
    assert_eq!(client.dispatch("/alice/chime/abc/ring"), vec![0, 2, 3]);
    assert_eq!(handlers(&client, "/alice/chime/abc/ring"), vec![10, 30, 40]);
    assert_eq!(handlers(&client, "/alice/chime/list"), vec![30]);
    assert_eq!(handlers(&client, "/bob/chime/list"), vec![20]);
    assert_eq!(handlers(&client, "/carol/chime/list"), Vec::<u32>::new());
}

#[test]
fn a_client_without_subscriptions_delivers_nothing() {
    let client: MqttClient<u32> = MqttClient::new();
    assert_eq!(client.subscription_count(), 0);
    assert!(client.dispatch("/alice/chime/abc/ring").is_empty());
}

#[test]
fn subscribing_again_replaces_the_handler() {
    let mut client: MqttClient<u32> = MqttClient::new();
    client.subscribe("/alice/#", 1, 1);
    client.subscribe("/bob/#", 1, 2);
    client.subscribe("/alice/#", 2, 3);
    assert_eq!(patterns(&client), vec!["/alice/#", "/bob/#"]);
    assert_eq!(handlers(&client, "/alice/x"), vec![3]);
    assert_eq!(client.subscription_at(0).qos, 2);
}

#[test]
fn unsubscribing_ends_delivery() {
    let mut client: MqttClient<u32> = MqttClient::new();
    client.subscribe("/alice/#", 1, 1);
    client.subscribe("/alice/chime/+/+", 1, 2);
    client.subscribe("/alice/chime/abc/ring", 1, 3);
    client.unsubscribe("/alice/chime/+/+");
    assert_eq!(patterns(&client), vec!["/alice/#", "/alice/chime/abc/ring"]);
    assert_eq!(handlers(&client, "/alice/chime/abc/ring"), vec![1, 3]);
    client.unsubscribe("/alice/chime/+/+");
    client.unsubscribe("/nobody");
    assert_eq!(client.subscription_count(), 2);
    client.unsubscribe("/alice/#");
    client.unsubscribe("/alice/chime/abc/ring");
    assert!(client.dispatch("/alice/chime/abc/ring").is_empty());
}

#[test]
fn a_registry_keeps_one_value_for_each_name() {
    let mut registry: Registry<u8> = Registry::new();
    assert_eq!(registry.len(), 0);
    assert_eq!(registry.get("a"), None);
    registry.insert("a".to_string(), 1);
    registry.insert("b".to_string(), 2);
    registry.insert("c".to_string(), 3);
    registry.insert("b".to_string(), 20);
    assert_eq!(registry.len(), 3);
    assert_eq!(registry.keys(), vec!["a", "b", "c"]);
    assert_eq!(registry.get("b"), Some(&20));
    assert_eq!(registry.position("c"), Some(2));
    assert_eq!(registry.position("d"), None);
    assert!(registry.contains_key("a"));
    assert!(!registry.contains_key("A"));
    assert_eq!(registry.name_at(1), "b");
    assert_eq!(*registry.value_at(1), 20);
    registry.remove("a");
    assert_eq!(registry.keys(), vec!["b", "c"]);
    assert_eq!(registry.get("a"), None);
    assert_eq!(registry.get("c"), Some(&3));
    registry.remove("a");
    assert_eq!(registry.len(), 2);
}

#[test]
fn the_list_of_chimes_is_kept_by_the_broker() {
    let net: ChimeNetMqtt<u32> = ChimeNetMqtt::new("alice");
    let out = net.publish_chime_list_at(&vec![info("abc"), info("def")], at(9)).ok().unwrap();
    assert_eq!(out.topic, "/alice/chime/list");
    assert_eq!(out.qos, 1);
    assert!(out.retain);
    assert_eq!(out.payload.user, "alice");
    assert_eq!(out.payload.timestamp, at(9));
    assert_eq!(out.payload.chimes, vec![info("abc"), info("def")]);
    let out = net.publish_chime_list(&vec![]).ok().unwrap();
    assert!(out.payload.chimes.is_empty());
    assert_eq!(out.topic, "/alice/chime/list");
}

#[test]
fn notes_and_chords_go_out_as_json() {
    let net: ChimeNetMqtt<u32> = ChimeNetMqtt::new("alice");
    assert_eq!(
        net.publish_chime_notes("abc", &vec!["C4".to_string(), "E\"4".to_string()]),
        Ok(MqttMessage {
            topic: "/alice/chime/abc/notes".to_string(),
            payload: "[\"C4\",\"E\\\"4\"]".to_string(),
            qos: 1,
            retain: true,
        })
    );
    assert_eq!(
        net.publish_chime_chords("abc", &vec![]),
        Ok(MqttMessage {
            topic: "/alice/chime/abc/chords".to_string(),
            payload: "[]".to_string(),
            qos: 1,
            retain: true,
        })
    );
}

#[test]
fn a_list_for_a_chime_that_cannot_be_named_is_refused() {
    let net: ChimeNetMqtt<u32> = ChimeNetMqtt::new("alice");
    assert_eq!(
        net.publish_chime_notes("a/b", &vec!["C4".to_string()]),
        Err(PublishError::Topic(InvalidTopicSegment { segment: "a/b".to_string() }))
    );
    let net: ChimeNetMqtt<u32> = ChimeNetMqtt::new("al+ice");
    assert_eq!(
        net.publish_chime_chords("abc", &vec!["C".to_string()]),
        Err(PublishError::Topic(InvalidTopicSegment { segment: "al+ice".to_string() }))
    );
    assert!(net.publish_chime_list(&vec![]).is_err());
}

#[test]
fn status_is_kept_and_rings_and_replies_are_not() {
    let net: ChimeNetMqtt<u32> = ChimeNetMqtt::new("alice");
    let status = ChimeStatus {
        chime_id: "abc".to_string(),
        online: true,
        mode: LcgpMode::Grinding,
        last_seen: at(3),
        node_id: "alice_abc".to_string(),
    };
    let out = net.publish_chime_status("abc", status).ok().unwrap();
    assert_eq!((out.topic.as_str(), out.qos, out.retain), ("/alice/chime/abc/status", 1, true));
    assert_eq!(out.payload.mode, LcgpMode::Grinding);

    let request = || ChimeRingRequest {
        chime_id: "abc".to_string(),
        user: "bob".to_string(),
        notes: None,
        chords: None,
        duration_ms: Some(200),
        timestamp: at(4),
    };
    let out = net.publish_chime_ring("abc", request()).ok().unwrap();
    assert_eq!((out.topic.as_str(), out.qos, out.retain), ("/alice/chime/abc/ring", 1, false));
    assert_eq!(out.payload, request());
    let out = net.publish_chime_ring_to_user("bob", "xyz", request()).ok().unwrap();
    assert_eq!((out.topic.as_str(), out.qos, out.retain), ("/bob/chime/xyz/ring", 1, false));
    assert!(net.publish_chime_ring_to_user("b#b", "xyz", request()).is_err());
    assert_eq!(
        net.publish_chime_ring("x/y", request()).err(),
        Some(InvalidTopicSegment { segment: "x/y".to_string() })
    );

    let reply = ChimeResponseMessage {
        timestamp: at(5),
        response: ChimeResponse::Negative,
        node_id: "alice_abc".to_string(),
        original_chime_id: Some("abc".to_string()),
    };
    let out = net.publish_chime_response("abc", reply.clone()).ok().unwrap();
    assert_eq!((out.topic.as_str(), out.qos, out.retain), ("/alice/chime/abc/response", 1, false));
    assert_eq!(out.payload, reply);
}

#[test]
fn ringers_ask_unkept_and_announce_kept() {
    let net: ChimeNetMqtt<u32> = ChimeNetMqtt::new("alice");
    let out = net
        .publish_ringer_discovery(RingerDiscovery {
            ringer_id: "r".to_string(),
            user: "alice".to_string(),
            timestamp: at(1),
        })
        .ok()
        .unwrap();
    assert_eq!((out.topic.as_str(), out.qos, out.retain), ("/alice/ringer/discover", 1, false));
    let out = net
        .publish_ringer_available(RingerAvailable {
            ringer_id: "r".to_string(),
            user: "alice".to_string(),
            available_chimes: vec!["abc".to_string()],
            timestamp: at(1),
        })
        .ok()
        .unwrap();
    assert_eq!((out.topic.as_str(), out.qos, out.retain), ("/alice/ringer/available", 1, true));
    assert_eq!(out.payload.available_chimes, vec!["abc"]);
}

#[test]
fn subscriptions_of_the_scheme() {
    let mut net: ChimeNetMqtt<u32> = ChimeNetMqtt::new("alice");
    assert_eq!(net.subscribe_to_chime_rings("abc", 1), Ok("/alice/chime/abc/ring".to_string()));
    assert_eq!(net.subscribe_to_user_chimes("bob", 2), Ok("/bob/chime/+/+".to_string()));
    assert_eq!(net.subscribe_to_ringer_discovery(3), Ok("/alice/ringer/discover".to_string()));
    net.subscribe("/carol/#", 0, 4);
    assert_eq!(
        patterns(&net.client),
        vec!["/alice/chime/abc/ring", "/bob/chime/+/+", "/alice/ringer/discover", "/carol/#"]
    );
    assert_eq!(handlers(&net.client, "/alice/chime/abc/ring"), vec![1]);
    assert_eq!(handlers(&net.client, "/bob/chime/xyz/status"), vec![2]);
    assert_eq!(handlers(&net.client, "/alice/ringer/discover"), vec![3]);
    assert_eq!(handlers(&net.client, "/carol/anything/at/all"), vec![4]);
    assert_eq!(net.client.subscription_at(3).qos, 0);
    assert_eq!(net.client.subscription_at(0).qos, 1);
}

#[test]
fn a_subscription_that_cannot_be_named_is_refused() {
    let mut net: ChimeNetMqtt<u32> = ChimeNetMqtt::new("alice");
    assert_eq!(
        net.subscribe_to_chime_rings("a+b", 1),
        Err(InvalidTopicSegment { segment: "a+b".to_string() })
    );
    assert_eq!(
        net.subscribe_to_user_chimes("b/b", 2),
        Err(InvalidTopicSegment { segment: "b/b".to_string() })
    );
    assert_eq!(net.client.subscription_count(), 0);
    let mut net: ChimeNetMqtt<u32> = ChimeNetMqtt::new("#");
    assert!(net.subscribe_to_ringer_discovery(3).is_err());
    assert_eq!(net.client.subscription_count(), 0);
}

#[test]
fn connecting_twice_is_connecting_once() {
    assert!(Disconnected.must_dial());
    assert!(!Connected.must_dial());
    assert!(Connected.must_hang_up());
    assert!(!Disconnected.must_hang_up());
    assert_eq!(Disconnected.after_connect(true), Connected);
    assert_eq!(Disconnected.after_connect(false), Disconnected);
    assert_eq!(Connected.after_connect(false), Connected);
    assert_eq!(Connected.after_connect(true), Connected);
    assert_eq!(Connected.after_disconnect(true), Disconnected);
    assert_eq!(Connected.after_disconnect(false), Connected);
    assert_eq!(Disconnected.after_disconnect(false), Disconnected);
    assert_eq!(Disconnected.after_disconnect(true), Disconnected);
}

#[test]
fn a_list_of_strings_is_always_encoded() {
    let net: ChimeNetMqtt<u32> = ChimeNetMqtt::new("alice");
    let odd = vec![String::new(), "\u{0}\n\"\\".to_string(), "é/+#".to_string()];
    let message = net.publish_chime_notes("abc", &odd).unwrap();
    assert_eq!(message.payload, "[\"\",\"\\u0000\\n\\\"\\\\\",\"é/+#\"]");
    assert_eq!(message.topic, "/alice/chime/abc/notes");
    assert!(net.publish_chime_chords("abc", &odd).is_ok());
}
