//! Presence-aware chime endpoints over a publish/subscribe transport.
//!
//! The crate decides and computes; it neither waits, plays nor sends. Its
//! owner hands it what arrived and carries out what it returns.

pub mod audio;
pub mod chime;
pub mod lcgp;
pub mod matcher;
pub mod mqtt;
pub mod notes;
pub mod registry;
pub mod text;
pub mod time;
pub mod topic;
pub mod types;

pub use crate::audio::{tones_of_chime, Tone};
pub use crate::chime::{ChimeAnnouncement, ChimeInstance, RingOutcome};
pub use crate::lcgp::{
    AttachedBehavior, ChimeDecision, DelayedResponse, LcgpHandler, LcgpNode, NotFoundError,
};
pub use crate::matcher::topic_matches;
pub use crate::mqtt::{
    ChimeNetMqtt, Connection, MqttClient, MqttMessage, Outbound, PublishError, Subscription,
};
pub use crate::notes::{chord_notes, frequency_centihertz};
pub use crate::registry::Registry;
pub use crate::time::{Timestamp, WallClock};
pub use crate::topic::{is_valid_segment, InvalidTopicSegment, TopicBuilder};
pub use crate::types::{
    BehaviorResult, ChimeInfo, ChimeList, ChimeMessage, ChimeResponse, ChimeResponseMessage,
    ChimeRingRequest, ChimeStatus, CustomBehavior, CustomLcgpState, LcgpMode, ModeUpdate,
    RingerAvailable, RingerDiscovery, StateCondition, TimeRange,
};
