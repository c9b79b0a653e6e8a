//! The topic scheme: where each kind of message of a user's chime is
//! published.
//!
//! A topic is made of a user, an optional chime identifier and fixed words, as
//! levels separated by `/`. The user and the chime identifier each fill one
//! level, so neither may hold a `/` or one of the wildcards `+` and `#`.

use crate::matcher::{
    admits_level_by_level, join_levels, lemma_levels_undo_join, level_admits, levels,
    topic_matches_spec,
};
use vstd::prelude::*;
use vstd::string::StringExecFns;

verus! {

/// A user or chime identifier that cannot stand in a topic.
#[derive(Debug, PartialEq)]
pub struct InvalidTopicSegment {
    /// The text that was refused.
    pub segment: String,
}

/// Whether `c` may stand in a user or chime identifier.
pub open spec fn segment_char(c: char) -> bool {
    c != '/' && c != '+' && c != '#'
}

/// Whether `segment` can fill one level of a topic: it holds no `/`, no `+`
/// and no `#`.
pub open spec fn valid_segment(segment: Seq<char>) -> bool {
    forall|i: int| 0 <= i < segment.len() ==> segment_char(#[trigger] segment[i])
}

/// The topic of a user's list of chimes.
pub open spec fn chime_list_topic(user: Seq<char>) -> Seq<char> {
    "/"@ + user + "/chime/list"@
}

/// The topic of one facet of one chime: `/{user}/chime/{chime_id}/{facet}`.
pub open spec fn chime_facet_topic(user: Seq<char>, chime_id: Seq<char>, facet: Seq<char>) -> Seq<
    char,
> {
    "/"@ + user + "/chime/"@ + chime_id + "/"@ + facet
}

/// The topic on which ringers of a user ask who is there.
pub open spec fn ringer_discover_topic(user: Seq<char>) -> Seq<char> {
    "/"@ + user + "/ringer/discover"@
}

/// The topic on which ringers of a user say that they are there.
pub open spec fn ringer_available_topic(user: Seq<char>) -> Seq<char> {
    "/"@ + user + "/ringer/available"@
}

/// The pattern that admits every facet of every chime of a user:
/// `/{user}/chime/+/+`.
pub open spec fn user_chimes_pattern(user: Seq<char>) -> Seq<char> {
    "/"@ + user + "/chime/+/+"@
}

/// What a topic function returns for one segment: the topic for a segment
/// that is valid, and else the segment back as an error.
pub open spec fn built_from(
    outcome: Result<String, InvalidTopicSegment>,
    segment: Seq<char>,
    topic: Seq<char>,
) -> bool {
    match outcome {
        Ok(built) => valid_segment(segment) && built@ == topic,
        Err(refused) => !valid_segment(segment) && refused.segment@ == segment,
    }
}

/// What a topic function returns for a user and a chime identifier: the
/// topic where both are valid, and else the first of the two that is not,
/// as an error.
pub open spec fn built_from_two(
    outcome: Result<String, InvalidTopicSegment>,
    user: Seq<char>,
    chime_id: Seq<char>,
    topic: Seq<char>,
) -> bool {
    match outcome {
        Ok(built) => valid_segment(user) && valid_segment(chime_id) && built@ == topic,
        Err(refused) => if valid_segment(user) {
            !valid_segment(chime_id) && refused.segment@ == chime_id
        } else {
            refused.segment@ == user
        },
    }
}

/// Whether `segment` can fill one level of a topic.
pub fn is_valid_segment(segment: &str) -> (valid: bool)
    ensures
        valid == valid_segment(segment@),
{
    let mut valid = true;
    for c in it: segment.chars()
        invariant
            it.seq() == segment@,
            valid == valid_segment(segment@.take(it.index() as int)),
    {
        let ghost seen = segment@.take(it.index() as int);
        let ghost more = segment@.take(it.index() + 1);
        if c == '/' || c == '+' || c == '#' {
            assert(!segment_char(more[it.index() as int]));
            valid = false;
        } else {
            assert(valid_segment(more) == valid_segment(seen));
        }
    }
    assert(segment@.take(segment@.len() as int) =~= segment@);
    valid
}

/// `/{user}{tail}`, for a user that is valid.
fn user_topic(user: &str, tail: &str) -> (outcome: Result<String, InvalidTopicSegment>)
    ensures
        built_from(outcome, user@, "/"@ + user@ + tail@),
{
    if !is_valid_segment(user) {
        return Err(InvalidTopicSegment { segment: String::from_str(user) });
    }
    let mut topic = String::from_str("/");
    topic.append(user);
    topic.append(tail);
    Ok(topic)
}

/// `/{user}/chime/{chime_id}/{facet}`, for a user and a chime identifier
/// that are valid.
fn facet_topic(user: &str, chime_id: &str, facet: &str) -> (outcome: Result<
    String,
    InvalidTopicSegment,
>)
    ensures
        built_from_two(outcome, user@, chime_id@, chime_facet_topic(user@, chime_id@, facet@)),
{
    if !is_valid_segment(user) {
        return Err(InvalidTopicSegment { segment: String::from_str(user) });
    }
    if !is_valid_segment(chime_id) {
        return Err(InvalidTopicSegment { segment: String::from_str(chime_id) });
    }
    let mut topic = String::from_str("/");
    topic.append(user);
    topic.append("/chime/");
    topic.append(chime_id);
    topic.append("/");
    topic.append(facet);
    Ok(topic)
}

/// Builds the topics of the scheme.
pub struct TopicBuilder;

impl TopicBuilder {
    /// `/{user}/chime/list`
    pub fn chime_list(user: &str) -> (outcome: Result<String, InvalidTopicSegment>)
        ensures
            built_from(outcome, user@, chime_list_topic(user@)),
    {
        user_topic(user, "/chime/list")
    }

    /// `/{user}/chime/{chime_id}/notes`
    pub fn chime_notes(user: &str, chime_id: &str) -> (outcome: Result<String, InvalidTopicSegment>)
        ensures
            built_from_two(
                outcome,
                user@,
                chime_id@,
                chime_facet_topic(user@, chime_id@, "notes"@),
            ),
    {
        facet_topic(user, chime_id, "notes")
    }

    /// `/{user}/chime/{chime_id}/chords`
    pub fn chime_chords(user: &str, chime_id: &str) -> (outcome: Result<
        String,
        InvalidTopicSegment,
    >)
        ensures
            built_from_two(
                outcome,
                user@,
                chime_id@,
                chime_facet_topic(user@, chime_id@, "chords"@),
            ),
    {
        facet_topic(user, chime_id, "chords")
    }

    /// `/{user}/chime/{chime_id}/status`
    pub fn chime_status(user: &str, chime_id: &str) -> (outcome: Result<
        String,
        InvalidTopicSegment,
    >)
        ensures
            built_from_two(
                outcome,
                user@,
                chime_id@,
                chime_facet_topic(user@, chime_id@, "status"@),
            ),
    {
        facet_topic(user, chime_id, "status")
    }

    /// `/{user}/chime/{chime_id}/ring`
    pub fn chime_ring(user: &str, chime_id: &str) -> (outcome: Result<String, InvalidTopicSegment>)
        ensures
            built_from_two(
                outcome,
                user@,
                chime_id@,
                chime_facet_topic(user@, chime_id@, "ring"@),
            ),
    {
        facet_topic(user, chime_id, "ring")
    }

    /// `/{user}/chime/{chime_id}/response`
    pub fn chime_response(user: &str, chime_id: &str) -> (outcome: Result<
        String,
        InvalidTopicSegment,
    >)
        ensures
            built_from_two(
                outcome,
                user@,
                chime_id@,
                chime_facet_topic(user@, chime_id@, "response"@),
            ),
    {
        facet_topic(user, chime_id, "response")
    }

    /// `/{user}/ringer/discover`
    pub fn ringer_discover(user: &str) -> (outcome: Result<String, InvalidTopicSegment>)
        ensures
            built_from(outcome, user@, ringer_discover_topic(user@)),
    {
        user_topic(user, "/ringer/discover")
    }

    /// `/{user}/ringer/available`
    pub fn ringer_available(user: &str) -> (outcome: Result<String, InvalidTopicSegment>)
        ensures
            built_from(outcome, user@, ringer_available_topic(user@)),
    {
        user_topic(user, "/ringer/available")
    }

    /// The pattern `/{user}/chime/+/+`, which admits every facet of every
    /// chime of the user.
    pub fn user_chimes(user: &str) -> (outcome: Result<String, InvalidTopicSegment>)
        ensures
            built_from(outcome, user@, user_chimes_pattern(user@)),
    {
        user_topic(user, "/chime/+/+")
    }
}

/// A segment that is valid holds no slash.
pub proof fn lemma_valid_segment_is_one_level(segment: Seq<char>)
    requires
        valid_segment(segment),
    ensures
        !segment.contains('/'),
        !segment.contains('+'),
        !segment.contains('#'),
{
}

/// The topic of a facet of a chime has five levels: an empty one, the user,
/// the word `chime`, the chime identifier and the facet.
pub proof fn lemma_levels_of_facet_topic(user: Seq<char>, chime_id: Seq<char>, facet: Seq<char>)
    requires
        !user.contains('/'),
        !chime_id.contains('/'),
        !facet.contains('/'),
    ensures
        levels(chime_facet_topic(user, chime_id, facet)) == seq![
            Seq::<char>::empty(),
            user,
            "chime"@,
            chime_id,
            facet,
        ],
{
    reveal_strlit("/");
    reveal_strlit("/chime/");
    reveal_strlit("chime");
    let word = "chime"@;
    let parts = seq![Seq::<char>::empty(), user, word, chime_id, facet];
    let one = parts.drop_last().drop_last().drop_last().drop_last();
    let two = parts.drop_last().drop_last().drop_last();
    let three = parts.drop_last().drop_last();
    let four = parts.drop_last();
    assert(join_levels(one) =~= Seq::<char>::empty());
    assert(join_levels(two) =~= seq!['/'] + user);
    assert(join_levels(three) =~= seq!['/'] + user + seq!['/'] + word);
    assert(join_levels(four) =~= seq!['/'] + user + seq!['/'] + word + seq!['/'] + chime_id);
    assert(join_levels(parts) =~= chime_facet_topic(user, chime_id, facet));
    lemma_levels_undo_join(parts);
}

/// Every facet of every chime of a user is admitted by the pattern for that
/// user's chimes: who subscribes to `/{user}/chime/+/+` gets the notes, the
/// chords, the status, the rings and the replies of each chime of the user.
pub proof fn lemma_user_chimes_pattern_admits_facets(
    user: Seq<char>,
    chime_id: Seq<char>,
    facet: Seq<char>,
)
    requires
        valid_segment(user),
        valid_segment(chime_id),
        !facet.contains('/'),
    ensures
        topic_matches_spec(
            user_chimes_pattern(user),
            chime_facet_topic(user, chime_id, facet),
        ),
{
    lemma_valid_segment_is_one_level(user);
    lemma_valid_segment_is_one_level(chime_id);
    reveal_strlit("/");
    reveal_strlit("/chime/");
    reveal_strlit("/chime/+/+");
    reveal_strlit("+");
    let plus = seq!['+'];
    let pattern = user_chimes_pattern(user);
    assert(pattern =~= chime_facet_topic(user, plus, plus));
    lemma_levels_of_facet_topic(user, plus, plus);
    lemma_levels_of_facet_topic(user, chime_id, facet);
}

/// The list of a user's chimes is no facet of a chime: the pattern for the
/// user's chimes does not admit it.
pub proof fn lemma_user_chimes_pattern_refuses_the_list(user: Seq<char>)
    requires
        valid_segment(user),
    ensures
        !topic_matches_spec(user_chimes_pattern(user), chime_list_topic(user)),
{
    lemma_valid_segment_is_one_level(user);
    reveal_strlit("/");
    reveal_strlit("/chime/");
    reveal_strlit("/chime/+/+");
    reveal_strlit("/chime/list");
    reveal_strlit("chime");
    reveal_strlit("+");
    let plus = seq!['+'];
    let pattern = user_chimes_pattern(user);
    let topic = chime_list_topic(user);
    assert(pattern =~= chime_facet_topic(user, plus, plus));
    lemma_levels_of_facet_topic(user, plus, plus);
    let word = "chime"@;
    let list = seq!['l', 'i', 's', 't'];
    let parts = seq![Seq::<char>::empty(), user, word, list];
    let one = parts.drop_last().drop_last().drop_last();
    let two = parts.drop_last().drop_last();
    let three = parts.drop_last();
    assert(join_levels(one) =~= Seq::<char>::empty());
    assert(join_levels(two) =~= seq!['/'] + user);
    assert(join_levels(three) =~= seq!['/'] + user + seq!['/'] + word);
    assert(join_levels(parts) =~= topic);
    lemma_levels_undo_join(parts);
}

} // verus!
