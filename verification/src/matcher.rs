//! Matching of topics against subscription patterns.
//!
//! A topic is a string of levels separated by `/`. A pattern is a topic in
//! which a level may be the single-level wildcard `+`, or which ends in the
//! multi-level wildcard `#`.

use crate::text::{chars_of, str_eq};
use vstd::prelude::*;

verus! {

/// The levels of a topic: the pieces between its slashes, in order. A topic
/// without a slash is one level; two slashes in a row enclose an empty level.
pub open spec fn levels(topic: Seq<char>) -> Seq<Seq<char>>
    decreases topic.len(),
{
    if topic.len() == 0 {
        seq![Seq::<char>::empty()]
    } else {
        let before = levels(topic.drop_last());
        if topic.last() == '/' {
            before.push(Seq::<char>::empty())
        } else {
            before.drop_last().push(before.last().push(topic.last()))
        }
    }
}

/// Whether one level of a pattern admits one level of a topic: the wildcard
/// `+` admits any level, every other level only itself.
pub open spec fn level_admits(pattern_level: Seq<char>, topic_level: Seq<char>) -> bool {
    pattern_level == seq!['+'] || pattern_level == topic_level
}

/// Whether pattern and topic have the same number of levels and each level of
/// the pattern admits the level of the topic at its position.
pub open spec fn admits_level_by_level(pattern: Seq<char>, topic: Seq<char>) -> bool {
    let p = levels(pattern);
    let t = levels(topic);
    &&& p.len() == t.len()
    &&& forall|i: int| 0 <= i < p.len() ==> level_admits(#[trigger] p[i], t[i])
}

/// Whether a message published on `topic` is delivered to a subscription for
/// `pattern`.
///
/// Equal strings always match. Otherwise a pattern that holds a `+` anywhere
/// is matched level by level (a `#` in it then stands for itself), and a
/// pattern without `+` that ends in `#` matches every topic that starts with
/// what stands before the `#`.
pub open spec fn topic_matches_spec(pattern: Seq<char>, topic: Seq<char>) -> bool {
    if pattern == topic {
        true
    } else if pattern.contains('+') {
        admits_level_by_level(pattern, topic)
    } else if pattern.len() > 0 && pattern.last() == '#' {
        pattern.drop_last().is_prefix_of(topic)
    } else {
        false
    }
}

/// The topic whose levels are `parts`: the parts with a slash between each
/// two. No parts make the empty topic.
pub open spec fn join_levels(parts: Seq<Seq<char>>) -> Seq<char>
    decreases parts.len(),
{
    if parts.len() == 0 {
        Seq::<char>::empty()
    } else if parts.len() == 1 {
        parts[0]
    } else {
        join_levels(parts.drop_last()) + seq!['/'] + parts.last()
    }
}

/// There is always at least one level.
pub proof fn lemma_levels_nonempty(topic: Seq<char>)
    ensures
        levels(topic).len() >= 1,
    decreases topic.len(),
{
    if topic.len() > 0 {
        lemma_levels_nonempty(topic.drop_last());
    }
}

/// A topic without a slash is one level, itself.
pub proof fn lemma_levels_of_one_level(topic: Seq<char>)
    requires
        !topic.contains('/'),
    ensures
        levels(topic) == seq![topic],
    decreases topic.len(),
{
    if topic.len() == 0 {
        assert(topic =~= Seq::<char>::empty());
    } else {
        let shorter = topic.drop_last();
        lemma_levels_of_one_level(shorter);
        assert(shorter.push(topic.last()) =~= topic);
    }
}

/// The levels of two topics joined by a slash are the levels of the first,
/// then the levels of the second.
pub proof fn lemma_levels_of_joined(first: Seq<char>, second: Seq<char>)
    ensures
        levels(first + seq!['/'] + second) == levels(first) + levels(second),
    decreases second.len(),
{
    let joined = first + seq!['/'] + second;
    lemma_levels_nonempty(first);
    if second.len() == 0 {
        assert(joined.drop_last() =~= first);
    } else {
        let shorter = second.drop_last();
        assert(joined.drop_last() =~= first + seq!['/'] + shorter);
        lemma_levels_of_joined(first, shorter);
        lemma_levels_nonempty(shorter);
    }
}

/// Cutting a topic into its levels loses nothing: no level holds a slash,
/// and the levels joined by slashes are the topic again.
pub proof fn lemma_join_undoes_levels(topic: Seq<char>)
    ensures
        join_levels(levels(topic)) == topic,
        forall|i: int| 0 <= i < levels(topic).len() ==> !(#[trigger] levels(topic)[i]).contains('/'),
    decreases topic.len(),
{
    let parts = levels(topic);
    if topic.len() > 0 {
        let shorter = topic.drop_last();
        let before = levels(shorter);
        let c = topic.last();
        lemma_join_undoes_levels(shorter);
        lemma_levels_nonempty(shorter);
        assert(shorter.push(c) =~= topic);
        if c == '/' {
            assert(parts.drop_last() =~= before);
        } else if before.len() > 1 {
            assert(parts.drop_last() =~= before.drop_last());
        }
    }
}

/// The levels of a topic are the only way to write it as parts without
/// slashes that are joined by slashes.
pub proof fn lemma_levels_undo_join(parts: Seq<Seq<char>>)
    requires
        parts.len() >= 1,
        forall|i: int| 0 <= i < parts.len() ==> !(#[trigger] parts[i]).contains('/'),
    ensures
        levels(join_levels(parts)) == parts,
    decreases parts.len(),
{
    if parts.len() == 1 {
        lemma_levels_of_one_level(parts[0]);
    } else {
        let shorter = parts.drop_last();
        lemma_levels_undo_join(shorter);
        lemma_levels_of_joined(join_levels(shorter), parts.last());
        lemma_levels_of_one_level(parts.last());
    }
}

/// A pattern without wildcards admits itself and nothing else.
pub proof fn lemma_plain_pattern_admits_itself_only(pattern: Seq<char>, topic: Seq<char>)
    requires
        !pattern.contains('+'),
        pattern.len() == 0 || pattern.last() != '#',
    ensures
        topic_matches_spec(pattern, topic) <==> pattern == topic,
{
}

/// A pattern that ends in `#` and holds no `+` admits every topic that
/// starts with what stands before the `#`.
pub proof fn lemma_hash_admits_every_continuation(prefix: Seq<char>, rest: Seq<char>)
    requires
        !prefix.contains('+'),
    ensures
        topic_matches_spec(prefix.push('#'), prefix + rest),
{
}

/// A pattern that holds a `+` admits a topic exactly when the two are equal
/// or match level by level, whatever else the pattern holds.
pub proof fn lemma_plus_pattern_goes_level_by_level(pattern: Seq<char>, topic: Seq<char>)
    requires
        pattern.contains('+'),
    ensures
        topic_matches_spec(pattern, topic) <==> (pattern == topic || admits_level_by_level(
            pattern,
            topic,
        )),
{
}

fn contains_char(text: &Vec<char>, c: char) -> (found: bool)
    ensures
        found == text@.contains(c),
{
    let mut i: usize = 0;
    while i < text.len()
        invariant
            i <= text.len(),
            forall|j: int| 0 <= j < i ==> text[j] != c,
        decreases text.len() - i,
    {
        if text[i] == c {
            return true;
        }
        i += 1;
    }
    false
}

fn same_chars(a: &Vec<char>, b: &Vec<char>) -> (same: bool)
    ensures
        same == (a@ == b@),
{
    if a.len() != b.len() {
        return false;
    }
    let mut i: usize = 0;
    while i < a.len()
        invariant
            i <= a.len(),
            a.len() == b.len(),
            forall|j: int| 0 <= j < i ==> a[j] == b[j],
        decreases a.len() - i,
    {
        if a[i] != b[i] {
            return false;
        }
        i += 1;
    }
    assert(a@ =~= b@);
    true
}

/// Whether the first `n` characters of `prefix` are the first `n` of `text`.
fn starts_with_first(text: &Vec<char>, prefix: &Vec<char>, n: usize) -> (found: bool)
    requires
        n <= prefix.len(),
    ensures
        found == prefix@.take(n as int).is_prefix_of(text@),
{
    if n > text.len() {
        return false;
    }
    let mut i: usize = 0;
    while i < n
        invariant
            i <= n,
            n <= prefix.len(),
            n <= text.len(),
            forall|j: int| 0 <= j < i ==> text[j] == prefix[j],
        decreases n - i,
    {
        if text[i] != prefix[i] {
            assert(prefix@.take(n as int)[i as int] != text@.subrange(0, n as int)[i as int]);
            return false;
        }
        i += 1;
    }
    true
}

/// The character sequences of a list of levels.
pub open spec fn level_views(parts: Seq<Vec<char>>) -> Seq<Seq<char>> {
    parts.map_values(|part: Vec<char>| part@)
}

/// Cuts a topic into its levels.
pub fn split_levels(topic: &Vec<char>) -> (parts: Vec<Vec<char>>)
    ensures
        level_views(parts@) == levels(topic@),
{
    let mut parts: Vec<Vec<char>> = Vec::new();
    let mut current: Vec<char> = Vec::new();
    let mut i: usize = 0;
    while i < topic.len()
        invariant
            i <= topic.len(),
            level_views(parts@).push(current@) == levels(topic@.take(i as int)),
        decreases topic.len() - i,
    {
        let ghost next = topic@.take(i + 1);
        assert(next.drop_last() =~= topic@.take(i as int));
        let c = topic[i];
        if c == '/' {
            parts.push(current);
            current = Vec::new();
        } else {
            current.push(c);
        }
        i += 1;
    }
    assert(topic@.take(topic.len() as int) =~= topic@);
    parts.push(current);
    parts
}

/// Whether a message published on `topic` is delivered to a subscription for
/// `pattern`. The answer depends on the two strings alone.
pub fn topic_matches(pattern: &str, topic: &str) -> (matched: bool)
    ensures
        matched == topic_matches_spec(pattern@, topic@),
{
    if str_eq(pattern, topic) {
        return true;
    }
    let pattern_chars = chars_of(pattern);
    let topic_chars = chars_of(topic);
    if contains_char(&pattern_chars, '+') {
        let pattern_levels = split_levels(&pattern_chars);
        let topic_levels = split_levels(&topic_chars);
        if pattern_levels.len() != topic_levels.len() {
            return false;
        }
        let mut i: usize = 0;
        while i < pattern_levels.len()
            invariant
                i <= pattern_levels.len(),
                pattern_levels.len() == topic_levels.len(),
                pattern@ != topic@,
                pattern@.contains('+'),
                level_views(pattern_levels@) == levels(pattern@),
                level_views(topic_levels@) == levels(topic@),
                forall|j: int|
                    0 <= j < i ==> level_admits(
                        #[trigger] levels(pattern@)[j],
                        levels(topic@)[j],
                    ),
            decreases pattern_levels.len() - i,
        {
            let p = &pattern_levels[i];
            let t = &topic_levels[i];
            assert(p@ == level_views(pattern_levels@)[i as int]);
            let wildcard = p.len() == 1 && p[0] == '+';
            assert(wildcard == (p@ == seq!['+'])) by {
                if wildcard {
                    assert(p@ =~= seq!['+']);
                }
            }
            if !wildcard && !same_chars(p, t) {
                return false;
            }
            i += 1;
        }
        return true;
    }
    let n = pattern_chars.len();
    if n > 0 && pattern_chars[n - 1] == '#' {
        return starts_with_first(&topic_chars, &pattern_chars, n - 1);
    }
    false
}

} // verus!
