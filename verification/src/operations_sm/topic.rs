//! The grammar of topics: levels separated by `/`, and patterns whose `+` levels
//! stand for any single level.

use vstd::prelude::*;

verus! {

/// The character that separates the levels of a topic.
pub open spec fn separator() -> char {
    '/'
}

/// The level of a pattern that stands for any single level of a topic.
pub open spec fn wildcard() -> Seq<char> {
    seq!['+']
}

/// The levels of a topic: its maximal pieces free of separators, from left to right.
/// A topic with `n` separators has `n + 1` levels, some of them possibly empty.
pub open spec fn levels(topic: Seq<char>) -> Seq<Seq<char>>
    decreases topic.len(),
{
    if topic.len() == 0 {
        seq![Seq::<char>::empty()]
    } else {
        let before = levels(topic.drop_last());
        if topic.last() == separator() {
            before.push(Seq::<char>::empty())
        } else {
            before.drop_last().push(before.last().push(topic.last()))
        }
    }
}

/// The positions of the separators of a topic, in increasing order.
pub open spec fn separators(topic: Seq<char>) -> Seq<int>
    decreases topic.len(),
{
    if topic.len() == 0 {
        Seq::<int>::empty()
    } else if topic.last() == separator() {
        separators(topic.drop_last()).push(topic.len() - 1)
    } else {
        separators(topic.drop_last())
    }
}

/// Whether a text can stand as one level: it holds no separator.
pub open spec fn is_level(text: Seq<char>) -> bool {
    forall|i: int| 0 <= i < text.len() ==> text[i] != separator()
}

/// Where the level of index `k` starts in `topic`.
pub open spec fn level_start(topic: Seq<char>, k: int) -> int {
    if k == 0 {
        0
    } else {
        separators(topic)[k - 1] + 1
    }
}

/// Where the level of index `k` ends in `topic` (the position after its last character).
pub open spec fn level_end(topic: Seq<char>, k: int) -> int {
    if k == separators(topic).len() {
        topic.len() as int
    } else {
        separators(topic)[k]
    }
}

/// Whether one level of a pattern accepts one level of a topic.
pub open spec fn level_accepts(pattern_level: Seq<char>, topic_level: Seq<char>) -> bool {
    pattern_level == wildcard() || pattern_level == topic_level
}

/// Whether a pattern accepts a topic: both have the same number of levels, and
/// each level of the pattern is the wildcard or equals the topic's level.
pub open spec fn pattern_accepts(pattern: Seq<char>, topic: Seq<char>) -> bool {
    let p = levels(pattern);
    let t = levels(topic);
    &&& p.len() == t.len()
    &&& forall|k: int| 0 <= k < p.len() ==> level_accepts(#[trigger] p[k], t[k])
}

/// The separators of a topic are positions of it, strictly increasing.
pub proof fn lemma_separators_bounds(topic: Seq<char>)
    ensures
        separators(topic).len() <= topic.len(),
        forall|k: int|
            0 <= k < separators(topic).len() ==> 0 <= #[trigger] separators(topic)[k] < topic.len()
                && topic[separators(topic)[k]] == separator(),
        forall|j: int, k: int|
            0 <= j < k < separators(topic).len() ==> separators(topic)[j] < separators(topic)[k],
    decreases topic.len(),
{
    if topic.len() > 0 {
        lemma_separators_bounds(topic.drop_last());
    }
}

/// The levels of a topic are the stretches between its separators.
pub proof fn lemma_levels_between_separators(topic: Seq<char>)
    ensures
        levels(topic).len() == separators(topic).len() + 1,
        forall|k: int|
            0 <= k < levels(topic).len() ==> 0 <= level_start(topic, k) <= level_end(topic, k)
                <= topic.len() && #[trigger] levels(topic)[k] == topic.subrange(
                level_start(topic, k),
                level_end(topic, k),
            ),
    decreases topic.len(),
{
    lemma_separators_bounds(topic);
    if topic.len() == 0 {
        assert(levels(topic)[0] =~= topic.subrange(0, 0));
    } else {
        let before = topic.drop_last();
        lemma_levels_between_separators(before);
        lemma_separators_bounds(before);
        let n = separators(before).len() as int;
        assert forall|k: int| 0 <= k < levels(topic).len() implies 0 <= level_start(topic, k)
            <= level_end(topic, k) <= topic.len() && #[trigger] levels(topic)[k] == topic.subrange(
            level_start(topic, k),
            level_end(topic, k),
        ) by {
            if topic.last() == separator() {
                if k <= n {
                    assert(level_start(topic, k) == level_start(before, k));
                    assert(level_end(topic, k) == level_end(before, k));
                    assert(levels(before)[k] == before.subrange(
                        level_start(before, k),
                        level_end(before, k),
                    ));
                    assert(before.subrange(level_start(before, k), level_end(before, k))
                        =~= topic.subrange(level_start(topic, k), level_end(topic, k)));
                } else {
                    assert(levels(topic)[k] =~= topic.subrange(
                        level_start(topic, k),
                        level_end(topic, k),
                    ));
                }
            } else {
                assert(level_start(topic, k) == level_start(before, k));
                if k < n {
                    assert(level_end(topic, k) == level_end(before, k));
                    assert(levels(before)[k] == before.subrange(
                        level_start(before, k),
                        level_end(before, k),
                    ));
                    assert(before.subrange(level_start(before, k), level_end(before, k))
                        =~= topic.subrange(level_start(topic, k), level_end(topic, k)));
                } else {
                    assert(levels(before)[k] == before.subrange(
                        level_start(before, k),
                        level_end(before, k),
                    ));
                    assert(before.subrange(level_start(before, k), before.len() as int).push(
                        topic.last(),
                    ) =~= topic.subrange(level_start(topic, k), topic.len() as int));
                }
            }
        }
    }
}

/// Every level of a topic is free of separators.
pub proof fn lemma_levels_are_levels(topic: Seq<char>)
    ensures
        forall|k: int| 0 <= k < levels(topic).len() ==> is_level(#[trigger] levels(topic)[k]),
    decreases topic.len(),
{
    if topic.len() > 0 {
        let before = levels(topic.drop_last());
        lemma_levels_are_levels(topic.drop_last());
        lemma_levels_between_separators(topic.drop_last());
        assert forall|k: int| 0 <= k < levels(topic).len() implies is_level(
            #[trigger] levels(topic)[k],
        ) by {
            if k < before.len() - 1 {
                assert(levels(topic)[k] == before[k]);
            } else if topic.last() != separator() {
                assert(is_level(before.last()));
            }
        }
    }
}

/// Appending a separator to a topic opens a new, empty level.
pub proof fn lemma_levels_push_separator(topic: Seq<char>)
    ensures
        levels(topic.push(separator())) == levels(topic).push(Seq::<char>::empty()),
{
    assert(topic.push(separator()).drop_last() =~= topic);
}

/// Appending text that holds no separator to a topic extends its last level.
pub proof fn lemma_levels_append_level(topic: Seq<char>, text: Seq<char>)
    requires
        is_level(text),
    ensures
        levels(topic + text).len() == levels(topic).len(),
        levels(topic + text) == levels(topic).drop_last().push(levels(topic).last() + text),
    decreases text.len(),
{
    lemma_levels_between_separators(topic);
    if text.len() == 0 {
        assert(topic + text =~= topic);
        assert(levels(topic).last() + text =~= levels(topic).last());
        assert(levels(topic).drop_last().push(levels(topic).last()) =~= levels(topic));
    } else {
        let shorter = text.drop_last();
        lemma_levels_append_level(topic, shorter);
        assert((topic + text).drop_last() =~= topic + shorter);
        assert((topic + text).last() == text.last());
        let before = levels(topic + shorter);
        assert(before.last().push(text.last()) =~= levels(topic).last() + text);
        assert(before.drop_last() =~= levels(topic).drop_last());
    }
}

/// Appending a separator and then a level to a topic adds that level to its levels.
pub proof fn lemma_levels_append_separated(topic: Seq<char>, text: Seq<char>)
    requires
        is_level(text),
    ensures
        levels(topic.push(separator()) + text) == levels(topic).push(text),
{
    lemma_levels_push_separator(topic);
    lemma_levels_append_level(topic.push(separator()), text);
    let opened = levels(topic).push(Seq::<char>::empty());
    assert(opened.drop_last() =~= levels(topic));
    assert(opened.last() + text =~= text);
}

/// A text free of separators is a topic of one level: itself.
pub proof fn lemma_levels_of_level(text: Seq<char>)
    requires
        is_level(text),
    ensures
        levels(text) == seq![text],
{
    lemma_levels_append_level(Seq::<char>::empty(), text);
    assert(Seq::<char>::empty() + text =~= text);
    assert(levels(Seq::<char>::empty()).drop_last().push(
        levels(Seq::<char>::empty()).last() + text,
    ) =~= seq![text]);
}

/// The topic made of the levels given, in their order, with a separator
/// between each two.
pub open spec fn joined(levels: Seq<Seq<char>>) -> Seq<char>
    decreases levels.len(),
{
    if levels.len() == 0 {
        Seq::<char>::empty()
    } else if levels.len() == 1 {
        levels[0]
    } else {
        joined(levels.drop_last()).push(separator()) + levels.last()
    }
}

/// A topic is made of its levels.
pub proof fn lemma_joined_levels(topic: Seq<char>)
    ensures
        joined(levels(topic)) == topic,
    decreases topic.len(),
{
    if topic.len() > 0 {
        let shorter = topic.drop_last();
        let before = levels(shorter);
        lemma_joined_levels(shorter);
        lemma_levels_between_separators(shorter);
        if topic.last() == separator() {
            assert(levels(topic).drop_last() =~= before);
            assert(joined(levels(topic)) =~= shorter.push(separator()));
        } else if before.len() == 1 {
            assert(joined(levels(topic)) =~= shorter.push(topic.last()));
        } else {
            let extended = before.last().push(topic.last());
            assert(levels(topic).drop_last() =~= before.drop_last());
            assert(joined(levels(topic)) =~= joined(before.drop_last()).push(separator())
                + extended);
            assert(joined(before.drop_last()).push(separator()) + extended =~= (joined(
                before.drop_last(),
            ).push(separator()) + before.last()).push(topic.last()));
        }
        assert(shorter.push(topic.last()) =~= topic);
    }
}

/// The levels of the topic made of some levels are these levels.
pub proof fn lemma_levels_joined(parts: Seq<Seq<char>>)
    requires
        parts.len() > 0,
        forall|k: int| 0 <= k < parts.len() ==> is_level(#[trigger] parts[k]),
    ensures
        levels(joined(parts)) == parts,
    decreases parts.len(),
{
    if parts.len() == 1 {
        lemma_levels_of_level(parts[0]);
        assert(seq![parts[0]] =~= parts);
    } else {
        let before = parts.drop_last();
        assert forall|k: int| 0 <= k < before.len() implies is_level(#[trigger] before[k]) by {
            assert(before[k] == parts[k]);
        }
        lemma_levels_joined(before);
        lemma_levels_append_separated(joined(before), parts.last());
        assert(before.push(parts.last()) =~= parts);
    }
}

/// Two topics with the same levels are the same topic.
pub proof fn lemma_levels_injective(left: Seq<char>, right: Seq<char>)
    requires
        levels(left) == levels(right),
    ensures
        left == right,
{
    lemma_joined_levels(left);
    lemma_joined_levels(right);
}

/// The positions of the separators among `chars`.
pub fn find_separators(chars: &Vec<char>) -> (found: Vec<usize>)
    ensures
        found@.map_values(|p: usize| p as int) == separators(chars@),
{
    let mut found: Vec<usize> = Vec::new();
    let mut i: usize = 0;
    while i < chars.len()
        invariant
            i <= chars.len(),
            found@.map_values(|p: usize| p as int) == separators(chars@.take(i as int)),
        decreases chars.len() - i,
    {
        proof {
            let next = chars@.take(i + 1);
            assert(next.drop_last() =~= chars@.take(i as int));
            assert(next.last() == chars@[i as int]);
        }
        if chars[i] == '/' {
            found.push(i);
            assert(found@.map_values(|p: usize| p as int) =~= separators(
                chars@.take(i as int),
            ).push(i as int));
        }
        i += 1;
    }
    assert(chars@.take(i as int) =~= chars@);
    found
}

} // verus!
