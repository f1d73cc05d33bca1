//! Properties of companion mode that span several operations.
use vstd::prelude::*;

use crate::context::{autosave_prefix, is_shown, summary_section, MemoryEntry};
use crate::harvester::{facts_of_items, harvested_writes, item_fact, ok_count};
use crate::mode::{advance, is_first_affine, selected_persona_name, summary_due, CompanionSession, PersonaConfig, FAMILIARITY_MAX};
use crate::tools::recalled_lines;
use crate::namespace::{fact_key_spec, fact_prefix, summary_key_spec, summary_prefix};
use crate::text::{is_white_space, trim, trim_end, trim_start};

verus! {

/// The session after `n` completed turns, starting from `s`.
pub open spec fn advance_n(s: CompanionSession, n: nat) -> CompanionSession
    decreases n,
{
    if n == 0 {
        s
    } else {
        advance(advance_n(s, (n - 1) as nat))
    }
}

/// A session as it is created: no turns, no familiarity.
pub open spec fn is_fresh(s: CompanionSession) -> bool {
    s.turn_count == 0 && s.familiarity_score == 0
}

/// Familiarity starts at 0 and grows by one hundredth per turn up to 1.0:
/// after `n` turns a fresh session has familiarity `min(n, 100)` hundredths
/// (0.5 after 50 turns, 1.0 from 100 turns on) and `min(n, u32::MAX)` turns;
/// user and persona never change.
pub proof fn lemma_familiarity_after_turns(s: CompanionSession, n: nat)
    requires
        is_fresh(s),
    ensures
        advance_n(s, n).familiarity_score == if n < FAMILIARITY_MAX { n } else { FAMILIARITY_MAX as nat },
        advance_n(s, n).turn_count == if n < u32::MAX { n } else { u32::MAX as nat },
        advance_n(s, n).user_id == s.user_id,
        advance_n(s, n).persona_name == s.persona_name,
    decreases n,
{
    if n > 0 {
        lemma_familiarity_after_turns(s, (n - 1) as nat);
    }
}

/// With a positive interval, a summary falls due after exactly the turns that
/// are multiples of the interval (up to `u32::MAX` turns); with interval 0,
/// never.
pub proof fn lemma_summary_schedule(s: CompanionSession, n: nat, interval: u32)
    requires
        is_fresh(s),
        1 <= n <= u32::MAX,
    ensures
        summary_due(advance_n(s, n).turn_count, interval) <==> (interval > 0 && n % (interval as nat) == 0),
{
    lemma_familiarity_after_turns(s, n);
}

/// A remembered or harvested fact is never taken for a summary or an
/// autosave entry: recalled with no score (or a score of at least 0.1), it is
/// shown in the prompt.
pub proof fn lemma_fact_keys_are_shown(e: MemoryEntry, user_id: Seq<char>, fact_key: Seq<char>)
    requires
        e.key@ == fact_key_spec(user_id, fact_key),
        e.score_bits is None,
    ensures
        is_shown(e),
{
    reveal_strlit("companion_fact:");
    reveal_strlit("companion_summary:");
    reveal_strlit("autosave_");
    let k = e.key@;
    assert(k[10] == fact_prefix()[10]);
    assert(k[10] != summary_prefix()[10]);
    if summary_prefix().len() <= k.len() {
        assert(k.subrange(0, summary_prefix().len() as int)[10] == k[10]);
    }
    assert(k[0] != autosave_prefix()[0]);
    if autosave_prefix().len() <= k.len() {
        assert(k.subrange(0, autosave_prefix().len() as int)[0] == k[0]);
    }
}

/// A stored summary is never listed among the recalled memories.
pub proof fn lemma_summary_keys_are_hidden(e: MemoryEntry, user_id: Seq<char>)
    requires
        e.key@ == summary_key_spec(user_id),
    ensures
        !is_shown(e),
{
    assert(e.key@.subrange(0, summary_prefix().len() as int) =~= summary_prefix());
}

proof fn lemma_trim_start_head(s: Seq<char>)
    ensures
        trim_start(s).len() > 0 ==> !is_white_space(trim_start(s)[0]),
        trim_start(s).len() <= s.len(),
        trim_start(s) == s.skip(s.len() - trim_start(s).len()),
    decreases s.len(),
{
    if s.len() > 0 && is_white_space(s[0]) {
        lemma_trim_start_head(s.drop_first());
        assert(s.drop_first().skip(s.drop_first().len() - trim_start(s.drop_first()).len()) =~= s.skip(
            s.len() - trim_start(s).len(),
        ));
    } else {
        assert(s.skip(0) =~= s);
    }
}

proof fn lemma_trim_end_tail(s: Seq<char>)
    ensures
        trim_end(s).len() > 0 ==> !is_white_space(trim_end(s).last()),
        trim_end(s).len() > 0 ==> trim_end(s)[0] == s[0],
        trim_end(s).len() <= s.len(),
    decreases s.len(),
{
    if s.len() > 0 && is_white_space(s.last()) {
        lemma_trim_end_tail(s.drop_last());
    }
}

/// A non-empty trimmed text begins and ends with a character that is not white space.
pub proof fn lemma_trimmed_ends(s: Seq<char>)
    ensures
        trim(s).len() > 0 ==> !is_white_space(trim(s)[0]) && !is_white_space(trim(s).last()),
{
    lemma_trim_start_head(s);
    lemma_trim_end_tail(trim_start(s));
}

/// Every fact read from a reply has a non-empty key and fact, neither of
/// which begins or ends with white space.
pub proof fn lemma_facts_are_clean(items: Seq<(Option<Seq<char>>, Option<Seq<char>>)>, i: int)
    requires
        0 <= i < facts_of_items(items).len(),
    ensures
        ({
            let f = facts_of_items(items)[i];
            &&& f.0.len() > 0 && f.1.len() > 0
            &&& !is_white_space(f.0[0]) && !is_white_space(f.0.last())
            &&& !is_white_space(f.1[0]) && !is_white_space(f.1.last())
        }),
    decreases items.len(),
{
    let init = facts_of_items(items.drop_last());
    let last = item_fact(items.last());
    if i < init.len() {
        lemma_facts_are_clean(items.drop_last(), i);
        assert(facts_of_items(items)[i] == init[i]);
    } else {
        assert(facts_of_items(items)[i] == last[i - init.len()]);
        match items.last().0 {
            Some(k) => lemma_trimmed_ends(k),
            None => {},
        }
        match items.last().1 {
            Some(f) => lemma_trimmed_ends(f),
            None => {},
        }
    }
}

/// A turn never reports more saved facts than stores it attempted.
pub proof fn lemma_saved_at_most_attempted(outcomes: Seq<Result<(), String>>)
    ensures
        ok_count(outcomes) <= outcomes.len(),
    decreases outcomes.len(),
{
    if outcomes.len() > 0 {
        lemma_saved_at_most_attempted(outcomes.drop_last());
    }
}

/// Persona choice looks at every channel a persona lists: when persona `i`
/// lists `channel` at any position `j`, and no earlier persona lists it at any
/// position, a new session on that channel gets persona `i`.
pub proof fn lemma_affinity_any_position(personas: Seq<PersonaConfig>, channel: Seq<char>, i: int, j: int)
    requires
        0 <= i < personas.len(),
        0 <= j < personas[i].channel_affinity@.len(),
        personas[i].channel_affinity@[j]@ == channel,
        forall|k: int, m: int|
            0 <= k < i && 0 <= m < personas[k].channel_affinity@.len() ==> (#[trigger] personas[k].channel_affinity@[m])@ != channel,
    ensures
        selected_persona_name(personas, Some(channel)) == personas[i].name@,
{
    assert(personas[i].channel_affinity@[j]@ == channel);
    assert(is_first_affine(personas, channel, i)) by {
        assert forall|k: int| 0 <= k < i implies !crate::mode::has_affinity(#[trigger] personas[k], channel) by {
            if crate::mode::has_affinity(personas[k], channel) {
                let m = choose|m: int| 0 <= m < personas[k].channel_affinity@.len() && #[trigger] personas[k].channel_affinity@[m]@ == channel;
                assert(personas[k].channel_affinity@[m]@ != channel);
            }
        }
    }
    let c = choose|c: int| is_first_affine(personas, channel, c);
    assert(c == i) by {
        if c < i {
            assert(!crate::mode::has_affinity(personas[c], channel));
        } else if c > i {
            assert(!crate::mode::has_affinity(personas[i], channel));
        }
    }
}

/// When no persona lists `channel` anywhere, a new session on that channel
/// gets the first persona.
pub proof fn lemma_no_affinity_falls_back(personas: Seq<PersonaConfig>, channel: Seq<char>)
    requires
        forall|k: int, m: int|
            0 <= k < personas.len() && 0 <= m < personas[k].channel_affinity@.len() ==> (#[trigger] personas[k].channel_affinity@[m])@ != channel,
    ensures
        selected_persona_name(personas, Some(channel)) == personas[0].name@,
{
    if crate::mode::some_affine(personas, channel) {
        let k = choose|k: int| 0 <= k < personas.len() && crate::mode::has_affinity(#[trigger] personas[k], channel);
        let m = choose|m: int| 0 <= m < personas[k].channel_affinity@.len() && #[trigger] personas[k].channel_affinity@[m]@ == channel;
        assert(personas[k].channel_affinity@[m]@ != channel);
    }
}

/// The recall tool lists every recalled memory, whatever its key: one more
/// recalled entry adds exactly its line `- {key}: {content}` to the output.
pub proof fn lemma_recall_lists_every_entry(entries: Seq<MemoryEntry>, e: MemoryEntry)
    ensures
        recalled_lines(entries.push(e)) == recalled_lines(entries) + "- "@ + e.key@ + ": "@ + e.content@ + "\n"@,
{
    assert(entries.push(e).drop_last() =~= entries);
}

/// The summary section carries the whole trimmed summary, every line of it:
/// it is the header, then all of `trim(c)`, then one line break.
pub proof fn lemma_summary_kept_whole(c: Seq<char>)
    requires
        trim(c).len() > 0,
    ensures
        summary_section(Some(c)).len() == "\n## Recent conversation summary\n"@.len() + trim(c).len() + 1,
        summary_section(Some(c)).subrange(
            "\n## Recent conversation summary\n"@.len() as int,
            ("\n## Recent conversation summary\n"@.len() + trim(c).len()) as int,
        ) == trim(c),
{
    reveal_strlit("\n");
    let h = "\n## Recent conversation summary\n"@;
    assert((h + trim(c) + "\n"@).subrange(h.len() as int, (h.len() + trim(c).len()) as int) =~= trim(c));
}

/// The trimmed text of an optional member, empty when it is missing.
pub open spec fn member_text(m: Option<Seq<char>>) -> Seq<char> {
    match m {
        Some(t) => trim(t),
        None => Seq::empty(),
    }
}

/// Reading one more array element adds exactly its pair when its trimmed key
/// and fact are both non-empty, and nothing otherwise, whatever the earlier
/// elements hold (repeated keys included).
pub proof fn lemma_facts_one_per_element(
    items: Seq<(Option<Seq<char>>, Option<Seq<char>>)>,
    x: (Option<Seq<char>>, Option<Seq<char>>),
)
    ensures
        facts_of_items(items.push(x)) == facts_of_items(items) + if member_text(x.0).len() > 0 && member_text(x.1).len() > 0 {
            seq![(member_text(x.0), member_text(x.1))]
        } else {
            Seq::empty()
        },
{
    assert(items.push(x).drop_last() =~= items);
    assert(items.push(x).last() == x);
}

/// Planning one more harvested fact adds exactly one write of it, under
/// `companion_fact:{user_id}:{key}`, when its key and fact are non-empty, and
/// nothing otherwise, whatever the earlier facts hold (repeated keys included).
pub proof fn lemma_writes_one_per_fact(user_id: Seq<char>, facts: Seq<(Seq<char>, Seq<char>)>, f: (Seq<char>, Seq<char>))
    ensures
        harvested_writes(user_id, facts.push(f)) == harvested_writes(user_id, facts) + if f.0.len() > 0 && f.1.len() > 0 {
            seq![(f.0, fact_key_spec(user_id, f.0), f.1)]
        } else {
            Seq::empty()
        },
{
    assert(facts.push(f).drop_last() =~= facts);
    assert(facts.push(f).last() == f);
}

} // verus!
