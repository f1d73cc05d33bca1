//! The companion system prompt, rebuilt from scratch on every turn from the
//! persona card, the relationship depth, the recalled memories, the rolling
//! summary and the tone guidance.
use vstd::prelude::*;

use crate::mode::{CompanionSession, PersonaConfig};
use crate::namespace::{session_scope, session_scope_spec, summary_prefix};
use crate::text::{decimal, starts_with, str_starts_with, trim, trim_str, u32_to_decimal};

verus! {

/// Return the memory session scoping key for a companion session:
/// `companion:{user_id}`.
pub fn companion_session_key(session: &CompanionSession) -> (k: String)
    ensures
        k@ == session_scope_spec(session.user_id@),
{
    session_scope(session.user_id.as_str())
}

/// A memory returned by the backend's recall, as far as the prompt reads it.
#[derive(Debug)]
pub struct MemoryEntry {
    /// Key the memory is stored under.
    pub key: String,
    /// Stored text.
    pub content: String,
    /// The backend's relevance score, if it gives one, as the bit pattern of
    /// the IEEE-754 double (`f64::to_bits`).
    pub score_bits: Option<u64>,
}

/// Bit pattern of the double nearest to 0.1, the least relevance a scored
/// memory needs to be shown.
pub const MIN_SCORE_BITS: u64 = 0x3FB9_9999_9999_999A;

/// Bit pattern of positive infinity.
pub const POSITIVE_INFINITY_BITS: u64 = 0x7FF0_0000_0000_0000;

/// The double with bit pattern `bits` is at least 0.1. Non-negative doubles
/// order as their bit patterns do; patterns with the sign bit set are negative
/// (or zero), and patterns above positive infinity are NaN.
pub open spec fn score_at_least_min(bits: u64) -> bool {
    MIN_SCORE_BITS <= bits <= POSITIVE_INFINITY_BITS
}

/// `autosave_`, the prefix of automatically saved turns.
pub open spec fn autosave_prefix() -> Seq<char> {
    "autosave_"@
}

/// A recalled memory is shown: it is neither a summary nor an autosave
/// entry, and it has no score or a score of at least 0.1.
pub open spec fn is_shown(e: MemoryEntry) -> bool {
    &&& !starts_with(e.key@, summary_prefix())
    &&& !starts_with(e.key@, autosave_prefix())
    &&& match e.score_bits {
        Some(b) => score_at_least_min(b),
        None => true,
    }
}

/// `- {item}\n` for each item, in order.
pub open spec fn bullet_lines(items: Seq<String>) -> Seq<char>
    decreases items.len(),
{
    if items.len() == 0 {
        Seq::empty()
    } else {
        bullet_lines(items.drop_last()) + "- "@ + items.last()@ + "\n"@
    }
}

/// `- {key}: {content}\n` for each shown memory, in order.
pub open spec fn memory_lines(entries: Seq<MemoryEntry>) -> Seq<char>
    decreases entries.len(),
{
    if entries.len() == 0 {
        Seq::empty()
    } else {
        let e = entries.last();
        memory_lines(entries.drop_last()) + if is_shown(e) {
            "- "@ + e.key@ + ": "@ + e.content@ + "\n"@
        } else {
            Seq::empty()
        }
    }
}

/// The persona card: name heading, description, personality traits and tone.
pub open spec fn persona_card(p: PersonaConfig) -> Seq<char> {
    "# You are "@ + p.name@ + "\n"@ + "\n"@ + p.description@ + "\n"@ + "\n## Personality\n"@
        + bullet_lines(p.personality_traits@) + "\n## Tone\n"@ + p.tone@ + "\n"@
}

/// The relationship tier for a familiarity in hundredths.
pub open spec fn depth_text(familiarity: u32) -> Seq<char> {
    if familiarity < 30 {
        "You are meeting this person for the first time. Be warm and curious."@
    } else if familiarity < 60 {
        "You've had several conversations. You're becoming comfortable with each other."@
    } else if familiarity < 90 {
        "You're good friends now. Be personal, reference shared history."@
    } else {
        "You're deeply bonded companions. Speak with intimacy and shared understanding."@
    }
}

/// The relationship section: familiarity tier, familiarity score and turn count.
pub open spec fn relationship_section(s: CompanionSession) -> Seq<char> {
    "\n## Relationship\n"@ + depth_text(s.familiarity_score) + "\n"@ + "Familiarity score: "@
        + score_text(s.familiarity_score) + " (0.00 = just met, 1.00 = closest)\n"@ + "You've exchanged "@
        + decimal(s.turn_count as nat) + " messages together.\n"@
}

/// A familiarity in hundredths written as a score with two decimals:
/// 42 as `0.42`, 5 as `0.05`, 100 as `1.00`.
pub open spec fn score_text(f: u32) -> Seq<char> {
    decimal((f / 100) as nat) + "."@ + decimal(((f % 100) / 10) as nat) + decimal((f % 10) as nat)
}

/// The recalled-memories section, present when some memory is shown.
pub open spec fn memories_section(entries: Seq<MemoryEntry>) -> Seq<char> {
    if exists|i: int| 0 <= i < entries.len() && is_shown(#[trigger] entries[i]) {
        "\n## What you remember about this person\n"@ + memory_lines(entries)
    } else {
        Seq::empty()
    }
}

/// The rolling-summary section, present when the summary is non-empty after trimming.
pub open spec fn summary_section(summary: Option<Seq<char>>) -> Seq<char> {
    match summary {
        Some(c) if trim(c).len() > 0 => "\n## Recent conversation summary\n"@ + trim(c) + "\n"@,
        _ => Seq::empty(),
    }
}

/// The closing tone guidance.
pub open spec fn tone_guidance(p: PersonaConfig) -> Seq<char> {
    "\n## Remember\n- Stay in character as "@ + p.name@
        + " at all times.\n- Never break the fourth wall or mention being an AI unless directly asked.\n- Keep responses conversational (2-4 sentences unless the topic demands more).\n- Use your tone: "@
        + p.tone@ + ".\n"@
}

/// The whole system prompt.
pub open spec fn prompt(p: PersonaConfig, s: CompanionSession, entries: Seq<MemoryEntry>, summary: Option<Seq<char>>) -> Seq<char> {
    persona_card(p) + relationship_section(s) + memories_section(entries) + summary_section(summary) + tone_guidance(p)
}

/// View of an optional string slice.
pub open spec fn opt_str_view(o: Option<&str>) -> Option<Seq<char>> {
    match o {
        Some(s) => Some(s@),
        None => None,
    }
}

/// Whether a recalled memory is shown in the prompt.
pub fn shows_memory(e: &MemoryEntry) -> (b: bool)
    ensures
        b == is_shown(*e),
{
    let key = e.key.as_str();
    if str_starts_with(key, "companion_summary:") || str_starts_with(key, "autosave_") {
        return false;
    }
    match e.score_bits {
        Some(b) => MIN_SCORE_BITS <= b && b <= POSITIVE_INFINITY_BITS,
        None => true,
    }
}

/// Builds a fresh companion system prompt on every turn.
pub struct CompanionContextBuilder {
    /// Persona configuration used to populate the persona card section.
    pub persona: PersonaConfig,
    /// Number of memories to retrieve from the backend per turn.
    pub memory_recall_k: usize,
}

impl CompanionContextBuilder {
    /// Create a new builder with the given persona and recall limit.
    pub fn new(persona: PersonaConfig, memory_recall_k: usize) -> (b: Self)
        ensures
            b.persona == persona,
            b.memory_recall_k == memory_recall_k,
    {
        Self { persona, memory_recall_k }
    }

    /// Appends the persona card.
    pub fn write_persona_card(&self, out: &mut String)
        ensures
            final(out)@ == old(out)@ + persona_card(self.persona),
    {
        let p = &self.persona;
        let ghost start = out@;
        out.append("# You are ");
        out.append(p.name.as_str());
        out.append("\n");
        out.append("\n");
        out.append(p.description.as_str());
        out.append("\n");
        out.append("\n## Personality\n");
        let ghost head = out@;
        let traits = &p.personality_traits;
        let mut i: usize = 0;
        while i < traits.len()
            invariant
                i <= traits@.len(),
                out@ == head + bullet_lines(traits@.take(i as int)),
            decreases traits.len() - i,
        {
            assert(traits@.take(i + 1).drop_last() =~= traits@.take(i as int));
            out.append("- ");
            out.append(traits[i].as_str());
            out.append("\n");
            i = i + 1;
        }
        assert(traits@.take(traits.len() as int) =~= traits@);
        out.append("\n## Tone\n");
        out.append(p.tone.as_str());
        out.append("\n");
        assert(out@ =~= start + persona_card(self.persona));
    }

    /// Appends the relationship section for `session`: the tier sentence, the
    /// familiarity score with two decimals, and the turn count.
    pub fn write_relationship_depth(&self, out: &mut String, session: &CompanionSession)
        ensures
            final(out)@ == old(out)@ + relationship_section(*session),
    {
        let ghost start = out@;
        out.append("\n## Relationship\n");
        let f = session.familiarity_score;
        let depth_text = if f < 30 {
            "You are meeting this person for the first time. Be warm and curious."
        } else if f < 60 {
            "You've had several conversations. You're becoming comfortable with each other."
        } else if f < 90 {
            "You're good friends now. Be personal, reference shared history."
        } else {
            "You're deeply bonded companions. Speak with intimacy and shared understanding."
        };
        out.append(depth_text);
        out.append("\n");
        out.append("Familiarity score: ");
        let whole = u32_to_decimal(f / 100);
        out.append(whole.as_str());
        out.append(".");
        let tenths = u32_to_decimal((f % 100) / 10);
        out.append(tenths.as_str());
        let hundredths = u32_to_decimal(f % 10);
        out.append(hundredths.as_str());
        out.append(" (0.00 = just met, 1.00 = closest)\n");
        out.append("You've exchanged ");
        let count = u32_to_decimal(session.turn_count);
        out.append(count.as_str());
        out.append(" messages together.\n");
        assert(out@ =~= start + relationship_section(*session));
    }

    /// Appends the recalled-memories section for `recalled`.
    pub fn write_recalled_memories(&self, out: &mut String, recalled: &Vec<MemoryEntry>)
        ensures
            final(out)@ == old(out)@ + memories_section(recalled@),
    {
        let mut lines = String::new();
        let mut any = false;
        let mut i: usize = 0;
        while i < recalled.len()
            invariant
                i <= recalled@.len(),
                lines@ == memory_lines(recalled@.take(i as int)),
                any == exists|j: int| 0 <= j < i && is_shown(#[trigger] recalled@[j]),
            decreases recalled.len() - i,
        {
            let e = &recalled[i];
            assert(recalled@.take(i + 1).drop_last() =~= recalled@.take(i as int));
            assert(recalled@.take(i + 1).last() == recalled@[i as int]);
            if shows_memory(e) {
                lines.append("- ");
                lines.append(e.key.as_str());
                lines.append(": ");
                lines.append(e.content.as_str());
                lines.append("\n");
                any = true;
            } else {
                assert(memory_lines(recalled@.take(i + 1)) =~= memory_lines(recalled@.take(i as int)));
            }
            i = i + 1;
        }
        assert(recalled@.take(recalled.len() as int) =~= recalled@);
        if any {
            out.append("\n## What you remember about this person\n");
            out.append(lines.as_str());
        } else {
            assert(memories_section(recalled@) =~= Seq::<char>::empty());
            assert(out@ =~= out@ + Seq::<char>::empty());
        }
    }

    /// Appends the rolling-summary section for the stored summary text.
    pub fn write_rolling_summary(&self, out: &mut String, summary: Option<&str>)
        ensures
            final(out)@ == old(out)@ + summary_section(opt_str_view(summary)),
    {
        match summary {
            Some(text) => {
                let content = trim_str(text);
                if !content.is_empty() {
                    out.append("\n## Recent conversation summary\n");
                    out.append(content);
                    out.append("\n");
                    assert(summary_section(opt_str_view(summary)) =~= "\n## Recent conversation summary\n"@ + trim(text@) + "\n"@);
                } else {
                    assert(out@ =~= out@ + Seq::<char>::empty());
                }
            },
            None => {
                assert(out@ =~= out@ + Seq::<char>::empty());
            },
        }
    }

    /// Appends the closing tone guidance.
    pub fn write_tone_guidance(&self, out: &mut String)
        ensures
            final(out)@ == old(out)@ + tone_guidance(self.persona),
    {
        let ghost start = out@;
        out.append("\n## Remember\n- Stay in character as ");
        out.append(self.persona.name.as_str());
        out.append(" at all times.\n- Never break the fourth wall or mention being an AI unless directly asked.\n- Keep responses conversational (2-4 sentences unless the topic demands more).\n- Use your tone: ");
        out.append(self.persona.tone.as_str());
        out.append(".\n");
        assert(out@ =~= start + tone_guidance(self.persona));
    }

    /// The system prompt for one turn, from the session, the memories the
    /// backend recalled for the current message and the stored rolling
    /// summary: the persona card, the relationship depth, the shown memories
    /// (if any), the trimmed summary (if non-empty) and the tone guidance.
    pub fn build(&self, session: &CompanionSession, recalled: &Vec<MemoryEntry>, summary: Option<&str>) -> (p: String)
        ensures
            p@ == prompt(self.persona, *session, recalled@, opt_str_view(summary)),
    {
        let mut out = String::new();
        self.write_persona_card(&mut out);
        self.write_relationship_depth(&mut out, session);
        self.write_recalled_memories(&mut out, recalled);
        self.write_rolling_summary(&mut out, summary);
        self.write_tone_guidance(&mut out);
        assert(out@ =~= prompt(self.persona, *session, recalled@, opt_str_view(summary)));
        out
    }

    /// The system prompt for one turn from the memory backend's answers: the
    /// recall for the current message and the lookup of the stored summary
    /// (`None` when there is none). A failed recall, or else a failed lookup,
    /// is passed on as the error; otherwise the prompt is `build` of the
    /// recalled memories and the summary's content.
    pub fn build_from_backend<E>(
        &self,
        session: &CompanionSession,
        recalled: Result<Vec<MemoryEntry>, E>,
        summary: Result<Option<String>, E>,
    ) -> (r: Result<String, E>)
        ensures
            recalled matches Err(e) ==> (r matches Err(f) && f == e),
            recalled is Ok ==> (summary matches Err(e) ==> (r matches Err(f) && f == e)),
            recalled matches Ok(es) ==> (summary matches Ok(s) ==> (r matches Ok(p) && p@ == prompt(
                self.persona,
                *session,
                es@,
                match s { Some(c) => Some(c@), None => None },
            ))),
    {
        let recalled = match recalled {
            Ok(es) => es,
            Err(e) => return Err(e),
        };
        let summary = match summary {
            Ok(s) => s,
            Err(e) => return Err(e),
        };
        let text: Option<&str> = match &summary {
            Some(c) => Some(c.as_str()),
            None => None,
        };
        Ok(self.build(session, &recalled, text))
    }
}

} // verus!