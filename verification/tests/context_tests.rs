use companion::context::{companion_session_key, CompanionContextBuilder, MemoryEntry};
use companion::mode::{CompanionSession, PersonaConfig};
use companion::namespace::summary_memory_key;

/// A stored entry as the backend holds it.
struct Stored {
    key: &'static str,
    content: &'static str,
    score: Option<f64>,
}

/// Plays the memory backend for one turn: recall hands back up to `k` stored
/// entries, and the summary is the entry under the user's summary key.
fn build(builder: &CompanionContextBuilder, session: &CompanionSession, stored: &[Stored]) -> String {
    let recalled: Vec<MemoryEntry> = stored
        .iter()
        .take(builder.memory_recall_k)
        .map(|s| MemoryEntry {
            key: s.key.to_string(),
            content: s.content.to_string(),
            score_bits: s.score.map(f64::to_bits),
        })
        .collect();
    let summary_key = summary_memory_key(&session.user_id);
    let summary = stored.iter().find(|s| s.key == summary_key).map(|s| s.content);
    builder.build(session, &recalled, summary)
}

fn test_persona() -> PersonaConfig {
    PersonaConfig {
        name: "Zara".to_string(),
        description: "A warm and witty AI companion.".to_string(),
        personality_traits: vec!["curious".to_string(), "empathetic".to_string()],
        tone: "casual and upbeat".to_string(),
        greeting: "Hey there! I'm Zara.".to_string(),
        channel_affinity: vec![],
    }
}

/// `familiarity` in hundredths.
fn test_session(familiarity: u32, turns: u32) -> CompanionSession {
    CompanionSession {
        user_id: "user-test".to_string(),
        persona_name: "Zara".to_string(),
        turn_count: turns,
        familiarity_score: familiarity,
    }
}

#[test]
fn build_contains_persona_name_and_traits() {
    let builder = CompanionContextBuilder::new(test_persona(), 5);
    let session = test_session(0, 0);

    let prompt = build(&builder, &session, &[]);

    assert!(prompt.contains("# You are Zara"), "prompt must open with persona name heading");
    assert!(prompt.contains("curious"), "prompt must list personality traits");
    assert!(prompt.contains("empathetic"), "prompt must list all personality traits");
    assert!(prompt.contains("casual and upbeat"), "prompt must include tone");
}

#[test]
fn build_includes_persona_description() {
    let builder = CompanionContextBuilder::new(test_persona(), 5);
    let session = test_session(0, 0);

    let prompt = build(&builder, &session, &[]);
    assert!(prompt.contains("A warm and witty AI companion."));
}

#[test]
fn build_relationship_text_reflects_familiarity_tiers() {
    let builder = CompanionContextBuilder::new(test_persona(), 5);

    let cases = vec![
        (0_u32, "meeting this person for the first time"),
        (40, "becoming comfortable"),
        (70, "good friends"),
        (95, "deeply bonded"),
    ];

    for (score, expected_fragment) in cases {
        let session = test_session(score, 0);
        let prompt = build(&builder, &session, &[]);
        assert!(
            prompt.contains(expected_fragment),
            "familiarity={score} — expected fragment '{expected_fragment}' not found in:\n{prompt}"
        );
    }
}

#[test]
fn build_includes_turn_count_in_relationship_section() {
    let builder = CompanionContextBuilder::new(test_persona(), 5);
    let session = test_session(50, 42);

    let prompt = build(&builder, &session, &[]);
    assert!(prompt.contains("42 messages"), "turn count must appear in relationship section");
}

#[test]
fn build_includes_recalled_memories_above_threshold() {
    let stored = [Stored { key: "favorite_color", content: "blue", score: Some(0.85) }];
    let builder = CompanionContextBuilder::new(test_persona(), 5);
    let session = test_session(50, 5);

    let prompt = build(&builder, &session, &stored);

    assert!(prompt.contains("favorite_color"), "recalled memory key must appear in prompt");
    assert!(prompt.contains("blue"), "recalled memory content must appear in prompt");
}

#[test]
fn build_filters_out_low_score_memories() {
    let stored = [Stored { key: "irrelevant_fact", content: "should not appear", score: Some(0.05) }];
    let builder = CompanionContextBuilder::new(test_persona(), 5);
    let session = test_session(50, 3);

    let prompt = build(&builder, &session, &stored);

    assert!(!prompt.contains("irrelevant_fact"), "low-score memory must be filtered from prompt");
}

#[test]
fn build_filters_out_summary_and_autosave_keys() {
    let stored = [
        Stored {
            key: "companion_summary:user-test",
            content: "should not appear in memories section",
            score: Some(0.99),
        },
        Stored { key: "autosave_turn_1", content: "autosave content", score: Some(0.99) },
    ];
    let builder = CompanionContextBuilder::new(test_persona(), 5);
    let session = test_session(50, 3);

    let prompt = build(&builder, &session, &stored);

    assert!(!prompt.contains("autosave_turn_1"), "autosave_ keys must be filtered from recalled memories");
    assert!(
        !prompt.contains("## What you remember about this person"),
        "memories section must be absent when all recalls are filtered"
    );
}

#[test]
fn build_includes_rolling_summary_when_present() {
    let stored = [Stored {
        key: "companion_summary:user-test",
        content: "User mentioned they love hiking and have a dog named Biscuit.",
        score: None,
    }];
    let builder = CompanionContextBuilder::new(test_persona(), 5);
    let session = test_session(70, 20);

    let prompt = build(&builder, &session, &stored);

    assert!(prompt.contains("## Recent conversation summary"), "rolling summary section must be present");
    assert!(prompt.contains("Biscuit"), "summary content must appear in prompt");
}

#[test]
fn build_includes_tone_guidance_footer() {
    let builder = CompanionContextBuilder::new(test_persona(), 5);
    let session = test_session(0, 0);

    let prompt = build(&builder, &session, &[]);

    assert!(prompt.contains("## Remember"), "tone guidance section must be present");
    assert!(prompt.contains("Stay in character as Zara"), "persona name must appear in tone guidance");
    assert!(prompt.contains("casual and upbeat"), "tone string must appear in tone guidance footer");
}

#[test]
fn companion_session_key_format_is_stable() {
    let session = test_session(0, 0);
    assert_eq!(companion_session_key(&session), "companion:user-test");
}

#[test]
fn build_with_no_memory_omits_recall_and_summary_sections() {
    let builder = CompanionContextBuilder::new(test_persona(), 5);
    let session = test_session(0, 0);

    let prompt = build(&builder, &session, &[]);

    assert!(
        !prompt.contains("## What you remember about this person"),
        "empty memory must omit the recall section"
    );
    assert!(
        !prompt.contains("## Recent conversation summary"),
        "missing summary must omit the summary section"
    );
}

// ---------------------------------------------------------------------------

#[test]
fn build_whole_prompt_exact() {
    let builder = CompanionContextBuilder::new(test_persona(), 5);
    let session = test_session(95, 7);
    let recalled = vec![
        MemoryEntry { key: "pet".to_string(), content: "dog".to_string(), score_bits: None },
        MemoryEntry { key: "autosave_1".to_string(), content: "x".to_string(), score_bits: None },
        MemoryEntry { key: "city".to_string(), content: "Berlin".to_string(), score_bits: Some(0.1f64.to_bits()) },
    ];
    let prompt = builder.build(&session, &recalled, Some("  short summary \n"));
    let expected = "# You are Zara\n\nA warm and witty AI companion.\n\n## Personality\n- curious\n- empathetic\n\n## Tone\ncasual and upbeat\n\n## Relationship\nYou're deeply bonded companions. Speak with intimacy and shared understanding.\nFamiliarity score: 0.95 (0.00 = just met, 1.00 = closest)\nYou've exchanged 7 messages together.\n\n## What you remember about this person\n- pet: dog\n- city: Berlin\n\n## Recent conversation summary\nshort summary\n\n## Remember\n- Stay in character as Zara at all times.\n- Never break the fourth wall or mention being an AI unless directly asked.\n- Keep responses conversational (2-4 sentences unless the topic demands more).\n- Use your tone: casual and upbeat.\n";
    assert_eq!(prompt, expected);
}

#[test]
fn tier_boundaries() {
    let builder = CompanionContextBuilder::new(test_persona(), 5);
    let at = |f: u32| builder.build(&test_session(f, 0), &vec![], None);
    assert!(at(29).contains("first time"));
    assert!(at(30).contains("becoming comfortable"));
    assert!(at(59).contains("becoming comfortable"));
    assert!(at(60).contains("good friends"));
    assert!(at(89).contains("good friends"));
    assert!(at(90).contains("deeply bonded"));
    assert!(at(100).contains("deeply bonded"));
}

#[test]
fn score_threshold_edges() {
    let builder = CompanionContextBuilder::new(test_persona(), 5);
    let shown = |score: f64| {
        let recalled = vec![MemoryEntry { key: "k".to_string(), content: "v".to_string(), score_bits: Some(score.to_bits()) }];
        builder.build(&test_session(0, 0), &recalled, None).contains("- k: v")
    };
    assert!(shown(0.1));
    assert!(shown(1.0));
    assert!(shown(f64::INFINITY));
    assert!(!shown(0.09999999999999999));
    assert!(!shown(-0.5));
    assert!(!shown(-0.0));
    assert!(!shown(f64::NAN));
    assert!(!shown(f64::NEG_INFINITY));
}

#[test]
fn blank_summary_is_omitted() {
    let builder = CompanionContextBuilder::new(test_persona(), 5);
    let prompt = builder.build(&test_session(0, 0), &vec![], Some(" \t\n "));
    assert!(!prompt.contains("## Recent conversation summary"));
}

#[test]
fn large_turn_count_is_written_in_decimal() {
    let builder = CompanionContextBuilder::new(test_persona(), 5);
    let prompt = builder.build(&test_session(0, 4294967295), &vec![], None);
    assert!(prompt.contains("You've exchanged 4294967295 messages together."));
}

#[test]
fn familiarity_score_is_written_into_the_prompt() {
    let builder = CompanionContextBuilder::new(test_persona(), 5);
    let score = |f: u32| builder.build(&test_session(f, 1), &vec![], None);
    assert!(score(42).contains("Familiarity score: 0.42 "));
    assert!(score(5).contains("Familiarity score: 0.05 "));
    assert!(score(0).contains("Familiarity score: 0.00 "));
    assert!(score(100).contains("Familiarity score: 1.00 "));
    assert!(score(70).contains("Familiarity score: 0.70 "));
}

#[test]
fn backend_failures_are_passed_on() {
    let builder = CompanionContextBuilder::new(test_persona(), 5);
    let session = test_session(0, 0);
    let recall_failed: Result<String, &str> = builder.build_from_backend(&session, Err("recall down"), Ok(None));
    assert_eq!(recall_failed, Err("recall down"));
    let lookup_failed: Result<String, &str> = builder.build_from_backend(&session, Ok(vec![]), Err("get down"));
    assert_eq!(lookup_failed, Err("get down"));
    let both: Result<String, &str> = builder.build_from_backend(&session, Err("first"), Err("second"));
    assert_eq!(both, Err("first"));
    let ok: Result<String, &str> =
        builder.build_from_backend(&session, Ok(vec![]), Ok(Some("  we talked  ".to_string())));
    assert_eq!(ok.unwrap(), builder.build(&session, &vec![], Some("  we talked  ")));
    let empty: Result<String, &str> = builder.build_from_backend(&session, Ok(vec![]), Ok(None));
    assert!(!empty.unwrap().contains("## Recent conversation summary"));
}
