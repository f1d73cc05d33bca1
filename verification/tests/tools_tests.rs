use companion::context::{companion_session_key, CompanionContextBuilder, MemoryEntry};
use companion::mode::{CompanionSession, PersonaConfig};
use companion::namespace::summary_memory_key;
use companion::namespace::{MemoryCategory, MemoryWrite};
use companion::tools::{
    authorize, Authorized, MemoryOp, CompanionRecallContextTool, CompanionRememberFactTool, CompanionUpdateSummaryTool, ParamType,
    ToolResult,
};
use std::cell::RefCell;

/// A tiny in-process backend standing in for the memory store.
#[derive(Default)]
struct TestMemory {
    entries: RefCell<Vec<(String, String, MemoryCategory, String)>>,
}

impl TestMemory {
    fn store(&self, w: &MemoryWrite) -> Result<(), String> {
        let mut entries = self.entries.borrow_mut();
        entries.retain(|e| e.0 != w.key);
        entries.push((w.key.clone(), w.content.clone(), w.category, w.session_scope.clone()));
        Ok(())
    }
    fn forget(&self, key: &str) -> bool {
        let mut entries = self.entries.borrow_mut();
        let before = entries.len();
        entries.retain(|e| e.0 != key);
        entries.len() != before
    }
    fn get(&self, key: &str) -> Option<String> {
        self.entries.borrow().iter().find(|e| e.0 == key).map(|e| e.1.clone())
    }
    fn recall(&self, _query: &str, limit: usize, scope: &str) -> Vec<MemoryEntry> {
        self.entries
            .borrow()
            .iter()
            .filter(|e| e.3 == scope)
            .take(limit)
            .map(|e| MemoryEntry { key: e.0.clone(), content: e.1.clone(), score_bits: None })
            .collect()
    }
}

/// Stand-in for the security policy: read-only refuses acting tools.
fn policy(read_only: bool, tool: &str) -> Result<(), String> {
    if read_only {
        Err(format!("Security policy: read-only mode, cannot perform '{tool}'"))
    } else {
        Ok(())
    }
}

fn remember(
    tool: &CompanionRememberFactTool<(), bool>,
    mem: &TestMemory,
    fact_key: Option<&str>,
    fact: Option<&str>,
    user_id: Option<&str>,
) -> Result<ToolResult, String> {
    let write = tool.prepare(fact_key, fact, user_id).map_err(|e| e.message())?;
    let write = match authorize(write, policy(*tool.security_handle(), tool.name())) {
        Authorized::Denied(result) => return Ok(result),
        Authorized::Granted(w) => w,
    };
    let stored = mem.store(&write);
    Ok(tool.finish(fact_key.unwrap(), fact.unwrap(), stored))
}

fn recall(
    tool: &CompanionRecallContextTool<()>,
    mem: &TestMemory,
    query: Option<&str>,
    user_id: Option<&str>,
    limit: Option<u64>,
) -> Result<ToolResult, String> {
    let req = tool.prepare(query, user_id, limit).map_err(|e| e.message())?;
    Ok(tool.finish(Ok(mem.recall(&req.query, req.limit, &req.session_scope))))
}

fn update(
    tool: &CompanionUpdateSummaryTool<(), bool>,
    mem: &TestMemory,
    summary: Option<&str>,
    user_id: Option<&str>,
) -> Result<ToolResult, String> {
    let upd = tool.prepare(summary, user_id).map_err(|e| e.message())?;
    let upd = match authorize(upd, policy(*tool.security_handle(), tool.name())) {
        Authorized::Denied(result) => return Ok(result),
        Authorized::Granted(u) => u,
    };
    let mut stored = Ok(());
    for op in &upd.ops {
        match op {
            MemoryOp::Forget(key) => {
                let _ = mem.forget(key);
            }
            MemoryOp::Store(w) => stored = mem.store(w),
        }
    }
    Ok(tool.finish(stored))
}

#[test]
fn remember_fact_stores_and_returns_success() {
    let mem = TestMemory::default();
    let tool = CompanionRememberFactTool::new((), false);

    let result = remember(&tool, &mem, Some("favorite_color"), Some("blue"), Some("user42")).unwrap();

    assert!(result.success, "expected success, got: {:?}", result.error);
    assert!(result.output.contains("favorite_color"));
    assert!(result.output.contains("blue"));

    let entry = mem.get("companion_fact:user42:favorite_color");
    assert!(entry.is_some(), "memory entry should have been stored");
    assert_eq!(entry.unwrap(), "blue");
}

#[test]
fn remember_fact_missing_fact_key_returns_error() {
    let mem = TestMemory::default();
    let tool = CompanionRememberFactTool::new((), false);
    let result = remember(&tool, &mem, None, Some("blue"), Some("user42"));
    assert!(result.is_err());
}

#[test]
fn remember_fact_missing_fact_returns_error() {
    let mem = TestMemory::default();
    let tool = CompanionRememberFactTool::new((), false);
    let result = remember(&tool, &mem, Some("favorite_color"), None, Some("user42"));
    assert!(result.is_err());
}

#[test]
fn remember_fact_missing_user_id_returns_error() {
    let mem = TestMemory::default();
    let tool = CompanionRememberFactTool::new((), false);
    let result = remember(&tool, &mem, Some("favorite_color"), Some("blue"), None);
    assert!(result.is_err());
}

#[test]
fn recall_context_returns_no_relevant_memories_when_empty() {
    let mem = TestMemory::default();
    let tool = CompanionRecallContextTool::new(());

    let result = recall(&tool, &mem, Some("anything"), Some("user42"), None).unwrap();

    assert!(result.success);
    assert_eq!(result.output, "No relevant memories found.");
}

#[test]
fn recall_context_returns_formatted_list_when_memories_exist() {
    let mem = TestMemory::default();
    mem.store(&MemoryWrite {
        key: "companion_fact:user42:hobby".to_string(),
        content: "loves hiking".to_string(),
        category: MemoryCategory::Core,
        session_scope: "companion:user42".to_string(),
    })
    .unwrap();

    let tool = CompanionRecallContextTool::new(());
    let result = recall(&tool, &mem, Some("hiking"), Some("user42"), None).unwrap();

    assert!(result.success, "expected success, got: {:?}", result.error);
    assert!(result.output.starts_with("Recalled memories:"), "unexpected output: {}", result.output);
    assert!(result.output.contains("loves hiking"));
}

#[test]
fn recall_context_respects_limit() {
    let mem = TestMemory::default();
    for i in 0..8_u32 {
        mem.store(&MemoryWrite {
            key: format!("companion_fact:user42:item{i}"),
            content: format!("fact about hiking {i}"),
            category: MemoryCategory::Core,
            session_scope: "companion:user42".to_string(),
        })
        .unwrap();
    }

    let tool = CompanionRecallContextTool::new(());
    let result = recall(&tool, &mem, Some("hiking"), Some("user42"), Some(3)).unwrap();

    assert!(result.success);
    let bullet_count = result.output.matches("\n- ").count();
    assert!(bullet_count <= 3, "expected at most 3 results, got {bullet_count}");
}

#[test]
fn recall_context_missing_query_returns_error() {
    let mem = TestMemory::default();
    let tool = CompanionRecallContextTool::new(());
    let result = recall(&tool, &mem, None, Some("user42"), None);
    assert!(result.is_err());
}

#[test]
fn recall_context_missing_user_id_returns_error() {
    let mem = TestMemory::default();
    let tool = CompanionRecallContextTool::new(());
    let result = recall(&tool, &mem, Some("anything"), None, None);
    assert!(result.is_err());
}

#[test]
fn update_summary_stores_new_and_forgets_old() {
    let mem = TestMemory::default();
    mem.store(&MemoryWrite {
        key: "companion_summary:user42".to_string(),
        content: "old summary text".to_string(),
        category: MemoryCategory::Conversation,
        session_scope: "companion:user42".to_string(),
    })
    .unwrap();

    let tool = CompanionUpdateSummaryTool::new((), false);
    let result = update(&tool, &mem, Some("new summary text"), Some("user42")).unwrap();

    assert!(result.success, "expected success, got: {:?}", result.error);
    assert_eq!(result.output, "Companion summary updated.");

    let entry = mem.get("companion_summary:user42");
    assert!(entry.is_some(), "summary should have been stored");
    assert_eq!(entry.unwrap(), "new summary text");
}

#[test]
fn update_summary_works_when_no_prior_summary_exists() {
    let mem = TestMemory::default();
    let tool = CompanionUpdateSummaryTool::new((), false);

    let result = update(&tool, &mem, Some("first summary"), Some("user99")).unwrap();

    assert!(result.success);
    assert_eq!(result.output, "Companion summary updated.");

    let entry = mem.get("companion_summary:user99");
    assert_eq!(entry.unwrap(), "first summary");
}

#[test]
fn update_summary_missing_summary_returns_error() {
    let mem = TestMemory::default();
    let tool = CompanionUpdateSummaryTool::new((), false);
    let result = update(&tool, &mem, None, Some("user42"));
    assert!(result.is_err());
}

#[test]
fn update_summary_missing_user_id_returns_error() {
    let mem = TestMemory::default();
    let tool = CompanionUpdateSummaryTool::new((), false);
    let result = update(&tool, &mem, Some("some summary"), None);
    assert!(result.is_err());
}

#[test]
fn remember_fact_blocked_in_readonly_mode() {
    let mem = TestMemory::default();
    let tool = CompanionRememberFactTool::new((), true);

    let result = remember(&tool, &mem, Some("favorite_color"), Some("red"), Some("user42")).unwrap();

    assert!(!result.success);
    assert!(
        result.error.as_deref().unwrap_or("").contains("read-only mode"),
        "expected read-only error, got: {:?}",
        result.error
    );
    assert!(mem.get("companion_fact:user42:favorite_color").is_none(), "nothing should have been stored");
}

#[test]
fn update_summary_blocked_in_readonly_mode() {
    let mem = TestMemory::default();
    let tool = CompanionUpdateSummaryTool::new((), true);

    let result = update(&tool, &mem, Some("some summary"), Some("user42")).unwrap();

    assert!(!result.success);
    assert!(
        result.error.as_deref().unwrap_or("").contains("read-only mode"),
        "expected read-only error, got: {:?}",
        result.error
    );
    assert!(mem.get("companion_summary:user42").is_none(), "nothing should have been stored");
}

#[test]
fn tool_names_and_schemas() {
    let remember = CompanionRememberFactTool::new((), false);
    assert_eq!(remember.name(), "companion_remember_fact");
    let schema = remember.parameters_schema();
    let names: Vec<&str> = schema.properties.iter().map(|p| p.name.as_str()).collect();
    assert!(names.contains(&"fact_key"));
    assert!(names.contains(&"fact"));
    assert!(names.contains(&"user_id"));

    let recall = CompanionRecallContextTool::new(());
    assert_eq!(recall.name(), "companion_recall_context");
    let schema = recall.parameters_schema();
    let names: Vec<&str> = schema.properties.iter().map(|p| p.name.as_str()).collect();
    assert!(names.contains(&"query"));
    assert!(names.contains(&"user_id"));

    let update = CompanionUpdateSummaryTool::new((), false);
    assert_eq!(update.name(), "companion_update_summary");
    let schema = update.parameters_schema();
    let names: Vec<&str> = schema.properties.iter().map(|p| p.name.as_str()).collect();
    assert!(names.contains(&"summary"));
    assert!(names.contains(&"user_id"));
}

// ---------------------------------------------------------------------------

#[test]
fn missing_parameter_messages() {
    let tool = CompanionRememberFactTool::new((), false);
    let err = tool.prepare(Some("k"), None, None).unwrap_err();
    assert_eq!(err.message(), "Missing 'fact' parameter");
    let tool = CompanionUpdateSummaryTool::new((), false);
    let err = tool.prepare(None, None).unwrap_err();
    assert_eq!(err.message(), "Missing 'summary' parameter");
}

#[test]
fn recall_limit_defaults_to_five() {
    let tool = CompanionRecallContextTool::new(());
    assert_eq!(tool.prepare(Some("q"), Some("u"), None).unwrap().limit, 5);
    assert_eq!(tool.prepare(Some("q"), Some("u"), Some(12)).unwrap().limit, 12);
    let req = tool.prepare(Some("q"), Some("u"), None).unwrap();
    assert_eq!(req.session_scope, "companion:u");
    assert_eq!(req.query, "q");
}

#[test]
fn store_failures_are_reported() {
    let r = CompanionRememberFactTool::new((), false).finish("k", "v", Err("disk full".to_string()));
    assert!(!r.success);
    assert_eq!(r.output, "");
    assert_eq!(r.error.as_deref(), Some("Failed to remember fact: disk full"));
    let r = CompanionRecallContextTool::new(()).finish(Err("offline".to_string()));
    assert_eq!(r.error.as_deref(), Some("Memory recall failed: offline"));
    let r = CompanionUpdateSummaryTool::new((), false).finish(Err("locked".to_string()));
    assert_eq!(r.error.as_deref(), Some("Failed to update summary: locked"));
    let ok = CompanionRememberFactTool::new((), false).finish("color", "blue", Ok(()));
    assert_eq!(ok.output, "Remembered: color = blue");
    assert!(ok.error.is_none());
}

#[test]
fn recall_output_lists_every_entry() {
    let entries = vec![
        MemoryEntry { key: "a".to_string(), content: "1".to_string(), score_bits: None },
        MemoryEntry { key: "b".to_string(), content: "2".to_string(), score_bits: Some(0.01f64.to_bits()) },
    ];
    let r = CompanionRecallContextTool::new(()).finish(Ok(entries));
    assert_eq!(r.output, "Recalled memories:\n- a: 1\n- b: 2\n");
}

#[test]
fn schemas_mark_required_arguments() {
    let s = CompanionRecallContextTool::new(()).parameters_schema();
    assert_eq!(s.required, vec!["query".to_string(), "user_id".to_string()]);
    let limit = s.properties.iter().find(|p| p.name == "limit").unwrap();
    assert_eq!(limit.param_type, ParamType::Integer);
    assert_eq!(limit.default, Some(5));
    let s = CompanionRememberFactTool::new((), false).parameters_schema();
    assert_eq!(s.required.len(), 3);
    let s = CompanionUpdateSummaryTool::new((), false).parameters_schema();
    assert_eq!(s.required, vec!["summary".to_string(), "user_id".to_string()]);
}

#[test]
fn summary_update_targets_summary_key() {
    let upd = CompanionUpdateSummaryTool::new((), false).prepare(Some("s"), Some("u7")).unwrap();
    assert_eq!(upd.ops.len(), 2);
    match &upd.ops[0] {
        MemoryOp::Forget(key) => assert_eq!(key, "companion_summary:u7"),
        MemoryOp::Store(_) => panic!("the old summary is dropped first"),
    }
    match &upd.ops[1] {
        MemoryOp::Store(w) => {
            assert_eq!(w.key, "companion_summary:u7");
            assert_eq!(w.content, "s");
            assert_eq!(w.category, MemoryCategory::Conversation);
            assert_eq!(w.session_scope, "companion:u7");
        }
        MemoryOp::Forget(_) => panic!("the new summary is stored second"),
    }
}

#[test]
fn refusal_drops_the_operation() {
    match authorize(7_u32, Err("read-only mode".to_string())) {
        Authorized::Denied(r) => {
            assert!(!r.success);
            assert_eq!(r.output, "");
            assert_eq!(r.error.as_deref(), Some("read-only mode"));
        }
        Authorized::Granted(_) => panic!("refused operation must not be granted"),
    }
    assert!(matches!(authorize(7_u32, Ok(())), Authorized::Granted(7)));
}

#[test]
fn remembered_fact_and_summary_reach_the_prompt() {
    let mem = TestMemory::default();
    let remember_tool = CompanionRememberFactTool::new((), false);
    let update_tool = CompanionUpdateSummaryTool::new((), false);
    remember(&remember_tool, &mem, Some("pet"), Some("has a dog named Biscuit"), Some("u1")).unwrap();
    update(&update_tool, &mem, Some("talked about walks"), Some("u1")).unwrap();

    let session = CompanionSession {
        user_id: "u1".to_string(),
        persona_name: "Zara".to_string(),
        turn_count: 3,
        familiarity_score: 3,
    };
    let builder = CompanionContextBuilder::new(
        PersonaConfig {
            name: "Zara".to_string(),
            description: "d".to_string(),
            personality_traits: vec![],
            tone: "calm".to_string(),
            greeting: "hi".to_string(),
            channel_affinity: vec![],
        },
        5,
    );
    let recalled = mem.recall("dog", builder.memory_recall_k, &companion_session_key(&session));
    assert_eq!(recalled.len(), 2);
    let summary = mem.get(&summary_memory_key(&session.user_id));
    let prompt = builder.build(&session, &recalled, summary.as_deref());

    assert!(prompt.contains("## What you remember about this person\n- companion_fact:u1:pet: has a dog named Biscuit\n"));
    assert!(prompt.contains("## Recent conversation summary\ntalked about walks\n"));
    assert!(!prompt.contains("- companion_summary:u1"));
}
