//! The companion memory tools: remembering a fact, recalling context and
//! updating the rolling summary. Each tool checks its arguments, names the
//! memory operation to perform, and turns the operation's outcome into the
//! tool's result.
use vstd::prelude::*;

use crate::context::MemoryEntry;
use crate::namespace::{
    fact_key_spec, fact_write, session_scope, session_scope_spec, summary_key_spec, summary_memory_key,
    MemoryCategory, MemoryWrite,
};
use crate::text::{concat2, concat3, to_owned_string};

verus! {

/// Outcome of a tool call.
#[derive(Debug)]
pub struct ToolResult {
    /// Whether the call did what was asked.
    pub success: bool,
    /// Text handed back to the model.
    pub output: String,
    /// What went wrong, on failure.
    pub error: Option<String>,
}

/// A successful result with `output` and no error.
pub open spec fn is_success(r: ToolResult, output: Seq<char>) -> bool {
    &&& r.success
    &&& r.output@ == output
    &&& r.error is None
}

/// A failed result with empty output and error `error`.
pub open spec fn is_failure(r: ToolResult, error: Seq<char>) -> bool {
    &&& !r.success
    &&& r.output@ == Seq::<char>::empty()
    &&& r.error matches Some(e) && e@ == error
}

fn success(output: String) -> (r: ToolResult)
    ensures
        is_success(r, output@),
{
    ToolResult { success: true, output, error: None }
}

fn failure(error: String) -> (r: ToolResult)
    ensures
        is_failure(r, error@),
{
    ToolResult { success: false, output: String::new(), error: Some(error) }
}

/// What the security policy's ruling leaves of a planned memory operation.
#[derive(Debug)]
pub enum Authorized<T> {
    /// The policy refused: answer with this result and touch no memory.
    Denied(ToolResult),
    /// The policy allowed: perform the operation.
    Granted(T),
}

/// Applies the security policy's ruling to a planned operation: a refusal
/// becomes a failed result carrying the policy's message (and the operation
/// is dropped); an allowance hands the operation on unchanged.
pub fn authorize<T>(operation: T, ruling: Result<(), String>) -> (a: Authorized<T>)
    ensures
        ruling matches Err(e) ==> (a matches Authorized::Denied(r) && is_failure(r, e@)),
        ruling is Ok ==> a == Authorized::Granted(operation),
{
    match ruling {
        Ok(()) => Authorized::Granted(operation),
        Err(e) => Authorized::Denied(failure(e)),
    }
}

/// A required argument that the call did not supply as a string.
#[derive(Debug)]
pub struct MissingParameter {
    /// Name of the argument.
    pub name: String,
}

impl MissingParameter {
    /// `Missing '{name}' parameter`.
    pub fn message(&self) -> (m: String)
        ensures
            m@ == "Missing '"@ + self.name@ + "' parameter"@,
    {
        concat3("Missing '", self.name.as_str(), "' parameter")
    }
}

fn missing(name: &str) -> (e: MissingParameter)
    ensures
        e.name@ == name@,
{
    MissingParameter { name: name.to_owned() }
}

/// Kind of a tool argument.
#[derive(Debug, Clone, Copy, PartialEq, Eq)]
pub enum ParamType {
    /// A JSON string.
    String,
    /// A JSON integer.
    Integer,
}

/// One argument of a tool, as its schema describes it.
#[derive(Debug)]
pub struct ParamSpec {
    /// Argument name.
    pub name: String,
    /// Argument kind.
    pub param_type: ParamType,
    /// What the argument means.
    pub description: String,
    /// Value used when the argument is absent.
    pub default: Option<u64>,
}

/// The JSON-schema object that describes a tool's arguments.
#[derive(Debug)]
pub struct ToolSchema {
    /// The arguments, in order.
    pub properties: Vec<ParamSpec>,
    /// Names of the arguments that must be given.
    pub required: Vec<String>,
}

/// View of an argument description.
pub open spec fn param_view(p: ParamSpec) -> (Seq<char>, ParamType, Seq<char>, Option<u64>) {
    (p.name@, p.param_type, p.description@, p.default)
}

/// Views of a schema's arguments.
pub open spec fn properties_view(s: ToolSchema) -> Seq<(Seq<char>, ParamType, Seq<char>, Option<u64>)> {
    s.properties@.map_values(|p: ParamSpec| param_view(p))
}

/// Views of a schema's required names.
pub open spec fn required_view(s: ToolSchema) -> Seq<Seq<char>> {
    s.required@.map_values(|n: String| n@)
}

fn param(name: &str, param_type: ParamType, description: &str, default: Option<u64>) -> (p: ParamSpec)
    ensures
        param_view(p) == (name@, param_type, description@, default),
{
    ParamSpec { name: name.to_owned(), param_type, description: description.to_owned(), default }
}

/// The lines `- {key}: {content}\n` of all recalled memories, in order.
pub open spec fn recalled_lines(entries: Seq<MemoryEntry>) -> Seq<char>
    decreases entries.len(),
{
    if entries.len() == 0 {
        Seq::empty()
    } else {
        recalled_lines(entries.drop_last()) + "- "@ + entries.last().key@ + ": "@ + entries.last().content@ + "\n"@
    }
}

/// Remember something important about the user as their companion.
pub struct CompanionRememberFactTool<M, S> {
    memory: M,
    security: S,
}

impl<M, S> CompanionRememberFactTool<M, S> {
    /// A tool that stores into `memory` under the checks of `security`.
    pub fn new(memory: M, security: S) -> (t: Self)
        ensures
            t.memory() == memory,
            t.security() == security,
    {
        Self { memory, security }
    }

    /// The memory backend handle.
    pub closed spec fn memory(&self) -> M {
        self.memory
    }

    /// The security policy handle.
    pub closed spec fn security(&self) -> S {
        self.security
    }

    /// The memory backend handle.
    pub fn memory_handle(&self) -> (m: &M)
        ensures
            *m == self.memory(),
    {
        &self.memory
    }

    /// The security policy handle.
    pub fn security_handle(&self) -> (s: &S)
        ensures
            *s == self.security(),
    {
        &self.security
    }

    /// `companion_remember_fact`.
    pub fn name(&self) -> (n: &'static str)
        ensures
            n@ == "companion_remember_fact"@,
    {
        "companion_remember_fact"
    }

    /// What the tool does, for the model.
    pub fn description(&self) -> (d: &'static str)
        ensures
            d@ == "Remember something important about the user as their companion. Use this to save personal facts, preferences, or details they share. The companion will recall these in future conversations."@,
    {
        "Remember something important about the user as their companion. Use this to save personal facts, preferences, or details they share. The companion will recall these in future conversations."
    }

    /// Three required string arguments: `fact_key`, `fact`, `user_id`.
    pub fn parameters_schema(&self) -> (s: ToolSchema)
        ensures
            properties_view(s) == seq![
                ("fact_key"@, ParamType::String, "Short unique key for this fact (e.g. 'favorite_color', 'birthday', 'works_as')"@, None::<u64>),
                ("fact"@, ParamType::String, "What to remember about the user"@, None::<u64>),
                ("user_id"@, ParamType::String, "The user's identifier (sender ID from the channel)"@, None::<u64>),
            ],
            required_view(s) == seq!["fact_key"@, "fact"@, "user_id"@],
    {
        let properties = vec![
            param("fact_key", ParamType::String, "Short unique key for this fact (e.g. 'favorite_color', 'birthday', 'works_as')", None),
            param("fact", ParamType::String, "What to remember about the user", None),
            param("user_id", ParamType::String, "The user's identifier (sender ID from the channel)", None),
        ];
        let required = vec![to_owned_string("fact_key"), to_owned_string("fact"), to_owned_string("user_id")];
        let s = ToolSchema { properties, required };
        assert(properties_view(s) =~= seq![
            ("fact_key"@, ParamType::String, "Short unique key for this fact (e.g. 'favorite_color', 'birthday', 'works_as')"@, None::<u64>),
            ("fact"@, ParamType::String, "What to remember about the user"@, None::<u64>),
            ("user_id"@, ParamType::String, "The user's identifier (sender ID from the channel)"@, None::<u64>),
        ]);
        assert(required_view(s) =~= seq!["fact_key"@, "fact"@, "user_id"@]);
        s
    }

    /// Checks the arguments, in the order `fact_key`, `fact`, `user_id`, and
    /// names the write: the fact as a core memory under
    /// `companion_fact:{user_id}:{fact_key}` in the scope `companion:{user_id}`.
    pub fn prepare(&self, fact_key: Option<&str>, fact: Option<&str>, user_id: Option<&str>) -> (r: Result<MemoryWrite, MissingParameter>)
        ensures
            fact_key is None ==> (r matches Err(e) && e.name@ == "fact_key"@),
            fact_key is Some && fact is None ==> (r matches Err(e) && e.name@ == "fact"@),
            fact_key is Some && fact is Some && user_id is None ==> (r matches Err(e) && e.name@ == "user_id"@),
            fact_key is Some && fact is Some && user_id is Some ==> (r matches Ok(w) && {
                &&& w.key@ == fact_key_spec(user_id.unwrap()@, fact_key.unwrap()@)
                &&& w.content@ == fact.unwrap()@
                &&& w.category == MemoryCategory::Core
                &&& w.session_scope@ == session_scope_spec(user_id.unwrap()@)
            }),
    {
        let fact_key = match fact_key {
            Some(k) => k,
            None => return Err(missing("fact_key")),
        };
        let fact = match fact {
            Some(f) => f,
            None => return Err(missing("fact")),
        };
        let user_id = match user_id {
            Some(u) => u,
            None => return Err(missing("user_id")),
        };
        Ok(fact_write(user_id, fact_key, fact))
    }

    /// The result once the store has run: `Remembered: {fact_key} = {fact}`,
    /// or the failure `Failed to remember fact: {error}`.
    pub fn finish(&self, fact_key: &str, fact: &str, stored: Result<(), String>) -> (r: ToolResult)
        ensures
            stored is Ok ==> is_success(r, "Remembered: "@ + fact_key@ + " = "@ + fact@),
            stored matches Err(e) ==> is_failure(r, "Failed to remember fact: "@ + e@),
    {
        match stored {
            Ok(()) => {
                let mut out = concat3("Remembered: ", fact_key, " = ");
                out.append(fact);
                success(out)
            },
            Err(e) => failure(concat2("Failed to remember fact: ", e.as_str())),
        }
    }
}

/// What the recall tool asks of the memory backend.
#[derive(Debug)]
pub struct RecallRequest {
    /// Text to search for.
    pub query: String,
    /// Most memories to return.
    pub limit: usize,
    /// Session scope to search in.
    pub session_scope: String,
}

/// Search the companion's memory for facts relevant to the current topic.
pub struct CompanionRecallContextTool<M> {
    memory: M,
}

impl<M> CompanionRecallContextTool<M> {
    /// A tool that searches `memory`.
    pub fn new(memory: M) -> (t: Self)
        ensures
            t.memory() == memory,
    {
        Self { memory }
    }

    /// The memory backend handle.
    pub closed spec fn memory(&self) -> M {
        self.memory
    }

    /// The memory backend handle.
    pub fn memory_handle(&self) -> (m: &M)
        ensures
            *m == self.memory(),
    {
        &self.memory
    }

    /// `companion_recall_context`.
    pub fn name(&self) -> (n: &'static str)
        ensures
            n@ == "companion_recall_context"@,
    {
        "companion_recall_context"
    }

    /// What the tool does, for the model.
    pub fn description(&self) -> (d: &'static str)
        ensures
            d@ == "Search the companion's memory for facts and context about the user relevant to the current topic. Returns a formatted list of memories."@,
    {
        "Search the companion's memory for facts and context about the user relevant to the current topic. Returns a formatted list of memories."
    }

    /// Required string arguments `query` and `user_id`, and an optional
    /// integer `limit` that defaults to 5.
    pub fn parameters_schema(&self) -> (s: ToolSchema)
        ensures
            properties_view(s) == seq![
                ("query"@, ParamType::String, "What to search for in memory"@, None::<u64>),
                ("user_id"@, ParamType::String, "The user's identifier"@, None::<u64>),
                ("limit"@, ParamType::Integer, "Max memories to return (default: 5)"@, Some(5u64)),
            ],
            required_view(s) == seq!["query"@, "user_id"@],
    {
        let properties = vec![
            param("query", ParamType::String, "What to search for in memory", None),
            param("user_id", ParamType::String, "The user's identifier", None),
            param("limit", ParamType::Integer, "Max memories to return (default: 5)", Some(5)),
        ];
        let required = vec![to_owned_string("query"), to_owned_string("user_id")];
        let s = ToolSchema { properties, required };
        assert(properties_view(s) =~= seq![
            ("query"@, ParamType::String, "What to search for in memory"@, None::<u64>),
            ("user_id"@, ParamType::String, "The user's identifier"@, None::<u64>),
            ("limit"@, ParamType::Integer, "Max memories to return (default: 5)"@, Some(5u64)),
        ]);
        assert(required_view(s) =~= seq!["query"@, "user_id"@]);
        s
    }

    /// Checks the arguments, in the order `query`, `user_id`, and names the
    /// search: `query` in the scope `companion:{user_id}`, returning at most
    /// `limit` memories (5 when absent; `limit` taken as a `usize`).
    pub fn prepare(&self, query: Option<&str>, user_id: Option<&str>, limit: Option<u64>) -> (r: Result<RecallRequest, MissingParameter>)
        ensures
            query is None ==> (r matches Err(e) && e.name@ == "query"@),
            query is Some && user_id is None ==> (r matches Err(e) && e.name@ == "user_id"@),
            query is Some && user_id is Some ==> (r matches Ok(q) && {
                &&& q.query@ == query.unwrap()@
                &&& q.session_scope@ == session_scope_spec(user_id.unwrap()@)
                &&& q.limit == match limit { Some(v) => v as usize, None => 5usize }
            }),
    {
        let query = match query {
            Some(q) => q,
            None => return Err(missing("query")),
        };
        let user_id = match user_id {
            Some(u) => u,
            None => return Err(missing("user_id")),
        };
        let limit: usize = match limit {
            Some(v) => v as usize,
            None => 5,
        };
        Ok(RecallRequest { query: query.to_owned(), limit, session_scope: session_scope(user_id) })
    }

    /// The result once the search has run: `No relevant memories found.` when
    /// nothing came back, else `Recalled memories:\n` and a line
    /// `- {key}: {content}` per memory; or the failure
    /// `Memory recall failed: {error}`.
    pub fn finish(&self, recalled: Result<Vec<MemoryEntry>, String>) -> (r: ToolResult)
        ensures
            recalled matches Ok(es) ==> if es@.len() == 0 {
                is_success(r, "No relevant memories found."@)
            } else {
                is_success(r, "Recalled memories:\n"@ + recalled_lines(es@))
            },
            recalled matches Err(e) ==> is_failure(r, "Memory recall failed: "@ + e@),
    {
        match recalled {
            Ok(entries) => {
                if entries.len() == 0 {
                    return success(to_owned_string("No relevant memories found."));
                }
                let mut out = to_owned_string("Recalled memories:\n");
                let ghost head = out@;
                let mut i: usize = 0;
                while i < entries.len()
                    invariant
                        i <= entries@.len(),
                        out@ == head + recalled_lines(entries@.take(i as int)),
                    decreases entries.len() - i,
                {
                    assert(entries@.take(i + 1).drop_last() =~= entries@.take(i as int));
                    out.append("- ");
                    out.append(entries[i].key.as_str());
                    out.append(": ");
                    out.append(entries[i].content.as_str());
                    out.append("\n");
                    i = i + 1;
                }
                assert(entries@.take(entries.len() as int) =~= entries@);
                success(out)
            },
            Err(e) => failure(concat2("Memory recall failed: ", e.as_str())),
        }
    }
}

/// One operation on the memory backend.
#[derive(Debug)]
pub enum MemoryOp {
    /// Remove the entry under this key, if there is one.
    Forget(String),
    /// Store this entry.
    Store(MemoryWrite),
}

/// What the summary tool asks of the memory backend, in order: drop the old
/// summary, then store the new one. Whether the drop found anything (or
/// failed) does not matter; the tool's result follows the store alone.
#[derive(Debug)]
pub struct SummaryUpdate {
    /// The operations, to be performed in this order.
    pub ops: Vec<MemoryOp>,
}

/// Update the rolling conversation summary for a companion session.
pub struct CompanionUpdateSummaryTool<M, S> {
    memory: M,
    security: S,
}

impl<M, S> CompanionUpdateSummaryTool<M, S> {
    /// A tool that stores into `memory` under the checks of `security`.
    pub fn new(memory: M, security: S) -> (t: Self)
        ensures
            t.memory() == memory,
            t.security() == security,
    {
        Self { memory, security }
    }

    /// The memory backend handle.
    pub closed spec fn memory(&self) -> M {
        self.memory
    }

    /// The security policy handle.
    pub closed spec fn security(&self) -> S {
        self.security
    }

    /// The memory backend handle.
    pub fn memory_handle(&self) -> (m: &M)
        ensures
            *m == self.memory(),
    {
        &self.memory
    }

    /// The security policy handle.
    pub fn security_handle(&self) -> (s: &S)
        ensures
            *s == self.security(),
    {
        &self.security
    }

    /// `companion_update_summary`.
    pub fn name(&self) -> (n: &'static str)
        ensures
            n@ == "companion_update_summary"@,
    {
        "companion_update_summary"
    }

    /// What the tool does, for the model.
    pub fn description(&self) -> (d: &'static str)
        ensures
            d@ == "Update the rolling conversation summary that the companion uses to maintain context across turns. Call this periodically to preserve important context."@,
    {
        "Update the rolling conversation summary that the companion uses to maintain context across turns. Call this periodically to preserve important context."
    }

    /// Two required string arguments: `summary` and `user_id`.
    pub fn parameters_schema(&self) -> (s: ToolSchema)
        ensures
            properties_view(s) == seq![
                ("summary"@, ParamType::String, "Concise summary of the conversation so far (bullet points preferred)"@, None::<u64>),
                ("user_id"@, ParamType::String, "The user's identifier"@, None::<u64>),
            ],
            required_view(s) == seq!["summary"@, "user_id"@],
    {
        let properties = vec![
            param("summary", ParamType::String, "Concise summary of the conversation so far (bullet points preferred)", None),
            param("user_id", ParamType::String, "The user's identifier", None),
        ];
        let required = vec![to_owned_string("summary"), to_owned_string("user_id")];
        let s = ToolSchema { properties, required };
        assert(properties_view(s) =~= seq![
            ("summary"@, ParamType::String, "Concise summary of the conversation so far (bullet points preferred)"@, None::<u64>),
            ("user_id"@, ParamType::String, "The user's identifier"@, None::<u64>),
        ]);
        assert(required_view(s) =~= seq!["summary"@, "user_id"@]);
        s
    }

    /// Checks the arguments, in the order `summary`, `user_id`, and names the
    /// update: drop `companion_summary:{user_id}`, then store the summary
    /// there as a conversation memory in the scope `companion:{user_id}`.
    pub fn prepare(&self, summary: Option<&str>, user_id: Option<&str>) -> (r: Result<SummaryUpdate, MissingParameter>)
        ensures
            summary is None ==> (r matches Err(e) && e.name@ == "summary"@),
            summary is Some && user_id is None ==> (r matches Err(e) && e.name@ == "user_id"@),
            summary is Some && user_id is Some ==> (r matches Ok(u) && {
                &&& u.ops@.len() == 2
                &&& u.ops@[0] matches MemoryOp::Forget(k) && k@ == summary_key_spec(user_id.unwrap()@)
                &&& u.ops@[1] matches MemoryOp::Store(w) && {
                    &&& w.key@ == summary_key_spec(user_id.unwrap()@)
                    &&& w.content@ == summary.unwrap()@
                    &&& w.category == MemoryCategory::Conversation
                    &&& w.session_scope@ == session_scope_spec(user_id.unwrap()@)
                }
            }),
    {
        let summary = match summary {
            Some(s) => s,
            None => return Err(missing("summary")),
        };
        let user_id = match user_id {
            Some(u) => u,
            None => return Err(missing("user_id")),
        };
        let forget = MemoryOp::Forget(summary_memory_key(user_id));
        let store = MemoryOp::Store(MemoryWrite {
            key: summary_memory_key(user_id),
            content: summary.to_owned(),
            category: MemoryCategory::Conversation,
            session_scope: session_scope(user_id),
        });
        Ok(SummaryUpdate { ops: vec![forget, store] })
    }

    /// The result once the operations have run, from the outcome of the
    /// store: `Companion summary updated.`, or the failure
    /// `Failed to update summary: {error}`.
    pub fn finish(&self, stored: Result<(), String>) -> (r: ToolResult)
        ensures
            stored is Ok ==> is_success(r, "Companion summary updated."@),
            stored matches Err(e) ==> is_failure(r, "Failed to update summary: "@ + e@),
    {
        match stored {
            Ok(()) => success(to_owned_string("Companion summary updated.")),
            Err(e) => failure(concat2("Failed to update summary: ", e.as_str())),
        }
    }
}

} // verus!
