//! The memory namespace of companion mode: which keys and session scopes
//! its entries are stored under, and what is written.
use vstd::prelude::*;

use crate::text::{concat2, concat3};

verus! {

/// `companion:`, the prefix of every companion session scope.
pub open spec fn scope_prefix() -> Seq<char> {
    "companion:"@
}

/// `companion_fact:`, the prefix of every stored user fact.
pub open spec fn fact_prefix() -> Seq<char> {
    "companion_fact:"@
}

/// `companion_summary:`, the prefix of every rolling summary.
pub open spec fn summary_prefix() -> Seq<char> {
    "companion_summary:"@
}

/// `companion:{user_id}`.
pub open spec fn session_scope_spec(user_id: Seq<char>) -> Seq<char> {
    scope_prefix() + user_id
}

/// `companion_fact:{user_id}:{fact_key}`.
pub open spec fn fact_key_spec(user_id: Seq<char>, fact_key: Seq<char>) -> Seq<char> {
    fact_prefix() + user_id + ":"@ + fact_key
}

/// `companion_summary:{user_id}`.
pub open spec fn summary_key_spec(user_id: Seq<char>) -> Seq<char> {
    summary_prefix() + user_id
}

/// Category under which an entry is stored.
#[derive(Debug, Clone, Copy, PartialEq, Eq)]
pub enum MemoryCategory {
    /// Long-lived facts about the user.
    Core,
    /// Conversation state such as the rolling summary.
    Conversation,
}

/// One entry to be stored in the memory backend.
#[derive(Debug)]
pub struct MemoryWrite {
    /// Key the entry is stored under.
    pub key: String,
    /// Stored text.
    pub content: String,
    /// Category of the entry.
    pub category: MemoryCategory,
    /// Session scope of the entry.
    pub session_scope: String,
}

/// The session scope of a user: `companion:{user_id}`.
pub fn session_scope(user_id: &str) -> (r: String)
    ensures
        r@ == session_scope_spec(user_id@),
{
    concat2("companion:", user_id)
}

/// The key of a remembered fact: `companion_fact:{user_id}:{fact_key}`.
pub fn fact_memory_key(user_id: &str, fact_key: &str) -> (r: String)
    ensures
        r@ == fact_key_spec(user_id@, fact_key@),
{
    let mut r = concat3("companion_fact:", user_id, ":");
    r.append(fact_key);
    r
}

/// The key of a user's rolling summary: `companion_summary:{user_id}`.
pub fn summary_memory_key(user_id: &str) -> (r: String)
    ensures
        r@ == summary_key_spec(user_id@),
{
    concat2("companion_summary:", user_id)
}

/// The write that stores `fact` about `user_id` under `fact_key`, as a core
/// memory in the user's companion scope.
pub fn fact_write(user_id: &str, fact_key: &str, fact: &str) -> (w: MemoryWrite)
    ensures
        w.key@ == fact_key_spec(user_id@, fact_key@),
        w.content@ == fact@,
        w.category == MemoryCategory::Core,
        w.session_scope@ == session_scope_spec(user_id@),
{
    MemoryWrite {
        key: fact_memory_key(user_id, fact_key),
        content: fact.to_owned(),
        category: MemoryCategory::Core,
        session_scope: session_scope(user_id),
    }
}

} // verus!
