//! Passive fact harvesting: the extraction prompt sent after each turn, the
//! tolerant reading of the model's reply as a list of `(key, fact)` pairs, and
//! the memory writes that store those facts.
use vstd::prelude::*;

use crate::namespace::{fact_write, fact_key_spec, session_scope_spec, MemoryCategory, MemoryWrite};
use crate::text::{chars_of, concat3, find_char, first_index_of, has_char, last_index_of, rfind_char, seq_ends_with, starts_with, str_starts_with, trim, trim_end_matches, trim_str};

verus! {

/// `serde_json::Error`, the error of `serde_json::from_str`, carried opaque
/// in `FactParseError::InvalidJson`.
#[verifier::external_type_specification]
#[verifier::external_body]
pub struct ExJsonError(serde_json::Error);

/// What the reader takes from one element of the model's JSON array: the
/// string value of its key member and of its fact member, where the element
/// is an object holding a string there.
#[derive(Debug)]
pub struct JsonFactItem {
    /// String value of the element's `"key"` member.
    pub key: Option<String>,
    /// String value of the element's `"fact"` member.
    pub fact: Option<String>,
}

/// View of an optional string.
pub open spec fn opt_view(o: Option<String>) -> Option<Seq<char>> {
    match o {
        Some(s) => Some(s@),
        None => None,
    }
}

impl View for JsonFactItem {
    type V = (Option<Seq<char>>, Option<Seq<char>>);

    open spec fn view(&self) -> (Option<Seq<char>>, Option<Seq<char>>) {
        (opt_view(self.key), opt_view(self.fact))
    }
}

/// Views of a list of items.
pub open spec fn items_view(items: Seq<JsonFactItem>) -> Seq<(Option<Seq<char>>, Option<Seq<char>>)> {
    items.map_values(|i: JsonFactItem| i@)
}

/// Views of a list of string pairs.
pub open spec fn pairs_view(v: Seq<(String, String)>) -> Seq<(Seq<char>, Seq<char>)> {
    v.map_values(|p: (String, String)| (p.0@, p.1@))
}

/// What `serde_json::from_str::<serde_json::Value>` makes of `text`, read as
/// fact items by the member names `key_name` and `fact_name`: `None` where the
/// text is not JSON, `Some(None)` where it is JSON but not an array,
/// `Some(Some(items))` for an array, each item holding the string value of
/// the element's `key_name` and `fact_name` members.
pub uninterp spec fn json_fact_items(text: Seq<char>, key_name: Seq<char>, fact_name: Seq<char>) -> Option<Option<Seq<(Option<Seq<char>>, Option<Seq<char>>)>>>;

/// Parses `text` with `serde_json::from_str` into a `serde_json::Value` and,
/// where that is an array, reads each element's `key_name` and `fact_name`
/// members with `Value::get` and `Value::as_str`. The contract claims only
/// that the outcome is the one that `json_fact_items` names for these
/// arguments; the parse itself is serde_json's and is not restated.
#[verifier::external_body]
fn read_json_fact_items(text: &str, key_name: &str, fact_name: &str) -> (r: Result<Option<Vec<JsonFactItem>>, serde_json::Error>)
    ensures
        match r {
            Err(_) => json_fact_items(text@, key_name@, fact_name@) is None,
            Ok(None) => json_fact_items(text@, key_name@, fact_name@) == Some(None::<Seq<(Option<Seq<char>>, Option<Seq<char>>)>>),
            Ok(Some(items)) => json_fact_items(text@, key_name@, fact_name@) == Some(Some(items_view(items@))),
        },
{
    match serde_json::from_str::<serde_json::Value>(text) {
        Err(e) => Err(e),
        Ok(value) => Ok(value.as_array().map(|items| items.iter().map(|item| JsonFactItem {
            key: item.get(key_name).and_then(serde_json::Value::as_str).map(str::to_string),
            fact: item.get(fact_name).and_then(serde_json::Value::as_str).map(str::to_string),
        }).collect())),
    }
}

/// Why a reply could not be read as a fact list.
#[derive(Debug)]
pub enum FactParseError {
    /// No `[` in the reply.
    NoArray,
    /// A `[` but no `]` in the reply, or only `]`s that end before the
    /// first `[` (not counting one directly before it).
    UnclosedArray,
    /// The bracketed text is not JSON.
    InvalidJson(serde_json::Error),
    /// The bracketed text is JSON but not an array.
    NotAnArray,
}

/// The trimmed text of an optional member; a missing member reads as empty.
pub open spec fn field_text(f: Option<Seq<char>>) -> Seq<char> {
    match f {
        Some(s) => trim(s),
        None => Seq::empty(),
    }
}

/// The fact one item contributes: its trimmed key and fact, when both are non-empty.
pub open spec fn item_fact(item: (Option<Seq<char>>, Option<Seq<char>>)) -> Seq<(Seq<char>, Seq<char>)> {
    let k = field_text(item.0);
    let f = field_text(item.1);
    if k.len() > 0 && f.len() > 0 {
        seq![(k, f)]
    } else {
        seq![]
    }
}

/// The facts of a list of items, in order.
pub open spec fn facts_of_items(items: Seq<(Option<Seq<char>>, Option<Seq<char>>)>) -> Seq<(Seq<char>, Seq<char>)>
    decreases items.len(),
{
    if items.len() == 0 {
        seq![]
    } else {
        facts_of_items(items.drop_last()) + item_fact(items.last())
    }
}

/// The reply with surrounding white space and Markdown code fences removed:
/// an opening fence of three backquotes (optionally tagged `json`), all
/// trailing closing fences, and the white space inside them.
pub open spec fn strip_fences(raw: Seq<char>) -> Seq<char> {
    let t = trim(raw);
    if starts_with(t, "```json"@) {
        trim(trim_end_matches(t.skip("```json"@.len() as int), "```"@))
    } else if starts_with(t, "```"@) {
        trim(trim_end_matches(t.skip("```"@.len() as int), "```"@))
    } else {
        t
    }
}

/// The stripped reply has a `[`, and a `]` that is not more than one place
/// before the first `[`: the array text can be cut out.
pub open spec fn brackets_usable(s: Seq<char>) -> bool {
    has_char(s, '[') && has_char(s, ']') && first_index_of(s, '[') <= last_index_of(s, ']') + 1
}

/// The text from the first `[` to the last `]` of the stripped reply.
pub open spec fn json_text(raw: Seq<char>) -> Seq<char> {
    let s = strip_fences(raw);
    s.subrange(first_index_of(s, '['), last_index_of(s, ']') + 1)
}

/// Removes trailing closing fences from `u`, then the white space around it.
fn strip_closing_fences(u: &str) -> (r: &str)
    ensures
        r@ == trim(trim_end_matches(u@, "```"@)),
{
    let cs = chars_of(u);
    let fence = chars_of("```");
    let mut n: usize = cs.len();
    assert(cs@.take(n as int) =~= u@);
    while fence.len() > 0 && seq_ends_with(&cs, n, &fence)
        invariant
            cs@ == u@,
            fence@ == "```"@,
            n <= cs.len(),
            trim_end_matches(cs@.take(n as int), fence@) == trim_end_matches(u@, fence@),
        decreases n,
    {
        assert(cs@.take(n as int).subrange(0, n - fence@.len()) =~= cs@.take(n - fence@.len()));
        n = n - fence.len();
    }
    assert(u@ =~= cs@.take(cs.len() as int));
    let head = u.substring_char(0, n);
    assert(head@ =~= cs@.take(n as int));
    trim_str(head)
}

/// The reply with surrounding white space and code fences removed.
pub fn strip_code_fences(raw: &str) -> (r: &str)
    ensures
        r@ == strip_fences(raw@),
{
    let t = trim_str(raw);
    if str_starts_with(t, "```json") {
        let l = "```json".unicode_len();
        let body = t.substring_char(l, t.unicode_len());
        assert(body@ =~= t@.skip("```json"@.len() as int));
        strip_closing_fences(body)
    } else if str_starts_with(t, "```") {
        let l = "```".unicode_len();
        let body = t.substring_char(l, t.unicode_len());
        assert(body@ =~= t@.skip("```"@.len() as int));
        strip_closing_fences(body)
    } else {
        t
    }
}

/// The facts of the items, in order: each item's key and fact trimmed, and
/// the item skipped where either is missing or empty after trimming.
pub fn facts_from_items(items: &Vec<JsonFactItem>) -> (facts: Vec<(String, String)>)
    ensures
        pairs_view(facts@) == facts_of_items(items_view(items@)),
{
    let mut facts: Vec<(String, String)> = Vec::new();
    let mut i: usize = 0;
    while i < items.len()
        invariant
            i <= items.len(),
            pairs_view(facts@) == facts_of_items(items_view(items@).take(i as int)),
        decreases items.len() - i,
    {
        let item = &items[i];
        let key: &str = match &item.key {
            Some(k) => trim_str(k.as_str()),
            None => "",
        };
        let fact: &str = match &item.fact {
            Some(f) => trim_str(f.as_str()),
            None => "",
        };
        proof {
            reveal_strlit("");
            let all = items_view(items@);
            assert(all.take(i + 1).drop_last() =~= all.take(i as int));
            assert(all.take(i + 1).last() == items@[i as int]@);
        }
        if !key.is_empty() && !fact.is_empty() {
            let ghost before = facts@;
            facts.push((key.to_owned(), fact.to_owned()));
            assert(pairs_view(facts@) =~= pairs_view(before) + seq![(key@, fact@)]);
        }
        i = i + 1;
    }
    assert(items_view(items@).take(items.len() as int) =~= items_view(items@));
    facts
}

/// Reads the model's reply as a list of `(key, fact)` pairs.
///
/// White space and Markdown code fences around the reply are removed, then
/// the text from the first `[` to the last `]` is parsed as JSON, reading the
/// members `"key"` and `"fact"` of each element (a `[` with
/// no usable `]` is an `UnclosedArray` error); each element
/// gives its trimmed `"key"` and `"fact"` strings, and elements where either
/// is missing or empty are skipped.
pub fn parse_facts_json(raw: &str) -> (r: Result<Vec<(String, String)>, FactParseError>)
    ensures
        ({
            let s = strip_fences(raw@);
            &&& !has_char(s, '[') ==> (r matches Err(FactParseError::NoArray))
            &&& has_char(s, '[') && !brackets_usable(s) ==> (r matches Err(FactParseError::UnclosedArray))
            &&& brackets_usable(s) ==> match json_fact_items(json_text(raw@), "key"@, "fact"@) {
                None => (r matches Err(FactParseError::InvalidJson(_))),
                Some(None) => (r matches Err(FactParseError::NotAnArray)),
                Some(Some(items)) => (r matches Ok(facts) && pairs_view(facts@) == facts_of_items(items)),
            }
        }),
{
    let s = strip_code_fences(raw);
    let cs = chars_of(s);
    let start = match find_char(&cs, '[') {
        Some(i) => i,
        None => return Err(FactParseError::NoArray),
    };
    let end = match rfind_char(&cs, ']') {
        Some(i) => i,
        None => return Err(FactParseError::UnclosedArray),
    };
    if end + 1 < start {
        return Err(FactParseError::UnclosedArray);
    }
    let text = s.substring_char(start, end + 1);
    match read_json_fact_items(text, "key", "fact") {
        Err(e) => Err(FactParseError::InvalidJson(e)),
        Ok(None) => Err(FactParseError::NotAnArray),
        Ok(Some(items)) => Ok(facts_from_items(&items)),
    }
}

/// The instruction that asks the model for the user's personal facts.
pub fn extraction_system_prompt() -> (s: &'static str)
    ensures
        s@ == "You are a personal fact extractor. Given one exchange from a conversation, identify any personal facts the USER shared about themselves (name, job, location, preferences, relationships, hobbies, goals, health, etc.). Return ONLY a compact JSON array: [{\"key\":\"snake_case_label\",\"fact\":\"one sentence\"}] or [] if nothing personal was shared. No explanation, no markdown fences."@,
{
    "You are a personal fact extractor. Given one exchange from a conversation, identify any personal facts the USER shared about themselves (name, job, location, preferences, relationships, hobbies, goals, health, etc.). Return ONLY a compact JSON array: [{\"key\":\"snake_case_label\",\"fact\":\"one sentence\"}] or [] if nothing personal was shared. No explanation, no markdown fences."
}

/// `User: {user_message}\nAssistant: {assistant_response}\n\nExtract personal facts:`
pub open spec fn extraction_prompt_spec(user_message: Seq<char>, assistant_response: Seq<char>) -> Seq<char> {
    "User: "@ + user_message + "\nAssistant: "@ + assistant_response + "\n\nExtract personal facts:"@
}

/// The extraction request for one exchange.
pub fn extraction_prompt(user_message: &str, assistant_response: &str) -> (p: String)
    ensures
        p@ == extraction_prompt_spec(user_message@, assistant_response@),
{
    let mut p = concat3("User: ", user_message, "\nAssistant: ");
    p.append(assistant_response);
    p.append("\n\nExtract personal facts:");
    p
}

/// Harvests personal facts from a conversation exchange.
pub struct CompanionMemoryHarvester {
    /// Maximum facts to extract per turn.
    pub max_facts_per_turn: usize,
}

/// One planned store of a harvested fact.
#[derive(Debug)]
pub struct HarvestWrite {
    /// The fact's own key, as the model gave it.
    pub fact_key: String,
    /// The store that keeps the fact.
    pub write: MemoryWrite,
}

/// The write for one harvested fact, if its key and fact are both non-empty:
/// the fact key, the memory key and the content.
pub open spec fn harvested_write(user_id: Seq<char>, fact: (Seq<char>, Seq<char>)) -> Seq<(Seq<char>, Seq<char>, Seq<char>)> {
    if fact.0.len() > 0 && fact.1.len() > 0 {
        seq![(fact.0, fact_key_spec(user_id, fact.0), fact.1)]
    } else {
        seq![]
    }
}

/// The writes for a list of facts, in order.
pub open spec fn harvested_writes(user_id: Seq<char>, facts: Seq<(Seq<char>, Seq<char>)>) -> Seq<(Seq<char>, Seq<char>, Seq<char>)>
    decreases facts.len(),
{
    if facts.len() == 0 {
        seq![]
    } else {
        harvested_writes(user_id, facts.drop_last()) + harvested_write(user_id, facts.last())
    }
}

/// The writes for `facts` number at most `facts.len()`.
pub proof fn lemma_writes_bounded(user_id: Seq<char>, facts: Seq<(Seq<char>, Seq<char>)>)
    ensures
        harvested_writes(user_id, facts).len() <= facts.len(),
    decreases facts.len(),
{
    if facts.len() > 0 {
        lemma_writes_bounded(user_id, facts.drop_last());
    }
}

/// Fact keys, memory keys and contents of a list of planned writes.
pub open spec fn writes_view(w: Seq<HarvestWrite>) -> Seq<(Seq<char>, Seq<char>, Seq<char>)> {
    w.map_values(|x: HarvestWrite| (x.fact_key@, x.write.key@, x.write.content@))
}

/// The number of outcomes that are `Ok`.
pub open spec fn ok_count(outcomes: Seq<Result<(), String>>) -> nat
    decreases outcomes.len(),
{
    if outcomes.len() == 0 {
        0
    } else {
        ok_count(outcomes.drop_last()) + if outcomes.last() is Ok { 1nat } else { 0nat }
    }
}

/// The number of planned stores that succeeded: the facts saved in a turn.
pub fn saved_count(outcomes: &Vec<Result<(), String>>) -> (n: usize)
    ensures
        n == ok_count(outcomes@),
{
    let mut n: usize = 0;
    let mut i: usize = 0;
    while i < outcomes.len()
        invariant
            i <= outcomes@.len(),
            n == ok_count(outcomes@.take(i as int)),
            n <= i,
        decreases outcomes.len() - i,
    {
        assert(outcomes@.take(i + 1).drop_last() =~= outcomes@.take(i as int));
        if outcomes[i].is_ok() {
            n = n + 1;
        }
        i = i + 1;
    }
    assert(outcomes@.take(outcomes.len() as int) =~= outcomes@);
    n
}

impl CompanionMemoryHarvester {
    /// A harvester that stores at most `max_facts_per_turn` facts per turn.
    pub fn new(max_facts_per_turn: usize) -> (h: Self)
        ensures
            h.max_facts_per_turn == max_facts_per_turn,
    {
        Self { max_facts_per_turn }
    }

    /// The writes that store the extracted `facts` of `user_id`: of the first
    /// `max_facts_per_turn` facts, each one whose key and fact are non-empty,
    /// in order, as a core memory under `companion_fact:{user_id}:{key}` in
    /// the scope `companion:{user_id}`.
    pub fn plan_writes(&self, user_id: &str, facts: &Vec<(String, String)>) -> (w: Vec<HarvestWrite>)
        ensures
            writes_view(w@) == harvested_writes(
                user_id@,
                pairs_view(facts@).take(
                    if facts@.len() < self.max_facts_per_turn { facts@.len() as int } else { self.max_facts_per_turn as int },
                ),
            ),
            forall|j: int| 0 <= j < w@.len() ==> {
                &&& (#[trigger] w@[j]).write.category == MemoryCategory::Core
                &&& w@[j].write.session_scope@ == session_scope_spec(user_id@)
            },
            w@.len() <= self.max_facts_per_turn,
    {
        let n: usize = if facts.len() < self.max_facts_per_turn { facts.len() } else { self.max_facts_per_turn };
        let mut w: Vec<HarvestWrite> = Vec::new();
        let mut i: usize = 0;
        while i < n
            invariant
                n <= facts.len(),
                i <= n,
                writes_view(w@) == harvested_writes(user_id@, pairs_view(facts@).take(i as int)),
                forall|j: int| 0 <= j < w@.len() ==> {
                    &&& (#[trigger] w@[j]).write.category == MemoryCategory::Core
                    &&& w@[j].write.session_scope@ == session_scope_spec(user_id@)
                },
            decreases n - i,
        {
            let (key, fact) = &facts[i];
            proof {
                let all = pairs_view(facts@);
                assert(all.take(i + 1).drop_last() =~= all.take(i as int));
                assert(all.take(i + 1).last() == (key@, fact@));
            }
            if !key.as_str().is_empty() && !fact.as_str().is_empty() {
                let ghost before = w@;
                let hw = HarvestWrite { fact_key: key.clone(), write: fact_write(user_id, key.as_str(), fact.as_str()) };
                w.push(hw);
                assert(writes_view(w@) =~= writes_view(before) + seq![(hw.fact_key@, hw.write.key@, hw.write.content@)]);
            }
            i = i + 1;
        }
        proof {
            lemma_writes_bounded(user_id@, pairs_view(facts@).take(n as int));
            assert(writes_view(w@).len() == w@.len());
        }
        w
    }

    /// The writes for one turn's harvest, given what the extraction gave: none
    /// when the extraction failed (the failure is dropped, nothing is
    /// stored), else `plan_writes` of the extracted facts.
    pub fn plan_harvest<E>(&self, user_id: &str, extracted: &Result<Vec<(String, String)>, E>) -> (w: Vec<HarvestWrite>)
        ensures
            extracted is Err ==> w@.len() == 0,
            extracted matches Ok(facts) ==> writes_view(w@) == harvested_writes(
                user_id@,
                pairs_view(facts@).take(
                    if facts@.len() < self.max_facts_per_turn { facts@.len() as int } else { self.max_facts_per_turn as int },
                ),
            ),
            forall|j: int| 0 <= j < w@.len() ==> {
                &&& (#[trigger] w@[j]).write.category == MemoryCategory::Core
                &&& w@[j].write.session_scope@ == session_scope_spec(user_id@)
            },
            w@.len() <= self.max_facts_per_turn,
    {
        match extracted {
            Ok(facts) => self.plan_writes(user_id, facts),
            Err(_) => Vec::new(),
        }
    }
}

} // verus!
