//! Companion mode configuration, per-user session state and persona selection.
use vstd::prelude::*;

verus! {

/// Configuration for a single companion persona character.
#[derive(Debug, Clone)]
pub struct PersonaConfig {
    /// The persona's display name (e.g. "Zara", "Max").
    pub name: String,
    /// A brief description of the persona's background and purpose.
    pub description: String,
    /// A list of personality trait adjectives (e.g. "curious", "warm", "playful").
    pub personality_traits: Vec<String>,
    /// Tonal guidance string (e.g. "casual and upbeat").
    pub tone: String,
    /// Greeting message sent on first contact.
    pub greeting: String,
    /// Channel names this persona prefers (e.g. "telegram", "discord").
    pub channel_affinity: Vec<String>,
}

/// Top-level companion mode configuration block.
#[derive(Debug, Clone)]
pub struct CompanionConfig {
    /// Whether companion mode is active.
    pub enabled: bool,
    /// Number of memories to recall per turn for context building.
    pub memory_recall_k: usize,
    /// Number of turns between automatic conversation summary regenerations.
    pub summary_interval: u32,
    /// All available persona definitions.
    pub personas: Vec<PersonaConfig>,
}

/// Memories recalled per turn unless configured otherwise.
pub fn default_recall_k() -> (k: usize)
    ensures
        k == 5,
{
    5
}

/// Turns between summary regenerations unless configured otherwise.
pub fn default_summary_interval() -> (n: u32)
    ensures
        n == 10,
{
    10
}

impl Default for CompanionConfig {
    /// Companion mode off, 5 memories per turn, a summary every 10 turns, no personas.
    fn default() -> (c: Self)
        ensures
            !c.enabled,
            c.memory_recall_k == 5,
            c.summary_interval == 10,
            c.personas@.len() == 0,
    {
        CompanionConfig {
            enabled: false,
            memory_recall_k: default_recall_k(),
            summary_interval: default_summary_interval(),
            personas: Vec::new(),
        }
    }
}

/// Highest familiarity, in hundredths: a score of 1.0.
pub const FAMILIARITY_MAX: u32 = 100;

/// Per-user companion session state.
#[derive(Debug)]
pub struct CompanionSession {
    /// Stable user identifier (e.g. Telegram user ID, Discord snowflake).
    pub user_id: String,
    /// Name of the active persona chosen for this user.
    pub persona_name: String,
    /// Total number of conversational turns completed in this session.
    pub turn_count: u32,
    /// Familiarity in hundredths, from 0 (a score of 0.0) to
    /// `FAMILIARITY_MAX` (a score of 1.0). It starts at 0 and grows by one
    /// hundredth per completed turn, capped at `FAMILIARITY_MAX`.
    pub familiarity_score: u32,
}

impl Clone for CompanionSession {
    fn clone(&self) -> (r: Self)
        ensures
            r == *self,
    {
        CompanionSession {
            user_id: self.user_id.clone(),
            persona_name: self.persona_name.clone(),
            turn_count: self.turn_count,
            familiarity_score: self.familiarity_score,
        }
    }
}

/// The session state after one more completed turn: the turn count grows by
/// one (saturating), familiarity by one hundredth (capped).
pub open spec fn advance(s: CompanionSession) -> CompanionSession {
    CompanionSession {
        user_id: s.user_id,
        persona_name: s.persona_name,
        turn_count: if s.turn_count < u32::MAX { (s.turn_count + 1) as u32 } else { u32::MAX },
        familiarity_score: if s.familiarity_score < FAMILIARITY_MAX { (s.familiarity_score + 1) as u32 } else { FAMILIARITY_MAX },
    }
}

/// Whether a summary is due once a session has reached `turn_count` turns.
pub open spec fn summary_due(turn_count: u32, interval: u32) -> bool {
    interval > 0 && turn_count % interval == 0
}

/// `p` lists `channel` among its preferred channels.
pub open spec fn has_affinity(p: PersonaConfig, channel: Seq<char>) -> bool {
    exists|j: int| 0 <= j < p.channel_affinity@.len() && #[trigger] p.channel_affinity@[j]@ == channel
}

/// `i` is the first persona that prefers `channel`.
pub open spec fn is_first_affine(personas: Seq<PersonaConfig>, channel: Seq<char>, i: int) -> bool {
    &&& 0 <= i < personas.len()
    &&& has_affinity(personas[i], channel)
    &&& forall|j: int| 0 <= j < i ==> !has_affinity(#[trigger] personas[j], channel)
}

/// Some persona prefers `channel`.
pub open spec fn some_affine(personas: Seq<PersonaConfig>, channel: Seq<char>) -> bool {
    exists|i: int| 0 <= i < personas.len() && has_affinity(#[trigger] personas[i], channel)
}

/// The name of the persona chosen for a new session: the first persona that
/// prefers the channel, if there is a channel and one does; else the first persona.
pub open spec fn selected_persona_name(personas: Seq<PersonaConfig>, channel: Option<Seq<char>>) -> Seq<char> {
    match channel {
        Some(ch) if some_affine(personas, ch) => personas[choose|i: int| is_first_affine(personas, ch, i)].name@,
        _ => personas[0].name@,
    }
}

/// `i` is the first persona named `name`.
pub open spec fn is_first_named(personas: Seq<PersonaConfig>, name: Seq<char>, i: int) -> bool {
    &&& 0 <= i < personas.len()
    &&& personas[i].name@ == name
    &&& forall|j: int| 0 <= j < i ==> (#[trigger] personas[j]).name@ != name
}

/// A session for `user_id` exists in `s`.
pub open spec fn has_user(s: Seq<CompanionSession>, user_id: Seq<char>) -> bool {
    exists|i: int| 0 <= i < s.len() && (#[trigger] s[i]).user_id@ == user_id
}

/// No two sessions belong to the same user.
pub open spec fn unique_users(s: Seq<CompanionSession>) -> bool {
    forall|i: int, j: int|
        0 <= i < s.len() && 0 <= j < s.len() && i != j ==> (#[trigger] s[i]).user_id@ != (#[trigger] s[j]).user_id@
}

/// The sessions by user.
pub open spec fn sessions_map(s: Seq<CompanionSession>) -> Map<Seq<char>, CompanionSession> {
    Map::new(
        |k: Seq<char>| has_user(s, k),
        |k: Seq<char>| s[choose|i: int| 0 <= i < s.len() && (#[trigger] s[i]).user_id@ == k],
    )
}

proof fn lemma_map_at(s: Seq<CompanionSession>, i: int)
    requires
        unique_users(s),
        0 <= i < s.len(),
    ensures
        sessions_map(s).contains_key(s[i].user_id@),
        sessions_map(s)[s[i].user_id@] == s[i],
{
    let k = s[i].user_id@;
    assert(has_user(s, k));
    let j = choose|j: int| 0 <= j < s.len() && (#[trigger] s[j]).user_id@ == k;
    assert(j == i);
}

proof fn lemma_map_push(s: Seq<CompanionSession>, x: CompanionSession)
    requires
        unique_users(s),
        !has_user(s, x.user_id@),
    ensures
        unique_users(s.push(x)),
        sessions_map(s.push(x)) == sessions_map(s).insert(x.user_id@, x),
{
    let t = s.push(x);
    assert forall|i: int, j: int|
        0 <= i < t.len() && 0 <= j < t.len() && i != j implies (#[trigger] t[i]).user_id@ != (#[trigger] t[j]).user_id@ by {
        if i < s.len() && j < s.len() {
            assert(t[i] == s[i] && t[j] == s[j]);
        } else if i < s.len() {
            assert(t[i] == s[i]);
        } else {
            assert(t[j] == s[j]);
        }
    }
    let a = sessions_map(t);
    let b = sessions_map(s).insert(x.user_id@, x);
    assert forall|k: Seq<char>| a.contains_key(k) <==> b.contains_key(k) by {
        if has_user(t, k) && k != x.user_id@ {
            let i = choose|i: int| 0 <= i < t.len() && (#[trigger] t[i]).user_id@ == k;
            assert(s[i] == t[i]);
        }
        if has_user(s, k) {
            let i = choose|i: int| 0 <= i < s.len() && (#[trigger] s[i]).user_id@ == k;
            assert(t[i] == s[i]);
        }
        if k == x.user_id@ {
            assert(t[s.len() as int] == x);
        }
    }
    assert forall|k: Seq<char>| a.contains_key(k) implies a[k] == b[k] by {
        let i = choose|i: int| 0 <= i < t.len() && (#[trigger] t[i]).user_id@ == k;
        lemma_map_at(t, i);
        if i < s.len() {
            assert(t[i] == s[i]);
            lemma_map_at(s, i);
        }
    }
    assert(a =~= b);
}

proof fn lemma_map_update(s: Seq<CompanionSession>, i: int, x: CompanionSession)
    requires
        unique_users(s),
        0 <= i < s.len(),
        x.user_id@ == s[i].user_id@,
    ensures
        unique_users(s.update(i, x)),
        sessions_map(s.update(i, x)) == sessions_map(s).insert(x.user_id@, x),
{
    let t = s.update(i, x);
    assert forall|a: int, b: int|
        0 <= a < t.len() && 0 <= b < t.len() && a != b implies (#[trigger] t[a]).user_id@ != (#[trigger] t[b]).user_id@ by {
        assert(t[a].user_id@ == s[a].user_id@);
        assert(t[b].user_id@ == s[b].user_id@);
    }
    let m1 = sessions_map(t);
    let m2 = sessions_map(s).insert(x.user_id@, x);
    assert forall|k: Seq<char>| m1.contains_key(k) <==> m2.contains_key(k) by {
        if has_user(t, k) {
            let j = choose|j: int| 0 <= j < t.len() && (#[trigger] t[j]).user_id@ == k;
            assert(s[j].user_id@ == t[j].user_id@);
        }
        if has_user(s, k) {
            let j = choose|j: int| 0 <= j < s.len() && (#[trigger] s[j]).user_id@ == k;
            assert(s[j].user_id@ == t[j].user_id@);
        }
        if k == x.user_id@ {
            assert(t[i] == x);
        }
    }
    assert forall|k: Seq<char>| m1.contains_key(k) implies m1[k] == m2[k] by {
        let j = choose|j: int| 0 <= j < t.len() && (#[trigger] t[j]).user_id@ == k;
        lemma_map_at(t, j);
        if j != i {
            assert(t[j] == s[j]);
            lemma_map_at(s, j);
        }
    }
    assert(m1 =~= m2);
}

/// Manages all companion sessions and exposes persona metadata.
pub struct CompanionMode {
    /// Companion configuration (personas, intervals, feature flag).
    pub config: CompanionConfig,
    sessions: Vec<CompanionSession>,
}

impl View for CompanionMode {
    type V = Map<Seq<char>, CompanionSession>;

    /// The sessions by user id.
    closed spec fn view(&self) -> Map<Seq<char>, CompanionSession> {
        sessions_map(self.sessions@)
    }
}

impl CompanionMode {
    /// The configuration. (Kept closed: the sessions field is private, so Verus
    /// refuses an open body that reads a field of this type.)
    pub closed spec fn configuration(&self) -> CompanionConfig {
        self.config
    }

    /// The configuration, tied to `configuration()` for verified callers.
    pub fn config(&self) -> (c: &CompanionConfig)
        ensures
            *c == self.configuration(),
    {
        &self.config
    }

    /// Every session belongs to a distinct user, is stored under that user's
    /// id, and has a familiarity of at most `FAMILIARITY_MAX`.
    pub closed spec fn wf(&self) -> bool {
        &&& unique_users(self.sessions@)
        &&& forall|i: int| 0 <= i < self.sessions@.len() ==> (#[trigger] self.sessions@[i]).familiarity_score <= FAMILIARITY_MAX
    }

    /// Every stored session is keyed by its own user id and has a familiarity
    /// of at most `FAMILIARITY_MAX`.
    pub proof fn lemma_session_invariant(&self, user_id: Seq<char>)
        requires
            self.wf(),
            self@.contains_key(user_id),
        ensures
            self@[user_id].user_id@ == user_id,
            self@[user_id].familiarity_score <= FAMILIARITY_MAX,
    {
        let i = choose|i: int| 0 <= i < self.sessions@.len() && (#[trigger] self.sessions@[i]).user_id@ == user_id;
        lemma_map_at(self.sessions@, i);
    }

    /// Create a new mode from the supplied configuration, with no sessions.
    pub fn new(config: CompanionConfig) -> (m: Self)
        ensures
            m.wf(),
            m.configuration() == config,
            m@ == Map::<Seq<char>, CompanionSession>::empty(),
    {
        let m = Self { config, sessions: Vec::new() };
        assert(m@ =~= Map::<Seq<char>, CompanionSession>::empty());
        m
    }

    /// Returns `true` when companion mode is enabled in config.
    pub fn is_enabled(&self) -> (b: bool)
        ensures
            b == self.configuration().enabled,
    {
        self.config.enabled
    }

    /// Position of the session of `user_id`, if there is one.
    fn find_session(&self, user_id: &String) -> (r: Option<usize>)
        requires
            self.wf(),
        ensures
            r is None <==> !self@.contains_key(user_id@),
            r matches Some(i) ==> i < self.sessions@.len() && self.sessions@[i as int].user_id@ == user_id@
                && self@[user_id@] == self.sessions@[i as int],
    {
        let mut i: usize = 0;
        while i < self.sessions.len()
            invariant
                self.wf(),
                i <= self.sessions@.len(),
                forall|j: int| 0 <= j < i ==> (#[trigger] self.sessions@[j]).user_id@ != user_id@,
            decreases self.sessions.len() - i,
        {
            if self.sessions[i].user_id == *user_id {
                proof {
                    lemma_map_at(self.sessions@, i as int);
                }
                return Some(i);
            }
            i = i + 1;
        }
        None
    }

    /// The session of `user_id`, if one exists.
    pub fn session(&self, user_id: &str) -> (r: Option<&CompanionSession>)
        requires
            self.wf(),
        ensures
            r is None <==> !self@.contains_key(user_id@),
            r matches Some(s) ==> *s == self@[user_id@],
    {
        match self.find_session(&user_id.to_owned()) {
            Some(i) => Some(&self.sessions[i]),
            None => None,
        }
    }

    /// Look up a persona by exact name match: the first persona named `name`,
    /// or `None` if no persona has that name.
    pub fn persona(&self, name: &str) -> (r: Option<&PersonaConfig>)
        ensures
            r is None <==> forall|i: int| 0 <= i < self.configuration().personas@.len() ==> (#[trigger] self.configuration().personas@[i]).name@ != name@,
            r matches Some(p) ==> exists|i: int| #[trigger] is_first_named(self.configuration().personas@, name@, i) && *p == self.configuration().personas@[i],
    {
        let wanted = name.to_owned();
        let personas = &self.config.personas;
        let mut i: usize = 0;
        while i < personas.len()
            invariant
                personas == &self.config.personas,
                wanted@ == name@,
                i <= personas@.len(),
                forall|j: int| 0 <= j < i ==> (#[trigger] personas@[j]).name@ != name@,
            decreases personas.len() - i,
        {
            if personas[i].name == wanted {
                assert(is_first_named(personas@, name@, i as int));
                assert(is_first_named(self.configuration().personas@, name@, i as int));
                return Some(&personas[i]);
            }
            i = i + 1;
        }
        None
    }

    /// Return the first configured persona.
    pub fn default_persona(&self) -> (p: &PersonaConfig)
        requires
            self.configuration().personas@.len() > 0,
        ensures
            *p == self.configuration().personas@[0],
    {
        &self.config.personas[0]
    }

    /// Whether persona `p` lists `channel` among its preferred channels.
    fn prefers(p: &PersonaConfig, channel: &String) -> (b: bool)
        ensures
            b == has_affinity(*p, channel@),
    {
        let mut j: usize = 0;
        while j < p.channel_affinity.len()
            invariant
                j <= p.channel_affinity@.len(),
                forall|k: int| 0 <= k < j ==> (#[trigger] p.channel_affinity@[k])@ != channel@,
            decreases p.channel_affinity.len() - j,
        {
            if p.channel_affinity[j] == *channel {
                return true;
            }
            j = j + 1;
        }
        false
    }

    /// Select the persona name for a new session: the first persona whose
    /// channel affinity lists `channel`, else the first persona.
    fn select_persona_name(&self, channel: Option<&str>) -> (r: String)
        requires
            self.config.personas@.len() > 0,
        ensures
            r@ == selected_persona_name(self.config.personas@, match channel { Some(c) => Some(c@), None => None }),
    {
        let personas = &self.config.personas;
        if let Some(ch) = channel {
            let wanted = ch.to_owned();
            let mut i: usize = 0;
            while i < personas.len()
                invariant
                    personas == &self.config.personas,
                    channel == Some(ch),
                    wanted@ == ch@,
                    i <= personas@.len(),
                    forall|j: int| 0 <= j < i ==> !has_affinity(#[trigger] personas@[j], ch@),
                decreases personas.len() - i,
            {
                if Self::prefers(&personas[i], &wanted) {
                    proof {
                        assert(is_first_affine(personas@, ch@, i as int));
                        assert(some_affine(personas@, ch@));
                        let c = choose|k: int| is_first_affine(personas@, ch@, k);
                        assert(c == i) by {
                            if c < i {
                                assert(!has_affinity(personas@[c], ch@));
                            } else if c > i {
                                assert(!has_affinity(personas@[i as int], ch@));
                            }
                        }
                        assert(selected_persona_name(personas@, Some(ch@)) == personas@[i as int].name@);
                    }
                    return personas[i].name.clone();
                }
                i = i + 1;
            }
        }
        personas[0].name.clone()
    }

    /// Return the session of `user_id`, or create one with the persona chosen
    /// for `channel` (the first persona preferring it, else the first persona),
    /// no turns and no familiarity.
    pub fn get_or_create_session(&mut self, user_id: &str, channel: Option<&str>) -> (s: CompanionSession)
        requires
            old(self).wf(),
            old(self)@.contains_key(user_id@) || old(self).configuration().personas@.len() > 0,
        ensures
            final(self).wf(),
            final(self).configuration() == old(self).configuration(),
            old(self)@.contains_key(user_id@) ==> s == old(self)@[user_id@] && final(self)@ == old(self)@,
            !old(self)@.contains_key(user_id@) ==> {
                &&& s.user_id@ == user_id@
                &&& s.persona_name@ == selected_persona_name(
                    old(self).configuration().personas@,
                    match channel { Some(c) => Some(c@), None => None },
                )
                &&& s.turn_count == 0
                &&& s.familiarity_score == 0
                &&& final(self)@ == old(self)@.insert(user_id@, s)
            },
    {
        let uid = user_id.to_owned();
        match self.find_session(&uid) {
            Some(i) => self.sessions[i].clone(),
            None => {
                let persona_name = self.select_persona_name(channel);
                let session = CompanionSession { user_id: uid, persona_name, turn_count: 0, familiarity_score: 0 };
                proof {
                    assert(!has_user(self.sessions@, user_id@));
                    lemma_map_push(self.sessions@, session);
                }
                let ghost before = self.sessions@;
                self.sessions.push(session.clone());
                assert(forall|i: int| 0 <= i < before.len() ==> self.sessions@[i] == #[trigger] before[i]);
                session
            }
        }
    }

    /// Record one completed turn for `user_id`: the turn count grows by one
    /// (saturating) and familiarity by one hundredth (capped at
    /// `FAMILIARITY_MAX`). Returns whether a summary is due, i.e. the interval
    /// is positive and divides the new turn count. Without a session for
    /// `user_id` nothing changes and the result is `false`.
    pub fn after_turn(&mut self, user_id: &str) -> (due: bool)
        requires
            old(self).wf(),
        ensures
            final(self).wf(),
            final(self).configuration() == old(self).configuration(),
            !old(self)@.contains_key(user_id@) ==> !due && final(self)@ == old(self)@,
            old(self)@.contains_key(user_id@) ==> {
                let s = advance(old(self)@[user_id@]);
                &&& final(self)@ == old(self)@.insert(user_id@, s)
                &&& due == summary_due(s.turn_count, old(self).configuration().summary_interval)
            },
    {
        let uid = user_id.to_owned();
        match self.find_session(&uid) {
            None => false,
            Some(i) => {
                let old_session = self.sessions[i].clone();
                let turn_count = old_session.turn_count.saturating_add(1);
                let familiarity_score = if old_session.familiarity_score < FAMILIARITY_MAX {
                    old_session.familiarity_score + 1
                } else {
                    FAMILIARITY_MAX
                };
                let next = CompanionSession {
                    user_id: old_session.user_id,
                    persona_name: old_session.persona_name,
                    turn_count,
                    familiarity_score,
                };
                proof {
                    lemma_map_update(self.sessions@, i as int, next);
                }
                let ghost before = self.sessions@;
                self.sessions.set(i, next);
                assert(forall|j: int| 0 <= j < before.len() && j != i ==> self.sessions@[j] == #[trigger] before[j]);
                let interval = self.config.summary_interval;
                interval > 0 && turn_count % interval == 0
            }
        }
    }
}

} // verus!
