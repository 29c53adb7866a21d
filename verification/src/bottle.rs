use vstd::prelude::*;
use serde_json::Value;
use uuid::Uuid;

use crate::metadata::Metadata;
use crate::payload::BottlePayload;
use crate::priority::Priority;
use crate::time::{in_utc_range, Duration, Timestamp};
use crate::AgentId;

verus! {

/// `uuid::Uuid`, the identifier of a bottle, carried without being looked into.
#[verifier::external_type_specification]
#[verifier::external_body]
pub struct ExUuid(uuid::Uuid);

/// `Clone` for `uuid::Uuid`, which derives it (the type is also `Copy`): the
/// copy is the same identifier.
pub assume_specification[ <uuid::Uuid as Clone>::clone ](u: &Uuid) -> (r: Uuid)
    ensures
        r == *u,
;

/// Draws a random (version 4) identifier with `uuid::Uuid::new_v4`; which
/// one it is goes unsaid. It panics if the operating system's random source
/// fails.
#[verifier::external_body]
fn random_id() -> Uuid {
    Uuid::new_v4()
}

/// The text of an optional string.
pub open spec fn opt_text(o: Option<String>) -> Option<Seq<char>> {
    match o {
        Some(s) => Some(s@),
        None => None,
    }
}

/// A Bottle: an immutable inter-agent message.
///
/// Bottles are created via [`BottleBuilder`] and are not changed once built.
/// They carry a payload, an optional TTL for expiry, and a priority level.
#[derive(Debug, Clone, PartialEq)]
pub struct Bottle {
    /// Unique message identifier.
    pub id: Uuid,
    /// Sending agent.
    pub from: AgentId,
    /// Receiving agent. `None` means broadcast to all agents.
    pub to: Option<AgentId>,
    /// Message contents.
    pub payload: BottlePayload,
    /// When this bottle was created (UTC).
    pub timestamp: Timestamp,
    /// Time-to-live. The bottle is considered expired after `timestamp + ttl`.
    pub ttl: Option<Duration>,
    /// Delivery priority.
    pub priority: Priority,
    /// Arbitrary metadata attachments.
    pub metadata: Metadata,
}

impl Bottle {
    /// The instant, in nanoseconds since the Unix epoch, after which the
    /// bottle is expired; `None` without a TTL.
    pub open spec fn expiry(self) -> Option<int> {
        match self.ttl {
            Some(d) => Some(self.timestamp@ + d@),
            None => None,
        }
    }

    /// The expiry instant, where there is one, is a representable instant.
    pub open spec fn expiry_representable(self) -> bool {
        self.ttl matches Some(d) ==> in_utc_range(self.timestamp@ + d@)
    }

    /// Whether the bottle is expired at `now` (nanoseconds since the Unix epoch).
    pub open spec fn expired_at(self, now: int) -> bool {
        match self.expiry() {
            Some(e) => now > e,
            None => false,
        }
    }

    /// A new builder for a bottle from the given agent.
    pub fn builder(from: &str) -> (b: BottleBuilder)
        ensures
            b@ == BottleDraft::started_by(from@),
    {
        BottleBuilder::new(from)
    }

    /// Whether this bottle has expired relative to the given time: whether
    /// `now` comes after `timestamp + ttl`.
    pub fn is_expired(&self, now: Timestamp) -> (r: bool)
        requires
            self.expiry_representable(),
        ensures
            r == self.expired_at(now@),
            self.ttl matches Some(d) ==> (r <==> now@ > self.timestamp@ + d@),
            self.ttl is None ==> !r,
    {
        match self.ttl {
            Some(ttl) => {
                let expiry = self.timestamp.checked_add(ttl).unwrap();
                now.is_after(&expiry)
            },
            None => false,
        }
    }

    /// The expiry time, if a TTL is set.
    pub fn expires_at(&self) -> (r: Option<Timestamp>)
        requires
            self.expiry_representable(),
        ensures
            r is Some <==> self.ttl is Some,
            r matches Some(t) ==> self.expiry() == Some(t@),
            r matches Some(t) ==> (self.ttl matches Some(d) && t@ == self.timestamp@ + d@),
    {
        match self.ttl {
            Some(ttl) => Some(self.timestamp.checked_add(ttl).unwrap()),
            None => None,
        }
    }

    /// Whether this bottle is addressed to a specific agent (not broadcast).
    pub fn is_directed(&self) -> (r: bool)
        ensures
            r == self.to is Some,
    {
        self.to.is_some()
    }

    /// Whether this is a broadcast bottle.
    pub fn is_broadcast(&self) -> (r: bool)
        ensures
            r == self.to is None,
    {
        self.to.is_none()
    }
}

/// What a builder has gathered so far.
pub struct BottleDraft {
    /// The sending agent.
    pub from: Seq<char>,
    /// The receiving agent, if the bottle is directed.
    pub to: Option<Seq<char>>,
    /// The payload, once set.
    pub payload: Option<BottlePayload>,
    /// The time-to-live, if set.
    pub ttl: Option<Duration>,
    /// The delivery priority.
    pub priority: Priority,
    /// The metadata entries.
    pub metadata: Map<Seq<char>, Value>,
}

impl BottleDraft {
    /// The draft of a bottle from `from`: broadcast, with no payload, no TTL,
    /// normal priority and no metadata.
    pub open spec fn started_by(from: Seq<char>) -> BottleDraft {
        BottleDraft {
            from,
            to: None,
            payload: None,
            ttl: None,
            priority: Priority::Normal,
            metadata: Map::empty(),
        }
    }

    /// Whether `b` carries what this draft gathered.
    pub open spec fn built_as(self, b: Bottle) -> bool {
        &&& b.from@ == self.from
        &&& opt_text(b.to) == self.to
        &&& self.payload == Some(b.payload)
        &&& b.ttl == self.ttl
        &&& b.priority == self.priority
        &&& b.metadata@ == self.metadata
    }
}

/// Builder for constructing [`Bottle`] instances.
pub struct BottleBuilder {
    from: AgentId,
    to: Option<AgentId>,
    payload: Option<BottlePayload>,
    ttl: Option<Duration>,
    priority: Priority,
    metadata: Metadata,
}

impl View for BottleBuilder {
    type V = BottleDraft;

    closed spec fn view(&self) -> BottleDraft {
        BottleDraft {
            from: self.from@,
            to: opt_text(self.to),
            payload: self.payload,
            ttl: self.ttl,
            priority: self.priority,
            metadata: self.metadata@,
        }
    }
}

impl BottleBuilder {
    /// A builder for a bottle from the given agent.
    pub fn new(from: &str) -> (b: BottleBuilder)
        ensures
            b@ == BottleDraft::started_by(from@),
    {
        BottleBuilder {
            from: from.to_owned(),
            to: None,
            payload: None,
            ttl: None,
            priority: Priority::Normal,
            metadata: Metadata::new(),
        }
    }

    /// Address this bottle to a specific agent.
    pub fn to(self, agent: &str) -> (b: BottleBuilder)
        ensures
            b@ == (BottleDraft { to: Some(agent@), ..self@ }),
    {
        let mut b = self;
        b.to = Some(agent.to_owned());
        b
    }

    /// Set the payload.
    pub fn payload(self, payload: BottlePayload) -> (b: BottleBuilder)
        ensures
            b@ == (BottleDraft { payload: Some(payload), ..self@ }),
    {
        let mut b = self;
        b.payload = Some(payload);
        b
    }

    /// Set time-to-live.
    pub fn ttl(self, duration: Duration) -> (b: BottleBuilder)
        ensures
            b@ == (BottleDraft { ttl: Some(duration), ..self@ }),
    {
        let mut b = self;
        b.ttl = Some(duration);
        b
    }

    /// Set priority.
    pub fn priority(self, priority: Priority) -> (b: BottleBuilder)
        ensures
            b@ == (BottleDraft { priority, ..self@ }),
    {
        let mut b = self;
        b.priority = priority;
        b
    }

    /// Attach a metadata entry, replacing any value the key had.
    pub fn meta(self, key: &str, value: Value) -> (b: BottleBuilder)
        ensures
            b@ == (BottleDraft { metadata: self@.metadata.insert(key@, value), ..self@ }),
    {
        let mut b = self;
        b.metadata.insert(key.to_owned(), value);
        b
    }

    /// Build the bottle with the given identifier and creation time.
    pub fn build_with(self, id: Uuid, timestamp: Timestamp) -> (bottle: Bottle)
        requires
            self@.payload is Some,
        ensures
            self@.built_as(bottle),
            bottle.id == id,
            bottle.timestamp == timestamp,
    {
        let BottleBuilder { from, to, payload, ttl, priority, metadata } = self;
        Bottle {
            id,
            from,
            to,
            payload: payload.unwrap(),
            timestamp,
            ttl,
            priority,
            metadata,
        }
    }

    /// Build the bottle, with a fresh random identifier, stamped with the
    /// current time (never before the Unix epoch).
    ///
    /// Panics if the operating system's random source fails, or if the
    /// system clock reads before the Unix epoch.
    pub fn build(self) -> (bottle: Bottle)
        requires
            self@.payload is Some,
        ensures
            self@.built_as(bottle),
            bottle.timestamp@ >= 0,
    {
        let id = random_id();
        let now = Timestamp::now();
        self.build_with(id, now)
    }
}

/// A bottle is either directed or broadcast, never both.
pub proof fn lemma_directed_or_broadcast(b: Bottle)
    ensures
        (b.to is Some) != (b.to is None),
{
}

/// A built bottle is directed exactly when its builder was given a
/// receiving agent, and then it is addressed to that agent.
pub proof fn lemma_built_directed(draft: BottleDraft, b: Bottle)
    requires
        draft.built_as(b),
    ensures
        (b.to is Some) <==> (draft.to is Some),
        b.to matches Some(agent) ==> draft.to == Some(agent@),
{
}

/// A bottle without a TTL never expires.
pub proof fn lemma_no_ttl_never_expires(b: Bottle, now: int)
    requires
        b.ttl is None,
    ensures
        !b.expired_at(now),
        b.expiry() is None,
{
}

/// A bottle is expired exactly at the instants after its expiry time, and
/// its expiry time is its creation time moved by its TTL.
pub proof fn lemma_expired_iff_after_expiry(b: Bottle, now: int)
    ensures
        b.expired_at(now) <==> (b.expiry() matches Some(e) && now > e),
        b.expired_at(now) <==> (b.ttl matches Some(d) && now > b.timestamp@ + d@),
        b.ttl matches Some(d) ==> b.expiry() == Some(b.timestamp@ + d@),
        b.ttl is None ==> b.expiry() is None,
{
}

/// With a TTL, a bottle is still live at the very instant its TTL runs out
/// and expired one nanosecond later.
pub proof fn lemma_expiry_boundary(b: Bottle)
    requires
        b.ttl is Some,
    ensures
        !b.expired_at(b.timestamp@ + b.ttl.unwrap()@),
        b.expired_at(b.timestamp@ + b.ttl.unwrap()@ + 1),
{
}

/// Once expired, a bottle stays expired.
pub proof fn lemma_expiry_is_permanent(b: Bottle, t1: int, t2: int)
    requires
        b.expired_at(t1),
        t1 <= t2,
    ensures
        b.expired_at(t2),
{
}

/// A bottle with a non-negative TTL is not expired at the moment it was created.
pub proof fn lemma_fresh_bottle_not_expired(b: Bottle)
    requires
        b.ttl matches Some(d) ==> d@ >= 0,
    ensures
        !b.expired_at(b.timestamp@),
{
}

} // verus!
