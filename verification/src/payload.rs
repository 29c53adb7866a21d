use vstd::prelude::*;
use vstd::std_specs::cmp::PartialEqSpec;

verus! {

/// The contents of a bottle: what the message carries.
#[derive(Debug, Clone, PartialEq)]
pub enum BottlePayload {
    /// Plain text message between agents.
    Text(String),
    /// A command to be executed by the receiving agent.
    Command(BottleCommand),
    /// State snapshot or update.
    State(BottleState),
    /// Consensus voting message for distributed decisions.
    Consensus(ConsensusVote),
    /// Discovery report: an agent announcing capabilities or findings.
    Discovery(DiscoveryReport),
    /// Alert: high-priority notification requiring attention.
    Alert(AlertMessage),
}

/// A command sent to another agent.
#[derive(Debug, Clone, PartialEq)]
pub struct BottleCommand {
    /// Command name (e.g. "deploy", "health_check").
    pub name: String,
    /// Positional arguments.
    pub args: Vec<String>,
    /// Whether the sender expects an acknowledgement.
    pub expects_ack: bool,
}

impl BottleCommand {
    /// A command with this name, no argument, and no acknowledgement expected.
    pub fn new(name: &str) -> (c: BottleCommand)
        ensures
            c.name@ == name@,
            c.args@ == Seq::<String>::empty(),
            !c.expects_ack,
    {
        BottleCommand { name: name.to_owned(), args: Vec::new(), expects_ack: false }
    }

    /// The same command with `arg` appended to its arguments.
    pub fn arg(self, arg: &str) -> (c: BottleCommand)
        ensures
            c.name == self.name,
            c.expects_ack == self.expects_ack,
            c.args@.len() == self.args@.len() + 1,
            c.args@.drop_last() == self.args@,
            c.args@.last()@ == arg@,
    {
        let mut c = self;
        c.args.push(arg.to_owned());
        c
    }

    /// The same command, now expecting an acknowledgement.
    pub fn expect_ack(self) -> (c: BottleCommand)
        ensures
            c.name == self.name,
            c.args == self.args,
            c.expects_ack,
    {
        let mut c = self;
        c.expects_ack = true;
        c
    }
}

/// State data: key/value pairs representing agent state.
#[derive(Debug, Clone, PartialEq)]
pub struct BottleState {
    /// The component this state pertains to.
    pub component: String,
    /// State data as string key-value pairs, in the order they were added.
    pub data: Vec<(String, String)>,
}

impl BottleState {
    /// The state of `component`, with no entry yet.
    pub fn new(component: &str) -> (s: BottleState)
        ensures
            s.component@ == component@,
            s.data@ == Seq::<(String, String)>::empty(),
    {
        BottleState { component: component.to_owned(), data: Vec::new() }
    }

    /// The same state with the pair `(key, value)` appended.
    pub fn entry(self, key: &str, value: &str) -> (s: BottleState)
        ensures
            s.component == self.component,
            s.data@.len() == self.data@.len() + 1,
            s.data@.drop_last() == self.data@,
            s.data@.last().0@ == key@,
            s.data@.last().1@ == value@,
    {
        let mut s = self;
        s.data.push((key.to_owned(), value.to_owned()));
        s
    }
}

/// A vote in a consensus round.
#[derive(Debug, Clone, PartialEq)]
pub struct ConsensusVote {
    /// The consensus round identifier.
    pub round_id: String,
    /// The proposal being voted on.
    pub proposal: String,
    /// The vote value.
    pub vote: VoteValue,
}

/// Possible vote values.
#[derive(Debug, Clone, Copy, PartialEq, Eq, Structural)]
pub enum VoteValue {
    Yes,
    No,
    Abstain,
}

/// Discovery report: an agent announcing what it found or can do.
#[derive(Debug, Clone)]
pub struct DiscoveryReport {
    /// What was discovered.
    pub subject: String,
    /// Details about the discovery.
    pub details: Vec<String>,
    /// Confidence level in 0.0–1.0, as the bit pattern of an IEEE 754
    /// double-precision number; reports compare it as a number.
    pub confidence_bits: u64,
}

/// Whether a bit pattern encodes a NaN of IEEE 754 double precision.
pub open spec fn is_nan_bits(b: u64) -> bool {
    b & 0x7FF0_0000_0000_0000 == 0x7FF0_0000_0000_0000 && b & 0x000F_FFFF_FFFF_FFFF != 0
}

/// Whether a bit pattern encodes a zero (positive or negative) of IEEE 754
/// double precision.
pub open spec fn is_zero_bits(b: u64) -> bool {
    b & 0x7FFF_FFFF_FFFF_FFFF == 0
}

/// Whether two double-precision numbers, given by their bit patterns,
/// compare equal: neither is a NaN, and they are the same number, the two
/// zeros counting as one.
pub open spec fn float_bits_equal(a: u64, b: u64) -> bool {
    !is_nan_bits(a) && !is_nan_bits(b) && (a == b || (is_zero_bits(a) && is_zero_bits(b)))
}

/// The texts of a list of strings.
pub open spec fn texts(v: Seq<String>) -> Seq<Seq<char>> {
    v.map_values(|s: String| s@)
}

/// Two lists of strings have the same texts exactly when they are as long
/// and hold the same text at each position.
proof fn lemma_texts_equal(a: Seq<String>, b: Seq<String>)
    ensures
        (texts(a) == texts(b)) <==> (a.len() == b.len() && forall|i: int|
            0 <= i < a.len() ==> #[trigger] a[i]@ == b[i]@),
{
    if texts(a) == texts(b) {
        assert(texts(a).len() == a.len() && texts(b).len() == b.len());
        assert forall|i: int| 0 <= i < a.len() implies #[trigger] a[i]@ == b[i]@ by {
            assert(texts(a)[i] == a[i]@);
            assert(texts(b)[i] == b[i]@);
        }
    }
    if a.len() == b.len() && forall|i: int| 0 <= i < a.len() ==> #[trigger] a[i]@ == b[i]@ {
        assert(texts(a) =~= texts(b));
    }
}

/// Whether two lists of strings hold the same texts in the same order.
fn same_strings(a: &Vec<String>, b: &Vec<String>) -> (r: bool)
    ensures
        r == (texts(a@) == texts(b@)),
{
    if a.len() != b.len() {
        proof {
            assert(texts(a@).len() != texts(b@).len());
        }
        return false;
    }
    let mut i: usize = 0;
    while i < a.len()
        invariant
            i <= a@.len(),
            a@.len() == b@.len(),
            forall|j: int| 0 <= j < i ==> a@[j]@ == b@[j]@,
        decreases a@.len() - i,
    {
        if a[i] != b[i] {
            proof {
                assert(texts(a@)[i as int] != texts(b@)[i as int]);
            }
            return false;
        }
        i = i + 1;
    }
    proof {
        assert(texts(a@) =~= texts(b@));
    }
    true
}

impl PartialEq for DiscoveryReport {
    fn eq(&self, other: &DiscoveryReport) -> (r: bool)
        ensures
            r ==> self.subject@ == other.subject@,
            r ==> self.details@.len() == other.details@.len() && forall|i: int|
                0 <= i < self.details@.len() ==> #[trigger] self.details@[i]@ == other.details@[i]@,
            r ==> !is_nan_bits(self.confidence_bits) && (self.confidence_bits
                == other.confidence_bits || (is_zero_bits(self.confidence_bits) && is_zero_bits(
                other.confidence_bits,
            ))),
            (self.subject@ == other.subject@ && self.details@.len() == other.details@.len()
                && (forall|i: int|
                0 <= i < self.details@.len() ==> #[trigger] self.details@[i]@ == other.details@[i]@)
                && !is_nan_bits(self.confidence_bits) && self.confidence_bits
                == other.confidence_bits) ==> r,
    {
        let a = self.confidence_bits;
        let b = other.confidence_bits;
        let a_nan = a & 0x7FF0_0000_0000_0000 == 0x7FF0_0000_0000_0000 && a & 0x000F_FFFF_FFFF_FFFF
            != 0;
        let b_nan = b & 0x7FF0_0000_0000_0000 == 0x7FF0_0000_0000_0000 && b & 0x000F_FFFF_FFFF_FFFF
            != 0;
        let same_confidence = !a_nan && !b_nan && (a == b || (a & 0x7FFF_FFFF_FFFF_FFFF == 0 && b
            & 0x7FFF_FFFF_FFFF_FFFF == 0));
        proof {
            lemma_texts_equal(self.details@, other.details@);
        }
        self.subject == other.subject && same_strings(&self.details, &other.details)
            && same_confidence
    }
}

impl vstd::std_specs::cmp::PartialEqSpecImpl for DiscoveryReport {
    open spec fn obeys_eq_spec() -> bool {
        true
    }

    /// Same subject, same details in the same order, and confidences that
    /// compare equal as numbers.
    open spec fn eq_spec(&self, other: &DiscoveryReport) -> bool {
        &&& self.subject@ == other.subject@
        &&& texts(self.details@) == texts(other.details@)
        &&& float_bits_equal(self.confidence_bits, other.confidence_bits)
    }
}

/// Two discovery reports are equal exactly when they have the same subject,
/// the same details in the same order, and confidences that compare equal as
/// numbers: a NaN equals nothing, the two zeros are equal, any other
/// confidence equals only itself.
pub proof fn lemma_discovery_report_equality(a: DiscoveryReport, b: DiscoveryReport)
    ensures
        a.eq_spec(&b) ==> a.subject@ == b.subject@,
        a.eq_spec(&b) ==> a.details@.len() == b.details@.len() && forall|i: int|
            0 <= i < a.details@.len() ==> #[trigger] a.details@[i]@ == b.details@[i]@,
        a.subject@ != b.subject@ ==> !a.eq_spec(&b),
        is_nan_bits(a.confidence_bits) ==> !a.eq_spec(&b),
        a.confidence_bits != b.confidence_bits && !(is_zero_bits(a.confidence_bits)
            && is_zero_bits(b.confidence_bits)) ==> !a.eq_spec(&b),
        (a.subject@ == b.subject@ && a.details@.len() == b.details@.len() && (forall|i: int|
            0 <= i < a.details@.len() ==> #[trigger] a.details@[i]@ == b.details@[i]@)
            && !is_nan_bits(a.confidence_bits) && a.confidence_bits == b.confidence_bits)
            ==> a.eq_spec(&b),
{
    lemma_texts_equal(a.details@, b.details@);
}

/// Alert message: something that needs attention.
#[derive(Debug, Clone, PartialEq)]
pub struct AlertMessage {
    /// Alert severity.
    pub severity: AlertSeverity,
    /// What happened.
    pub message: String,
    /// Suggested action (if any).
    pub action: Option<String>,
}

/// Alert severity levels.
#[derive(Debug, Clone, Copy, PartialEq, Eq, Structural)]
pub enum AlertSeverity {
    Info,
    Warning,
    Critical,
}

} // verus!
