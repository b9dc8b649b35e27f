//! What a relay benchmark sends: bursts of a repeated payload.
use vstd::prelude::*;

verus! {

/// One payload, sent `repeat` times.
#[derive(Clone, Debug)]
pub struct TrafficBurst {
    payload: Vec<u8>,
    repeat: usize,
}

impl TrafficBurst {
    pub closed spec fn spec_payload(&self) -> Seq<u8> {
        self.payload@
    }

    pub closed spec fn spec_repeat(&self) -> nat {
        self.repeat as nat
    }

    /// The bytes the burst sends in all.
    pub open spec fn spec_total_bytes(&self) -> nat {
        self.spec_payload().len() * self.spec_repeat()
    }

    pub fn new(payload: Vec<u8>, repeat: usize) -> (b: Self)
        ensures
            b.spec_payload() == payload@,
            b.spec_repeat() == repeat,
    {
        TrafficBurst { payload, repeat }
    }

    pub fn payload(&self) -> (p: &[u8])
        ensures
            p@ == self.spec_payload(),
    {
        self.payload.as_slice()
    }

    pub fn repeat(&self) -> (r: usize)
        ensures
            r == self.spec_repeat(),
    {
        self.repeat
    }

    /// The bytes the burst sends in all.
    pub fn total_bytes(&self) -> (t: u64)
        requires
            self.spec_total_bytes() <= u64::MAX,
        ensures
            t == self.spec_total_bytes(),
    {
        let len = self.payload.len() as u64;
        let repeat = self.repeat as u64;
        assert(len * repeat == self.spec_total_bytes());
        len * repeat
    }
}

/// The bytes that `bursts` send in all.
pub open spec fn spec_sum_bytes(bursts: Seq<TrafficBurst>) -> nat
    decreases bursts.len(),
{
    if bursts.len() == 0 {
        0
    } else {
        spec_sum_bytes(bursts.drop_last()) + bursts.last().spec_total_bytes()
    }
}

/// A named sequence of bursts, with the bytes it sends in all.
#[derive(Debug)]
pub struct TrafficPlan {
    label: &'static str,
    bursts: Vec<TrafficBurst>,
    total_bytes: u64,
}

impl TrafficPlan {
    #[verifier::type_invariant]
    spec fn total_is_sum(self) -> bool {
        self.total_bytes == spec_sum_bytes(self.bursts@)
    }

    pub closed spec fn spec_label(&self) -> Seq<char> {
        self.label@
    }

    pub closed spec fn spec_bursts(&self) -> Seq<TrafficBurst> {
        self.bursts@
    }

    /// A plan named `label` that sends `bursts` in order.
    pub fn new(label: &'static str, bursts: Vec<TrafficBurst>) -> (p: Self)
        requires
            spec_sum_bytes(bursts@) <= u64::MAX,
        ensures
            p.spec_label() == label@,
            p.spec_bursts() == bursts@,
    {
        let mut total: u64 = 0;
        let mut i: usize = 0;
        while i < bursts.len()
            invariant
                i <= bursts@.len(),
                spec_sum_bytes(bursts@) <= u64::MAX,
                total == spec_sum_bytes(bursts@.take(i as int)),
            decreases bursts@.len() - i,
        {
            proof {
                lemma_sum_prefix(bursts@, i as int + 1);
                assert(bursts@.take(i + 1).drop_last() =~= bursts@.take(i as int));
            }
            total = total + bursts[i].total_bytes();
            i = i + 1;
        }
        assert(bursts@.take(i as int) =~= bursts@);
        TrafficPlan { label, bursts, total_bytes: total }
    }

    pub fn label(&self) -> (l: &'static str)
        ensures
            l@ == self.spec_label(),
    {
        self.label
    }

    pub fn bursts(&self) -> (b: &[TrafficBurst])
        ensures
            b@ == self.spec_bursts(),
    {
        self.bursts.as_slice()
    }

    /// The bytes the plan sends in all.
    pub fn total_bytes(&self) -> (t: u64)
        ensures
            t == spec_sum_bytes(self.spec_bursts()),
    {
        proof {
            use_type_invariant(self);
        }
        self.total_bytes
    }
}

/// A prefix of a plan sends no more than the whole plan.
proof fn lemma_sum_prefix(bursts: Seq<TrafficBurst>, k: int)
    requires
        0 <= k <= bursts.len(),
    ensures
        spec_sum_bytes(bursts.take(k)) <= spec_sum_bytes(bursts),
    decreases bursts.len() - k,
{
    if k < bursts.len() {
        lemma_sum_prefix(bursts, k + 1);
        assert(bursts.take(k + 1).drop_last() =~= bursts.take(k));
    } else {
        assert(bursts.take(k) =~= bursts);
    }
}

/// The relay implementations a benchmark can compare.
#[derive(Clone, Copy, Debug, PartialEq, Eq, Structural)]
pub enum RelayImplementation {
    Prism,
    Sync,
    PlainCopy,
    TokioAsync,
    CustomRelay,
}

} // verus!
