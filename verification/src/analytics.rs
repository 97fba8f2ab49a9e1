//! Throughput that the server counts, and the moving average it reports.
use simple_moving_average::{SingleSumSMA, SMA};
use vstd::prelude::*;

verus! {

/// Bytes that came in.
#[derive(Copy, Clone, Debug)]
pub enum ThroughputAnalytics {
    AudienceMocapBytesIn(usize),
    AudienceOSCBytesIn(usize),
    PerformerOSCBytesIn(usize),
    Audience,
}

/// The number of most recent samples that the average is taken over.
pub const SAMPLE_WINDOW: usize = 100;

/// The largest sample: a datagram read into the motion-capture listener's buffer.
pub const MAX_SAMPLE: usize = 10000;

#[verifier::external_type_specification]
#[verifier::external_body]
#[verifier::reject_recursive_types(Sample)]
#[verifier::reject_recursive_types(Divisor)]
pub struct ExSingleSumSMA<Sample, Divisor, const WINDOW_SIZE: usize>(
    SingleSumSMA<Sample, Divisor, WINDOW_SIZE>,
);

/// The samples in a moving average's window, oldest first.
pub uninterp spec fn sma_window(s: SingleSumSMA<usize, usize, 100>) -> Seq<usize>;

/// The sum of `s`.
pub open spec fn seq_sum(s: Seq<usize>) -> int
    decreases s.len(),
{
    if s.len() == 0 {
        0
    } else {
        seq_sum(s.drop_last()) + s.last()
    }
}

/// The window after sample `x` comes in: `x` at the end, the oldest sample
/// leaving once the window is full.
pub open spec fn window_after(w: Seq<usize>, x: usize) -> Seq<usize> {
    if w.len() < SAMPLE_WINDOW {
        w.push(x)
    } else {
        w.drop_first().push(x)
    }
}

/// The average of a window, rounded down; zero for an empty window.
pub open spec fn window_average(w: Seq<usize>) -> int {
    if w.len() == 0 {
        0
    } else {
        seq_sum(w) / (w.len() as int)
    }
}

/// `SingleSumSMA::new`: a moving average with an empty window.
#[verifier::external_body]
fn sma_new() -> (r: SingleSumSMA<usize, usize, 100>)
    ensures
        sma_window(r) == Seq::<usize>::empty(),
{
    SingleSumSMA::new()
}

/// `SMA::add_sample` on a `SingleSumSMA`: the running sum takes the sample
/// before the oldest one leaves, so that sum must fit.
#[verifier::external_body]
fn sma_add_sample(s: &mut SingleSumSMA<usize, usize, 100>, x: usize)
    requires
        seq_sum(sma_window(*old(s))) + x <= usize::MAX,
    ensures
        sma_window(*final(s)) == window_after(sma_window(*old(s)), x),
{
    s.add_sample(x)
}

/// `SMA::get_average` on a `SingleSumSMA`: the running sum divided by the
/// number of samples, or the (zero) sum while there are none.
#[verifier::external_body]
fn sma_get_average(s: &SingleSumSMA<usize, usize, 100>) -> (r: usize)
    ensures
        r == window_average(sma_window(*s)),
{
    s.get_average()
}

proof fn lemma_seq_sum_bound(s: Seq<usize>)
    requires
        forall|i: int| 0 <= i < s.len() ==> s[i] <= MAX_SAMPLE,
    ensures
        0 <= seq_sum(s) <= s.len() * MAX_SAMPLE,
    decreases s.len(),
{
    if s.len() > 0 {
        lemma_seq_sum_bound(s.drop_last());
    }
}

/// The averages that the analytics task keeps.
pub struct AnalyticsState {
    performer_bytes_in: SingleSumSMA<usize, usize, 100>,
}

impl AnalyticsState {
    /// The window of performer motion-capture byte counts.
    pub closed spec fn performer_window(&self) -> Seq<usize> {
        sma_window(self.performer_bytes_in)
    }

    /// The window holds at most a full window of samples, none over the largest.
    pub closed spec fn wf(&self) -> bool {
        let w = sma_window(self.performer_bytes_in);
        &&& w.len() <= SAMPLE_WINDOW
        &&& forall|i: int| 0 <= i < w.len() ==> w[i] <= MAX_SAMPLE
    }

    /// Nothing counted yet.
    pub fn new() -> (r: Self)
        ensures
            r.wf(),
            r.performer_window() == Seq::<usize>::empty(),
    {
        Self { performer_bytes_in: sma_new() }
    }

    /// Counts a throughput report. Only performer motion-capture byte counts
    /// are averaged; the other reports are not handled.
    pub fn record(&mut self, t: ThroughputAnalytics)
        requires
            old(self).wf(),
            t matches ThroughputAnalytics::PerformerOSCBytesIn(b) && b <= MAX_SAMPLE,
        ensures
            final(self).wf(),
            t matches ThroughputAnalytics::PerformerOSCBytesIn(b) && final(self).performer_window()
                == window_after(old(self).performer_window(), b),
    {
        match t {
            ThroughputAnalytics::PerformerOSCBytesIn(b) => {
                proof {
                    lemma_seq_sum_bound(sma_window(self.performer_bytes_in));
                    assert(sma_window(self.performer_bytes_in).len() * MAX_SAMPLE <= 1000000) by (nonlinear_arith)
                        requires
                            sma_window(self.performer_bytes_in).len() <= SAMPLE_WINDOW,
                    ;
                }
                sma_add_sample(&mut self.performer_bytes_in, b);
                proof {
                    let w = sma_window(self.performer_bytes_in);
                    assert forall|i: int| 0 <= i < w.len() implies w[i] <= MAX_SAMPLE by {}
                }
            },
            _ => {},
        }
    }

    /// The average performer motion-capture byte count over the window.
    pub fn performer_average(&self) -> (r: usize)
        ensures
            r == window_average(self.performer_window()),
    {
        sma_get_average(&self.performer_bytes_in)
    }
}

} // verus!
