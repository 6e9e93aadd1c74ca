//! Monotonic execution counters keyed by tool name and outcome.
//!
//! Every invocation of a tool increments exactly one counter, keyed by the
//! tool's name and the outcome class, so backend failures are externally
//! observable without log-scraping. The unverified shell renders these
//! counts; the bookkeeping itself is verified here.

use vstd::prelude::*;

use crate::errors::GatewayError;

verus! {

/// Outcome class of one tool invocation, the counter's second key.
#[derive(Debug, Clone, Copy, PartialEq, Eq, Structural)]
pub enum ExecStatus {
    Success,
    Error,
    NotFound,
}

/// The label each outcome class carries on the wire.
pub open spec fn status_label_spec(s: ExecStatus) -> Seq<char> {
    match s {
        ExecStatus::Success => "success"@,
        ExecStatus::Error => "error"@,
        ExecStatus::NotFound => "not_found"@,
    }
}

impl ExecStatus {
    pub fn label(&self) -> (r: &'static str)
        ensures
            r@ == status_label_spec(*self),
    {
        match self {
            ExecStatus::Success => "success",
            ExecStatus::Error => "error",
            ExecStatus::NotFound => "not_found",
        }
    }
}

/// The outcome class of a finished execution.
pub fn status_of_result(r: &Result<String, GatewayError>) -> (s: ExecStatus)
    ensures
        s == match r {
            Ok(_) => ExecStatus::Success,
            Err(GatewayError::NotFound { .. }) => ExecStatus::NotFound,
            Err(_) => ExecStatus::Error,
        },
{
    match r {
        Ok(_) => ExecStatus::Success,
        Err(GatewayError::NotFound { .. }) => ExecStatus::NotFound,
        Err(_) => ExecStatus::Error,
    }
}

/// Mathematical image of one counter.
pub struct PointModel {
    pub tool: Seq<char>,
    pub status: ExecStatus,
    pub count: u64,
}

/// One counter: a tool name, an outcome class, and how often that pair was
/// observed.
#[derive(Debug)]
pub struct MetricPoint {
    pub tool: String,
    pub status: ExecStatus,
    pub count: u64,
}

impl View for MetricPoint {
    type V = PointModel;

    open spec fn view(&self) -> PointModel {
        PointModel { tool: self.tool@, status: self.status, count: self.count }
    }
}

impl DeepView for MetricPoint {
    type V = PointModel;

    open spec fn deep_view(&self) -> PointModel {
        self.view()
    }
}

impl Clone for MetricPoint {
    fn clone(&self) -> (r: Self)
        ensures
            r@ == self@,
    {
        MetricPoint { tool: self.tool.clone(), status: self.status, count: self.count }
    }
}

pub open spec fn point_key(p: PointModel) -> (Seq<char>, ExecStatus) {
    (p.tool, p.status)
}

/// No two counters share a key.
pub open spec fn counters_wf(s: Seq<PointModel>) -> bool {
    forall|i: int, j: int|
        0 <= i < j < s.len() ==> #[trigger] point_key(s[i]) != #[trigger] point_key(s[j])
}

/// The counters as a finite map from key to count.
pub open spec fn counts_of(s: Seq<PointModel>) -> Map<(Seq<char>, ExecStatus), u64>
    decreases s.len(),
{
    if s.len() == 0 {
        Map::empty()
    } else {
        counts_of(s.drop_last()).insert(point_key(s.last()), s.last().count)
    }
}

/// The count recorded under a key, zero when none is.
pub open spec fn count_at(m: Map<(Seq<char>, ExecStatus), u64>, k: (Seq<char>, ExecStatus)) -> u64 {
    if m.contains_key(k) {
        m[k]
    } else {
        0u64
    }
}

/// One more observation: the count grows by one, saturating at the top.
pub open spec fn bumped(c: u64) -> u64 {
    if c == u64::MAX {
        c
    } else {
        (c + 1) as u64
    }
}

proof fn lemma_counts_of_index(s: Seq<PointModel>, i: int)
    requires
        counters_wf(s),
        0 <= i < s.len(),
    ensures
        counts_of(s).contains_key(point_key(s[i])),
        counts_of(s)[point_key(s[i])] == s[i].count,
    decreases s.len(),
{
    if i == s.len() - 1 {
    } else {
        assert(point_key(s[i]) != point_key(s.last()));
        assert(s.drop_last()[i] == s[i]);
        lemma_counts_of_index(s.drop_last(), i);
    }
}

proof fn lemma_counts_of_domain(s: Seq<PointModel>, k: (Seq<char>, ExecStatus))
    requires
        counts_of(s).contains_key(k),
    ensures
        exists|i: int| 0 <= i < s.len() && #[trigger] point_key(s[i]) == k,
    decreases s.len(),
{
    if s.len() == 0 {
    } else if point_key(s.last()) == k {
        assert(point_key(s[s.len() - 1]) == k);
    } else {
        lemma_counts_of_domain(s.drop_last(), k);
        let i = choose|i: int|
            0 <= i < s.drop_last().len() && #[trigger] point_key(s.drop_last()[i]) == k;
        assert(point_key(s[i]) == k);
    }
}

proof fn lemma_counts_of_update(s: Seq<PointModel>, i: int, p: PointModel)
    requires
        counters_wf(s),
        0 <= i < s.len(),
        point_key(s[i]) == point_key(p),
    ensures
        counts_of(s.update(i, p)) == counts_of(s).insert(point_key(p), p.count),
    decreases s.len(),
{
    let t = s.update(i, p);
    if i == s.len() - 1 {
        assert(t.drop_last() =~= s.drop_last());
        assert(t.last() == p);
        assert(counts_of(s).insert(point_key(p), p.count) =~= counts_of(s.drop_last()).insert(
            point_key(p),
            p.count,
        ));
    } else {
        assert(t.drop_last() =~= s.drop_last().update(i, p));
        assert(t.last() == s.last());
        assert(s.drop_last()[i] == s[i]);
        lemma_counts_of_update(s.drop_last(), i, p);
        assert(point_key(s[i]) != point_key(s[s.len() - 1]));
        assert(counts_of(s.drop_last()).insert(point_key(p), p.count).insert(
            point_key(s.last()),
            s.last().count,
        ) =~= counts_of(s.drop_last()).insert(point_key(s.last()), s.last().count).insert(
            point_key(p),
            p.count,
        ));
    }
}

/// The per-tool, per-outcome execution counters.
pub struct ExecutionMetrics {
    points: Vec<MetricPoint>,
}

impl View for ExecutionMetrics {
    type V = Seq<PointModel>;

    closed spec fn view(&self) -> Seq<PointModel> {
        self.points.deep_view()
    }
}

impl ExecutionMetrics {
    pub open spec fn wf(&self) -> bool {
        counters_wf(self@)
    }

    pub fn new() -> (r: ExecutionMetrics)
        ensures
            r.wf(),
            r@ =~= Seq::<PointModel>::empty(),
    {
        ExecutionMetrics { points: Vec::new() }
    }

    fn find_index(&self, tool: &String, status: ExecStatus) -> (r: Option<usize>)
        ensures
            match r {
                Some(i) => i < self@.len() && point_key(self@[i as int]) == (tool@, status),
                None => forall|i: int|
                    0 <= i < self@.len() ==> #[trigger] point_key(self@[i]) != (tool@, status),
            },
    {
        let n = self.points.len();
        let mut i: usize = 0;
        while i < n
            invariant
                n == self@.len(),
                i <= n,
                forall|j: int| 0 <= j < i ==> #[trigger] point_key(self@[j]) != (tool@, status),
            decreases n - i,
        {
            let p = &self.points[i];
            if p.status == status && p.tool == *tool {
                assert(point_key(self@[i as int]) == (tool@, status));
                return Some(i);
            }
            assert(point_key(self@[i as int]) != (tool@, status));
            i = i + 1;
        }
        None
    }

    /// Record one invocation outcome: the counter under `(tool, status)`
    /// grows by one (from zero if it was never observed), and no other
    /// counter moves.
    pub fn record(&mut self, tool: &String, status: ExecStatus)
        requires
            old(self).wf(),
        ensures
            final(self).wf(),
            counts_of(final(self)@) == counts_of(old(self)@).insert(
                (tool@, status),
                bumped(count_at(counts_of(old(self)@), (tool@, status))),
            ),
    {
        let ghost old_seq = self@;
        match self.find_index(tool, status) {
            Some(i) => {
                proof {
                    lemma_counts_of_index(old_seq, i as int);
                }
                let prior = self.points[i].count;
                let next = if prior == u64::MAX {
                    prior
                } else {
                    prior + 1
                };
                let p = MetricPoint { tool: tool.clone(), status, count: next };
                let ghost pm = p@;
                proof {
                    lemma_counts_of_update(old_seq, i as int, pm);
                }
                self.points.remove(i);
                self.points.insert(i, p);
                proof {
                    assert(self@ =~= old_seq.update(i as int, pm));
                    assert forall|a: int, b: int| 0 <= a < b < self@.len() implies #[trigger] point_key(
                        self@[a],
                    ) != #[trigger] point_key(self@[b]) by {
                        assert(point_key(old_seq[a]) != point_key(old_seq[b]));
                        assert(point_key(self@[a]) == if a == i {
                            point_key(pm)
                        } else {
                            point_key(old_seq[a])
                        });
                        assert(point_key(self@[b]) == if b == i {
                            point_key(pm)
                        } else {
                            point_key(old_seq[b])
                        });
                    }
                }
            },
            None => {
                let p = MetricPoint { tool: tool.clone(), status, count: 1 };
                let ghost pm = p@;
                self.points.push(p);
                proof {
                    assert(self@ =~= old_seq.push(pm));
                    assert(self@.drop_last() =~= old_seq);
                    if counts_of(old_seq).contains_key(point_key(pm)) {
                        lemma_counts_of_domain(old_seq, point_key(pm));
                        assert(false);
                    }
                    assert forall|a: int, b: int| 0 <= a < b < self@.len() implies #[trigger] point_key(
                        self@[a],
                    ) != #[trigger] point_key(self@[b]) by {
                        if b < self@.len() - 1 {
                            assert(point_key(old_seq[a]) != point_key(old_seq[b]));
                        } else {
                            assert(point_key(self@[a]) == point_key(old_seq[a]));
                        }
                    }
                }
            },
        }
    }

    /// Read one counter; zero when the pair was never observed.
    pub fn get(&self, tool: &String, status: ExecStatus) -> (r: u64)
        requires
            self.wf(),
        ensures
            r == count_at(counts_of(self@), (tool@, status)),
    {
        match self.find_index(tool, status) {
            Some(i) => {
                proof {
                    lemma_counts_of_index(self@, i as int);
                }
                self.points[i].count
            },
            None => {
                proof {
                    if counts_of(self@).contains_key((tool@, status)) {
                        lemma_counts_of_domain(self@, (tool@, status));
                        assert(false);
                    }
                }
                0
            },
        }
    }

    /// Every counter, for rendering by the shell.
    pub fn snapshot(&self) -> (r: Vec<MetricPoint>)
        ensures
            r.deep_view() == self@,
    {
        let n = self.points.len();
        let mut out: Vec<MetricPoint> = Vec::new();
        let mut i: usize = 0;
        proof {
            assert(out.deep_view() =~= self@.take(0int));
        }
        while i < n
            invariant
                n == self@.len(),
                i <= n,
                out.deep_view() == self@.take(i as int),
            decreases n - i,
        {
            let p = self.points[i].clone();
            let ghost pv = p@;
            let ghost pre = out.deep_view();
            out.push(p);
            proof {
                assert(out.deep_view() =~= pre.push(pv));
                assert(pre.push(pv) =~= self@.take(i as int + 1));
            }
            i = i + 1;
        }
        proof {
            assert(self@.take(n as int) =~= self@);
        }
        out
    }
}


/// Mathematical image of one tool's latency summary.
pub struct LatencyModel {
    pub tool: Seq<char>,
    pub count: u64,
    pub total_ms: u64,
    pub max_ms: u64,
}

/// Latency summary of one tool: how many timed invocations it saw, their
/// summed duration, and the slowest one, in whole milliseconds.
#[derive(Debug)]
pub struct LatencyPoint {
    pub tool: String,
    pub count: u64,
    pub total_ms: u64,
    pub max_ms: u64,
}

impl View for LatencyPoint {
    type V = LatencyModel;

    open spec fn view(&self) -> LatencyModel {
        LatencyModel {
            tool: self.tool@,
            count: self.count,
            total_ms: self.total_ms,
            max_ms: self.max_ms,
        }
    }
}

impl DeepView for LatencyPoint {
    type V = LatencyModel;

    open spec fn deep_view(&self) -> LatencyModel {
        self.view()
    }
}

impl Clone for LatencyPoint {
    fn clone(&self) -> (r: Self)
        ensures
            r@ == self@,
    {
        LatencyPoint {
            tool: self.tool.clone(),
            count: self.count,
            total_ms: self.total_ms,
            max_ms: self.max_ms,
        }
    }
}

/// No two summaries describe the same tool.
pub open spec fn latencies_wf(s: Seq<LatencyModel>) -> bool {
    forall|i: int, j: int| 0 <= i < j < s.len() ==> #[trigger] s[i].tool != #[trigger] s[j].tool
}

/// The summaries as a finite map from tool name to summary.
pub open spec fn latencies_of(s: Seq<LatencyModel>) -> Map<Seq<char>, LatencyModel>
    decreases s.len(),
{
    if s.len() == 0 {
        Map::empty()
    } else {
        latencies_of(s.drop_last()).insert(s.last().tool, s.last())
    }
}

/// Addition that stops at the top instead of wrapping.
pub open spec fn sat_add(a: u64, b: u64) -> u64 {
    if a + b > u64::MAX {
        u64::MAX
    } else {
        (a + b) as u64
    }
}

/// The summary after one more observation of `ms` for `tool`.
pub open spec fn observed(
    m: Map<Seq<char>, LatencyModel>,
    tool: Seq<char>,
    ms: u64,
) -> LatencyModel {
    if m.contains_key(tool) {
        let p = m[tool];
        LatencyModel {
            tool,
            count: bumped(p.count),
            total_ms: sat_add(p.total_ms, ms),
            max_ms: if ms > p.max_ms {
                ms
            } else {
                p.max_ms
            },
        }
    } else {
        LatencyModel { tool, count: 1, total_ms: ms, max_ms: ms }
    }
}

proof fn lemma_latencies_of_index(s: Seq<LatencyModel>, i: int)
    requires
        latencies_wf(s),
        0 <= i < s.len(),
    ensures
        latencies_of(s).contains_key(s[i].tool),
        latencies_of(s)[s[i].tool] == s[i],
    decreases s.len(),
{
    if i == s.len() - 1 {
    } else {
        assert(s[i].tool != s.last().tool);
        assert(s.drop_last()[i] == s[i]);
        lemma_latencies_of_index(s.drop_last(), i);
    }
}

proof fn lemma_latencies_of_domain(s: Seq<LatencyModel>, k: Seq<char>)
    requires
        latencies_of(s).contains_key(k),
    ensures
        exists|i: int| 0 <= i < s.len() && #[trigger] s[i].tool == k,
    decreases s.len(),
{
    if s.len() == 0 {
    } else if s.last().tool == k {
        assert(s[s.len() - 1].tool == k);
    } else {
        lemma_latencies_of_domain(s.drop_last(), k);
        let i = choose|i: int| 0 <= i < s.drop_last().len() && #[trigger] s.drop_last()[i].tool == k;
        assert(s[i].tool == k);
    }
}

proof fn lemma_latencies_of_update(s: Seq<LatencyModel>, i: int, p: LatencyModel)
    requires
        latencies_wf(s),
        0 <= i < s.len(),
        s[i].tool == p.tool,
    ensures
        latencies_of(s.update(i, p)) == latencies_of(s).insert(p.tool, p),
    decreases s.len(),
{
    let t = s.update(i, p);
    if i == s.len() - 1 {
        assert(t.drop_last() =~= s.drop_last());
        assert(t.last() == p);
        assert(latencies_of(s).insert(p.tool, p) =~= latencies_of(s.drop_last()).insert(
            p.tool,
            p,
        ));
    } else {
        assert(t.drop_last() =~= s.drop_last().update(i, p));
        assert(t.last() == s.last());
        assert(s.drop_last()[i] == s[i]);
        lemma_latencies_of_update(s.drop_last(), i, p);
        assert(s[i].tool != s[s.len() - 1].tool);
        assert(latencies_of(s.drop_last()).insert(p.tool, p).insert(
            s.last().tool,
            s.last(),
        ) =~= latencies_of(s.drop_last()).insert(s.last().tool, s.last()).insert(p.tool, p));
    }
}

/// The per-tool latency summaries. The shell feeds one observation per
/// timed backend call; together with the outcome counters these make every
/// backend's behaviour observable without log-scraping.
pub struct LatencyStats {
    points: Vec<LatencyPoint>,
}

impl View for LatencyStats {
    type V = Seq<LatencyModel>;

    closed spec fn view(&self) -> Seq<LatencyModel> {
        self.points.deep_view()
    }
}

impl LatencyStats {
    pub open spec fn wf(&self) -> bool {
        latencies_wf(self@)
    }

    pub fn new() -> (r: LatencyStats)
        ensures
            r.wf(),
            r@ =~= Seq::<LatencyModel>::empty(),
    {
        LatencyStats { points: Vec::new() }
    }

    fn find_index(&self, tool: &String) -> (r: Option<usize>)
        ensures
            match r {
                Some(i) => i < self@.len() && self@[i as int].tool == tool@,
                None => forall|i: int| 0 <= i < self@.len() ==> #[trigger] self@[i].tool != tool@,
            },
    {
        let n = self.points.len();
        let mut i: usize = 0;
        while i < n
            invariant
                n == self@.len(),
                i <= n,
                forall|j: int| 0 <= j < i ==> #[trigger] self@[j].tool != tool@,
            decreases n - i,
        {
            if self.points[i].tool == *tool {
                assert(self@[i as int].tool == tool@);
                return Some(i);
            }
            assert(self@[i as int].tool != tool@);
            i = i + 1;
        }
        None
    }

    /// Record that one timed call of `tool` took `ms` milliseconds: its
    /// summary gains the observation, and no other tool's summary moves.
    pub fn observe(&mut self, tool: &String, ms: u64)
        requires
            old(self).wf(),
        ensures
            final(self).wf(),
            latencies_of(final(self)@) == latencies_of(old(self)@).insert(
                tool@,
                observed(latencies_of(old(self)@), tool@, ms),
            ),
    {
        let ghost old_seq = self@;
        match self.find_index(tool) {
            Some(i) => {
                proof {
                    lemma_latencies_of_index(old_seq, i as int);
                }
                let prior = &self.points[i];
                let count = if prior.count == u64::MAX {
                    prior.count
                } else {
                    prior.count + 1
                };
                let total_ms = if ms > u64::MAX - prior.total_ms {
                    u64::MAX
                } else {
                    prior.total_ms + ms
                };
                let max_ms = if ms > prior.max_ms {
                    ms
                } else {
                    prior.max_ms
                };
                let p = LatencyPoint { tool: tool.clone(), count, total_ms, max_ms };
                let ghost pm = p@;
                proof {
                    lemma_latencies_of_update(old_seq, i as int, pm);
                }
                self.points.remove(i);
                self.points.insert(i, p);
                proof {
                    assert(self@ =~= old_seq.update(i as int, pm));
                    assert forall|a: int, b: int| 0 <= a < b < self@.len() implies #[trigger] self@[a].tool
                        != #[trigger] self@[b].tool by {
                        assert(old_seq[a].tool != old_seq[b].tool);
                        assert(self@[a].tool == if a == i {
                            pm.tool
                        } else {
                            old_seq[a].tool
                        });
                        assert(self@[b].tool == if b == i {
                            pm.tool
                        } else {
                            old_seq[b].tool
                        });
                    }
                }
            },
            None => {
                let p = LatencyPoint { tool: tool.clone(), count: 1, total_ms: ms, max_ms: ms };
                let ghost pm = p@;
                self.points.push(p);
                proof {
                    assert(self@ =~= old_seq.push(pm));
                    assert(self@.drop_last() =~= old_seq);
                    if latencies_of(old_seq).contains_key(pm.tool) {
                        lemma_latencies_of_domain(old_seq, pm.tool);
                        assert(false);
                    }
                    assert forall|a: int, b: int| 0 <= a < b < self@.len() implies #[trigger] self@[a].tool
                        != #[trigger] self@[b].tool by {
                        if b < self@.len() - 1 {
                            assert(old_seq[a].tool != old_seq[b].tool);
                        } else {
                            assert(self@[a].tool == old_seq[a].tool);
                        }
                    }
                }
            },
        }
    }

    /// Read one tool's summary, if it was ever timed.
    pub fn get(&self, tool: &String) -> (r: Option<LatencyPoint>)
        requires
            self.wf(),
        ensures
            match r {
                Some(p) => latencies_of(self@).contains_key(tool@) && latencies_of(self@)[tool@]
                    == p@,
                None => !latencies_of(self@).contains_key(tool@),
            },
    {
        match self.find_index(tool) {
            Some(i) => {
                proof {
                    lemma_latencies_of_index(self@, i as int);
                }
                Some(self.points[i].clone())
            },
            None => {
                proof {
                    if latencies_of(self@).contains_key(tool@) {
                        lemma_latencies_of_domain(self@, tool@);
                        assert(false);
                    }
                }
                None
            },
        }
    }
}

} // verus!
