//! The metrics sink and the HTTP request interceptor.
//!
//! [`PrometheusMetrics`] owns the two request-level metric families —
//! `http_requests_total` and `http_requests_duration_seconds`, both keyed
//! by the label triple of [`crate::labels`] — and the registry their names
//! are registered in. [`ArcRwLockPrometheus`] wraps the sink as the handle
//! a request pipeline attaches; every exchange is timed on entry and
//! recorded exactly once on exit. Durations are kept in whole nanoseconds.

use vstd::prelude::*;

use crate::assoc::{
    assoc_map, distinct_keys, lemma_assoc_map_dom, lemma_assoc_map_index, lemma_assoc_map_push,
    lemma_assoc_map_update,
};
use crate::labels::{
    fq_name, labeled_view, lemma_fq_name_valid, resolve_http_labels, spec_fq_name,
    spec_http_labels, spec_valid_metric_name, LabelValues, LabelView,
};
use crate::registry::{MetricOpts, Registry};

verus! {

/// Count a counter series reaches after one more hit: one for a fresh
/// label triple, one more than before otherwise, held at the top of the
/// counter's range instead of wrapping.
pub open spec fn spec_bump(m: Map<LabelView, u64>, k: LabelView) -> u64 {
    if m.dom().contains(k) {
        if m[k] == u64::MAX {
            u64::MAX
        } else {
            (m[k] + 1) as u64
        }
    } else {
        1
    }
}

/// Observations a histogram series holds: none for a fresh label triple.
pub open spec fn spec_obs(m: Map<LabelView, Seq<u64>>, k: LabelView) -> Seq<u64> {
    if m.dom().contains(k) {
        m[k]
    } else {
        Seq::empty()
    }
}

/// Pair sequence of a histogram's children under views.
pub open spec fn observations_view(s: Seq<(LabelValues, Vec<u64>)>) -> Seq<(LabelView, Seq<u64>)> {
    s.map_values(|c: (LabelValues, Vec<u64>)| (c.0@, c.1@))
}

/// Counter family partitioned by label triples; each series holds how
/// often it was hit.
#[derive(Clone)]
pub struct IntCounterVec {
    opts: MetricOpts,
    children: Vec<(LabelValues, u64)>,
}

impl IntCounterVec {
    /// The series this family holds, in creation order.
    pub closed spec fn spec_entries(&self) -> Seq<(LabelValues, u64)> {
        self.children@
    }

    /// The family's name.
    pub closed spec fn spec_name(&self) -> Seq<char> {
        self.opts.name@
    }

    /// The family's help line.
    pub closed spec fn spec_help(&self) -> Seq<char> {
        self.opts.help@
    }

    /// The counts this family denotes, as a map from label triple to count.
    pub open spec fn counts(&self) -> Map<LabelView, u64> {
        assoc_map(labeled_view(self.spec_entries()))
    }

    /// Each label triple names at most one series.
    pub open spec fn wf(&self) -> bool {
        distinct_keys(labeled_view(self.spec_entries()))
    }

    /// Creates the family with no series.
    pub fn new(opts: MetricOpts) -> (r: Self)
        ensures
            r.wf(),
            r.counts() == Map::<LabelView, u64>::empty(),
            r.spec_name() == opts.name@,
            r.spec_help() == opts.help@,
    {
        let r = Self { opts, children: Vec::new() };
        proof {
            assert(labeled_view(r.children@) =~= Seq::<(LabelView, u64)>::empty());
        }
        r
    }

    /// Position of the series for a label triple, if one exists.
    fn position(&self, labels: &LabelValues) -> (r: Option<usize>)
        ensures
            match r {
                Some(i) => i < self.children@.len() && self.children@[i as int].0@ == labels@,
                None => forall|j: int|
                    0 <= j < self.children@.len() ==> self.children@[j].0@ != labels@,
            },
    {
        let n = self.children.len();
        let mut idx: usize = 0;
        while idx < n
            invariant
                idx <= n,
                n == self.children@.len(),
                forall|j: int| 0 <= j < idx ==> self.children@[j].0@ != labels@,
            decreases n - idx,
        {
            if self.children[idx].0.same_as(labels) {
                return Some(idx);
            }
            idx += 1;
        }
        None
    }

    /// Records one hit: the series for the label triple grows by one —
    /// saturating at the top of its range — and every other series keeps
    /// its count. A fresh label triple starts at one.
    pub fn inc(&mut self, labels: &LabelValues)
        requires
            old(self).wf(),
        ensures
            final(self).wf(),
            final(self).counts() == old(self).counts().insert(
                labels@,
                spec_bump(old(self).counts(), labels@),
            ),
            final(self).spec_name() == old(self).spec_name(),
            final(self).spec_help() == old(self).spec_help(),
    {
        let ghost s0 = self.children@;
        match self.position(labels) {
            Some(i) => {
                let (l, v) = self.children.remove(i);
                let bumped = if v == u64::MAX {
                    v
                } else {
                    v + 1
                };
                self.children.insert(i, (l, bumped));
                proof {
                    assert(self.children@ =~= s0.update(i as int, (s0[i as int].0, bumped)));
                    assert(labeled_view(self.children@) =~= labeled_view(s0).update(
                        i as int,
                        (s0[i as int].0@, bumped),
                    ));
                    lemma_assoc_map_index(labeled_view(s0), i as int);
                    lemma_assoc_map_update(labeled_view(s0), i as int, bumped);
                    assert(final(self).counts() =~= old(self).counts().insert(
                        labels@,
                        spec_bump(old(self).counts(), labels@),
                    ));
                }
            },
            None => {
                self.children.push((labels.clone(), 1));
                proof {
                    assert(labeled_view(self.children@) =~= labeled_view(s0).push(
                        (labels@, 1u64),
                    ));
                    lemma_assoc_map_push(labeled_view(s0), labels@, 1u64);
                    lemma_assoc_map_dom(labeled_view(s0));
                    assert(!old(self).counts().dom().contains(labels@));
                }
            },
        }
    }

    /// The count a label triple's series has reached; zero for a series
    /// never hit.
    pub fn get(&self, labels: &LabelValues) -> (r: u64)
        requires
            self.wf(),
        ensures
            self.counts().dom().contains(labels@) ==> r == self.counts()[labels@],
            !self.counts().dom().contains(labels@) ==> r == 0,
    {
        match self.position(labels) {
            Some(i) => {
                proof {
                    lemma_assoc_map_index(labeled_view(self.children@), i as int);
                }
                self.children[i].1
            },
            None => {
                proof {
                    lemma_assoc_map_dom(labeled_view(self.children@));
                }
                0
            },
        }
    }

    /// The series this family holds, in creation order.
    pub fn entries(&self) -> (r: &Vec<(LabelValues, u64)>)
        ensures
            r@ == self.spec_entries(),
    {
        &self.children
    }

    /// The family's name.
    pub fn name(&self) -> (r: &String)
        ensures
            r@ == self.spec_name(),
    {
        &self.opts.name
    }
}

/// Histogram family partitioned by label triples; each series holds its
/// recorded observations, in order.
#[derive(Clone)]
pub struct HistogramVec {
    opts: MetricOpts,
    children: Vec<(LabelValues, Vec<u64>)>,
}

impl HistogramVec {
    /// The series this family holds, in creation order.
    pub closed spec fn spec_entries(&self) -> Seq<(LabelValues, Vec<u64>)> {
        self.children@
    }

    /// The family's name.
    pub closed spec fn spec_name(&self) -> Seq<char> {
        self.opts.name@
    }

    /// The family's help line.
    pub closed spec fn spec_help(&self) -> Seq<char> {
        self.opts.help@
    }

    /// The observations this family denotes, as a map from label triple to
    /// the series' observations in recording order.
    pub open spec fn data(&self) -> Map<LabelView, Seq<u64>> {
        assoc_map(observations_view(self.spec_entries()))
    }

    /// Each label triple names at most one series.
    pub open spec fn wf(&self) -> bool {
        distinct_keys(observations_view(self.spec_entries()))
    }

    /// Creates the family with no series.
    pub fn new(opts: MetricOpts) -> (r: Self)
        ensures
            r.wf(),
            r.data() == Map::<LabelView, Seq<u64>>::empty(),
            r.spec_name() == opts.name@,
            r.spec_help() == opts.help@,
    {
        let r = Self { opts, children: Vec::new() };
        proof {
            assert(observations_view(r.children@) =~= Seq::<(LabelView, Seq<u64>)>::empty());
        }
        r
    }

    /// Position of the series for a label triple, if one exists.
    fn position(&self, labels: &LabelValues) -> (r: Option<usize>)
        ensures
            match r {
                Some(i) => i < self.children@.len() && self.children@[i as int].0@ == labels@,
                None => forall|j: int|
                    0 <= j < self.children@.len() ==> self.children@[j].0@ != labels@,
            },
    {
        let n = self.children.len();
        let mut idx: usize = 0;
        while idx < n
            invariant
                idx <= n,
                n == self.children@.len(),
                forall|j: int| 0 <= j < idx ==> self.children@[j].0@ != labels@,
            decreases n - idx,
        {
            if self.children[idx].0.same_as(labels) {
                return Some(idx);
            }
            idx += 1;
        }
        None
    }

    /// Records one observation: the series for the label triple gains the
    /// value at its end, and every other series keeps its observations. A
    /// fresh label triple starts with this one observation.
    pub fn observe(&mut self, labels: &LabelValues, value: u64)
        requires
            old(self).wf(),
        ensures
            final(self).wf(),
            final(self).data() == old(self).data().insert(
                labels@,
                spec_obs(old(self).data(), labels@).push(value),
            ),
            final(self).spec_name() == old(self).spec_name(),
            final(self).spec_help() == old(self).spec_help(),
    {
        let ghost s0 = self.children@;
        match self.position(labels) {
            Some(i) => {
                let (l, mut obs) = self.children.remove(i);
                let ghost obs0 = obs@;
                obs.push(value);
                self.children.insert(i, (l, obs));
                proof {
                    assert(self.children@ =~= s0.update(
                        i as int,
                        (s0[i as int].0, self.children@[i as int].1),
                    ));
                    assert(observations_view(self.children@) =~= observations_view(s0).update(
                        i as int,
                        (s0[i as int].0@, obs0.push(value)),
                    ));
                    lemma_assoc_map_index(observations_view(s0), i as int);
                    lemma_assoc_map_update(observations_view(s0), i as int, obs0.push(value));
                    assert(final(self).data() =~= old(self).data().insert(
                        labels@,
                        spec_obs(old(self).data(), labels@).push(value),
                    ));
                }
            },
            None => {
                let mut obs: Vec<u64> = Vec::new();
                obs.push(value);
                self.children.push((labels.clone(), obs));
                proof {
                    assert(observations_view(self.children@) =~= observations_view(s0).push(
                        (labels@, seq![value]),
                    ));
                    lemma_assoc_map_push(observations_view(s0), labels@, seq![value]);
                    lemma_assoc_map_dom(observations_view(s0));
                    assert(!old(self).data().dom().contains(labels@));
                    assert(spec_obs(old(self).data(), labels@).push(value) =~= seq![value]);
                }
            },
        }
    }

    /// How many observations a label triple's series holds; zero for a
    /// series never observed.
    pub fn count(&self, labels: &LabelValues) -> (r: usize)
        requires
            self.wf(),
        ensures
            r == spec_obs(self.data(), labels@).len(),
    {
        match self.position(labels) {
            Some(i) => {
                proof {
                    lemma_assoc_map_index(observations_view(self.children@), i as int);
                }
                self.children[i].1.len()
            },
            None => {
                proof {
                    lemma_assoc_map_dom(observations_view(self.children@));
                }
                0
            },
        }
    }

    /// One recorded observation of a label triple's series.
    pub fn observation(&self, labels: &LabelValues, i: usize) -> (r: u64)
        requires
            self.wf(),
            i < spec_obs(self.data(), labels@).len(),
        ensures
            r == spec_obs(self.data(), labels@)[i as int],
    {
        match self.position(labels) {
            Some(p) => {
                proof {
                    lemma_assoc_map_index(observations_view(self.children@), p as int);
                }
                self.children[p].1[i]
            },
            None => {
                proof {
                    lemma_assoc_map_dom(observations_view(self.children@));
                    assert(false);
                }
                0
            },
        }
    }

    /// The series this family holds, in creation order.
    pub fn entries(&self) -> (r: &Vec<(LabelValues, Vec<u64>)>)
        ensures
            r@ == self.spec_entries(),
    {
        &self.children
    }

    /// The family's name.
    pub fn name(&self) -> (r: &String)
        ensures
            r@ == self.spec_name(),
    {
        &self.opts.name
    }
}

} // verus!

verus! {

#[verifier::external_type_specification]
#[verifier::external_body]
pub struct ExInstant(std::time::Instant);

/// Relies on `std::time::Instant::now`: a reading of the monotonic clock.
/// Nothing is promised of the reading — what the clock shows depends on
/// the machine and the moment.
#[verifier::external_body]
fn instant_now() -> std::time::Instant {
    std::time::Instant::now()
}

/// Relies on `std::time::Instant::elapsed`: the time passed since the
/// reading was taken, in whole nanoseconds, held at the top of the range
/// where it does not fit. Nothing is promised of the value — it depends on
/// the moment of the call.
#[verifier::external_body]
fn nanos_since(start: &std::time::Instant) -> u64 {
    u64::try_from(start.elapsed().as_nanos()).unwrap_or(u64::MAX)
}

/// Start mark of one in-flight exchange. It lives exactly as long as the
/// exchange it was taken for: captured on entry, read once on exit, then
/// discarded — never shared across requests.
#[derive(Clone, Copy)]
pub struct TimerStart(pub Option<std::time::Instant>);

impl TimerStart {
    /// Captures the present instant as an exchange's start mark.
    pub fn now() -> (t: TimerStart)
        ensures
            t.0 is Some,
    {
        TimerStart(Some(instant_now()))
    }

    /// The empty mark: no start instant is known.
    pub fn absent() -> (t: TimerStart)
        ensures
            t.0 is None,
    {
        TimerStart(None)
    }

    /// Nanoseconds passed since the start mark, when one is known.
    pub fn elapsed_nanos(&self) -> (r: Option<u64>)
        ensures
            r is Some <==> self.0 is Some,
    {
        match &self.0 {
            Some(start) => Some(nanos_since(start)),
            None => None,
        }
    }
}

/// The request-level metrics sink: both request metric families and the
/// registry their names are registered in.
#[derive(Clone)]
pub struct PrometheusMetrics {
    http_requests_total: IntCounterVec,
    http_requests_duration_seconds: HistogramVec,
    registry: Registry,
}

impl PrometheusMetrics {
    /// The counter family of this sink.
    pub closed spec fn spec_counter(&self) -> IntCounterVec {
        self.http_requests_total
    }

    /// The histogram family of this sink.
    pub closed spec fn spec_histogram(&self) -> HistogramVec {
        self.http_requests_duration_seconds
    }

    /// The registry of this sink.
    pub closed spec fn spec_registry(&self) -> Registry {
        self.registry
    }

    /// Both families keep at most one series per label triple.
    pub open spec fn wf(&self) -> bool {
        self.spec_counter().wf() && self.spec_histogram().wf()
    }

    /// Creates the sink under a namespace prefix: both families start with
    /// no series, carry the prefixed names, and are registered — in order —
    /// in a fresh registry. The namespace must be empty or itself a
    /// well-formed metric name part; anything else would poison both
    /// family names.
    pub fn new(namespace: &str) -> (r: Self)
        requires
            namespace@.len() == 0 || spec_valid_metric_name(namespace@),
        ensures
            r.wf(),
            r.spec_counter().counts() == Map::<LabelView, u64>::empty(),
            r.spec_counter().spec_name() == spec_fq_name(namespace@, "http_requests_total"@),
            r.spec_histogram().data() == Map::<LabelView, Seq<u64>>::empty(),
            r.spec_histogram().spec_name() == spec_fq_name(
                namespace@,
                "http_requests_duration_seconds"@,
            ),
            r.spec_registry().names_view() == seq![
                spec_fq_name(namespace@, "http_requests_total"@),
                spec_fq_name(namespace@, "http_requests_duration_seconds"@),
            ],
    {
        let mut registry = Registry::new();
        let counter_name = fq_name(namespace, "http_requests_total");
        let histogram_name = fq_name(namespace, "http_requests_duration_seconds");
        let http_requests_total = IntCounterVec::new(
            MetricOpts::new(
                counter_name.clone(),
                "Total number of HTTP requests".to_owned(),
            ),
        );
        let http_requests_duration_seconds = HistogramVec::new(
            MetricOpts::new(
                histogram_name.clone(),
                "HTTP request duration in seconds for all requests".to_owned(),
            ),
        );
        proof {
            reveal_strlit("http_requests_total");
            reveal_strlit("http_requests_duration_seconds");
            assert(counter_name@.len() != histogram_name@.len());
            assert(spec_valid_metric_name("http_requests_total"@));
            assert(spec_valid_metric_name("http_requests_duration_seconds"@));
            lemma_fq_name_valid(namespace@, "http_requests_total"@);
            lemma_fq_name_valid(namespace@, "http_requests_duration_seconds"@);
        }
        let _ = registry.register(counter_name);
        let _ = registry.register(histogram_name);
        proof {
            assert(registry.names_view() =~= seq![
                spec_fq_name(namespace@, "http_requests_total"@),
                spec_fq_name(namespace@, "http_requests_duration_seconds"@),
            ]);
        }
        Self { http_requests_total, http_requests_duration_seconds, registry }
    }

    /// The registry this sink registered its families in.
    pub fn registry(&self) -> (r: &Registry)
        ensures
            *r == self.spec_registry(),
    {
        &self.registry
    }

    /// The counter family of this sink.
    pub fn http_requests_total(&self) -> (r: &IntCounterVec)
        ensures
            *r == self.spec_counter(),
    {
        &self.http_requests_total
    }

    /// The histogram family of this sink.
    pub fn http_requests_duration_seconds(&self) -> (r: &HistogramVec)
        ensures
            *r == self.spec_histogram(),
    {
        &self.http_requests_duration_seconds
    }

    /// Records one completed exchange exactly once: the counter series for
    /// the label triple grows by one and the duration histogram series for
    /// the same triple gains the one observation; every other series, the
    /// family names and the registry are left as they were.
    pub fn record_exchange(&mut self, labels: &LabelValues, elapsed_nanos: u64)
        requires
            old(self).wf(),
        ensures
            final(self).wf(),
            final(self).spec_counter().counts() == old(self).spec_counter().counts().insert(
                labels@,
                spec_bump(old(self).spec_counter().counts(), labels@),
            ),
            final(self).spec_histogram().data() == old(self).spec_histogram().data().insert(
                labels@,
                spec_obs(old(self).spec_histogram().data(), labels@).push(elapsed_nanos),
            ),
            final(self).spec_counter().spec_name() == old(self).spec_counter().spec_name(),
            final(self).spec_histogram().spec_name() == old(self).spec_histogram().spec_name(),
            final(self).spec_registry() == old(self).spec_registry(),
    {
        self.http_requests_total.inc(labels);
        self.http_requests_duration_seconds.observe(labels, elapsed_nanos);
    }
}

/// Handle under which a request pipeline shares the metrics sink. The
/// reference-counted lock that lets concurrent requests share one sink
/// belongs to the host runtime; the value it guards is modeled here.
#[derive(Clone)]
pub struct ArcRwLockPrometheus {
    pub rw_lock: PrometheusMetrics,
}

/// Capability of handing out another handle to the shared sink.
pub trait ArcRwLockPrometheusTrait {
    /// Another handle to the same sink.
    fn clone(&self) -> PrometheusMetrics;
}

impl ArcRwLockPrometheus {
    /// Wraps the sink as a shareable handle.
    pub fn new(prometheus: PrometheusMetrics) -> (r: Self)
        ensures
            r.rw_lock == prometheus,
    {
        Self { rw_lock: prometheus }
    }

    /// Entry half of the interception: captures the start mark scoped to
    /// exactly this exchange.
    pub fn on_request(&self) -> (t: TimerStart)
        ensures
            t.0 is Some,
    {
        TimerStart::now()
    }

    /// Exit half of the interception: resolves the label triple — matched
    /// route template or the `UNKNOWN` sentinel, method, decimal status —
    /// and records the exchange. The counter series for the triple grows by
    /// one; when the start mark is known, the duration histogram series for
    /// the same triple gains exactly one observation, and none otherwise.
    /// Everything else in the sink is left as it was.
    pub fn on_response(&mut self, route: Option<&str>, method: &str, status: u16, timer: &TimerStart)
        requires
            old(self).rw_lock.wf(),
        ensures
            final(self).rw_lock.wf(),
            final(self).rw_lock.spec_counter().counts() == old(
                self,
            ).rw_lock.spec_counter().counts().insert(
                spec_http_labels(route.deep_view(), method@, status),
                spec_bump(
                    old(self).rw_lock.spec_counter().counts(),
                    spec_http_labels(route.deep_view(), method@, status),
                ),
            ),
            timer.0 is Some ==> exists|d: u64|
                final(self).rw_lock.spec_histogram().data() == old(
                    self,
                ).rw_lock.spec_histogram().data().insert(
                    spec_http_labels(route.deep_view(), method@, status),
                    spec_obs(
                        old(self).rw_lock.spec_histogram().data(),
                        spec_http_labels(route.deep_view(), method@, status),
                    ).push(d),
                ),
            timer.0 is None ==> final(self).rw_lock.spec_histogram().data() == old(
                self,
            ).rw_lock.spec_histogram().data(),
            final(self).rw_lock.spec_counter().spec_name() == old(
                self,
            ).rw_lock.spec_counter().spec_name(),
            final(self).rw_lock.spec_histogram().spec_name() == old(
                self,
            ).rw_lock.spec_histogram().spec_name(),
            final(self).rw_lock.spec_registry() == old(self).rw_lock.spec_registry(),
    {
        let labels = resolve_http_labels(route, method, status);
        self.rw_lock.http_requests_total.inc(&labels);
        match timer.elapsed_nanos() {
            Some(d) => {
                self.rw_lock.http_requests_duration_seconds.observe(&labels, d);
            },
            None => {},
        }
    }
}

impl ArcRwLockPrometheusTrait for ArcRwLockPrometheus {
    /// Another handle to the same sink; with the host's lock in place the
    /// copy observes the same shared state.
    fn clone(&self) -> PrometheusMetrics {
        self.rw_lock.clone()
    }
}

} // verus!
