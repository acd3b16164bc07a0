//! Graceful degradation: per-feature fallback strategies, which feature is on,
//! and the statistics and history of fallbacks.

use vstd::prelude::*;
use crate::assoc::{
    assoc_map, keys_distinct, lemma_assoc_empty, lemma_assoc_lookup, lemma_assoc_push,
    lemma_assoc_update,
};
use crate::error::recovery::bounded_push;
use crate::error::types::BeejsError;
use crate::text::{debug_quoted, debug_quoted_text, owned};
use crate::time::{duration_debug, duration_debug_text, duration_of_nanos, mean_duration, mean_nanos};

verus! {

/// A feature of the runtime that can degrade.
#[derive(Debug, Clone, Copy, PartialEq, Eq, Hash, Structural)]
pub enum Feature {
    V8Optimization,
    PythonRuntime,
    GoRuntime,
    RustNative,
    WebAssembly,
    IOSRuntime,
    AndroidRuntime,
    KubernetesIntegration,
    ServiceMesh,
    SecurityManager,
    ComplianceManager,
    EdgeComputing,
    OfflineMode,
    DistributedCoordination,
    PerformanceOptimizer,
    NetworkOptimizer,
}

impl View for Feature {
    type V = Feature;

    open spec fn view(&self) -> Feature {
        *self
    }
}

/// The display name of a feature.
pub open spec fn feature_text(f: Feature) -> Seq<char> {
    match f {
        Feature::V8Optimization => "V8 Optimization"@,
        Feature::PythonRuntime => "Python Runtime"@,
        Feature::GoRuntime => "Go Runtime"@,
        Feature::RustNative => "Rust Native"@,
        Feature::WebAssembly => "WebAssembly"@,
        Feature::IOSRuntime => "iOS Runtime"@,
        Feature::AndroidRuntime => "Android Runtime"@,
        Feature::KubernetesIntegration => "Kubernetes Integration"@,
        Feature::ServiceMesh => "Service Mesh"@,
        Feature::SecurityManager => "Security Manager"@,
        Feature::ComplianceManager => "Compliance Manager"@,
        Feature::EdgeComputing => "Edge Computing"@,
        Feature::OfflineMode => "Offline Mode"@,
        Feature::DistributedCoordination => "Distributed Coordination"@,
        Feature::PerformanceOptimizer => "Performance Optimizer"@,
        Feature::NetworkOptimizer => "Network Optimizer"@,
    }
}

impl Feature {
    /// The display name of the feature.
    pub fn to_string(&self) -> (r: String)
        ensures
            r@ == feature_text(*self),
    {
        let s = match self {
            Feature::V8Optimization => "V8 Optimization",
            Feature::PythonRuntime => "Python Runtime",
            Feature::GoRuntime => "Go Runtime",
            Feature::RustNative => "Rust Native",
            Feature::WebAssembly => "WebAssembly",
            Feature::IOSRuntime => "iOS Runtime",
            Feature::AndroidRuntime => "Android Runtime",
            Feature::KubernetesIntegration => "Kubernetes Integration",
            Feature::ServiceMesh => "Service Mesh",
            Feature::SecurityManager => "Security Manager",
            Feature::ComplianceManager => "Compliance Manager",
            Feature::EdgeComputing => "Edge Computing",
            Feature::OfflineMode => "Offline Mode",
            Feature::DistributedCoordination => "Distributed Coordination",
            Feature::PerformanceOptimizer => "Performance Optimizer",
            Feature::NetworkOptimizer => "Network Optimizer",
        };
        owned(s)
    }
}

/// What to do when a feature fails.
#[derive(Debug, Clone)]
pub enum FallbackStrategy {
    /// Turn the feature off.
    DisableFeature,
    /// Use another implementation.
    UseAlternative(String),
    /// Wait, then carry on.
    RetryLater(std::time::Duration),
    /// Ignore the error.
    Ignore,
    /// Fall back to a basic mode.
    DegradeToBasic,
    /// Switch to a backup implementation.
    SwitchToBackup(String),
    /// Log the error and carry on.
    LogAndContinue,
}

/// The debug text of a strategy, which keys its usage count.
pub open spec fn strategy_key(s: FallbackStrategy) -> Seq<char> {
    match s {
        FallbackStrategy::DisableFeature => "DisableFeature"@,
        FallbackStrategy::UseAlternative(a) => "UseAlternative("@ + debug_quoted_text(a@) + ")"@,
        FallbackStrategy::RetryLater(d) => "RetryLater("@ + duration_debug_text(d) + ")"@,
        FallbackStrategy::Ignore => "Ignore"@,
        FallbackStrategy::DegradeToBasic => "DegradeToBasic"@,
        FallbackStrategy::SwitchToBackup(b) => "SwitchToBackup("@ + debug_quoted_text(b@) + ")"@,
        FallbackStrategy::LogAndContinue => "LogAndContinue"@,
    }
}

/// The message of applying a strategy to a failed feature.
pub open spec fn strategy_message(f: Feature, s: FallbackStrategy) -> Seq<char> {
    match s {
        FallbackStrategy::DisableFeature => "Feature "@ + feature_text(f) + " disabled"@,
        FallbackStrategy::UseAlternative(a) => "Using alternative: "@ + a@,
        FallbackStrategy::RetryLater(d) => "Retried after "@ + duration_debug_text(d),
        FallbackStrategy::Ignore => "Error ignored, continuing execution"@,
        FallbackStrategy::DegradeToBasic => "Degraded to basic mode"@,
        FallbackStrategy::SwitchToBackup(b) => "Switched to backup: "@ + b@,
        FallbackStrategy::LogAndContinue => "Error logged, continuing execution"@,
    }
}

/// The message of a failure no strategy could handle.
pub open spec fn all_failed_text(f: Feature) -> Seq<char> {
    "All fallback strategies failed for feature: "@ + feature_text(f)
}

impl FallbackStrategy {
    /// An equal copy.
    pub fn duplicate(&self) -> (r: FallbackStrategy)
        ensures
            r == *self,
    {
        match self {
            FallbackStrategy::DisableFeature => FallbackStrategy::DisableFeature,
            FallbackStrategy::UseAlternative(a) => FallbackStrategy::UseAlternative(a.clone()),
            FallbackStrategy::RetryLater(d) => FallbackStrategy::RetryLater(d.clone()),
            FallbackStrategy::Ignore => FallbackStrategy::Ignore,
            FallbackStrategy::DegradeToBasic => FallbackStrategy::DegradeToBasic,
            FallbackStrategy::SwitchToBackup(b) => FallbackStrategy::SwitchToBackup(b.clone()),
            FallbackStrategy::LogAndContinue => FallbackStrategy::LogAndContinue,
        }
    }

    /// The debug text of the strategy.
    pub fn key(&self) -> (r: String)
        ensures
            r@ == strategy_key(*self),
    {
        proof {
            reveal_strlit(")");
        }
        match self {
            FallbackStrategy::DisableFeature => owned("DisableFeature"),
            FallbackStrategy::UseAlternative(a) => {
                let s = owned("UseAlternative(");
                let s = s.concat(debug_quoted(a.as_str()).as_str());
                s.concat(")")
            },
            FallbackStrategy::RetryLater(d) => {
                let s = owned("RetryLater(");
                let s = s.concat(duration_debug(d).as_str());
                s.concat(")")
            },
            FallbackStrategy::Ignore => owned("Ignore"),
            FallbackStrategy::DegradeToBasic => owned("DegradeToBasic"),
            FallbackStrategy::SwitchToBackup(b) => {
                let s = owned("SwitchToBackup(");
                let s = s.concat(debug_quoted(b.as_str()).as_str());
                s.concat(")")
            },
            FallbackStrategy::LogAndContinue => owned("LogAndContinue"),
        }
    }
}

/// One fallback that took place.
#[derive(Debug, Clone)]
pub struct FallbackEvent {
    pub feature: Feature,
    pub strategy: FallbackStrategy,
    pub timestamp: std::time::Instant,
    pub error: Option<BeejsError>,
    pub recovery_time: Option<std::time::Duration>,
}

/// Counters of fallback activity. The per-feature and per-strategy counts are
/// association lists: each feature, and each strategy text, occurs once.
#[derive(Debug)]
pub struct FallbackStats {
    pub total_fallbacks: u64,
    pub successful_recoveries: u64,
    pub failed_recoveries: u64,
    pub feature_fallback_counts: Vec<(Feature, u64)>,
    pub strategy_usage_counts: Vec<(String, u64)>,
    pub avg_recovery_time: std::time::Duration,
    pub last_fallback_time: Option<std::time::Instant>,
}

impl Default for FallbackStats {
    fn default() -> (s: FallbackStats)
        ensures
            s.total_fallbacks == 0,
            s.successful_recoveries == 0,
            s.failed_recoveries == 0,
            s.feature_fallback_counts@ == Seq::<(Feature, u64)>::empty(),
            s.strategy_usage_counts@ == Seq::<(String, u64)>::empty(),
            s.avg_recovery_time == duration_of_nanos(0),
            s.last_fallback_time is None,
    {
        FallbackStats {
            total_fallbacks: 0,
            successful_recoveries: 0,
            failed_recoveries: 0,
            feature_fallback_counts: Vec::new(),
            strategy_usage_counts: Vec::new(),
            avg_recovery_time: crate::time::duration_from_nanos(0),
            last_fallback_time: None,
        }
    }
}

/// How many fallback events are kept.
pub const MAX_FALLBACK_EVENTS: usize = 1000;

/// `m` with the count under `k` raised by one (a new key counts one).
pub open spec fn bump<K>(m: Map<K, u64>, k: K) -> Map<K, u64> {
    if m.contains_key(k) {
        m.insert(k, (m[k] + 1) as u64)
    } else {
        m.insert(k, 1)
    }
}

/// The strategy list of `f` after `s` is registered for it.
pub open spec fn register_one(
    m: Map<Feature, Seq<FallbackStrategy>>,
    f: Feature,
    s: FallbackStrategy,
) -> Map<Feature, Seq<FallbackStrategy>> {
    if m.contains_key(f) {
        m.insert(f, m[f].push(s))
    } else {
        m.insert(f, seq![s])
    }
}

/// The strategies after registering a list of `(feature, strategy)` pairs in order.
pub open spec fn register_all(
    m: Map<Feature, Seq<FallbackStrategy>>,
    list: Seq<(Feature, FallbackStrategy)>,
) -> Map<Feature, Seq<FallbackStrategy>>
    decreases list.len(),
{
    if list.len() == 0 {
        m
    } else {
        register_one(register_all(m, list.drop_last()), list.last().0, list.last().1)
    }
}

/// Whether a strategy waits before carrying on.
pub open spec fn is_retry(s: FallbackStrategy) -> bool {
    s is RetryLater
}

/// The first registered strategy of a feature, if any.
pub open spec fn first_strategy(m: Map<Feature, Seq<FallbackStrategy>>, f: Feature) -> Option<FallbackStrategy> {
    if m.contains_key(f) && m[f].len() > 0 {
        Some(m[f][0])
    } else {
        None
    }
}

/// Which features start out on.
pub open spec fn initial_active() -> Map<Feature, bool> {
    map![
        Feature::V8Optimization => true,
        Feature::PythonRuntime => true,
        Feature::GoRuntime => true,
        Feature::RustNative => true,
        Feature::WebAssembly => true,
    ]
}

/// Strategies, feature switches, statistics and history of fallbacks.
pub struct FallbackManager {
    strategies: Vec<(Feature, Vec<FallbackStrategy>)>,
    stats: FallbackStats,
    event_history: Vec<FallbackEvent>,
    active_features: Vec<(Feature, bool)>,
}

/// The strategy lists of an association list of features.
pub open spec fn strategy_lists(s: Seq<(Feature, Vec<FallbackStrategy>)>) -> Seq<(Feature, Seq<FallbackStrategy>)> {
    s.map_values(|e: (Feature, Vec<FallbackStrategy>)| (e.0, e.1@))
}

impl FallbackManager {
    #[verifier::type_invariant]
    closed spec fn inv(self) -> bool {
        &&& keys_distinct(self.strategies@)
        &&& keys_distinct(self.active_features@)
        &&& keys_distinct(self.stats.feature_fallback_counts@)
        &&& keys_distinct(self.stats.strategy_usage_counts@)
        &&& self.stats.successful_recoveries + self.stats.failed_recoveries <= self.stats.total_fallbacks
        &&& forall|f: Feature| #[trigger] assoc_map(self.stats.feature_fallback_counts@).contains_key(f)
            ==> assoc_map(self.stats.feature_fallback_counts@)[f] <= self.stats.total_fallbacks
        &&& forall|k: Seq<char>| #[trigger] assoc_map(self.stats.strategy_usage_counts@).contains_key(k)
            ==> assoc_map(self.stats.strategy_usage_counts@)[k] <= self.stats.successful_recoveries
    }

    /// The registered strategies of each feature, in registration order.
    pub closed spec fn strategy_map(&self) -> Map<Feature, Seq<FallbackStrategy>> {
        assoc_map(strategy_lists(self.strategies@))
    }

    /// Which features are switched on or off.
    pub closed spec fn active_map(&self) -> Map<Feature, bool> {
        assoc_map(self.active_features@)
    }

    /// The statistics.
    pub closed spec fn stats_spec(&self) -> &FallbackStats {
        &self.stats
    }

    /// The fallbacks per feature.
    pub closed spec fn feature_counts(&self) -> Map<Feature, u64> {
        assoc_map(self.stats.feature_fallback_counts@)
    }

    /// The successful uses per strategy text.
    pub closed spec fn strategy_counts(&self) -> Map<Seq<char>, u64> {
        assoc_map(self.stats.strategy_usage_counts@)
    }

    /// The recorded fallbacks, oldest first.
    pub closed spec fn history(&self) -> Seq<FallbackEvent> {
        self.event_history@
    }

    /// No strategies, no statistics, and the five core features switched on.
    pub fn new() -> (m: FallbackManager)
        ensures
            m.strategy_map() == Map::<Feature, Seq<FallbackStrategy>>::empty(),
            m.active_map() == initial_active(),
            m.stats_spec().total_fallbacks == 0,
            m.stats_spec().successful_recoveries == 0,
            m.stats_spec().failed_recoveries == 0,
            m.feature_counts() == Map::<Feature, u64>::empty(),
            m.strategy_counts() == Map::<Seq<char>, u64>::empty(),
            m.history() == Seq::<FallbackEvent>::empty(),
    {
        let mut active: Vec<(Feature, bool)> = Vec::new();
        active.push((Feature::V8Optimization, true));
        active.push((Feature::PythonRuntime, true));
        active.push((Feature::GoRuntime, true));
        active.push((Feature::RustNative, true));
        active.push((Feature::WebAssembly, true));
        let m = FallbackManager {
            strategies: Vec::new(),
            stats: FallbackStats::default(),
            event_history: Vec::new(),
            active_features: active,
        };
        proof {
            lemma_assoc_empty(m.strategies@);
            lemma_assoc_empty(strategy_lists(m.strategies@));
            lemma_assoc_empty(m.stats.feature_fallback_counts@);
            lemma_assoc_empty(m.stats.strategy_usage_counts@);
            let a = m.active_features@;
            assert(keys_distinct(a));
            assert forall|f: Feature| #[trigger] assoc_map(a).contains_key(f) == initial_active().contains_key(f) by {
                if initial_active().contains_key(f) {
                    match f {
                        Feature::V8Optimization => assert(a[0].0 == f),
                        Feature::PythonRuntime => assert(a[1].0 == f),
                        Feature::GoRuntime => assert(a[2].0 == f),
                        Feature::RustNative => assert(a[3].0 == f),
                        _ => assert(a[4].0 == f),
                    }
                }
            }
            assert forall|f: Feature| #[trigger] assoc_map(a).contains_key(f) implies assoc_map(a)[f] == initial_active()[f] by {
                let i = choose|i: int| 0 <= i < a.len() && a[i].0@ == f;
                lemma_assoc_lookup(a, i);
            }
            assert(assoc_map(a) =~= initial_active());
        }
        m
    }

    /// The position of the strategy list of `feature`, if any.
    fn strategy_position(&self, feature: Feature) -> (r: Option<usize>)
        ensures
            match r {
                Some(i) => i < self.strategies@.len() && self.strategies@[i as int].0 == feature,
                None => forall|i: int| 0 <= i < self.strategies@.len() ==> self.strategies@[i].0 != feature,
            },
    {
        let mut i: usize = 0;
        while i < self.strategies.len()
            invariant
                i <= self.strategies@.len(),
                forall|k: int| 0 <= k < i ==> self.strategies@[k].0 != feature,
            decreases self.strategies@.len() - i,
        {
            if self.strategies[i].0 == feature {
                return Some(i);
            }
            i = i + 1;
        }
        None
    }

    /// Appends `strategy` to the list of `feature`.
    pub fn register_strategy(&mut self, feature: Feature, strategy: FallbackStrategy)
        ensures
            final(self).strategy_map() == register_one(old(self).strategy_map(), feature, strategy),
            final(self).active_map() == old(self).active_map(),
            final(self).stats_spec() == old(self).stats_spec(),
            final(self).history() == old(self).history(),
    {
        proof {
            use_type_invariant(&*self);
        }
        let pos = self.strategy_position(feature);
        let mut strategies: Vec<(Feature, Vec<FallbackStrategy>)> = Vec::new();
        std::mem::swap(&mut strategies, &mut self.strategies);
        let ghost before = strategies@;
        proof {
            assert forall|a: int, b: int|
                0 <= a < strategy_lists(before).len() && 0 <= b < strategy_lists(before).len() && a != b
                implies strategy_lists(before)[a].0@ != strategy_lists(before)[b].0@ by {
                assert(before[a].0@ != before[b].0@);
            }
        }
        match pos {
            Some(i) => {
                let mut list: Vec<FallbackStrategy> = Vec::new();
                std::mem::swap(&mut list, &mut strategies[i].1);
                let ghost old_list = before[i as int].1@;
                proof {
                    assert(list@ == old_list);
                }
                list.push(strategy);
                let ghost mid = strategies@;
                strategies.set(i, (feature, list));
                proof {
                    lemma_assoc_lookup(strategy_lists(before), i as int);
                    lemma_assoc_update(strategy_lists(before), i as int, feature, old_list.push(strategy));
                    assert(strategy_lists(strategies@) =~= strategy_lists(before).update(
                        i as int,
                        (feature, old_list.push(strategy)),
                    ));
                    assert forall|a: int, b: int|
                        0 <= a < strategies@.len() && 0 <= b < strategies@.len() && a != b implies strategies@[a].0@
                        != strategies@[b].0@ by {
                        assert(strategies@[a].0 == before[a].0 && strategies@[b].0 == before[b].0);
                    }
                }
            },
            None => {
                let mut list: Vec<FallbackStrategy> = Vec::new();
                list.push(strategy);
                strategies.push((feature, list));
                proof {
                    assert forall|i: int| 0 <= i < strategy_lists(before).len() implies strategy_lists(before)[i].0@ != feature by {
                        assert(before[i].0 != feature);
                    }
                    crate::assoc::lemma_assoc_absent(strategy_lists(before), feature);
                    lemma_assoc_push(strategy_lists(before), feature, seq![strategy]);
                    assert(list@ =~= seq![strategy]);
                    assert(strategy_lists(strategies@) =~= strategy_lists(before).push((feature, seq![strategy])));
                    assert forall|a: int, b: int|
                        0 <= a < strategies@.len() && 0 <= b < strategies@.len() && a != b implies strategies@[a].0@
                        != strategies@[b].0@ by {
                        if a < before.len() && b < before.len() {
                            assert(strategies@[a].0 == before[a].0 && strategies@[b].0 == before[b].0);
                        } else if a < before.len() {
                            assert(strategies@[a].0 == before[a].0);
                        } else {
                            assert(strategies@[b].0 == before[b].0);
                        }
                    }
                }
            },
        }
        self.strategies = strategies;
    }

    /// Registers a list of `(feature, strategy)` pairs, in order.
    pub fn register_strategies(&mut self, strategies: Vec<(Feature, FallbackStrategy)>)
        ensures
            final(self).strategy_map() == register_all(old(self).strategy_map(), strategies@),
            final(self).active_map() == old(self).active_map(),
            final(self).stats_spec() == old(self).stats_spec(),
            final(self).history() == old(self).history(),
    {
        let ghost start = self.strategy_map();
        let ghost all = strategies@;
        let mut i: usize = 0;
        while i < strategies.len()
            invariant
                i <= strategies@.len(),
                all == strategies@,
                self.strategy_map() == register_all(start, all.take(i as int)),
                self.active_map() == old(self).active_map(),
                self.stats_spec() == old(self).stats_spec(),
                self.history() == old(self).history(),
            decreases strategies@.len() - i,
        {
            let f = strategies[i].0;
            let s = strategies[i].1.duplicate();
            proof {
                assert(all.take(i as int + 1).drop_last() =~= all.take(i as int));
                assert(all.take(i as int + 1).last() == all[i as int]);
            }
            self.register_strategy(f, s);
            i = i + 1;
        }
        proof {
            assert(all.take(all.len() as int) =~= all);
        }
    }

    /// The first registered strategy of `feature`, if any: the one a failure
    /// of the feature applies.
    pub fn next_strategy(&self, feature: Feature) -> (r: Option<FallbackStrategy>)
        ensures
            r == first_strategy(self.strategy_map(), feature),
    {
        proof {
            use_type_invariant(self);
            assert(keys_distinct(strategy_lists(self.strategies@))) by {
                assert forall|a: int, b: int|
                    0 <= a < self.strategies@.len() && 0 <= b < self.strategies@.len() && a != b implies strategy_lists(self.strategies@)[a].0@ != strategy_lists(self.strategies@)[b].0@ by {
                    assert(self.strategies@[a].0@ != self.strategies@[b].0@);
                }
            }
        }
        match self.strategy_position(feature) {
            Some(i) => {
                proof {
                    lemma_assoc_lookup(strategy_lists(self.strategies@), i as int);
                }
                if self.strategies[i].1.len() > 0 {
                    Some(self.strategies[i].1[0].duplicate())
                } else {
                    None
                }
            },
            None => {
                proof {
                    crate::assoc::lemma_assoc_absent(strategy_lists(self.strategies@), feature);
                }
                None
            },
        }
    }

    /// The position of the switch of `feature`, if any.
    fn active_position(&self, feature: Feature) -> (r: Option<usize>)
        ensures
            match r {
                Some(i) => i < self.active_features@.len() && self.active_features@[i as int].0 == feature,
                None => forall|i: int| 0 <= i < self.active_features@.len() ==> self.active_features@[i].0 != feature,
            },
    {
        let mut i: usize = 0;
        while i < self.active_features.len()
            invariant
                i <= self.active_features@.len(),
                forall|k: int| 0 <= k < i ==> self.active_features@[k].0 != feature,
            decreases self.active_features@.len() - i,
        {
            if self.active_features[i].0 == feature {
                return Some(i);
            }
            i = i + 1;
        }
        None
    }

    /// Sets whether `feature` is on.
    fn set_active(&mut self, feature: Feature, on: bool)
        ensures
            final(self).active_map() == old(self).active_map().insert(feature, on),
            final(self).strategy_map() == old(self).strategy_map(),
            final(self).stats_spec() == old(self).stats_spec(),
            final(self).history() == old(self).history(),
    {
        proof {
            use_type_invariant(&*self);
        }
        let pos = self.active_position(feature);
        let mut active: Vec<(Feature, bool)> = Vec::new();
        std::mem::swap(&mut active, &mut self.active_features);
        match pos {
            Some(i) => {
                proof {
                    lemma_assoc_update(active@, i as int, feature, on);
                }
                active.set(i, (feature, on));
            },
            None => {
                proof {
                    crate::assoc::lemma_assoc_absent(active@, feature);
                    lemma_assoc_push(active@, feature, on);
                }
                active.push((feature, on));
            },
        }
        self.active_features = active;
    }

    /// Applies a strategy to a failed feature: a disabling strategy switches the
    /// feature off; every strategy gives its message.
    fn apply_strategy(&mut self, feature: Feature, strategy: &FallbackStrategy) -> (r: String)
        ensures
            r@ == strategy_message(feature, *strategy),
            final(self).active_map() == (if strategy is DisableFeature {
                old(self).active_map().insert(feature, false)
            } else {
                old(self).active_map()
            }),
            final(self).strategy_map() == old(self).strategy_map(),
            final(self).stats_spec() == old(self).stats_spec(),
            final(self).history() == old(self).history(),
    {
        match strategy {
            FallbackStrategy::DisableFeature => {
                self.set_active(feature, false);
                let s = owned("Feature ");
                let s = s.concat(feature.to_string().as_str());
                s.concat(" disabled")
            },
            FallbackStrategy::UseAlternative(a) => owned("Using alternative: ").concat(a.as_str()),
            FallbackStrategy::RetryLater(d) => owned("Retried after ").concat(duration_debug(d).as_str()),
            FallbackStrategy::Ignore => owned("Error ignored, continuing execution"),
            FallbackStrategy::DegradeToBasic => owned("Degraded to basic mode"),
            FallbackStrategy::SwitchToBackup(b) => owned("Switched to backup: ").concat(b.as_str()),
            FallbackStrategy::LogAndContinue => owned("Error logged, continuing execution"),
        }
    }

    /// Handles a failure of `feature` at `now`: counts it, then applies the
    /// feature's first registered strategy, which took `duration` to recover;
    /// with no strategy registered the failure is counted as unrecovered.
    /// (Applying a `RetryLater` strategy includes its wait, which the caller
    /// performs before this call; see `next_strategy`.)
    pub fn handle_feature_failure(
        &mut self,
        feature: Feature,
        now: std::time::Instant,
        duration: std::time::Duration,
    ) -> (r: Result<String, BeejsError>)
        requires
            old(self).stats_spec().total_fallbacks < u64::MAX,
        ensures
            final(self).stats_spec().total_fallbacks == old(self).stats_spec().total_fallbacks + 1,
            final(self).feature_counts() == bump(old(self).feature_counts(), feature),
            final(self).stats_spec().last_fallback_time == Some(now),
            final(self).strategy_map() == old(self).strategy_map(),
            match first_strategy(old(self).strategy_map(), feature) {
                Some(s) => {
                    &&& r matches Ok(m) && m@ == strategy_message(feature, s)
                    &&& final(self).stats_spec().successful_recoveries == old(self).stats_spec().successful_recoveries + 1
                    &&& final(self).stats_spec().failed_recoveries == old(self).stats_spec().failed_recoveries
                    &&& final(self).stats_spec().avg_recovery_time == duration_of_nanos(
                        mean_nanos(old(self).stats_spec().avg_recovery_time, duration),
                    )
                    &&& final(self).strategy_counts() == bump(old(self).strategy_counts(), strategy_key(s))
                    &&& final(self).history() == bounded_push(
                        old(self).history(),
                        FallbackEvent {
                            feature,
                            strategy: s,
                            timestamp: now,
                            error: None,
                            recovery_time: Some(duration),
                        },
                        MAX_FALLBACK_EVENTS as nat,
                    )
                    &&& final(self).active_map() == (if s is DisableFeature {
                        old(self).active_map().insert(feature, false)
                    } else {
                        old(self).active_map()
                    })
                },
                None => {
                    &&& r matches Err(BeejsError::RuntimeError(m)) && m@ == all_failed_text(feature)
                    &&& final(self).stats_spec().successful_recoveries == old(self).stats_spec().successful_recoveries
                    &&& final(self).stats_spec().failed_recoveries == old(self).stats_spec().failed_recoveries + 1
                    &&& final(self).stats_spec().avg_recovery_time == old(self).stats_spec().avg_recovery_time
                    &&& final(self).strategy_counts() == old(self).strategy_counts()
                    &&& final(self).history() == old(self).history()
                    &&& final(self).active_map() == old(self).active_map()
                },
            },
    {
        proof {
            use_type_invariant(&*self);
        }
        let mut stats = FallbackStats::default();
        std::mem::swap(&mut stats, &mut self.stats);
        let ghost st0 = stats;
        stats.total_fallbacks = stats.total_fallbacks + 1;
        bump_feature_count(&mut stats.feature_fallback_counts, feature);
        stats.last_fallback_time = Some(now);
        let chosen = self.next_strategy(feature);
        match chosen {
            Some(strategy) => {
                let message = self.apply_strategy(feature, &strategy);
                stats.successful_recoveries = stats.successful_recoveries + 1;
                stats.avg_recovery_time = mean_duration(&stats.avg_recovery_time, &duration);
                bump_text_count(&mut stats.strategy_usage_counts, strategy.key());
                proof {
                    assert forall|f: Feature| #[trigger] assoc_map(stats.feature_fallback_counts@).contains_key(f)
                        implies assoc_map(stats.feature_fallback_counts@)[f] <= stats.total_fallbacks by {
                        if assoc_map(st0.feature_fallback_counts@).contains_key(f) {
                            assert(assoc_map(st0.feature_fallback_counts@)[f] <= st0.total_fallbacks);
                        }
                    }
                    assert forall|k: Seq<char>| #[trigger] assoc_map(stats.strategy_usage_counts@).contains_key(k)
                        implies assoc_map(stats.strategy_usage_counts@)[k] <= stats.successful_recoveries by {
                        if assoc_map(st0.strategy_usage_counts@).contains_key(k) {
                            assert(assoc_map(st0.strategy_usage_counts@)[k] <= st0.successful_recoveries);
                        }
                    }
                    use_type_invariant(&*self);
                }
                self.stats = stats;
                self.record_event(FallbackEvent {
                    feature,
                    strategy,
                    timestamp: now,
                    error: None,
                    recovery_time: Some(duration),
                });
                Ok(message)
            },
            None => {
                stats.failed_recoveries = stats.failed_recoveries + 1;
                proof {
                    assert forall|f: Feature| #[trigger] assoc_map(stats.feature_fallback_counts@).contains_key(f)
                        implies assoc_map(stats.feature_fallback_counts@)[f] <= stats.total_fallbacks by {
                        if assoc_map(st0.feature_fallback_counts@).contains_key(f) {
                            assert(assoc_map(st0.feature_fallback_counts@)[f] <= st0.total_fallbacks);
                        }
                    }
                }
                self.stats = stats;
                let m = owned("All fallback strategies failed for feature: ");
                Err(BeejsError::RuntimeError(m.concat(feature.to_string().as_str())))
            },
        }
    }

    /// Appends an event to the history, dropping the oldest beyond the limit.
    fn record_event(&mut self, event: FallbackEvent)
        ensures
            final(self).history() == bounded_push(old(self).history(), event, MAX_FALLBACK_EVENTS as nat),
            final(self).strategy_map() == old(self).strategy_map(),
            final(self).active_map() == old(self).active_map(),
            final(self).stats_spec() == old(self).stats_spec(),
    {
        proof {
            use_type_invariant(&*self);
        }
        let mut history: Vec<FallbackEvent> = Vec::new();
        std::mem::swap(&mut history, &mut self.event_history);
        history.push(event);
        if history.len() > MAX_FALLBACK_EVENTS {
            history.remove(0);
        }
        self.event_history = history;
    }

    /// Whether `feature` is on; a feature never switched is off.
    pub fn is_feature_active(&self, feature: &Feature) -> (r: bool)
        ensures
            r == (self.active_map().contains_key(*feature) && self.active_map()[*feature]),
    {
        proof {
            use_type_invariant(self);
        }
        let mut i: usize = 0;
        while i < self.active_features.len()
            invariant
                i <= self.active_features@.len(),
                keys_distinct(self.active_features@),
                forall|k: int| 0 <= k < i ==> self.active_features@[k].0 != *feature,
            decreases self.active_features@.len() - i,
        {
            if self.active_features[i].0 == *feature {
                proof {
                    lemma_assoc_lookup(self.active_features@, i as int);
                }
                return self.active_features[i].1;
            }
            i = i + 1;
        }
        proof {
            crate::assoc::lemma_assoc_absent(self.active_features@, *feature);
        }
        false
    }

    /// Switches `feature` on.
    pub fn enable_feature(&mut self, feature: Feature)
        ensures
            final(self).active_map() == old(self).active_map().insert(feature, true),
            final(self).strategy_map() == old(self).strategy_map(),
            final(self).stats_spec() == old(self).stats_spec(),
            final(self).history() == old(self).history(),
    {
        self.set_active(feature, true);
    }

    /// Switches `feature` off.
    pub fn disable_feature(&mut self, feature: Feature)
        ensures
            final(self).active_map() == old(self).active_map().insert(feature, false),
            final(self).strategy_map() == old(self).strategy_map(),
            final(self).stats_spec() == old(self).stats_spec(),
            final(self).history() == old(self).history(),
    {
        self.set_active(feature, false);
    }

    /// The statistics.
    pub fn get_stats(&self) -> (r: &FallbackStats)
        ensures
            r == self.stats_spec(),
    {
        &self.stats
    }

    /// The recorded fallbacks, oldest first.
    pub fn get_event_history(&self) -> (r: &Vec<FallbackEvent>)
        ensures
            r@ == self.history(),
    {
        &self.event_history
    }

    /// A copy of the strategies registered for `feature`, if any were.
    pub fn get_strategies(&self, feature: &Feature) -> (r: Option<Vec<FallbackStrategy>>)
        ensures
            match r {
                Some(v) => self.strategy_map().contains_key(*feature) && v@ == self.strategy_map()[*feature],
                None => !self.strategy_map().contains_key(*feature),
            },
    {
        proof {
            use_type_invariant(self);
            assert(keys_distinct(strategy_lists(self.strategies@))) by {
                assert forall|a: int, b: int|
                    0 <= a < self.strategies@.len() && 0 <= b < self.strategies@.len() && a != b implies strategy_lists(self.strategies@)[a].0@ != strategy_lists(self.strategies@)[b].0@ by {
                    assert(self.strategies@[a].0@ != self.strategies@[b].0@);
                }
            }
        }
        match self.strategy_position(*feature) {
            Some(i) => {
                proof {
                    lemma_assoc_lookup(strategy_lists(self.strategies@), i as int);
                }
                let list = &self.strategies[i].1;
                let mut copy: Vec<FallbackStrategy> = Vec::new();
                let mut k: usize = 0;
                while k < list.len()
                    invariant
                        k <= list@.len(),
                        copy@ == list@.take(k as int),
                    decreases list@.len() - k,
                {
                    copy.push(list[k].duplicate());
                    assert(list@.take(k as int + 1) =~= list@.take(k as int).push(list@[k as int]));
                    k = k + 1;
                }
                assert(list@.take(list@.len() as int) =~= list@);
                Some(copy)
            },
            None => {
                proof {
                    crate::assoc::lemma_assoc_absent(strategy_lists(self.strategies@), *feature);
                }
                None
            },
        }
    }

    /// Clears the statistics and the history.
    pub fn reset_stats(&mut self)
        ensures
            final(self).stats_spec().total_fallbacks == 0,
            final(self).stats_spec().successful_recoveries == 0,
            final(self).stats_spec().failed_recoveries == 0,
            final(self).feature_counts() == Map::<Feature, u64>::empty(),
            final(self).strategy_counts() == Map::<Seq<char>, u64>::empty(),
            final(self).stats_spec().last_fallback_time is None,
            final(self).history() == Seq::<FallbackEvent>::empty(),
            final(self).strategy_map() == old(self).strategy_map(),
            final(self).active_map() == old(self).active_map(),
    {
        proof {
            use_type_invariant(&*self);
        }
        let stats = FallbackStats::default();
        proof {
            lemma_assoc_empty(stats.feature_fallback_counts@);
            lemma_assoc_empty(stats.strategy_usage_counts@);
        }
        self.stats = stats;
        self.event_history = Vec::new();
    }

    /// Drops every `RetryLater` strategy, keeping the others in order.
    pub fn cleanup_retry_strategies(&mut self)
        ensures
            final(self).strategy_map() == Map::new(
                |f: Feature| old(self).strategy_map().contains_key(f),
                |f: Feature| old(self).strategy_map()[f].filter(|s: FallbackStrategy| !is_retry(s)),
            ),
            final(self).active_map() == old(self).active_map(),
            final(self).stats_spec() == old(self).stats_spec(),
            final(self).history() == old(self).history(),
    {
        proof {
            use_type_invariant(&*self);
        }
        let mut strategies: Vec<(Feature, Vec<FallbackStrategy>)> = Vec::new();
        std::mem::swap(&mut strategies, &mut self.strategies);
        let ghost before = strategies@;
        let mut cleaned: Vec<(Feature, Vec<FallbackStrategy>)> = Vec::new();
        let mut i: usize = 0;
        while i < strategies.len()
            invariant
                i <= strategies@.len(),
                strategies@ == before,
                cleaned@.len() == i,
                forall|j: int| 0 <= j < i ==> (#[trigger] cleaned@[j]).0 == before[j].0
                    && cleaned@[j].1@ == before[j].1@.filter(|s: FallbackStrategy| !is_retry(s)),
            decreases strategies@.len() - i,
        {
            let list = &strategies[i].1;
            let mut kept: Vec<FallbackStrategy> = Vec::new();
            let mut k: usize = 0;
            while k < list.len()
                invariant
                    k <= list@.len(),
                    kept@ == list@.take(k as int).filter(|s: FallbackStrategy| !is_retry(s)),
                decreases list@.len() - k,
            {
                proof {
                    reveal(Seq::filter);
                    assert(list@.take(k as int + 1).drop_last() =~= list@.take(k as int));
                    assert(list@.take(k as int + 1).last() == list@[k as int]);
                }
                match &list[k] {
                    FallbackStrategy::RetryLater(_) => {},
                    other => {
                        kept.push(other.duplicate());
                    },
                }
                k = k + 1;
            }
            proof {
                assert(list@.take(list@.len() as int) =~= list@);
            }
            cleaned.push((strategies[i].0, kept));
            i = i + 1;
        }
        proof {
            let ls = strategy_lists(cleaned@);
            let lb = strategy_lists(before);
            assert forall|a: int, b: int| 0 <= a < cleaned@.len() && 0 <= b < cleaned@.len() && a != b implies cleaned@[a].0@
                != cleaned@[b].0@ by {
                assert(cleaned@[a].0 == before[a].0 && cleaned@[b].0 == before[b].0);
            }
            assert forall|a: int, b: int| 0 <= a < ls.len() && 0 <= b < ls.len() && a != b implies ls[a].0@ != ls[b].0@ by {
                assert(cleaned@[a].0 == before[a].0 && cleaned@[b].0 == before[b].0);
            }
            assert forall|a: int, b: int| 0 <= a < lb.len() && 0 <= b < lb.len() && a != b implies lb[a].0@ != lb[b].0@ by {
                assert(before[a].0@ != before[b].0@);
            }
            let target = Map::new(
                |f: Feature| assoc_map(lb).contains_key(f),
                |f: Feature| assoc_map(lb)[f].filter(|s: FallbackStrategy| !is_retry(s)),
            );
            assert forall|f: Feature| #[trigger] assoc_map(ls).contains_key(f) == target.contains_key(f) by {
                if assoc_map(ls).contains_key(f) {
                    let j = choose|j: int| 0 <= j < ls.len() && ls[j].0@ == f;
                    assert(lb[j].0 == ls[j].0);
                }
                if assoc_map(lb).contains_key(f) {
                    let j = choose|j: int| 0 <= j < lb.len() && lb[j].0@ == f;
                    assert(lb[j].0 == ls[j].0);
                }
            }
            assert forall|f: Feature| #[trigger] assoc_map(ls).contains_key(f) implies assoc_map(ls)[f] == target[f] by {
                let j = choose|j: int| 0 <= j < ls.len() && ls[j].0@ == f;
                lemma_assoc_lookup(ls, j);
                assert(lb[j].0 == ls[j].0);
                lemma_assoc_lookup(lb, j);
            }
            assert(assoc_map(ls) =~= target);
        }
        self.strategies = cleaned;
    }
}

/// Raises the count of `f` by one in a list of per-feature counts.
fn bump_feature_count(counts: &mut Vec<(Feature, u64)>, f: Feature)
    requires
        keys_distinct(old(counts)@),
        assoc_map(old(counts)@).contains_key(f) ==> assoc_map(old(counts)@)[f] < u64::MAX,
    ensures
        keys_distinct(final(counts)@),
        assoc_map(final(counts)@) == bump(assoc_map(old(counts)@), f),
{
    let mut i: usize = 0;
    while i < counts.len()
        invariant
            i <= counts@.len(),
            counts@ == old(counts)@,
            keys_distinct(counts@),
            assoc_map(counts@).contains_key(f) ==> assoc_map(counts@)[f] < u64::MAX,
            forall|k: int| 0 <= k < i ==> counts@[k].0 != f,
        decreases counts@.len() - i,
    {
        if counts[i].0 == f {
            proof {
                lemma_assoc_lookup(counts@, i as int);
                lemma_assoc_update(counts@, i as int, f, (counts@[i as int].1 + 1) as u64);
            }
            let c = counts[i].1;
            counts.set(i, (f, c + 1));
            return;
        }
        i = i + 1;
    }
    proof {
        crate::assoc::lemma_assoc_absent(counts@, f);
        lemma_assoc_push(counts@, f, 1u64);
    }
    counts.push((f, 1));
}

/// Raises the count of `key` by one in a list of per-text counts.
fn bump_text_count(counts: &mut Vec<(String, u64)>, key: String)
    requires
        keys_distinct(old(counts)@),
        assoc_map(old(counts)@).contains_key(key@) ==> assoc_map(old(counts)@)[key@] < u64::MAX,
    ensures
        keys_distinct(final(counts)@),
        assoc_map(final(counts)@) == bump(assoc_map(old(counts)@), key@),
{
    let mut i: usize = 0;
    while i < counts.len()
        invariant
            i <= counts@.len(),
            counts@ == old(counts)@,
            keys_distinct(counts@),
            assoc_map(counts@).contains_key(key@) ==> assoc_map(counts@)[key@] < u64::MAX,
            forall|k: int| 0 <= k < i ==> counts@[k].0@ != key@,
        decreases counts@.len() - i,
    {
        if crate::text::str_eq(counts[i].0.as_str(), key.as_str()) {
            proof {
                lemma_assoc_lookup(counts@, i as int);
                lemma_assoc_update(counts@, i as int, key, (counts@[i as int].1 + 1) as u64);
            }
            let c = counts[i].1;
            counts.set(i, (key, c + 1));
            return;
        }
        i = i + 1;
    }
    proof {
        crate::assoc::lemma_assoc_absent(counts@, key@);
        lemma_assoc_push(counts@, key, 1u64);
    }
    counts.push((key, 1));
}

} // verus!
