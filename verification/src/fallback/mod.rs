//! Graceful degradation of failing features.

pub mod manager;

use vstd::prelude::*;
use crate::error::types::BeejsError;
use crate::text::owned;
use crate::time::duration_of_millis;
pub use manager::{FallbackEvent, FallbackManager, FallbackStats, FallbackStrategy, Feature};
use manager::{first_strategy, initial_active, register_all, register_one};

verus! {

/// A fallback manager with no strategies.
pub fn create_fallback_manager() -> (m: FallbackManager)
    ensures
        m.strategy_map() == Map::<Feature, Seq<FallbackStrategy>>::empty(),
        m.active_map() == initial_active(),
        m.history() == Seq::<FallbackEvent>::empty(),
{
    FallbackManager::new()
}

/// The strategies a manager starts out with, in registration order.
pub open spec fn is_predefined(v: Seq<(Feature, FallbackStrategy)>) -> bool {
    &&& v.len() == 16
    &&& v[0] == (Feature::V8Optimization, FallbackStrategy::RetryLater(duration_of_millis(100)))
    &&& v[1] == (Feature::V8Optimization, FallbackStrategy::DegradeToBasic)
    &&& v[2] == (Feature::V8Optimization, FallbackStrategy::DisableFeature)
    &&& v[3].0 == Feature::PythonRuntime
    &&& v[3].1 matches FallbackStrategy::UseAlternative(a) && a@ == "Python subprocess"@
    &&& v[4] == (Feature::PythonRuntime, FallbackStrategy::Ignore)
    &&& v[5].0 == Feature::GoRuntime
    &&& v[5].1 matches FallbackStrategy::SwitchToBackup(b) && b@ == "Go subprocess"@
    &&& v[6] == (Feature::GoRuntime, FallbackStrategy::LogAndContinue)
    &&& v[7] == (Feature::WebAssembly, FallbackStrategy::RetryLater(duration_of_millis(200)))
    &&& v[8].0 == Feature::WebAssembly
    &&& v[8].1 matches FallbackStrategy::UseAlternative(a) && a@ == "V8 interpretation"@
    &&& v[9] == (Feature::KubernetesIntegration, FallbackStrategy::LogAndContinue)
    &&& v[10] == (Feature::ServiceMesh, FallbackStrategy::Ignore)
    &&& v[11] == (Feature::SecurityManager, FallbackStrategy::DisableFeature)
    &&& v[12] == (Feature::ComplianceManager, FallbackStrategy::DisableFeature)
    &&& v[13] == (Feature::EdgeComputing, FallbackStrategy::DegradeToBasic)
    &&& v[14] == (Feature::OfflineMode, FallbackStrategy::Ignore)
    &&& v[15] == (Feature::DistributedCoordination, FallbackStrategy::LogAndContinue)
}

/// The predefined strategies.
pub fn predefined_strategies() -> (v: Vec<(Feature, FallbackStrategy)>)
    ensures
        is_predefined(v@),
{
    let mut v: Vec<(Feature, FallbackStrategy)> = Vec::new();
    v.push((Feature::V8Optimization, FallbackStrategy::RetryLater(crate::time::duration_from_millis(100))));
    v.push((Feature::V8Optimization, FallbackStrategy::DegradeToBasic));
    v.push((Feature::V8Optimization, FallbackStrategy::DisableFeature));
    v.push((Feature::PythonRuntime, FallbackStrategy::UseAlternative(owned("Python subprocess"))));
    v.push((Feature::PythonRuntime, FallbackStrategy::Ignore));
    v.push((Feature::GoRuntime, FallbackStrategy::SwitchToBackup(owned("Go subprocess"))));
    v.push((Feature::GoRuntime, FallbackStrategy::LogAndContinue));
    v.push((Feature::WebAssembly, FallbackStrategy::RetryLater(crate::time::duration_from_millis(200))));
    v.push((Feature::WebAssembly, FallbackStrategy::UseAlternative(owned("V8 interpretation"))));
    v.push((Feature::KubernetesIntegration, FallbackStrategy::LogAndContinue));
    v.push((Feature::ServiceMesh, FallbackStrategy::Ignore));
    v.push((Feature::SecurityManager, FallbackStrategy::DisableFeature));
    v.push((Feature::ComplianceManager, FallbackStrategy::DisableFeature));
    v.push((Feature::EdgeComputing, FallbackStrategy::DegradeToBasic));
    v.push((Feature::OfflineMode, FallbackStrategy::Ignore));
    v.push((Feature::DistributedCoordination, FallbackStrategy::LogAndContinue));
    v
}

/// A fallback manager with the predefined strategies registered.
pub fn create_fallback_manager_with_strategies() -> (m: FallbackManager)
    ensures
        exists|v: Seq<(Feature, FallbackStrategy)>|
            #[trigger] is_predefined(v) && m.strategy_map() == register_all(
                Map::<Feature, Seq<FallbackStrategy>>::empty(),
                v,
            ),
        m.active_map() == initial_active(),
        m.history() == Seq::<FallbackEvent>::empty(),
{
    let mut m = FallbackManager::new();
    let v = predefined_strategies();
    let ghost vs = v@;
    m.register_strategies(v);
    assert(is_predefined(vs));
    m
}

/// Helpers that decide about fallbacks without a manager.
pub struct FallbackUtils;

/// Whether an error calls for a fallback: engine, multi-language, platform,
/// performance and network errors do.
pub open spec fn calls_for_fallback(e: BeejsError) -> bool {
    match e {
        BeejsError::V8Error(_) => true,
        BeejsError::MultiLanguageError(_) => true,
        BeejsError::PlatformError(_) => true,
        BeejsError::PerformanceError(_) => true,
        BeejsError::NetworkError(_) => true,
        _ => false,
    }
}

/// The default strategy of a feature; the name of an alternative or backup is
/// `Some` where the strategy carries one.
pub open spec fn default_strategy_kind(f: Feature) -> (FallbackStrategy, Option<Seq<char>>) {
    match f {
        Feature::V8Optimization => (FallbackStrategy::DegradeToBasic, None),
        Feature::PythonRuntime => (FallbackStrategy::UseAlternative(arbitrary()), Some("Subprocess"@)),
        Feature::GoRuntime => (FallbackStrategy::SwitchToBackup(arbitrary()), Some("Subprocess"@)),
        Feature::WebAssembly => (FallbackStrategy::UseAlternative(arbitrary()), Some("V8"@)),
        Feature::IOSRuntime | Feature::AndroidRuntime => (FallbackStrategy::LogAndContinue, None),
        Feature::KubernetesIntegration | Feature::ServiceMesh => (FallbackStrategy::Ignore, None),
        Feature::SecurityManager | Feature::ComplianceManager => (FallbackStrategy::DisableFeature, None),
        _ => (FallbackStrategy::LogAndContinue, None),
    }
}

/// The suggestions offered for a failing feature.
pub open spec fn fallback_suggestions(f: Feature) -> Seq<Seq<char>> {
    match f {
        Feature::V8Optimization => seq![
            "Consider using simplified V8 flags"@,
            "Reduce optimization level"@,
            "Disable V8 optimization temporarily"@,
        ],
        Feature::PythonRuntime => seq![
            "Use Python subprocess instead"@,
            "Switch to Python C extension"@,
            "Disable Python integration"@,
        ],
        Feature::GoRuntime => seq![
            "Use Go subprocess"@,
            "Switch to Go shared library"@,
            "Disable Go integration"@,
        ],
        Feature::WebAssembly => seq![
            "Use V8 interpretation mode"@,
            "Compile to native code"@,
            "Disable WASM support"@,
        ],
        Feature::KubernetesIntegration => seq![
            "Use standalone deployment"@,
            "Disable K8s integration"@,
        ],
        Feature::ServiceMesh => seq!["Use direct service calls"@, "Disable service mesh"@],
        _ => seq!["Check feature documentation"@, "Consider disabling the feature"@],
    }
}

impl FallbackUtils {
    /// Whether `error` calls for a fallback.
    pub fn should_fallback(error: &BeejsError) -> (r: bool)
        ensures
            r == calls_for_fallback(*error),
    {
        match error {
            BeejsError::V8Error(_) => true,
            BeejsError::MultiLanguageError(_) => true,
            BeejsError::PlatformError(_) => true,
            BeejsError::PerformanceError(_) => true,
            BeejsError::NetworkError(_) => true,
            _ => false,
        }
    }

    /// The default strategy of `feature`.
    pub fn get_default_strategy(feature: &Feature) -> (r: FallbackStrategy)
        ensures
            match default_strategy_kind(*feature) {
                (FallbackStrategy::UseAlternative(_), Some(name)) => r matches FallbackStrategy::UseAlternative(a)
                    && a@ == name,
                (FallbackStrategy::SwitchToBackup(_), Some(name)) => r matches FallbackStrategy::SwitchToBackup(b)
                    && b@ == name,
                (k, _) => r == k,
            },
    {
        match feature {
            Feature::V8Optimization => FallbackStrategy::DegradeToBasic,
            Feature::PythonRuntime => FallbackStrategy::UseAlternative(owned("Subprocess")),
            Feature::GoRuntime => FallbackStrategy::SwitchToBackup(owned("Subprocess")),
            Feature::WebAssembly => FallbackStrategy::UseAlternative(owned("V8")),
            Feature::IOSRuntime | Feature::AndroidRuntime => FallbackStrategy::LogAndContinue,
            Feature::KubernetesIntegration | Feature::ServiceMesh => FallbackStrategy::Ignore,
            Feature::SecurityManager | Feature::ComplianceManager => FallbackStrategy::DisableFeature,
            _ => FallbackStrategy::LogAndContinue,
        }
    }

    /// Suggestions for a failing `feature`.
    pub fn create_fallback_suggestions(feature: &Feature) -> (r: Vec<String>)
        ensures
            r@.map_values(|s: String| s@) == fallback_suggestions(*feature),
    {
        let mut v: Vec<String> = Vec::new();
        match feature {
            Feature::V8Optimization => {
                v.push(owned("Consider using simplified V8 flags"));
                v.push(owned("Reduce optimization level"));
                v.push(owned("Disable V8 optimization temporarily"));
            },
            Feature::PythonRuntime => {
                v.push(owned("Use Python subprocess instead"));
                v.push(owned("Switch to Python C extension"));
                v.push(owned("Disable Python integration"));
            },
            Feature::GoRuntime => {
                v.push(owned("Use Go subprocess"));
                v.push(owned("Switch to Go shared library"));
                v.push(owned("Disable Go integration"));
            },
            Feature::WebAssembly => {
                v.push(owned("Use V8 interpretation mode"));
                v.push(owned("Compile to native code"));
                v.push(owned("Disable WASM support"));
            },
            Feature::KubernetesIntegration => {
                v.push(owned("Use standalone deployment"));
                v.push(owned("Disable K8s integration"));
            },
            Feature::ServiceMesh => {
                v.push(owned("Use direct service calls"));
                v.push(owned("Disable service mesh"));
            },
            _ => {
                v.push(owned("Check feature documentation"));
                v.push(owned("Consider disabling the feature"));
            },
        }
        assert(v@.map_values(|s: String| s@) =~= fallback_suggestions(*feature));
        v
    }
}

/// The strategy applied first for a feature is the first one registered for it.
pub proof fn law_first_registered_applies(
    m: Map<Feature, Seq<FallbackStrategy>>,
    f: Feature,
    s: FallbackStrategy,
)
    requires
        !m.contains_key(f) || m[f].len() == 0,
    ensures
        first_strategy(register_one(m, f, s), f) == Some(s),
{
}

/// Registering more strategies never changes which one is applied first.
pub proof fn law_registration_keeps_first(
    m: Map<Feature, Seq<FallbackStrategy>>,
    f: Feature,
    g: Feature,
    s: FallbackStrategy,
)
    requires
        first_strategy(m, g) is Some,
    ensures
        first_strategy(register_one(m, f, s), g) == first_strategy(m, g),
{
}

} // verus!
