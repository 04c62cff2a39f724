use global_metrics::global::{
    global_meter_provider, meter, meter_provider, set_meter_provider, Diagnostic,
    GlobalMeterProvider,
};
use global_metrics::metrics::{Meter, MeterProvider};
use global_metrics::scope::InstrumentationScope;
use std::sync::{OnceLock, RwLock};

/// Hands out a meter for the scope asked for, with the provider's label as
/// its version.
struct Labelled(&'static str);

impl MeterProvider for Labelled {
    fn meter_with_scope(&self, scope: InstrumentationScope) -> Meter {
        Meter::new(InstrumentationScope::builder(scope.name()).with_version(self.0).build())
    }
}

fn version_of(m: &Meter) -> Option<String> {
    m.scope().and_then(|s| s.version()).map(|v| v.to_string())
}

#[test]
fn binding_behind_a_lock_starts_with_the_noop_provider() {
    let cell: OnceLock<RwLock<GlobalMeterProvider>> = OnceLock::new();
    let lock = cell.get_or_init(|| RwLock::new(global_meter_provider()));
    let again = cell.get_or_init(|| {
        let mut other = global_meter_provider();
        set_meter_provider(&mut other, Labelled("never"));
        RwLock::new(other)
    });
    assert!(meter(&lock.read().unwrap(), "x").is_noop());
    assert!(meter(&again.read().unwrap(), "x").is_noop());
}

#[test]
fn writers_in_turn_leave_the_last_provider() {
    let lock = RwLock::new(global_meter_provider());
    for label in ["left", "right"] {
        let mut binding = lock.write().unwrap();
        assert_eq!(set_meter_provider(&mut binding, Labelled(label)), Diagnostic::GlobalSet);
    }
    let first_reader = lock.read().unwrap();
    let second_reader = lock.read().unwrap();
    let handle = meter_provider(&first_reader);
    assert_eq!(version_of(&handle.meter("svc")), Some("right".to_string()));
    assert_eq!(version_of(&meter(&second_reader, "svc")), Some("right".to_string()));
}
