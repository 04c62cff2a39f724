//! The registry of the current meter provider.

use crate::metrics::same_meters;
use crate::metrics::Meter;
use crate::metrics::MeterProvider;
use crate::metrics::NoopMeterProvider;
use crate::metrics::SharedMeterProvider;
use crate::scope::InstrumentationScope;
use crate::scope::ScopeView;
use vstd::prelude::*;

verus! {

/// What `set_meter_provider` reports to the diagnostics channel.
#[derive(Clone, Copy, Debug, PartialEq, Eq, Structural)]
pub enum Diagnostic {
    /// The provider was replaced.
    GlobalSet,
    /// The provider was not replaced, because the lock is poisoned.
    GlobalSetFailed,
}

impl Diagnostic {
    /// Whether the event is reported as an error rather than as information.
    pub fn is_error(&self) -> (e: bool)
        ensures
            e == (*self == Diagnostic::GlobalSetFailed),
    {
        match self {
            Diagnostic::GlobalSet => false,
            Diagnostic::GlobalSetFailed => true,
        }
    }

    /// The name under which the event is reported.
    pub fn name(&self) -> (n: &'static str)
        ensures
            n@ == (match *self {
                Diagnostic::GlobalSet => "MeterProvider.GlobalSet"@,
                Diagnostic::GlobalSetFailed => "MeterProvider.GlobalSetFailed"@,
            }),
    {
        match self {
            Diagnostic::GlobalSet => "MeterProvider.GlobalSet",
            Diagnostic::GlobalSetFailed => "MeterProvider.GlobalSetFailed",
        }
    }

    /// The text that goes with the event.
    pub fn message(&self) -> (m: &'static str)
        ensures
            m@ == (match *self {
                Diagnostic::GlobalSet => "Global meter provider is set. Meters can now be created using global::meter() or global::meter_with_scope()."@,
                Diagnostic::GlobalSetFailed => "Global meter provider is not set due to lock poison. Meters created using global::meter() or global::meter_with_scope() will not function."@,
            }),
    {
        match self {
            Diagnostic::GlobalSet => "Global meter provider is set. Meters can now be created using global::meter() or global::meter_with_scope().",
            Diagnostic::GlobalSetFailed => "Global meter provider is not set due to lock poison. Meters created using global::meter() or global::meter_with_scope() will not function.",
        }
    }
}

/// The binding that a process keeps behind its reader/writer lock: the
/// current provider, and whether the lock around it is poisoned.
///
/// There is always a current provider. Until one is set it is the no-op
/// provider.
pub struct GlobalMeterProvider {
    provider: SharedMeterProvider,
    poisoned: bool,
}

impl GlobalMeterProvider {
    /// The current provider.
    pub closed spec fn provider(&self) -> SharedMeterProvider {
        self.provider
    }

    /// Whether the lock around the binding is poisoned: a writer came to an
    /// abnormal end while it held exclusive access.
    pub closed spec fn poisoned(&self) -> bool {
        self.poisoned
    }

    /// Whether this is the binding as it is before any provider was set:
    /// not poisoned, with a provider whose every meter is the no-op meter.
    pub open spec fn is_default(&self) -> bool {
        &&& !self.poisoned()
        &&& forall|scope: ScopeView, meter: Option<ScopeView>| #[trigger]
            self.provider().makes(scope, meter) <==> meter is None
    }

    /// Whether `meter` can come out of a request for `scope` on this binding:
    /// the current provider may hand it out for exactly that scope.
    pub open spec fn creates(&self, scope: ScopeView, meter: Option<ScopeView>) -> bool {
        self.provider().makes(scope, meter)
    }

    /// How `set_meter_provider` with `new_provider` takes the binding from
    /// `self` to `after`, and what it reports.
    pub open spec fn set_to<P: MeterProvider>(
        &self,
        new_provider: P,
        after: GlobalMeterProvider,
        event: Diagnostic,
    ) -> bool {
        if self.poisoned() {
            &&& after == *self
            &&& event == Diagnostic::GlobalSetFailed
        } else {
            &&& !after.poisoned()
            &&& same_meters(after.provider(), new_provider)
            &&& event == Diagnostic::GlobalSet
        }
    }

    /// Whether the lock around the binding is poisoned.
    pub fn is_poisoned(&self) -> (p: bool)
        ensures
            p == self.poisoned(),
    {
        self.poisoned
    }

    /// Records that the lock around the binding is poisoned. The provider
    /// stays, and the mark stays for good.
    pub fn poison(&mut self)
        ensures
            final(self).poisoned(),
            final(self).provider() == old(self).provider(),
    {
        self.poisoned = true;
    }
}

/// The binding as it is on first access: the no-op provider, not poisoned.
pub fn global_meter_provider() -> (global: GlobalMeterProvider)
    ensures
        global.is_default(),
{
    let noop = NoopMeterProvider::new();
    let provider = SharedMeterProvider::new(noop);
    assert forall|scope: ScopeView, meter: Option<ScopeView>| #[trigger]
        provider.makes(scope, meter) <==> meter is None by {
        assert(provider.makes(scope, meter) == noop.makes(scope, meter));
    }
    GlobalMeterProvider { provider, poisoned: false }
}

/// Makes `new_provider` the current provider.
///
/// On a poisoned binding nothing changes, and the failure is reported
/// instead: setting a provider never fails the caller.
pub fn set_meter_provider<P: MeterProvider + 'static>(
    global: &mut GlobalMeterProvider,
    new_provider: P,
) -> (event: Diagnostic)
    ensures
        old(global).set_to(new_provider, *final(global), event),
{
    if global.poisoned {
        Diagnostic::GlobalSetFailed
    } else {
        global.provider = SharedMeterProvider::new(new_provider);
        Diagnostic::GlobalSet
    }
}

/// Another handle to the current provider.
pub fn meter_provider(global: &GlobalMeterProvider) -> (handle: SharedMeterProvider)
    requires
        !global.poisoned(),
    ensures
        handle == global.provider(),
{
    global.provider.clone()
}

/// Creates a meter of this name with the current provider.
pub fn meter(global: &GlobalMeterProvider, name: &'static str) -> (m: Meter)
    requires
        !global.poisoned(),
    ensures
        global.creates(ScopeView::named(name@), m@),
{
    meter_provider(global).meter(name)
}

/// Creates a meter for `scope` with the current provider.
pub fn meter_with_scope(global: &GlobalMeterProvider, scope: InstrumentationScope) -> (m: Meter)
    requires
        !global.poisoned(),
    ensures
        global.creates(scope@, m@),
{
    meter_provider(global).meter_with_scope(scope)
}

/// Before any provider is set, every meter that the binding creates is the
/// no-op meter, and creating one is allowed: the binding is not poisoned.
pub proof fn law_default_is_noop(
    global: GlobalMeterProvider,
    scope: ScopeView,
    meter: Option<ScopeView>,
)
    requires
        global.is_default(),
    ensures
        !global.poisoned(),
        global.creates(scope, meter) <==> meter is None,
{
}

/// Creating a meter through the binding is asking the handle that
/// `meter_provider` returns: both may hand out the same meters.
pub proof fn law_meter_is_the_providers(
    global: GlobalMeterProvider,
    handle: SharedMeterProvider,
    scope: ScopeView,
    meter: Option<ScopeView>,
)
    requires
        handle == global.provider(),
    ensures
        global.creates(scope, meter) <==> handle.makes(scope, meter),
{
}

/// Once a provider is set on a binding that is not poisoned, the binding
/// creates exactly the meters of that provider, for every scope, and stays
/// fit for reading.
pub proof fn law_set_takes_effect<P: MeterProvider>(
    before: GlobalMeterProvider,
    new_provider: P,
    after: GlobalMeterProvider,
    event: Diagnostic,
    scope: ScopeView,
    meter: Option<ScopeView>,
)
    requires
        !before.poisoned(),
        before.set_to(new_provider, after, event),
    ensures
        !after.poisoned(),
        event == Diagnostic::GlobalSet,
        after.creates(scope, meter) <==> new_provider.makes(scope, meter),
{
}

/// Of two providers set one after the other, the second is the one whose
/// meters the binding creates afterwards; what the first would create does
/// not matter.
pub proof fn law_last_writer_wins<P: MeterProvider, Q: MeterProvider>(
    start: GlobalMeterProvider,
    first: P,
    between: GlobalMeterProvider,
    first_event: Diagnostic,
    second: Q,
    end: GlobalMeterProvider,
    second_event: Diagnostic,
    scope: ScopeView,
    meter: Option<ScopeView>,
)
    requires
        !start.poisoned(),
        start.set_to(first, between, first_event),
        between.set_to(second, end, second_event),
    ensures
        !end.poisoned(),
        end.creates(scope, meter) <==> second.makes(scope, meter),
{
}

/// On a poisoned binding setting a provider changes nothing, whatever the
/// provider, and reports the failure.
pub proof fn law_poisoned_set_has_no_effect<P: MeterProvider>(
    before: GlobalMeterProvider,
    new_provider: P,
    after: GlobalMeterProvider,
    event: Diagnostic,
)
    requires
        before.poisoned(),
        before.set_to(new_provider, after, event),
    ensures
        after == before,
        event == Diagnostic::GlobalSetFailed,
{
}

} // verus!
