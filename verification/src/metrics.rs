//! Meters, and the capability to create them.

use crate::scope::InstrumentationScope;
use crate::scope::ScopeView;
use std::sync::Arc;
use vstd::prelude::*;

verus! {

/// A handle for creating instruments, as a provider hands it out.
///
/// A meter either belongs to the scope it was created for, or it is the
/// no-op meter, which belongs to none and records nothing.
#[derive(Clone, Debug, PartialEq, Eq)]
pub struct Meter {
    scope: Option<InstrumentationScope>,
}

impl View for Meter {
    type V = Option<ScopeView>;

    closed spec fn view(&self) -> Option<ScopeView> {
        match self.scope {
            Some(scope) => Some(scope@),
            None => None,
        }
    }
}

impl Meter {
    /// A meter that belongs to `scope`.
    pub fn new(scope: InstrumentationScope) -> (m: Meter)
        ensures
            m@ == Some(scope@),
    {
        Meter { scope: Some(scope) }
    }

    /// The meter that records nothing.
    pub fn noop() -> (m: Meter)
        ensures
            m@ is None,
    {
        Meter { scope: None }
    }

    /// Whether this is the meter that records nothing.
    pub fn is_noop(&self) -> (b: bool)
        ensures
            b == (self@ is None),
    {
        self.scope.is_none()
    }

    /// The scope this meter belongs to, if any.
    pub fn scope(&self) -> (s: Option<&InstrumentationScope>)
        ensures
            s is Some == self@ is Some,
            s is Some ==> s->0@ == self@->0,
    {
        self.scope.as_ref()
    }
}

/// The capability to create meters.
///
/// A provider is shared between threads, so it must be `Send` and `Sync`.
/// What it hands out is up to the implementation; `makes` names the meters
/// that it may hand out for a scope.
pub trait MeterProvider: Send + Sync {
    /// Whether `meter` is a meter that this provider may hand out when asked
    /// for `scope`. A provider that says nothing may hand out any meter.
    open spec fn makes(&self, scope: ScopeView, meter: Option<ScopeView>) -> bool {
        true
    }

    /// Creates a meter for the scope of this name. An empty name is accepted;
    /// the provider chooses what stands for it.
    fn meter(&self, name: &'static str) -> (m: Meter)
        ensures
            self.makes(ScopeView::named(name@), m@),
    {
        let scope = InstrumentationScope::builder(name).build();
        self.meter_with_scope(scope)
    }

    /// Creates a meter for `scope`.
    fn meter_with_scope(&self, scope: InstrumentationScope) -> (m: Meter)
        ensures
            self.makes(scope@, m@),
    ;
}

/// The provider that discards every request: all its meters are the no-op
/// meter.
#[derive(Clone, Copy, Debug)]
pub struct NoopMeterProvider {
    _private: (),
}

impl NoopMeterProvider {
    /// A provider whose every meter is the no-op meter.
    pub fn new() -> (p: NoopMeterProvider)
        ensures
            forall|scope: ScopeView, meter: Option<ScopeView>| #[trigger]
                p.makes(scope, meter) <==> meter is None,
    {
        NoopMeterProvider { _private: () }
    }
}

impl MeterProvider for NoopMeterProvider {
    open spec fn makes(&self, scope: ScopeView, meter: Option<ScopeView>) -> bool {
        meter is None
    }

    fn meter_with_scope(&self, scope: InstrumentationScope) -> (m: Meter) {
        Meter::noop()
    }
}

/// A provider as the registry holds it and hands it out: shared, and known
/// only by its capability. It is a provider itself, and creates the meters of
/// the provider it was made from.
pub struct SharedMeterProvider {
    inner: Arc<dyn MeterProvider>,
}

impl MeterProvider for SharedMeterProvider {
    closed spec fn makes(&self, scope: ScopeView, meter: Option<ScopeView>) -> bool {
        self.inner.makes(scope, meter)
    }

    fn meter(&self, name: &'static str) -> (m: Meter) {
        self.inner.meter(name)
    }

    fn meter_with_scope(&self, scope: InstrumentationScope) -> (m: Meter) {
        self.inner.meter_with_scope(scope)
    }
}

/// Whether `a` and `b` create the same meters.
pub open spec fn same_meters<A: MeterProvider, B: MeterProvider>(a: A, b: B) -> bool {
    forall|scope: ScopeView, meter: Option<ScopeView>|
        #[trigger] a.makes(scope, meter) == b.makes(scope, meter)
}

impl SharedMeterProvider {
    /// `Arc::new`, followed by the coercion to a trait object. The handle
    /// dispatches every call to the value it was made from, so it creates
    /// meters exactly as that value does.
    #[verifier::external_body]
    pub(crate) fn new<P: MeterProvider + 'static>(provider: P) -> (handle: SharedMeterProvider)
        ensures
            same_meters(handle, provider),
    {
        SharedMeterProvider { inner: Arc::new(provider) }
    }
}

impl Clone for SharedMeterProvider {
    /// `Arc::clone`: another handle to the same provider.
    #[verifier::external_body]
    fn clone(&self) -> (copy: SharedMeterProvider)
        ensures
            copy == *self,
    {
        SharedMeterProvider { inner: Arc::clone(&self.inner) }
    }
}

} // verus!
