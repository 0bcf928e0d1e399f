//! Model of the graphics-context-scoped resource world.
//!
//! A graphics context is a live handle to a graphics device; a filter context
//! is the per-frame rendering context on the same device.  Every
//! context-dependent resource is either *enabled* (usable, bound to a live
//! context) or *disabled* (storable past the context's scope, contents
//! preserved, not directly usable).  Enabling demands a context on the
//! resource's own device; the enabled form is the only way to reach the
//! value, and the disabled form is the only one the engine stores.

use vstd::prelude::*;

verus! {

/// A live handle to a graphics device.
#[derive(Clone, Copy)]
pub struct GraphicsContext {
    pub device: u64,
}

/// The per-frame rendering context of a filter, on the same device as the
/// graphics context it came from.
#[derive(Clone, Copy)]
pub struct FilterContext {
    pub device: u64,
}

impl FilterContext {
    /// The graphics context of the device this filter renders on.
    pub fn graphics(&self) -> (r: GraphicsContext)
        ensures
            r.device == self.device,
    {
        GraphicsContext { device: self.device }
    }
}

/// A context-dependent resource in its enabled state: usable, bound to the
/// live context of its device.
pub struct GraphicsContextDependentEnabled<T> {
    pub(crate) value: T,
    pub(crate) device: u64,
}

/// A context-dependent resource in its disabled state: contents preserved,
/// storable across frames, not directly usable.
pub struct GraphicsContextDependentDisabled<T> {
    pub(crate) value: T,
    pub(crate) device: u64,
}

impl<T> GraphicsContextDependentEnabled<T> {
    /// The held value.
    pub closed spec fn spec_value(self) -> T {
        self.value
    }

    /// The device the resource is bound to.
    pub closed spec fn spec_device(self) -> u64 {
        self.device
    }

    /// Bind a value to the device of the live context.
    pub fn new(value: T, context: &GraphicsContext) -> (r: Self)
        ensures
            r.spec_value() == value,
            r.spec_device() == context.device,
    {
        GraphicsContextDependentEnabled { value, device: context.device }
    }

    /// Read the value through the enabled form.
    pub fn get(&self) -> (r: &T)
        ensures
            *r == self.spec_value(),
    {
        &self.value
    }

    /// Disable the resource so it can be stored past the context's scope.
    pub fn disable(self) -> (r: GraphicsContextDependentDisabled<T>)
        ensures
            r.spec_value() == self.spec_value(),
            r.spec_device() == self.spec_device(),
    {
        GraphicsContextDependentDisabled { value: self.value, device: self.device }
    }
}

impl<T> GraphicsContextDependentDisabled<T> {
    /// The preserved value.
    pub closed spec fn spec_value(self) -> T {
        self.value
    }

    /// The device the resource belongs to.
    pub closed spec fn spec_device(self) -> u64 {
        self.device
    }

    /// Re-enable the resource against a live context of its own device.
    pub fn enable(self, context: &GraphicsContext) -> (r: GraphicsContextDependentEnabled<T>)
        requires
            context.device == self.spec_device(),
        ensures
            r.spec_value() == self.spec_value(),
            r.spec_device() == self.spec_device(),
    {
        GraphicsContextDependentEnabled { value: self.value, device: self.device }
    }

    /// Read the value as briefly enabled against a live context of the
    /// resource's own device.
    pub fn as_enabled_ref(&self, context: &GraphicsContext) -> (r: &T)
        requires
            context.device == self.spec_device(),
        ensures
            *r == self.spec_value(),
    {
        &self.value
    }
}

/// The destination slot of one shader parameter: it knows the default the
/// shader declares for it, and remembers (as ghost state) the value most
/// recently written for the upcoming draw.
pub struct ShaderParamHandle<V> {
    pub(crate) device: u64,
    pub(crate) default_value: Option<V>,
    pub(crate) assigned: Ghost<Option<V>>,
}

impl<V> ShaderParamHandle<V> {
    pub closed spec fn spec_device(self) -> u64 {
        self.device
    }

    pub closed spec fn spec_default_value(self) -> Option<V> {
        self.default_value
    }

    /// The value most recently written into the slot, if any.
    pub closed spec fn spec_assigned(self) -> Option<V> {
        self.assigned@
    }

    /// Obtain a parameter slot on the device of the live context, carrying
    /// the default the shader declares, with nothing written yet.
    pub fn new(default_value: Option<V>, context: &GraphicsContext) -> (r: GraphicsContextDependentEnabled<ShaderParamHandle<V>>)
        ensures
            r.spec_device() == context.device,
            r.spec_value().spec_device() == context.device,
            r.spec_value().spec_default_value() == default_value,
            r.spec_value().spec_assigned() is None,
    {
        GraphicsContextDependentEnabled {
            value: ShaderParamHandle { device: context.device, default_value, assigned: Ghost(None) },
            device: context.device,
        }
    }

    /// The default value the shader declares for this parameter, if any.
    pub fn get_param_value_default(&self) -> (r: &Option<V>)
        ensures
            *r == self.spec_default_value(),
    {
        &self.default_value
    }
}

/// The disabled resource holding `value` and belonging to `device`.
pub closed spec fn spec_disabled_resource<T>(value: T, device: u64) -> GraphicsContextDependentDisabled<T> {
    GraphicsContextDependentDisabled { value, device }
}

pub broadcast proof fn lemma_spec_disabled_resource<T>(value: T, device: u64)
    ensures
        (#[trigger] spec_disabled_resource(value, device)).spec_value() == value,
        spec_disabled_resource(value, device).spec_device() == device,
{
}

/// Every disabled resource is the one determined by its value and device.
pub broadcast proof fn lemma_disabled_resource_ext<T>(a: GraphicsContextDependentDisabled<T>)
    ensures
        a == #[trigger] spec_disabled_resource(a.spec_value(), a.spec_device()),
{
}

/// The parameter slot on `device` with the given declared default and ghost
/// record of the last written value.
pub closed spec fn spec_param_handle<V>(device: u64, default_value: Option<V>, assigned: Option<V>) -> ShaderParamHandle<V> {
    ShaderParamHandle { device, default_value, assigned: Ghost(assigned) }
}

pub broadcast proof fn lemma_spec_param_handle<V>(device: u64, default_value: Option<V>, assigned: Option<V>)
    ensures
        (#[trigger] spec_param_handle(device, default_value, assigned)).spec_device() == device,
        spec_param_handle(device, default_value, assigned).spec_default_value() == default_value,
        spec_param_handle(device, default_value, assigned).spec_assigned() == assigned,
{
}

/// Every parameter slot is the one determined by its device, default and
/// ghost record.
pub broadcast proof fn lemma_param_handle_ext<V>(h: ShaderParamHandle<V>)
    ensures
        h == #[trigger] spec_param_handle(h.spec_device(), h.spec_default_value(), h.spec_assigned()),
{
}

impl<V> GraphicsContextDependentDisabled<ShaderParamHandle<V>> {
    /// Enable the parameter slot against the frame's context and write the
    /// value into it for the upcoming draw; the slot is disabled again when
    /// the call returns.
    pub fn set_param_value(&mut self, value: &V, context: &FilterContext)
        requires
            context.device == old(self).spec_device(),
            old(self).spec_value().spec_device() == old(self).spec_device(),
        ensures
            final(self).spec_device() == old(self).spec_device(),
            final(self).spec_value().spec_device() == old(self).spec_value().spec_device(),
            final(self).spec_value().spec_default_value() == old(self).spec_value().spec_default_value(),
            final(self).spec_value().spec_assigned() == Some(*value),
    {
        self.value.assigned = Ghost(Some(*value));
    }
}

} // verus!
