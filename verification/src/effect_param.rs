//! The effect parameter staging engine.
//!
//! An `EffectParam` takes care of three different tasks: it stores a
//! _prepared value_ (see `prepare_value`); it creates a graphics resource
//! from the prepared value, if one is pending, and stores the result disabled
//! (see `stage_value`); and it assigns the staged value to the effect's
//! current filter (see `assign_value`).  A staged value is sticky: it stays
//! bound across frames until replaced, and the previously staged resource is
//! enabled against the live context before it is released, so no resource is
//! ever destroyed while disabled.

use vstd::prelude::*;
use crate::graphics::{
    GraphicsContext, FilterContext, GraphicsContextDependentEnabled,
    GraphicsContextDependentDisabled, ShaderParamHandle, spec_disabled_resource,
    spec_param_handle, lemma_spec_disabled_resource, lemma_disabled_resource_ext,
    lemma_spec_param_handle, lemma_param_handle_ext,
};
use crate::tex_levels::{TextureLevels, levels_seq};

verus! {

/// The color layout of a texture: four 8-bit channels, or one 32-bit float
/// channel.
#[derive(Clone, Copy, PartialEq, Eq, Structural, Debug)]
pub enum ColorFormatKind {
    RGBA,
    R32F,
}

/// The bytes one pixel occupies in a format.
pub open spec fn spec_bytes_per_pixel(format: ColorFormatKind) -> int {
    match format {
        ColorFormatKind::RGBA => 4,
        ColorFormatKind::R32F => 4,
    }
}

/// The extent of a dimension at a mip level: halved once per level, never
/// below one.
pub open spec fn spec_mip_dim(d: int, level: int) -> int
    decreases level,
{
    if level <= 0 {
        d
    } else {
        let h = spec_mip_dim(d, level - 1) / 2;
        if h < 1 {
            1
        } else {
            h
        }
    }
}

/// A plain value describing a texture: pixel dimensions, color format, one
/// raw byte buffer per mip level, and a flag bitmask.
pub struct TextureDescriptor {
    pub dimensions: [usize; 2],
    pub color_format: ColorFormatKind,
    pub levels: TextureLevels,
    pub flags: u32,
}

impl TextureDescriptor {
    /// Well-formedness: at least one level, and each level's byte length
    /// matches the dimensions and format for that mip.
    pub open spec fn wf(self) -> bool {
        &&& levels_seq(self.levels).len() >= 1
        &&& forall|i: int|
            0 <= i < levels_seq(self.levels).len() ==> (#[trigger] levels_seq(self.levels)[i]).len()
                == spec_mip_dim(self.dimensions[0] as int, i) * spec_mip_dim(
                self.dimensions[1] as int,
                i,
            ) * spec_bytes_per_pixel(self.color_format)
    }
}

impl TextureDescriptor {
    /// The number of mip levels held.
    pub fn level_count(&self) -> (r: usize)
        ensures
            r == levels_seq(self.levels).len(),
    {
        self.levels.len()
    }

    /// The raw bytes of one mip level.
    pub fn level_bytes(&self, i: usize) -> (r: &Vec<u8>)
        requires
            i < levels_seq(self.levels).len(),
        ensures
            r@ == levels_seq(self.levels)[i as int],
    {
        self.levels.get(i)
    }
}

impl Default for TextureDescriptor {
    /// A one-by-one RGBA texture with a single all-zero level and no flags.
    fn default() -> (r: Self)
        ensures
            r.wf(),
            r.dimensions[0] == 1,
            r.dimensions[1] == 1,
            r.color_format == ColorFormatKind::RGBA,
            levels_seq(r.levels) =~= seq![seq![0u8, 0u8, 0u8, 0u8]],
            r.flags == 0,
    {
        let level0: Vec<u8> = vec![0u8, 0u8, 0u8, 0u8];
        assert(level0@ =~= seq![0u8, 0u8, 0u8, 0u8]);
        let r = TextureDescriptor {
            dimensions: [1, 1],
            color_format: ColorFormatKind::RGBA,
            levels: TextureLevels::single(level0),
            flags: 0,
        };
        proof {
            assert forall|i: int| 0 <= i < levels_seq(r.levels).len() implies (#[trigger] levels_seq(
                r.levels,
            )[i]).len() == spec_mip_dim(r.dimensions[0] as int, i) * spec_mip_dim(
                r.dimensions[1] as int,
                i,
            ) * spec_bytes_per_pixel(r.color_format) by {
                assert(i == 0);
                assert(r.dimensions[0] == 1);
                assert(r.dimensions[1] == 1);
                assert(spec_mip_dim(1, 0) == 1);
                assert(spec_bytes_per_pixel(ColorFormatKind::RGBA) == 4);
                assert(levels_seq(r.levels)[0].len() == 4);
            }
        }
        r
    }
}

/// A texture resource held by the graphics device, carrying the descriptor
/// data it was allocated from.
pub struct GpuTexture {
    pub descriptor: TextureDescriptor,
}

impl GpuTexture {
    /// Allocate a texture on the device of the live context from descriptor
    /// data.
    pub fn new(descriptor: TextureDescriptor, context: &GraphicsContext) -> (r: GraphicsContextDependentEnabled<GpuTexture>)
        requires
            descriptor.wf(),
        ensures
            r.spec_value().descriptor == descriptor,
            r.spec_device() == context.device,
    {
        GraphicsContextDependentEnabled::new(GpuTexture { descriptor }, context)
    }
}

/// A shader parameter kind's native value, with its default.
pub trait ParamValueDefault: Sized {
    spec fn spec_param_default() -> Self;

    fn param_default() -> (r: Self)
        ensures
            r == Self::spec_param_default(),
    ;
}

/// Used to convert cloneable values into a kind's native staged
/// representation.  Each shader parameter kind gives its prepared and staged
/// representations, the conversion between them, and the binding of a staged
/// value into a parameter slot.
pub trait EffectParamType {
    /// The native staged representation.
    type RustType;

    /// The application-owned prepared representation.
    type PreparedValueType;

    /// Whether a prepared value can be converted to a graphics resource
    /// (a texture descriptor must be well-formed; scalar kinds accept
    /// anything).
    spec fn spec_can_stage(prepared: Self::PreparedValueType) -> bool;

    /// The staged value a prepared value converts to.
    spec fn spec_convert(prepared: Self::PreparedValueType) -> Self::RustType;

    /// Whether a prepared value is the kind's default.
    spec fn spec_is_default(prepared: Self::PreparedValueType) -> bool;

    fn default_prepared() -> (r: Self::PreparedValueType)
        ensures
            Self::spec_is_default(r),
            Self::spec_can_stage(r),
    ;

    fn convert_and_stage_value(
        prepared: Self::PreparedValueType,
        context: &GraphicsContext,
    ) -> (r: GraphicsContextDependentDisabled<Self::RustType>)
        requires
            Self::spec_can_stage(prepared),
        ensures
            r.spec_device() == context.device,
            r.spec_value() == Self::spec_convert(prepared),
    ;

    fn assign_staged_value(
        staged: &Self::RustType,
        param: &mut GraphicsContextDependentDisabled<ShaderParamHandle<Self::RustType>>,
        context: &FilterContext,
    )
        requires
            context.device == old(param).spec_device(),
            old(param).spec_value().spec_device() == old(param).spec_device(),
        ensures
            final(param).spec_device() == old(param).spec_device(),
            final(param).spec_value().spec_device() == old(param).spec_value().spec_device(),
            final(param).spec_value().spec_default_value() == old(param).spec_value().spec_default_value(),
            final(param).spec_value().spec_assigned() == Some(*staged),
    ;
}

/// The kinds whose prepared and staged representations coincide: the value is
/// bound to the context unchanged.
pub struct EffectParamTypeClone<V> {
    _marker: core::marker::PhantomData<V>,
}

impl<V: ParamValueDefault> EffectParamType for EffectParamTypeClone<V> {
    type RustType = V;

    type PreparedValueType = V;

    open spec fn spec_can_stage(prepared: V) -> bool {
        true
    }

    open spec fn spec_convert(prepared: V) -> V {
        prepared
    }

    open spec fn spec_is_default(prepared: V) -> bool {
        prepared == V::spec_param_default()
    }

    fn default_prepared() -> (r: V) {
        V::param_default()
    }

    fn convert_and_stage_value(prepared: V, context: &GraphicsContext) -> (r: GraphicsContextDependentDisabled<V>) {
        GraphicsContextDependentEnabled::new(prepared, context).disable()
    }

    fn assign_staged_value(
        staged: &V,
        param: &mut GraphicsContextDependentDisabled<ShaderParamHandle<V>>,
        context: &FilterContext,
    ) {
        param.set_param_value(staged, context);
    }
}

/// The texture kind: a descriptor converts by allocating a texture from its
/// dimensions, format, levels and flags.
pub struct EffectParamTypeTexture;

impl EffectParamType for EffectParamTypeTexture {
    type RustType = GpuTexture;

    type PreparedValueType = TextureDescriptor;

    open spec fn spec_can_stage(prepared: TextureDescriptor) -> bool {
        prepared.wf()
    }

    open spec fn spec_convert(prepared: TextureDescriptor) -> GpuTexture {
        GpuTexture { descriptor: prepared }
    }

    open spec fn spec_is_default(prepared: TextureDescriptor) -> bool {
        &&& prepared.dimensions[0] == 1
        &&& prepared.dimensions[1] == 1
        &&& prepared.color_format == ColorFormatKind::RGBA
        &&& levels_seq(prepared.levels) =~= seq![seq![0u8, 0u8, 0u8, 0u8]]
        &&& prepared.flags == 0
    }

    fn default_prepared() -> (r: TextureDescriptor) {
        TextureDescriptor::default()
    }

    fn convert_and_stage_value(prepared: TextureDescriptor, context: &GraphicsContext) -> (r: GraphicsContextDependentDisabled<GpuTexture>) {
        GpuTexture::new(prepared, context).disable()
    }

    fn assign_staged_value(
        staged: &GpuTexture,
        param: &mut GraphicsContextDependentDisabled<ShaderParamHandle<GpuTexture>>,
        context: &FilterContext,
    ) {
        param.set_param_value(staged, context);
    }
}

impl ParamValueDefault for bool {
    open spec fn spec_param_default() -> bool {
        false
    }

    fn param_default() -> (r: bool) {
        false
    }
}

impl ParamValueDefault for i32 {
    open spec fn spec_param_default() -> i32 {
        0
    }

    fn param_default() -> (r: i32) {
        0
    }
}

impl ParamValueDefault for u32 {
    open spec fn spec_param_default() -> u32 {
        0
    }

    fn param_default() -> (r: u32) {
        0
    }
}

impl ParamValueDefault for [i32; 2] {
    open spec fn spec_param_default() -> [i32; 2] {
        [0i32, 0i32]
    }

    fn param_default() -> (r: [i32; 2]) {
        [0i32, 0i32]
    }
}

impl ParamValueDefault for [i32; 3] {
    open spec fn spec_param_default() -> [i32; 3] {
        [0i32, 0i32, 0i32]
    }

    fn param_default() -> (r: [i32; 3]) {
        [0i32, 0i32, 0i32]
    }
}

impl ParamValueDefault for [i32; 4] {
    open spec fn spec_param_default() -> [i32; 4] {
        [0i32, 0i32, 0i32, 0i32]
    }

    fn param_default() -> (r: [i32; 4]) {
        [0i32, 0i32, 0i32, 0i32]
    }
}

impl ParamValueDefault for [u32; 2] {
    open spec fn spec_param_default() -> [u32; 2] {
        [0u32, 0u32]
    }

    fn param_default() -> (r: [u32; 2]) {
        [0u32, 0u32]
    }
}

impl ParamValueDefault for [u32; 3] {
    open spec fn spec_param_default() -> [u32; 3] {
        [0u32, 0u32, 0u32]
    }

    fn param_default() -> (r: [u32; 3]) {
        [0u32, 0u32, 0u32]
    }
}

impl ParamValueDefault for [u32; 4] {
    open spec fn spec_param_default() -> [u32; 4] {
        [0u32, 0u32, 0u32, 0u32]
    }

    fn param_default() -> (r: [u32; 4]) {
        [0u32, 0u32, 0u32, 0u32]
    }
}

impl ParamValueDefault for [u32; 16] {
    open spec fn spec_param_default() -> [u32; 16] {
        [
            0u32,
            0u32,
            0u32,
            0u32,
            0u32,
            0u32,
            0u32,
            0u32,
            0u32,
            0u32,
            0u32,
            0u32,
            0u32,
            0u32,
            0u32,
            0u32,
        ]
    }

    fn param_default() -> (r: [u32; 16]) {
        [
            0u32,
            0u32,
            0u32,
            0u32,
            0u32,
            0u32,
            0u32,
            0u32,
            0u32,
            0u32,
            0u32,
            0u32,
            0u32,
            0u32,
            0u32,
            0u32,
        ]
    }
}

pub type EffectParamBool = EffectParam<EffectParamTypeClone<bool>>;

pub type EffectParamInt = EffectParam<EffectParamTypeClone<i32>>;

pub type EffectParamIVec2 = EffectParam<EffectParamTypeClone<[i32; 2]>>;

pub type EffectParamIVec3 = EffectParam<EffectParamTypeClone<[i32; 3]>>;

pub type EffectParamIVec4 = EffectParam<EffectParamTypeClone<[i32; 4]>>;

pub type EffectParamFloat = EffectParam<EffectParamTypeClone<u32>>;

pub type EffectParamVec2 = EffectParam<EffectParamTypeClone<[u32; 2]>>;

pub type EffectParamVec3 = EffectParam<EffectParamTypeClone<[u32; 3]>>;

pub type EffectParamVec4 = EffectParam<EffectParamTypeClone<[u32; 4]>>;

pub type EffectParamMat4 = EffectParam<EffectParamTypeClone<[u32; 16]>>;

pub type EffectParamTexture = EffectParam<EffectParamTypeTexture>;

/// This type takes care of three different tasks: it stores a _prepared
/// value_ (see `prepare_value`); it creates a graphics resource from the
/// prepared value, if it was changed, and stores the result (see
/// `stage_value`); and it assigns the staged values to filters (see
/// `assign_value`).
pub struct EffectParam<T: EffectParamType> {
    pub param: GraphicsContextDependentDisabled<ShaderParamHandle<T::RustType>>,
    pub prepared_value: Option<T::PreparedValueType>,
    pub staged_value: Option<GraphicsContextDependentDisabled<T::RustType>>,
}

impl<T: EffectParamType> EffectParam<T> {
    /// Well-formedness: the destination slot lives on its own device, any
    /// pending prepared value is convertible, and any staged resource is on
    /// the slot's device.
    pub open spec fn wf(self) -> bool {
        &&& self.param.spec_value().spec_device() == self.param.spec_device()
        &&& match self.prepared_value {
            Some(p) => T::spec_can_stage(p),
            None => true,
        }
        &&& match self.staged_value {
            Some(s) => s.spec_device() == self.param.spec_device(),
            None => true,
        }
    }

    /// The state after requesting a new value: the pending prepared value is
    /// replaced, everything else is kept.
    pub open spec fn spec_prepare(self, new_value: T::PreparedValueType) -> Self {
        EffectParam { prepared_value: Some(new_value), ..self }
    }

    /// The state after a staging pass on `device`: a pending prepared value
    /// is converted and becomes the staged resource, and the pending slot is
    /// cleared; with nothing pending the state is unchanged.
    pub open spec fn spec_stage(self, device: u64) -> Self {
        match self.prepared_value {
            Some(p) => (EffectParam {
                param: self.param,
                prepared_value: None,
                staged_value: Some(spec_disabled_resource(T::spec_convert(p), device)),
            }),
            None => self,
        }
    }

    /// The state after handing in an already-converted resource: it replaces
    /// the staged resource, everything else is kept.
    pub open spec fn spec_stage_custom(self, value: GraphicsContextDependentDisabled<T::RustType>) -> Self {
        EffectParam { staged_value: Some(value), ..self }
    }

    /// The state after an assignment pass: the staged value is written into
    /// the destination slot and stays staged; with nothing staged the state
    /// is unchanged.
    pub open spec fn spec_assign(self) -> Self {
        match self.staged_value {
            Some(s) => (EffectParam {
                param: spec_disabled_resource(
                    spec_param_handle(
                        self.param.spec_value().spec_device(),
                        self.param.spec_value().spec_default_value(),
                        Some(s.spec_value()),
                    ),
                    self.param.spec_device(),
                ),
                prepared_value: self.prepared_value,
                staged_value: self.staged_value,
            }),
            None => self,
        }
    }

    /// A new engine around a disabled parameter slot: the kind's default is
    /// already prepared, so the first staging pass always has a value, and
    /// nothing is staged yet.
    pub fn new(param: GraphicsContextDependentDisabled<ShaderParamHandle<T::RustType>>) -> (r: Self)
        requires
            param.spec_value().spec_device() == param.spec_device(),
        ensures
            r.wf(),
            r.param == param,
            r.prepared_value is Some,
            T::spec_is_default(r.prepared_value->0),
            r.staged_value is None,
    {
        EffectParam { param, prepared_value: Some(T::default_prepared()), staged_value: None }
    }

    /// Requests a new staged value to be generated from this prepared value.
    pub fn prepare_value(&mut self, new_value: T::PreparedValueType)
        requires
            T::spec_can_stage(new_value),
        ensures
            *final(self) == old(self).spec_prepare(new_value),
            old(self).wf() ==> final(self).wf(),
    {
        self.prepared_value = Some(new_value);
    }

    /// If a value is prepared (not `None`), creates a graphics resource from
    /// that value, to be used in effect filter processing.  The previously
    /// staged resource, if any, is enabled against the live context before it
    /// is released.
    pub fn stage_value(&mut self, graphics_context: &GraphicsContext)
        requires
            old(self).wf(),
            graphics_context.device == old(self).param.spec_device(),
        ensures
            *final(self) == old(self).spec_stage(graphics_context.device),
            final(self).wf(),
    {
        let pending = self.prepared_value.take();
        if let Some(prepared_value) = pending {
            let newly = T::convert_and_stage_value(prepared_value, graphics_context);
            let previous = self.staged_value.take();
            self.staged_value = Some(newly);
            if let Some(previous_resource) = previous {
                previous_resource.enable(graphics_context);
            }
            proof {
                lemma_disabled_resource_ext(self.staged_value->0);
            }
        }
    }

    /// Replace the staged resource with an already-converted one, enabling
    /// and releasing the previous resource.
    pub fn stage_value_custom(
        &mut self,
        value: GraphicsContextDependentDisabled<T::RustType>,
        graphics_context: &GraphicsContext,
    )
        requires
            old(self).wf(),
            graphics_context.device == old(self).param.spec_device(),
            value.spec_device() == old(self).param.spec_device(),
        ensures
            *final(self) == old(self).spec_stage_custom(value),
            final(self).wf(),
    {
        let previous = self.staged_value.take();
        self.staged_value = Some(value);
        if let Some(previous_resource) = previous {
            previous_resource.enable(graphics_context);
        }
    }

    /// Removes and returns the staged resource without destroying it,
    /// leaving the slot empty.
    pub fn take_staged_value(&mut self) -> (r: Option<GraphicsContextDependentDisabled<T::RustType>>)
        ensures
            r == old(self).staged_value,
            final(self).staged_value is None,
            final(self).param == old(self).param,
            final(self).prepared_value == old(self).prepared_value,
            old(self).wf() ==> final(self).wf(),
    {
        self.staged_value.take()
    }

    /// Assigns the staged value to the effect's current filter.  Keeps the
    /// staged value around.  A staged value must exist: assigning before
    /// staging is a contract violation, which this precondition makes
    /// unrepresentable.
    pub fn assign_value(&mut self, context: &FilterContext)
        requires
            old(self).wf(),
            old(self).staged_value is Some,
            context.device == old(self).param.spec_device(),
        ensures
            *final(self) == old(self).spec_assign(),
            final(self).wf(),
            final(self).param.spec_value().spec_assigned() == Some(
                old(self).staged_value->0.spec_value(),
            ),
    {
        let graphics = context.graphics();
        let staged_ref = self.staged_value.as_ref().unwrap();
        let staged_value: &T::RustType = staged_ref.as_enabled_ref(&graphics);
        T::assign_staged_value(staged_value, &mut self.param, context);
        proof {
            lemma_param_handle_ext(self.param.spec_value());
            lemma_disabled_resource_ext(self.param);
            lemma_spec_param_handle(
                old(self).param.spec_value().spec_device(),
                old(self).param.spec_value().spec_default_value(),
                Some(old(self).staged_value->0.spec_value()),
            );
            lemma_spec_disabled_resource(
                spec_param_handle(
                    old(self).param.spec_value().spec_device(),
                    old(self).param.spec_value().spec_default_value(),
                    Some(old(self).staged_value->0.spec_value()),
                ),
                old(self).param.spec_device(),
            );
        }
    }

    /// Like `assign_value`, but a no-op when nothing is staged: the variant
    /// for optional parameters that may not exist yet on the first frame.
    pub fn assign_value_if_staged(&mut self, context: &FilterContext)
        requires
            old(self).wf(),
            context.device == old(self).param.spec_device(),
        ensures
            *final(self) == old(self).spec_assign(),
            final(self).wf(),
    {
        if self.staged_value.is_some() {
            self.assign_value(context);
        }
    }

    /// Whether a staged resource currently exists.
    pub fn has_staged_value(&self) -> (r: bool)
        ensures
            r == (self.staged_value is Some),
    {
        self.staged_value.is_some()
    }

    /// Terminal operation: enables the destination slot and any staged
    /// resource against the live context, so their teardown runs with the
    /// context available, then releases them.  The only path by which an
    /// `EffectParam` is destroyed.
    pub fn enable_and_drop(self, graphics_context: &GraphicsContext)
        requires
            self.wf(),
            graphics_context.device == self.param.spec_device(),
    {
        let EffectParam { param, prepared_value: _, staged_value } = self;
        param.enable(graphics_context);
        if let Some(staged) = staged_value {
            staged.enable(graphics_context);
        }
    }
}

/// Staging idempotence: a second staging pass with no intervening
/// preparation leaves the state exactly as the first left it.
pub proof fn lemma_stage_value_idempotent<T: EffectParamType>(p: EffectParam<T>, device: u64)
    ensures
        p.spec_stage(device).spec_stage(device) == p.spec_stage(device),
{
}

/// Staged values are sticky: after one preparation and one staging pass the
/// staged resource holds the converted value, and an assignment pass neither
/// consumes nor alters it (nor the pending slot), so assignment succeeds
/// repeatedly across frames with the same staged resource.
pub proof fn lemma_staged_value_sticky<T: EffectParamType>(
    p: EffectParam<T>,
    v: T::PreparedValueType,
    device: u64,
)
    ensures
        p.spec_prepare(v).spec_stage(device).staged_value == Some(
            spec_disabled_resource(T::spec_convert(v), device),
        ),
        p.spec_prepare(v).spec_stage(device).spec_assign().staged_value == p.spec_prepare(
            v,
        ).spec_stage(device).staged_value,
{
    lemma_assign_preserves_staged(p.spec_prepare(v).spec_stage(device));
}

/// An assignment pass changes only the destination slot: the staged and
/// pending values are exactly what they were.
pub proof fn lemma_assign_preserves_staged<T: EffectParamType>(p: EffectParam<T>)
    ensures
        p.spec_assign().staged_value == p.staged_value,
        p.spec_assign().prepared_value == p.prepared_value,
{
}

} // verus!
