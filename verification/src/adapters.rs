//! Custom parameter adapters: one per exposed shader input kind.
//!
//! Each adapter binds a user-facing configuration property to an effect
//! parameter staging engine.  On construction it reads the default the shader
//! declares (falling back to a hard-coded default), loads the property's
//! current value, and immediately prepares it; a settings reload re-reads and
//! re-prepares.  The FFT adapter additionally derives the audio worker's
//! request descriptor from its properties and keeps a double buffer of the
//! newest and the preceding spectrum texture.

use vstd::prelude::*;
use crate::graphics::{
    GraphicsContext, FilterContext, GraphicsContextDependentEnabled, ShaderParamHandle,
};
use crate::effect_param::{
    EffectParam, EffectParamType, EffectParamTypeClone, EffectParamTypeTexture, EffectParamBool,
    EffectParamInt, EffectParamFloat, EffectParamVec4, EffectParamTexture, TextureDescriptor,
    ColorFormatKind, spec_mip_dim, spec_bytes_per_pixel,
};
use crate::properties::{
    Properties, PropertyEntry, PropertySpecialization, PropertyDescriptorSpecializationBool,
    PropertyDescriptorSpecializationI32, PropertyDescriptorSpecializationF64,
    PropertyDescriptorSpecializationColor, LoadedValueTypeProperty,
};
use crate::tex_levels::{TextureLevels, levels_seq};
use crate::ieee_bits::{
    div_bits64, single_of_double, double_of_single, double_div, single_from_double,
    double_from_single,
};

verus! {

/// Bit pattern of the double-precision number zero.
pub const DOUBLE_ZERO_BITS: u64 = 0x0000_0000_0000_0000;

/// Bit pattern of the double-precision number one hundred.
pub const DOUBLE_HUNDRED_BITS: u64 = 0x4059_0000_0000_0000;

/// Bit pattern of the double-precision number one hundredth.
pub const DOUBLE_HUNDREDTH_BITS: u64 = 0x3f84_7ae1_47ae_147b;

/// Bit pattern of the double-precision number one tenth.
pub const DOUBLE_TENTH_BITS: u64 = 0x3fb9_9999_9999_999a;

/// Bit pattern of the double-precision number one.
pub const DOUBLE_ONE_BITS: u64 = 0x3ff0_0000_0000_0000;

/// Bit pattern of the double-precision number ten thousand.
pub const DOUBLE_TEN_THOUSAND_BITS: u64 = 0x40c3_8800_0000_0000;

/// Bit pattern of the double-precision number twenty thousand.
pub const DOUBLE_TWENTY_THOUSAND_BITS: u64 = 0x40d3_8800_0000_0000;

/// Bit pattern of the most negative finite double-precision number.
pub const DOUBLE_LOWEST_BITS: u64 = 0xffef_ffff_ffff_ffff;

/// Bit pattern of the largest finite double-precision number.
pub const DOUBLE_LARGEST_BITS: u64 = 0x7fef_ffff_ffff_ffff;

/// The number of audio mixes the host exposes.
pub const MAX_AUDIO_MIXES: usize = 6;

/// The highest selectable channel index.  A host-compatibility cap, not a
/// domain invariant: the host library crashes when offered its full channel
/// count, so the range is held at two until that is fixed upstream.
pub const MAX_AUDIO_CHANNELS_CAP: i32 = 2;

/// A helper interface so most custom effect params follow the same
/// structure: one configuration property bound to one staging engine.  Not
/// all custom effect params implement this interface.
pub trait EffectParamCustom: Sized {
    type ParamType: EffectParamType;

    type PropertyDescriptorSpecialization: PropertySpecialization;

    /// The staging engine the adapter owns.
    spec fn spec_effect_param(self) -> EffectParam<Self::ParamType>;

    /// The configuration property the adapter binds.
    spec fn spec_property(self) -> LoadedValueTypeProperty<Self::PropertyDescriptorSpecialization>;

    /// The adapter with its engine replaced and everything else kept.
    spec fn spec_with_effect_param(self, ep: EffectParam<Self::ParamType>) -> Self;

    /// The descriptor specialization the adapter registers.
    spec fn spec_specialization() -> Self::PropertyDescriptorSpecialization;

    /// The property default derived from the shader's declared default.
    spec fn spec_default_value(
        shader_default: Option<<Self::ParamType as EffectParamType>::RustType>,
    ) -> <Self::PropertyDescriptorSpecialization as PropertySpecialization>::Value;

    /// The prepared value a property value converts to.
    spec fn spec_prepared_of(
        v: <Self::PropertyDescriptorSpecialization as PropertySpecialization>::Value,
    ) -> <Self::ParamType as EffectParamType>::PreparedValueType;

    /// Adapter invariant.
    spec fn wf(self) -> bool;

    /// Build the adapter around an enabled parameter slot: construct the
    /// property with the shader-declared default (or the hard-coded
    /// fallback), read its current value, and prepare it.  An invalid
    /// property specialization fails construction as a whole.
    fn new(
        param: GraphicsContextDependentEnabled<
            ShaderParamHandle<<Self::ParamType as EffectParamType>::RustType>,
        >,
        current: Option<<Self::PropertyDescriptorSpecialization as PropertySpecialization>::Value>,
    ) -> (r: Result<Self, String>)
        requires
            param.spec_value().spec_device() == param.spec_device(),
        ensures
            (match r {
                Ok(a) => {
                    &&& a.wf()
                    &&& a.spec_effect_param().param.spec_value() == param.spec_value()
                    &&& a.spec_effect_param().param.spec_device() == param.spec_device()
                    &&& a.spec_property().specialization == Self::spec_specialization()
                    &&& a.spec_property().default_value == Self::spec_default_value(
                        param.spec_value().spec_default_value(),
                    )
                    &&& a.spec_property().value == (match current {
                        Some(c) => c,
                        None => Self::spec_default_value(param.spec_value().spec_default_value()),
                    })
                    &&& a.spec_effect_param().prepared_value == Some(
                        Self::spec_prepared_of(a.spec_property().value),
                    )
                    &&& a.spec_effect_param().staged_value is None
                },
                Err(_) => !Self::spec_specialization().spec_valid(),
            }),
    ;

    /// Register the adapter's property descriptor.
    fn add_properties(&self, properties: &mut Properties)
        ensures
            final(properties).entries@ == old(properties).entries@.push(
                self.spec_property().specialization.spec_entry(),
            ),
    ;

    /// Re-read the property and prepare its value anew.
    fn reload_settings(
        &mut self,
        current: Option<<Self::PropertyDescriptorSpecialization as PropertySpecialization>::Value>,
    )
        requires
            old(self).wf(),
        ensures
            final(self).wf(),
            final(self).spec_property().specialization == old(self).spec_property().specialization,
            final(self).spec_property().default_value == old(self).spec_property().default_value,
            final(self).spec_property().value == (match current {
                Some(c) => c,
                None => old(self).spec_property().default_value,
            }),
            final(self).spec_effect_param().param == old(self).spec_effect_param().param,
            final(self).spec_effect_param().staged_value == old(self).spec_effect_param().staged_value,
            final(self).spec_effect_param().prepared_value == Some(
                Self::spec_prepared_of(final(self).spec_property().value),
            ),
    ;

    /// Scalar adapters derive nothing per frame: their value changes only on
    /// a settings reload.
    fn prepare_values(&mut self)
        ensures
            *final(self) == *old(self),
    ;

    /// Run the engine's staging pass.
    fn stage_value(&mut self, graphics_context: &GraphicsContext)
        requires
            old(self).wf(),
            graphics_context.device == old(self).spec_effect_param().param.spec_device(),
        ensures
            final(self).wf(),
            *final(self) == old(self).spec_with_effect_param(
                old(self).spec_effect_param().spec_stage(graphics_context.device),
            ),
    ;

    /// Run the engine's assignment pass (the fatal variant: a staged value
    /// must exist).
    fn assign_value(&mut self, context: &FilterContext)
        requires
            old(self).wf(),
            old(self).spec_effect_param().staged_value is Some,
            context.device == old(self).spec_effect_param().param.spec_device(),
        ensures
            final(self).wf(),
            *final(self) == old(self).spec_with_effect_param(
                old(self).spec_effect_param().spec_assign(),
            ),
    ;

    /// Tear the adapter down with the context available.
    fn enable_and_drop(self, graphics_context: &GraphicsContext)
        requires
            self.wf(),
            graphics_context.device == self.spec_effect_param().param.spec_device(),
    ;
}

/// The boolean shader input adapter.
#[verifier::ext_equal]
pub struct EffectParamCustomBool {
    pub effect_param: EffectParamBool,
    pub property: LoadedValueTypeProperty<PropertyDescriptorSpecializationBool>,
}

impl EffectParamCustom for EffectParamCustomBool {
    type ParamType = EffectParamTypeClone<bool>;

    type PropertyDescriptorSpecialization = PropertyDescriptorSpecializationBool;

    open spec fn spec_effect_param(self) -> EffectParamBool {
        self.effect_param
    }

    open spec fn spec_property(self) -> LoadedValueTypeProperty<PropertyDescriptorSpecializationBool> {
        self.property
    }

    open spec fn spec_with_effect_param(self, ep: EffectParamBool) -> Self {
        EffectParamCustomBool { effect_param: ep, ..self }
    }

    open spec fn spec_specialization() -> PropertyDescriptorSpecializationBool {
        PropertyDescriptorSpecializationBool {}
    }

    open spec fn spec_default_value(shader_default: Option<bool>) -> bool {
        match shader_default {
            Some(b) => b,
            None => false,
        }
    }

    open spec fn spec_prepared_of(v: bool) -> bool {
        v
    }

    open spec fn wf(self) -> bool {
        self.effect_param.wf()
    }

    fn new(
        param: GraphicsContextDependentEnabled<ShaderParamHandle<bool>>,
        current: Option<bool>,
    ) -> (r: Result<Self, String>) {
        let shader_default: Option<bool> = *param.get().get_param_value_default();
        let default_value = match shader_default {
            Some(b) => b,
            None => false,
        };
        let property = LoadedValueTypeProperty::from_args(
            true,
            default_value,
            PropertyDescriptorSpecializationBool {},
            current,
        )?;
        let mut effect_param = EffectParam::new(param.disable());
        effect_param.prepare_value(property.get_value());
        Ok(EffectParamCustomBool { effect_param, property })
    }

    fn add_properties(&self, properties: &mut Properties) {
        self.property.add_properties(properties);
    }

    fn reload_settings(&mut self, current: Option<bool>) {
        self.property.reload_settings(current);
        self.effect_param.prepare_value(self.property.get_value());
    }

    fn prepare_values(&mut self) {
    }

    fn stage_value(&mut self, graphics_context: &GraphicsContext) {
        self.effect_param.stage_value(graphics_context);
        proof {
            assert(*self =~= old(self).spec_with_effect_param(
                old(self).spec_effect_param().spec_stage(graphics_context.device),
            ));
        }
    }

    fn assign_value(&mut self, context: &FilterContext) {
        self.effect_param.assign_value(context);
        proof {
            assert(*self =~= old(self).spec_with_effect_param(
                old(self).spec_effect_param().spec_assign(),
            ));
        }
    }

    fn enable_and_drop(self, graphics_context: &GraphicsContext) {
        let EffectParamCustomBool { effect_param, property: _ } = self;
        effect_param.enable_and_drop(graphics_context);
    }
}

/// The integer shader input adapter.
#[verifier::ext_equal]
pub struct EffectParamCustomInt {
    pub effect_param: EffectParamInt,
    pub property: LoadedValueTypeProperty<PropertyDescriptorSpecializationI32>,
}

impl EffectParamCustom for EffectParamCustomInt {
    type ParamType = EffectParamTypeClone<i32>;

    type PropertyDescriptorSpecialization = PropertyDescriptorSpecializationI32;

    open spec fn spec_effect_param(self) -> EffectParamInt {
        self.effect_param
    }

    open spec fn spec_property(self) -> LoadedValueTypeProperty<PropertyDescriptorSpecializationI32> {
        self.property
    }

    open spec fn spec_with_effect_param(self, ep: EffectParamInt) -> Self {
        EffectParamCustomInt { effect_param: ep, ..self }
    }

    open spec fn spec_specialization() -> PropertyDescriptorSpecializationI32 {
        PropertyDescriptorSpecializationI32 { min: i32::MIN, max: i32::MAX, step: 1, slider: false }
    }

    open spec fn spec_default_value(shader_default: Option<i32>) -> i32 {
        match shader_default {
            Some(v) => v,
            None => 0,
        }
    }

    open spec fn spec_prepared_of(v: i32) -> i32 {
        v
    }

    open spec fn wf(self) -> bool {
        self.effect_param.wf()
    }

    fn new(
        param: GraphicsContextDependentEnabled<ShaderParamHandle<i32>>,
        current: Option<i32>,
    ) -> (r: Result<Self, String>) {
        let shader_default: Option<i32> = *param.get().get_param_value_default();
        let default_value = match shader_default {
            Some(v) => v,
            None => 0,
        };
        let property = LoadedValueTypeProperty::from_args(
            true,
            default_value,
            PropertyDescriptorSpecializationI32 { min: i32::MIN, max: i32::MAX, step: 1, slider: false },
            current,
        )?;
        let mut effect_param = EffectParam::new(param.disable());
        effect_param.prepare_value(property.get_value());
        Ok(EffectParamCustomInt { effect_param, property })
    }

    fn add_properties(&self, properties: &mut Properties) {
        self.property.add_properties(properties);
    }

    fn reload_settings(&mut self, current: Option<i32>) {
        self.property.reload_settings(current);
        self.effect_param.prepare_value(self.property.get_value());
    }

    fn prepare_values(&mut self) {
    }

    fn stage_value(&mut self, graphics_context: &GraphicsContext) {
        self.effect_param.stage_value(graphics_context);
        proof {
            assert(*self =~= old(self).spec_with_effect_param(
                old(self).spec_effect_param().spec_stage(graphics_context.device),
            ));
        }
    }

    fn assign_value(&mut self, context: &FilterContext) {
        self.effect_param.assign_value(context);
        proof {
            assert(*self =~= old(self).spec_with_effect_param(
                old(self).spec_effect_param().spec_assign(),
            ));
        }
    }

    fn enable_and_drop(self, graphics_context: &GraphicsContext) {
        let EffectParamCustomInt { effect_param, property: _ } = self;
        effect_param.enable_and_drop(graphics_context);
    }
}

/// The floating-point shader input adapter: the property is double
/// precision, the shader parameter single precision.
#[verifier::ext_equal]
pub struct EffectParamCustomFloat {
    pub effect_param: EffectParamFloat,
    pub property: LoadedValueTypeProperty<PropertyDescriptorSpecializationF64>,
}

impl EffectParamCustom for EffectParamCustomFloat {
    type ParamType = EffectParamTypeClone<u32>;

    type PropertyDescriptorSpecialization = PropertyDescriptorSpecializationF64;

    open spec fn spec_effect_param(self) -> EffectParamFloat {
        self.effect_param
    }

    open spec fn spec_property(self) -> LoadedValueTypeProperty<PropertyDescriptorSpecializationF64> {
        self.property
    }

    open spec fn spec_with_effect_param(self, ep: EffectParamFloat) -> Self {
        EffectParamCustomFloat { effect_param: ep, ..self }
    }

    open spec fn spec_specialization() -> PropertyDescriptorSpecializationF64 {
        PropertyDescriptorSpecializationF64 {
            min: DOUBLE_LOWEST_BITS,
            max: DOUBLE_LARGEST_BITS,
            step: DOUBLE_TENTH_BITS,
            slider: false,
        }
    }

    open spec fn spec_default_value(shader_default: Option<u32>) -> u64 {
        double_of_single(
            match shader_default {
                Some(v) => v,
                None => 0u32,
            },
        )
    }

    open spec fn spec_prepared_of(v: u64) -> u32 {
        single_of_double(v)
    }

    open spec fn wf(self) -> bool {
        self.effect_param.wf()
    }

    fn new(
        param: GraphicsContextDependentEnabled<ShaderParamHandle<u32>>,
        current: Option<u64>,
    ) -> (r: Result<Self, String>) {
        let shader_default: Option<u32> = *param.get().get_param_value_default();
        let default_single: u32 = match shader_default {
            Some(v) => v,
            None => 0u32,
        };
        let default_value: u64 = double_from_single(default_single);
        let property = LoadedValueTypeProperty::from_args(
            true,
            default_value,
            PropertyDescriptorSpecializationF64 {
                min: DOUBLE_LOWEST_BITS,
                max: DOUBLE_LARGEST_BITS,
                step: DOUBLE_TENTH_BITS,
                slider: false,
            },
            current,
        )?;
        let mut effect_param = EffectParam::new(param.disable());
        effect_param.prepare_value(single_from_double(property.get_value()));
        Ok(EffectParamCustomFloat { effect_param, property })
    }

    fn add_properties(&self, properties: &mut Properties) {
        self.property.add_properties(properties);
    }

    fn reload_settings(&mut self, current: Option<u64>) {
        self.property.reload_settings(current);
        self.effect_param.prepare_value(single_from_double(self.property.get_value()));
    }

    fn prepare_values(&mut self) {
    }

    fn stage_value(&mut self, graphics_context: &GraphicsContext) {
        self.effect_param.stage_value(graphics_context);
        proof {
            assert(*self =~= old(self).spec_with_effect_param(
                old(self).spec_effect_param().spec_stage(graphics_context.device),
            ));
        }
    }

    fn assign_value(&mut self, context: &FilterContext) {
        self.effect_param.assign_value(context);
        proof {
            assert(*self =~= old(self).spec_with_effect_param(
                old(self).spec_effect_param().spec_assign(),
            ));
        }
    }

    fn enable_and_drop(self, graphics_context: &GraphicsContext) {
        let EffectParamCustomFloat { effect_param, property: _ } = self;
        effect_param.enable_and_drop(graphics_context);
    }
}

/// The color shader input adapter: a four-component vector of
/// single-precision patterns.
#[verifier::ext_equal]
pub struct EffectParamCustomColor {
    pub effect_param: EffectParamVec4,
    pub property: LoadedValueTypeProperty<PropertyDescriptorSpecializationColor>,
}

impl EffectParamCustom for EffectParamCustomColor {
    type ParamType = EffectParamTypeClone<[u32; 4]>;

    type PropertyDescriptorSpecialization = PropertyDescriptorSpecializationColor;

    open spec fn spec_effect_param(self) -> EffectParamVec4 {
        self.effect_param
    }

    open spec fn spec_property(self) -> LoadedValueTypeProperty<PropertyDescriptorSpecializationColor> {
        self.property
    }

    open spec fn spec_with_effect_param(self, ep: EffectParamVec4) -> Self {
        EffectParamCustomColor { effect_param: ep, ..self }
    }

    open spec fn spec_specialization() -> PropertyDescriptorSpecializationColor {
        PropertyDescriptorSpecializationColor {}
    }

    open spec fn spec_default_value(shader_default: Option<[u32; 4]>) -> [u32; 4] {
        match shader_default {
            Some(c) => c,
            None => [0u32, 0u32, 0u32, 0u32],
        }
    }

    open spec fn spec_prepared_of(v: [u32; 4]) -> [u32; 4] {
        v
    }

    open spec fn wf(self) -> bool {
        self.effect_param.wf()
    }

    fn new(
        param: GraphicsContextDependentEnabled<ShaderParamHandle<[u32; 4]>>,
        current: Option<[u32; 4]>,
    ) -> (r: Result<Self, String>) {
        let shader_default: Option<[u32; 4]> = *param.get().get_param_value_default();
        let default_value = match shader_default {
            Some(c) => c,
            None => [0u32, 0u32, 0u32, 0u32],
        };
        let property = LoadedValueTypeProperty::from_args(
            true,
            default_value,
            PropertyDescriptorSpecializationColor {},
            current,
        )?;
        let mut effect_param = EffectParam::new(param.disable());
        effect_param.prepare_value(property.get_value());
        Ok(EffectParamCustomColor { effect_param, property })
    }

    fn add_properties(&self, properties: &mut Properties) {
        self.property.add_properties(properties);
    }

    fn reload_settings(&mut self, current: Option<[u32; 4]>) {
        self.property.reload_settings(current);
        self.effect_param.prepare_value(self.property.get_value());
    }

    fn prepare_values(&mut self) {
    }

    fn stage_value(&mut self, graphics_context: &GraphicsContext) {
        self.effect_param.stage_value(graphics_context);
        proof {
            assert(*self =~= old(self).spec_with_effect_param(
                old(self).spec_effect_param().spec_stage(graphics_context.device),
            ));
        }
    }

    fn assign_value(&mut self, context: &FilterContext) {
        self.effect_param.assign_value(context);
        proof {
            assert(*self =~= old(self).spec_with_effect_param(
                old(self).spec_effect_param().spec_assign(),
            ));
        }
    }

    fn enable_and_drop(self, graphics_context: &GraphicsContext) {
        let EffectParamCustomColor { effect_param, property: _ } = self;
        effect_param.enable_and_drop(graphics_context);
    }
}

/// The window applied by the audio worker before its FFT.
#[derive(Clone, Copy, PartialEq, Eq, Structural, Debug)]
pub enum WindowFunction {
    Hanning,
}

/// The request descriptor handed to the audio/FFT worker: mix and channel as
/// zero-based indices, attack and release smoothing factors as
/// double-precision patterns in the unit interval, the window function, and
/// the Mel configuration (band count and frequency range, the range as
/// single-precision patterns).
#[derive(Clone, Copy, PartialEq, Eq, Structural, Debug)]
pub struct AudioFftDescriptor {
    pub mix: usize,
    pub channel: usize,
    pub dampening_factor_attack: u64,
    pub dampening_factor_release: u64,
    pub window_function: WindowFunction,
    pub mel_enabled: bool,
    pub n_mels: usize,
    pub f_min: u32,
    pub f_max: u32,
}

/// One result retrieved from the audio/FFT worker: the linear magnitude
/// spectrum and, when Mel analysis was requested, the Mel spectrum, both as
/// single-precision patterns.
pub struct AudioFftResult {
    pub frequency_spectrum: Vec<u32>,
    pub mel_spectrum: Option<Vec<u32>>,
}

/// The current stored settings of the FFT adapter's eight properties, absent
/// where the settings hold no value.
#[derive(Clone, Copy)]
pub struct FftSettings {
    pub mix: Option<i32>,
    pub channel: Option<i32>,
    pub dampening_factor_attack: Option<u64>,
    pub dampening_factor_release: Option<u64>,
    pub mel_enabled: Option<bool>,
    pub n_mels: Option<i32>,
    pub f_min: Option<u64>,
    pub f_max: Option<u64>,
}

impl FftSettings {
    /// The configuration system keeps each stored value within its
    /// descriptor's range.
    pub open spec fn wf(self) -> bool {
        &&& match self.mix {
            Some(m) => 1 <= m <= MAX_AUDIO_MIXES as i32,
            None => true,
        }
        &&& match self.channel {
            Some(c) => 1 <= c <= MAX_AUDIO_CHANNELS_CAP,
            None => true,
        }
        &&& match self.n_mels {
            Some(n) => 1 <= n <= 1024,
            None => true,
        }
    }

    /// Settings with no stored value: every property reads its default.
    pub fn empty() -> (r: FftSettings)
        ensures
            r.wf(),
            r.mix is None,
            r.channel is None,
            r.dampening_factor_attack is None,
            r.dampening_factor_release is None,
            r.mel_enabled is None,
            r.n_mels is None,
            r.f_min is None,
            r.f_max is None,
    {
        FftSettings {
            mix: None,
            channel: None,
            dampening_factor_attack: None,
            dampening_factor_release: None,
            mel_enabled: None,
            n_mels: None,
            f_min: None,
            f_max: None,
        }
    }
}

/// The four bytes of a 32-bit pattern in little-endian order.
pub open spec fn spec_le_bytes(x: u32) -> Seq<u8> {
    seq![
        (x & 0xffu32) as u8,
        ((x >> 8u32) & 0xffu32) as u8,
        ((x >> 16u32) & 0xffu32) as u8,
        ((x >> 24u32) & 0xffu32) as u8,
    ]
}

/// A spectrum serialized for texture upload: each 32-bit sample written in
/// little-endian byte order, in sample order.
pub open spec fn spec_spectrum_bytes(s: Seq<u32>) -> Seq<u8>
    decreases s.len(),
{
    if s.len() == 0 {
        Seq::<u8>::empty()
    } else {
        spec_spectrum_bytes(s.drop_last()) + spec_le_bytes(s.last())
    }
}

pub proof fn lemma_spectrum_bytes_len(s: Seq<u32>)
    ensures
        spec_spectrum_bytes(s).len() == 4 * s.len(),
    decreases s.len(),
{
    if s.len() > 0 {
        lemma_spectrum_bytes_len(s.drop_last());
    }
}

/// Serialize a spectrum into texture bytes, little-endian.
pub fn spectrum_bytes(s: &Vec<u32>) -> (r: Vec<u8>)
    ensures
        r@ == spec_spectrum_bytes(s@),
        r@.len() == 4 * s@.len(),
{
    let mut out: Vec<u8> = Vec::new();
    let mut i: usize = 0;
    while i < s.len()
        invariant
            i <= s@.len(),
            out@ == spec_spectrum_bytes(s@.take(i as int)),
            out@.len() == 4 * i,
        decreases s@.len() - i,
    {
        let x: u32 = s[i];
        out.push((x & 0xffu32) as u8);
        out.push(((x >> 8u32) & 0xffu32) as u8);
        out.push(((x >> 16u32) & 0xffu32) as u8);
        out.push(((x >> 24u32) & 0xffu32) as u8);
        proof {
            let t = s@.take(i + 1);
            assert(t.drop_last() =~= s@.take(i as int));
            assert(t.last() == s@[i as int]);
            assert(out@ =~= spec_spectrum_bytes(s@.take(i as int)) + spec_le_bytes(s@[i as int]));
        }
        i = i + 1;
    }
    proof {
        assert(s@.take(s@.len() as int) =~= s@);
    }
    out
}

/// Whether a descriptor is the single-row spectrum texture of `s`: width the
/// sample count, height one, one 32-bit float channel, a single level
/// holding the samples little-endian, no flags.
pub open spec fn spec_is_spectrum_texture(d: TextureDescriptor, s: Seq<u32>) -> bool {
    &&& d.dimensions[0] == s.len()
    &&& d.dimensions[1] == 1
    &&& d.color_format == ColorFormatKind::R32F
    &&& d.flags == 0
    &&& levels_seq(d.levels) =~= seq![spec_spectrum_bytes(s)]
}

/// Build the single-row spectrum texture descriptor of a spectrum.
fn spectrum_texture(s: &Vec<u32>) -> (r: TextureDescriptor)
    ensures
        r.wf(),
        spec_is_spectrum_texture(r, s@),
{
    let data = spectrum_bytes(s);
    let d = TextureDescriptor {
        dimensions: [s.len(), 1],
        color_format: ColorFormatKind::R32F,
        levels: TextureLevels::single(data),
        flags: 0,
    };
    proof {
        assert forall|i: int| 0 <= i < levels_seq(d.levels).len() implies (#[trigger] levels_seq(
            d.levels,
        )[i]).len() == spec_mip_dim(d.dimensions[0] as int, i) * spec_mip_dim(
            d.dimensions[1] as int,
            i,
        ) * spec_bytes_per_pixel(d.color_format) by {
            assert(i == 0);
            assert(levels_seq(d.levels)[0].len() == 4 * s@.len());
            assert(spec_mip_dim(d.dimensions[0] as int, 0) == s@.len());
            assert(spec_mip_dim(d.dimensions[1] as int, 0) == 1);
        }
    }
    d
}

/// The spectrum a retrieved result contributes: the Mel spectrum when Mel
/// mode is on and the worker returned one, the linear magnitude spectrum
/// otherwise.
pub open spec fn spec_chosen_spectrum(mel_enabled: bool, result: AudioFftResult) -> Seq<u32> {
    if mel_enabled && result.mel_spectrum is Some {
        result.mel_spectrum->0@
    } else {
        result.frequency_spectrum@
    }
}

/// The descriptor derived from the eight property values: one-based indices
/// made zero-based, percentages scaled to the unit interval, frequency
/// bounds narrowed to single precision, always a Hanning window.
pub open spec fn spec_audio_fft_descriptor(
    mix: i32,
    channel: i32,
    attack: u64,
    release: u64,
    mel_enabled: bool,
    n_mels: i32,
    f_min: u64,
    f_max: u64,
) -> AudioFftDescriptor {
    AudioFftDescriptor {
        mix: (mix - 1) as usize,
        channel: (channel - 1) as usize,
        dampening_factor_attack: div_bits64(attack, DOUBLE_HUNDRED_BITS),
        dampening_factor_release: div_bits64(release, DOUBLE_HUNDRED_BITS),
        window_function: WindowFunction::Hanning,
        mel_enabled: mel_enabled,
        n_mels: n_mels as usize,
        f_min: single_of_double(f_min),
        f_max: single_of_double(f_max),
    }
}

/// The FFT/Mel texture adapter: eight configuration properties, the current
/// spectrum texture slot, an optional previous-spectrum slot for temporal
/// shader effects, and the request descriptor under which the audio worker
/// is polled.  Does not implement `EffectParamCustom` because of different
/// argument requirements.
#[verifier::ext_equal]
pub struct EffectParamCustomFFT {
    pub effect_param: EffectParamTexture,
    pub effect_param_previous: Option<EffectParamTexture>,
    pub audio_fft: Option<AudioFftDescriptor>,
    pub property_mix: LoadedValueTypeProperty<PropertyDescriptorSpecializationI32>,
    pub property_channel: LoadedValueTypeProperty<PropertyDescriptorSpecializationI32>,
    pub property_dampening_factor_attack: LoadedValueTypeProperty<PropertyDescriptorSpecializationF64>,
    pub property_dampening_factor_release: LoadedValueTypeProperty<PropertyDescriptorSpecializationF64>,
    pub property_mel_enabled: LoadedValueTypeProperty<PropertyDescriptorSpecializationBool>,
    pub property_n_mels: LoadedValueTypeProperty<PropertyDescriptorSpecializationI32>,
    pub property_f_min: LoadedValueTypeProperty<PropertyDescriptorSpecializationF64>,
    pub property_f_max: LoadedValueTypeProperty<PropertyDescriptorSpecializationF64>,
}

impl EffectParamCustomFFT {
    /// Adapter invariant: both texture slots are well-formed engines on one
    /// device, and the index-like property values sit inside their
    /// descriptor ranges.
    pub open spec fn wf(self) -> bool {
        &&& self.effect_param.wf()
        &&& match self.effect_param_previous {
            Some(p) => p.wf() && p.param.spec_device() == self.effect_param.param.spec_device(),
            None => true,
        }
        &&& 1 <= self.property_mix.value <= MAX_AUDIO_MIXES as i32
        &&& 1 <= self.property_channel.value <= MAX_AUDIO_CHANNELS_CAP
        &&& 1 <= self.property_n_mels.value <= 1024
        &&& 1 <= self.property_mix.default_value <= MAX_AUDIO_MIXES as i32
        &&& 1 <= self.property_channel.default_value <= MAX_AUDIO_CHANNELS_CAP
        &&& 1 <= self.property_n_mels.default_value <= 1024
    }

    /// The adapter with its current-spectrum engine replaced.
    pub open spec fn spec_with_current(self, ep: EffectParamTexture) -> Self {
        EffectParamCustomFFT { effect_param: ep, ..self }
    }

    /// The adapter after deriving its request descriptor from the current
    /// property values.
    pub open spec fn spec_with_request(self) -> Self {
        EffectParamCustomFFT {
            audio_fft: Some(
                spec_audio_fft_descriptor(
                    self.property_mix.value,
                    self.property_channel.value,
                    self.property_dampening_factor_attack.value,
                    self.property_dampening_factor_release.value,
                    self.property_mel_enabled.value,
                    self.property_n_mels.value,
                    self.property_f_min.value,
                    self.property_f_max.value,
                ),
            ),
            ..self
        }
    }

    /// The adapter after a staging pass: if a previous-spectrum slot exists
    /// and a texture is staged in the current slot, that texture moves into
    /// the previous slot; then the current slot stages its pending value.
    pub open spec fn spec_stage(self, device: u64) -> Self {
        match self.effect_param_previous {
            Some(prev) => match self.effect_param.staged_value {
                Some(t) => (EffectParamCustomFFT {
                    effect_param: (EffectParam { staged_value: None, ..self.effect_param })
                        .spec_stage(device),
                    effect_param_previous: Some(prev.spec_stage_custom(t)),
                    ..self
                }),
                None => (EffectParamCustomFFT {
                    effect_param: self.effect_param.spec_stage(device),
                    ..self
                }),
            },
            None => (EffectParamCustomFFT {
                effect_param: self.effect_param.spec_stage(device),
                ..self
            }),
        }
    }

    /// The adapter after an assignment pass: both slots bind whatever they
    /// have staged; neither is consumed.
    pub open spec fn spec_assign(self) -> Self {
        EffectParamCustomFFT {
            effect_param: self.effect_param.spec_assign(),
            effect_param_previous: match self.effect_param_previous {
                Some(p) => Some(p.spec_assign()),
                None => None,
            },
            ..self
        }
    }

    /// Derive the request descriptor from the current property values and
    /// remember it as the descriptor under which the worker is polled.
    fn request_audio_fft(&mut self)
        requires
            old(self).wf(),
        ensures
            *final(self) == old(self).spec_with_request(),
            final(self).wf(),
    {
        let descriptor = AudioFftDescriptor {
            mix: (self.property_mix.get_value() - 1) as usize,
            channel: (self.property_channel.get_value() - 1) as usize,
            dampening_factor_attack: double_div(
                self.property_dampening_factor_attack.get_value(),
                DOUBLE_HUNDRED_BITS,
            ),
            dampening_factor_release: double_div(
                self.property_dampening_factor_release.get_value(),
                DOUBLE_HUNDRED_BITS,
            ),
            window_function: WindowFunction::Hanning,
            mel_enabled: self.property_mel_enabled.get_value(),
            n_mels: self.property_n_mels.get_value() as usize,
            f_min: single_from_double(self.property_f_min.get_value()),
            f_max: single_from_double(self.property_f_max.get_value()),
        };
        self.audio_fft = Some(descriptor);
        proof {
            assert(*self =~= old(self).spec_with_request());
        }
    }

    /// Build the adapter: construct the eight properties (an invalid
    /// specialization fails construction as a whole), wrap the parameter
    /// slots, and derive the initial request descriptor.
    pub fn new(
        param: GraphicsContextDependentEnabled<ShaderParamHandle<crate::effect_param::GpuTexture>>,
        param_previous: Option<
            GraphicsContextDependentEnabled<ShaderParamHandle<crate::effect_param::GpuTexture>>,
        >,
        settings: &FftSettings,
    ) -> (r: Result<Self, String>)
        requires
            param.spec_value().spec_device() == param.spec_device(),
            (match param_previous {
                Some(p) => p.spec_value().spec_device() == p.spec_device() && p.spec_device()
                    == param.spec_device(),
                None => true,
            }),
            settings.wf(),
        ensures
            (match r {
                Ok(a) => {
                    &&& a.wf()
                    &&& a.effect_param.param.spec_value() == param.spec_value()
                    &&& a.effect_param.param.spec_device() == param.spec_device()
                    &&& a.effect_param.prepared_value is Some
                    &&& EffectParamTypeTexture::spec_is_default(a.effect_param.prepared_value->0)
                    &&& a.effect_param.staged_value is None
                    &&& (match param_previous {
                        Some(p) => a.effect_param_previous is Some
                            && a.effect_param_previous->0.param.spec_value() == p.spec_value()
                            && a.effect_param_previous->0.param.spec_device() == p.spec_device()
                            && a.effect_param_previous->0.staged_value is None,
                        None => a.effect_param_previous is None,
                    })
                    &&& a.property_mix.value == (match settings.mix {
                        Some(v) => v,
                        None => 1,
                    })
                    &&& a.property_channel.value == (match settings.channel {
                        Some(v) => v,
                        None => 1,
                    })
                    &&& a.property_dampening_factor_attack.value == (match settings
                        .dampening_factor_attack {
                        Some(v) => v,
                        None => DOUBLE_ZERO_BITS,
                    })
                    &&& a.property_dampening_factor_release.value == (match settings
                        .dampening_factor_release {
                        Some(v) => v,
                        None => DOUBLE_ZERO_BITS,
                    })
                    &&& a.property_mel_enabled.value == (match settings.mel_enabled {
                        Some(v) => v,
                        None => false,
                    })
                    &&& a.property_n_mels.value == (match settings.n_mels {
                        Some(v) => v,
                        None => 128,
                    })
                    &&& a.property_f_min.value == (match settings.f_min {
                        Some(v) => v,
                        None => DOUBLE_ZERO_BITS,
                    })
                    &&& a.property_f_max.value == (match settings.f_max {
                        Some(v) => v,
                        None => DOUBLE_TEN_THOUSAND_BITS,
                    })
                    &&& a.audio_fft == Some(
                        spec_audio_fft_descriptor(
                            a.property_mix.value,
                            a.property_channel.value,
                            a.property_dampening_factor_attack.value,
                            a.property_dampening_factor_release.value,
                            a.property_mel_enabled.value,
                            a.property_n_mels.value,
                            a.property_f_min.value,
                            a.property_f_max.value,
                        ),
                    )
                },
                Err(_) => !((PropertyDescriptorSpecializationF64 {
                    min: DOUBLE_ZERO_BITS,
                    max: DOUBLE_HUNDRED_BITS,
                    step: DOUBLE_HUNDREDTH_BITS,
                    slider: true,
                }).spec_valid() && (PropertyDescriptorSpecializationF64 {
                    min: DOUBLE_ZERO_BITS,
                    max: DOUBLE_TEN_THOUSAND_BITS,
                    step: DOUBLE_ONE_BITS,
                    slider: false,
                }).spec_valid() && (PropertyDescriptorSpecializationF64 {
                    min: DOUBLE_ZERO_BITS,
                    max: DOUBLE_TWENTY_THOUSAND_BITS,
                    step: DOUBLE_ONE_BITS,
                    slider: false,
                }).spec_valid()),
            }),
    {
        let property_mix = LoadedValueTypeProperty::from_args(
            false,
            1,
            PropertyDescriptorSpecializationI32 {
                min: 1,
                max: MAX_AUDIO_MIXES as i32,
                step: 1,
                slider: false,
            },
            settings.mix,
        )?;
        let property_channel = LoadedValueTypeProperty::from_args(
            false,
            1,
            PropertyDescriptorSpecializationI32 {
                min: 1,
                max: MAX_AUDIO_CHANNELS_CAP,
                step: 1,
                slider: false,
            },
            settings.channel,
        )?;
        let property_dampening_factor_attack = LoadedValueTypeProperty::from_args(
            true,
            DOUBLE_ZERO_BITS,
            PropertyDescriptorSpecializationF64 {
                min: DOUBLE_ZERO_BITS,
                max: DOUBLE_HUNDRED_BITS,
                step: DOUBLE_HUNDREDTH_BITS,
                slider: true,
            },
            settings.dampening_factor_attack,
        )?;
        let property_dampening_factor_release = LoadedValueTypeProperty::from_args(
            true,
            DOUBLE_ZERO_BITS,
            PropertyDescriptorSpecializationF64 {
                min: DOUBLE_ZERO_BITS,
                max: DOUBLE_HUNDRED_BITS,
                step: DOUBLE_HUNDREDTH_BITS,
                slider: true,
            },
            settings.dampening_factor_release,
        )?;
        let property_mel_enabled = LoadedValueTypeProperty::from_args(
            true,
            false,
            PropertyDescriptorSpecializationBool {},
            settings.mel_enabled,
        )?;
        let property_n_mels = LoadedValueTypeProperty::from_args(
            true,
            128,
            PropertyDescriptorSpecializationI32 { min: 1, max: 1024, step: 1, slider: false },
            settings.n_mels,
        )?;
        let property_f_min = LoadedValueTypeProperty::from_args(
            true,
            DOUBLE_ZERO_BITS,
            PropertyDescriptorSpecializationF64 {
                min: DOUBLE_ZERO_BITS,
                max: DOUBLE_TEN_THOUSAND_BITS,
                step: DOUBLE_ONE_BITS,
                slider: false,
            },
            settings.f_min,
        )?;
        let property_f_max = LoadedValueTypeProperty::from_args(
            true,
            DOUBLE_TEN_THOUSAND_BITS,
            PropertyDescriptorSpecializationF64 {
                min: DOUBLE_ZERO_BITS,
                max: DOUBLE_TWENTY_THOUSAND_BITS,
                step: DOUBLE_ONE_BITS,
                slider: false,
            },
            settings.f_max,
        )?;

        let effect_param_previous = match param_previous {
            Some(p) => Some(EffectParam::new(p.disable())),
            None => None,
        };
        let mut result = EffectParamCustomFFT {
            effect_param: EffectParam::new(param.disable()),
            effect_param_previous,
            audio_fft: None,
            property_mix,
            property_channel,
            property_dampening_factor_attack,
            property_dampening_factor_release,
            property_mel_enabled,
            property_n_mels,
            property_f_min,
            property_f_max,
        };
        proof {
            assert(result.wf());
        }
        result.request_audio_fft();
        Ok(result)
    }

    /// Register the eight property descriptors, in order.
    pub fn add_properties(&self, properties: &mut Properties)
        ensures
            final(properties).entries@ == old(properties).entries@.push(
                self.property_mix.specialization.spec_entry(),
            ).push(self.property_channel.specialization.spec_entry()).push(
                self.property_dampening_factor_attack.specialization.spec_entry(),
            ).push(self.property_dampening_factor_release.specialization.spec_entry()).push(
                self.property_mel_enabled.specialization.spec_entry(),
            ).push(self.property_n_mels.specialization.spec_entry()).push(
                self.property_f_min.specialization.spec_entry(),
            ).push(self.property_f_max.specialization.spec_entry()),
    {
        self.property_mix.add_properties(properties);
        self.property_channel.add_properties(properties);
        self.property_dampening_factor_attack.add_properties(properties);
        self.property_dampening_factor_release.add_properties(properties);
        self.property_mel_enabled.add_properties(properties);
        self.property_n_mels.add_properties(properties);
        self.property_f_min.add_properties(properties);
        self.property_f_max.add_properties(properties);
    }

    /// Re-read the eight properties and derive the request descriptor anew.
    pub fn reload_settings(&mut self, settings: &FftSettings)
        requires
            old(self).wf(),
            settings.wf(),
        ensures
            final(self).wf(),
            final(self).effect_param == old(self).effect_param,
            final(self).effect_param_previous == old(self).effect_param_previous,
            final(self).property_mix.value == (match settings.mix {
                Some(v) => v,
                None => old(self).property_mix.default_value,
            }),
            final(self).property_channel.value == (match settings.channel {
                Some(v) => v,
                None => old(self).property_channel.default_value,
            }),
            final(self).property_dampening_factor_attack.value == (match settings
                .dampening_factor_attack {
                Some(v) => v,
                None => old(self).property_dampening_factor_attack.default_value,
            }),
            final(self).property_dampening_factor_release.value == (match settings
                .dampening_factor_release {
                Some(v) => v,
                None => old(self).property_dampening_factor_release.default_value,
            }),
            final(self).property_mel_enabled.value == (match settings.mel_enabled {
                Some(v) => v,
                None => old(self).property_mel_enabled.default_value,
            }),
            final(self).property_n_mels.value == (match settings.n_mels {
                Some(v) => v,
                None => old(self).property_n_mels.default_value,
            }),
            final(self).property_f_min.value == (match settings.f_min {
                Some(v) => v,
                None => old(self).property_f_min.default_value,
            }),
            final(self).property_f_max.value == (match settings.f_max {
                Some(v) => v,
                None => old(self).property_f_max.default_value,
            }),
            final(self).audio_fft == Some(
                spec_audio_fft_descriptor(
                    final(self).property_mix.value,
                    final(self).property_channel.value,
                    final(self).property_dampening_factor_attack.value,
                    final(self).property_dampening_factor_release.value,
                    final(self).property_mel_enabled.value,
                    final(self).property_n_mels.value,
                    final(self).property_f_min.value,
                    final(self).property_f_max.value,
                ),
            ),
    {
        self.property_mix.reload_settings(settings.mix);
        self.property_channel.reload_settings(settings.channel);
        self.property_dampening_factor_attack.reload_settings(settings.dampening_factor_attack);
        self.property_dampening_factor_release.reload_settings(settings.dampening_factor_release);
        self.property_mel_enabled.reload_settings(settings.mel_enabled);
        self.property_n_mels.reload_settings(settings.n_mels);
        self.property_f_min.reload_settings(settings.f_min);
        self.property_f_max.reload_settings(settings.f_max);
        self.request_audio_fft();
    }

    /// Take in the worker's newest result, if one arrived: build the
    /// single-row spectrum texture from the Mel spectrum when Mel mode is on
    /// and the worker returned one, from the linear spectrum otherwise, and
    /// prepare it.  With no new result nothing changes: the previously
    /// staged texture remains in effect.
    pub fn prepare_values(&mut self, fft_result: Option<AudioFftResult>)
        ensures
            (match fft_result {
                None => *final(self) == *old(self),
                Some(result) => {
                    &&& final(self).effect_param.prepared_value is Some
                    &&& spec_is_spectrum_texture(
                        final(self).effect_param.prepared_value->0,
                        spec_chosen_spectrum(old(self).property_mel_enabled.value, result),
                    )
                    &&& *final(self) == old(self).spec_with_current(
                        old(self).effect_param.spec_prepare(
                            final(self).effect_param.prepared_value->0,
                        ),
                    )
                },
            }),
            old(self).wf() ==> final(self).wf(),
    {
        let result = match fft_result {
            Some(result) => result,
            None => {
                return ;
            },
        };
        if self.property_mel_enabled.get_value() && result.mel_spectrum.is_some() {
            let mel_spectrum = result.mel_spectrum.unwrap();
            let texture_mel = spectrum_texture(&mel_spectrum);
            self.effect_param.prepare_value(texture_mel);
        } else {
            let texture_fft = spectrum_texture(&result.frequency_spectrum);
            self.effect_param.prepare_value(texture_fft);
        }
        proof {
            assert(*self =~= old(self).spec_with_current(
                old(self).effect_param.spec_prepare(self.effect_param.prepared_value->0),
            ));
        }
    }

    /// The staging pass with the double-buffer handoff: before the new
    /// texture is staged, whatever is staged in the current slot moves into
    /// the previous slot (if one exists).
    pub fn stage_value(&mut self, graphics_context: &GraphicsContext)
        requires
            old(self).wf(),
            graphics_context.device == old(self).effect_param.param.spec_device(),
        ensures
            *final(self) == old(self).spec_stage(graphics_context.device),
            final(self).wf(),
    {
        if let Some(effect_param_previous) = self.effect_param_previous.as_mut() {
            if let Some(previous_texture_fft) = self.effect_param.take_staged_value() {
                effect_param_previous.stage_value_custom(previous_texture_fft, graphics_context);
            }
        }
        self.effect_param.stage_value(graphics_context);
        proof {
            assert(*self =~= old(self).spec_stage(graphics_context.device));
        }
    }

    /// The assignment pass: bind the previous slot (if staged), then the
    /// current one, both with the non-fatal variant, since either may be
    /// empty on the very first frames.
    pub fn assign_value(&mut self, context: &FilterContext)
        requires
            old(self).wf(),
            context.device == old(self).effect_param.param.spec_device(),
        ensures
            *final(self) == old(self).spec_assign(),
            final(self).wf(),
    {
        if let Some(effect_param_previous) = self.effect_param_previous.as_mut() {
            effect_param_previous.assign_value_if_staged(context);
        }
        self.effect_param.assign_value_if_staged(context);
        proof {
            assert(*self =~= old(self).spec_assign());
        }
    }

    /// Tear both slots down with the context available.
    pub fn enable_and_drop(self, graphics_context: &GraphicsContext)
        requires
            self.wf(),
            graphics_context.device == self.effect_param.param.spec_device(),
    {
        let EffectParamCustomFFT { effect_param, effect_param_previous, .. } = self;
        if let Some(previous) = effect_param_previous {
            previous.enable_and_drop(graphics_context);
        }
        effect_param.enable_and_drop(graphics_context);
    }
}

/// Double-buffer law: across two staging passes, each preceded by the
/// preparation of a new spectrum texture, the previous-spectrum slot after
/// the second pass holds exactly the resource that was current after the
/// first.
pub proof fn lemma_fft_double_buffer(
    s: EffectParamCustomFFT,
    d1: TextureDescriptor,
    d2: TextureDescriptor,
    device: u64,
)
    requires
        s.effect_param_previous is Some,
    ensures
        ({
            let f1 = s.spec_with_current(s.effect_param.spec_prepare(d1)).spec_stage(device);
            let f2 = f1.spec_with_current(f1.effect_param.spec_prepare(d2)).spec_stage(device);
            f2.effect_param_previous->0.staged_value == f1.effect_param.staged_value
        }),
{
}

} // verus!
