use audio_shader_core::adapters::{
    AudioFftResult, EffectParamCustom, EffectParamCustomBool, EffectParamCustomColor,
    EffectParamCustomFFT, EffectParamCustomFloat, EffectParamCustomInt, FftSettings,
    WindowFunction,
};
use audio_shader_core::effect_param::{ColorFormatKind, EffectParam, EffectParamBool, TextureDescriptor};
use audio_shader_core::graphics::{FilterContext, GraphicsContext, ShaderParamHandle};
use audio_shader_core::properties::{
    LoadedValueTypeProperty, Properties, PropertyDescriptorSpecializationI32, PropertyEntry,
    ReloadButtonState,
};

fn graphics() -> GraphicsContext {
    GraphicsContext { device: 7 }
}

fn filter() -> FilterContext {
    FilterContext { device: 7 }
}

fn fresh_bool_param(default: Option<bool>) -> EffectParamBool {
    let ctx = graphics();
    let handle = ShaderParamHandle::new(default, &ctx);
    EffectParam::new(handle.disable())
}

#[test]
fn fresh_param_has_nothing_staged() {
    // The fatal assign demands a staged value; a fresh parameter has none,
    // so assigning right after construction is a contract violation.
    let ep = fresh_bool_param(None);
    assert!(!ep.has_staged_value());
}

#[test]
fn staging_is_idempotent() {
    let ctx = graphics();
    let mut ep = fresh_bool_param(None);
    ep.prepare_value(true);
    ep.stage_value(&ctx);
    assert!(ep.has_staged_value());
    // No intervening preparation: the second pass must be a no-op.
    ep.stage_value(&ctx);
    assert!(ep.has_staged_value());
    let staged = ep.take_staged_value().unwrap();
    assert_eq!(*staged.enable(&ctx).get(), true);
    // The pending value was consumed by the first pass: staging again
    // produces nothing new.
    ep.stage_value(&ctx);
    assert!(!ep.has_staged_value());
}

#[test]
fn staged_value_is_sticky_across_assignments() {
    let ctx = graphics();
    let fctx = filter();
    let mut ep = fresh_bool_param(None);
    ep.prepare_value(true);
    ep.stage_value(&ctx);
    for _ in 0..5 {
        ep.assign_value_if_staged(&fctx);
        assert!(ep.has_staged_value());
    }
    let staged = ep.take_staged_value().unwrap();
    assert_eq!(*staged.enable(&ctx).get(), true);
}

#[test]
fn take_staged_value_empties_the_slot() {
    let ctx = graphics();
    let mut ep = fresh_bool_param(None);
    ep.prepare_value(false);
    ep.stage_value(&ctx);
    assert!(ep.take_staged_value().is_some());
    assert!(!ep.has_staged_value());
    assert!(ep.take_staged_value().is_none());
}

#[test]
fn new_param_stages_the_kind_default() {
    let ctx = graphics();
    let mut ep = fresh_bool_param(None);
    // Construction prepares the kind's default, so the first staging pass
    // always has a value.
    ep.stage_value(&ctx);
    let staged = ep.take_staged_value().unwrap();
    assert_eq!(*staged.enable(&ctx).get(), false);
}

#[test]
fn default_texture_descriptor_is_one_pixel() {
    let d = TextureDescriptor::default();
    assert_eq!(d.dimensions, [1, 1]);
    assert_eq!(d.color_format, ColorFormatKind::RGBA);
    assert_eq!(d.flags, 0);
    assert_eq!(d.level_count(), 1);
    assert_eq!(d.level_bytes(0), &vec![0u8, 0, 0, 0]);
}

#[test]
fn bool_adapter_falls_back_to_shader_default() {
    let ctx = graphics();
    let handle = ShaderParamHandle::new(Some(true), &ctx);
    let adapter = EffectParamCustomBool::new(handle, None).unwrap();
    assert_eq!(adapter.property.get_value(), true);
}

#[test]
fn bool_adapter_prefers_stored_setting() {
    let ctx = graphics();
    let handle = ShaderParamHandle::new(Some(true), &ctx);
    let mut adapter = EffectParamCustomBool::new(handle, Some(false)).unwrap();
    assert_eq!(adapter.property.get_value(), false);
    adapter.reload_settings(Some(true));
    assert_eq!(adapter.property.get_value(), true);
}

#[test]
fn int_adapter_stages_its_value() {
    let ctx = graphics();
    let fctx = filter();
    let handle = ShaderParamHandle::new(None, &ctx);
    let mut adapter = EffectParamCustomInt::new(handle, Some(42)).unwrap();
    adapter.prepare_values();
    adapter.stage_value(&ctx);
    adapter.assign_value(&fctx);
    let staged = adapter.effect_param.take_staged_value().unwrap();
    assert_eq!(*staged.enable(&ctx).get(), 42);
}

#[test]
fn float_adapter_widens_shader_default() {
    let ctx = graphics();
    let handle = ShaderParamHandle::new(Some(1.5f32.to_bits()), &ctx);
    let adapter = EffectParamCustomFloat::new(handle, None).unwrap();
    assert_eq!(adapter.property.get_value(), 1.5f64.to_bits());
}

#[test]
fn float_adapter_narrows_double_to_single() {
    let ctx = graphics();
    let handle = ShaderParamHandle::new(None, &ctx);
    let mut adapter =
        EffectParamCustomFloat::new(handle, Some(2.5f64.to_bits())).unwrap();
    adapter.stage_value(&ctx);
    let staged = adapter.effect_param.take_staged_value().unwrap();
    assert_eq!(*staged.enable(&ctx).get(), 2.5f32.to_bits());
}

#[test]
fn invalid_integer_range_is_rejected() {
    let r = LoadedValueTypeProperty::from_args(
        true,
        0,
        PropertyDescriptorSpecializationI32 { min: 5, max: 1, step: 1, slider: false },
        None,
    );
    match r {
        Err(message) => assert!(!message.is_empty()),
        Ok(_) => panic!("an empty numeric range must be rejected"),
    }
}

#[test]
fn adapter_registers_its_descriptor() {
    let ctx = graphics();
    let handle = ShaderParamHandle::new(None, &ctx);
    let adapter = EffectParamCustomInt::new(handle, None).unwrap();
    let mut properties = Properties::new();
    adapter.add_properties(&mut properties);
    assert_eq!(properties.entries.len(), 1);
    assert!(matches!(properties.entries[0], PropertyEntry::I32(_)));
}

#[test]
fn fft_adapter_registers_eight_descriptors() {
    let ctx = graphics();
    let current = ShaderParamHandle::new(None, &ctx);
    let adapter = EffectParamCustomFFT::new(current, None, &FftSettings::empty()).unwrap();
    let mut properties = Properties::new();
    adapter.add_properties(&mut properties);
    assert_eq!(properties.entries.len(), 8);
}

#[test]
fn fft_descriptor_is_derived_from_properties() {
    let ctx = graphics();
    let current = ShaderParamHandle::new(None, &ctx);
    let mut settings = FftSettings::empty();
    settings.mix = Some(3);
    settings.channel = Some(2);
    settings.dampening_factor_attack = Some(50.0f64.to_bits());
    settings.dampening_factor_release = Some(10.0f64.to_bits());
    settings.mel_enabled = Some(true);
    settings.n_mels = Some(24);
    settings.f_min = Some(100.0f64.to_bits());
    settings.f_max = Some(8000.0f64.to_bits());
    let adapter = EffectParamCustomFFT::new(current, None, &settings).unwrap();
    let descriptor = adapter.audio_fft.unwrap();
    assert_eq!(descriptor.mix, 2);
    assert_eq!(descriptor.channel, 1);
    assert_eq!(descriptor.dampening_factor_attack, 0.5f64.to_bits());
    assert_eq!(descriptor.dampening_factor_release, 0.1f64.to_bits());
    assert_eq!(descriptor.window_function, WindowFunction::Hanning);
    assert!(descriptor.mel_enabled);
    assert_eq!(descriptor.n_mels, 24);
    assert_eq!(descriptor.f_min, 100.0f32.to_bits());
    assert_eq!(descriptor.f_max, 8000.0f32.to_bits());
}

fn spectrum_result(samples: &[f32]) -> AudioFftResult {
    AudioFftResult {
        frequency_spectrum: samples.iter().map(|x| x.to_bits()).collect(),
        mel_spectrum: None,
    }
}

fn le_bytes(samples: &[f32]) -> Vec<u8> {
    let mut out = Vec::new();
    for x in samples {
        out.extend_from_slice(&x.to_bits().to_le_bytes());
    }
    out
}

#[test]
fn fft_adapter_builds_spectrum_texture() {
    let ctx = graphics();
    let current = ShaderParamHandle::new(None, &ctx);
    let mut adapter = EffectParamCustomFFT::new(current, None, &FftSettings::empty()).unwrap();
    adapter.prepare_values(Some(spectrum_result(&[1.0, 2.0, 3.0])));
    adapter.stage_value(&ctx);
    let staged = adapter.effect_param.take_staged_value().unwrap();
    let texture = staged.enable(&ctx);
    let d = &texture.get().descriptor;
    assert_eq!(d.dimensions, [3, 1]);
    assert_eq!(d.color_format, ColorFormatKind::R32F);
    assert_eq!(d.flags, 0);
    assert_eq!(d.level_count(), 1);
    assert_eq!(d.level_bytes(0), &le_bytes(&[1.0, 2.0, 3.0]));
}

#[test]
fn fft_adapter_prefers_mel_spectrum_when_enabled() {
    let ctx = graphics();
    let current = ShaderParamHandle::new(None, &ctx);
    let mut settings = FftSettings::empty();
    settings.mel_enabled = Some(true);
    let mut adapter = EffectParamCustomFFT::new(current, None, &settings).unwrap();
    let result = AudioFftResult {
        frequency_spectrum: vec![1.0f32.to_bits(); 8],
        mel_spectrum: Some(vec![4.0f32.to_bits(), 5.0f32.to_bits()]),
    };
    adapter.prepare_values(Some(result));
    adapter.stage_value(&ctx);
    let staged = adapter.effect_param.take_staged_value().unwrap();
    let texture = staged.enable(&ctx);
    assert_eq!(texture.get().descriptor.dimensions, [2, 1]);
    assert_eq!(texture.get().descriptor.level_bytes(0), &le_bytes(&[4.0, 5.0]));
}

#[test]
fn fft_adapter_keeps_state_without_new_result() {
    let ctx = graphics();
    let current = ShaderParamHandle::new(None, &ctx);
    let mut adapter = EffectParamCustomFFT::new(current, None, &FftSettings::empty()).unwrap();
    adapter.prepare_values(Some(spectrum_result(&[1.0])));
    adapter.stage_value(&ctx);
    assert!(adapter.effect_param.has_staged_value());
    // No new data: nothing changes, the staged texture stays in effect.
    adapter.prepare_values(None);
    adapter.stage_value(&ctx);
    assert!(adapter.effect_param.has_staged_value());
}

#[test]
fn fft_double_buffer_hands_current_to_previous() {
    let ctx = graphics();
    let fctx = filter();
    let current = ShaderParamHandle::new(None, &ctx);
    let previous = ShaderParamHandle::new(None, &ctx);
    let mut adapter =
        EffectParamCustomFFT::new(current, Some(previous), &FftSettings::empty()).unwrap();

    // Frame 1: a new FFT result arrives and is staged.
    adapter.prepare_values(Some(spectrum_result(&[1.0, 2.0])));
    adapter.stage_value(&ctx);
    adapter.assign_value(&fctx);

    // Frame 2: another result arrives; staging moves frame 1's texture into
    // the previous slot.
    adapter.prepare_values(Some(spectrum_result(&[3.0, 4.0])));
    adapter.stage_value(&ctx);
    adapter.assign_value(&fctx);

    let previous_staged =
        adapter.effect_param_previous.as_mut().unwrap().take_staged_value().unwrap();
    let previous_texture = previous_staged.enable(&ctx);
    assert_eq!(previous_texture.get().descriptor.level_bytes(0), &le_bytes(&[1.0, 2.0]));

    let current_staged = adapter.effect_param.take_staged_value().unwrap();
    let current_texture = current_staged.enable(&ctx);
    assert_eq!(current_texture.get().descriptor.level_bytes(0), &le_bytes(&[3.0, 4.0]));
}

#[test]
fn fft_adapter_tears_down_cleanly() {
    let ctx = graphics();
    let current = ShaderParamHandle::new(None, &ctx);
    let previous = ShaderParamHandle::new(None, &ctx);
    let mut adapter =
        EffectParamCustomFFT::new(current, Some(previous), &FftSettings::empty()).unwrap();
    adapter.prepare_values(Some(spectrum_result(&[1.0])));
    adapter.stage_value(&ctx);
    adapter.enable_and_drop(&ctx);
}

#[test]
fn reload_button_reports_once() {
    let mut button = ReloadButtonState::new();
    assert!(!button.check_and_reset());
    button.request_reload();
    assert!(button.check_and_reset());
    assert!(!button.check_and_reset());
    match button.get_button_property() {
        PropertyEntry::Button(name) => assert_eq!(name, "Reload Shader"),
        _ => panic!("the reload button must register as a button"),
    }
}

#[test]
fn color_adapter_carries_four_components() {
    let ctx = graphics();
    let components =
        [0.1f32.to_bits(), 0.2f32.to_bits(), 0.3f32.to_bits(), 1.0f32.to_bits()];
    let handle = ShaderParamHandle::new(None, &ctx);
    let mut adapter = EffectParamCustomColor::new(handle, Some(components)).unwrap();
    adapter.stage_value(&ctx);
    let staged = adapter.effect_param.take_staged_value().unwrap();
    assert_eq!(*staged.enable(&ctx).get(), components);
    adapter.enable_and_drop(&ctx);
}

#[test]
fn fft_reload_rederives_the_descriptor() {
    let ctx = graphics();
    let current = ShaderParamHandle::new(None, &ctx);
    let mut adapter = EffectParamCustomFFT::new(current, None, &FftSettings::empty()).unwrap();
    assert_eq!(adapter.audio_fft.unwrap().mix, 0);
    let mut settings = FftSettings::empty();
    settings.mix = Some(4);
    adapter.reload_settings(&settings);
    assert_eq!(adapter.audio_fft.unwrap().mix, 3);
}

#[test]
fn scalar_adapter_entries_match_their_kinds() {
    let ctx = graphics();
    let mut properties = Properties::new();
    let bool_adapter =
        EffectParamCustomBool::new(ShaderParamHandle::new(None, &ctx), None).unwrap();
    bool_adapter.add_properties(&mut properties);
    let float_adapter =
        EffectParamCustomFloat::new(ShaderParamHandle::new(None, &ctx), None).unwrap();
    float_adapter.add_properties(&mut properties);
    assert!(matches!(properties.entries[0], PropertyEntry::Bool(_)));
    assert!(matches!(properties.entries[1], PropertyEntry::F64(_)));
}
