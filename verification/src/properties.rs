//! Model of the configuration/property system interface.
//!
//! The core registers property descriptors (kind, default, numeric range and
//! step, slider flag) for the settings UI and reads back current values; it
//! does not implement the UI widgets.  A descriptor whose specialization is
//! nonsensical (an empty numeric range) is rejected with a descriptive
//! message at construction time.  Double-precision bounds and values are
//! carried as 64-bit patterns (see `ieee_bits`).

use vstd::prelude::*;
use crate::ieee_bits::{lt_bits64, double_lt};

verus! {

/// A boolean (checkbox) property.
#[derive(Clone, Copy, PartialEq, Eq, Structural, Debug)]
pub struct PropertyDescriptorSpecializationBool {}

/// A 32-bit integer property with an inclusive range and step.
#[derive(Clone, Copy, PartialEq, Eq, Structural, Debug)]
pub struct PropertyDescriptorSpecializationI32 {
    pub min: i32,
    pub max: i32,
    pub step: i32,
    pub slider: bool,
}

/// A double-precision property with an inclusive range and step, all as
/// 64-bit patterns.
#[derive(Clone, Copy, PartialEq, Eq, Structural, Debug)]
pub struct PropertyDescriptorSpecializationF64 {
    pub min: u64,
    pub max: u64,
    pub step: u64,
    pub slider: bool,
}

/// A color picker property; its value is a four-component vector of
/// single-precision patterns.
#[derive(Clone, Copy, PartialEq, Eq, Structural, Debug)]
pub struct PropertyDescriptorSpecializationColor {}

/// One registered property descriptor, as handed to the settings UI.
pub enum PropertyEntry {
    Bool(PropertyDescriptorSpecializationBool),
    I32(PropertyDescriptorSpecializationI32),
    F64(PropertyDescriptorSpecializationF64),
    Color(PropertyDescriptorSpecializationColor),
    Button(String),
}

/// The ordered collection of property descriptors an effect registers.
pub struct Properties {
    pub entries: Vec<PropertyEntry>,
}

impl Properties {
    pub fn new() -> (r: Properties)
        ensures
            r.entries@ =~= Seq::<PropertyEntry>::empty(),
    {
        Properties { entries: Vec::new() }
    }

    pub fn push_entry(&mut self, entry: PropertyEntry)
        ensures
            final(self).entries@ == old(self).entries@.push(entry),
    {
        self.entries.push(entry);
    }
}

/// A property kind: its native value type, its validity, and the descriptor
/// entry it registers.
pub trait PropertySpecialization: Sized + Copy {
    type Value: Copy;

    /// Whether the specialization makes sense (a numeric range must not be
    /// empty).
    spec fn spec_valid(self) -> bool;

    /// The descriptor entry this specialization registers.
    spec fn spec_entry(self) -> PropertyEntry;

    fn is_valid(&self) -> (r: bool)
        ensures
            r == self.spec_valid(),
    ;

    fn entry(&self) -> (r: PropertyEntry)
        ensures
            r == self.spec_entry(),
    ;
}

impl PropertySpecialization for PropertyDescriptorSpecializationBool {
    type Value = bool;

    open spec fn spec_valid(self) -> bool {
        true
    }

    open spec fn spec_entry(self) -> PropertyEntry {
        PropertyEntry::Bool(self)
    }

    fn is_valid(&self) -> (r: bool) {
        true
    }

    fn entry(&self) -> (r: PropertyEntry) {
        PropertyEntry::Bool(*self)
    }
}

impl PropertySpecialization for PropertyDescriptorSpecializationI32 {
    type Value = i32;

    open spec fn spec_valid(self) -> bool {
        self.min <= self.max
    }

    open spec fn spec_entry(self) -> PropertyEntry {
        PropertyEntry::I32(self)
    }

    fn is_valid(&self) -> (r: bool) {
        self.min <= self.max
    }

    fn entry(&self) -> (r: PropertyEntry) {
        PropertyEntry::I32(*self)
    }
}

impl PropertySpecialization for PropertyDescriptorSpecializationF64 {
    type Value = u64;

    /// Valid unless the upper bound orders strictly below the lower bound.
    open spec fn spec_valid(self) -> bool {
        !lt_bits64(self.max, self.min)
    }

    open spec fn spec_entry(self) -> PropertyEntry {
        PropertyEntry::F64(self)
    }

    fn is_valid(&self) -> (r: bool) {
        !double_lt(self.max, self.min)
    }

    fn entry(&self) -> (r: PropertyEntry) {
        PropertyEntry::F64(*self)
    }
}

impl PropertySpecialization for PropertyDescriptorSpecializationColor {
    type Value = [u32; 4];

    open spec fn spec_valid(self) -> bool {
        true
    }

    open spec fn spec_entry(self) -> PropertyEntry {
        PropertyEntry::Color(self)
    }

    fn is_valid(&self) -> (r: bool) {
        true
    }

    fn entry(&self) -> (r: PropertyEntry) {
        PropertyEntry::Color(*self)
    }
}

/// A loaded property: its descriptor specialization, the default it falls
/// back to, and the current value read from the settings.
pub struct LoadedValueTypeProperty<S: PropertySpecialization> {
    pub allow_definitions_in_source: bool,
    pub specialization: S,
    pub default_value: S::Value,
    pub value: S::Value,
}

impl<S: PropertySpecialization> LoadedValueTypeProperty<S> {
    /// Load a property: the current settings value if one is stored, the
    /// default otherwise.  An invalid specialization is a configuration
    /// error and fails construction as a whole.
    pub fn from_args(
        allow_definitions_in_source: bool,
        default_value: S::Value,
        specialization: S,
        current: Option<S::Value>,
    ) -> (r: Result<Self, String>)
        ensures
            match r {
                Ok(p) => {
                    &&& specialization.spec_valid()
                    &&& p.allow_definitions_in_source == allow_definitions_in_source
                    &&& p.specialization == specialization
                    &&& p.default_value == default_value
                    &&& p.value == (match current {
                        Some(c) => c,
                        None => default_value,
                    })
                },
                Err(_) => !specialization.spec_valid(),
            },
    {
        if !specialization.is_valid() {
            return Err("invalid property specialization: empty numeric range".to_owned());
        }
        let value = match current {
            Some(c) => c,
            None => default_value,
        };
        Ok(LoadedValueTypeProperty { allow_definitions_in_source, specialization, default_value, value })
    }

    /// The current value of the property.
    pub fn get_value(&self) -> (r: S::Value)
        ensures
            r == self.value,
    {
        self.value
    }

    /// Re-read the property from the settings: the stored value if one is
    /// present, the default otherwise.
    pub fn reload_settings(&mut self, current: Option<S::Value>)
        ensures
            final(self).allow_definitions_in_source == old(self).allow_definitions_in_source,
            final(self).specialization == old(self).specialization,
            final(self).default_value == old(self).default_value,
            final(self).value == (match current {
                Some(c) => c,
                None => old(self).default_value,
            }),
    {
        self.value = match current {
            Some(c) => c,
            None => self.default_value,
        };
    }

    /// Register this property's descriptor.
    pub fn add_properties(&self, properties: &mut Properties)
        ensures
            final(properties).entries@ == old(properties).entries@.push(
                self.specialization.spec_entry(),
            ),
    {
        let entry = self.specialization.entry();
        properties.push_entry(entry);
    }
}

/// The state behind the shader-reload button: a flag the button's callback
/// raises and the per-frame update consumes.
pub struct ReloadButtonState {
    reload_requested: bool,
}

impl ReloadButtonState {
    /// Whether a reload has been requested and not yet consumed.
    pub closed spec fn spec_requested(self) -> bool {
        self.reload_requested
    }

    pub fn new() -> (r: Self)
        ensures
            !r.spec_requested(),
    {
        ReloadButtonState { reload_requested: false }
    }

    /// The descriptor of the reload button for the settings UI.
    pub fn get_button_property(&self) -> (r: PropertyEntry)
        ensures
            match r {
                PropertyEntry::Button(name) => name@ == "Reload Shader"@,
                _ => false,
            },
    {
        PropertyEntry::Button("Reload Shader".to_owned())
    }

    /// What the button's callback does when clicked: request a reload.
    pub fn request_reload(&mut self)
        ensures
            final(self).spec_requested(),
    {
        self.reload_requested = true;
    }

    /// Check whether reload was requested, and reset the flag.
    pub fn check_and_reset(&mut self) -> (r: bool)
        ensures
            r == old(self).spec_requested(),
            !final(self).spec_requested(),
    {
        let was = self.reload_requested;
        self.reload_requested = false;
        was
    }
}

} // verus!
