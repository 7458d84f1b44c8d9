use vstd::prelude::*;

verus! {

/// LoRa radio parameters.
#[derive(Debug, Clone, Copy, PartialEq, Eq, Structural)]
pub struct LoRaSettings {
    pub frequency: u32,
    pub bandwidth: u32,
    pub spreading_factor: u8,
    pub sync_word: u8,
    pub coding_rate: u8,
}

/// Deployment (ejection) parameters. The delay and the altitude are single
/// precision values carried as their IEEE 754 bit patterns.
#[derive(Debug, Clone, Copy, PartialEq, Eq, Structural)]
pub struct DeploymentSettings {
    pub apogee: bool,
    pub main: bool,
    pub apogee_delay_bits: u32,
    pub main_altitude_bits: u32,
}

#[derive(Debug, Clone, Copy, PartialEq, Eq, Structural)]
pub struct EntanglerSettings {
    pub lora: LoRaSettings,
}

#[derive(Debug, Clone, Copy, PartialEq, Eq, Structural)]
pub struct WarpSettings {
    pub deployment: DeploymentSettings,
}

/// The settings payload of a device, tagged by its variant: the payload's
/// shape always matches the tag.
#[derive(Debug, Clone, Copy, PartialEq, Eq, Structural)]
pub enum DeviceSettings {
    Entangler(EntanglerSettings),
    Warp(WarpSettings),
}

/// Failures of the device configuration operations.
#[derive(Debug, PartialEq, Eq)]
pub enum DeviceError {
    /// No device variant has been selected yet.
    NoDeviceSelected,
    /// The named variant is not one this library knows.
    UnknownVariant(String),
    /// A payload's variant differs from the selected one.
    VariantMismatch,
    /// The operation needs an open port and there is none.
    NoDeviceConnected,
    /// Transfer to or from the device is not available.
    NotImplemented,
}

pub open spec fn default_lora() -> LoRaSettings {
    LoRaSettings { frequency: 0, bandwidth: 0, spreading_factor: 0, sync_word: 0, coding_rate: 0 }
}

pub open spec fn default_deployment() -> DeploymentSettings {
    DeploymentSettings { apogee: false, main: false, apogee_delay_bits: 0, main_altitude_bits: 0 }
}

pub open spec fn default_entangler() -> DeviceSettings {
    DeviceSettings::Entangler(EntanglerSettings { lora: default_lora() })
}

pub open spec fn default_warp() -> DeviceSettings {
    DeviceSettings::Warp(WarpSettings { deployment: default_deployment() })
}

/// Both payloads have the same variant tag.
pub open spec fn same_variant(a: DeviceSettings, b: DeviceSettings) -> bool {
    (a is Entangler && b is Entangler) || (a is Warp && b is Warp)
}

/// The default payload of the variant called `name`, if there is one.
pub open spec fn variant_named(name: Seq<char>) -> Option<DeviceSettings> {
    if name == "Entangler"@ {
        Some(default_entangler())
    } else if name == "Warp"@ {
        Some(default_warp())
    } else {
        None
    }
}

impl Default for LoRaSettings {
    fn default() -> (r: LoRaSettings)
        ensures
            r == default_lora(),
    {
        LoRaSettings { frequency: 0, bandwidth: 0, spreading_factor: 0, sync_word: 0, coding_rate: 0 }
    }
}

impl Default for DeploymentSettings {
    fn default() -> (r: DeploymentSettings)
        ensures
            r == default_deployment(),
    {
        DeploymentSettings { apogee: false, main: false, apogee_delay_bits: 0, main_altitude_bits: 0 }
    }
}

impl Default for EntanglerSettings {
    fn default() -> (r: EntanglerSettings)
        ensures
            r.lora == default_lora(),
    {
        EntanglerSettings { lora: LoRaSettings::default() }
    }
}

impl Default for WarpSettings {
    fn default() -> (r: WarpSettings)
        ensures
            r.deployment == default_deployment(),
    {
        WarpSettings { deployment: DeploymentSettings::default() }
    }
}

impl DeviceSettings {
    /// The default payload of the variant called `name`.
    pub fn for_variant(name: &str) -> (r: Option<DeviceSettings>)
        ensures
            r == variant_named(name@),
    {
        let given = name.to_owned();
        let entangler = String::from_str("Entangler");
        let warp = String::from_str("Warp");
        if given == entangler {
            Some(DeviceSettings::Entangler(EntanglerSettings::default()))
        } else if given == warp {
            Some(DeviceSettings::Warp(WarpSettings::default()))
        } else {
            None
        }
    }

    pub fn is_same_variant(&self, other: &DeviceSettings) -> (r: bool)
        ensures
            r == same_variant(*self, *other),
    {
        match (self, other) {
            (DeviceSettings::Entangler(_), DeviceSettings::Entangler(_)) => true,
            (DeviceSettings::Warp(_), DeviceSettings::Warp(_)) => true,
            _ => false,
        }
    }
}

/// Every device variant with its default payload.
pub fn get_device_variants() -> (r: Vec<DeviceSettings>)
    ensures
        r@ == seq![default_entangler(), default_warp()],
{
    let r: Vec<DeviceSettings> = vec![
        DeviceSettings::Entangler(EntanglerSettings::default()),
        DeviceSettings::Warp(WarpSettings::default()),
    ];
    assert(r@ =~= seq![default_entangler(), default_warp()]);
    r
}

} // verus!
