//! Identification resolver: maps a raw 32-bit chip identifier, read from the
//! debug port, to a symbolic target selection via a static table.

use vstd::prelude::*;

verus! {

/// Debug-port identification code of the STM32F1 family.
pub const STM32F1_IDCODE: u32 = 0x1ba01477;

/// Debug-port identification code of the STM32L4 family.
pub const STM32L4_IDCODE: u32 = 0x2ba01477;

/// Symbolic target chosen from a recognized chip identifier.
///
/// The mapping is a static table, not open-ended: only identifiers this
/// workflow supports have a variant here.
#[derive(Clone, Copy, PartialEq, Eq, Structural, Debug)]
pub enum TargetSelector {
    /// STM32F1 family part, selected for identifier `0x1ba01477`.
    Stm32F103Rc,
    /// STM32L4 family part, selected for identifier `0x2ba01477`.
    Stm32L433RcTx,
}

/// Failure of the identification step.
#[derive(Clone, Copy, PartialEq, Eq, Structural, Debug)]
pub enum IdentificationError {
    /// The identifier is not in the static table. Carrying the raw value lets
    /// the caller report it; it must never be used to attach a session.
    Unrecognized(u32),
}

impl TargetSelector {
    /// The symbolic target name handed to the attach step.
    pub open spec fn spec_name(self) -> Seq<char> {
        match self {
            TargetSelector::Stm32F103Rc => "STM32F103RC"@,
            TargetSelector::Stm32L433RcTx => "STM32L433RCTx"@,
        }
    }

    /// Whether an auxiliary target description must be registered before the
    /// name is usable by the attach step.
    pub open spec fn spec_needs_registration(self) -> bool {
        self is Stm32L433RcTx
    }

    pub fn name(&self) -> (r: String)
        ensures
            r@ == self.spec_name(),
    {
        match self {
            TargetSelector::Stm32F103Rc => "STM32F103RC".to_owned(),
            TargetSelector::Stm32L433RcTx => "STM32L433RCTx".to_owned(),
        }
    }

    pub fn needs_registration(&self) -> (r: bool)
        ensures
            r == self.spec_needs_registration(),
    {
        match self {
            TargetSelector::Stm32F103Rc => false,
            TargetSelector::Stm32L433RcTx => true,
        }
    }
}

/// A device family recognized by its DBGMCU device identifier, the finer
/// static table kept beside the debug-port signatures.
#[derive(Clone, Copy, PartialEq, Eq, Structural, Debug)]
pub enum DeviceFamily {
    F10xLowDensity,
    F10xMediumDensity,
    F10xHighDensity,
    F10xXlDensity,
    F10xConnectivity,
    F2x,
    L43x,
    L45x,
    L41x,
}

impl DeviceFamily {
    /// The family's human-readable description.
    pub open spec fn spec_description(self) -> Seq<char> {
        match self {
            DeviceFamily::F10xLowDensity => "STM32F10xxx Low Density"@,
            DeviceFamily::F10xMediumDensity => "STM32F10xxx Medium Density"@,
            DeviceFamily::F10xHighDensity => "STM32F10xxx High Density"@,
            DeviceFamily::F10xXlDensity => "STM32F10xxx XL Density"@,
            DeviceFamily::F10xConnectivity => "STM32F10xxx Connectivity"@,
            DeviceFamily::F2x => "STM32F20xxx / STM32F21xxx"@,
            DeviceFamily::L43x => "STM32L43xxx / STM32L44xxx"@,
            DeviceFamily::L45x => "STM32L45xxx / STM32L46xxx"@,
            DeviceFamily::L41x => "STM32L41xxx / STM32L42xxx"@,
        }
    }

    pub fn description(&self) -> (r: String)
        ensures
            r@ == self.spec_description(),
    {
        match self {
            DeviceFamily::F10xLowDensity => "STM32F10xxx Low Density".to_owned(),
            DeviceFamily::F10xMediumDensity => "STM32F10xxx Medium Density".to_owned(),
            DeviceFamily::F10xHighDensity => "STM32F10xxx High Density".to_owned(),
            DeviceFamily::F10xXlDensity => "STM32F10xxx XL Density".to_owned(),
            DeviceFamily::F10xConnectivity => "STM32F10xxx Connectivity".to_owned(),
            DeviceFamily::F2x => "STM32F20xxx / STM32F21xxx".to_owned(),
            DeviceFamily::L43x => "STM32L43xxx / STM32L44xxx".to_owned(),
            DeviceFamily::L45x => "STM32L45xxx / STM32L46xxx".to_owned(),
            DeviceFamily::L41x => "STM32L41xxx / STM32L42xxx".to_owned(),
        }
    }
}

/// The DBGMCU device-identifier table: which family, if any, each value
/// names.
pub open spec fn spec_device_family(id: u32) -> Option<DeviceFamily> {
    if id == 0x412 {
        Some(DeviceFamily::F10xLowDensity)
    } else if id == 0x410 {
        Some(DeviceFamily::F10xMediumDensity)
    } else if id == 0x414 {
        Some(DeviceFamily::F10xHighDensity)
    } else if id == 0x430 {
        Some(DeviceFamily::F10xXlDensity)
    } else if id == 0x418 {
        Some(DeviceFamily::F10xConnectivity)
    } else if id == 0x411 {
        Some(DeviceFamily::F2x)
    } else if id == 0x435 {
        Some(DeviceFamily::L43x)
    } else if id == 0x462 {
        Some(DeviceFamily::L45x)
    } else if id == 0x464 {
        Some(DeviceFamily::L41x)
    } else {
        None
    }
}

/// Looks a DBGMCU device identifier up in the static family table.
pub fn device_family(id: u32) -> (r: Option<DeviceFamily>)
    ensures
        r == spec_device_family(id),
{
    if id == 0x412 {
        Some(DeviceFamily::F10xLowDensity)
    } else if id == 0x410 {
        Some(DeviceFamily::F10xMediumDensity)
    } else if id == 0x414 {
        Some(DeviceFamily::F10xHighDensity)
    } else if id == 0x430 {
        Some(DeviceFamily::F10xXlDensity)
    } else if id == 0x418 {
        Some(DeviceFamily::F10xConnectivity)
    } else if id == 0x411 {
        Some(DeviceFamily::F2x)
    } else if id == 0x435 {
        Some(DeviceFamily::L43x)
    } else if id == 0x462 {
        Some(DeviceFamily::L45x)
    } else if id == 0x464 {
        Some(DeviceFamily::L41x)
    } else {
        None
    }
}

/// The static identification table: which selection, if any, each 32-bit
/// identifier resolves to. Unrecognized values never default to a guess.
pub open spec fn spec_resolve(id: u32) -> Result<TargetSelector, IdentificationError> {
    if id == STM32F1_IDCODE {
        Ok(TargetSelector::Stm32F103Rc)
    } else if id == STM32L4_IDCODE {
        Ok(TargetSelector::Stm32L433RcTx)
    } else {
        Err(IdentificationError::Unrecognized(id))
    }
}

/// Resolves a chip identifier read from the debug port to a target selection.
///
/// Exactly the identifiers in the static table succeed; every other value is
/// reported as `Unrecognized`, carrying the value that was read.
pub fn resolve(chip_identifier: u32) -> (r: Result<TargetSelector, IdentificationError>)
    ensures
        r == spec_resolve(chip_identifier),
{
    if chip_identifier == STM32F1_IDCODE {
        Ok(TargetSelector::Stm32F103Rc)
    } else if chip_identifier == STM32L4_IDCODE {
        Ok(TargetSelector::Stm32L433RcTx)
    } else {
        Err(IdentificationError::Unrecognized(chip_identifier))
    }
}

} // verus!
