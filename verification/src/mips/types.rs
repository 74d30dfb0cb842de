//! Operands of the machine's instructions: devices, registers, numbers and
//! the names that device instructions take.
use vstd::prelude::*;
use vstd::string::*;
use crate::mips::error::{Error, ErrorView};
use crate::text::{decimal, int_to_string, integer_value, natural_value, parse_i32, parse_u8};

verus! {

/// One of the six device slots of the machine.
#[derive(Copy, Clone, Debug, PartialEq, Eq)]
pub enum Device {
    D0,
    D1,
    D2,
    D3,
    D4,
    D5,
}

impl Device {
    /// The device slot as it is written in a program.
    pub open spec fn text(self) -> Seq<char> {
        match self {
            Device::D0 => "d0"@,
            Device::D1 => "d1"@,
            Device::D2 => "d2"@,
            Device::D3 => "d3"@,
            Device::D4 => "d4"@,
            Device::D5 => "d5"@,
        }
    }

    /// Writes the device slot.
    pub fn to_string(&self) -> (r: String)
        ensures
            r@ == self.text(),
    {
        match self {
            Device::D0 => "d0".to_string(),
            Device::D1 => "d1".to_string(),
            Device::D2 => "d2".to_string(),
            Device::D3 => "d3".to_string(),
            Device::D4 => "d4".to_string(),
            Device::D5 => "d5".to_string(),
        }
    }

    /// The device slot that a text names, if it names one.
    pub open spec fn parse(s: Seq<char>) -> Option<Device> {
        if s == "d0"@ {
            Some(Device::D0)
        } else if s == "d1"@ {
            Some(Device::D1)
        } else if s == "d2"@ {
            Some(Device::D2)
        } else if s == "d3"@ {
            Some(Device::D3)
        } else if s == "d4"@ {
            Some(Device::D4)
        } else if s == "d5"@ {
            Some(Device::D5)
        } else {
            None
        }
    }

    /// Reads a device slot: succeeds exactly on the texts that `text` gives,
    /// and reports every other text as a parse error that carries it.
    pub fn from_str(s: &str) -> (r: Result<Device, Error>)
        ensures
            match r {
                Ok(v) => v.text() == s@ && Device::parse(s@) == Some(v),
                Err(e) => e@ == ErrorView::ParseError(s@) && Device::parse(s@) is None
                    && forall|v: Device| v.text() != s@,
            },
    {
        if s.eq("d0") {
            Ok(Device::D0)
        } else if s.eq("d1") {
            Ok(Device::D1)
        } else if s.eq("d2") {
            Ok(Device::D2)
        } else if s.eq("d3") {
            Ok(Device::D3)
        } else if s.eq("d4") {
            Ok(Device::D4)
        } else if s.eq("d5") {
            Ok(Device::D5)
        } else {
            Err(Error::ParseError(s.to_string()))
        }
    }
}

/// A register of the machine: sixteen general ones, the return address and
/// the stack pointer.
#[derive(Copy, Clone, Debug, PartialEq, Eq)]
pub enum Register {
    R0,
    R1,
    R2,
    R3,
    R4,
    R5,
    R6,
    R7,
    R8,
    R9,
    R10,
    R11,
    R12,
    R13,
    R14,
    R15,
    Ra,
    Sp,
}

impl Register {
    /// The register as it is written in a program.
    pub open spec fn text(self) -> Seq<char> {
        match self {
            Register::R0 => "r0"@,
            Register::R1 => "r1"@,
            Register::R2 => "r2"@,
            Register::R3 => "r3"@,
            Register::R4 => "r4"@,
            Register::R5 => "r5"@,
            Register::R6 => "r6"@,
            Register::R7 => "r7"@,
            Register::R8 => "r8"@,
            Register::R9 => "r9"@,
            Register::R10 => "r10"@,
            Register::R11 => "r11"@,
            Register::R12 => "r12"@,
            Register::R13 => "r13"@,
            Register::R14 => "r14"@,
            Register::R15 => "r15"@,
            Register::Ra => "ra"@,
            Register::Sp => "sp"@,
        }
    }

    /// Writes the register.
    pub fn to_string(&self) -> (r: String)
        ensures
            r@ == self.text(),
    {
        match self {
            Register::R0 => "r0".to_string(),
            Register::R1 => "r1".to_string(),
            Register::R2 => "r2".to_string(),
            Register::R3 => "r3".to_string(),
            Register::R4 => "r4".to_string(),
            Register::R5 => "r5".to_string(),
            Register::R6 => "r6".to_string(),
            Register::R7 => "r7".to_string(),
            Register::R8 => "r8".to_string(),
            Register::R9 => "r9".to_string(),
            Register::R10 => "r10".to_string(),
            Register::R11 => "r11".to_string(),
            Register::R12 => "r12".to_string(),
            Register::R13 => "r13".to_string(),
            Register::R14 => "r14".to_string(),
            Register::R15 => "r15".to_string(),
            Register::Ra => "ra".to_string(),
            Register::Sp => "sp".to_string(),
        }
    }

    /// The register that a text names, if it names one.
    pub open spec fn parse(s: Seq<char>) -> Option<Register> {
        if s == "r0"@ {
            Some(Register::R0)
        } else if s == "r1"@ {
            Some(Register::R1)
        } else if s == "r2"@ {
            Some(Register::R2)
        } else if s == "r3"@ {
            Some(Register::R3)
        } else if s == "r4"@ {
            Some(Register::R4)
        } else if s == "r5"@ {
            Some(Register::R5)
        } else if s == "r6"@ {
            Some(Register::R6)
        } else if s == "r7"@ {
            Some(Register::R7)
        } else if s == "r8"@ {
            Some(Register::R8)
        } else if s == "r9"@ {
            Some(Register::R9)
        } else if s == "r10"@ {
            Some(Register::R10)
        } else if s == "r11"@ {
            Some(Register::R11)
        } else if s == "r12"@ {
            Some(Register::R12)
        } else if s == "r13"@ {
            Some(Register::R13)
        } else if s == "r14"@ {
            Some(Register::R14)
        } else if s == "r15"@ {
            Some(Register::R15)
        } else if s == "ra"@ {
            Some(Register::Ra)
        } else if s == "sp"@ {
            Some(Register::Sp)
        } else {
            None
        }
    }

    /// Reads a register: succeeds exactly on the texts that `text` gives,
    /// and reports every other text as a parse error that carries it.
    pub fn from_str(s: &str) -> (r: Result<Register, Error>)
        ensures
            match r {
                Ok(v) => v.text() == s@ && Register::parse(s@) == Some(v),
                Err(e) => e@ == ErrorView::ParseError(s@) && Register::parse(s@) is None
                    && forall|v: Register| v.text() != s@,
            },
    {
        if s.eq("r0") {
            Ok(Register::R0)
        } else if s.eq("r1") {
            Ok(Register::R1)
        } else if s.eq("r2") {
            Ok(Register::R2)
        } else if s.eq("r3") {
            Ok(Register::R3)
        } else if s.eq("r4") {
            Ok(Register::R4)
        } else if s.eq("r5") {
            Ok(Register::R5)
        } else if s.eq("r6") {
            Ok(Register::R6)
        } else if s.eq("r7") {
            Ok(Register::R7)
        } else if s.eq("r8") {
            Ok(Register::R8)
        } else if s.eq("r9") {
            Ok(Register::R9)
        } else if s.eq("r10") {
            Ok(Register::R10)
        } else if s.eq("r11") {
            Ok(Register::R11)
        } else if s.eq("r12") {
            Ok(Register::R12)
        } else if s.eq("r13") {
            Ok(Register::R13)
        } else if s.eq("r14") {
            Ok(Register::R14)
        } else if s.eq("r15") {
            Ok(Register::R15)
        } else if s.eq("ra") {
            Ok(Register::Ra)
        } else if s.eq("sp") {
            Ok(Register::Sp)
        } else {
            Err(Error::ParseError(s.to_string()))
        }
    }
}

/// A named attribute of a device.
#[derive(Copy, Clone, Debug, PartialEq, Eq)]
pub enum DeviceVariable {
    Activate,
    AirRelease,
    Charge,
    ClearMemory,
    Color,
    CompletionRatio,
    ElevatorLevel,
    ElevatorSpeed,
    Error,
    ExportCount,
    Filtration,
    Harvest,
    Horiontal,
    HorizontalRatio,
    Idle,
    ImportCount,
    Lock,
    Maximum,
    Mode,
    On,
    Open,
    Output,
    Plant,
    PositionX,
    PositionY,
    Power,
    PowerActual,
    PowerPotential,
    PowerRequired,
    Pressure,
    PressureExternal,
    PressureInternal,
    PressureSetting,
    Quantity,
    Ratio,
    RatioCarbonDioxide,
    RatioNitrogen,
    RatioOxygen,
    RatioPollutant,
    RatioVolatiles,
    RatioWater,
    Reagents,
    RecipeHash,
    RequestHash,
    RequiredPower,
    Setting,
    SolarAngle,
    Temperature,
    TemperatureSettings,
    TotalMoles,
    VelocityMagnitude,
    VelocityRelativeX,
    VelocityRelativeY,
    VelocityRelativeZ,
    Vertical,
    VerticalRatio,
    Volume,
}

impl DeviceVariable {
    /// The device variable as it is written in a program.
    pub open spec fn text(self) -> Seq<char> {
        match self {
            DeviceVariable::Activate => "Activate"@,
            DeviceVariable::AirRelease => "AirRelease"@,
            DeviceVariable::Charge => "Charge"@,
            DeviceVariable::ClearMemory => "ClearMemory"@,
            DeviceVariable::Color => "Color"@,
            DeviceVariable::CompletionRatio => "CompletionRatio"@,
            DeviceVariable::ElevatorLevel => "ElevatorLevel"@,
            DeviceVariable::ElevatorSpeed => "ElevatorSpeed"@,
            DeviceVariable::Error => "Error"@,
            DeviceVariable::ExportCount => "ExportCount"@,
            DeviceVariable::Filtration => "Filtration"@,
            DeviceVariable::Harvest => "Harvest"@,
            DeviceVariable::Horiontal => "Horizontal"@,
            DeviceVariable::HorizontalRatio => "HorizontalRatio"@,
            DeviceVariable::Idle => "Idle"@,
            DeviceVariable::ImportCount => "ImportCount"@,
            DeviceVariable::Lock => "Lock"@,
            DeviceVariable::Maximum => "Maximum"@,
            DeviceVariable::Mode => "Mode"@,
            DeviceVariable::On => "On"@,
            DeviceVariable::Open => "Open"@,
            DeviceVariable::Output => "Output"@,
            DeviceVariable::Plant => "Plant"@,
            DeviceVariable::PositionX => "PositionX"@,
            DeviceVariable::PositionY => "PositionY"@,
            DeviceVariable::Power => "Power"@,
            DeviceVariable::PowerActual => "PowerActual"@,
            DeviceVariable::PowerPotential => "PowerPotential"@,
            DeviceVariable::PowerRequired => "PowerRequired"@,
            DeviceVariable::Pressure => "Pressure"@,
            DeviceVariable::PressureExternal => "PressureExternal"@,
            DeviceVariable::PressureInternal => "PressureInternal"@,
            DeviceVariable::PressureSetting => "PressureSetting"@,
            DeviceVariable::Quantity => "Quantity"@,
            DeviceVariable::Ratio => "Ratio"@,
            DeviceVariable::RatioCarbonDioxide => "RatioCarbonDioxide"@,
            DeviceVariable::RatioNitrogen => "RatioNitrogen"@,
            DeviceVariable::RatioOxygen => "RatioOxygen"@,
            DeviceVariable::RatioPollutant => "RatioPollutant"@,
            DeviceVariable::RatioVolatiles => "RatioVolatiles"@,
            DeviceVariable::RatioWater => "RatioWater"@,
            DeviceVariable::Reagents => "Reagents"@,
            DeviceVariable::RecipeHash => "RecipeHash"@,
            DeviceVariable::RequestHash => "RequestHash"@,
            DeviceVariable::RequiredPower => "RequiredPower"@,
            DeviceVariable::Setting => "Setting"@,
            DeviceVariable::SolarAngle => "SolarAngle"@,
            DeviceVariable::Temperature => "Temperature"@,
            DeviceVariable::TemperatureSettings => "TemperatureSettings"@,
            DeviceVariable::TotalMoles => "TotalMoles"@,
            DeviceVariable::VelocityMagnitude => "VelocityMagnitude"@,
            DeviceVariable::VelocityRelativeX => "VelocityRelativeX"@,
            DeviceVariable::VelocityRelativeY => "VelocityRelativeY"@,
            DeviceVariable::VelocityRelativeZ => "VelocityRelativeZ"@,
            DeviceVariable::Vertical => "Vertical"@,
            DeviceVariable::VerticalRatio => "VerticalRatio"@,
            DeviceVariable::Volume => "Volume"@,
        }
    }

    /// Writes the device variable.
    pub fn to_string(&self) -> (r: String)
        ensures
            r@ == self.text(),
    {
        match self {
            DeviceVariable::Activate => "Activate".to_string(),
            DeviceVariable::AirRelease => "AirRelease".to_string(),
            DeviceVariable::Charge => "Charge".to_string(),
            DeviceVariable::ClearMemory => "ClearMemory".to_string(),
            DeviceVariable::Color => "Color".to_string(),
            DeviceVariable::CompletionRatio => "CompletionRatio".to_string(),
            DeviceVariable::ElevatorLevel => "ElevatorLevel".to_string(),
            DeviceVariable::ElevatorSpeed => "ElevatorSpeed".to_string(),
            DeviceVariable::Error => "Error".to_string(),
            DeviceVariable::ExportCount => "ExportCount".to_string(),
            DeviceVariable::Filtration => "Filtration".to_string(),
            DeviceVariable::Harvest => "Harvest".to_string(),
            DeviceVariable::Horiontal => "Horizontal".to_string(),
            DeviceVariable::HorizontalRatio => "HorizontalRatio".to_string(),
            DeviceVariable::Idle => "Idle".to_string(),
            DeviceVariable::ImportCount => "ImportCount".to_string(),
            DeviceVariable::Lock => "Lock".to_string(),
            DeviceVariable::Maximum => "Maximum".to_string(),
            DeviceVariable::Mode => "Mode".to_string(),
            DeviceVariable::On => "On".to_string(),
            DeviceVariable::Open => "Open".to_string(),
            DeviceVariable::Output => "Output".to_string(),
            DeviceVariable::Plant => "Plant".to_string(),
            DeviceVariable::PositionX => "PositionX".to_string(),
            DeviceVariable::PositionY => "PositionY".to_string(),
            DeviceVariable::Power => "Power".to_string(),
            DeviceVariable::PowerActual => "PowerActual".to_string(),
            DeviceVariable::PowerPotential => "PowerPotential".to_string(),
            DeviceVariable::PowerRequired => "PowerRequired".to_string(),
            DeviceVariable::Pressure => "Pressure".to_string(),
            DeviceVariable::PressureExternal => "PressureExternal".to_string(),
            DeviceVariable::PressureInternal => "PressureInternal".to_string(),
            DeviceVariable::PressureSetting => "PressureSetting".to_string(),
            DeviceVariable::Quantity => "Quantity".to_string(),
            DeviceVariable::Ratio => "Ratio".to_string(),
            DeviceVariable::RatioCarbonDioxide => "RatioCarbonDioxide".to_string(),
            DeviceVariable::RatioNitrogen => "RatioNitrogen".to_string(),
            DeviceVariable::RatioOxygen => "RatioOxygen".to_string(),
            DeviceVariable::RatioPollutant => "RatioPollutant".to_string(),
            DeviceVariable::RatioVolatiles => "RatioVolatiles".to_string(),
            DeviceVariable::RatioWater => "RatioWater".to_string(),
            DeviceVariable::Reagents => "Reagents".to_string(),
            DeviceVariable::RecipeHash => "RecipeHash".to_string(),
            DeviceVariable::RequestHash => "RequestHash".to_string(),
            DeviceVariable::RequiredPower => "RequiredPower".to_string(),
            DeviceVariable::Setting => "Setting".to_string(),
            DeviceVariable::SolarAngle => "SolarAngle".to_string(),
            DeviceVariable::Temperature => "Temperature".to_string(),
            DeviceVariable::TemperatureSettings => "TemperatureSettings".to_string(),
            DeviceVariable::TotalMoles => "TotalMoles".to_string(),
            DeviceVariable::VelocityMagnitude => "VelocityMagnitude".to_string(),
            DeviceVariable::VelocityRelativeX => "VelocityRelativeX".to_string(),
            DeviceVariable::VelocityRelativeY => "VelocityRelativeY".to_string(),
            DeviceVariable::VelocityRelativeZ => "VelocityRelativeZ".to_string(),
            DeviceVariable::Vertical => "Vertical".to_string(),
            DeviceVariable::VerticalRatio => "VerticalRatio".to_string(),
            DeviceVariable::Volume => "Volume".to_string(),
        }
    }

    /// The device variable that a text names, if it names one.
    pub open spec fn parse(s: Seq<char>) -> Option<DeviceVariable> {
        if s == "Activate"@ {
            Some(DeviceVariable::Activate)
        } else if s == "AirRelease"@ {
            Some(DeviceVariable::AirRelease)
        } else if s == "Charge"@ {
            Some(DeviceVariable::Charge)
        } else if s == "ClearMemory"@ {
            Some(DeviceVariable::ClearMemory)
        } else if s == "Color"@ {
            Some(DeviceVariable::Color)
        } else if s == "CompletionRatio"@ {
            Some(DeviceVariable::CompletionRatio)
        } else if s == "ElevatorLevel"@ {
            Some(DeviceVariable::ElevatorLevel)
        } else if s == "ElevatorSpeed"@ {
            Some(DeviceVariable::ElevatorSpeed)
        } else if s == "Error"@ {
            Some(DeviceVariable::Error)
        } else if s == "ExportCount"@ {
            Some(DeviceVariable::ExportCount)
        } else if s == "Filtration"@ {
            Some(DeviceVariable::Filtration)
        } else if s == "Harvest"@ {
            Some(DeviceVariable::Harvest)
        } else if s == "Horizontal"@ {
            Some(DeviceVariable::Horiontal)
        } else if s == "HorizontalRatio"@ {
            Some(DeviceVariable::HorizontalRatio)
        } else if s == "Idle"@ {
            Some(DeviceVariable::Idle)
        } else if s == "ImportCount"@ {
            Some(DeviceVariable::ImportCount)
        } else if s == "Lock"@ {
            Some(DeviceVariable::Lock)
        } else if s == "Maximum"@ {
            Some(DeviceVariable::Maximum)
        } else if s == "Mode"@ {
            Some(DeviceVariable::Mode)
        } else if s == "On"@ {
            Some(DeviceVariable::On)
        } else if s == "Open"@ {
            Some(DeviceVariable::Open)
        } else if s == "Output"@ {
            Some(DeviceVariable::Output)
        } else if s == "Plant"@ {
            Some(DeviceVariable::Plant)
        } else if s == "PositionX"@ {
            Some(DeviceVariable::PositionX)
        } else if s == "PositionY"@ {
            Some(DeviceVariable::PositionY)
        } else if s == "Power"@ {
            Some(DeviceVariable::Power)
        } else if s == "PowerActual"@ {
            Some(DeviceVariable::PowerActual)
        } else if s == "PowerPotential"@ {
            Some(DeviceVariable::PowerPotential)
        } else if s == "PowerRequired"@ {
            Some(DeviceVariable::PowerRequired)
        } else if s == "Pressure"@ {
            Some(DeviceVariable::Pressure)
        } else if s == "PressureExternal"@ {
            Some(DeviceVariable::PressureExternal)
        } else if s == "PressureInternal"@ {
            Some(DeviceVariable::PressureInternal)
        } else if s == "PressureSetting"@ {
            Some(DeviceVariable::PressureSetting)
        } else if s == "Quantity"@ {
            Some(DeviceVariable::Quantity)
        } else if s == "Ratio"@ {
            Some(DeviceVariable::Ratio)
        } else if s == "RatioCarbonDioxide"@ {
            Some(DeviceVariable::RatioCarbonDioxide)
        } else if s == "RatioNitrogen"@ {
            Some(DeviceVariable::RatioNitrogen)
        } else if s == "RatioOxygen"@ {
            Some(DeviceVariable::RatioOxygen)
        } else if s == "RatioPollutant"@ {
            Some(DeviceVariable::RatioPollutant)
        } else if s == "RatioVolatiles"@ {
            Some(DeviceVariable::RatioVolatiles)
        } else if s == "RatioWater"@ {
            Some(DeviceVariable::RatioWater)
        } else if s == "Reagents"@ {
            Some(DeviceVariable::Reagents)
        } else if s == "RecipeHash"@ {
            Some(DeviceVariable::RecipeHash)
        } else if s == "RequestHash"@ {
            Some(DeviceVariable::RequestHash)
        } else if s == "RequiredPower"@ {
            Some(DeviceVariable::RequiredPower)
        } else if s == "Setting"@ {
            Some(DeviceVariable::Setting)
        } else if s == "SolarAngle"@ {
            Some(DeviceVariable::SolarAngle)
        } else if s == "Temperature"@ {
            Some(DeviceVariable::Temperature)
        } else if s == "TemperatureSettings"@ {
            Some(DeviceVariable::TemperatureSettings)
        } else if s == "TotalMoles"@ {
            Some(DeviceVariable::TotalMoles)
        } else if s == "VelocityMagnitude"@ {
            Some(DeviceVariable::VelocityMagnitude)
        } else if s == "VelocityRelativeX"@ {
            Some(DeviceVariable::VelocityRelativeX)
        } else if s == "VelocityRelativeY"@ {
            Some(DeviceVariable::VelocityRelativeY)
        } else if s == "VelocityRelativeZ"@ {
            Some(DeviceVariable::VelocityRelativeZ)
        } else if s == "Vertical"@ {
            Some(DeviceVariable::Vertical)
        } else if s == "VerticalRatio"@ {
            Some(DeviceVariable::VerticalRatio)
        } else if s == "Volume"@ {
            Some(DeviceVariable::Volume)
        } else {
            None
        }
    }

    /// Reads a device variable: succeeds exactly on the texts that `text` gives,
    /// and reports every other text as a parse error that carries it.
    pub fn from_str(s: &str) -> (r: Result<DeviceVariable, Error>)
        ensures
            match r {
                Ok(v) => v.text() == s@ && DeviceVariable::parse(s@) == Some(v),
                Err(e) => e@ == ErrorView::ParseError(s@) && DeviceVariable::parse(s@) is None
                    && forall|v: DeviceVariable| v.text() != s@,
            },
    {
        if s.eq("Activate") {
            Ok(DeviceVariable::Activate)
        } else if s.eq("AirRelease") {
            Ok(DeviceVariable::AirRelease)
        } else if s.eq("Charge") {
            Ok(DeviceVariable::Charge)
        } else if s.eq("ClearMemory") {
            Ok(DeviceVariable::ClearMemory)
        } else if s.eq("Color") {
            Ok(DeviceVariable::Color)
        } else if s.eq("CompletionRatio") {
            Ok(DeviceVariable::CompletionRatio)
        } else if s.eq("ElevatorLevel") {
            Ok(DeviceVariable::ElevatorLevel)
        } else if s.eq("ElevatorSpeed") {
            Ok(DeviceVariable::ElevatorSpeed)
        } else if s.eq("Error") {
            Ok(DeviceVariable::Error)
        } else if s.eq("ExportCount") {
            Ok(DeviceVariable::ExportCount)
        } else if s.eq("Filtration") {
            Ok(DeviceVariable::Filtration)
        } else if s.eq("Harvest") {
            Ok(DeviceVariable::Harvest)
        } else if s.eq("Horizontal") {
            Ok(DeviceVariable::Horiontal)
        } else if s.eq("HorizontalRatio") {
            Ok(DeviceVariable::HorizontalRatio)
        } else if s.eq("Idle") {
            Ok(DeviceVariable::Idle)
        } else if s.eq("ImportCount") {
            Ok(DeviceVariable::ImportCount)
        } else if s.eq("Lock") {
            Ok(DeviceVariable::Lock)
        } else if s.eq("Maximum") {
            Ok(DeviceVariable::Maximum)
        } else if s.eq("Mode") {
            Ok(DeviceVariable::Mode)
        } else if s.eq("On") {
            Ok(DeviceVariable::On)
        } else if s.eq("Open") {
            Ok(DeviceVariable::Open)
        } else if s.eq("Output") {
            Ok(DeviceVariable::Output)
        } else if s.eq("Plant") {
            Ok(DeviceVariable::Plant)
        } else if s.eq("PositionX") {
            Ok(DeviceVariable::PositionX)
        } else if s.eq("PositionY") {
            Ok(DeviceVariable::PositionY)
        } else if s.eq("Power") {
            Ok(DeviceVariable::Power)
        } else if s.eq("PowerActual") {
            Ok(DeviceVariable::PowerActual)
        } else if s.eq("PowerPotential") {
            Ok(DeviceVariable::PowerPotential)
        } else if s.eq("PowerRequired") {
            Ok(DeviceVariable::PowerRequired)
        } else if s.eq("Pressure") {
            Ok(DeviceVariable::Pressure)
        } else if s.eq("PressureExternal") {
            Ok(DeviceVariable::PressureExternal)
        } else if s.eq("PressureInternal") {
            Ok(DeviceVariable::PressureInternal)
        } else if s.eq("PressureSetting") {
            Ok(DeviceVariable::PressureSetting)
        } else if s.eq("Quantity") {
            Ok(DeviceVariable::Quantity)
        } else if s.eq("Ratio") {
            Ok(DeviceVariable::Ratio)
        } else if s.eq("RatioCarbonDioxide") {
            Ok(DeviceVariable::RatioCarbonDioxide)
        } else if s.eq("RatioNitrogen") {
            Ok(DeviceVariable::RatioNitrogen)
        } else if s.eq("RatioOxygen") {
            Ok(DeviceVariable::RatioOxygen)
        } else if s.eq("RatioPollutant") {
            Ok(DeviceVariable::RatioPollutant)
        } else if s.eq("RatioVolatiles") {
            Ok(DeviceVariable::RatioVolatiles)
        } else if s.eq("RatioWater") {
            Ok(DeviceVariable::RatioWater)
        } else if s.eq("Reagents") {
            Ok(DeviceVariable::Reagents)
        } else if s.eq("RecipeHash") {
            Ok(DeviceVariable::RecipeHash)
        } else if s.eq("RequestHash") {
            Ok(DeviceVariable::RequestHash)
        } else if s.eq("RequiredPower") {
            Ok(DeviceVariable::RequiredPower)
        } else if s.eq("Setting") {
            Ok(DeviceVariable::Setting)
        } else if s.eq("SolarAngle") {
            Ok(DeviceVariable::SolarAngle)
        } else if s.eq("Temperature") {
            Ok(DeviceVariable::Temperature)
        } else if s.eq("TemperatureSettings") {
            Ok(DeviceVariable::TemperatureSettings)
        } else if s.eq("TotalMoles") {
            Ok(DeviceVariable::TotalMoles)
        } else if s.eq("VelocityMagnitude") {
            Ok(DeviceVariable::VelocityMagnitude)
        } else if s.eq("VelocityRelativeX") {
            Ok(DeviceVariable::VelocityRelativeX)
        } else if s.eq("VelocityRelativeY") {
            Ok(DeviceVariable::VelocityRelativeY)
        } else if s.eq("VelocityRelativeZ") {
            Ok(DeviceVariable::VelocityRelativeZ)
        } else if s.eq("Vertical") {
            Ok(DeviceVariable::Vertical)
        } else if s.eq("VerticalRatio") {
            Ok(DeviceVariable::VerticalRatio)
        } else if s.eq("Volume") {
            Ok(DeviceVariable::Volume)
        } else {
            Err(Error::ParseError(s.to_string()))
        }
    }
}

impl Register {
    /// The printed form of the register: the name of its variant.
    pub open spec fn debug_text(self) -> Seq<char> {
        match self {
            Register::R0 => "R0"@,
            Register::R1 => "R1"@,
            Register::R2 => "R2"@,
            Register::R3 => "R3"@,
            Register::R4 => "R4"@,
            Register::R5 => "R5"@,
            Register::R6 => "R6"@,
            Register::R7 => "R7"@,
            Register::R8 => "R8"@,
            Register::R9 => "R9"@,
            Register::R10 => "R10"@,
            Register::R11 => "R11"@,
            Register::R12 => "R12"@,
            Register::R13 => "R13"@,
            Register::R14 => "R14"@,
            Register::R15 => "R15"@,
            Register::Ra => "Ra"@,
            Register::Sp => "Sp"@,
        }
    }

    /// Prints the register.
    pub fn debug_string(&self) -> (r: String)
        ensures
            r@ == self.debug_text(),
    {
        match self {
            Register::R0 => "R0".to_string(),
            Register::R1 => "R1".to_string(),
            Register::R2 => "R2".to_string(),
            Register::R3 => "R3".to_string(),
            Register::R4 => "R4".to_string(),
            Register::R5 => "R5".to_string(),
            Register::R6 => "R6".to_string(),
            Register::R7 => "R7".to_string(),
            Register::R8 => "R8".to_string(),
            Register::R9 => "R9".to_string(),
            Register::R10 => "R10".to_string(),
            Register::R11 => "R11".to_string(),
            Register::R12 => "R12".to_string(),
            Register::R13 => "R13".to_string(),
            Register::R14 => "R14".to_string(),
            Register::R15 => "R15".to_string(),
            Register::Ra => "Ra".to_string(),
            Register::Sp => "Sp".to_string(),
        }
    }

    /// The register with the given number: `r0` to `r15`, then the return
    /// address and the stack pointer.
    pub open spec fn of_index(i: int) -> Option<Register> {
        if i == 0 {
            Some(Register::R0)
        } else if i == 1 {
            Some(Register::R1)
        } else if i == 2 {
            Some(Register::R2)
        } else if i == 3 {
            Some(Register::R3)
        } else if i == 4 {
            Some(Register::R4)
        } else if i == 5 {
            Some(Register::R5)
        } else if i == 6 {
            Some(Register::R6)
        } else if i == 7 {
            Some(Register::R7)
        } else if i == 8 {
            Some(Register::R8)
        } else if i == 9 {
            Some(Register::R9)
        } else if i == 10 {
            Some(Register::R10)
        } else if i == 11 {
            Some(Register::R11)
        } else if i == 12 {
            Some(Register::R12)
        } else if i == 13 {
            Some(Register::R13)
        } else if i == 14 {
            Some(Register::R14)
        } else if i == 15 {
            Some(Register::R15)
        } else if i == 16 {
            Some(Register::Ra)
        } else if i == 17 {
            Some(Register::Sp)
        } else {
            None
        }
    }

    /// The register with the given number, if there is one.
    pub fn from_index(i: u8) -> (r: Option<Register>)
        ensures
            r == Register::of_index(i as int),
    {
        if i == 0 {
            Some(Register::R0)
        } else if i == 1 {
            Some(Register::R1)
        } else if i == 2 {
            Some(Register::R2)
        } else if i == 3 {
            Some(Register::R3)
        } else if i == 4 {
            Some(Register::R4)
        } else if i == 5 {
            Some(Register::R5)
        } else if i == 6 {
            Some(Register::R6)
        } else if i == 7 {
            Some(Register::R7)
        } else if i == 8 {
            Some(Register::R8)
        } else if i == 9 {
            Some(Register::R9)
        } else if i == 10 {
            Some(Register::R10)
        } else if i == 11 {
            Some(Register::R11)
        } else if i == 12 {
            Some(Register::R12)
        } else if i == 13 {
            Some(Register::R13)
        } else if i == 14 {
            Some(Register::R14)
        } else if i == 15 {
            Some(Register::R15)
        } else if i == 16 {
            Some(Register::Ra)
        } else if i == 17 {
            Some(Register::Sp)
        } else {
            None
        }
    }
}

/// A number written into an instruction. A number with a fraction is held as
/// the decimal text under which it is written.
#[derive(Clone, Debug, PartialEq, Eq)]
pub enum Number {
    Int(i32),
    Float(String),
}

impl Number {
    /// The number as it is written in a program.
    pub open spec fn text(self) -> Seq<char> {
        match self {
            Number::Int(i) => decimal(i as int),
            Number::Float(t) => t@,
        }
    }

    /// Writes the number.
    pub fn to_string(&self) -> (r: String)
        ensures
            r@ == self.text(),
    {
        match self {
            Number::Int(i) => int_to_string(*i as i64),
            Number::Float(t) => t.clone(),
        }
    }

    /// The number that a text names, if it names one: a whole number of 32
    /// bits in decimal, with a sign in front of it or none.
    pub open spec fn parse(s: Seq<char>) -> Option<Number> {
        match integer_value(s) {
            Some(v) => if i32::MIN <= v <= i32::MAX {
                Some(Number::Int(v as i32))
            } else {
                None
            },
            None => None,
        }
    }

    /// Reads a whole number, and reports every other text as a parse error
    /// that carries it. A number with a fraction is not read here: who has
    /// one makes a `Number::Float` of its text.
    pub fn from_str(s: &str) -> (r: Result<Number, Error>)
        ensures
            match r {
                Ok(number) => Number::parse(s@) == Some(number),
                Err(e) => e@ == ErrorView::ParseError(s@) && Number::parse(s@) is None,
            },
    {
        match parse_i32(s) {
            Some(value) => Ok(Number::Int(value)),
            None => Err(Error::ParseError(s.to_string())),
        }
    }
}

/// An operand that is either a register or a number.
#[derive(Clone, Debug, PartialEq, Eq)]
pub enum RegisterOrNumber {
    Register(Register),
    Number(Number),
}

impl RegisterOrNumber {
    /// The operand as it is written in a program.
    pub open spec fn text(self) -> Seq<char> {
        match self {
            RegisterOrNumber::Register(register) => register.text(),
            RegisterOrNumber::Number(number) => number.text(),
        }
    }

    /// Writes the operand.
    pub fn to_string(&self) -> (r: String)
        ensures
            r@ == self.text(),
    {
        match self {
            RegisterOrNumber::Register(register) => register.to_string(),
            RegisterOrNumber::Number(number) => number.to_string(),
        }
    }

    /// The operand that a text names, if it names one: a register, or else
    /// a number.
    pub open spec fn parse(s: Seq<char>) -> Option<RegisterOrNumber> {
        match Register::parse(s) {
            Some(register) => Some(RegisterOrNumber::Register(register)),
            None => match Number::parse(s) {
                Some(number) => Some(RegisterOrNumber::Number(number)),
                None => None,
            },
        }
    }

    /// Reads a register or a number, and reports every other text as a
    /// parse error that carries it.
    pub fn from_str(s: &str) -> (r: Result<RegisterOrNumber, Error>)
        ensures
            match r {
                Ok(operand) => RegisterOrNumber::parse(s@) == Some(operand),
                Err(e) => e@ == ErrorView::ParseError(s@) && RegisterOrNumber::parse(s@) is None,
            },
    {
        if let Ok(register) = Register::from_str(s) {
            Ok(RegisterOrNumber::Register(register))
        } else if let Ok(number) = Number::from_str(s) {
            Ok(RegisterOrNumber::Number(number))
        } else {
            Err(Error::ParseError(s.to_string()))
        }
    }
}

impl From<Register> for RegisterOrNumber {
    fn from(register: Register) -> (r: RegisterOrNumber) {
        RegisterOrNumber::Register(register)
    }
}

impl vstd::std_specs::convert::FromSpecImpl<Register> for RegisterOrNumber {
    open spec fn obeys_from_spec() -> bool {
        true
    }

    open spec fn from_spec(register: Register) -> RegisterOrNumber {
        RegisterOrNumber::Register(register)
    }
}

impl From<Number> for RegisterOrNumber {
    fn from(number: Number) -> (r: RegisterOrNumber) {
        RegisterOrNumber::Number(number)
    }
}

impl vstd::std_specs::convert::FromSpecImpl<Number> for RegisterOrNumber {
    open spec fn obeys_from_spec() -> bool {
        true
    }

    open spec fn from_spec(number: Number) -> RegisterOrNumber {
        RegisterOrNumber::Number(number)
    }
}

/// The hash that names a type of device; every text is one.
#[derive(Clone, Debug, PartialEq, Eq)]
pub struct TypeHash(String);

impl TypeHash {
    /// The hash as it is written in a program.
    pub closed spec fn text(self) -> Seq<char> {
        self.0@
    }

    /// Writes the hash.
    pub fn to_string(&self) -> (r: String)
        ensures
            r@ == self.text(),
    {
        self.0.clone()
    }

    /// Takes any text as a hash.
    pub fn from_str(s: &str) -> (r: Result<TypeHash, Error>)
        ensures
            r matches Ok(v) && v.text() == s@,
    {
        Ok(TypeHash(s.to_string()))
    }
}

/// The name of a reagent; every text is one.
#[derive(Clone, Debug, PartialEq, Eq)]
pub struct Reagent(String);

impl Reagent {
    /// The name as it is written in a program.
    pub closed spec fn text(self) -> Seq<char> {
        self.0@
    }

    /// Writes the name.
    pub fn to_string(&self) -> (r: String)
        ensures
            r@ == self.text(),
    {
        self.0.clone()
    }

    /// Takes any text as the name of a reagent.
    pub fn from_str(s: &str) -> (r: Result<Reagent, Error>)
        ensures
            r matches Ok(v) && v.text() == s@,
    {
        Ok(Reagent(s.to_string()))
    }
}

/// How the values read from a batch of devices are combined.
#[derive(Clone, Debug, PartialEq, Eq)]
pub enum BatchMode {
    Average,
    Sum,
    Minimum,
    Maximum,
}

impl BatchMode {
    /// The batch mode as it is written in a program: its name.
    pub open spec fn text(self) -> Seq<char> {
        match self {
            BatchMode::Average => "Average"@,
            BatchMode::Sum => "Sum"@,
            BatchMode::Minimum => "Minimum"@,
            BatchMode::Maximum => "Maximum"@,
        }
    }

    /// The number that may be written in place of the name.
    pub open spec fn code(self) -> Seq<char> {
        match self {
            BatchMode::Average => "0"@,
            BatchMode::Sum => "1"@,
            BatchMode::Minimum => "2"@,
            BatchMode::Maximum => "3"@,
        }
    }

    /// Writes the batch mode by its name.
    pub fn to_string(&self) -> (r: String)
        ensures
            r@ == self.text(),
    {
        match self {
            BatchMode::Average => "Average".to_string(),
            BatchMode::Sum => "Sum".to_string(),
            BatchMode::Minimum => "Minimum".to_string(),
            BatchMode::Maximum => "Maximum".to_string(),
        }
    }

    /// Reads a batch mode from its name or its number, and reports every other
    /// text as a parse error that carries it.
    pub fn from_str(s: &str) -> (r: Result<BatchMode, Error>)
        ensures
            match r {
                Ok(v) => v.text() == s@ || v.code() == s@,
                Err(e) => e@ == ErrorView::ParseError(s@) && forall|v: BatchMode|
                    v.text() != s@ && v.code() != s@,
            },
    {
        if s.eq("Average") || s.eq("0") {
            Ok(BatchMode::Average)
        } else if s.eq("Sum") || s.eq("1") {
            Ok(BatchMode::Sum)
        } else if s.eq("Minimum") || s.eq("2") {
            Ok(BatchMode::Minimum)
        } else if s.eq("Maximum") || s.eq("3") {
            Ok(BatchMode::Maximum)
        } else {
            Err(Error::ParseError(s.to_string()))
        }
    }
}

/// Which list of reagents of a device is read.
#[derive(Clone, Debug, PartialEq, Eq)]
pub enum ReagentMode {
    Contents,
    Required,
    Recipe,
}

impl ReagentMode {
    /// The reagent mode as it is written in a program: its name.
    pub open spec fn text(self) -> Seq<char> {
        match self {
            ReagentMode::Contents => "Contents"@,
            ReagentMode::Required => "Required"@,
            ReagentMode::Recipe => "Recipe"@,
        }
    }

    /// The number that may be written in place of the name.
    pub open spec fn code(self) -> Seq<char> {
        match self {
            ReagentMode::Contents => "0"@,
            ReagentMode::Required => "1"@,
            ReagentMode::Recipe => "2"@,
        }
    }

    /// Writes the reagent mode by its name.
    pub fn to_string(&self) -> (r: String)
        ensures
            r@ == self.text(),
    {
        match self {
            ReagentMode::Contents => "Contents".to_string(),
            ReagentMode::Required => "Required".to_string(),
            ReagentMode::Recipe => "Recipe".to_string(),
        }
    }

    /// Reads a reagent mode from its name or its number, and reports every other
    /// text as a parse error that carries it.
    pub fn from_str(s: &str) -> (r: Result<ReagentMode, Error>)
        ensures
            match r {
                Ok(v) => v.text() == s@ || v.code() == s@,
                Err(e) => e@ == ErrorView::ParseError(s@) && forall|v: ReagentMode|
                    v.text() != s@ && v.code() != s@,
            },
    {
        if s.eq("Contents") || s.eq("0") {
            Ok(ReagentMode::Contents)
        } else if s.eq("Required") || s.eq("1") {
            Ok(ReagentMode::Required)
        } else if s.eq("Recipe") || s.eq("2") {
            Ok(ReagentMode::Recipe)
        } else {
            Err(Error::ParseError(s.to_string()))
        }
    }
}

/// The number of a slot of a device.
#[derive(Clone, Debug, PartialEq, Eq)]
pub struct Slot(u8);

impl Slot {
    /// The number of the slot.
    pub closed spec fn index(self) -> int {
        self.0 as int
    }

    /// The slot as it is written in a program.
    pub open spec fn text(self) -> Seq<char> {
        decimal(self.index())
    }

    /// Writes the slot.
    pub fn to_string(&self) -> (r: String)
        ensures
            r@ == self.text(),
    {
        int_to_string(self.0 as i64)
    }

    /// The number of the slot that a text names, if it names one: a
    /// natural number below 256 in decimal.
    pub open spec fn parse(s: Seq<char>) -> Option<int> {
        match natural_value(s) {
            Some(v) => if 0 <= v <= u8::MAX {
                Some(v)
            } else {
                None
            },
            None => None,
        }
    }

    /// Reads a slot from its number, and reports every other text as a
    /// parse error that carries it.
    pub fn from_str(s: &str) -> (r: Result<Slot, Error>)
        ensures
            match r {
                Ok(slot) => Slot::parse(s@) == Some(slot.index()),
                Err(e) => e@ == ErrorView::ParseError(s@) && Slot::parse(s@) is None,
            },
    {
        match parse_u8(s) {
            Some(v) => Ok(Slot(v)),
            None => Err(Error::ParseError(s.to_string())),
        }
    }
}

} // verus!
