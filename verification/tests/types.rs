use ayysee::mips::error::Error;
use ayysee::mips::types::{
    BatchMode, Device, DeviceVariable, Number, Reagent, ReagentMode, Register, RegisterOrNumber,
    Slot, TypeHash,
};

#[test]
fn devices_are_written_and_read() {
    let all = [Device::D0, Device::D1, Device::D2, Device::D3, Device::D4, Device::D5];
    for (index, device) in all.iter().enumerate() {
        assert_eq!(device.to_string(), format!("d{}", index));
        assert_eq!(Device::from_str(&format!("d{}", index)), Ok(*device));
    }
}

#[test]
fn a_text_that_is_no_device_is_a_parse_error() {
    assert_eq!(Device::from_str("d6"), Err(Error::ParseError("d6".to_string())));
    assert_eq!(Device::from_str(""), Err(Error::ParseError("".to_string())));
    assert_eq!(Device::from_str("D0"), Err(Error::ParseError("D0".to_string())));
    assert_eq!(Device::from_str("sensor"), Err(Error::ParseError("sensor".to_string())));
    assert_eq!(Device::from_str("d0 "), Err(Error::ParseError("d0 ".to_string())));
}

#[test]
fn registers_are_written_and_read() {
    let mut index: u8 = 0;
    while index < 16 {
        let register = Register::from_index(index).unwrap();
        assert_eq!(register.to_string(), format!("r{}", index));
        assert_eq!(register.debug_string(), format!("R{}", index));
        assert_eq!(Register::from_str(&format!("r{}", index)), Ok(register));
        index += 1;
    }
    assert_eq!(Register::from_index(16), Some(Register::Ra));
    assert_eq!(Register::from_index(17), Some(Register::Sp));
    assert_eq!(Register::from_index(18), None);
    assert_eq!(Register::from_index(255), None);
    assert_eq!(Register::Ra.to_string(), "ra");
    assert_eq!(Register::Sp.to_string(), "sp");
    assert_eq!(Register::Ra.debug_string(), "Ra");
    assert_eq!(Register::from_str("ra"), Ok(Register::Ra));
    assert_eq!(Register::from_str("sp"), Ok(Register::Sp));
    assert_eq!(Register::from_str("r16"), Err(Error::ParseError("r16".to_string())));
    assert_eq!(Register::from_str("r"), Err(Error::ParseError("r".to_string())));
}

#[test]
fn device_variables_are_written_and_read() {
    let names = [
        "Activate", "AirRelease", "Charge", "ClearMemory", "Color", "CompletionRatio",
        "ElevatorLevel", "ElevatorSpeed", "Error", "ExportCount", "Filtration", "Harvest",
        "Horizontal", "HorizontalRatio", "Idle", "ImportCount", "Lock", "Maximum", "Mode", "On",
        "Open", "Output", "Plant", "PositionX", "PositionY", "Power", "PowerActual",
        "PowerPotential", "PowerRequired", "Pressure", "PressureExternal", "PressureInternal",
        "PressureSetting", "Quantity", "Ratio", "RatioCarbonDioxide", "RatioNitrogen",
        "RatioOxygen", "RatioPollutant", "RatioVolatiles", "RatioWater", "Reagents",
        "RecipeHash", "RequestHash", "RequiredPower", "Setting", "SolarAngle", "Temperature",
        "TemperatureSettings", "TotalMoles", "VelocityMagnitude", "VelocityRelativeX",
        "VelocityRelativeY", "VelocityRelativeZ", "Vertical", "VerticalRatio", "Volume",
    ];
    assert_eq!(names.len(), 57);
    for name in names {
        let variable = DeviceVariable::from_str(name).unwrap();
        assert_eq!(variable.to_string(), name);
    }
    assert_eq!(DeviceVariable::from_str("Temperature"), Ok(DeviceVariable::Temperature));
    assert_eq!(DeviceVariable::from_str("Setting"), Ok(DeviceVariable::Setting));
    assert_eq!(DeviceVariable::from_str("Horizontal"), Ok(DeviceVariable::Horiontal));
    assert_eq!(DeviceVariable::from_str("PowerActual"), Ok(DeviceVariable::PowerActual));
}

#[test]
fn a_text_that_is_no_device_variable_is_a_parse_error() {
    for text in ["", "temperature", "Bogus", "Horiontal", "Power ", "On1"] {
        assert_eq!(DeviceVariable::from_str(text), Err(Error::ParseError(text.to_string())));
    }
}

#[test]
fn numbers_are_written() {
    assert_eq!(Number::Int(5).to_string(), "5");
    assert_eq!(Number::Int(0).to_string(), "0");
    assert_eq!(Number::Int(-17).to_string(), "-17");
    assert_eq!(Number::Int(i32::MIN).to_string(), "-2147483648");
    assert_eq!(Number::Int(i32::MAX).to_string(), "2147483647");
    assert_eq!(Number::Float(format!("{}", 2.5f64 as f32)).to_string(), "2.5");
    assert_eq!(Number::Float("0.1".to_string()).to_string(), "0.1");
}

#[test]
fn whole_numbers_are_read_as_numbers() {
    assert_eq!(Number::from_str("5"), Ok(Number::Int(5)));
    assert_eq!(Number::from_str("-12"), Ok(Number::Int(-12)));
    assert_eq!(Number::from_str("+3"), Ok(Number::Int(3)));
    assert_eq!(Number::from_str("x"), Err(Error::ParseError("x".to_string())));
    assert_eq!(Number::from_str(""), Err(Error::ParseError("".to_string())));
    assert_eq!(Number::from_str("4294967296"), Err(Error::ParseError("4294967296".to_string())));
}

#[test]
fn operands_are_written_and_read() {
    assert_eq!(RegisterOrNumber::Register(Register::R3).to_string(), "r3");
    assert_eq!(RegisterOrNumber::Number(Number::Int(9)).to_string(), "9");
    assert_eq!(RegisterOrNumber::from(Register::Sp), RegisterOrNumber::Register(Register::Sp));
    assert_eq!(RegisterOrNumber::from(Number::Int(1)), RegisterOrNumber::Number(Number::Int(1)));
    assert_eq!(RegisterOrNumber::from_str("r3"), Ok(RegisterOrNumber::Register(Register::R3)));
    assert_eq!(RegisterOrNumber::from_str("sp"), Ok(RegisterOrNumber::Register(Register::Sp)));
    assert_eq!(RegisterOrNumber::from_str("42"), Ok(RegisterOrNumber::Number(Number::Int(42))));
    assert_eq!(RegisterOrNumber::from_str("-1"), Ok(RegisterOrNumber::Number(Number::Int(-1))));
    assert_eq!(RegisterOrNumber::from_str("r99"), Err(Error::ParseError("r99".to_string())));
    assert_eq!(RegisterOrNumber::from_str(""), Err(Error::ParseError("".to_string())));
}

#[test]
fn batch_modes_are_read_by_name_or_number() {
    assert_eq!(BatchMode::from_str("Average"), Ok(BatchMode::Average));
    assert_eq!(BatchMode::from_str("0"), Ok(BatchMode::Average));
    assert_eq!(BatchMode::from_str("Sum"), Ok(BatchMode::Sum));
    assert_eq!(BatchMode::from_str("1"), Ok(BatchMode::Sum));
    assert_eq!(BatchMode::from_str("Minimum"), Ok(BatchMode::Minimum));
    assert_eq!(BatchMode::from_str("2"), Ok(BatchMode::Minimum));
    assert_eq!(BatchMode::from_str("Maximum"), Ok(BatchMode::Maximum));
    assert_eq!(BatchMode::from_str("3"), Ok(BatchMode::Maximum));
    assert_eq!(BatchMode::from_str("4"), Err(Error::ParseError("4".to_string())));
    assert_eq!(BatchMode::from_str("sum"), Err(Error::ParseError("sum".to_string())));
    assert_eq!(BatchMode::Average.to_string(), "Average");
    assert_eq!(BatchMode::Sum.to_string(), "Sum");
    assert_eq!(BatchMode::Minimum.to_string(), "Minimum");
    assert_eq!(BatchMode::Maximum.to_string(), "Maximum");
}

#[test]
fn reagent_modes_are_read_by_name_or_number() {
    assert_eq!(ReagentMode::from_str("Contents"), Ok(ReagentMode::Contents));
    assert_eq!(ReagentMode::from_str("0"), Ok(ReagentMode::Contents));
    assert_eq!(ReagentMode::from_str("Required"), Ok(ReagentMode::Required));
    assert_eq!(ReagentMode::from_str("1"), Ok(ReagentMode::Required));
    assert_eq!(ReagentMode::from_str("Recipe"), Ok(ReagentMode::Recipe));
    assert_eq!(ReagentMode::from_str("2"), Ok(ReagentMode::Recipe));
    assert_eq!(ReagentMode::from_str("3"), Err(Error::ParseError("3".to_string())));
    assert_eq!(ReagentMode::Contents.to_string(), "Contents");
    assert_eq!(ReagentMode::Required.to_string(), "Required");
    assert_eq!(ReagentMode::Recipe.to_string(), "Recipe");
}

#[test]
fn slots_are_read_from_small_numbers() {
    assert_eq!(Slot::from_str("0").unwrap().to_string(), "0");
    assert_eq!(Slot::from_str("7").unwrap().to_string(), "7");
    assert_eq!(Slot::from_str("255").unwrap().to_string(), "255");
    assert_eq!(Slot::from_str("+4").unwrap().to_string(), "4");
    assert_eq!(Slot::from_str("256"), Err(Error::ParseError("256".to_string())));
    assert_eq!(Slot::from_str("-1"), Err(Error::ParseError("-1".to_string())));
    assert_eq!(Slot::from_str("one"), Err(Error::ParseError("one".to_string())));
}

#[test]
fn every_text_is_a_hash_and_a_reagent() {
    assert_eq!(TypeHash::from_str("abc").unwrap().to_string(), "abc");
    assert_eq!(TypeHash::from_str("").unwrap().to_string(), "");
    assert_eq!(Reagent::from_str("Iron").unwrap().to_string(), "Iron");
    assert_eq!(Reagent::from_str("two words").unwrap().to_string(), "two words");
}

#[test]
fn messages_of_the_machine_errors() {
    assert_eq!(Error::Todo.to_string(), "todo");
    assert_eq!(Error::ParseError("d9".to_string()).to_string(), "failed to parse");
}
