//! Reading and writing devices.
use vstd::prelude::*;
use vstd::string::*;
use crate::mips::types::{
    BatchMode, Device, DeviceVariable, Reagent, ReagentMode, Register, RegisterOrNumber, Slot,
    TypeHash,
};
use crate::mips::error::{Error, ErrorView};
use crate::text::{push_word, split_words, texts, words, words3, words4, words5};

verus! {

/// Instructions for interacting with devices.
#[derive(Clone, Debug, PartialEq, Eq)]
pub enum DeviceIo {
    /// branch to line a if device d isn't set
    ///
    /// bdns d? a(r?|num)
    BranchDeviceNotSet {
        device: Device,
        line: RegisterOrNumber,
    },
    /// Jump execution to line a and store next line number if device is not set
    ///
    /// bdnsal d? a(r?|num)
    BranchDeviceNotSetAndLink {
        device: Device,
        line: RegisterOrNumber,
    },
    /// Branch to line a if device d is set
    ///
    /// bdse d? a(r?|num)
    BranchDeviceSet {
        device: Device,
        line: RegisterOrNumber,
    },
    /// Jump execution to line a and store next line number if device is set
    ///
    /// bdseal d? a(r?|num)
    BranchDeviceSetAndLink {
        device: Device,
        line: RegisterOrNumber,
    },
    /// Relative jump to line a if device is not set
    ///
    /// brdns d? a(r?|num)
    BranchRelativeDeviceNotSet {
        device: Device,
        line: RegisterOrNumber,
    },
    /// Relative jump to line a if device is set
    ///
    /// brdse d? a(r?|num)
    BranchRelativeDeviceSet {
        device: Device,
        line: RegisterOrNumber,
    },
    /// Loads device var into register
    ///
    /// l r? d? var
    LoadDeviceVariable {
        register: Register,
        device: Device,
        variable: DeviceVariable,
    },
    /// Loads var from all output network devices with the provided type hash using the provide
    /// batch mode. Average (0), Sum(1), Minimum(2), Maximum(3). Can use either the word, or the
    /// number.
    ///
    /// lb r? type var batchMode
    LoadBatch {
        register: Register,
        type_hash: TypeHash,
        variable: DeviceVariable,
        batch_mode: BatchMode,
    },
    /// Loads reagent lof device's reagentMode to register. Contents(0), Required(1), Recipe(2).
    /// Can use either the word, or the number.
    ///
    /// lr r? d? reagentMode reagent
    LoadReagent {
        register: Register,
        device: Device,
        reagent_mode: ReagentMode,
        reagent: Reagent,
    },
    /// Loads slot var on device to register
    ///
    /// ls r? d? int var
    LoadSlot {
        register: Register,
        device: Device,
        slot: Slot,
        variable: DeviceVariable,
    },
    /// Stores register to var on device
    ///
    /// s d? var r?
    StoreDeviceVariable {
        device: Device,
        variable: DeviceVariable,
        register: Register,
    },
    /// Stores register value to var on all output network devices with the provided type hash.
    ///
    /// sb type var r?
    StoreBatch {
        type_hash: TypeHash,
        variable: DeviceVariable,
        register: Register,
    },
}

impl DeviceIo {
    /// The line of assembly that the instruction is written as.
    pub open spec fn text(self) -> Seq<char> {
        match self {
            DeviceIo::BranchDeviceNotSet { device, line } => {
                words3("bdns"@, device.text(), line.text())
            },
            DeviceIo::BranchDeviceNotSetAndLink { device, line } => {
                words3("bdnsal"@, device.text(), line.text())
            },
            DeviceIo::BranchDeviceSet { device, line } => {
                words3("bdse"@, device.text(), line.text())
            },
            DeviceIo::BranchDeviceSetAndLink { device, line } => {
                words3("bdseal"@, device.text(), line.text())
            },
            DeviceIo::BranchRelativeDeviceNotSet { device, line } => {
                words3("brdns"@, device.text(), line.text())
            },
            DeviceIo::BranchRelativeDeviceSet { device, line } => {
                words3("brdse"@, device.text(), line.text())
            },
            DeviceIo::LoadDeviceVariable { register, device, variable } => {
                words4("l"@, register.text(), device.text(), variable.text())
            },
            DeviceIo::LoadBatch { register, type_hash, variable, batch_mode } => {
                words5("lb"@, register.text(), type_hash.text(), variable.text(), batch_mode.text())
            },
            DeviceIo::LoadReagent { register, device, reagent_mode, reagent } => {
                words5("lr"@, register.text(), device.text(), reagent_mode.text(), reagent.text())
            },
            DeviceIo::LoadSlot { register, device, slot, variable } => {
                words5("ls"@, register.text(), device.text(), slot.text(), variable.text())
            },
            DeviceIo::StoreDeviceVariable { device, variable, register } => {
                words4("s"@, device.text(), variable.text(), register.text())
            },
            DeviceIo::StoreBatch { type_hash, variable, register } => {
                words4("sb"@, type_hash.text(), variable.text(), register.text())
            },
        }
    }

    /// Writes the instruction as a line of assembly.
    pub fn to_string(&self) -> (r: String)
        ensures
            r@ == self.text(),
    {
        match self {
            DeviceIo::BranchDeviceNotSet { device, line } => {
                let mut out = "bdns".to_string();
                push_word(&mut out, device.to_string().as_str());
                push_word(&mut out, line.to_string().as_str());
                out
            },
            DeviceIo::BranchDeviceNotSetAndLink { device, line } => {
                let mut out = "bdnsal".to_string();
                push_word(&mut out, device.to_string().as_str());
                push_word(&mut out, line.to_string().as_str());
                out
            },
            DeviceIo::BranchDeviceSet { device, line } => {
                let mut out = "bdse".to_string();
                push_word(&mut out, device.to_string().as_str());
                push_word(&mut out, line.to_string().as_str());
                out
            },
            DeviceIo::BranchDeviceSetAndLink { device, line } => {
                let mut out = "bdseal".to_string();
                push_word(&mut out, device.to_string().as_str());
                push_word(&mut out, line.to_string().as_str());
                out
            },
            DeviceIo::BranchRelativeDeviceNotSet { device, line } => {
                let mut out = "brdns".to_string();
                push_word(&mut out, device.to_string().as_str());
                push_word(&mut out, line.to_string().as_str());
                out
            },
            DeviceIo::BranchRelativeDeviceSet { device, line } => {
                let mut out = "brdse".to_string();
                push_word(&mut out, device.to_string().as_str());
                push_word(&mut out, line.to_string().as_str());
                out
            },
            DeviceIo::LoadDeviceVariable { register, device, variable } => {
                let mut out = "l".to_string();
                push_word(&mut out, register.to_string().as_str());
                push_word(&mut out, device.to_string().as_str());
                push_word(&mut out, variable.to_string().as_str());
                out
            },
            DeviceIo::LoadBatch { register, type_hash, variable, batch_mode } => {
                let mut out = "lb".to_string();
                push_word(&mut out, register.to_string().as_str());
                push_word(&mut out, type_hash.to_string().as_str());
                push_word(&mut out, variable.to_string().as_str());
                push_word(&mut out, batch_mode.to_string().as_str());
                out
            },
            DeviceIo::LoadReagent { register, device, reagent_mode, reagent } => {
                let mut out = "lr".to_string();
                push_word(&mut out, register.to_string().as_str());
                push_word(&mut out, device.to_string().as_str());
                push_word(&mut out, reagent_mode.to_string().as_str());
                push_word(&mut out, reagent.to_string().as_str());
                out
            },
            DeviceIo::LoadSlot { register, device, slot, variable } => {
                let mut out = "ls".to_string();
                push_word(&mut out, register.to_string().as_str());
                push_word(&mut out, device.to_string().as_str());
                push_word(&mut out, slot.to_string().as_str());
                push_word(&mut out, variable.to_string().as_str());
                out
            },
            DeviceIo::StoreDeviceVariable { device, variable, register } => {
                let mut out = "s".to_string();
                push_word(&mut out, device.to_string().as_str());
                push_word(&mut out, variable.to_string().as_str());
                push_word(&mut out, register.to_string().as_str());
                out
            },
            DeviceIo::StoreBatch { type_hash, variable, register } => {
                let mut out = "sb".to_string();
                push_word(&mut out, type_hash.to_string().as_str());
                push_word(&mut out, variable.to_string().as_str());
                push_word(&mut out, register.to_string().as_str());
                out
            },
        }
    }
}

/// The text of an operand: the word with the given index, or an error that
/// carries the whole line where the line has no such word.
pub open spec fn operand_text(line: Seq<char>, index: int) -> Result<Seq<char>, ErrorView> {
    if index < words(line).len() {
        Ok(words(line)[index])
    } else {
        Err(ErrorView::ParseError(line))
    }
}

/// The device that the word with the given index names, or the error of a
/// word that is missing or names none.
pub open spec fn device_operand(line: Seq<char>, index: int) -> Result<Device, ErrorView> {
    match operand_text(line, index) {
        Err(e) => Err(e),
        Ok(word) => match Device::parse(word) {
            Some(device) => Ok(device),
            None => Err(ErrorView::ParseError(word)),
        },
    }
}

/// The register or number that the word with the given index names, or
/// the error of a word that is missing or names none.
pub open spec fn line_operand(line: Seq<char>, index: int) -> Result<RegisterOrNumber, ErrorView> {
    match operand_text(line, index) {
        Err(e) => Err(e),
        Ok(word) => match RegisterOrNumber::parse(word) {
            Some(operand) => Ok(operand),
            None => Err(ErrorView::ParseError(word)),
        },
    }
}

/// The register that the word with the given index names, or the error of
/// a word that is missing or names none.
pub open spec fn register_operand(line: Seq<char>, index: int) -> Result<Register, ErrorView> {
    match operand_text(line, index) {
        Err(e) => Err(e),
        Ok(word) => match Register::parse(word) {
            Some(register) => Ok(register),
            None => Err(ErrorView::ParseError(word)),
        },
    }
}

/// The device variable that the word with the given index names, or the
/// error of a word that is missing or names none.
pub open spec fn variable_operand(line: Seq<char>, index: int) -> Result<DeviceVariable, ErrorView> {
    match operand_text(line, index) {
        Err(e) => Err(e),
        Ok(word) => match DeviceVariable::parse(word) {
            Some(variable) => Ok(variable),
            None => Err(ErrorView::ParseError(word)),
        },
    }
}

/// The branch on a device with the given mnemonic, if it is one.
pub open spec fn device_branch(command: Seq<char>, device: Device, line: RegisterOrNumber) -> Option<
    DeviceIo,
> {
    if command == "bdns"@ {
        Some(DeviceIo::BranchDeviceNotSet { device, line })
    } else if command == "bdnsal"@ {
        Some(DeviceIo::BranchDeviceNotSetAndLink { device, line })
    } else if command == "bdse"@ {
        Some(DeviceIo::BranchDeviceSet { device, line })
    } else if command == "bdseal"@ {
        Some(DeviceIo::BranchDeviceSetAndLink { device, line })
    } else if command == "brdns"@ {
        Some(DeviceIo::BranchRelativeDeviceNotSet { device, line })
    } else if command == "brdse"@ {
        Some(DeviceIo::BranchRelativeDeviceSet { device, line })
    } else {
        None
    }
}

/// A result with its error as a value of the model.
pub open spec fn parsed_view(r: Result<DeviceIo, Error>) -> Result<DeviceIo, ErrorView> {
    match r {
        Ok(instruction) => Ok(instruction),
        Err(e) => Err(e@),
    }
}

impl DeviceIo {
    /// The instruction that a line of assembly is read as. The first word
    /// is the mnemonic and the words after it are the operands, in the
    /// order in which they are written; words that follow the operands
    /// count for nothing. The six branches on a device and the load of a
    /// device variable are read. A line without a word is a parse error
    /// that carries the line, as is a missing operand; an operand that
    /// cannot be read is a parse error that carries the operand. Any other
    /// mnemonic is not supported.
    pub open spec fn parse(line: Seq<char>) -> Result<DeviceIo, ErrorView> {
        if words(line).len() == 0 {
            Err(ErrorView::ParseError(line))
        } else if device_branch(words(line)[0], Device::D0, RegisterOrNumber::Register(Register::R0))
            is Some {
            match device_operand(line, 1) {
                Err(e) => Err(e),
                Ok(device) => match line_operand(line, 2) {
                    Err(e) => Err(e),
                    Ok(target) => Ok(device_branch(words(line)[0], device, target)->Some_0),
                },
            }
        } else if words(line)[0] == "l"@ {
            match register_operand(line, 1) {
                Err(e) => Err(e),
                Ok(register) => match device_operand(line, 2) {
                    Err(e) => Err(e),
                    Ok(device) => match variable_operand(line, 3) {
                        Err(e) => Err(e),
                        Ok(variable) => Ok(
                            DeviceIo::LoadDeviceVariable { register, device, variable },
                        ),
                    },
                },
            }
        } else {
            Err(ErrorView::Todo)
        }
    }

    /// Reads an instruction from a line of assembly.
    pub fn from_str(s: &str) -> (r: Result<DeviceIo, Error>)
        ensures
            parsed_view(r) == DeviceIo::parse(s@),
    {
        let parts = split_words(s);
        if parts.len() == 0 {
            return Err(Error::ParseError(s.to_string()));
        }
        assert(texts(parts@)[0] == parts[0]@);
        let command = parts[0].as_str();
        if command.eq("bdns") || command.eq("bdnsal") || command.eq("bdse") || command.eq("bdseal")
            || command.eq("brdns") || command.eq("brdse") {
            let device = match read_device(s, &parts, 1) {
                Ok(device) => device,
                Err(e) => {
                    return Err(e);
                },
            };
            let line = match read_line(s, &parts, 2) {
                Ok(line) => line,
                Err(e) => {
                    return Err(e);
                },
            };
            if command.eq("bdns") {
                Ok(DeviceIo::BranchDeviceNotSet { device, line })
            } else if command.eq("bdnsal") {
                Ok(DeviceIo::BranchDeviceNotSetAndLink { device, line })
            } else if command.eq("bdse") {
                Ok(DeviceIo::BranchDeviceSet { device, line })
            } else if command.eq("bdseal") {
                Ok(DeviceIo::BranchDeviceSetAndLink { device, line })
            } else if command.eq("brdns") {
                Ok(DeviceIo::BranchRelativeDeviceNotSet { device, line })
            } else {
                Ok(DeviceIo::BranchRelativeDeviceSet { device, line })
            }
        } else if command.eq("l") {
            let register = match read_register(s, &parts, 1) {
                Ok(register) => register,
                Err(e) => {
                    return Err(e);
                },
            };
            let device = match read_device(s, &parts, 2) {
                Ok(device) => device,
                Err(e) => {
                    return Err(e);
                },
            };
            let variable = match read_variable(s, &parts, 3) {
                Ok(variable) => variable,
                Err(e) => {
                    return Err(e);
                },
            };
            Ok(DeviceIo::LoadDeviceVariable { register, device, variable })
        } else {
            Err(Error::Todo)
        }
    }
}

/// Reads the operand with the given index as a device.
fn read_device(s: &str, parts: &Vec<String>, index: usize) -> (r: Result<Device, Error>)
    requires
        texts(parts@) == words(s@),
    ensures
        match r {
            Ok(device) => device_operand(s@, index as int) == Ok::<Device, ErrorView>(device),
            Err(e) => device_operand(s@, index as int) == Err::<Device, ErrorView>(e@),
        },
{
    if index < parts.len() {
        assert(texts(parts@)[index as int] == parts[index as int]@);
        Device::from_str(parts[index].as_str())
    } else {
        Err(Error::ParseError(s.to_string()))
    }
}

/// Reads the operand with the given index as a register or a number.
fn read_line(s: &str, parts: &Vec<String>, index: usize) -> (r: Result<RegisterOrNumber, Error>)
    requires
        texts(parts@) == words(s@),
    ensures
        match r {
            Ok(operand) => line_operand(s@, index as int) == Ok::<RegisterOrNumber, ErrorView>(
                operand,
            ),
            Err(e) => line_operand(s@, index as int) == Err::<RegisterOrNumber, ErrorView>(e@),
        },
{
    if index < parts.len() {
        assert(texts(parts@)[index as int] == parts[index as int]@);
        RegisterOrNumber::from_str(parts[index].as_str())
    } else {
        Err(Error::ParseError(s.to_string()))
    }
}

/// Reads the operand with the given index as a register.
fn read_register(s: &str, parts: &Vec<String>, index: usize) -> (r: Result<Register, Error>)
    requires
        texts(parts@) == words(s@),
    ensures
        match r {
            Ok(register) => register_operand(s@, index as int) == Ok::<Register, ErrorView>(
                register,
            ),
            Err(e) => register_operand(s@, index as int) == Err::<Register, ErrorView>(e@),
        },
{
    if index < parts.len() {
        assert(texts(parts@)[index as int] == parts[index as int]@);
        Register::from_str(parts[index].as_str())
    } else {
        Err(Error::ParseError(s.to_string()))
    }
}

/// Reads the operand with the given index as a device variable.
fn read_variable(s: &str, parts: &Vec<String>, index: usize) -> (r: Result<DeviceVariable, Error>)
    requires
        texts(parts@) == words(s@),
    ensures
        match r {
            Ok(variable) => variable_operand(s@, index as int) == Ok::<DeviceVariable, ErrorView>(
                variable,
            ),
            Err(e) => variable_operand(s@, index as int) == Err::<DeviceVariable, ErrorView>(e@),
        },
{
    if index < parts.len() {
        assert(texts(parts@)[index as int] == parts[index as int]@);
        DeviceVariable::from_str(parts[index].as_str())
    } else {
        Err(Error::ParseError(s.to_string()))
    }
}

} // verus!
