use ayysee::mips::error::Error;
use ayysee::mips::instructions::{
    Arithmetic, DeviceIo, FlowControl, Instruction, Logic, Misc, Stack, VariableSelection,
};
use ayysee::mips::types::{
    BatchMode, Device, DeviceVariable, Number, Reagent, ReagentMode, Register, RegisterOrNumber,
    Slot, TypeHash,
};

fn reg(register: Register) -> RegisterOrNumber {
    RegisterOrNumber::Register(register)
}

fn num(value: i32) -> RegisterOrNumber {
    RegisterOrNumber::Number(Number::Int(value))
}

#[test]
fn serde_device_io_bdns() {
    let instruction = Instruction::DeviceIo(DeviceIo::BranchDeviceNotSet {
        device: Device::D0,
        line: RegisterOrNumber::Number(Number::Int(5)),
    });

    let instruction_str = format!("{}", instruction.to_string());
    println!("{}", instruction_str);

    assert_eq!(
        instruction_str, "bdns d0 5",
        "Instruction string does not match expected"
    );
}

#[test]
fn arithmetic_is_written() {
    let add = Arithmetic::Add { register: Register::R0, a: reg(Register::R0), b: reg(Register::R1) };
    assert_eq!(add.to_string(), "add r0 r0 r1");
    let sub = Arithmetic::Subtract { register: Register::Sp, a: reg(Register::Sp), b: num(3) };
    assert_eq!(sub.to_string(), "sub sp sp 3");
    let mul = Arithmetic::Multiply { register: Register::R2, a: num(-2), b: reg(Register::R9) };
    assert_eq!(mul.to_string(), "mul r2 -2 r9");
    let div = Arithmetic::Divide { register: Register::R0, a: reg(Register::R0), b: reg(Register::R1) };
    assert_eq!(div.to_string(), "div r0 r0 r1");
    assert_eq!(Arithmetic::AbsoluteValue { register: Register::R1, a: num(4) }.to_string(), "abs r1 4");
    assert_eq!(Arithmetic::Random { register: Register::R15 }.to_string(), "rand r15");
    assert_eq!(Arithmetic::Truncate { register: Register::R1, a: reg(Register::R2) }.to_string(), "trunc r1 r2");
    assert_eq!(
        Arithmetic::Mod { register: Register::R1, a: reg(Register::R2), b: num(7) }.to_string(),
        "mod r1 r2 7"
    );
    let half = RegisterOrNumber::Number(Number::Float("0.5".to_string()));
    assert_eq!(Arithmetic::SquareRoot { register: Register::R0, a: half }.to_string(), "sqrt r0 0.5");
    assert_eq!(Instruction::from(add).to_string(), "add r0 r0 r1");
}

#[test]
fn flow_control_is_written() {
    assert_eq!(FlowControl::Jump { a: 3 }.to_string(), "j 3");
    assert_eq!(FlowControl::JumpAndLink { a: 15 }.to_string(), "jal 15");
    assert_eq!(FlowControl::JumpRelative { a: -2 }.to_string(), "jr -2");
    assert_eq!(
        FlowControl::BranchEqualZero { a: num(0), b: reg(Register::Ra) }.to_string(),
        "beqz 0 ra"
    );
    assert_eq!(
        FlowControl::BranchEqual { a: reg(Register::R0), b: reg(Register::R1), c: num(9) }.to_string(),
        "beq r0 r1 9"
    );
    assert_eq!(
        FlowControl::BranchGreaterThan { a: reg(Register::R0), b: reg(Register::R1), c: num(0) }
            .to_string(),
        "bgt r0 r1 0"
    );
    assert_eq!(
        FlowControl::BranchLessThan { a: reg(Register::R0), b: reg(Register::R1), c: num(0) }
            .to_string(),
        "blt r0 r1 0"
    );
    assert_eq!(
        FlowControl::BranchAbsoluteLessThan {
            a: reg(Register::R0),
            b: reg(Register::R1),
            c: num(2),
            d: num(3)
        }
        .to_string(),
        "bap r0 r1 2 3"
    );
    assert_eq!(
        FlowControl::BranchNotApproximatelyZeroAndLink { a: num(1), b: num(2), c: num(3) }.to_string(),
        "bnazal 1 2 3"
    );
    assert_eq!(
        FlowControl::RelativeBranchNotEqualZero { a: reg(Register::R4), b: num(-1) }.to_string(),
        "brnez r4 -1"
    );
    assert_eq!(
        Instruction::FlowControl(FlowControl::BranchLessOrEqualZeroAndLink { a: num(1), b: num(2) })
            .to_string(),
        "blezal 1 2"
    );
}

#[test]
fn stack_instructions_are_written() {
    assert_eq!(Stack::Push { a: reg(Register::R0) }.to_string(), "push r0");
    assert_eq!(Stack::Push { a: num(0) }.to_string(), "push 0");
    assert_eq!(Stack::Pop { register: Register::Ra }.to_string(), "pop ra");
    assert_eq!(Stack::Peek { register: Register::R0 }.to_string(), "peek r0");
    assert_eq!(Instruction::from(Stack::Peek { register: Register::R0 }).to_string(), "peek r0");
}

#[test]
fn other_lines_are_written() {
    assert_eq!(Misc::Label { name: "main".to_string() }.to_string(), "main:");
    assert_eq!(Misc::Comment { comment: "saving registers".to_string() }.to_string(), "# saving registers");
    assert_eq!(
        Misc::Alias { name: "sensor".to_string(), target: "d2".to_string() }.to_string(),
        "alias sensor d2"
    );
    assert_eq!(
        Misc::Define { name: "limit".to_string(), value: Number::Int(3) }.to_string(),
        "define limit 3"
    );
    assert_eq!(Misc::Halt.to_string(), "hcf");
    assert_eq!(Misc::Yield.to_string(), "yield");
    assert_eq!(Misc::Move { register: Register::R1, a: num(2) }.to_string(), "move r1 2");
    assert_eq!(Misc::Sleep { a: reg(Register::R3) }.to_string(), "sleep r3");
    assert_eq!(Instruction::from(Misc::Yield).to_string(), "yield");
}

#[test]
fn logic_and_selection_are_written() {
    assert_eq!(
        Logic::And { register: Register::R0, a: reg(Register::R1), b: num(1) }.to_string(),
        "and r0 r1 1"
    );
    assert_eq!(
        Logic::Nor { register: Register::R0, a: reg(Register::R1), b: num(1) }.to_string(),
        "nor r0 r1 1"
    );
    assert_eq!(
        Logic::Or { register: Register::R0, a: reg(Register::R1), b: num(1) }.to_string(),
        "or r0 r1 1"
    );
    assert_eq!(
        Logic::Xor { register: Register::R0, a: reg(Register::R1), b: num(1) }.to_string(),
        "xor r0 r1 1"
    );
    assert_eq!(
        VariableSelection::Select {
            register: Register::R0,
            a: reg(Register::R1),
            b: num(2),
            c: num(3)
        }
        .to_string(),
        "select r0 r1 2 3"
    );
    assert_eq!(
        VariableSelection::SelectEqual { register: Register::R0, a: num(1), b: num(1) }.to_string(),
        "seq r0 1 1"
    );
    assert_eq!(
        VariableSelection::SelectEqualZero { register: Register::R5, a: reg(Register::R6) }.to_string(),
        "seqz r5 r6"
    );
    assert_eq!(
        Instruction::from(Logic::Xor { register: Register::R0, a: num(0), b: num(1) }).to_string(),
        "xor r0 0 1"
    );
}

#[test]
fn device_instructions_are_written() {
    assert_eq!(
        DeviceIo::LoadDeviceVariable {
            register: Register::R0,
            device: Device::D2,
            variable: DeviceVariable::Temperature
        }
        .to_string(),
        "l r0 d2 Temperature"
    );
    assert_eq!(
        DeviceIo::StoreDeviceVariable {
            device: Device::D1,
            variable: DeviceVariable::Setting,
            register: Register::R0
        }
        .to_string(),
        "s d1 Setting r0"
    );
    assert_eq!(
        DeviceIo::LoadBatch {
            register: Register::R1,
            type_hash: TypeHash::from_str("12345").unwrap(),
            variable: DeviceVariable::Pressure,
            batch_mode: BatchMode::Sum
        }
        .to_string(),
        "lb r1 12345 Pressure Sum"
    );
    assert_eq!(
        DeviceIo::LoadReagent {
            register: Register::R1,
            device: Device::D0,
            reagent_mode: ReagentMode::Recipe,
            reagent: Reagent::from_str("Iron").unwrap()
        }
        .to_string(),
        "lr r1 d0 Recipe Iron"
    );
    assert_eq!(
        DeviceIo::LoadSlot {
            register: Register::R1,
            device: Device::D5,
            slot: Slot::from_str("3").unwrap(),
            variable: DeviceVariable::Quantity
        }
        .to_string(),
        "ls r1 d5 3 Quantity"
    );
    assert_eq!(
        DeviceIo::StoreBatch {
            type_hash: TypeHash::from_str("h").unwrap(),
            variable: DeviceVariable::On,
            register: Register::R2
        }
        .to_string(),
        "sb h On r2"
    );
    assert_eq!(
        DeviceIo::BranchRelativeDeviceSet { device: Device::D3, line: reg(Register::R1) }.to_string(),
        "brdse d3 r1"
    );
}

#[test]
fn device_branches_are_read() {
    assert_eq!(
        DeviceIo::from_str("bdns d0 5"),
        Ok(DeviceIo::BranchDeviceNotSet { device: Device::D0, line: num(5) })
    );
    assert_eq!(
        DeviceIo::from_str("bdnsal d1 r2"),
        Ok(DeviceIo::BranchDeviceNotSetAndLink { device: Device::D1, line: reg(Register::R2) })
    );
    assert_eq!(
        DeviceIo::from_str("bdse d2 -3"),
        Ok(DeviceIo::BranchDeviceSet { device: Device::D2, line: num(-3) })
    );
    assert_eq!(
        DeviceIo::from_str("bdseal d3 ra"),
        Ok(DeviceIo::BranchDeviceSetAndLink { device: Device::D3, line: reg(Register::Ra) })
    );
    assert_eq!(
        DeviceIo::from_str("brdns d4 0"),
        Ok(DeviceIo::BranchRelativeDeviceNotSet { device: Device::D4, line: num(0) })
    );
    assert_eq!(
        DeviceIo::from_str("brdse d5 7"),
        Ok(DeviceIo::BranchRelativeDeviceSet { device: Device::D5, line: num(7) })
    );
    assert_eq!(
        DeviceIo::from_str("  bdns\td0   r1  and more "),
        Ok(DeviceIo::BranchDeviceNotSet { device: Device::D0, line: reg(Register::R1) })
    );
}

#[test]
fn a_load_is_read() {
    assert_eq!(
        DeviceIo::from_str("l r0 d1 Temperature"),
        Ok(DeviceIo::LoadDeviceVariable {
            register: Register::R0,
            device: Device::D1,
            variable: DeviceVariable::Temperature
        })
    );
    let line = DeviceIo::from_str("l r3 d5 Horizontal").unwrap();
    assert_eq!(line.to_string(), "l r3 d5 Horizontal");
}

#[test]
fn a_line_that_cannot_be_read_is_an_error() {
    assert_eq!(DeviceIo::from_str(""), Err(Error::ParseError("".to_string())));
    assert_eq!(DeviceIo::from_str("   "), Err(Error::ParseError("   ".to_string())));
    assert_eq!(DeviceIo::from_str("bdns"), Err(Error::ParseError("bdns".to_string())));
    assert_eq!(DeviceIo::from_str("bdns d0"), Err(Error::ParseError("bdns d0".to_string())));
    assert_eq!(DeviceIo::from_str("bdns dx 5"), Err(Error::ParseError("dx".to_string())));
    assert_eq!(DeviceIo::from_str("bdns d0 zz"), Err(Error::ParseError("zz".to_string())));
    assert_eq!(DeviceIo::from_str("bdns d0 1.5"), Err(Error::ParseError("1.5".to_string())));
    assert_eq!(DeviceIo::from_str("l r0 d1"), Err(Error::ParseError("l r0 d1".to_string())));
    assert_eq!(DeviceIo::from_str("l d1 r0 On"), Err(Error::ParseError("d1".to_string())));
    assert_eq!(DeviceIo::from_str("l r0 d1 Bogus"), Err(Error::ParseError("Bogus".to_string())));
    assert_eq!(DeviceIo::from_str("s d1 Setting r0"), Err(Error::Todo));
    assert_eq!(DeviceIo::from_str("yield"), Err(Error::Todo));
}
