//! The instructions of the machine, by family.
use vstd::prelude::*;

mod flow;
mod io;
mod logic;
mod math;
mod misc;
mod stack;
mod variable;

pub use flow::FlowControl;
pub use io::DeviceIo;
pub use logic::Logic;
pub use math::Arithmetic;
pub use misc::Misc;
pub use stack::Stack;
pub use variable::VariableSelection;

verus! {

/// One line of a program for the machine.
#[derive(Clone, Debug, PartialEq, Eq)]
pub enum Instruction {
    DeviceIo(DeviceIo),
    FlowControl(FlowControl),
    VariableSelection(VariableSelection),
    Arithmetic(Arithmetic),
    Logic(Logic),
    Stack(Stack),
    Misc(Misc),
}

impl Instruction {
    /// The line of assembly that the instruction is written as.
    pub open spec fn text(self) -> Seq<char> {
        match self {
            Instruction::DeviceIo(device_io) => device_io.text(),
            Instruction::FlowControl(flow_control) => flow_control.text(),
            Instruction::VariableSelection(variable_selection) => variable_selection.text(),
            Instruction::Arithmetic(arithmetic) => arithmetic.text(),
            Instruction::Logic(logic) => logic.text(),
            Instruction::Stack(stack) => stack.text(),
            Instruction::Misc(misc) => misc.text(),
        }
    }

    /// Writes the instruction as a line of assembly.
    pub fn to_string(&self) -> (r: String)
        ensures
            r@ == self.text(),
    {
        match self {
            Instruction::DeviceIo(device_io) => device_io.to_string(),
            Instruction::FlowControl(flow_control) => flow_control.to_string(),
            Instruction::VariableSelection(variable_selection) => variable_selection.to_string(),
            Instruction::Arithmetic(arithmetic) => arithmetic.to_string(),
            Instruction::Logic(logic) => logic.to_string(),
            Instruction::Stack(stack) => stack.to_string(),
            Instruction::Misc(misc) => misc.to_string(),
        }
    }
}

impl From<DeviceIo> for Instruction {
    fn from(device_io: DeviceIo) -> (r: Instruction) {
        Instruction::DeviceIo(device_io)
    }
}

impl vstd::std_specs::convert::FromSpecImpl<DeviceIo> for Instruction {
    open spec fn obeys_from_spec() -> bool {
        true
    }

    open spec fn from_spec(device_io: DeviceIo) -> Instruction {
        Instruction::DeviceIo(device_io)
    }
}

impl From<FlowControl> for Instruction {
    fn from(flow_control: FlowControl) -> (r: Instruction) {
        Instruction::FlowControl(flow_control)
    }
}

impl vstd::std_specs::convert::FromSpecImpl<FlowControl> for Instruction {
    open spec fn obeys_from_spec() -> bool {
        true
    }

    open spec fn from_spec(flow_control: FlowControl) -> Instruction {
        Instruction::FlowControl(flow_control)
    }
}

impl From<VariableSelection> for Instruction {
    fn from(variable_selection: VariableSelection) -> (r: Instruction) {
        Instruction::VariableSelection(variable_selection)
    }
}

impl vstd::std_specs::convert::FromSpecImpl<VariableSelection> for Instruction {
    open spec fn obeys_from_spec() -> bool {
        true
    }

    open spec fn from_spec(variable_selection: VariableSelection) -> Instruction {
        Instruction::VariableSelection(variable_selection)
    }
}

impl From<Arithmetic> for Instruction {
    fn from(arithmetic: Arithmetic) -> (r: Instruction) {
        Instruction::Arithmetic(arithmetic)
    }
}

impl vstd::std_specs::convert::FromSpecImpl<Arithmetic> for Instruction {
    open spec fn obeys_from_spec() -> bool {
        true
    }

    open spec fn from_spec(arithmetic: Arithmetic) -> Instruction {
        Instruction::Arithmetic(arithmetic)
    }
}

impl From<Logic> for Instruction {
    fn from(logic: Logic) -> (r: Instruction) {
        Instruction::Logic(logic)
    }
}

impl vstd::std_specs::convert::FromSpecImpl<Logic> for Instruction {
    open spec fn obeys_from_spec() -> bool {
        true
    }

    open spec fn from_spec(logic: Logic) -> Instruction {
        Instruction::Logic(logic)
    }
}

impl From<Stack> for Instruction {
    fn from(stack: Stack) -> (r: Instruction) {
        Instruction::Stack(stack)
    }
}

impl vstd::std_specs::convert::FromSpecImpl<Stack> for Instruction {
    open spec fn obeys_from_spec() -> bool {
        true
    }

    open spec fn from_spec(stack: Stack) -> Instruction {
        Instruction::Stack(stack)
    }
}

impl From<Misc> for Instruction {
    fn from(misc: Misc) -> (r: Instruction) {
        Instruction::Misc(misc)
    }
}

impl vstd::std_specs::convert::FromSpecImpl<Misc> for Instruction {
    open spec fn obeys_from_spec() -> bool {
        true
    }

    open spec fn from_spec(misc: Misc) -> Instruction {
        Instruction::Misc(misc)
    }
}

} // verus!
