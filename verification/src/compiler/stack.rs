//! The compiler's picture of the machine's stack: how far the stack
//! pointer stands from where it stood at first, where each variable lives,
//! and the counters that name loops and conditionals.
use vstd::prelude::*;
use vstd::string::*;
use crate::compiler::codegen::CodeGenerator;
use crate::compiler::util::{pop_line, push_line, stack_pop, stack_push};
use crate::compiler::Location;
use crate::mips::types::{Register, RegisterOrNumber};
use crate::strmap::StrMap;
use crate::text::{concat2, decimal, int_to_string};

verus! {

/// The name of the loop with the given number.
pub open spec fn loop_name(number: i32) -> Seq<char> {
    "loop_"@ + decimal(number as int)
}

/// The name of the conditional with the given number.
pub open spec fn if_name(number: i32) -> Seq<char> {
    "if_"@ + decimal(number as int)
}

/// The state of a `Stack`.
pub struct StackModel {
    /// The distance of the stack pointer from where it stood at first.
    pub sp_offset: i32,
    /// Where each variable lives.
    pub locals: Map<Seq<char>, Location>,
    /// The registers that the call being lowered has saved, oldest first.
    pub saved_registers: Seq<Register>,
    /// The names of the loops that are open, outermost first.
    pub loops: Seq<Seq<char>>,
    /// The number of the next loop.
    pub loop_counter: i32,
    /// The number of the next conditional.
    pub if_counter: i32,
}

impl StackModel {
    /// No variable, nothing saved, no loop open, all counts at zero.
    pub open spec fn empty() -> StackModel {
        StackModel {
            sp_offset: 0,
            locals: Map::empty(),
            saved_registers: Seq::empty(),
            loops: Seq::empty(),
            loop_counter: 0,
            if_counter: 0,
        }
    }

    /// Makes room for a variable on top of the stack.
    pub open spec fn allocate_local(self, name: Seq<char>) -> StackModel {
        StackModel {
            sp_offset: self.sp_offset.wrapping_add(1),
            locals: self.locals.insert(name, Location::Stack(self.sp_offset.wrapping_add(1))),
            ..self
        }
    }

    /// Records a variable that has its place already, and counts no slot
    /// for it.
    pub open spec fn allocate_local_at(self, name: Seq<char>, location: Location) -> StackModel {
        StackModel { locals: self.locals.insert(name, location), ..self }
    }

    /// Forgets a variable and gives up one slot.
    pub open spec fn deallocate_local(self, name: Seq<char>) -> StackModel {
        StackModel {
            sp_offset: self.sp_offset.wrapping_sub(1),
            locals: self.locals.remove(name),
            ..self
        }
    }

    /// Counts one slot for a saved register.
    pub open spec fn save_register(self, register: Register) -> StackModel {
        StackModel {
            sp_offset: self.sp_offset.wrapping_add(1),
            saved_registers: self.saved_registers.push(register),
            ..self
        }
    }

    /// Gives up the slot of the register that was saved last.
    pub open spec fn restore_register(self) -> StackModel {
        StackModel {
            sp_offset: self.sp_offset.wrapping_sub(1),
            saved_registers: if self.saved_registers.len() > 0 {
                self.saved_registers.drop_last()
            } else {
                self.saved_registers
            },
            ..self
        }
    }

    /// Opens the next loop under its name.
    pub open spec fn new_loop(self) -> StackModel {
        StackModel {
            loops: self.loops.push(loop_name(self.loop_counter)),
            loop_counter: self.loop_counter.wrapping_add(1),
            ..self
        }
    }

    /// Counts the next conditional.
    pub open spec fn new_if(self) -> StackModel {
        StackModel { if_counter: self.if_counter.wrapping_add(1), ..self }
    }

    /// Closes the innermost loop.
    pub open spec fn end_loop(self) -> StackModel {
        StackModel {
            loops: if self.loops.len() > 0 {
                self.loops.drop_last()
            } else {
                self.loops
            },
            ..self
        }
    }

    /// Starts the counting of loops and conditionals anew.
    pub open spec fn clear(self) -> StackModel {
        StackModel { loop_counter: 0, if_counter: 0, ..self }
    }
}

/// Utility struct for managing the stack.
pub struct Stack {
    rsp_offset: i32,
    locals: StrMap<Location>,
    saved_registers: Vec<Register>,
    /// Keeps track of the loops that are currently active.
    loops: Vec<String>,
    loop_counter: i32,
    if_counter: i32,
}

impl View for Stack {
    type V = StackModel;

    closed spec fn view(&self) -> StackModel {
        StackModel {
            sp_offset: self.rsp_offset,
            locals: self.locals@,
            saved_registers: self.saved_registers@,
            loops: self.loops@.map_values(|name: String| name@),
            loop_counter: self.loop_counter,
            if_counter: self.if_counter,
        }
    }
}

impl Stack {
    pub fn new() -> (r: Self)
        ensures
            r@ == StackModel::empty(),
    {
        let r = Stack {
            rsp_offset: 0,
            locals: StrMap::new(),
            saved_registers: Vec::new(),
            loops: Vec::new(),
            loop_counter: 0,
            if_counter: 0,
        };
        assert(r@.loops =~= Seq::empty());
        r
    }

    /// Where the variable lives, if it is known.
    pub fn get_local(&self, name: &str) -> (r: Option<Location>)
        ensures
            r == if self@.locals.dom().contains(name@) {
                Some(self@.locals[name@])
            } else {
                None
            },
    {
        match self.locals.get(name) {
            Some(location) => Some(*location),
            None => None,
        }
    }

    /// Tells whether the variable is known.
    pub fn has_local(&self, name: &str) -> (r: bool)
        ensures
            r == self@.locals.dom().contains(name@),
    {
        self.locals.contains_key(name)
    }

    /// The distance of the stack pointer from where it stood at first.
    pub fn sp_offset(&self) -> (r: i32)
        ensures
            r == self@.sp_offset,
    {
        self.rsp_offset
    }

    /// Allocates space on the stack for a local variable.
    pub fn allocate_local(&mut self, name: String)
        ensures
            final(self)@ == old(self)@.allocate_local(name@),
    {
        self.rsp_offset = self.rsp_offset.wrapping_add(1);
        self.locals.insert(name, Location::Stack(self.rsp_offset));
    }

    /// Makes the stack aware of a local variable that has already been allocated.
    /// This will not allocate any space on the stack but will allow the stack to
    /// reference the variable.
    pub fn allocate_local_at(&mut self, name: String, location: Location)
        ensures
            final(self)@ == old(self)@.allocate_local_at(name@, location),
    {
        self.locals.insert(name, location);
    }

    /// Deallocates a local variable.
    pub fn deallocate_local(&mut self, name: &str)
        ensures
            final(self)@ == old(self)@.deallocate_local(name@),
    {
        self.rsp_offset = self.rsp_offset.wrapping_sub(1);
        self.locals.remove(name);
    }

    /// Allocates space on the stack for a saved register.
    pub fn save_register(&mut self, register: Register, codegen: &mut CodeGenerator)
        ensures
            final(self)@ == old(self)@.save_register(register),
            final(codegen)@ == old(codegen)@.emit(push_line(RegisterOrNumber::Register(register))),
    {
        self.rsp_offset = self.rsp_offset.wrapping_add(1);
        self.saved_registers.push(register);
        stack_push(codegen, RegisterOrNumber::Register(register));
    }

    /// Deallocates a saved register and restores its value.
    pub fn restore_register(&mut self, register: Register, codegen: &mut CodeGenerator)
        ensures
            final(self)@ == old(self)@.restore_register(),
            final(codegen)@ == old(codegen)@.emit(pop_line(register)),
    {
        self.rsp_offset = self.rsp_offset.wrapping_sub(1);
        self.saved_registers.pop();
        stack_pop(codegen, register);
        assert(self@.saved_registers =~= old(self)@.restore_register().saved_registers);
    }

    /// Marks the beginning of a loop.
    pub fn new_loop(&mut self) -> (name: String)
        ensures
            name@ == loop_name(old(self)@.loop_counter),
            final(self)@ == old(self)@.new_loop(),
    {
        let name = concat2("loop_", int_to_string(self.loop_counter as i64).as_str());
        self.loop_counter = self.loop_counter.wrapping_add(1);
        self.loops.push(name.clone());
        assert(self@.loops =~= old(self)@.new_loop().loops);
        name
    }

    pub fn new_if(&mut self) -> (name: String)
        ensures
            name@ == if_name(old(self)@.if_counter),
            final(self)@ == old(self)@.new_if(),
    {
        let name = concat2("if_", int_to_string(self.if_counter as i64).as_str());
        self.if_counter = self.if_counter.wrapping_add(1);
        name
    }

    /// Marks the end of a loop.
    pub fn end_loop(&mut self) -> (name: Option<String>)
        ensures
            final(self)@ == old(self)@.end_loop(),
            match name {
                Some(name) => old(self)@.loops.len() > 0 && name@ == old(self)@.loops.last(),
                None => old(self)@.loops.len() == 0,
            },
    {
        let name = self.loops.pop();
        assert(self@.loops =~= old(self)@.end_loop().loops);
        name
    }

    /// Clears values between passes.
    pub fn clear(&mut self)
        ensures
            final(self)@ == old(self)@.clear(),
    {
        self.loop_counter = 0;
        self.if_counter = 0;
    }
}

} // verus!
