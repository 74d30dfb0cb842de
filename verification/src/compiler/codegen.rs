//! The program under construction: its lines, the comments on them, and
//! the tables of labels, device names and constants.
use vstd::prelude::*;
use vstd::string::*;
use crate::mips::instructions::{Instruction, Misc};
use crate::mips::types::Device;
use crate::parser::ast::Value;
use crate::strmap::StrMap;
use crate::text::words3;

verus! {

/// A line of the program, with the texts that it carries given by their
/// characters.
pub enum Line {
    /// A label marker.
    Label(Seq<char>),
    /// A comment that stands alone.
    Comment(Seq<char>),
    /// The declaration of a name for a device.
    Alias(Seq<char>, Seq<char>),
    /// Any other instruction.
    Code(Instruction),
}

impl Line {
    /// The line as it is written.
    pub open spec fn text(self) -> Seq<char> {
        match self {
            Line::Label(name) => name + seq![':'],
            Line::Comment(comment) => seq!['#', ' '] + comment,
            Line::Alias(name, target) => words3("alias"@, name, target),
            Line::Code(instruction) => instruction.text(),
        }
    }
}

impl View for Instruction {
    type V = Line;

    open spec fn view(&self) -> Line {
        match self {
            Instruction::Misc(Misc::Label { name }) => Line::Label(name@),
            Instruction::Misc(Misc::Comment { comment }) => Line::Comment(comment@),
            Instruction::Misc(Misc::Alias { name, target }) => Line::Alias(name@, target@),
            _ => Line::Code(*self),
        }
    }
}

/// A line with the comment attached to it, if it has one.
pub struct Entry {
    pub line: Line,
    pub note: Option<Seq<char>>,
}

impl Entry {
    /// The line as it is written, followed by its comment where it has one.
    pub open spec fn text(self) -> Seq<char> {
        match self.note {
            Some(note) => self.line.text() + " # "@ + note,
            None => self.line.text(),
        }
    }
}

/// The texts of the entries, each but the first after a line break.
pub open spec fn rendered(lines: Seq<Entry>) -> Seq<char>
    decreases lines.len(),
{
    if lines.len() == 0 {
        Seq::empty()
    } else if lines.len() == 1 {
        lines[0].text()
    } else {
        rendered(lines.drop_last()) + seq!['\n'] + lines.last().text()
    }
}

/// The number under which a line is named in a jump: its index, cut to the
/// width of a jump target.
pub open spec fn line_number(index: int) -> i32 {
    index as i32
}

/// The state of a `CodeGenerator`.
pub struct CodeModel {
    /// The lines written so far; the index of a line is its line number.
    pub lines: Seq<Entry>,
    /// The line that each label names.
    pub labels: Map<Seq<char>, i32>,
    /// The device that each alias names.
    pub devices: Map<Seq<char>, Device>,
    /// The value of each named constant.
    pub constants: Map<Seq<char>, Value>,
}

impl CodeModel {
    /// Nothing written, nothing defined.
    pub open spec fn empty() -> CodeModel {
        CodeModel {
            lines: Seq::empty(),
            labels: Map::empty(),
            devices: Map::empty(),
            constants: Map::empty(),
        }
    }

    /// Appends a line without a comment.
    pub open spec fn emit(self, line: Line) -> CodeModel {
        CodeModel { lines: self.lines.push(Entry { line, note: None }), ..self }
    }

    /// Appends a comment that stands on a line of its own.
    pub open spec fn emit_comment_line(self, text: Seq<char>) -> CodeModel {
        self.emit(Line::Comment(text))
    }

    /// Attaches a comment to the line with the given index.
    pub open spec fn annotate(self, index: int, text: Seq<char>) -> CodeModel {
        CodeModel {
            lines: self.lines.update(index, Entry { line: self.lines[index].line, note: Some(text) }),
            ..self
        }
    }

    /// Attaches a comment to the last line.
    pub open spec fn annotate_last(self, text: Seq<char>) -> CodeModel {
        self.annotate(self.lines.len() - 1, text)
    }

    /// Appends a label marker and binds the name to the line after it. An
    /// earlier binding of the name is lost.
    pub open spec fn define_label(self, name: Seq<char>) -> CodeModel {
        CodeModel {
            lines: self.lines.push(Entry { line: Line::Label(name), note: None }),
            labels: self.labels.insert(name, line_number(self.lines.len() as int + 1)),
            ..self
        }
    }

    /// Binds an alias to a device.
    pub open spec fn define_alias(self, name: Seq<char>, device: Device) -> CodeModel {
        CodeModel { devices: self.devices.insert(name, device), ..self }
    }

    /// Binds a name to a constant value.
    pub open spec fn define_constant(self, name: Seq<char>, value: Value) -> CodeModel {
        CodeModel { constants: self.constants.insert(name, value), ..self }
    }

    /// Drops the lines and their comments and keeps the three tables.
    pub open spec fn reset_for_pass_two(self) -> CodeModel {
        CodeModel { lines: Seq::empty(), ..self }
    }

    /// The comments by the index of the line that they are attached to.
    pub open spec fn comments(self) -> Map<int, Seq<char>> {
        Map::new(
            |i: int| 0 <= i < self.lines.len() && self.lines[i].note is Some,
            |i: int| self.lines[i].note->Some_0,
        )
    }

    /// The program as one text.
    pub open spec fn text(self) -> Seq<char> {
        rendered(self.lines)
    }
}

/// Every comment is attached to a line of the program.
pub proof fn lemma_comments_within(code: CodeModel)
    ensures
        forall|i: int| #[trigger]
            code.comments().dom().contains(i) ==> 0 <= i < code.lines.len(),
{
}

/// The line that an instruction is written as is the text of its view.
pub proof fn lemma_view_text(instruction: Instruction)
    ensures
        instruction@.text() == instruction.text(),
{
    match instruction {
        Instruction::Misc(Misc::Alias { name, target }) => {
            assert(instruction.text() == words3("alias"@, name@, target@));
        },
        _ => {},
    }
}

pub struct CodeGenerator {
    /// the lines that have been generated, each with the comment that was attached to it
    lines: Vec<(Instruction, Option<String>)>,
    /// 'labels' that have been added to the code to mark a specific line of code for jumping to
    labels: StrMap<i32>,
    /// Device aliases mapped to their actual device
    devices: StrMap<Device>,
    /// Constants that have been defined
    constants: StrMap<Value>,
}

/// The entry that a stored line stands for.
pub open spec fn entry_of(stored: (Instruction, Option<String>)) -> Entry {
    Entry {
        line: stored.0@,
        note: match stored.1 {
            Some(note) => Some(note@),
            None => None,
        },
    }
}

impl View for CodeGenerator {
    type V = CodeModel;

    closed spec fn view(&self) -> CodeModel {
        CodeModel {
            lines: self.lines@.map_values(|stored: (Instruction, Option<String>)| entry_of(stored)),
            labels: self.labels@,
            devices: self.devices@,
            constants: self.constants@,
        }
    }
}

impl CodeGenerator {
    pub fn new() -> (r: Self)
        ensures
            r@ == CodeModel::empty(),
    {
        let r = CodeGenerator {
            lines: Vec::new(),
            labels: StrMap::new(),
            devices: StrMap::new(),
            constants: StrMap::new(),
        };
        assert(r@.lines =~= Seq::empty());
        r
    }

    /// The number of lines written so far.
    pub fn len(&self) -> (r: usize)
        ensures
            r == self@.lines.len(),
    {
        self.lines.len()
    }

    /// The instruction on the line with the given number, if the program has
    /// the line.
    pub fn instruction(&self, line: usize) -> (r: Option<&Instruction>)
        ensures
            match r {
                Some(instruction) => line < self@.lines.len() && instruction@
                    == self@.lines[line as int].line,
                None => line >= self@.lines.len(),
            },
    {
        if line < self.lines.len() {
            Some(&self.lines[line].0)
        } else {
            None
        }
    }

    /// The comment attached to the line with the given number, if the
    /// program has the line and the line has a comment.
    pub fn comment(&self, line: usize) -> (r: Option<&String>)
        ensures
            match r {
                Some(comment) => self@.comments().dom().contains(line as int) && comment@
                    == self@.comments()[line as int],
                None => !self@.comments().dom().contains(line as int),
            },
    {
        if line < self.lines.len() {
            match &self.lines[line].1 {
                Some(comment) => Some(comment),
                None => None,
            }
        } else {
            None
        }
    }

    /// Adds an instruction to the list of instructions.
    pub fn add_instruction(&mut self, instruction: Instruction)
        ensures
            final(self)@ == old(self)@.emit(instruction@),
    {
        self.lines.push((instruction, None));
        assert(self@.lines =~= old(self)@.emit(instruction@).lines);
    }

    /// Adds a comment to a given line.
    pub fn insert_comment(&mut self, comment: String, line: usize)
        requires
            line < old(self)@.lines.len(),
        ensures
            final(self)@ == old(self)@.annotate(line as int, comment@),
    {
        self.lines[line].1 = Some(comment);
        assert(self@.lines =~= old(self)@.annotate(line as int, comment@).lines);
    }

    /// Adds a comment to the last instruction.
    pub fn add_comment(&mut self, comment: String)
        requires
            old(self)@.lines.len() > 0,
        ensures
            final(self)@ == old(self)@.annotate_last(comment@),
    {
        let last = self.lines.len() - 1;
        self.insert_comment(comment, last);
    }

    /// Adds a comment on a separate line.
    pub fn add_comment_line(&mut self, comment: String)
        ensures
            final(self)@ == old(self)@.emit_comment_line(comment@),
    {
        self.add_instruction(Instruction::Misc(Misc::Comment { comment }));
    }

    /// Creates a new label and adds it to the list of labels.
    pub fn add_label(&mut self, label: String)
        ensures
            final(self)@ == old(self)@.define_label(label@),
    {
        let name = label.clone();
        self.lines.push((Instruction::Misc(Misc::Label { name }), None));
        let line = #[verifier::truncate]
        (self.lines.len() as i32);
        self.labels.insert(label, line);
        assert(self@.lines =~= old(self)@.define_label(label@).lines);
    }

    /// Checks if a label exists.
    pub fn has_label(&self, label: &str) -> (r: bool)
        ensures
            r == self@.labels.dom().contains(label@),
    {
        self.labels.contains_key(label)
    }

    /// Gets the line that a label names.
    pub fn get_label(&self, label: &str) -> (r: Option<i32>)
        ensures
            r == if self@.labels.dom().contains(label@) {
                Some(self@.labels[label@])
            } else {
                None
            },
    {
        match self.labels.get(label) {
            Some(line) => Some(*line),
            None => None,
        }
    }

    /// Clears out data from the first pass.
    /// This should be called before the second pass.
    pub fn clear_first_pass(&mut self)
        ensures
            final(self)@ == old(self)@.reset_for_pass_two(),
    {
        self.lines.clear();
        assert(self@.lines =~= Seq::empty());
    }

    /// Adds an alias for a device.
    pub fn add_alias(&mut self, alias: String, device: Device)
        ensures
            final(self)@ == old(self)@.define_alias(alias@, device),
    {
        self.devices.insert(alias, device);
    }

    /// Gets the device that a given name refers to.
    pub fn get_device(&self, name: &str) -> (r: Option<Device>)
        ensures
            r == if self@.devices.dom().contains(name@) {
                Some(self@.devices[name@])
            } else {
                None
            },
    {
        match self.devices.get(name) {
            Some(device) => Some(*device),
            None => None,
        }
    }

    /// Adds a constant to the list of constants.
    pub fn add_constant(&mut self, name: String, value: Value)
        ensures
            final(self)@ == old(self)@.define_constant(name@, value),
    {
        self.constants.insert(name, value);
    }

    /// Gets the value of a constant.
    pub fn get_constant(&self, name: &str) -> (r: Option<Value>)
        ensures
            r == if self@.constants.dom().contains(name@) {
                Some(self@.constants[name@])
            } else {
                None
            },
    {
        match self.constants.get(name) {
            Some(value) => Some(value.copy()),
            None => None,
        }
    }

    /// Combines all of the lines into a single text: one line each, with
    /// `" # "` and the comment after a line that carries one.
    pub fn get_code(&self) -> (r: String)
        ensures
            r@ == self@.text(),
    {
        let ghost lines = self@.lines;
        let mut out = String::new();
        let mut i: usize = 0;
        assert(lines.take(0) =~= Seq::empty());
        while i < self.lines.len()
            invariant
                i <= self.lines.len(),
                lines == self@.lines,
                lines.len() == self.lines.len(),
                out@ == rendered(lines.take(i as int)),
            decreases self.lines.len() - i,
        {
            proof {
                reveal_strlit("\n");
                lemma_view_text(self.lines[i as int].0);
                assert(lines.take(i + 1).drop_last() =~= lines.take(i as int));
                assert(lines.take(i + 1).last() == entry_of(self.lines[i as int]));
            }
            let ghost before = out@;
            if i > 0 {
                out.append("\n");
            }
            out.append(self.lines[i].0.to_string().as_str());
            match &self.lines[i].1 {
                Some(note) => {
                    out.append(" # ");
                    out.append(note.as_str());
                },
                None => {},
            }
            assert(out@ =~= if i == 0 {
                lines[i as int].text()
            } else {
                before + seq!['\n'] + lines[i as int].text()
            });
            i += 1;
        }
        assert(lines.take(i as int) =~= lines);
        out
    }
}

} // verus!
