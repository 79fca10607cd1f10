//! The virtual CPU: sixteen registers, an instruction pointer, the flags and
//! one memory that holds program and data alike.

use vstd::prelude::*;
use crate::compiler::compiler::CompileError;
use crate::compiler::instruction::{disassembled, length_of, Instruction};
use crate::machine::alu;
use crate::machine::alu::Outcome;
use crate::machine::flags::{Flags, FlagsRegister, FlagsView};
use crate::machine::storage::{
    FiniteStorage, ReadableStorage, StorageError, WritableStorage, RAM,
};
use crate::types::Opcode;

verus! {

/// Something the machine reports while it runs. None of these stops it.
#[derive(Clone, Copy, Debug, PartialEq, Eq, Structural)]
pub enum Event {
    /// A byte written to address zero, which is the serial output.
    SerialOut(u8),
    /// The high half of a fetched byte names no operation.
    IllegalInstruction(u8),
    /// The machine halted at this address.
    Halted(u16),
    /// A load from an address beyond the memory, met at this instruction
    /// pointer.
    OutOfBoundsRead(u16, u16),
    /// A store to an address beyond the memory, met at this instruction
    /// pointer.
    OutOfBoundsWrite(u16, u16),
}

/// Why a program was not loaded.
#[derive(Clone, Copy, Debug, PartialEq, Eq, Structural)]
pub enum LoadRomError {
    EmptyRom(),
}

/// Why a memory image was not loaded.
#[derive(Clone, Copy, Debug, PartialEq, Eq, Structural)]
pub enum LoadRamError {
    EmptyRam(),
}

/// The state of the machine.
pub struct SystemView {
    pub memory: Seq<u8>,
    pub regs: Seq<u8>,
    pub ip: u16,
    pub flags: FlagsView,
    pub events: Seq<Event>,
}

/// The byte at `address`, and zero beyond the memory.
pub open spec fn byte_at(memory: Seq<u8>, address: int) -> u8 {
    if 0 <= address < memory.len() {
        memory[address]
    } else {
        0
    }
}

/// The sixteen-bit number with the given high and low bytes.
pub open spec fn joined(high: u8, low: u8) -> u16 {
    (high * 256 + low) as u16
}

/// By how much `length` falls short of `wanted`, and zero where it does not.
pub open spec fn shortfall(wanted: nat, length: nat) -> nat {
    if wanted > length {
        (wanted - length) as nat
    } else {
        0
    }
}

/// The instruction pointer `distance` bytes after `ip`, wrapping at sixteen
/// bits.
pub open spec fn advanced(ip: u16, distance: u16) -> u16 {
    ((ip + distance) % 65536) as u16
}

/// `count` zero bytes.
pub open spec fn zeros(count: nat) -> Seq<u8> {
    Seq::new(count, |i: int| 0u8)
}

impl SystemView {
    /// The state after a byte is stored: address zero sends it to the serial
    /// output and stores nothing, an address within the memory takes it, and
    /// any other address is reported and changes nothing.
    pub open spec fn stored(self, address: u16, value: u8) -> SystemView {
        if address == 0 {
            SystemView { events: self.events.push(Event::SerialOut(value)), ..self }
        } else if address < self.memory.len() {
            SystemView { memory: self.memory.update(address as int, value), ..self }
        } else {
            SystemView { events: self.events.push(Event::OutOfBoundsWrite(address, self.ip)), ..self }
        }
    }

    /// The state after register `reg` takes the byte at `address`: a load from
    /// beyond the memory gives zero and is reported.
    pub open spec fn loaded(self, reg: int, address: u16) -> SystemView {
        if address < self.memory.len() {
            SystemView { regs: self.regs.update(reg, self.memory[address as int]), ..self }
        } else {
            SystemView {
                regs: self.regs.update(reg, 0u8),
                events: self.events.push(Event::OutOfBoundsRead(address, self.ip)),
                ..self
            }
        }
    }

    /// The state after an arithmetic or logic operation: register `reg` takes
    /// the value and the flags are replaced.
    pub open spec fn computed(self, reg: int, outcome: Outcome) -> SystemView {
        SystemView { regs: self.regs.update(reg, outcome.value), flags: outcome.flags, ..self }
    }

    /// The state after a jump that is taken when `taken` holds.
    pub open spec fn jumped(self, taken: bool, target: u16) -> SystemView {
        if taken {
            SystemView { ip: target, ..self }
        } else {
            self
        }
    }

    /// The state after one step and whether the machine halted in it.
    ///
    /// The step fetches the byte at the instruction pointer and the byte after
    /// it, each zero beyond the memory. Where the high half of the first names
    /// no operation, that is reported and nothing else changes. Otherwise the
    /// instruction pointer moves past the instruction, wrapping at sixteen
    /// bits, and the operation takes effect; a halt leaves the instruction
    /// pointer at the halting instruction.
    pub open spec fn stepped(self) -> (SystemView, bool) {
        let first_byte = byte_at(self.memory, self.ip as int);
        let data = byte_at(self.memory, self.ip + 1);
        let reg = (first_byte & 15) as int;
        let reg2 = (data >> 4) as int;
        let reg3 = (data & 15) as int;
        let imm4 = data & 15;
        let offset = joined(self.regs[reg2], self.regs[reg3]);
        match Opcode::of_code(first_byte >> 4) {
            Err(_) => (
                SystemView {
                    events: self.events.push(Event::IllegalInstruction(first_byte >> 4)),
                    ..self
                },
                false,
            ),
            Ok(opcode) => {
                let next = advanced(self.ip, length_of(opcode));
                let advanced = SystemView { ip: next, ..self };
                let a = self.regs[reg2];
                let b = self.regs[reg3];
                match opcode {
                    Opcode::HLT => (
                        SystemView { events: self.events.push(Event::Halted(self.ip)), ..self },
                        true,
                    ),
                    Opcode::LDI => (SystemView { regs: self.regs.update(reg, data), ..advanced }, false),
                    Opcode::ADD => (advanced.computed(reg, alu::spec_add(a, b)), false),
                    Opcode::SUB => (advanced.computed(reg, alu::spec_sub(a, b)), false),
                    Opcode::XOR => (advanced.computed(reg, alu::spec_xor(a, b)), false),
                    Opcode::AND => (advanced.computed(reg, alu::spec_and(a, b)), false),
                    Opcode::OR => (advanced.computed(reg, alu::spec_or(a, b)), false),
                    Opcode::SHL => (advanced.computed(reg, alu::spec_shl(a, imm4)), false),
                    Opcode::SHR => (advanced.computed(reg, alu::spec_shr(a, imm4)), false),
                    Opcode::SB => (advanced.stored(offset, self.regs[reg]), false),
                    Opcode::LB => (advanced.loaded(reg, offset), false),
                    Opcode::JNZ => (
                        advanced.jumped(!self.flags.zero, joined(self.regs[reg], self.regs[reg2])),
                        false,
                    ),
                    Opcode::JC => (
                        advanced.jumped(self.flags.carry, joined(self.regs[reg], self.regs[reg2])),
                        false,
                    ),
                    Opcode::JAL => (
                        SystemView {
                            regs: self.regs.update(reg, (next / 256) as u8).update(
                                reg2,
                                (next % 256) as u8,
                            ),
                            ip: offset,
                            ..self
                        },
                        false,
                    ),
                    Opcode::NOT => (SystemView { regs: self.regs.update(reg, !a), ..advanced }, false),
                }
            },
        }
    }

    /// A halt is final: the step that halts changes nothing but to report the
    /// halt at the instruction pointer, and every step after it halts again.
    pub proof fn halt_is_final(self)
        requires
            self.regs.len() == 16,
            self.stepped().1,
        ensures
            self.stepped().0 == (SystemView {
                events: self.events.push(Event::Halted(self.ip)),
                ..self
            }),
            self.stepped().0.stepped().1,
    {
    }

    /// A step keeps the number of registers and the size of the memory, and
    /// it takes back nothing that was reported: it reports one thing more or
    /// nothing.
    pub proof fn step_keeps_shape(self)
        requires
            self.regs.len() == 16,
        ensures
            self.stepped().0.regs.len() == 16,
            self.stepped().0.memory.len() == self.memory.len(),
            self.stepped().0.events == self.events || (exists|event: Event|
                self.stepped().0.events == self.events.push(event)),
    {
        let first_byte = byte_at(self.memory, self.ip as int);
        let data = byte_at(self.memory, self.ip + 1);
        assert(first_byte & 15 < 16 && data >> 4 < 16 && data & 15 < 16) by (bit_vector);
    }

    /// The state after at most `limit` steps, the last of them the first that
    /// halts, and whether a step halted.
    pub open spec fn ran(self, limit: nat) -> (SystemView, bool)
        decreases limit,
    {
        if limit == 0 {
            (self, false)
        } else {
            let (next, halted) = self.stepped();
            if halted {
                (next, true)
            } else {
                next.ran((limit - 1) as nat)
            }
        }
    }
}

/// The virtual CPU.
pub struct System {
    ram: RAM<u8>,
    regs: [u8; 16],
    ip: u16,
    flags: FlagsRegister,
    events: Vec<Event>,
}

impl View for System {
    type V = SystemView;

    closed spec fn view(&self) -> SystemView {
        SystemView {
            memory: self.ram@,
            regs: self.regs@,
            ip: self.ip,
            flags: self.flags@,
            events: self.events@,
        }
    }
}

impl System {
    /// A machine with `ram_size` bytes of zeroed memory, zeroed registers, the
    /// instruction pointer at zero, every flag clear and nothing reported.
    pub fn new(ram_size: usize) -> (system: Self)
        ensures
            system@ == (SystemView {
                memory: zeros(ram_size as nat),
                regs: zeros(16),
                ip: 0,
                flags: FlagsView::cleared(),
                events: Seq::empty(),
            }),
    {
        let system = Self {
            ram: RAM::new(ram_size),
            regs: [0; 16],
            ip: 0,
            flags: FlagsRegister::new(),
            events: Vec::new(),
        };
        assert(system.ram@ =~= zeros(ram_size as nat));
        assert(system.regs@ =~= zeros(16));
        system
    }

    /// Every state has sixteen registers.
    pub proof fn sixteen_registers(&self)
        ensures
            self@.regs.len() == 16,
    {
    }

    /// The byte at `address`, or `OutOfBounds` beyond the memory.
    pub fn read_mem(&self, address: u16) -> (result: Result<u8, StorageError>)
        ensures
            address < self@.memory.len() ==> result == Ok::<u8, StorageError>(
                self@.memory[address as int],
            ),
            address >= self@.memory.len() ==> result == Err::<u8, StorageError>(
                StorageError::OutOfBounds,
            ),
    {
        self.ram.get(address as usize)
    }

    /// The byte at `address`, and zero beyond the memory.
    pub fn get_mem(&self, address: u16) -> (value: u8)
        ensures
            value == byte_at(self@.memory, address as int),
    {
        match self.read_mem(address) {
            Ok(value) => value,
            Err(_) => 0,
        }
    }

    /// The byte at `address`, read as part of the program: zero beyond the
    /// memory.
    pub fn get_rom(&self, address: u16) -> (value: u8)
        ensures
            value == byte_at(self@.memory, address as int),
    {
        self.get_mem(address)
    }

    /// The number of bytes of memory.
    pub fn memory_size(&self) -> (size: usize)
        ensures
            size == self@.memory.len(),
    {
        self.ram.size()
    }

    /// Stores `value` at `address`. Address zero is the serial output: the
    /// byte is reported and not stored. A store beyond the memory is reported
    /// and changes nothing else.
    pub fn set_mem(&mut self, address: u16, value: u8)
        ensures
            final(self)@ == old(self)@.stored(address, value),
    {
        if address == 0 {
            self.events.push(Event::SerialOut(value));
            return ;
        }
        if self.ram.set(address as usize, value).is_err() {
            self.events.push(Event::OutOfBoundsWrite(address, self.ip));
        }
    }

    /// The sixteen registers.
    pub fn get_regs(&self) -> (regs: [u8; 16])
        ensures
            regs@ == self@.regs,
    {
        self.regs
    }

    /// The instruction pointer.
    pub fn get_ip(&self) -> (ip: u16)
        ensures
            ip == self@.ip,
    {
        self.ip
    }

    /// The flags.
    pub fn get_flags_register(&self) -> (flags: &FlagsRegister)
        ensures
            flags@ == self@.flags,
    {
        &self.flags
    }

    /// Sets the instruction pointer to `address`.
    pub fn jump(&mut self, address: u8)
        ensures
            final(self)@ == (SystemView { ip: address as u16, ..old(self)@ }),
    {
        self.ip = address as u16;
    }

    /// What the machine has reported since the reports were last taken, in
    /// order.
    pub fn take_events(&mut self) -> (events: Vec<Event>)
        ensures
            events@ == old(self)@.events,
            final(self)@ == (SystemView { events: Seq::empty(), ..old(self)@ }),
    {
        let mut events: Vec<Event> = Vec::new();
        core::mem::swap(&mut events, &mut self.events);
        events
    }

    /// Replaces the memory with the program `rom`. Where the memory was
    /// longer than the program, zero bytes follow the program up to the former
    /// length. An empty program is refused and changes nothing.
    pub fn load_rom(&mut self, rom: Vec<u8>) -> (result: Result<(), LoadRomError>)
        ensures
            rom@.len() == 0 ==> result == Err::<(), LoadRomError>(LoadRomError::EmptyRom())
                && final(self)@ == old(self)@,
            rom@.len() > 0 ==> result == Ok::<(), LoadRomError>(()) && final(self)@ == (SystemView {
                memory: rom@ + zeros(shortfall(old(self)@.memory.len(), rom@.len())),
                ..old(self)@
            }),
    {
        if rom.len() == 0 {
            return Err(LoadRomError::EmptyRom());
        }
        let ghost image = rom@;
        let old_ram_size = self.ram.size();
        self.ram = RAM::from(rom);
        let new_ram_size = self.ram.size();
        if old_ram_size > new_ram_size {
            self.ram.resize(old_ram_size);
        }
        assert(self.ram@ =~= image + zeros(shortfall(old(self)@.memory.len(), image.len())));
        Ok(())
    }

    /// Replaces the memory with `ram`. An empty memory is refused and changes
    /// nothing.
    pub fn load_ram(&mut self, ram: Vec<u8>) -> (result: Result<(), LoadRamError>)
        ensures
            ram@.len() == 0 ==> result == Err::<(), LoadRamError>(LoadRamError::EmptyRam())
                && final(self)@ == old(self)@,
            ram@.len() > 0 ==> result == Ok::<(), LoadRamError>(()) && final(self)@ == (SystemView {
                memory: ram@,
                ..old(self)@
            }),
    {
        if ram.len() == 0 {
            return Err(LoadRamError::EmptyRam());
        }
        self.ram = RAM::from(ram);
        Ok(())
    }

    fn alu_operation<F>(&mut self, destination_raw_reg: usize, a: u8, b: u8, operation: F) where
        F: Fn(u8, u8) -> alu::Result,

        requires
            destination_raw_reg < 16,
            call_requires(operation, (a, b)),
        ensures
            exists|outcome: alu::Result|
                call_ensures(operation, (a, b), outcome) && final(self)@ == old(self)@.computed(
                    destination_raw_reg as int,
                    outcome@,
                ),
    {
        let alu_result = operation(a, b);
        let ghost outcome = alu_result;
        self.flags = alu_result.flags;
        self.regs[destination_raw_reg] = alu_result.value;
        assert(call_ensures(operation, (a, b), outcome) && self@ == old(self)@.computed(
            destination_raw_reg as int,
            outcome@,
        ));
    }

    /// The byte at `address`; a load from beyond the memory gives zero and is
    /// reported.
    fn load_byte(&mut self, destination_raw_reg: usize, address: u16)
        requires
            destination_raw_reg < 16,
        ensures
            final(self)@ == old(self)@.loaded(destination_raw_reg as int, address),
    {
        match self.ram.get(address as usize) {
            Ok(value) => {
                self.regs[destination_raw_reg] = value;
            },
            Err(_) => {
                self.events.push(Event::OutOfBoundsRead(address, self.ip));
                self.regs[destination_raw_reg] = 0;
            },
        }
    }

    /// The byte at `address` as an instruction is fetched: zero beyond the
    /// memory, and nothing reported.
    fn fetch(&self, address: usize) -> (value: u8)
        ensures
            value == byte_at(self@.memory, address as int),
    {
        match self.ram.get(address) {
            Ok(value) => value,
            Err(_) => 0,
        }
    }

    /// Runs one instruction and says whether the machine halted in it.
    pub fn tick(&mut self) -> (halted: bool)
        ensures
            (final(self)@, halted) == old(self)@.stepped(),
    {
        let first_byte = self.fetch(self.ip as usize);
        let data = self.fetch(self.ip as usize + 1);
        let opcode_raw = first_byte >> 4;
        let opcode = match Opcode::try_from(opcode_raw) {
            Ok(opcode) => opcode,
            Err(_) => {
                self.events.push(Event::IllegalInstruction(opcode_raw));
                return false;
            },
        };
        assert(first_byte & 0b1111 < 16 && data >> 4 < 16 && data & 0b1111 < 16) by (bit_vector);
        let reg_raw = (first_byte & 0b1111) as usize;
        let reg2_raw = (data >> 4) as usize;
        let reg3_raw = (data & 0b1111) as usize;

        let reg = self.regs[reg_raw];
        let reg2 = self.regs[reg2_raw];
        let reg3 = self.regs[reg3_raw];

        let imm = data;
        let imm4 = data & 0b1111;

        let offset = join(reg2, reg3);

        let origin = self.ip;
        self.ip = advance(origin, Instruction::get_length(opcode));
        match opcode {
            Opcode::HLT => {
                self.ip = origin;
                self.events.push(Event::Halted(self.ip));
                return true;
            },
            Opcode::ADD => self.alu_operation(reg_raw, reg2, reg3, alu::add),
            Opcode::XOR => self.alu_operation(reg_raw, reg2, reg3, alu::xor),
            Opcode::SUB => self.alu_operation(reg_raw, reg2, reg3, alu::sub),
            Opcode::SHL => self.alu_operation(reg_raw, reg2, imm4, alu::shl),
            Opcode::SHR => self.alu_operation(reg_raw, reg2, imm4, alu::shr),
            Opcode::AND => self.alu_operation(reg_raw, reg2, reg3, alu::and),
            Opcode::OR => self.alu_operation(reg_raw, reg2, reg3, alu::or),
            Opcode::LDI => {
                self.regs[reg_raw] = imm;
            },
            Opcode::SB => {
                self.set_mem(offset, reg);
            },
            Opcode::LB => {
                self.load_byte(reg_raw, offset);
            },
            Opcode::JNZ => {
                let zf_set = self.flags.is_set(Flags::Zero);
                if !zf_set {
                    self.ip = join(reg, reg2);
                }
            },
            Opcode::JAL => {
                let new_ip = offset;
                let return_address = self.ip;
                assert(return_address >> 8 == return_address / 256 && return_address & 0xff
                    == return_address % 256) by (bit_vector);
                self.regs[reg_raw] = (return_address >> 8) as u8;
                self.regs[reg2_raw] = (return_address & 0xff) as u8;
                self.ip = new_ip;
            },
            Opcode::JC => {
                let cf_set = self.flags.is_set(Flags::Carry);
                if cf_set {
                    self.ip = join(reg, reg2);
                }
            },
            Opcode::NOT => {
                self.regs[reg_raw] = !reg2;
            },
        };
        false
    }

    /// Runs instructions until one halts the machine, and at most `limit` of
    /// them. Says whether the machine halted.
    pub fn run(&mut self, limit: usize) -> (halted: bool)
        ensures
            (final(self)@, halted) == old(self)@.ran(limit as nat),
    {
        let mut left: usize = limit;
        while left > 0
            invariant
                old(self)@.ran(limit as nat) == self@.ran(left as nat),
            decreases left,
        {
            left -= 1;
            if self.tick() {
                return true;
            }
        }
        false
    }

    /// The instruction that the bytes at `address` and after it encode. Bytes
    /// beyond the memory count as zero.
    pub fn disassemble_at(&self, address: u16) -> (result: Result<Instruction, CompileError>)
        ensures
            result == disassembled(
                byte_at(self@.memory, address as int),
                byte_at(self@.memory, address + 1),
            ),
    {
        let first_byte = self.fetch(address as usize);
        let second_byte = self.fetch(address as usize + 1);
        Instruction::disassemble(first_byte, second_byte)
    }
}

/// The instruction pointer `distance` bytes after `ip`, wrapping at sixteen
/// bits.
fn advance(ip: u16, distance: u16) -> (next: u16)
    ensures
        next == advanced(ip, distance),
{
    ((ip as u32 + distance as u32) % 65536) as u16
}

/// The sixteen-bit number with the given high and low bytes.
fn join(high: u8, low: u8) -> (whole: u16)
    ensures
        whole == joined(high, low),
{
    assert(((high as u16) << 8) | (low as u16) == (high as u16) * 256 + (low as u16)) by (bit_vector);
    ((high as u16) << 8) | (low as u16)
}

} // verus!
