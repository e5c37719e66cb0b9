//! The CPU: a program memory, a bank of ten named 16-bit registers backed by
//! a byte memory, and the fetch-decode-execute cycle.
//!
//! Registers are addressed two ways, both first-class: by name (`"ip"`,
//! `"acc"`, `"r1"` .. `"r8"`), used by `get_register` and `set_register`, and
//! by numeric slot index, used by the `ADD_REG_REG` operands. Register `i`
//! occupies bytes `2 * i` and `2 * i + 1` of the register bank, big-endian,
//! in declaration order, with `ip` at slot 0 and `acc` at slot 1.

use vstd::prelude::*;
use crate::bytebuf::word_be;
use crate::instructions::{ADD_REG_REG, MOV_LIT_R1, MOV_LIT_R2};
use crate::memory::{create_memory, Memory};
use crate::text::{hex_word, spec_hex_word, str_eq};
use vstd::string::StringExecFns;

verus! {

/// Failure of a CPU operation.
#[derive(Debug)]
pub enum CPUError {
    /// The register name is not in the fixed declared set.
    RegisterNotFound(&'static str),
    /// A register or memory read did not succeed: the access ran past the
    /// end of the buffer.
    ReadRegisterError,
    /// The opcode byte is not in the closed instruction set; it is carried
    /// for diagnostics.
    UnknownInstruction(u8),
}

/// The register names, in declaration order: slot 0 is `ip`, slot 1 is
/// `acc`, slots 2 to 9 are `r1` to `r8`.
pub open spec fn reg_names() -> Seq<Seq<char>> {
    seq!["ip"@, "acc"@, "r1"@, "r2"@, "r3"@, "r4"@, "r5"@, "r6"@, "r7"@, "r8"@]
}

/// The slot index of a register name, or -1 for a name outside the fixed
/// set.
pub open spec fn reg_index_spec(name: Seq<char>) -> int {
    if name == "ip"@ {
        0
    } else if name == "acc"@ {
        1
    } else if name == "r1"@ {
        2
    } else if name == "r2"@ {
        3
    } else if name == "r3"@ {
        4
    } else if name == "r4"@ {
        5
    } else if name == "r5"@ {
        6
    } else if name == "r6"@ {
        7
    } else if name == "r7"@ {
        8
    } else if name == "r8"@ {
        9
    } else {
        -1
    }
}

/// Whether a name is in the fixed register set.
pub open spec fn is_reg_name(name: Seq<char>) -> bool {
    reg_index_spec(name) >= 0
}

/// Each declared name maps to its own slot.
pub proof fn lemma_reg_names_index()
    ensures
        forall|i: int|
            0 <= i < 10 ==> is_reg_name(#[trigger] reg_names()[i]) && reg_index_spec(
                reg_names()[i],
            ) == i,
        reg_index_spec("ip"@) == 0,
        reg_index_spec("acc"@) == 1,
        reg_index_spec("r1"@) == 2,
        reg_index_spec("r2"@) == 3,
        reg_index_spec("r3"@) == 4,
        reg_index_spec("r4"@) == 5,
        reg_index_spec("r5"@) == 6,
        reg_index_spec("r6"@) == 7,
        reg_index_spec("r7"@) == 8,
        reg_index_spec("r8"@) == 9,
{
    reveal_strlit("ip");
    reveal_strlit("acc");
    reveal_strlit("r1");
    reveal_strlit("r2");
    reveal_strlit("r3");
    reveal_strlit("r4");
    reveal_strlit("r5");
    reveal_strlit("r6");
    reveal_strlit("r7");
    reveal_strlit("r8");
    assert("ip"@ =~= seq!['i', 'p']);
    assert("acc"@ =~= seq!['a', 'c', 'c']);
    assert("r1"@ =~= seq!['r', '1']);
    assert("r2"@ =~= seq!['r', '2']);
    assert("r3"@ =~= seq!['r', '3']);
    assert("r4"@ =~= seq!['r', '4']);
    assert("r5"@ =~= seq!['r', '5']);
    assert("r6"@ =~= seq!['r', '6']);
    assert("r7"@ =~= seq!['r', '7']);
    assert("r8"@ =~= seq!['r', '8']);
    assert forall|i: int| 0 <= i < 10 implies is_reg_name(#[trigger] reg_names()[i])
        && reg_index_spec(reg_names()[i]) == i by {
        assert(reg_index_spec(reg_names()[0]) == 0);
        assert(reg_index_spec(reg_names()[1]) == 1);
        assert(reg_index_spec(reg_names()[2]) == 2);
        assert(reg_index_spec(reg_names()[3]) == 3);
        assert(reg_index_spec(reg_names()[4]) == 4);
        assert(reg_index_spec(reg_names()[5]) == 5);
        assert(reg_index_spec(reg_names()[6]) == 6);
        assert(reg_index_spec(reg_names()[7]) == 7);
        assert(reg_index_spec(reg_names()[8]) == 8);
        assert(reg_index_spec(reg_names()[9]) == 9);
    }
}

/// Unsigned 16-bit addition that wraps around modulo 2^16.
pub open spec fn wrap_add16(x: u16, y: u16) -> u16 {
    ((x + y) % 0x10000) as u16
}

/// The big-endian 16-bit word stored at an offset of a byte sequence.
pub open spec fn word_at(mem: Seq<u8>, off: int) -> u16 {
    word_be(mem[off], mem[off + 1])
}

/// What executing one opcode does to the registers, with the instruction
/// pointer already advanced past the opcode byte: the resulting register
/// values and the failure, if any. A failing instruction is not rolled
/// back: the registers keep whatever updates happened before the failure.
pub open spec fn spec_execute(regs: Seq<u16>, mem: Seq<u8>, op: u8) -> (Seq<u16>, Option<
    CPUError,
>) {
    let ip = regs[0] as int;
    if op == MOV_LIT_R1 {
        if ip + 2 <= mem.len() {
            (regs.update(0, (ip + 2) as u16).update(2, word_at(mem, ip)), None)
        } else {
            (regs, Some(CPUError::ReadRegisterError))
        }
    } else if op == MOV_LIT_R2 {
        if ip + 2 <= mem.len() {
            (regs.update(0, (ip + 2) as u16).update(3, word_at(mem, ip)), None)
        } else {
            (regs, Some(CPUError::ReadRegisterError))
        }
    } else if op == ADD_REG_REG {
        if ip >= mem.len() {
            (regs, Some(CPUError::ReadRegisterError))
        } else if ip + 1 >= mem.len() {
            (regs.update(0, (ip + 1) as u16), Some(CPUError::ReadRegisterError))
        } else {
            let a = mem[ip] as int;
            let b = mem[ip + 1] as int;
            let advanced = regs.update(0, (ip + 2) as u16);
            if a >= 10 || b >= 10 {
                (advanced, Some(CPUError::ReadRegisterError))
            } else {
                (advanced.update(1, wrap_add16(advanced[a], advanced[b])), None)
            }
        }
    } else {
        (regs, Some(CPUError::UnknownInstruction(op)))
    }
}

/// What one full step does: fetch the opcode at the instruction pointer,
/// advance the pointer past it, then execute. When the fetch itself fails,
/// nothing changes.
pub open spec fn spec_step(regs: Seq<u16>, mem: Seq<u8>) -> (Seq<u16>, Option<CPUError>) {
    let ip = regs[0] as int;
    if ip >= mem.len() {
        (regs, Some(CPUError::ReadRegisterError))
    } else {
        spec_execute(regs.update(0, (ip + 1) as u16), mem, mem[ip])
    }
}

/// One line of the register dump: the register's name, then its value as a
/// fixed-width hexadecimal word.
pub open spec fn spec_reg_line(i: int, v: u16) -> Seq<char> {
    reg_names()[i] + ": "@ + spec_hex_word(v) + "\n"@
}

/// The first `n` lines of the register dump, in declaration order.
pub open spec fn spec_dump_upto(regs: Seq<u16>, n: int) -> Seq<char>
    decreases n,
{
    if n <= 0 {
        Seq::empty()
    } else {
        spec_dump_upto(regs, n - 1) + spec_reg_line(n - 1, regs[n - 1])
    }
}

/// The whole register dump: one line per register, in declaration order,
/// then a blank line. It depends on the register values alone, so two dumps
/// of the same state are identical.
pub open spec fn spec_dump(regs: Seq<u16>) -> Seq<char> {
    spec_dump_upto(regs, 10) + "\n"@
}

/// The CPU: one program memory and one register bank with its ordered name
/// list.
pub struct CPU {
    memory: Memory,
    register_names: Vec<&'static str>,
    registers: Memory,
}

impl CPU {
    /// The contents of the program memory.
    pub closed spec fn mem(self) -> Seq<u8> {
        self.memory.data()
    }

    /// The ten register values, by slot index.
    pub closed spec fn regs(self) -> Seq<u16> {
        Seq::new(
            10,
            |i: int| word_be(self.registers.data()[2 * i], self.registers.data()[2 * i + 1]),
        )
    }

    /// The instruction pointer, register slot 0.
    pub open spec fn ip(self) -> u16 {
        self.regs()[0]
    }

    /// Well-formedness: both memories are well formed, the register bank has
    /// one 2-byte slot per register, the program memory fits the 16-bit
    /// address space, and the name list is the declared one.
    pub closed spec fn wf(self) -> bool {
        &&& self.memory.inv()
        &&& self.registers.inv()
        &&& self.registers.data().len() == 20
        &&& self.memory.data().len() <= 0xffff
        &&& self.register_names@.len() == 10
        &&& forall|i: int| 0 <= i < 10 ==> self.register_names@[i]@ == reg_names()[i]
    }

    /// Builds a CPU over the given program memory, with a zeroed register
    /// bank of ten 2-byte slots. The memory must fit the 16-bit address
    /// space the instruction pointer can reach.
    pub fn new(memory: Memory) -> (c: CPU)
        requires
            memory.inv(),
            memory.data().len() <= 0xffff,
        ensures
            c.wf(),
            c.mem() == memory.data(),
            c.regs().len() == 10,
            forall|i: int| 0 <= i < 10 ==> c.regs()[i] == 0,
    {
        let mut register_names: Vec<&'static str> = Vec::new();
        register_names.push("ip");
        register_names.push("acc");
        register_names.push("r1");
        register_names.push("r2");
        register_names.push("r3");
        register_names.push("r4");
        register_names.push("r5");
        register_names.push("r6");
        register_names.push("r7");
        register_names.push("r8");
        // each register takes 2 bytes (16 bits)
        let registers = create_memory(register_names.len() * 2);
        let c = CPU { memory, register_names, registers };
        proof {
            assert(forall|i: int| 0 <= i < 20 ==> c.registers.data()[i] == 0u8);
            assert(forall|i: int| 0 <= i < 10 ==> c.regs()[i] == word_be(0u8, 0u8));
        }
        c
    }

    /// Looks a register name up in the fixed set, returning its slot index.
    fn reg_index(name: &str) -> (r: Option<usize>)
        ensures
            is_reg_name(name@) ==> r == Some(reg_index_spec(name@) as usize),
            !is_reg_name(name@) ==> r is None,
    {
        if str_eq(name, "ip") {
            Some(0)
        } else if str_eq(name, "acc") {
            Some(1)
        } else if str_eq(name, "r1") {
            Some(2)
        } else if str_eq(name, "r2") {
            Some(3)
        } else if str_eq(name, "r3") {
            Some(4)
        } else if str_eq(name, "r4") {
            Some(5)
        } else if str_eq(name, "r5") {
            Some(6)
        } else if str_eq(name, "r6") {
            Some(7)
        } else if str_eq(name, "r7") {
            Some(8)
        } else if str_eq(name, "r8") {
            Some(9)
        } else {
            None
        }
    }

    /// Reads a register by name. A name outside the fixed set returns
    /// `None`; nothing is ever mutated but the register bank's read cursor.
    pub fn get_register(&mut self, name: &'static str) -> (r: Option<u16>)
        requires
            old(self).wf(),
        ensures
            final(self).wf(),
            final(self).mem() == old(self).mem(),
            final(self).regs() == old(self).regs(),
            is_reg_name(name@) ==> r == Some(old(self).regs()[reg_index_spec(name@)]),
            !is_reg_name(name@) ==> r is None,
    {
        let idx = match Self::reg_index(name) {
            Some(i) => i,
            None => {
                return None;
            },
        };
        let offset = idx * 2;
        self.registers.set_read_cursor(offset);
        let r = match self.registers.read_word() {
            Ok(v) => Some(v),
            Err(_) => None,
        };
        proof {
            assert(self.regs() =~= old(self).regs());
        }
        r
    }

    /// Writes a register by name. A name outside the fixed set fails with
    /// `RegisterNotFound` and mutates nothing; a name inside it updates
    /// exactly that register.
    pub fn set_register(&mut self, name: &'static str, value: u16) -> (r: Result<(), CPUError>)
        requires
            old(self).wf(),
        ensures
            final(self).wf(),
            final(self).mem() == old(self).mem(),
            is_reg_name(name@) ==> r is Ok && final(self).regs() == old(self).regs().update(
                reg_index_spec(name@),
                value,
            ),
            !is_reg_name(name@) ==> final(self).regs() == old(self).regs() && (r matches Err(
                CPUError::RegisterNotFound(n),
            ) && n@ == name@),
    {
        let idx = match Self::reg_index(name) {
            Some(i) => i,
            None => {
                return Err(CPUError::RegisterNotFound(name));
            },
        };
        let offset = idx * 2;
        self.registers.set_write_cursor(offset);
        match self.registers.write_word(value) {
            Ok(_) => {
                proof {
                    crate::memory::lemma_word_split(value);
                    assert(self.regs() =~= old(self).regs().update(
                        reg_index_spec(name@),
                        value,
                    ));
                }
                Ok(())
            },
            Err(_) => {
                assert(false);
                Err(CPUError::ReadRegisterError)
            },
        }
    }

    /// Fetches the opcode byte at the instruction pointer and advances the
    /// pointer by exactly 1. When the pointer is past the end of memory the
    /// fetch fails and nothing changes.
    pub fn fetch(&mut self) -> (r: Result<u8, CPUError>)
        requires
            old(self).wf(),
        ensures
            final(self).wf(),
            final(self).mem() == old(self).mem(),
            if old(self).ip() < old(self).mem().len() {
                r == Ok::<u8, CPUError>(old(self).mem()[old(self).ip() as int]) && final(self).regs() == old(self).regs().update(0, (old(self).ip() + 1) as u16)
            } else {
                r == Err::<u8, CPUError>(CPUError::ReadRegisterError) && final(self).regs() == old(
                    self,
                ).regs()
            },
    {
        let next_instruction_address = match self.get_register("ip") {
            Some(v) => v,
            None => {
                assert(false);
                return Err(CPUError::ReadRegisterError);
            },
        };
        self.memory.set_read_cursor(next_instruction_address as usize);
        let instruction = match self.memory.read_byte() {
            Ok(b) => b,
            Err(_) => {
                proof {
                    assert(self.regs() =~= old(self).regs());
                }
                return Err(CPUError::ReadRegisterError);
            },
        };
        // move the IP by one byte
        match self.set_register("ip", next_instruction_address + 1) {
            Ok(_) => Ok(instruction),
            Err(err) => {
                assert(false);
                Err(err)
            },
        }
    }

    /// Fetches the 16-bit word at the instruction pointer (a literal operand)
    /// and advances the pointer by exactly 2. When fewer than two bytes
    /// remain the fetch fails and nothing changes.
    pub fn fetch_16(&mut self) -> (r: Result<u16, CPUError>)
        requires
            old(self).wf(),
        ensures
            final(self).wf(),
            final(self).mem() == old(self).mem(),
            if old(self).ip() + 2 <= old(self).mem().len() {
                r == Ok::<u16, CPUError>(word_at(old(self).mem(), old(self).ip() as int)) && final(self).regs() == old(self).regs().update(0, (old(self).ip() + 2) as u16)
            } else {
                r == Err::<u16, CPUError>(CPUError::ReadRegisterError) && final(self).regs() == old(
                    self,
                ).regs()
            },
    {
        let next_instruction_address = match self.get_register("ip") {
            Some(v) => v,
            None => {
                assert(false);
                return Err(CPUError::RegisterNotFound("ip"));
            },
        };
        self.memory.set_read_cursor(next_instruction_address as usize);
        let literal = match self.memory.read_word() {
            Ok(w) => w,
            Err(_) => {
                proof {
                    assert(self.regs() =~= old(self).regs());
                }
                return Err(CPUError::ReadRegisterError);
            },
        };
        match self.set_register("ip", next_instruction_address + 2) {
            Ok(_) => Ok(literal),
            Err(err) => {
                assert(false);
                Err(err)
            },
        }
    }

    /// Decodes and executes one already-fetched opcode, consuming its
    /// operands at the instruction pointer. The registers end as
    /// `spec_execute` says; a failing instruction keeps the updates that
    /// happened before the failure.
    pub fn execute(&mut self, instruction: u8) -> (r: Result<(), CPUError>)
        requires
            old(self).wf(),
        ensures
            final(self).wf(),
            final(self).mem() == old(self).mem(),
            final(self).regs() == spec_execute(
                old(self).regs(),
                old(self).mem(),
                instruction,
            ).0,
            match r {
                Ok(_) => spec_execute(old(self).regs(), old(self).mem(), instruction).1 is None,
                Err(e) => spec_execute(old(self).regs(), old(self).mem(), instruction).1 == Some(
                    e,
                ),
            },
    {
        proof {
            lemma_reg_names_index();
            assert(reg_names()[1] == "acc"@ && reg_names()[2] == "r1"@ && reg_names()[3]
                == "r2"@);
        }
        if instruction == MOV_LIT_R1 {
            // the literal value: the next 2 bytes in memory pointed to by the IP
            let literal = match self.fetch_16() {
                Ok(v) => v,
                Err(_) => {
                    return Err(CPUError::ReadRegisterError);
                },
            };
            match self.set_register("r1", literal) {
                Ok(_) => Ok(()),
                Err(err) => {
                    assert(false);
                    Err(err)
                },
            }
        } else if instruction == MOV_LIT_R2 {
            let literal = match self.fetch_16() {
                Ok(v) => v,
                Err(_) => {
                    return Err(CPUError::ReadRegisterError);
                },
            };
            match self.set_register("r2", literal) {
                Ok(_) => Ok(()),
                Err(err) => {
                    assert(false);
                    Err(err)
                },
            }
        } else if instruction == ADD_REG_REG {
            // the operand bytes are register slot indices, not names
            let r1_idx = match self.fetch() {
                Ok(v) => v,
                Err(e) => {
                    return Err(e);
                },
            };
            let r2_idx = match self.fetch() {
                Ok(v) => v,
                Err(e) => {
                    return Err(e);
                },
            };
            proof {
                assert(self.regs() =~= old(self).regs().update(
                    0,
                    (old(self).ip() + 2) as u16,
                ));
            }
            self.registers.set_read_cursor((r1_idx as usize) * 2);
            let register_value_1 = match self.registers.read_word() {
                Ok(v) => v,
                Err(_) => {
                    proof {
                        assert(self.regs() =~= old(self).regs().update(
                            0,
                            (old(self).ip() + 2) as u16,
                        ));
                    }
                    return Err(CPUError::ReadRegisterError);
                },
            };
            self.registers.set_read_cursor((r2_idx as usize) * 2);
            let register_value_2 = match self.registers.read_word() {
                Ok(v) => v,
                Err(_) => {
                    proof {
                        assert(self.regs() =~= old(self).regs().update(
                            0,
                            (old(self).ip() + 2) as u16,
                        ));
                    }
                    return Err(CPUError::ReadRegisterError);
                },
            };
            // the sum wraps around modulo 2^16
            let sum = ((register_value_1 as u32 + register_value_2 as u32) % 0x10000) as u16;
            match self.set_register("acc", sum) {
                Ok(_) => Ok(()),
                Err(err) => {
                    assert(false);
                    Err(err)
                },
            }
        } else {
            Err(CPUError::UnknownInstruction(instruction))
        }
    }

    /// Performs one full fetch-decode-execute cycle. On failure, whatever
    /// register updates already happened stay: execution is not
    /// transactional.
    pub fn step(&mut self) -> (r: Result<(), CPUError>)
        requires
            old(self).wf(),
        ensures
            final(self).wf(),
            final(self).mem() == old(self).mem(),
            final(self).regs() == spec_step(old(self).regs(), old(self).mem()).0,
            match r {
                Ok(_) => spec_step(old(self).regs(), old(self).mem()).1 is None,
                Err(e) => spec_step(old(self).regs(), old(self).mem()).1 == Some(e),
            },
    {
        let instruction = match self.fetch() {
            Ok(v) => v,
            Err(e) => {
                return Err(e);
            },
        };
        self.execute(instruction)
    }

    /// Renders the register dump: one `name: value` line per register, in
    /// declared order, values as fixed-width hexadecimal, then a blank line.
    /// The dump is a function of the register values alone and mutates
    /// nothing but the register bank's read cursor, so two dumps with no
    /// step between them are identical.
    pub fn debug(&mut self) -> (out: String)
        requires
            old(self).wf(),
        ensures
            final(self).wf(),
            final(self).mem() == old(self).mem(),
            final(self).regs() == old(self).regs(),
            out@ == spec_dump(old(self).regs()),
    {
        proof {
            lemma_reg_names_index();
        }
        let ghost regs0 = self.regs();
        let ghost mem0 = self.mem();
        let mut out = String::new();
        let mut i: usize = 0;
        while i < 10
            invariant
                self.wf(),
                i <= 10,
                self.regs() == regs0,
                self.mem() == mem0,
                out@ == spec_dump_upto(regs0, i as int),
                forall|j: int|
                    0 <= j < 10 ==> is_reg_name(#[trigger] reg_names()[j]) && reg_index_spec(
                        reg_names()[j],
                    ) == j,
            decreases 10 - i,
        {
            let name: &'static str = self.register_names[i];
            proof {
                assert(name@ == reg_names()[i as int]);
                assert(is_reg_name(name@) && reg_index_spec(name@) == i as int);
            }
            let value = match self.get_register(name) {
                Some(v) => v,
                None => {
                    assert(false);
                    0
                },
            };
            out.append(name);
            out.append(": ");
            let rendered = hex_word(value);
            out.append(rendered.as_str());
            out.append("\n");
            proof {
                assert(out@ =~= spec_dump_upto(regs0, i as int + 1));
            }
            i = i + 1;
        }
        out.append("\n");
        proof {
            assert(out@ =~= spec_dump(regs0));
        }
        out
    }
}

/// A well-formed CPU has exactly ten registers and a memory that fits the
/// 16-bit address space. `wf` is closed, so this publishes the two bounds
/// every contract over `regs()` and `mem()` is used with: they let callers
/// evaluate the register updates the other contracts state.
pub proof fn lemma_wf_exposes(c: CPU)
    requires
        c.wf(),
    ensures
        c.regs().len() == 10,
        c.mem().len() <= 0xffff,
{
}

/// Law: writing a register by name and reading a register by name commute
/// through the bank as through a plain array of ten values. Writing `name`
/// and reading it back gives exactly the written value; reading a different
/// name gives the value it had before: distinct names never alias.
pub proof fn lemma_set_then_get(regs: Seq<u16>, name: Seq<char>, other: Seq<char>, v: u16)
    requires
        regs.len() == 10,
        is_reg_name(name),
        is_reg_name(other),
    ensures
        regs.update(reg_index_spec(name), v)[reg_index_spec(name)] == v,
        name != other ==> regs.update(reg_index_spec(name), v)[reg_index_spec(other)]
            == regs[reg_index_spec(other)],
{
    assert(0 <= reg_index_spec(name) < 10);
    assert(0 <= reg_index_spec(other) < 10);
    assert(name != other ==> reg_index_spec(name) != reg_index_spec(other));
}

/// Law: an opcode byte outside the closed instruction set makes `execute`
/// fail with `UnknownInstruction` carrying that byte, and mutates no
/// register.
pub proof fn lemma_unknown_instruction(regs: Seq<u16>, mem: Seq<u8>, op: u8)
    requires
        op != MOV_LIT_R1,
        op != MOV_LIT_R2,
        op != ADD_REG_REG,
    ensures
        spec_execute(regs, mem, op).0 == regs,
        spec_execute(regs, mem, op).1 == Some(CPUError::UnknownInstruction(op)),
{
}

} // verus!
