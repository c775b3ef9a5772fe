//! The virtual machine: instruction buffer, program counter, registers,
//! the tensor slot table with its readiness-signal queues, and the pool of
//! executor backends.
//!
//! The machine decodes the flat byte stream one instruction at a time.  In
//! eager mode every compute instruction blocks until its result tensor is
//! in the destination slot.  In lazy mode a compute instruction removes
//! one readiness signal per input slot, dispatches, and refreshes the
//! destination slot's queue with a fresh batch of signals; `return` pops
//! the returned slot's signal, waits on it, and drops every other slot.

use vstd::prelude::*;

use crate::assembler::{
    dec_field_u32_vec, dec_field_usize_vec, decode_inst, AsmInstruction, Token,
    DEV_ANY,
};
use crate::base::RuntimeStatusError;
use crate::codec::{u16_from_le, u16_of_le, u32_from_le, u32_of_le, deserialize_u32_vec, deserialize_usize_vec};
use crate::executors::ExecutorLike;
use crate::instruction::CRTOpCode;
use crate::slots::{ReadySignal, SlotTable, SLOT_COUNT};
use crate::tensors::{shape_product, shape_product_checked, ActTensorTypes, TensorVal};

verus! {

/// How many registers the machine carries.
pub const REGISTER_COUNT: usize = 32;

/// The fan-out of the signal batch installed when an operation is
/// dispatched: how many downstream consumers one write can feed.
pub const SIGNAL_FANOUT: usize = 4;

/// The fan-out of the batch of already-fired signals enrolled for a slot
/// produced synchronously.
pub const READY_FANOUT: usize = 8;

/// The machine.
pub struct VM<E: ExecutorLike> {
    pub registers: Vec<i32>,
    pub inst_buffer: Vec<u8>,
    pub program_counter: usize,
    pub slot_table: SlotTable,
    pub executors: Vec<E>,
    pub device_affinity: Option<u8>,
}

impl<E: ExecutorLike> VM<E> {
    /// Well-formedness: the register file is full-width and the slot table
    /// is internally consistent.
    pub open spec fn wf(self) -> bool {
        &&& self.registers@.len() == REGISTER_COUNT
        &&& self.slot_table.wf()
    }

    /// The undecoded remainder of the instruction buffer.
    pub open spec fn tape(self) -> Seq<u8> {
        self.inst_buffer@.skip(self.program_counter as int)
    }

    /// A fresh machine: empty buffer, zeroed registers, empty slot table,
    /// no executors, no device affinity.
    pub fn new() -> (r: VM<E>)
        ensures
            r.wf(),
            r.program_counter == 0,
            r.inst_buffer@.len() == 0,
            r.executors@.len() == 0,
            r.device_affinity is None,
            r.slot_table.next_id_spec() == 0,
            forall|i: int| 0 <= i < REGISTER_COUNT ==> r.registers@[i] == 0,
            forall|s: int| 0 <= s < SLOT_COUNT ==> #[trigger] r.slot_table.tensor_spec(s) is None,
            forall|s: int|
                0 <= s < SLOT_COUNT ==> (#[trigger] r.slot_table.signals_spec(s)).len() == 0,
    {
        let mut registers: Vec<i32> = Vec::new();
        let mut i: usize = 0;
        while i < REGISTER_COUNT
            invariant
                i <= REGISTER_COUNT,
                registers@.len() == i,
                forall|j: int| 0 <= j < i ==> registers@[j] == 0,
            decreases REGISTER_COUNT - i,
        {
            registers.push(0);
            i = i + 1;
        }
        VM {
            registers,
            inst_buffer: Vec::new(),
            program_counter: 0,
            slot_table: SlotTable::new(),
            executors: Vec::new(),
            device_affinity: None,
        }
    }

    /// Spawns `executor_cnt` executors of the backend family and prepares
    /// each of them.
    pub fn init(&mut self, executor_cnt: usize)
        requires
            old(self).wf(),
            old(self).executors@.len() + executor_cnt <= usize::MAX,
        ensures
            final(self).wf(),
            final(self).executors@.len() == old(self).executors@.len() + executor_cnt,
            final(self).registers == old(self).registers,
            final(self).inst_buffer == old(self).inst_buffer,
            final(self).program_counter == old(self).program_counter,
            final(self).slot_table == old(self).slot_table,
            final(self).device_affinity == old(self).device_affinity,
    {
        let mut i: usize = 0;
        while i < executor_cnt
            invariant
                i <= executor_cnt,
                self.executors@.len() == old(self).executors@.len() + i,
                old(self).executors@.len() + executor_cnt <= usize::MAX,
                self.registers == old(self).registers,
                self.inst_buffer == old(self).inst_buffer,
                self.program_counter == old(self).program_counter,
                self.slot_table == old(self).slot_table,
                self.device_affinity == old(self).device_affinity,
                old(self).wf(),
            decreases executor_cnt - i,
        {
            let mut e = E::new_with_typeid(0);
            e.init();
            self.executors.push(e);
            i = i + 1;
        }
    }

    /// The instruction buffer.
    pub fn inst_buffer(&self) -> (r: &Vec<u8>)
        ensures
            r == &self.inst_buffer,
    {
        &self.inst_buffer
    }

    /// The register file.
    pub fn registers(&self) -> (r: &[i32])
        ensures
            r@ == self.registers@,
    {
        self.registers.as_slice()
    }

    /// Appends one byte of bytecode to the command buffer.
    pub fn push_bytecode_into_cmdbuffer(&mut self, byte: u8)
        ensures
            final(self).inst_buffer@ == old(self).inst_buffer@.push(byte),
            final(self).registers == old(self).registers,
            final(self).program_counter == old(self).program_counter,
            final(self).slot_table == old(self).slot_table,
            final(self).executors == old(self).executors,
            final(self).device_affinity == old(self).device_affinity,
    {
        self.inst_buffer.push(byte);
    }

    /// Reads the opcode at the program counter and advances past it; once
    /// the counter has left the buffer, execution is finished.
    pub fn fetch_instruction(&mut self) -> (r: Result<CRTOpCode, RuntimeStatusError>)
        ensures
            final(self).registers == old(self).registers,
            final(self).inst_buffer == old(self).inst_buffer,
            final(self).slot_table == old(self).slot_table,
            final(self).executors == old(self).executors,
            final(self).device_affinity == old(self).device_affinity,
            old(self).program_counter < old(self).inst_buffer@.len() ==> r == Ok::<
                CRTOpCode,
                RuntimeStatusError,
            >(
                CRTOpCode::from_byte_spec(
                    old(self).inst_buffer@[old(self).program_counter as int],
                ),
            ) && final(self).program_counter == old(self).program_counter + 1,
            old(self).program_counter >= old(self).inst_buffer@.len() ==> r == Err::<
                CRTOpCode,
                RuntimeStatusError,
            >(RuntimeStatusError::EXEC_FINISH) && final(self).program_counter == old(
                self,
            ).program_counter,
    {
        if self.program_counter >= self.inst_buffer.len() {
            return Err(RuntimeStatusError::EXEC_FINISH);
        }
        let opcode = CRTOpCode::from(self.inst_buffer[self.program_counter]);
        self.program_counter = self.program_counter + 1;
        Ok(opcode)
    }

    /// Reads one operand byte and advances past it.
    pub fn decode_u8(&mut self) -> (r: u8)
        requires
            old(self).program_counter < old(self).inst_buffer@.len(),
        ensures
            r == old(self).inst_buffer@[old(self).program_counter as int],
            final(self).program_counter == old(self).program_counter + 1,
            final(self).registers == old(self).registers,
            final(self).inst_buffer == old(self).inst_buffer,
            final(self).slot_table == old(self).slot_table,
            final(self).executors == old(self).executors,
            final(self).device_affinity == old(self).device_affinity,
    {
        let n = self.inst_buffer.len();
        let b = self.inst_buffer[self.program_counter];
        self.program_counter = self.program_counter + 1;
        b
    }

    /// Reads a 16-bit big-endian operand and advances past it.
    pub fn get_next_two_bytes(&mut self) -> (r: u16)
        requires
            old(self).program_counter + 2 <= old(self).inst_buffer@.len(),
        ensures
            r == (old(self).inst_buffer@[old(self).program_counter as int] as int) * 256 + (old(
                self,
            ).inst_buffer@[old(self).program_counter as int + 1] as int),
            final(self).program_counter == old(self).program_counter + 2,
            final(self).registers == old(self).registers,
            final(self).inst_buffer == old(self).inst_buffer,
            final(self).slot_table == old(self).slot_table,
            final(self).executors == old(self).executors,
            final(self).device_affinity == old(self).device_affinity,
    {
        let n = self.inst_buffer.len();
        let hi = self.inst_buffer[self.program_counter];
        let lo = self.inst_buffer[self.program_counter + 1];
        self.program_counter = self.program_counter + 2;
        (hi as u16) * 256 + (lo as u16)
    }

    /// Reads four operand bytes and advances past them.
    pub fn get_next_four_bytes(&mut self) -> (r: [u8; 4])
        requires
            old(self).program_counter + 4 <= old(self).inst_buffer@.len(),
        ensures
            r@ == old(self).inst_buffer@.subrange(
                old(self).program_counter as int,
                old(self).program_counter as int + 4,
            ),
            final(self).program_counter == old(self).program_counter + 4,
            final(self).registers == old(self).registers,
            final(self).inst_buffer == old(self).inst_buffer,
            final(self).slot_table == old(self).slot_table,
            final(self).executors == old(self).executors,
            final(self).device_affinity == old(self).device_affinity,
    {
        let n = self.inst_buffer.len();
        let b0 = self.inst_buffer[self.program_counter];
        let b1 = self.inst_buffer[self.program_counter + 1];
        let b2 = self.inst_buffer[self.program_counter + 2];
        let b3 = self.inst_buffer[self.program_counter + 3];
        self.program_counter = self.program_counter + 4;
        let r = [b0, b1, b2, b3];
        proof {
            assert(r@ =~= old(self).inst_buffer@.subrange(
                old(self).program_counter as int,
                old(self).program_counter as int + 4,
            ));
        }
        r
    }
}

/// Reads a length-prefixed serialized machine-word list at `pos`.
pub fn read_usize_field(buf: &Vec<u8>, pos: usize) -> (r: Option<(Vec<usize>, usize)>)
    requires
        pos <= buf@.len(),
    ensures
        r matches Some(p) ==> dec_field_usize_vec(buf@.skip(pos as int)) == Some(
            (p.0@, p.1 - pos as int),
        ) && pos < p.1 <= buf@.len() && crate::assembler::usize_field_fits(p.0@.len()),
        r is None ==> dec_field_usize_vec(buf@.skip(pos as int)) is None,
{
    let ghost b = buf@.skip(pos as int);
    if buf.len() - pos < 2 {
        return None;
    }
    let l = u16_from_le(buf[pos], buf[pos + 1]) as usize;
    proof {
        assert(b[0] == buf@[pos as int]);
        assert(b[1] == buf@[pos as int + 1]);
        assert(l == u16_of_le(b[0], b[1]));
    }
    if buf.len() - pos - 2 < l {
        return None;
    }
    let mut tmp: Vec<u8> = Vec::new();
    let mut k: usize = 0;
    while k < l
        invariant
            k <= l,
            pos + 2 + l <= buf@.len() <= usize::MAX,
            tmp@ == buf@.subrange(pos as int + 2, pos as int + 2 + k as int),
        decreases l - k,
    {
        tmp.push(buf[pos + 2 + k]);
        proof {
            assert(buf@.subrange(pos as int + 2, pos as int + 2 + k as int).push(
                buf@[pos as int + 2 + k as int],
            ) =~= buf@.subrange(pos as int + 2, pos as int + 2 + k as int + 1));
        }
        k = k + 1;
    }
    proof {
        assert(tmp@ =~= b.subrange(2, 2 + l as int));
    }
    match deserialize_usize_vec(tmp.as_slice()) {
        Some(v) => {
            proof {
                let p = b.subrange(2, 2 + l as int);
                crate::codec::lemma_usizes_of_le_bytes_len(
                    p.subrange(8, 8 + 8 * (crate::codec::u64_of_le(p.take(8)) as int)),
                );
            }
            Some((v, pos + 2 + l))
        },
        None => None,
    }
}

/// Reads a length-prefixed serialized 32-bit-element list at `pos`.
pub fn read_u32_field(buf: &Vec<u8>, pos: usize) -> (r: Option<(Vec<u32>, usize)>)
    requires
        pos <= buf@.len(),
    ensures
        r matches Some(p) ==> dec_field_u32_vec(buf@.skip(pos as int)) == Some(
            (p.0@, p.1 - pos as int),
        ) && pos < p.1 <= buf@.len() && crate::assembler::u32_field_fits(p.0@.len()),
        r is None ==> dec_field_u32_vec(buf@.skip(pos as int)) is None,
{
    let ghost b = buf@.skip(pos as int);
    if buf.len() - pos < 2 {
        return None;
    }
    let l = u16_from_le(buf[pos], buf[pos + 1]) as usize;
    proof {
        assert(b[0] == buf@[pos as int]);
        assert(b[1] == buf@[pos as int + 1]);
        assert(l == u16_of_le(b[0], b[1]));
    }
    if buf.len() - pos - 2 < l {
        return None;
    }
    let mut tmp: Vec<u8> = Vec::new();
    let mut k: usize = 0;
    while k < l
        invariant
            k <= l,
            pos + 2 + l <= buf@.len() <= usize::MAX,
            tmp@ == buf@.subrange(pos as int + 2, pos as int + 2 + k as int),
        decreases l - k,
    {
        tmp.push(buf[pos + 2 + k]);
        proof {
            assert(buf@.subrange(pos as int + 2, pos as int + 2 + k as int).push(
                buf@[pos as int + 2 + k as int],
            ) =~= buf@.subrange(pos as int + 2, pos as int + 2 + k as int + 1));
        }
        k = k + 1;
    }
    proof {
        assert(tmp@ =~= b.subrange(2, 2 + l as int));
    }
    match deserialize_u32_vec(tmp.as_slice()) {
        Some(v) => {
            proof {
                let p = b.subrange(2, 2 + l as int);
                crate::codec::lemma_u32s_of_le_bytes_len(
                    p.subrange(8, 8 + 4 * (crate::codec::u64_of_le(p.take(8)) as int)),
                );
            }
            Some((v, pos + 2 + l))
        },
        None => None,
    }
}

impl<E: ExecutorLike> VM<E> {
    /// Decodes the instruction at the program counter without moving it:
    /// the instruction and the position just past it.  `DEVAT` is a module
    /// boundary, not an instruction, and decodes to nothing.
    #[verifier::rlimit(100)]
    #[verifier::spinoff_prover]
    pub fn fetch_decode(&self) -> (r: Option<(AsmInstruction, usize)>)
        requires
            self.program_counter < self.inst_buffer@.len(),
        ensures
            r matches Some(p) ==> decode_inst(self.tape()) == Some(
                (p.0@, p.1 - self.program_counter as int),
            ) && self.program_counter < p.1 <= self.inst_buffer@.len() && p.0@.wf(),
            r is None ==> decode_inst(self.tape()) is None,
    {
        proof {
            reveal(decode_inst);
        }
        let ghost b = self.tape();
        let buf = &self.inst_buffer;
        let pc = self.program_counter;
        let n = buf.len();
        proof {
            assert(b.len() == n - pc);
            assert forall|i: int| 0 <= i < b.len() implies b[i] == buf@[pc + i] by {}
        }
        let code = CRTOpCode::from(buf[pc]);
        let opcode_token = Token::BytecodeOpCode { code };
        match code {
            CRTOpCode::HALT | CRTOpCode::NOOP | CRTOpCode::ILLEGAL => {
                Some((AsmInstruction::new(opcode_token, None, None, None), pc + 1))
            },
            CRTOpCode::LOAD => {
                if n - pc < 4 {
                    return None;
                }
                let reg = buf[pc + 1];
                let imm: u16 = (buf[pc + 2] as u16) * 256 + (buf[pc + 3] as u16);
                Some(
                    (
                        AsmInstruction::new(
                            opcode_token,
                            Some(Token::Variable { symbol: reg }),
                            Some(Token::I32Literal { value: imm as i32 }),
                            None,
                        ),
                        pc + 4,
                    ),
                )
            },
            CRTOpCode::RETV => {
                if n - pc < 2 {
                    return None;
                }
                Some(
                    (
                        AsmInstruction::new(
                            opcode_token,
                            Some(Token::Variable { symbol: buf[pc + 1] }),
                            None,
                            None,
                        ),
                        pc + 2,
                    ),
                )
            },
            CRTOpCode::EXPF32 | CRTOpCode::RELU | CRTOpCode::SOFTMAX => {
                if n - pc < 3 {
                    return None;
                }
                Some(
                    (
                        AsmInstruction::new(
                            opcode_token,
                            Some(Token::Variable { symbol: buf[pc + 1] }),
                            Some(Token::Variable { symbol: buf[pc + 2] }),
                            None,
                        ),
                        pc + 3,
                    ),
                )
            },
            CRTOpCode::ADDI32 | CRTOpCode::SUBI32 | CRTOpCode::MULI32 | CRTOpCode::FLOORDIVI32
                | CRTOpCode::ADDF32 | CRTOpCode::SUBF32 | CRTOpCode::MULF32 | CRTOpCode::DIVF32
                | CRTOpCode::MATMULF32 => {
                if n - pc < 4 {
                    return None;
                }
                Some(
                    (
                        AsmInstruction::new(
                            opcode_token,
                            Some(Token::Variable { symbol: buf[pc + 1] }),
                            Some(Token::Variable { symbol: buf[pc + 2] }),
                            Some(Token::Variable { symbol: buf[pc + 3] }),
                        ),
                        pc + 4,
                    ),
                )
            },
            CRTOpCode::CONSTI32 => {
                if n - pc < 6 {
                    return None;
                }
                let v = u32_from_le(buf[pc + 2], buf[pc + 3], buf[pc + 4], buf[pc + 5]);
                Some(
                    (
                        AsmInstruction::new(
                            opcode_token,
                            Some(Token::Variable { symbol: buf[pc + 1] }),
                            Some(Token::I32Literal { value: #[verifier::truncate] (v as i32) }),
                            None,
                        ),
                        pc + 6,
                    ),
                )
            },
            CRTOpCode::CONSTF32 => {
                if n - pc < 6 {
                    return None;
                }
                let v = u32_from_le(buf[pc + 2], buf[pc + 3], buf[pc + 4], buf[pc + 5]);
                Some(
                    (
                        AsmInstruction::new(
                            opcode_token,
                            Some(Token::Variable { symbol: buf[pc + 1] }),
                            Some(Token::F32Literal { bits: v }),
                            None,
                        ),
                        pc + 6,
                    ),
                )
            },
            CRTOpCode::CONSTTENSOR => {
                if n - pc < 2 {
                    return None;
                }
                match read_u32_field(buf, pc + 2) {
                    Some((data, p1)) => {
                        proof {
                            assert(b.skip(2) =~= buf@.skip(pc + 2));
                        }
                        match read_usize_field(buf, p1) {
                            Some((shape, p2)) => {
                                proof {
                                    assert(b.skip(2 + (p1 - (pc + 2))) =~= buf@.skip(p1 as int));
                                }
                                Some(
                                    (
                                        AsmInstruction::new(
                                            opcode_token,
                                            Some(Token::Variable { symbol: buf[pc + 1] }),
                                            Some(Token::Tensor { raw_data: data, shape }),
                                            None,
                                        ),
                                        p2,
                                    ),
                                )
                            },
                            None => {
                                proof {
                                    assert(b.skip(2 + (p1 - (pc + 2))) =~= buf@.skip(p1 as int));
                                }
                                None
                            },
                        }
                    },
                    None => None,
                }
            },
            CRTOpCode::SVALUETENSOR => {
                if n - pc < 6 {
                    return None;
                }
                let v = u32_from_le(buf[pc + 2], buf[pc + 3], buf[pc + 4], buf[pc + 5]);
                match read_usize_field(buf, pc + 6) {
                    Some((shape, p1)) => {
                        proof {
                            assert(b.skip(6) =~= buf@.skip(pc + 6));
                        }
                        Some(
                            (
                                AsmInstruction::new(
                                    opcode_token,
                                    Some(Token::Variable { symbol: buf[pc + 1] }),
                                    Some(Token::UninitTensor { generator_bits: v, shape }),
                                    None,
                                ),
                                p1,
                            ),
                        )
                    },
                    None => {
                        proof {
                            assert(b.skip(6) =~= buf@.skip(pc + 6));
                        }
                        None
                    },
                }
            },
            CRTOpCode::RNGTENSOR => {
                if n - pc < 3 {
                    return None;
                }
                match read_usize_field(buf, pc + 3) {
                    Some((shape, p1)) => {
                        proof {
                            assert(b.skip(3) =~= buf@.skip(pc + 3));
                        }
                        Some(
                            (
                                AsmInstruction::new(
                                    opcode_token,
                                    Some(Token::Variable { symbol: buf[pc + 1] }),
                                    Some(
                                        Token::UninitRNGTensor {
                                            distribution: buf[pc + 2],
                                            shape,
                                        },
                                    ),
                                    None,
                                ),
                                p1,
                            ),
                        )
                    },
                    None => {
                        proof {
                            assert(b.skip(3) =~= buf@.skip(pc + 3));
                        }
                        None
                    },
                }
            },
            CRTOpCode::RESHAPE | CRTOpCode::TRANSPOSE => {
                if n - pc < 3 {
                    return None;
                }
                match read_usize_field(buf, pc + 3) {
                    Some((dims, p1)) => {
                        proof {
                            assert(b.skip(3) =~= buf@.skip(pc + 3));
                        }
                        Some(
                            (
                                AsmInstruction::new(
                                    opcode_token,
                                    Some(Token::Variable { symbol: buf[pc + 1] }),
                                    Some(Token::Variable { symbol: buf[pc + 2] }),
                                    Some(Token::Shape { dims }),
                                ),
                                p1,
                            ),
                        )
                    },
                    None => {
                        proof {
                            assert(b.skip(3) =~= buf@.skip(pc + 3));
                        }
                        None
                    },
                }
            },
            CRTOpCode::MAXPOOL | CRTOpCode::REDUCEMEAN | CRTOpCode::FLATTEN => {
                read_layer_unary(buf, pc, code)
            },
            CRTOpCode::GEMM | CRTOpCode::CONVADD => read_layer_ternary(buf, pc, code),
            CRTOpCode::DEVAT => None,
        }
    }
}

/// Decodes a one-input layer instruction (slot pair plus the result-type
/// annotation) at `pc`.
fn read_layer_unary(buf: &Vec<u8>, pc: usize, code: CRTOpCode) -> (r: Option<(
    AsmInstruction,
    usize,
)>)
    requires
        pc < buf@.len(),
        CRTOpCode::from_byte_spec(buf@[pc as int]) == code,
        code == CRTOpCode::MAXPOOL || code == CRTOpCode::REDUCEMEAN || code == CRTOpCode::FLATTEN,
    ensures
        r matches Some(p) ==> decode_inst(buf@.skip(pc as int)) == Some(
            (p.0@, p.1 - pc as int),
        ) && pc < p.1 <= buf@.len() && p.0@.wf(),
        r is None ==> decode_inst(buf@.skip(pc as int)) is None,
{
    proof {
        reveal(decode_inst);
    }
    let ghost b = buf@.skip(pc as int);
    let n = buf.len();
    if n - pc < 4 {
        return None;
    }
    let dtype = match crate::base::ElementType::from_code(buf[pc + 3]) {
        Some(d) => d,
        None => {
            proof {
                assert(b.skip(3)[0] == buf@[pc + 3]);
            }
            return None;
        },
    };
    proof {
        assert(b.skip(3)[0] == buf@[pc + 3]);
    }
    match read_usize_field(buf, pc + 4) {
        Some((shape, p1)) => {
            proof {
                assert(b.skip(3).skip(1) =~= buf@.skip(pc + 4));
            }
            Some(
                (
                    AsmInstruction::new_annotated(
                        Token::BytecodeOpCode { code },
                        Some(Token::Variable { symbol: buf[pc + 1] }),
                        Some(Token::Variable { symbol: buf[pc + 2] }),
                        None,
                        None,
                        Some(Token::RankedTensorType { dtype, shape }),
                    ),
                    p1,
                ),
            )
        },
        None => {
            proof {
                assert(b.skip(3).skip(1) =~= buf@.skip(pc + 4));
            }
            None
        },
    }
}

/// Decodes a three-input layer instruction (four slots plus the
/// result-type annotation) at `pc`.
fn read_layer_ternary(buf: &Vec<u8>, pc: usize, code: CRTOpCode) -> (r: Option<(
    AsmInstruction,
    usize,
)>)
    requires
        pc < buf@.len(),
        CRTOpCode::from_byte_spec(buf@[pc as int]) == code,
        code == CRTOpCode::GEMM || code == CRTOpCode::CONVADD,
    ensures
        r matches Some(p) ==> decode_inst(buf@.skip(pc as int)) == Some(
            (p.0@, p.1 - pc as int),
        ) && pc < p.1 <= buf@.len() && p.0@.wf(),
        r is None ==> decode_inst(buf@.skip(pc as int)) is None,
{
    proof {
        reveal(decode_inst);
    }
    let ghost b = buf@.skip(pc as int);
    let n = buf.len();
    if n - pc < 6 {
        return None;
    }
    let dtype = match crate::base::ElementType::from_code(buf[pc + 5]) {
        Some(d) => d,
        None => {
            proof {
                assert(b.skip(5)[0] == buf@[pc + 5]);
            }
            return None;
        },
    };
    proof {
        assert(b.skip(5)[0] == buf@[pc + 5]);
    }
    match read_usize_field(buf, pc + 6) {
        Some((shape, p1)) => {
            proof {
                assert(b.skip(5).skip(1) =~= buf@.skip(pc + 6));
            }
            Some(
                (
                    AsmInstruction::new_annotated(
                        Token::BytecodeOpCode { code },
                        Some(Token::Variable { symbol: buf[pc + 1] }),
                        Some(Token::Variable { symbol: buf[pc + 2] }),
                        Some(Token::Variable { symbol: buf[pc + 3] }),
                        Some(Token::Variable { symbol: buf[pc + 4] }),
                        Some(Token::RankedTensorType { dtype, shape }),
                    ),
                    p1,
                ),
            )
        },
        None => {
            proof {
                assert(b.skip(5).skip(1) =~= buf@.skip(pc + 6));
            }
            None
        },
    }
}

} // verus!

verus! {

/// The tensors of two tables agree on every slot.
pub open spec fn tensors_unchanged(pre: SlotTable, post: SlotTable) -> bool {
    forall|s: int| 0 <= s < SLOT_COUNT ==> #[trigger] post.tensor_spec(s) == pre.tensor_spec(s)
}

/// `out` was written with `tv` and its queue replaced by `n` fresh, fired
/// signals; every other slot is untouched.
pub open spec fn wrote_and_enrolled(
    pre: SlotTable,
    post: SlotTable,
    out: int,
    tv: TensorVal,
    n: nat,
) -> bool {
    &&& post.tensor_spec(out) == Some(tv)
    &&& forall|s: int|
        0 <= s < SLOT_COUNT && s != out ==> #[trigger] post.tensor_spec(s) == pre.tensor_spec(s)
    &&& post.signals_spec(out).len() == n
    &&& forall|i: int|
        0 <= i < n ==> (#[trigger] post.signals_spec(out)[i]) == (ReadySignal {
            id: (pre.next_id_spec() + i) as u64,
            fired: true,
        })
    &&& forall|s: int|
        0 <= s < SLOT_COUNT && s != out ==> #[trigger] post.signals_spec(s) == pre.signals_spec(s)
    &&& post.next_id_spec() == pre.next_id_spec() + n
}

/// The number of times `x` occurs in `s`.
pub open spec fn seq_count(s: Seq<int>, x: int) -> int
    decreases s.len(),
{
    if s.len() == 0 {
        0
    } else {
        (if s[0] == x {
            1int
        } else {
            0int
        }) + seq_count(s.skip(1), x)
    }
}

/// `out` was written with a tensor and its queue replaced by a fresh
/// dispatch batch, after the listed input pops.
pub open spec fn wrote_dispatched(
    pre: SlotTable,
    post: SlotTable,
    out: int,
    tv: TensorVal,
    pops: Seq<int>,
) -> bool {
    &&& post.tensor_spec(out) == Some(tv)
    &&& forall|s: int|
        0 <= s < SLOT_COUNT && s != out ==> #[trigger] post.tensor_spec(s) == pre.tensor_spec(s)
    &&& post.signals_spec(out).len() == SIGNAL_FANOUT
    &&& forall|i: int|
        0 <= i < SIGNAL_FANOUT ==> (#[trigger] post.signals_spec(out)[i]) == (ReadySignal {
            id: (pre.next_id_spec() + i) as u64,
            fired: true,
        })
    &&& forall|s: int|
        0 <= s < SLOT_COUNT && s != out ==> #[trigger] post.signals_spec(s) == pre.signals_spec(
            s,
        ).skip(seq_count(pops, s))
    &&& post.next_id_spec() == pre.next_id_spec() + SIGNAL_FANOUT
}

/// Whether the lazy-mode pops an instruction needs are possible: every
/// input slot still owes a signal, and the signals are fired.
pub open spec fn lazy_pops_ok(pre: SlotTable, pops: Seq<int>) -> bool {
    forall|s: int|
        0 <= s < SLOT_COUNT ==> seq_count(pops, s) <= (#[trigger] pre.signals_spec(s)).len()
            && (forall|i: int|
            0 <= i < seq_count(pops, s) ==> (#[trigger] pre.signals_spec(s)[i]).fired)
}

/// Whether the device-affinity field names a usable executor.
pub open spec fn executor_ok<E: ExecutorLike>(pre: VM<E>) -> bool {
    match pre.device_affinity {
        None => pre.executors@.len() > 0,
        Some(d) => (d as int) < pre.executors@.len(),
    }
}

/// What one interpretation step does, as a relation between the machine
/// before and after it, the status it reports, and the execution mode.
#[verifier::opaque]
pub open spec fn step_post<E: ExecutorLike>(
    pre: VM<E>,
    post: VM<E>,
    r: Result<u8, RuntimeStatusError>,
    lazy: bool,
) -> bool {
    let b = pre.tape();
    let avail = pre.slot_table.next_id_spec() + 64 <= u64::MAX;
    &&& post.inst_buffer == pre.inst_buffer
    &&& post.executors@.len() == pre.executors@.len()
    &&& (r matches Ok(c) ==> c == 0 || c == 1 || c == 2)
    &&& (r is Err ==> r == Err::<u8, RuntimeStatusError>(RuntimeStatusError::RT_ERROR))
    &&& (r == Ok::<u8, RuntimeStatusError>(0) ==> pre.program_counter < post.program_counter
        <= pre.inst_buffer@.len())
    &&& if b[0] == CRTOpCode::DEVAT.byte_spec() {
        &&& post.registers == pre.registers
        &&& post.slot_table == pre.slot_table
        &&& if b.len() >= 2 {
            &&& r == Ok::<u8, RuntimeStatusError>(0)
            &&& post.device_affinity == (if b[1] == DEV_ANY {
                None
            } else {
                Some(b[1])
            })
            &&& post.program_counter == pre.program_counter + 2
        } else {
            r is Err
        }
    } else {
        &&& post.device_affinity == pre.device_affinity
        &&& match decode_inst(b) {
            None => r is Err && post.registers == pre.registers && tensors_unchanged(
                pre.slot_table,
                post.slot_table,
            ),
            Some((iv, c)) => {
                let npc = pre.program_counter + c;
                &&& (iv.code() != CRTOpCode::LOAD ==> post.registers == pre.registers)
                &&& match iv.code() {
                    CRTOpCode::HALT => r == Ok::<u8, RuntimeStatusError>(1)
                        && post.program_counter == npc && post.slot_table == pre.slot_table,
                    CRTOpCode::NOOP => r == Ok::<u8, RuntimeStatusError>(0)
                        && post.program_counter == npc && post.slot_table == pre.slot_table,
                    CRTOpCode::ILLEGAL => r is Err && post.slot_table == pre.slot_table
                        && post.program_counter == npc,
                    CRTOpCode::LOAD => {
                        let reg = iv.operand1->Some_0->Variable_symbol;
                        let v = iv.operand2->Some_0->I32Literal_value;
                        &&& post.slot_table == pre.slot_table
                        &&& if (reg as int) < REGISTER_COUNT {
                            &&& r == Ok::<u8, RuntimeStatusError>(0)
                            &&& post.program_counter == npc
                            &&& post.registers@ == pre.registers@.update(reg as int, v)
                        } else {
                            r is Err && post.registers == pre.registers
                        }
                    },
                    CRTOpCode::CONSTI32 => {
                        let out = iv.operand1->Some_0->Variable_symbol;
                        let v = iv.operand2->Some_0->I32Literal_value;
                        if avail {
                            &&& r == Ok::<u8, RuntimeStatusError>(0)
                            &&& post.program_counter == npc
                            &&& wrote_and_enrolled(
                                pre.slot_table,
                                post.slot_table,
                                out as int,
                                TensorVal::I32 { elems: seq![v], shape: seq![1usize] },
                                READY_FANOUT as nat,
                            )
                        } else {
                            r is Err && tensors_unchanged(pre.slot_table, post.slot_table)
                        }
                    },
                    CRTOpCode::CONSTF32 => {
                        let out = iv.operand1->Some_0->Variable_symbol;
                        let bits = iv.operand2->Some_0->F32Literal_bits;
                        if avail {
                            &&& r == Ok::<u8, RuntimeStatusError>(0)
                            &&& post.program_counter == npc
                            &&& wrote_and_enrolled(
                                pre.slot_table,
                                post.slot_table,
                                out as int,
                                TensorVal::F32 { bits: seq![bits], shape: seq![1usize] },
                                READY_FANOUT as nat,
                            )
                        } else {
                            r is Err && tensors_unchanged(pre.slot_table, post.slot_table)
                        }
                    },
                    CRTOpCode::CONSTTENSOR => {
                        let out = iv.operand1->Some_0->Variable_symbol;
                        let data = iv.operand2->Some_0->Tensor_raw_data;
                        let shape = iv.operand2->Some_0->Tensor_shape;
                        if avail && data.len() == shape_product(shape) {
                            &&& r == Ok::<u8, RuntimeStatusError>(0)
                            &&& post.program_counter == npc
                            &&& wrote_and_enrolled(
                                pre.slot_table,
                                post.slot_table,
                                out as int,
                                TensorVal::F32 { bits: data, shape },
                                READY_FANOUT as nat,
                            )
                        } else {
                            r is Err && tensors_unchanged(pre.slot_table, post.slot_table)
                        }
                    },
                    CRTOpCode::SVALUETENSOR => {
                        let out = iv.operand1->Some_0->Variable_symbol;
                        let bits = iv.operand2->Some_0->UninitTensor_generator_bits;
                        let shape = iv.operand2->Some_0->UninitTensor_shape;
                        if avail && shape_product(shape) <= usize::MAX {
                            &&& r == Ok::<u8, RuntimeStatusError>(0)
                            &&& post.program_counter == npc
                            &&& wrote_and_enrolled(
                                pre.slot_table,
                                post.slot_table,
                                out as int,
                                TensorVal::F32 {
                                    bits: Seq::new(shape_product(shape) as nat, |i: int| bits),
                                    shape,
                                },
                                READY_FANOUT as nat,
                            )
                        } else {
                            r is Err && tensors_unchanged(pre.slot_table, post.slot_table)
                        }
                    },
                    CRTOpCode::RNGTENSOR => {
                        let out = iv.operand1->Some_0->Variable_symbol;
                        let dist = iv.operand2->Some_0->UninitRNGTensor_distribution;
                        let shape = iv.operand2->Some_0->UninitRNGTensor_shape;
                        &&& (!avail || dist >= 2 || shape_product(shape) > usize::MAX
                            || !executor_ok(pre) ==> r is Err)
                        &&& (r is Err ==> tensors_unchanged(pre.slot_table, post.slot_table))
                        &&& (r matches Ok(c) ==> c == 0 && post.program_counter == npc && (
                        post.slot_table.tensor_spec(out as int) matches Some(tv) && tv.wf()
                            && tv.shape_spec() == shape && tv.dtype_spec()
                            == crate::base::ElementType::F32) && wrote_and_enrolled(
                            pre.slot_table,
                            post.slot_table,
                            out as int,
                            post.slot_table.tensor_spec(out as int)->Some_0,
                            READY_FANOUT as nat,
                        ))
                    },
                    CRTOpCode::EXPF32 | CRTOpCode::RELU | CRTOpCode::SOFTMAX => {
                        let out = iv.operand1->Some_0->Variable_symbol;
                        let inp = iv.operand2->Some_0->Variable_symbol;
                        let pops = if lazy {
                            seq![inp as int]
                        } else {
                            Seq::<int>::empty()
                        };
                        &&& (!avail || pre.slot_table.tensor_spec(inp as int) is None
                            || !executor_ok(pre) || !lazy_pops_ok(pre.slot_table, pops) ==> r
                            is Err)
                        &&& (r is Err ==> tensors_unchanged(pre.slot_table, post.slot_table))
                        &&& (r matches Ok(c) ==> c == 0 && post.program_counter == npc && (
                        pre.slot_table.tensor_spec(inp as int) matches Some(itv) && (
                        post.slot_table.tensor_spec(out as int) matches Some(tv) && tv.wf()
                            && tv.shape_spec() == itv.shape_spec() && tv.dtype_spec()
                            == itv.dtype_spec())) && wrote_dispatched(
                            pre.slot_table,
                            post.slot_table,
                            out as int,
                            post.slot_table.tensor_spec(out as int)->Some_0,
                            pops,
                        ))
                    },
                    CRTOpCode::ADDI32 | CRTOpCode::SUBI32 | CRTOpCode::MULI32
                        | CRTOpCode::FLOORDIVI32 | CRTOpCode::ADDF32 | CRTOpCode::SUBF32
                        | CRTOpCode::MULF32 | CRTOpCode::DIVF32 | CRTOpCode::MATMULF32 => {
                        let op = iv.code();
                        let out = iv.operand1->Some_0->Variable_symbol;
                        let lsl = iv.operand2->Some_0->Variable_symbol;
                        let rsl = iv.operand3->Some_0->Variable_symbol;
                        let pops = if lazy {
                            seq![lsl as int, rsl as int]
                        } else {
                            Seq::<int>::empty()
                        };
                        &&& (!avail || pre.slot_table.tensor_spec(lsl as int) is None
                            || pre.slot_table.tensor_spec(rsl as int) is None || !executor_ok(pre)
                            || !lazy_pops_ok(pre.slot_table, pops) ==> r is Err)
                        &&& (r is Err ==> tensors_unchanged(pre.slot_table, post.slot_table))
                        &&& (r matches Ok(c) ==> c == 0 && post.program_counter == npc && (
                        pre.slot_table.tensor_spec(lsl as int) matches Some(ltv) && (
                        pre.slot_table.tensor_spec(rsl as int) matches Some(rtv) && (
                        post.slot_table.tensor_spec(out as int) matches Some(tv) && tv.wf() && (
                        op.is_elementwise_binary() ==> rtv.shape_spec() == ltv.shape_spec()
                            && rtv.dtype_spec() == ltv.dtype_spec() && tv.shape_spec()
                            == ltv.shape_spec() && tv.dtype_spec() == ltv.dtype_spec()) && (
                        op.is_integer_binary() ==> tv == crate::executors::int_binary_val(
                            op,
                            ltv,
                            rtv,
                        )) && (op == CRTOpCode::MATMULF32 ==> crate::executors::matmul_compatible(
                            ltv.shape_spec(),
                            rtv.shape_spec(),
                        ) && tv.shape_spec() == crate::executors::matmul_shape(
                            ltv.shape_spec(),
                            rtv.shape_spec(),
                        ))))) && wrote_dispatched(
                            pre.slot_table,
                            post.slot_table,
                            out as int,
                            post.slot_table.tensor_spec(out as int)->Some_0,
                            pops,
                        ))
                    },
                    CRTOpCode::RESHAPE | CRTOpCode::TRANSPOSE => {
                        let out = iv.operand1->Some_0->Variable_symbol;
                        let inp = iv.operand2->Some_0->Variable_symbol;
                        let dims = iv.operand3->Some_0->Shape_dims;
                        let pops = if lazy {
                            seq![inp as int]
                        } else {
                            Seq::<int>::empty()
                        };
                        let dma_ok = avail && (pre.slot_table.tensor_spec(inp as int) matches Some(
                            itv,
                        ) && itv.len_spec() == shape_product(dims)) && lazy_pops_ok(
                            pre.slot_table,
                            pops,
                        );
                        if dma_ok {
                            &&& r == Ok::<u8, RuntimeStatusError>(0)
                            &&& post.program_counter == npc
                            &&& (pre.slot_table.tensor_spec(inp as int) matches Some(itv)
                                && wrote_dispatched(
                                pre.slot_table,
                                post.slot_table,
                                out as int,
                                reshaped(itv, dims),
                                pops,
                            ))
                        } else {
                            r is Err && tensors_unchanged(pre.slot_table, post.slot_table)
                        }
                    },
                    CRTOpCode::RETV => {
                        let ret = iv.operand1->Some_0->Variable_symbol;
                        let retv_ok = pre.slot_table.signals_spec(ret as int).len() > 0
                            && pre.slot_table.signals_spec(ret as int)[0].fired;
                        // One blocking wait per module: pop the returned
                        // slot's signal, then drop every other slot.
                        if retv_ok {
                            &&& r == Ok::<u8, RuntimeStatusError>(2)
                            &&& post.program_counter == npc
                            &&& post.slot_table.tensor_spec(ret as int)
                                == pre.slot_table.tensor_spec(ret as int)
                            &&& post.slot_table.signals_spec(ret as int)
                                == pre.slot_table.signals_spec(ret as int).skip(1)
                            &&& forall|s: int|
                                0 <= s < SLOT_COUNT && s != ret as int
                                    ==> #[trigger] post.slot_table.tensor_spec(s) is None
                            &&& forall|s: int|
                                0 <= s < SLOT_COUNT && s != ret as int ==> (
                                #[trigger] post.slot_table.signals_spec(s)).len() == 0
                        } else {
                            r is Err && tensors_unchanged(pre.slot_table, post.slot_table)
                        }
                    },
                    CRTOpCode::MAXPOOL | CRTOpCode::REDUCEMEAN | CRTOpCode::FLATTEN => {
                        let out = iv.operand1->Some_0->Variable_symbol;
                        let inp = iv.operand2->Some_0->Variable_symbol;
                        let ann = iv.result_type->Some_0->RankedTensorType_shape;
                        let pops = if lazy {
                            seq![inp as int]
                        } else {
                            Seq::<int>::empty()
                        };
                        &&& (!avail || pre.slot_table.tensor_spec(inp as int) is None
                            || !executor_ok(pre) || shape_product(ann) > usize::MAX
                            || !lazy_pops_ok(pre.slot_table, pops) ==> r is Err)
                        &&& (r is Err ==> tensors_unchanged(pre.slot_table, post.slot_table))
                        &&& (r matches Ok(c) ==> c == 0 && post.program_counter == npc && (
                        post.slot_table.tensor_spec(out as int) matches Some(tv) && tv.wf()
                            && tv.shape_spec() == ann) && wrote_dispatched(
                            pre.slot_table,
                            post.slot_table,
                            out as int,
                            post.slot_table.tensor_spec(out as int)->Some_0,
                            pops,
                        ))
                    },
                    CRTOpCode::GEMM | CRTOpCode::CONVADD => {
                        let out = iv.operand1->Some_0->Variable_symbol;
                        let aa = iv.operand2->Some_0->Variable_symbol;
                        let bb = iv.operand3->Some_0->Variable_symbol;
                        let cc = iv.operand4->Some_0->Variable_symbol;
                        let ann = iv.result_type->Some_0->RankedTensorType_shape;
                        let pops = if lazy {
                            seq![aa as int, bb as int, cc as int]
                        } else {
                            Seq::<int>::empty()
                        };
                        &&& (!avail || pre.slot_table.tensor_spec(aa as int) is None
                            || pre.slot_table.tensor_spec(bb as int) is None
                            || pre.slot_table.tensor_spec(cc as int) is None || !executor_ok(pre)
                            || shape_product(ann) > usize::MAX || !lazy_pops_ok(
                            pre.slot_table,
                            pops,
                        ) ==> r is Err)
                        &&& (r is Err ==> tensors_unchanged(pre.slot_table, post.slot_table))
                        &&& (r matches Ok(c) ==> c == 0 && post.program_counter == npc && (
                        post.slot_table.tensor_spec(out as int) matches Some(tv) && tv.wf()
                            && tv.shape_spec() == ann) && wrote_dispatched(
                            pre.slot_table,
                            post.slot_table,
                            out as int,
                            post.slot_table.tensor_spec(out as int)->Some_0,
                            pops,
                        ))
                    },
                    // The remaining codes reach no other arm.
                    _ => r is Err && tensors_unchanged(pre.slot_table, post.slot_table),
                }
            },
        }
    }
}

/// The tensor a shape-changing operation produces: the same elements under
/// the new shape.
pub open spec fn reshaped(tv: TensorVal, dims: Seq<usize>) -> TensorVal {
    match tv {
        TensorVal::F32 { bits, .. } => TensorVal::F32 { bits, shape: dims },
        TensorVal::I32 { elems, .. } => TensorVal::I32 { elems, shape: dims },
    }
}

/// Whether a step status lets interpretation proceed: `0` continues in the
/// same module and `2` moves on to the next one.
pub open spec fn continuing(st: Result<u8, RuntimeStatusError>) -> bool {
    st == Ok::<u8, RuntimeStatusError>(0u8) || st == Ok::<u8, RuntimeStatusError>(2u8)
}

/// A chain of interpretation steps from `pre` to `post`: each entry holds
/// the machine before one step and the status that step reported.  Every
/// entry is related to its successor (the next entry's machine, or `post`
/// for the last) by the step relation, and every step but the last let
/// interpretation proceed.
pub open spec fn run_seq_ok<E: ExecutorLike>(
    pre: VM<E>,
    post: VM<E>,
    steps: Seq<(VM<E>, Result<u8, RuntimeStatusError>)>,
    lazy: bool,
) -> bool {
    &&& (if steps.len() == 0 {
        post == pre
    } else {
        steps[0].0 == pre
    })
    &&& forall|i: int|
        0 <= i < steps.len() ==> step_post(
            (#[trigger] steps[i]).0,
            if i + 1 < steps.len() {
                steps[i + 1].0
            } else {
                post
            },
            steps[i].1,
            lazy,
        )
    &&& forall|i: int|
        0 <= i < steps.len() ==> (#[trigger] steps[i]).0.wf() && steps[i].0.program_counter
            < steps[i].0.inst_buffer@.len()
    &&& forall|i: int| 0 <= i < steps.len() - 1 ==> continuing((#[trigger] steps[i]).1)
}

/// What a whole run leaves behind: a step chain from the old machine to
/// the new one, and the returned status determined by how the chain ended.
/// Success comes exactly from a halt or from an exhausted stream after a
/// proceeding step; a fatal step reports its error and stops the chain.
pub open spec fn run_post<E: ExecutorLike>(
    pre: VM<E>,
    post: VM<E>,
    r: Result<u8, RuntimeStatusError>,
    lazy: bool,
    steps: Seq<(VM<E>, Result<u8, RuntimeStatusError>)>,
) -> bool {
    &&& run_seq_ok(pre, post, steps, lazy)
    &&& match r {
        Ok(c) => c == 0 && ((steps.len() > 0 && steps.last().1 == Ok::<u8, RuntimeStatusError>(1u8))
            || (post.program_counter >= post.inst_buffer@.len() && (steps.len() == 0 || continuing(
            steps.last().1,
        )))),
        Err(e) => e == RuntimeStatusError::RT_ERROR && steps.len() > 0 && steps.last().1 == Err::<
            u8,
            RuntimeStatusError,
        >(RuntimeStatusError::RT_ERROR),
    }
}

/// Extending a step chain by one step related to the new final state keeps
/// the chain well formed, as long as every earlier step was a proceeding
/// one.
pub proof fn lemma_run_seq_push<E: ExecutorLike>(
    first: VM<E>,
    pre: VM<E>,
    post: VM<E>,
    steps: Seq<(VM<E>, Result<u8, RuntimeStatusError>)>,
    st: Result<u8, RuntimeStatusError>,
    lazy: bool,
)
    requires
        run_seq_ok(first, pre, steps, lazy),
        steps.len() == 0 || continuing(steps.last().1),
        step_post(pre, post, st, lazy),
        pre.wf(),
        pre.program_counter < pre.inst_buffer@.len(),
    ensures
        run_seq_ok(first, post, steps.push((pre, st)), lazy),
{
    let steps2 = steps.push((pre, st));
    assert forall|i: int| 0 <= i < steps2.len() implies step_post(
        (#[trigger] steps2[i]).0,
        if i + 1 < steps2.len() {
            steps2[i + 1].0
        } else {
            post
        },
        steps2[i].1,
        lazy,
    ) by {
        if i < steps.len() {
            assert(steps2[i] == steps[i]);
            if i + 1 < steps.len() {
                assert(steps2[i + 1] == steps[i + 1]);
            } else {
                assert(steps2[i + 1].0 == pre);
            }
        } else {
            assert(steps2[i] == (pre, st));
        }
    }
    assert forall|i: int| 0 <= i < steps2.len() - 1 implies continuing(
        (#[trigger] steps2[i]).1,
    ) by {
        if i < steps.len() - 1 {
            assert(steps2[i] == steps[i]);
        } else {
            assert(steps2[i] == steps.last());
        }
    }
}

} // verus!

verus! {

/// Occurrence counts in a one-element list.
pub proof fn lemma_seq_count1(x: int, s: int)
    ensures
        seq_count(seq![x], s) == if s == x {
            1int
        } else {
            0int
        },
{
    assert(seq![x][0] == x);
    assert(seq![x].skip(1) =~= Seq::<int>::empty());
    assert(seq_count(Seq::<int>::empty(), s) == 0);
}

/// Occurrence counts in a three-element list.
pub proof fn lemma_seq_count3(x: int, y: int, z: int, s: int)
    ensures
        seq_count(seq![x, y, z], s) == (if s == x {
            1int
        } else {
            0int
        }) + (if s == y {
            1int
        } else {
            0int
        }) + (if s == z {
            1int
        } else {
            0int
        }),
{
    assert(seq![x, y, z].skip(1) =~= seq![y, z]);
    lemma_seq_count2(y, z, s);
}

/// Occurrence counts in a two-element list.
pub proof fn lemma_seq_count2(x: int, y: int, s: int)
    ensures
        seq_count(seq![x, y], s) == (if s == x {
            1int
        } else {
            0int
        }) + (if s == y {
            1int
        } else {
            0int
        }),
{
    assert(seq![x, y].skip(1) =~= seq![y]);
    lemma_seq_count1(y, s);
}

impl<E: ExecutorLike> VM<E> {
    /// The executor the device-affinity field selects: the pinned instance
    /// when affinity is set, any instance otherwise.
    fn pick_executor(&self) -> (r: Option<usize>)
        ensures
            r matches Some(i) ==> (i as int) < self.executors@.len() && executor_ok(*self),
            r is None ==> !executor_ok(*self),
    {
        match self.device_affinity {
            None => {
                if self.executors.len() > 0 {
                    Some(0)
                } else {
                    None
                }
            },
            Some(d) => {
                if (d as usize) < self.executors.len() {
                    Some(d as usize)
                } else {
                    None
                }
            },
        }
    }

    /// In lazy mode, removes one readiness signal from `slot` and waits on
    /// it; reports whether the wait can succeed.
    fn lazy_pop(&mut self, slot: u8) -> (r: bool)
        requires
            old(self).wf(),
        ensures
            final(self).wf(),
            final(self).registers == old(self).registers,
            final(self).inst_buffer == old(self).inst_buffer,
            final(self).program_counter == old(self).program_counter,
            final(self).executors == old(self).executors,
            final(self).device_affinity == old(self).device_affinity,
            r == (old(self).slot_table.signals_spec(slot as int).len() > 0 && old(
                self,
            ).slot_table.signals_spec(slot as int)[0].fired),
            r ==> final(self).slot_table.signals_spec(slot as int) == old(
                self,
            ).slot_table.signals_spec(slot as int).skip(1),
            r ==> forall|s: int|
                0 <= s < SLOT_COUNT && s != slot as int
                    ==> #[trigger] final(self).slot_table.signals_spec(s) == old(
                    self,
                ).slot_table.signals_spec(s),
            !r ==> final(self).slot_table == old(self).slot_table,
            forall|s: int|
                0 <= s < SLOT_COUNT ==> #[trigger] final(self).slot_table.tensor_spec(s) == old(
                    self,
                ).slot_table.tensor_spec(s),
            final(self).slot_table.next_id_spec() == old(self).slot_table.next_id_spec(),
    {
        if self.slot_table.signal_count(slot) == 0 {
            return false;
        }
        let sig = self.slot_table.peek_signal(slot);
        if !sig.fired {
            // The producer has not completed; a wait here would never
            // resolve, which a valid schedule never asks for.
            return false;
        }
        self.slot_table.pop_signal(slot);
        true
    }
}

} // verus!

verus! {

impl<E: ExecutorLike> VM<E> {
    /// Interprets one instruction.  `exec_mode` `1` is eager (block per
    /// instruction), `2` is lazy (signal-gated dispatch).  The status is
    /// `0` to continue, `1` on halt, `2` on module return.
    #[verifier::rlimit(100)]
    #[verifier::spinoff_prover]
    pub fn step_impl(&mut self, exec_mode: u8) -> (r: Result<u8, RuntimeStatusError>)
        requires
            old(self).wf(),
            old(self).program_counter < old(self).inst_buffer@.len(),
            exec_mode == 1 || exec_mode == 2,
        ensures
            final(self).wf(),
            step_post(*old(self), *final(self), r, exec_mode == 2),
    {
        proof {
            reveal(step_post);
        }
        let lazy = exec_mode == 2;
        let pc = self.program_counter;
        let first = self.inst_buffer[pc];
        if first == CRTOpCode::DEVAT.to_byte() {
            if self.inst_buffer.len() - pc < 2 {
                return Err(RuntimeStatusError::RT_ERROR);
            }
            let dev = self.inst_buffer[pc + 1];
            self.device_affinity = if dev == DEV_ANY {
                None
            } else {
                Some(dev)
            };
            self.program_counter = pc + 2;
            return Ok(0);
        }
        let decoded = self.fetch_decode();
        let (inst, npc) = match decoded {
            Some(p) => p,
            None => {
                return Err(RuntimeStatusError::RT_ERROR);
            },
        };
        let AsmInstruction { opcode, operand1, operand2, operand3, operand4, result_type } = inst;
        let code = match opcode {
            Token::BytecodeOpCode { code } => code,
            _ => {
                proof {
                    assert(false);
                }
                CRTOpCode::ILLEGAL
            },
        };
        match code {
            CRTOpCode::HALT => {
                self.program_counter = npc;
                Ok(1)
            },
            CRTOpCode::NOOP => {
                self.program_counter = npc;
                Ok(0)
            },
            CRTOpCode::ILLEGAL => {
                self.program_counter = npc;
                Err(RuntimeStatusError::RT_ERROR)
            },
            CRTOpCode::LOAD => {
                let reg = match operand1 {
                    Some(Token::Variable { symbol }) => symbol,
                    _ => {
                        proof {
                            assert(false);
                        }
                        0
                    },
                };
                let v = match operand2 {
                    Some(Token::I32Literal { value }) => value,
                    _ => {
                        proof {
                            assert(false);
                        }
                        0
                    },
                };
                if (reg as usize) >= REGISTER_COUNT {
                    return Err(RuntimeStatusError::RT_ERROR);
                }
                self.registers.set(reg as usize, v);
                self.program_counter = npc;
                Ok(0)
            },
            CRTOpCode::CONSTI32 => {
                let out = match operand1 {
                    Some(Token::Variable { symbol }) => symbol,
                    _ => {
                        proof {
                            assert(false);
                        }
                        0
                    },
                };
                let v = match operand2 {
                    Some(Token::I32Literal { value }) => value,
                    _ => {
                        proof {
                            assert(false);
                        }
                        0
                    },
                };
                if !self.slot_table.ids_available() {
                    return Err(RuntimeStatusError::RT_ERROR);
                }
                let mut data: Vec<i32> = Vec::new();
                data.push(v);
                let mut shape: Vec<usize> = Vec::new();
                shape.push(1);
                proof {
                    assert(shape@ =~= seq![1usize]);
                    assert(shape_product(seq![1usize]) == 1) by {
                        assert(seq![1usize][0] == 1);
                        assert(seq![1usize].skip(1) =~= Seq::<usize>::empty());
                        assert(shape_product(Seq::<usize>::empty()) == 1);
                    }
                    assert(data@ =~= seq![v]);
                }
                let t = ActTensorTypes::i32_from_elems(data, shape);
                self.slot_table.put_tensor(out, t);
                self.slot_table.enroll_ready(out, READY_FANOUT);
                self.program_counter = npc;
                Ok(0)
            },
            CRTOpCode::CONSTF32 => {
                let out = match operand1 {
                    Some(Token::Variable { symbol }) => symbol,
                    _ => {
                        proof {
                            assert(false);
                        }
                        0
                    },
                };
                let bits = match operand2 {
                    Some(Token::F32Literal { bits }) => bits,
                    _ => {
                        proof {
                            assert(false);
                        }
                        0
                    },
                };
                if !self.slot_table.ids_available() {
                    return Err(RuntimeStatusError::RT_ERROR);
                }
                let mut data: Vec<u32> = Vec::new();
                data.push(bits);
                let mut shape: Vec<usize> = Vec::new();
                shape.push(1);
                proof {
                    assert(shape@ =~= seq![1usize]);
                    assert(shape_product(seq![1usize]) == 1) by {
                        assert(seq![1usize][0] == 1);
                        assert(seq![1usize].skip(1) =~= Seq::<usize>::empty());
                        assert(shape_product(Seq::<usize>::empty()) == 1);
                    }
                    assert(data@ =~= seq![bits]);
                }
                let t = ActTensorTypes::f32_from_bits(data, shape);
                self.slot_table.put_tensor(out, t);
                self.slot_table.enroll_ready(out, READY_FANOUT);
                self.program_counter = npc;
                Ok(0)
            },
            CRTOpCode::CONSTTENSOR => {
                let out = match operand1 {
                    Some(Token::Variable { symbol }) => symbol,
                    _ => {
                        proof {
                            assert(false);
                        }
                        0
                    },
                };
                let (data, shape) = match operand2 {
                    Some(Token::Tensor { raw_data, shape }) => (raw_data, shape),
                    _ => {
                        proof {
                            assert(false);
                        }
                        (Vec::new(), Vec::new())
                    },
                };
                if !self.slot_table.ids_available() {
                    return Err(RuntimeStatusError::RT_ERROR);
                }
                let dlen = data.len();
                let expected = match shape_product_checked(&shape) {
                    Some(p) => p,
                    None => {
                        return Err(RuntimeStatusError::RT_ERROR);
                    },
                };
                if dlen != expected {
                    return Err(RuntimeStatusError::RT_ERROR);
                }
                let t = ActTensorTypes::f32_from_bits(data, shape);
                self.slot_table.put_tensor(out, t);
                self.slot_table.enroll_ready(out, READY_FANOUT);
                self.program_counter = npc;
                Ok(0)
            },
            CRTOpCode::SVALUETENSOR => {
                let out = match operand1 {
                    Some(Token::Variable { symbol }) => symbol,
                    _ => {
                        proof {
                            assert(false);
                        }
                        0
                    },
                };
                let (bits, shape) = match operand2 {
                    Some(Token::UninitTensor { generator_bits, shape }) => (generator_bits, shape),
                    _ => {
                        proof {
                            assert(false);
                        }
                        (0, Vec::new())
                    },
                };
                if !self.slot_table.ids_available() {
                    return Err(RuntimeStatusError::RT_ERROR);
                }
                let n = match shape_product_checked(&shape) {
                    Some(p) => p,
                    None => {
                        return Err(RuntimeStatusError::RT_ERROR);
                    },
                };
                let data = crate::executors::fill_u32(bits, n);
                proof {
                    assert(data@ =~= Seq::new(shape_product(shape@) as nat, |i: int| bits));
                }
                let t = ActTensorTypes::f32_from_bits(data, shape);
                self.slot_table.put_tensor(out, t);
                self.slot_table.enroll_ready(out, READY_FANOUT);
                self.program_counter = npc;
                Ok(0)
            },
            CRTOpCode::RNGTENSOR => {
                let out = match operand1 {
                    Some(Token::Variable { symbol }) => symbol,
                    _ => {
                        proof {
                            assert(false);
                        }
                        0
                    },
                };
                let (dist, shape) = match operand2 {
                    Some(Token::UninitRNGTensor { distribution, shape }) => (distribution, shape),
                    _ => {
                        proof {
                            assert(false);
                        }
                        (0, Vec::new())
                    },
                };
                if !self.slot_table.ids_available() {
                    return Err(RuntimeStatusError::RT_ERROR);
                }
                if dist >= 2 {
                    return Err(RuntimeStatusError::RT_ERROR);
                }
                if shape_product_checked(&shape).is_none() {
                    return Err(RuntimeStatusError::RT_ERROR);
                }
                let ei = match self.pick_executor() {
                    Some(i) => i,
                    None => {
                        return Err(RuntimeStatusError::RT_ERROR);
                    },
                };
                let mut ex = self.executors.remove(ei);
                let result = ex.rng_tensor(dist, &shape);
                self.executors.insert(ei, ex);
                match result {
                    Ok(t) => {
                        self.slot_table.put_tensor(out, t);
                        self.slot_table.enroll_ready(out, READY_FANOUT);
                        self.program_counter = npc;
                        Ok(0)
                    },
                    Err(_) => Err(RuntimeStatusError::RT_ERROR),
                }
            },
            CRTOpCode::EXPF32 | CRTOpCode::RELU | CRTOpCode::SOFTMAX => {
                let out = match operand1 {
                    Some(Token::Variable { symbol }) => symbol,
                    _ => {
                        proof {
                            assert(false);
                        }
                        0
                    },
                };
                let inp = match operand2 {
                    Some(Token::Variable { symbol }) => symbol,
                    _ => {
                        proof {
                            assert(false);
                        }
                        0
                    },
                };
                if !self.slot_table.ids_available() {
                    return Err(RuntimeStatusError::RT_ERROR);
                }
                let input = match self.slot_table.get_tensor(inp) {
                    Some(t) => t,
                    None => {
                        return Err(RuntimeStatusError::RT_ERROR);
                    },
                };
                if self.pick_executor().is_none() {
                    return Err(RuntimeStatusError::RT_ERROR);
                }
                if lazy {
                    if !self.lazy_pop(inp) {
                        return Err(RuntimeStatusError::RT_ERROR);
                    }
                }
                let ei = match self.pick_executor() {
                    Some(i) => i,
                    None => {
                        proof {
                            assert(false);
                        }
                        0
                    },
                };
                let mut ex = self.executors.remove(ei);
                let result = ex.unary_compute(code, &input);
                self.executors.insert(ei, ex);
                match result {
                    Ok(t) => {
                        self.slot_table.put_tensor(out, t);
                        self.slot_table.set_fresh_signals(out, SIGNAL_FANOUT, true);
                        self.program_counter = npc;
                        proof {
                            let ghost pops = if lazy {
                                seq![inp as int]
                            } else {
                                Seq::<int>::empty()
                            };
                            assert forall|s: int|
                                0 <= s < SLOT_COUNT && s != out as int
                                    implies #[trigger] self.slot_table.signals_spec(s) == old(
                                    self,
                                ).slot_table.signals_spec(s).skip(seq_count(pops, s)) by {
                                if lazy {
                                    lemma_seq_count1(inp as int, s);
                                } else {
                                    assert(seq_count(pops, s) == 0);
                                }
                                if seq_count(pops, s) == 0 {
                                    assert(old(self).slot_table.signals_spec(s).skip(0) =~= old(
                                        self,
                                    ).slot_table.signals_spec(s));
                                }
                            }
                            if lazy {
                                assert forall|s: int| 0 <= s < SLOT_COUNT implies seq_count(
                                    seq![inp as int],
                                    s,
                                ) <= (#[trigger] old(self).slot_table.signals_spec(s)).len() && (
                                forall|i: int|
                                    0 <= i < seq_count(seq![inp as int], s) ==> (#[trigger] old(
                                        self,
                                    ).slot_table.signals_spec(s)[i]).fired) by {
                                    lemma_seq_count1(inp as int, s);
                                }
                            }
                        }
                        Ok(0)
                    },
                    Err(_) => Err(RuntimeStatusError::RT_ERROR),
                }
            },
            CRTOpCode::ADDI32 | CRTOpCode::SUBI32 | CRTOpCode::MULI32 | CRTOpCode::FLOORDIVI32
                | CRTOpCode::ADDF32 | CRTOpCode::SUBF32 | CRTOpCode::MULF32 | CRTOpCode::DIVF32
                | CRTOpCode::MATMULF32 => {
                let out = match operand1 {
                    Some(Token::Variable { symbol }) => symbol,
                    _ => {
                        proof {
                            assert(false);
                        }
                        0
                    },
                };
                let lsl = match operand2 {
                    Some(Token::Variable { symbol }) => symbol,
                    _ => {
                        proof {
                            assert(false);
                        }
                        0
                    },
                };
                let rsl = match operand3 {
                    Some(Token::Variable { symbol }) => symbol,
                    _ => {
                        proof {
                            assert(false);
                        }
                        0
                    },
                };
                if !self.slot_table.ids_available() {
                    return Err(RuntimeStatusError::RT_ERROR);
                }
                let lhs = match self.slot_table.get_tensor(lsl) {
                    Some(t) => t,
                    None => {
                        return Err(RuntimeStatusError::RT_ERROR);
                    },
                };
                let rhs = match self.slot_table.get_tensor(rsl) {
                    Some(t) => t,
                    None => {
                        return Err(RuntimeStatusError::RT_ERROR);
                    },
                };
                if self.pick_executor().is_none() {
                    return Err(RuntimeStatusError::RT_ERROR);
                }
                proof {
                    if lazy {
                        lemma_seq_count2(lsl as int, rsl as int, lsl as int);
                        lemma_seq_count2(lsl as int, rsl as int, rsl as int);
                    }
                }
                if lazy {
                    if !self.lazy_pop(lsl) {
                        proof {
                            lemma_seq_count2(lsl as int, rsl as int, lsl as int);
                        }
                        return Err(RuntimeStatusError::RT_ERROR);
                    }
                    if !self.lazy_pop(rsl) {
                        return Err(RuntimeStatusError::RT_ERROR);
                    }
                }
                let ei = match self.pick_executor() {
                    Some(i) => i,
                    None => {
                        proof {
                            assert(false);
                        }
                        0
                    },
                };
                let mut ex = self.executors.remove(ei);
                let result = ex.binary_compute(code, &lhs, &rhs);
                self.executors.insert(ei, ex);
                match result {
                    Ok(t) => {
                        self.slot_table.put_tensor(out, t);
                        self.slot_table.set_fresh_signals(out, SIGNAL_FANOUT, true);
                        self.program_counter = npc;
                        proof {
                            let ghost pops = if lazy {
                                seq![lsl as int, rsl as int]
                            } else {
                                Seq::<int>::empty()
                            };
                            assert forall|s: int|
                                0 <= s < SLOT_COUNT && s != out as int
                                    implies #[trigger] self.slot_table.signals_spec(s) == old(
                                    self,
                                ).slot_table.signals_spec(s).skip(seq_count(pops, s)) by {
                                if lazy {
                                    lemma_seq_count2(lsl as int, rsl as int, s);
                                    if s == lsl as int && s == rsl as int {
                                        assert(old(self).slot_table.signals_spec(s).skip(1).skip(1)
                                            =~= old(self).slot_table.signals_spec(s).skip(2));
                                    }
                                } else {
                                    assert(seq_count(pops, s) == 0);
                                }
                                if seq_count(pops, s) == 0 {
                                    assert(old(self).slot_table.signals_spec(s).skip(0) =~= old(
                                        self,
                                    ).slot_table.signals_spec(s));
                                }
                            }
                            if lazy {
                                assert forall|s: int| 0 <= s < SLOT_COUNT implies seq_count(
                                    seq![lsl as int, rsl as int],
                                    s,
                                ) <= (#[trigger] old(self).slot_table.signals_spec(s)).len() && (
                                forall|i: int|
                                    0 <= i < seq_count(seq![lsl as int, rsl as int], s) ==> (
                                    #[trigger] old(self).slot_table.signals_spec(s)[i]).fired) by {
                                    lemma_seq_count2(lsl as int, rsl as int, s);
                                }
                            }
                        }
                        Ok(0)
                    },
                    Err(_) => Err(RuntimeStatusError::RT_ERROR),
                }
            },
            CRTOpCode::RESHAPE | CRTOpCode::TRANSPOSE => {
                let out = match operand1 {
                    Some(Token::Variable { symbol }) => symbol,
                    _ => {
                        proof {
                            assert(false);
                        }
                        0
                    },
                };
                let inp = match operand2 {
                    Some(Token::Variable { symbol }) => symbol,
                    _ => {
                        proof {
                            assert(false);
                        }
                        0
                    },
                };
                let dims = match operand3 {
                    Some(Token::Shape { dims }) => dims,
                    _ => {
                        proof {
                            assert(false);
                        }
                        Vec::new()
                    },
                };
                if !self.slot_table.ids_available() {
                    return Err(RuntimeStatusError::RT_ERROR);
                }
                let input = match self.slot_table.get_tensor(inp) {
                    Some(t) => t,
                    None => {
                        return Err(RuntimeStatusError::RT_ERROR);
                    },
                };
                let icount = input.element_count();
                let expected = match shape_product_checked(&dims) {
                    Some(p) => p,
                    None => {
                        return Err(RuntimeStatusError::RT_ERROR);
                    },
                };
                if icount != expected {
                    return Err(RuntimeStatusError::RT_ERROR);
                }
                if lazy {
                    if !self.lazy_pop(inp) {
                        proof {
                            lemma_seq_count1(inp as int, inp as int);
                            assert(!lazy_pops_ok(old(self).slot_table, seq![inp as int]));
                        }
                        return Err(RuntimeStatusError::RT_ERROR);
                    }
                }
                let t = match input {
                    ActTensorTypes::F32Tensor { data } => ActTensorTypes::F32Tensor {
                        data: crate::tensors::TensorView {
                            data: data.data,
                            dtype: data.dtype,
                            shape: dims,
                        },
                    },
                    ActTensorTypes::I32Tensor { data } => ActTensorTypes::I32Tensor {
                        data: crate::tensors::TensorView {
                            data: data.data,
                            dtype: data.dtype,
                            shape: dims,
                        },
                    },
                };
                self.slot_table.put_tensor(out, t);
                self.slot_table.set_fresh_signals(out, SIGNAL_FANOUT, true);
                self.program_counter = npc;
                proof {
                    let ghost pops = if lazy {
                        seq![inp as int]
                    } else {
                        Seq::<int>::empty()
                    };
                    assert forall|s: int|
                        0 <= s < SLOT_COUNT && s != out as int
                            implies #[trigger] self.slot_table.signals_spec(s) == old(
                            self,
                        ).slot_table.signals_spec(s).skip(seq_count(pops, s)) by {
                        if lazy {
                            lemma_seq_count1(inp as int, s);
                        } else {
                            assert(seq_count(pops, s) == 0);
                        }
                        if seq_count(pops, s) == 0 {
                            assert(old(self).slot_table.signals_spec(s).skip(0) =~= old(
                                self,
                            ).slot_table.signals_spec(s));
                        }
                    }
                    if lazy {
                        assert forall|s: int| 0 <= s < SLOT_COUNT implies seq_count(
                            seq![inp as int],
                            s,
                        ) <= (#[trigger] old(self).slot_table.signals_spec(s)).len() && (forall|
                            i: int,
                        |
                            0 <= i < seq_count(seq![inp as int], s) ==> (#[trigger] old(
                                self,
                            ).slot_table.signals_spec(s)[i]).fired) by {
                            lemma_seq_count1(inp as int, s);
                        }
                    }
                }
                Ok(0)
            },
            CRTOpCode::RETV => {
                let ret = match operand1 {
                    Some(Token::Variable { symbol }) => symbol,
                    _ => {
                        proof {
                            assert(false);
                        }
                        0
                    },
                };
                if !self.lazy_pop(ret) {
                    return Err(RuntimeStatusError::RT_ERROR);
                }
                self.slot_table.retain_only(ret);
                self.program_counter = npc;
                Ok(2)
            },
            CRTOpCode::MAXPOOL | CRTOpCode::REDUCEMEAN | CRTOpCode::FLATTEN => {
                let out = match operand1 {
                    Some(Token::Variable { symbol }) => symbol,
                    _ => {
                        proof {
                            assert(false);
                        }
                        0
                    },
                };
                let inp = match operand2 {
                    Some(Token::Variable { symbol }) => symbol,
                    _ => {
                        proof {
                            assert(false);
                        }
                        0
                    },
                };
                let ann_shape = match result_type {
                    Some(Token::RankedTensorType { shape, .. }) => shape,
                    _ => {
                        proof {
                            assert(false);
                        }
                        Vec::new()
                    },
                };
                if !self.slot_table.ids_available() {
                    return Err(RuntimeStatusError::RT_ERROR);
                }
                let input = match self.slot_table.get_tensor(inp) {
                    Some(t) => t,
                    None => {
                        return Err(RuntimeStatusError::RT_ERROR);
                    },
                };
                if self.pick_executor().is_none() {
                    return Err(RuntimeStatusError::RT_ERROR);
                }
                if shape_product_checked(&ann_shape).is_none() {
                    return Err(RuntimeStatusError::RT_ERROR);
                }
                if lazy {
                    if !self.lazy_pop(inp) {
                        return Err(RuntimeStatusError::RT_ERROR);
                    }
                }
                let ei = match self.pick_executor() {
                    Some(i) => i,
                    None => {
                        proof {
                            assert(false);
                        }
                        0
                    },
                };
                let mut ex = self.executors.remove(ei);
                let result = ex.layer_unary_compute(code, &input, &ann_shape);
                self.executors.insert(ei, ex);
                match result {
                    Ok(t) => {
                        self.slot_table.put_tensor(out, t);
                        self.slot_table.set_fresh_signals(out, SIGNAL_FANOUT, true);
                        self.program_counter = npc;
                        proof {
                            let ghost pops = if lazy {
                                seq![inp as int]
                            } else {
                                Seq::<int>::empty()
                            };
                            assert forall|s: int|
                                0 <= s < SLOT_COUNT && s != out as int
                                    implies #[trigger] self.slot_table.signals_spec(s) == old(
                                    self,
                                ).slot_table.signals_spec(s).skip(seq_count(pops, s)) by {
                                if lazy {
                                    lemma_seq_count1(inp as int, s);
                                } else {
                                    assert(seq_count(pops, s) == 0);
                                }
                                if seq_count(pops, s) == 0 {
                                    assert(old(self).slot_table.signals_spec(s).skip(0) =~= old(
                                        self,
                                    ).slot_table.signals_spec(s));
                                }
                            }
                            if lazy {
                                assert forall|s: int| 0 <= s < SLOT_COUNT implies seq_count(
                                    seq![inp as int],
                                    s,
                                ) <= (#[trigger] old(self).slot_table.signals_spec(s)).len() && (
                                forall|i: int|
                                    0 <= i < seq_count(seq![inp as int], s) ==> (#[trigger] old(
                                        self,
                                    ).slot_table.signals_spec(s)[i]).fired) by {
                                    lemma_seq_count1(inp as int, s);
                                }
                            }
                        }
                        Ok(0)
                    },
                    Err(_) => Err(RuntimeStatusError::RT_ERROR),
                }
            },
            CRTOpCode::GEMM | CRTOpCode::CONVADD => {
                let out = match operand1 {
                    Some(Token::Variable { symbol }) => symbol,
                    _ => {
                        proof {
                            assert(false);
                        }
                        0
                    },
                };
                let aa = match operand2 {
                    Some(Token::Variable { symbol }) => symbol,
                    _ => {
                        proof {
                            assert(false);
                        }
                        0
                    },
                };
                let bb = match operand3 {
                    Some(Token::Variable { symbol }) => symbol,
                    _ => {
                        proof {
                            assert(false);
                        }
                        0
                    },
                };
                let cc = match operand4 {
                    Some(Token::Variable { symbol }) => symbol,
                    _ => {
                        proof {
                            assert(false);
                        }
                        0
                    },
                };
                let ann_shape = match result_type {
                    Some(Token::RankedTensorType { shape, .. }) => shape,
                    _ => {
                        proof {
                            assert(false);
                        }
                        Vec::new()
                    },
                };
                if !self.slot_table.ids_available() {
                    return Err(RuntimeStatusError::RT_ERROR);
                }
                let ta = match self.slot_table.get_tensor(aa) {
                    Some(t) => t,
                    None => {
                        return Err(RuntimeStatusError::RT_ERROR);
                    },
                };
                let tb = match self.slot_table.get_tensor(bb) {
                    Some(t) => t,
                    None => {
                        return Err(RuntimeStatusError::RT_ERROR);
                    },
                };
                let tc = match self.slot_table.get_tensor(cc) {
                    Some(t) => t,
                    None => {
                        return Err(RuntimeStatusError::RT_ERROR);
                    },
                };
                if self.pick_executor().is_none() {
                    return Err(RuntimeStatusError::RT_ERROR);
                }
                if shape_product_checked(&ann_shape).is_none() {
                    return Err(RuntimeStatusError::RT_ERROR);
                }
                if lazy {
                    if !self.lazy_pop(aa) {
                        return Err(RuntimeStatusError::RT_ERROR);
                    }
                    if !self.lazy_pop(bb) {
                        return Err(RuntimeStatusError::RT_ERROR);
                    }
                    if !self.lazy_pop(cc) {
                        return Err(RuntimeStatusError::RT_ERROR);
                    }
                }
                let ei = match self.pick_executor() {
                    Some(i) => i,
                    None => {
                        proof {
                            assert(false);
                        }
                        0
                    },
                };
                let mut ex = self.executors.remove(ei);
                let result = ex.ternary_compute(code, &ta, &tb, &tc, &ann_shape);
                self.executors.insert(ei, ex);
                match result {
                    Ok(t) => {
                        self.slot_table.put_tensor(out, t);
                        self.slot_table.set_fresh_signals(out, SIGNAL_FANOUT, true);
                        self.program_counter = npc;
                        proof {
                            let ghost pops = if lazy {
                                seq![aa as int, bb as int, cc as int]
                            } else {
                                Seq::<int>::empty()
                            };
                            assert forall|s: int|
                                0 <= s < SLOT_COUNT && s != out as int
                                    implies #[trigger] self.slot_table.signals_spec(s) == old(
                                    self,
                                ).slot_table.signals_spec(s).skip(seq_count(pops, s)) by {
                                if lazy {
                                    lemma_seq_count3(aa as int, bb as int, cc as int, s);
                                    if old(self).slot_table.signals_spec(s).len() >= 2 {
                                        assert(old(self).slot_table.signals_spec(s).skip(1).skip(1)
                                            =~= old(self).slot_table.signals_spec(s).skip(2));
                                    }
                                    if old(self).slot_table.signals_spec(s).len() >= 3 {
                                        assert(old(self).slot_table.signals_spec(s).skip(2).skip(1)
                                            =~= old(self).slot_table.signals_spec(s).skip(3));
                                    }
                                } else {
                                    assert(seq_count(pops, s) == 0);
                                }
                                if seq_count(pops, s) == 0 {
                                    assert(old(self).slot_table.signals_spec(s).skip(0) =~= old(
                                        self,
                                    ).slot_table.signals_spec(s));
                                }
                            }
                            if lazy {
                                assert forall|s: int| 0 <= s < SLOT_COUNT implies seq_count(
                                    seq![aa as int, bb as int, cc as int],
                                    s,
                                ) <= (#[trigger] old(self).slot_table.signals_spec(s)).len() && (
                                forall|i: int|
                                    0 <= i < seq_count(seq![aa as int, bb as int, cc as int], s)
                                        ==> (#[trigger] old(self).slot_table.signals_spec(
                                        s,
                                    )[i]).fired) by {
                                    lemma_seq_count3(aa as int, bb as int, cc as int, s);
                                    if old(self).slot_table.signals_spec(s).len() >= 2 {
                                        assert(old(self).slot_table.signals_spec(s).skip(1).skip(1)
                                            =~= old(self).slot_table.signals_spec(s).skip(2));
                                    }
                                }
                            }
                        }
                        Ok(0)
                    },
                    Err(_) => Err(RuntimeStatusError::RT_ERROR),
                }
            },
            _ => Err(RuntimeStatusError::RT_ERROR),
        }
    }
}

} // verus!

verus! {

impl<E: ExecutorLike> VM<E> {
    /// One eager step: blocks until the instruction's result is placed.
    pub fn eager_step(&mut self) -> (r: Result<u8, RuntimeStatusError>)
        requires
            old(self).wf(),
        ensures
            final(self).wf(),
            old(self).program_counter >= old(self).inst_buffer@.len() ==> r == Err::<
                u8,
                RuntimeStatusError,
            >(RuntimeStatusError::EXEC_FINISH) && *final(self) == *old(self),
            old(self).program_counter < old(self).inst_buffer@.len() ==> step_post(
                *old(self),
                *final(self),
                r,
                false,
            ),
    {
        if self.program_counter >= self.inst_buffer.len() {
            return Err(RuntimeStatusError::EXEC_FINISH);
        }
        self.step_impl(1)
    }

    /// One lazy step: signal-gated dispatch without waiting.
    pub fn lazy_step(&mut self) -> (r: Result<u8, RuntimeStatusError>)
        requires
            old(self).wf(),
        ensures
            final(self).wf(),
            old(self).program_counter >= old(self).inst_buffer@.len() ==> r == Err::<
                u8,
                RuntimeStatusError,
            >(RuntimeStatusError::EXEC_FINISH) && *final(self) == *old(self),
            old(self).program_counter < old(self).inst_buffer@.len() ==> step_post(
                *old(self),
                *final(self),
                r,
                true,
            ),
    {
        if self.program_counter >= self.inst_buffer.len() {
            return Err(RuntimeStatusError::EXEC_FINISH);
        }
        self.step_impl(2)
    }

    /// Interprets eagerly until the stream ends, a halt succeeds, or a
    /// fatal error stops the machine.
    pub fn run_eagerly(&mut self) -> (r: Result<u8, RuntimeStatusError>)
        requires
            old(self).wf(),
        ensures
            final(self).wf(),
            final(self).inst_buffer == old(self).inst_buffer,
            r matches Ok(c) ==> c == 0,
            r is Err ==> r == Err::<u8, RuntimeStatusError>(RuntimeStatusError::RT_ERROR),
            old(self).program_counter >= old(self).inst_buffer@.len() ==> r == Ok::<
                u8,
                RuntimeStatusError,
            >(0u8) && *final(self) == *old(self),
            exists|steps: Seq<(VM<E>, Result<u8, RuntimeStatusError>)>| #[trigger] run_post(
                *old(self),
                *final(self),
                r,
                false,
                steps,
            ),
    {
        self.run_impl(1)
    }

    /// Interprets lazily until the stream ends, a halt succeeds, or a
    /// fatal error stops the machine.
    pub fn run_lazily(&mut self) -> (r: Result<u8, RuntimeStatusError>)
        requires
            old(self).wf(),
        ensures
            final(self).wf(),
            final(self).inst_buffer == old(self).inst_buffer,
            r matches Ok(c) ==> c == 0,
            r is Err ==> r == Err::<u8, RuntimeStatusError>(RuntimeStatusError::RT_ERROR),
            old(self).program_counter >= old(self).inst_buffer@.len() ==> r == Ok::<
                u8,
                RuntimeStatusError,
            >(0u8) && *final(self) == *old(self),
            exists|steps: Seq<(VM<E>, Result<u8, RuntimeStatusError>)>| #[trigger] run_post(
                *old(self),
                *final(self),
                r,
                true,
                steps,
            ),
    {
        self.run_impl(2)
    }

    /// The interpretation loop: steps until the stream is exhausted
    /// (success), a halt is requested (success), or a step reports a fatal
    /// error (which stops the counter).  A module return proceeds to the
    /// next module.
    fn run_impl(&mut self, exec_mode: u8) -> (r: Result<u8, RuntimeStatusError>)
        requires
            old(self).wf(),
            exec_mode == 1 || exec_mode == 2,
        ensures
            final(self).wf(),
            final(self).inst_buffer == old(self).inst_buffer,
            r matches Ok(c) ==> c == 0,
            r is Err ==> r == Err::<u8, RuntimeStatusError>(RuntimeStatusError::RT_ERROR),
            old(self).program_counter >= old(self).inst_buffer@.len() ==> r == Ok::<
                u8,
                RuntimeStatusError,
            >(0u8) && *final(self) == *old(self),
            exec_mode == 1 ==> exists|steps: Seq<(VM<E>, Result<u8, RuntimeStatusError>)>|
                #[trigger] run_post(*old(self), *final(self), r, false, steps),
            exec_mode == 2 ==> exists|steps: Seq<(VM<E>, Result<u8, RuntimeStatusError>)>|
                #[trigger] run_post(*old(self), *final(self), r, true, steps),
    {
        let lazy = exec_mode == 2;
        let ghost mut steps: Seq<(VM<E>, Result<u8, RuntimeStatusError>)> = Seq::empty();
        loop
            invariant
                self.wf(),
                self.inst_buffer == old(self).inst_buffer,
                exec_mode == 1 || exec_mode == 2,
                lazy == (exec_mode == 2),
                run_seq_ok(*old(self), *self, steps, lazy),
                steps.len() == 0 || continuing(steps.last().1),
                steps.len() > 0 ==> old(self).program_counter < old(self).inst_buffer@.len(),
            decreases self.inst_buffer@.len() - self.program_counter,
        {
            let ghost pre = *self;
            let status = if self.program_counter >= self.inst_buffer.len() {
                Err(RuntimeStatusError::EXEC_FINISH)
            } else {
                self.step_impl(exec_mode)
            };
            match status {
                Err(RuntimeStatusError::EXEC_FINISH) => {
                    // The counter left the stream: interpretation is done.
                    proof {
                        reveal(step_post);
                        assert(pre.program_counter >= pre.inst_buffer@.len());
                        assert(*self == pre);
                        assert(run_post(
                            *old(self),
                            *self,
                            Ok::<u8, RuntimeStatusError>(0u8),
                            lazy,
                            steps,
                        ));
                    }
                    return Ok(0);
                },
                Err(RuntimeStatusError::RT_ERROR) => {
                    proof {
                        reveal(step_post);
                        lemma_run_seq_push(*old(self), pre, *self, steps, status, lazy);
                        steps = steps.push((pre, status));
                        assert(run_post(*old(self), *self, status, lazy, steps));
                    }
                    return Err(RuntimeStatusError::RT_ERROR);
                },
                Ok(c) => {
                    proof {
                        reveal(step_post);
                        lemma_run_seq_push(*old(self), pre, *self, steps, status, lazy);
                        steps = steps.push((pre, status));
                        crate::assembler::lemma_decode_inst_consumes(pre.tape());
                        crate::assembler::lemma_decode_inst_code(pre.tape());
                        assert(self.program_counter > pre.program_counter);
                        assert(self.program_counter <= self.inst_buffer@.len());
                    }
                    if c == 1 {
                        // Halt terminates interpretation with success.
                        proof {
                            assert(run_post(
                                *old(self),
                                *self,
                                Ok::<u8, RuntimeStatusError>(0u8),
                                lazy,
                                steps,
                            ));
                        }
                        return Ok(0);
                    }
                    proof {
                        assert(c == 0 || c == 2);
                        assert(continuing(steps.last().1));
                    }
                },
            }
        }
    }

    /// The raw elements of the 32-bit integer tensor a slot holds.
    pub fn get_raw_vec_i32(&self, index: usize) -> (r: Vec<i32>)
        requires
            self.wf(),
            index < SLOT_COUNT,
            self.slot_table.tensor_spec(index as int) matches Some(tv) && tv matches
                TensorVal::I32 { .. },
        ensures
            Some(TensorVal::I32 { elems: r@, shape: self.slot_table.tensor_spec(index as int)->Some_0.shape_spec() })
                == self.slot_table.tensor_spec(index as int),
    {
        match self.slot_table.get_tensor(index as u8) {
            Some(ActTensorTypes::I32Tensor { data }) => data.data,
            _ => {
                proof {
                    assert(false);
                }
                Vec::new()
            },
        }
    }

    /// The raw elements of the float tensor a slot holds, as IEEE-754 bit
    /// patterns.
    pub fn get_raw_vec_f32(&self, index: usize) -> (r: Vec<u32>)
        requires
            self.wf(),
            index < SLOT_COUNT,
            self.slot_table.tensor_spec(index as int) matches Some(tv) && tv matches
                TensorVal::F32 { .. },
        ensures
            Some(TensorVal::F32 { bits: r@, shape: self.slot_table.tensor_spec(index as int)->Some_0.shape_spec() })
                == self.slot_table.tensor_spec(index as int),
    {
        match self.slot_table.get_tensor(index as u8) {
            Some(ActTensorTypes::F32Tensor { data }) => data.data,
            _ => {
                proof {
                    assert(false);
                }
                Vec::new()
            },
        }
    }

    /// Clones the tensor a slot holds, if any.
    pub fn get_tensor(&self, index: usize) -> (r: Option<ActTensorTypes>)
        requires
            self.wf(),
            index < SLOT_COUNT,
        ensures
            r is Some <==> self.slot_table.tensor_spec(index as int) is Some,
            r matches Some(t) ==> Some(t@) == self.slot_table.tensor_spec(index as int) && t.wf(),
    {
        self.slot_table.get_tensor(index as u8)
    }

    /// The shape of the tensor a slot holds.
    pub fn get_tensor_shape(&self, index: usize) -> (r: Vec<usize>)
        requires
            self.wf(),
            index < SLOT_COUNT,
            self.slot_table.tensor_spec(index as int) is Some,
        ensures
            r@ == self.slot_table.tensor_spec(index as int)->Some_0.shape_spec(),
    {
        match self.slot_table.get_tensor(index as u8) {
            Some(t) => t.shape(),
            None => {
                proof {
                    assert(false);
                }
                Vec::new()
            },
        }
    }

    /// Places a one-dimensional 32-bit integer tensor into a slot from the
    /// host side.
    pub fn push_data_buffer_i32(&mut self, index: usize, data: Vec<i32>)
        requires
            old(self).wf(),
            index < SLOT_COUNT,
        ensures
            final(self).wf(),
            final(self).slot_table.tensor_spec(index as int) == Some(
                TensorVal::I32 { elems: data@, shape: seq![data@.len() as usize] },
            ),
            forall|s: int|
                0 <= s < SLOT_COUNT && s != index as int
                    ==> #[trigger] final(self).slot_table.tensor_spec(s) == old(
                    self,
                ).slot_table.tensor_spec(s),
    {
        let mut shape: Vec<usize> = Vec::new();
        shape.push(data.len());
        proof {
            assert(shape@ =~= seq![data@.len() as usize]);
            assert(shape_product(seq![data@.len() as usize]) == data@.len()) by {
                assert(seq![data@.len() as usize][0] == data@.len());
                assert(seq![data@.len() as usize].skip(1) =~= Seq::<usize>::empty());
                assert(shape_product(Seq::<usize>::empty()) == 1);
            }
        }
        let t = ActTensorTypes::i32_from_elems(data, shape);
        self.slot_table.put_tensor(index as u8, t);
    }

    /// Places a one-dimensional float tensor (elements as bit patterns)
    /// into a slot from the host side.
    pub fn push_tensor_pool(&mut self, index: usize, data: Vec<u32>)
        requires
            old(self).wf(),
            index < SLOT_COUNT,
        ensures
            final(self).wf(),
            final(self).slot_table.tensor_spec(index as int) == Some(
                TensorVal::F32 { bits: data@, shape: seq![data@.len() as usize] },
            ),
            forall|s: int|
                0 <= s < SLOT_COUNT && s != index as int
                    ==> #[trigger] final(self).slot_table.tensor_spec(s) == old(
                    self,
                ).slot_table.tensor_spec(s),
    {
        let mut shape: Vec<usize> = Vec::new();
        shape.push(data.len());
        proof {
            assert(shape@ =~= seq![data@.len() as usize]);
            assert(shape_product(seq![data@.len() as usize]) == data@.len()) by {
                assert(seq![data@.len() as usize][0] == data@.len());
                assert(seq![data@.len() as usize].skip(1) =~= Seq::<usize>::empty());
                assert(shape_product(Seq::<usize>::empty()) == 1);
            }
        }
        let t = ActTensorTypes::f32_from_bits(data, shape);
        self.slot_table.put_tensor(index as u8, t);
    }

    /// Places a shaped float tensor (elements as bit patterns) into a slot
    /// from the host side.
    pub fn push_tensor_buffer(&mut self, index: usize, data: Vec<u32>, shape: Vec<usize>)
        requires
            old(self).wf(),
            index < SLOT_COUNT,
            data@.len() == shape_product(shape@),
        ensures
            final(self).wf(),
            final(self).slot_table.tensor_spec(index as int) == Some(
                TensorVal::F32 { bits: data@, shape: shape@ },
            ),
            forall|s: int|
                0 <= s < SLOT_COUNT && s != index as int
                    ==> #[trigger] final(self).slot_table.tensor_spec(s) == old(
                    self,
                ).slot_table.tensor_spec(s),
    {
        let t = ActTensorTypes::f32_from_bits(data, shape);
        self.slot_table.put_tensor(index as u8, t);
    }
}

} // verus!
