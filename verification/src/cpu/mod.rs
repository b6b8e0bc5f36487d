//! The SM83 CPU: the Game Boy's processor, which is not a Z80.

mod alu;
mod mcycle;
mod registers;

pub use registers::{Flag, Registers};
pub use registers::{flag_in, flag_mask, lemma_pair_split, lemma_with_flag, lemma_with_flags, pair_spec, with_flag, with_flags};
pub use mcycle::{ByteRegister, Cpu, CpuView, JumpImmediate, Lockup, R8, State};
pub(crate) use mcycle::lemma_little_endian;
pub use mcycle::{is_illegal_opcode, lemma_step_appends_serial, next_pc, r8_spec, reg_value, with_reg};
pub use mcycle::{law_illegal_opcode_table, law_ld_hl_field_order, law_ld_r8_field_order, sm83_r8_order};
