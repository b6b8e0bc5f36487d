//! What the header report computes before it prints: sizes in the largest
//! unit that divides them exactly.
use vstd::prelude::*;

verus! {

/// A unit of memory size.
#[derive(Debug, Clone, Copy, PartialEq, Eq)]
pub enum SizeUnit {
    Bytes,
    KiB,
    MiB,
}

/// A size as a number of units.
#[derive(Debug, Clone, Copy, PartialEq, Eq)]
pub struct HumanSize {
    pub value: u32,
    pub unit: SizeUnit,
}

/// `bytes` in MiB when it is a whole non-zero number of them, else in KiB
/// when that is, else in bytes.
pub open spec fn human_spec(bytes: u32) -> HumanSize {
    if bytes >= 0x10_0000 && bytes % 0x10_0000 == 0 {
        HumanSize { value: bytes / 0x10_0000, unit: SizeUnit::MiB }
    } else if bytes >= 1024 && bytes % 1024 == 0 {
        HumanSize { value: bytes / 1024, unit: SizeUnit::KiB }
    } else {
        HumanSize { value: bytes, unit: SizeUnit::Bytes }
    }
}

/// `bytes` in the largest unit that divides it exactly (see
/// [`human_spec`]).
pub fn human(bytes: u32) -> (r: HumanSize)
    ensures
        r == human_spec(bytes),
{
    let kib: u32 = 1024;
    let mib: u32 = 1024 * kib;
    if bytes >= mib && bytes % mib == 0 {
        HumanSize { value: bytes / mib, unit: SizeUnit::MiB }
    } else if bytes >= kib && bytes % kib == 0 {
        HumanSize { value: bytes / kib, unit: SizeUnit::KiB }
    } else {
        HumanSize { value: bytes, unit: SizeUnit::Bytes }
    }
}

/// The amount of memory `h` stands for.
pub open spec fn human_bytes(h: HumanSize) -> int {
    match h.unit {
        SizeUnit::Bytes => h.value as int,
        SizeUnit::KiB => h.value * 1024,
        SizeUnit::MiB => h.value * 0x10_0000,
    }
}

/// The unit changes the number, never the amount.
pub proof fn law_human_keeps_the_amount(bytes: u32)
    ensures
        human_bytes(human_spec(bytes)) == bytes,
{
    let h = human_spec(bytes);
    if bytes >= 0x10_0000 && bytes % 0x10_0000 == 0 {
        assert(h.value * 0x10_0000 == bytes) by (nonlinear_arith)
            requires
                h.value == bytes / 0x10_0000,
                bytes % 0x10_0000 == 0,
        ;
    } else if bytes >= 1024 && bytes % 1024 == 0 {
        assert(h.value * 1024 == bytes) by (nonlinear_arith)
            requires
                h.value == bytes / 1024,
                bytes % 1024 == 0,
        ;
    }
}

} // verus!
