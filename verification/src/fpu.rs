//! Floating-point/SIMD register enablement and state capture.
//!
//! An auxiliary demonstration beside the interrupt core: the control
//! register values that switch the SIMD unit on, the 512-byte register
//! save area, and the test pattern loaded into the first and last vector
//! registers. Everything here is value computation; the instructions that
//! read or write the actual registers stay outside the library.

use vstd::prelude::*;

verus! {

broadcast use vstd::array::group_array_axioms;

/// CR0 bit: route coprocessor instructions to an emulator. Must be clear
/// or SIMD instructions fault.
pub const CR0_EMULATE_COPROCESSOR: u64 = 0x4;

/// CR0 bit: monitor coprocessor. Conventionally set when the task-switched
/// discipline is used.
pub const CR0_MONITOR_COPROCESSOR: u64 = 0x2;

/// CR0 bit: task switched. Must be clear to avoid device-not-available
/// faults before lazy state switching exists.
pub const CR0_TASK_SWITCHED: u64 = 0x8;

/// CR4 bit: the system supports the save/restore instructions and SIMD.
pub const CR4_OSFXSR: u64 = 0x200;

/// CR4 bit: SIMD floating-point exceptions are reported.
pub const CR4_OSXMMEXCPT_ENABLE: u64 = 0x400;

/// The CR0 value that enables the SIMD unit, given the current one:
/// emulation off, monitor-coprocessor on, task-switched off; every other
/// bit kept.
pub open spec fn cr0_with_sse(cr0: u64) -> u64 {
    (cr0 & !CR0_EMULATE_COPROCESSOR & !CR0_TASK_SWITCHED) | CR0_MONITOR_COPROCESSOR
}

/// The CR4 value that enables the SIMD unit, given the current one: both
/// OS-support bits on, every other bit kept.
pub open spec fn cr4_with_sse(cr4: u64) -> u64 {
    cr4 | CR4_OSFXSR | CR4_OSXMMEXCPT_ENABLE
}

/// Compute the CR0 value to write when enabling the SIMD unit.
pub fn cr0_for_sse(cr0: u64) -> (r: u64)
    ensures
        r == cr0_with_sse(cr0),
        r & CR0_EMULATE_COPROCESSOR == 0,
        r & CR0_MONITOR_COPROCESSOR != 0,
        r & CR0_TASK_SWITCHED == 0,
{
    let r = (cr0 & !CR0_EMULATE_COPROCESSOR & !CR0_TASK_SWITCHED) | CR0_MONITOR_COPROCESSOR;
    proof {
        assert((cr0 & !0x4u64 & !0x8u64 | 0x2u64) & 0x4u64 == 0 && (cr0 & !0x4u64 & !0x8u64
            | 0x2u64) & 0x2u64 != 0 && (cr0 & !0x4u64 & !0x8u64 | 0x2u64) & 0x8u64 == 0)
            by (bit_vector);
    }
    r
}

/// Compute the CR4 value to write when enabling the SIMD unit.
pub fn cr4_for_sse(cr4: u64) -> (r: u64)
    ensures
        r == cr4_with_sse(cr4),
        r & CR4_OSFXSR != 0,
        r & CR4_OSXMMEXCPT_ENABLE != 0,
{
    let r = cr4 | CR4_OSFXSR | CR4_OSXMMEXCPT_ENABLE;
    proof {
        assert((cr4 | 0x200u64 | 0x400u64) & 0x200u64 != 0 && (cr4 | 0x200u64 | 0x400u64) & 0x400u64
            != 0) by (bit_vector);
    }
    r
}

/// Layout of the 512-byte save area the state-capture instruction fills:
/// x87 control words, the SIMD control/status register, and the register
/// contents, each vector register as 16 bytes.
#[derive(Clone, Copy)]
pub struct FxSaveArea {
    pub fcw: u16,
    pub fsw: u16,
    pub ftw: u8,
    pub _r1: u8,
    pub fop: u16,
    pub fip: u64,
    pub fdp: u64,
    pub mxcsr: u32,
    pub mxcsr_mask: u32,
    pub st_mm: [[u8; 16]; 8],
    pub xmm: [[u8; 16]; 16],
    pub _rest: [u8; 96],
}

/// True when every field of the save area is zero.
pub open spec fn fx_area_zeroed(a: FxSaveArea) -> bool {
    &&& a.fcw == 0
    &&& a.fsw == 0
    &&& a.ftw == 0
    &&& a._r1 == 0
    &&& a.fop == 0
    &&& a.fip == 0
    &&& a.fdp == 0
    &&& a.mxcsr == 0
    &&& a.mxcsr_mask == 0
    &&& forall|i: int, j: int| 0 <= i < 8 && 0 <= j < 16 ==> a.st_mm@[i]@[j] == 0
    &&& forall|i: int, j: int| 0 <= i < 16 && 0 <= j < 16 ==> a.xmm@[i]@[j] == 0
    &&& forall|i: int| 0 <= i < 96 ==> a._rest@[i] == 0
}

/// The save area under the alignment the capture instruction demands.
pub struct FxSaveAligned(pub FxSaveArea);

impl FxSaveAligned {
    /// A fresh, all-zero save area for the capture instruction to fill.
    pub fn new_zeroed() -> (r: FxSaveAligned)
        ensures
            fx_area_zeroed(r.0),
    {
        FxSaveAligned(
            FxSaveArea {
                fcw: 0,
                fsw: 0,
                ftw: 0,
                _r1: 0,
                fop: 0,
                fip: 0,
                fdp: 0,
                mxcsr: 0,
                mxcsr_mask: 0,
                st_mm: [[0u8; 16]; 8],
                xmm: [[0u8; 16]; 16],
                _rest: [0u8; 96],
            },
        )
    }
}

/// Seed for the low half of the vector-register test pattern.
pub const XMM_SEED_LOW: u64 = 0x0011223344556677;

/// Seed for the high half of the vector-register test pattern.
pub const XMM_SEED_HIGH: u64 = 0x8899AABBCCDDEEFF;

/// Byte `i` (0 = least significant) of a 64-bit value.
pub open spec fn le_byte(x: u64, i: int) -> u8 {
    (x >> (8 * i)) as u8
}

/// The eight bytes of a 64-bit value, least significant first.
pub open spec fn le_bytes(x: u64) -> Seq<u8> {
    Seq::new(8, |i: int| le_byte(x, i))
}

/// The 16-byte test pattern for the first vector register: both seeds in
/// little-endian byte order. The last vector register receives the same
/// pattern reversed.
pub open spec fn xmm_test_pattern() -> Seq<u8> {
    le_bytes(XMM_SEED_LOW) + le_bytes(XMM_SEED_HIGH)
}

/// Append the little-endian bytes of `x` to `v`.
fn push_le_bytes(v: &mut Vec<u8>, x: u64)
    ensures
        final(v)@ == old(v)@ + le_bytes(x),
{
    let ghost start = v@;
    let mut i: usize = 0;
    while i < 8
        invariant
            i <= 8,
            v@ == start + le_bytes(x).take(i as int),
        decreases 8 - i,
    {
        v.push((x >> ((8 * i) as u64)) as u8);
        i = i + 1;
        proof {
            assert(le_bytes(x).take(i as int) == le_bytes(x).take(i - 1).push(le_byte(x, i - 1)));
        }
    }
    proof {
        assert(le_bytes(x).take(8) =~= le_bytes(x));
    }
}

/// Build the two vector-register test patterns: the pattern itself for the
/// first register and its byte-reverse for the last one.
pub fn xmm_test_patterns() -> (r: (Vec<u8>, Vec<u8>))
    ensures
        r.0@ == xmm_test_pattern(),
        r.1@ == xmm_test_pattern().reverse(),
{
    let mut low: Vec<u8> = Vec::new();
    push_le_bytes(&mut low, XMM_SEED_LOW);
    push_le_bytes(&mut low, XMM_SEED_HIGH);
    let mut high: Vec<u8> = Vec::new();
    let mut i: usize = low.len();
    while i != 0
        invariant
            i <= low@.len(),
            low@ == xmm_test_pattern(),
            high@.len() == low@.len() - i,
            forall|j: int| 0 <= j < high@.len() ==> high@[j] == low@[low@.len() - 1 - j],
        decreases i,
    {
        i = i - 1;
        high.push(low[i]);
    }
    proof {
        assert(high@ =~= xmm_test_pattern().reverse());
    }
    (low, high)
}

} // verus!
