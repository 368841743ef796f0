//! The register file layout of a thread's saved context.

use vstd::prelude::*;

verus! {

/// The number of saved context registers: the general-purpose registers plus
/// the kernel-saved control state.
pub const N_CONTEXT_REGISTERS: usize = 35;

/// The supervisor-interrupt-enable-on-return bit of the status register.
pub const SSTATUS_SPIE: u64 = 0x20;

/// The number of message registers passed in general-purpose registers.
pub const N_MSG_REGISTERS: usize = 4;

/// One saved register of a thread's context.
#[derive(Clone, Copy, Debug, PartialEq, Eq, Structural)]
pub enum Rv64Reg {
    Ra,
    Sp,
    Gp,
    Tp,
    T0,
    T1,
    T2,
    S0,
    S1,
    A0,
    A1,
    A2,
    A3,
    A4,
    A5,
    A6,
    A7,
    S2,
    S3,
    S4,
    S5,
    S6,
    S7,
    S8,
    S9,
    S10,
    S11,
    T3,
    T4,
    T5,
    T6,
    Scause,
    Sstatus,
    FaultIp,
    NextIp,
}

/// The index of a register in the saved context.
pub open spec fn reg_index_spec(r: Rv64Reg) -> int {
    match r {
        Rv64Reg::Ra => 0,
        Rv64Reg::Sp => 1,
        Rv64Reg::Gp => 2,
        Rv64Reg::Tp => 3,
        Rv64Reg::T0 => 4,
        Rv64Reg::T1 => 5,
        Rv64Reg::T2 => 6,
        Rv64Reg::S0 => 7,
        Rv64Reg::S1 => 8,
        Rv64Reg::A0 => 9,
        Rv64Reg::A1 => 10,
        Rv64Reg::A2 => 11,
        Rv64Reg::A3 => 12,
        Rv64Reg::A4 => 13,
        Rv64Reg::A5 => 14,
        Rv64Reg::A6 => 15,
        Rv64Reg::A7 => 16,
        Rv64Reg::S2 => 17,
        Rv64Reg::S3 => 18,
        Rv64Reg::S4 => 19,
        Rv64Reg::S5 => 20,
        Rv64Reg::S6 => 21,
        Rv64Reg::S7 => 22,
        Rv64Reg::S8 => 23,
        Rv64Reg::S9 => 24,
        Rv64Reg::S10 => 25,
        Rv64Reg::S11 => 26,
        Rv64Reg::T3 => 27,
        Rv64Reg::T4 => 28,
        Rv64Reg::T5 => 29,
        Rv64Reg::T6 => 30,
        Rv64Reg::Scause => 31,
        Rv64Reg::Sstatus => 32,
        Rv64Reg::FaultIp => 33,
        Rv64Reg::NextIp => 34,
    }
}

impl Rv64Reg {
    /// The index of this register in the saved context.
    pub fn index(&self) -> (r: usize)
        ensures
            r == reg_index_spec(*self),
            r < N_CONTEXT_REGISTERS,
    {
        match self {
            Rv64Reg::Ra => 0,
            Rv64Reg::Sp => 1,
            Rv64Reg::Gp => 2,
            Rv64Reg::Tp => 3,
            Rv64Reg::T0 => 4,
            Rv64Reg::T1 => 5,
            Rv64Reg::T2 => 6,
            Rv64Reg::S0 => 7,
            Rv64Reg::S1 => 8,
            Rv64Reg::A0 => 9,
            Rv64Reg::A1 => 10,
            Rv64Reg::A2 => 11,
            Rv64Reg::A3 => 12,
            Rv64Reg::A4 => 13,
            Rv64Reg::A5 => 14,
            Rv64Reg::A6 => 15,
            Rv64Reg::A7 => 16,
            Rv64Reg::S2 => 17,
            Rv64Reg::S3 => 18,
            Rv64Reg::S4 => 19,
            Rv64Reg::S5 => 20,
            Rv64Reg::S6 => 21,
            Rv64Reg::S7 => 22,
            Rv64Reg::S8 => 23,
            Rv64Reg::S9 => 24,
            Rv64Reg::S10 => 25,
            Rv64Reg::S11 => 26,
            Rv64Reg::T3 => 27,
            Rv64Reg::T4 => 28,
            Rv64Reg::T5 => 29,
            Rv64Reg::T6 => 30,
            Rv64Reg::Scause => 31,
            Rv64Reg::Sstatus => 32,
            Rv64Reg::FaultIp => 33,
            Rv64Reg::NextIp => 34,
        }
    }
}

/// The register that carries message register `i` of a message: the argument
/// registers `a2` through `a5`.
pub fn msg_register(i: usize) -> (r: Rv64Reg)
    requires
        i < N_MSG_REGISTERS,
    ensures
        reg_index_spec(r) == i + 11,
{
    if i == 0 {
        Rv64Reg::A2
    } else if i == 1 {
        Rv64Reg::A3
    } else if i == 2 {
        Rv64Reg::A4
    } else {
        Rv64Reg::A5
    }
}

} // verus!
