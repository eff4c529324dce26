//! The APU's registers in the CPU address space.
use vstd::prelude::*;

verus! {

/// The APU registers that the CPU writes.
#[derive(Copy, Clone, Debug, PartialEq, Eq, Structural)]
pub enum WriteAccessRegister {
    Pulse1_0,
    Pulse1_1,
    Pulse1_2,
    Pulse1_3,
    Pulse2_0,
    Pulse2_1,
    Pulse2_2,
    Pulse2_3,
    Triangle0,
    Triangle1,
    Triangle2,
    Triangle3,
    Noise0,
    Noise1,
    Noise2,
    Noise3,
    DMC0,
    DMC1,
    DMC2,
    DMC3,
    Status,
    FrameCounter,
}

/// The CPU address of a write register: $4000 to $4013 in order, then $4015
/// and $4017.
pub open spec fn write_register_address(r: WriteAccessRegister) -> u16 {
    match r {
        WriteAccessRegister::Pulse1_0 => 0x4000,
        WriteAccessRegister::Pulse1_1 => 0x4001,
        WriteAccessRegister::Pulse1_2 => 0x4002,
        WriteAccessRegister::Pulse1_3 => 0x4003,
        WriteAccessRegister::Pulse2_0 => 0x4004,
        WriteAccessRegister::Pulse2_1 => 0x4005,
        WriteAccessRegister::Pulse2_2 => 0x4006,
        WriteAccessRegister::Pulse2_3 => 0x4007,
        WriteAccessRegister::Triangle0 => 0x4008,
        WriteAccessRegister::Triangle1 => 0x4009,
        WriteAccessRegister::Triangle2 => 0x400A,
        WriteAccessRegister::Triangle3 => 0x400B,
        WriteAccessRegister::Noise0 => 0x400C,
        WriteAccessRegister::Noise1 => 0x400D,
        WriteAccessRegister::Noise2 => 0x400E,
        WriteAccessRegister::Noise3 => 0x400F,
        WriteAccessRegister::DMC0 => 0x4010,
        WriteAccessRegister::DMC1 => 0x4011,
        WriteAccessRegister::DMC2 => 0x4012,
        WriteAccessRegister::DMC3 => 0x4013,
        WriteAccessRegister::Status => 0x4015,
        WriteAccessRegister::FrameCounter => 0x4017,
    }
}

/// The write register at a CPU address, if there is one.
pub open spec fn write_register_at(address: u16) -> Option<WriteAccessRegister> {
    if 0x4000 <= address <= 0x4013 {
        Some(all_write_registers()[address - 0x4000])
    } else if address == 0x4015 {
        Some(WriteAccessRegister::Status)
    } else if address == 0x4017 {
        Some(WriteAccessRegister::FrameCounter)
    } else {
        None
    }
}

/// All write registers, in address order.
pub open spec fn all_write_registers() -> Seq<WriteAccessRegister> {
    seq![
        WriteAccessRegister::Pulse1_0,
        WriteAccessRegister::Pulse1_1,
        WriteAccessRegister::Pulse1_2,
        WriteAccessRegister::Pulse1_3,
        WriteAccessRegister::Pulse2_0,
        WriteAccessRegister::Pulse2_1,
        WriteAccessRegister::Pulse2_2,
        WriteAccessRegister::Pulse2_3,
        WriteAccessRegister::Triangle0,
        WriteAccessRegister::Triangle1,
        WriteAccessRegister::Triangle2,
        WriteAccessRegister::Triangle3,
        WriteAccessRegister::Noise0,
        WriteAccessRegister::Noise1,
        WriteAccessRegister::Noise2,
        WriteAccessRegister::Noise3,
        WriteAccessRegister::DMC0,
        WriteAccessRegister::DMC1,
        WriteAccessRegister::DMC2,
        WriteAccessRegister::DMC3,
        WriteAccessRegister::Status,
        WriteAccessRegister::FrameCounter,
    ]
}

impl WriteAccessRegister {
    pub fn address(self) -> (r: u16)
        ensures
            r == write_register_address(self),
    {
        match self {
            WriteAccessRegister::Pulse1_0 => 0x4000,
            WriteAccessRegister::Pulse1_1 => 0x4001,
            WriteAccessRegister::Pulse1_2 => 0x4002,
            WriteAccessRegister::Pulse1_3 => 0x4003,
            WriteAccessRegister::Pulse2_0 => 0x4004,
            WriteAccessRegister::Pulse2_1 => 0x4005,
            WriteAccessRegister::Pulse2_2 => 0x4006,
            WriteAccessRegister::Pulse2_3 => 0x4007,
            WriteAccessRegister::Triangle0 => 0x4008,
            WriteAccessRegister::Triangle1 => 0x4009,
            WriteAccessRegister::Triangle2 => 0x400A,
            WriteAccessRegister::Triangle3 => 0x400B,
            WriteAccessRegister::Noise0 => 0x400C,
            WriteAccessRegister::Noise1 => 0x400D,
            WriteAccessRegister::Noise2 => 0x400E,
            WriteAccessRegister::Noise3 => 0x400F,
            WriteAccessRegister::DMC0 => 0x4010,
            WriteAccessRegister::DMC1 => 0x4011,
            WriteAccessRegister::DMC2 => 0x4012,
            WriteAccessRegister::DMC3 => 0x4013,
            WriteAccessRegister::Status => 0x4015,
            WriteAccessRegister::FrameCounter => 0x4017,
        }
    }

    /// The write register at a CPU address, if there is one.
    pub fn from_address(address: u16) -> (r: Option<WriteAccessRegister>)
        ensures
            r == write_register_at(address),
            r matches Some(reg) ==> write_register_address(reg) == address,
            r is None <==> forall|reg: WriteAccessRegister| write_register_address(reg) != address,
    {
        let registers = Self::iterator();
        let mut i: usize = 0;
        while i < registers.len()
            invariant
                registers@ == all_write_registers(),
                i <= registers.len(),
                forall|j: int| 0 <= j < i ==> write_register_address(#[trigger] registers@[j]) != address,
            decreases registers.len() - i,
        {
            if registers[i].address() == address {
                proof {
                    law_write_register_address_roundtrip(registers@[i as int]);
                }
                return Some(registers[i]);
            }
            i = i + 1;
        }
        proof {
            if write_register_at(address) matches Some(reg) {
                law_write_register_at_sound(address);
            }
            assert forall|reg: WriteAccessRegister| write_register_address(reg) != address by {
                let k: int = match reg {
                    WriteAccessRegister::Pulse1_0 => 0,
                    WriteAccessRegister::Pulse1_1 => 1,
                    WriteAccessRegister::Pulse1_2 => 2,
                    WriteAccessRegister::Pulse1_3 => 3,
                    WriteAccessRegister::Pulse2_0 => 4,
                    WriteAccessRegister::Pulse2_1 => 5,
                    WriteAccessRegister::Pulse2_2 => 6,
                    WriteAccessRegister::Pulse2_3 => 7,
                    WriteAccessRegister::Triangle0 => 8,
                    WriteAccessRegister::Triangle1 => 9,
                    WriteAccessRegister::Triangle2 => 10,
                    WriteAccessRegister::Triangle3 => 11,
                    WriteAccessRegister::Noise0 => 12,
                    WriteAccessRegister::Noise1 => 13,
                    WriteAccessRegister::Noise2 => 14,
                    WriteAccessRegister::Noise3 => 15,
                    WriteAccessRegister::DMC0 => 16,
                    WriteAccessRegister::DMC1 => 17,
                    WriteAccessRegister::DMC2 => 18,
                    WriteAccessRegister::DMC3 => 19,
                    WriteAccessRegister::Status => 20,
                    WriteAccessRegister::FrameCounter => 21,
                };
                assert(registers@[k] == reg);
            }
        }
        None
    }

    /// All the write registers, in address order.
    pub fn iterator() -> (r: Vec<WriteAccessRegister>)
        ensures
            r@ == all_write_registers(),
    {
        let r = vec![
            WriteAccessRegister::Pulse1_0,
            WriteAccessRegister::Pulse1_1,
            WriteAccessRegister::Pulse1_2,
            WriteAccessRegister::Pulse1_3,
            WriteAccessRegister::Pulse2_0,
            WriteAccessRegister::Pulse2_1,
            WriteAccessRegister::Pulse2_2,
            WriteAccessRegister::Pulse2_3,
            WriteAccessRegister::Triangle0,
            WriteAccessRegister::Triangle1,
            WriteAccessRegister::Triangle2,
            WriteAccessRegister::Triangle3,
            WriteAccessRegister::Noise0,
            WriteAccessRegister::Noise1,
            WriteAccessRegister::Noise2,
            WriteAccessRegister::Noise3,
            WriteAccessRegister::DMC0,
            WriteAccessRegister::DMC1,
            WriteAccessRegister::DMC2,
            WriteAccessRegister::DMC3,
            WriteAccessRegister::Status,
            WriteAccessRegister::FrameCounter,
        ];
        assert(r@ =~= all_write_registers());
        r
    }
}

/// The APU registers that the CPU reads.
#[derive(Copy, Clone, Debug, PartialEq, Eq, Structural)]
pub enum ReadAccessRegister {
    Status,
}

impl ReadAccessRegister {
    /// The CPU address of the register: $4015.
    pub fn address(self) -> (r: u16)
        ensures
            r == 0x4015,
    {
        0x4015
    }

    /// All the read registers.
    pub fn iterator() -> (r: Vec<ReadAccessRegister>)
        ensures
            r@ == seq![ReadAccessRegister::Status],
    {
        let r = vec![ReadAccessRegister::Status];
        assert(r@ =~= seq![ReadAccessRegister::Status]);
        r
    }
}

pub trait WriteAcessRegisters {
    fn write(&mut self, register: WriteAccessRegister, value: u8);
}

pub trait ReadAccessRegisters {
    fn read(&mut self, register: ReadAccessRegister) -> u8;
}

pub trait ApuRegisterAccess: WriteAcessRegisters + ReadAccessRegisters {
}

/// Each write register's address leads back to that register.
pub proof fn law_write_register_address_roundtrip(r: WriteAccessRegister)
    ensures
        write_register_at(write_register_address(r)) == Some(r),
{
}

/// An address that names a write register is that register's address.
pub proof fn law_write_register_at_sound(address: u16)
    ensures
        write_register_at(address) matches Some(r) ==> write_register_address(r) == address,
{
    if 0x4000 <= address <= 0x4013 {
        let k = address - 0x4000;
        assert(0 <= k < 20);
        assert(k == 0 || k == 1 || k == 2 || k == 3 || k == 4 || k == 5 || k == 6 || k == 7 || k == 8
            || k == 9 || k == 10 || k == 11 || k == 12 || k == 13 || k == 14 || k == 15 || k == 16
            || k == 17 || k == 18 || k == 19);
    }
}

} // verus!
