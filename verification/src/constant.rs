//! The addressing model: which memory area is meant, which data type, and where.

use crate::error::Error;
use vstd::prelude::*;

verus! {

/// Header size of a read request.
pub const SIZE_HEADER_READ: usize = 31;

/// Header size of a write request; the payload follows it.
pub const SIZE_HEADER_WRITE: usize = 35;

/// Bytes of a read reply that precede the payload budget of one PDU.
pub const READ_REPLY_OVERHEAD: u16 = 18;

/// Bytes of a write request that precede the payload budget of one PDU.
pub const WRITE_REQUEST_OVERHEAD: u16 = 35;

/// Transport size of a payload made of single bits.
pub const TS_RES_BIT: u8 = 3;

/// Transport size of a payload made of bytes, words or double words.
pub const TS_RES_BYTE: u8 = 4;

/// Transport size of a payload made of counters or timers.
pub const TS_RES_OCTET: u8 = 9;

/// Word length code of a single bit.
pub const WL_BIT: u8 = 0x01;

/// Word length code of a byte, the granularity every plain type is flattened to.
pub const WL_BYTE: u8 = 0x02;

/// Word length code of a counter.
pub const WL_COUNTER: u8 = 0x1C;

/// Word length code of a timer.
pub const WL_TIMER: u8 = 0x1D;

/// Byte addresses from here on do not fit the three address bytes of a telegram.
pub const ADDRESS_LIMIT: u32 = 0x20_0000;

/// The position of one bit inside a byte.
#[derive(Debug, Copy, Clone, PartialEq, Eq)]
pub enum BitAddr {
    Addr0,
    Addr1,
    Addr2,
    Addr3,
    Addr4,
    Addr5,
    Addr6,
    Addr7,
}

impl BitAddr {
    /// The bit offset as a number, 0 to 7.
    pub open spec fn offset(self) -> int {
        match self {
            BitAddr::Addr0 => 0,
            BitAddr::Addr1 => 1,
            BitAddr::Addr2 => 2,
            BitAddr::Addr3 => 3,
            BitAddr::Addr4 => 4,
            BitAddr::Addr5 => 5,
            BitAddr::Addr6 => 6,
            BitAddr::Addr7 => 7,
        }
    }

    /// The bit offset as a byte.
    pub fn value(&self) -> (v: u8)
        ensures
            v == self.offset(),
    {
        match self {
            BitAddr::Addr0 => 0,
            BitAddr::Addr1 => 1,
            BitAddr::Addr2 => 2,
            BitAddr::Addr3 => 3,
            BitAddr::Addr4 => 4,
            BitAddr::Addr5 => 5,
            BitAddr::Addr6 => 6,
            BitAddr::Addr7 => 7,
        }
    }
}

/// The bit offset that a number names: 0 to 7 name one, any other number
/// is rejected with the number itself.
pub open spec fn bit_addr_of(value: u16) -> Result<BitAddr, Error> {
    match value {
        0 => Ok(BitAddr::Addr0),
        1 => Ok(BitAddr::Addr1),
        2 => Ok(BitAddr::Addr2),
        3 => Ok(BitAddr::Addr3),
        4 => Ok(BitAddr::Addr4),
        5 => Ok(BitAddr::Addr5),
        6 => Ok(BitAddr::Addr6),
        7 => Ok(BitAddr::Addr7),
        _ => Err(Error::InvalidBitAddr(value)),
    }
}

impl TryFrom<u16> for BitAddr {
    type Error = Error;

    /// Accepts 0 to 7; any other value is rejected with the value itself.
    fn try_from(value: u16) -> (r: Result<Self, Self::Error>)
        ensures
            r == bit_addr_of(value),
    {
        match value {
            0 => Ok(BitAddr::Addr0),
            1 => Ok(BitAddr::Addr1),
            2 => Ok(BitAddr::Addr2),
            3 => Ok(BitAddr::Addr3),
            4 => Ok(BitAddr::Addr4),
            5 => Ok(BitAddr::Addr5),
            6 => Ok(BitAddr::Addr6),
            7 => Ok(BitAddr::Addr7),
            val => Err(Error::InvalidBitAddr(val)),
        }
    }
}

impl vstd::std_specs::convert::TryFromSpecImpl<u16> for BitAddr {
    open spec fn obeys_try_from_spec() -> bool {
        true
    }

    open spec fn try_from_spec(value: u16) -> Result<Self, Error> {
        bit_addr_of(value)
    }
}

/// A number from 0 to 7 names the bit offset of that value.
pub proof fn lemma_bit_addr_of(value: u16)
    ensures
        value <= 7 ==> bit_addr_of(value) is Ok && bit_addr_of(value)->Ok_0.offset() == value,
        value > 7 ==> bit_addr_of(value) == Err::<BitAddr, Error>(Error::InvalidBitAddr(value)),
{
}

/// The number that the three address bytes of a telegram carry: the byte
/// address shifted left by three bits, plus the bit offset.
pub open spec fn packed_value(byte_address: int, bit_offset: int) -> int {
    byte_address * 8 + bit_offset
}

/// The three bytes of `value` in big-endian order.
pub open spec fn be24(value: int) -> [u8; 3] {
    [(value / 0x1_0000 % 0x100) as u8, (value / 0x100 % 0x100) as u8, (value % 0x100) as u8]
}

/// The number that three big-endian bytes stand for.
pub open spec fn be24_value(bytes: [u8; 3]) -> int {
    bytes[0] as int * 0x1_0000 + bytes[1] as int * 0x100 + bytes[2] as int
}

/// Whether a byte address and a bit offset can be packed into three bytes without loss.
pub open spec fn packable(byte_address: int, bit_offset: int) -> bool {
    0 <= byte_address < ADDRESS_LIMIT && 0 <= bit_offset <= 7
}

/// Packs a byte address and a bit offset into the three address bytes of a
/// telegram. An address that needs more than 24 bits once shifted, or a bit
/// offset above 7, is refused: nothing is ever truncated.
pub fn pack_address(byte_address: u32, bit_offset: u8) -> (r: Option<[u8; 3]>)
    ensures
        packable(byte_address as int, bit_offset as int) ==> r == Some(
            be24(packed_value(byte_address as int, bit_offset as int)),
        ),
        !packable(byte_address as int, bit_offset as int) ==> r is None,
{
    if byte_address >= ADDRESS_LIMIT || bit_offset > 7 {
        return None;
    }
    Some(packed(byte_address, bit_offset))
}

/// The three address bytes of an address that is known to fit.
pub(crate) fn packed(byte_address: u32, bit_offset: u8) -> (bytes: [u8; 3])
    requires
        packable(byte_address as int, bit_offset as int),
    ensures
        bytes == be24(packed_value(byte_address as int, bit_offset as int)),
{
    let address: u32 = byte_address * 8 + bit_offset as u32;
    let bytes = [
        (address / 0x1_0000) as u8,
        (address / 0x100 % 0x100) as u8,
        (address % 0x100) as u8,
    ];
    assert(bytes =~= be24(address as int));
    bytes
}

/// Decoding the three address bytes gives back the packed value, from which
/// the byte address and the bit offset are recovered, for every address
/// that can be packed.
pub proof fn lemma_packed_address_round_trip(byte_address: int, bit_offset: int)
    requires
        packable(byte_address, bit_offset),
    ensures
        be24_value(be24(packed_value(byte_address, bit_offset))) == packed_value(
            byte_address,
            bit_offset,
        ),
        packed_value(byte_address, bit_offset) / 8 == byte_address,
        packed_value(byte_address, bit_offset) % 8 == bit_offset,
        packed_value(byte_address, bit_offset) < 0x100_0000,
{
}

/// What is accessed: the data type, the linear byte address, and either a
/// bit offset (for a single bit) or the number of elements.
#[derive(Debug, Copy, Clone, PartialEq, Eq)]
pub enum DataSizeType {
    Bit { addr: u16, bit_addr: BitAddr },
    Byte { addr: u16, len: u16 },
    Char { addr: u16, len: u16 },
    Word { addr: u16, len: u16 },
    Int { addr: u16, len: u16 },
    DWord { addr: u16, len: u16 },
    DInt { addr: u16, len: u16 },
    Real { addr: u16, len: u16 },
    Counter { addr: u16, len: u16 },
    Timer { addr: u16, len: u16 },
}

impl DataSizeType {
    pub open spec fn spec_length(&self) -> u16 {
        match self {
            DataSizeType::Bit { .. } | DataSizeType::Byte { .. } | DataSizeType::Char { .. } => 1,
            DataSizeType::Word { .. } | DataSizeType::Int { .. } | DataSizeType::Counter { .. }
            | DataSizeType::Timer { .. } => 2,
            DataSizeType::DWord { .. } | DataSizeType::DInt { .. } | DataSizeType::Real { .. } => 4,
        }
    }

    pub open spec fn spec_bit_addr(&self) -> u8 {
        match self {
            DataSizeType::Bit { bit_addr, .. } => bit_addr.offset() as u8,
            _ => 0,
        }
    }

    pub open spec fn spec_len(&self) -> u16 {
        match self {
            DataSizeType::Bit { .. } => 1,
            DataSizeType::Byte { len, .. } => *len,
            DataSizeType::Char { len, .. } => *len,
            DataSizeType::Word { len, .. } => *len,
            DataSizeType::Int { len, .. } => *len,
            DataSizeType::DWord { len, .. } => *len,
            DataSizeType::DInt { len, .. } => *len,
            DataSizeType::Real { len, .. } => *len,
            DataSizeType::Counter { len, .. } => *len,
            DataSizeType::Timer { len, .. } => *len,
        }
    }

    pub open spec fn spec_byte_len(&self) -> usize {
        (self.spec_len() * self.spec_length()) as usize
    }

    pub open spec fn spec_byte_addr(&self) -> u16 {
        match self {
            DataSizeType::Bit { addr, .. } => *addr,
            DataSizeType::Byte { addr, .. } => *addr,
            DataSizeType::Char { addr, .. } => *addr,
            DataSizeType::Word { addr, .. } => *addr,
            DataSizeType::Int { addr, .. } => *addr,
            DataSizeType::DWord { addr, .. } => *addr,
            DataSizeType::DInt { addr, .. } => *addr,
            DataSizeType::Real { addr, .. } => *addr,
            DataSizeType::Counter { addr, .. } => *addr,
            DataSizeType::Timer { addr, .. } => *addr,
        }
    }

    pub open spec fn spec_data(&self) -> u8 {
        match self {
            DataSizeType::Bit { .. } => 0x01,
            DataSizeType::Byte { .. } => 0x02,
            DataSizeType::Char { .. } => 0x03,
            DataSizeType::Word { .. } => 0x04,
            DataSizeType::Int { .. } => 0x05,
            DataSizeType::DWord { .. } => 0x06,
            DataSizeType::DInt { .. } => 0x07,
            DataSizeType::Real { .. } => 0x08,
            DataSizeType::Counter { .. } => 0x1C,
            DataSizeType::Timer { .. } => 0x1D,
        }
    }

    /// Bytes per element: 1 for bits, bytes and chars, 2 for words, ints,
    /// counters and timers, 4 for double words, double ints and reals.
    #[verifier::when_used_as_spec(spec_length)]
    pub fn length(&self) -> (n: u16)
        ensures
            n == self.spec_length(),
    {
        match self {
            DataSizeType::Bit { .. } | DataSizeType::Byte { .. } | DataSizeType::Char { .. } => 1,
            DataSizeType::Word { .. } | DataSizeType::Int { .. } | DataSizeType::Counter { .. }
            | DataSizeType::Timer { .. } => 2,
            DataSizeType::DWord { .. } | DataSizeType::DInt { .. } | DataSizeType::Real { .. } => 4,
        }
    }

    /// The bit offset inside the addressed byte; 0 for everything but a bit.
    #[verifier::when_used_as_spec(spec_bit_addr)]
    pub fn bit_addr(&self) -> (b: u8)
        ensures
            b == self.spec_bit_addr(),
            b <= 7,
    {
        match self {
            DataSizeType::Bit { bit_addr, .. } => bit_addr.value(),
            _ => 0x00,
        }
    }

    /// The number of elements: 1 for a bit, else the count that the value carries.
    #[verifier::when_used_as_spec(spec_len)]
    pub fn len(&self) -> (n: u16)
        ensures
            n == self.spec_len(),
    {
        match self {
            DataSizeType::Bit { .. } => 1u16,
            DataSizeType::Byte { len, .. } => *len,
            DataSizeType::Char { len, .. } => *len,
            DataSizeType::Word { len, .. } => *len,
            DataSizeType::Int { len, .. } => *len,
            DataSizeType::DWord { len, .. } => *len,
            DataSizeType::DInt { len, .. } => *len,
            DataSizeType::Real { len, .. } => *len,
            DataSizeType::Counter { len, .. } => *len,
            DataSizeType::Timer { len, .. } => *len,
        }
    }

    /// The bytes that the whole request stands for: the number of elements
    /// times the bytes per element.
    #[verifier::when_used_as_spec(spec_byte_len)]
    pub fn byte_len(&self) -> (n: usize)
        ensures
            n == self.spec_byte_len(),
            n == self.spec_len() * self.spec_length(),
    {
        let count = self.len() as usize;
        let size = self.length() as usize;
        assert(count * size <= 0xFFFF * 4) by (nonlinear_arith)
            requires
                count <= 0xFFFF,
                size <= 4,
        ;
        count * size
    }

    /// The linear byte address that the value carries.
    #[verifier::when_used_as_spec(spec_byte_addr)]
    pub fn byte_addr(&self) -> (a: u16)
        ensures
            a == self.spec_byte_addr(),
    {
        match self {
            DataSizeType::Bit { addr, .. } => *addr,
            DataSizeType::Byte { addr, .. } => *addr,
            DataSizeType::Char { addr, .. } => *addr,
            DataSizeType::Word { addr, .. } => *addr,
            DataSizeType::Int { addr, .. } => *addr,
            DataSizeType::DWord { addr, .. } => *addr,
            DataSizeType::DInt { addr, .. } => *addr,
            DataSizeType::Real { addr, .. } => *addr,
            DataSizeType::Counter { addr, .. } => *addr,
            DataSizeType::Timer { addr, .. } => *addr,
        }
    }

    /// The three address bytes of a telegram for this value: the byte
    /// address shifted left by three bits plus the bit offset, big-endian.
    /// A 16-bit byte address always fits.
    pub fn addr(&self) -> (a: [u8; 3])
        ensures
            a == be24(packed_value(self.spec_byte_addr() as int, self.spec_bit_addr() as int)),
    {
        packed(self.byte_addr() as u32, self.bit_addr())
    }

    /// The one-byte wire code of the data type.
    #[verifier::when_used_as_spec(spec_data)]
    pub fn data(&self) -> (code: u8)
        ensures
            code == self.spec_data(),
    {
        match self {
            DataSizeType::Bit { .. } => 0x01,
            DataSizeType::Byte { .. } => 0x02,
            DataSizeType::Char { .. } => 0x03,
            DataSizeType::Word { .. } => 0x04,
            DataSizeType::Int { .. } => 0x05,
            DataSizeType::DWord { .. } => 0x06,
            DataSizeType::DInt { .. } => 0x07,
            DataSizeType::Real { .. } => 0x08,
            DataSizeType::Counter { .. } => 0x1C,
            DataSizeType::Timer { .. } => 0x1D,
        }
    }
}

/// For a bit, the request is one element of one byte whatever was asked
/// for; for every other type the payload is the element count times the
/// element size.
pub proof fn lemma_byte_len(d: DataSizeType)
    ensures
        d.spec_byte_len() == d.spec_len() * d.spec_length(),
        d is Bit ==> d.spec_len() == 1 && d.spec_length() == 1 && d.spec_byte_len() == 1,
        d.spec_byte_len() <= 4 * 0xFFFF,
{
    assert(d.spec_len() * d.spec_length() <= 0xFFFF * 4) by (nonlinear_arith)
        requires
            d.spec_len() <= 0xFFFF,
            d.spec_length() <= 4,
    ;
}

/// The memory area that a request addresses, with what is accessed in it.
#[derive(Debug, Copy, Clone, PartialEq, Eq)]
pub enum Area {
    /// Process inputs.
    ProcessInput(DataSizeType),
    /// Process outputs.
    ProcessOutput(DataSizeType),
    /// Flag memory: address registers within the CPU.
    Merker(DataSizeType),
    /// A data block, by its number.
    DataBausteine(u16, DataSizeType),
    /// Counters; always transferred as counter words.
    Counter(DataSizeType),
    /// Timers; always transferred as timer words.
    Timer(DataSizeType),
    /// The generic memory of controllers that address data-block memory without a block number.
    V(DataSizeType),
}

impl Area {
    pub open spec fn spec_area_data(&self) -> u8 {
        match self {
            Area::ProcessInput(_) => 0x81,
            Area::ProcessOutput(_) => 0x82,
            Area::Merker(_) => 0x83,
            Area::DataBausteine(_, _) => 0x84,
            Area::Counter(_) => 0x1C,
            Area::Timer(_) => 0x1D,
            Area::V(_) => 0x84,
        }
    }

    pub open spec fn spec_db_number(&self) -> u16 {
        match self {
            Area::DataBausteine(db_number, _) => *db_number,
            _ => 0,
        }
    }

    /// What is accessed inside the area.
    pub open spec fn data_size(&self) -> DataSizeType {
        match self {
            Area::ProcessInput(val) => *val,
            Area::ProcessOutput(val) => *val,
            Area::Merker(val) => *val,
            Area::DataBausteine(_, val) => *val,
            Area::Counter(val) => *val,
            Area::Timer(val) => *val,
            Area::V(val) => *val,
        }
    }

    /// The one-byte wire code of the area.
    #[verifier::when_used_as_spec(spec_area_data)]
    pub fn area_data(&self) -> (code: u8)
        ensures
            code == self.spec_area_data(),
    {
        match self {
            Area::ProcessInput(_) => 0x81,
            Area::ProcessOutput(_) => 0x82,
            Area::Merker(_) => 0x83,
            Area::DataBausteine(_, _) => 0x84,
            Area::Counter(_) => 0x1C,
            Area::Timer(_) => 0x1D,
            Area::V(_) => 0x84,
        }
    }

    /// The data block number; 0 for every area but a data block.
    #[verifier::when_used_as_spec(spec_db_number)]
    pub fn db_number(&self) -> (n: u16)
        ensures
            n == self.spec_db_number(),
    {
        match self {
            Area::DataBausteine(db_number, _) => *db_number,
            _ => 0,
        }
    }
}

impl core::ops::Deref for Area {
    type Target = DataSizeType;

    fn deref(&self) -> (d: &DataSizeType)
        ensures
            *d == self.data_size(),
    {
        match self {
            Area::ProcessInput(val) => val,
            Area::ProcessOutput(val) => val,
            Area::Merker(val) => val,
            Area::DataBausteine(_, val) => val,
            Area::Counter(val) => val,
            Area::Timer(val) => val,
            Area::V(val) => val,
        }
    }
}

/// The operating state that a controller reports.
#[derive(Debug, Copy, Clone, PartialEq, Eq)]
pub enum CpuStatus {
    Unknown,
    Stop,
    Run,
}

impl CpuStatus {
    pub open spec fn spec_code(&self) -> u8 {
        match self {
            CpuStatus::Unknown => 0,
            CpuStatus::Stop => 4,
            CpuStatus::Run => 8,
        }
    }

    /// The status byte that stands for this state.
    #[verifier::when_used_as_spec(spec_code)]
    pub fn code(&self) -> (c: u8)
        ensures
            c == self.spec_code(),
    {
        match self {
            CpuStatus::Unknown => 0,
            CpuStatus::Stop => 4,
            CpuStatus::Run => 8,
        }
    }

    /// Reads a status byte: 0, 4 and 8 name a state, every other value is
    /// rejected with the value itself.
    pub fn from_u8(value: u8) -> (r: Result<CpuStatus, Error>)
        ensures
            (value == 0 || value == 4 || value == 8) ==> r is Ok && r->Ok_0.spec_code() == value,
            !(value == 0 || value == 4 || value == 8) ==> r == Err::<CpuStatus, Error>(
                Error::InvalidCpuStatus(value),
            ),
    {
        match value {
            0 => Ok(CpuStatus::Unknown),
            4 => Ok(CpuStatus::Stop),
            8 => Ok(CpuStatus::Run),
            _ => Err(Error::InvalidCpuStatus(value)),
        }
    }
}

} // verus!
