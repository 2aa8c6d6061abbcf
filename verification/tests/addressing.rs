use s7::constant::{pack_address, ADDRESS_LIMIT};
use s7::{Area, BitAddr, CpuStatus, DataSizeType, Error};

fn every_counted(addr: u16, len: u16) -> Vec<(DataSizeType, u16, u8)> {
    vec![
        (DataSizeType::Byte { addr, len }, 1, 0x02),
        (DataSizeType::Char { addr, len }, 1, 0x03),
        (DataSizeType::Word { addr, len }, 2, 0x04),
        (DataSizeType::Int { addr, len }, 2, 0x05),
        (DataSizeType::DWord { addr, len }, 4, 0x06),
        (DataSizeType::DInt { addr, len }, 4, 0x07),
        (DataSizeType::Real { addr, len }, 4, 0x08),
        (DataSizeType::Counter { addr, len }, 2, 0x1C),
        (DataSizeType::Timer { addr, len }, 2, 0x1D),
    ]
}

#[test]
fn byte_len_is_count_times_element_size() {
    for len in [0u16, 1, 3, 1000, 0x7FFF, 0x8000, 0xFFFF] {
        for (data, size, code) in every_counted(12, len) {
            assert_eq!(data.length(), size);
            assert_eq!(data.len(), len);
            assert_eq!(data.byte_len(), len as usize * size as usize);
            assert_eq!(data.data(), code);
            assert_eq!(data.bit_addr(), 0);
        }
    }
}

#[test]
fn largest_byte_len_does_not_wrap() {
    let data = DataSizeType::Real {
        addr: 0,
        len: 0xFFFF,
    };
    assert_eq!(data.byte_len(), 262_140);
    let data = DataSizeType::Word {
        addr: 0,
        len: 0x8000,
    };
    assert_eq!(data.byte_len(), 65_536);
}

#[test]
fn bit_is_one_element_of_one_byte() {
    let bit = DataSizeType::Bit {
        addr: 9,
        bit_addr: BitAddr::Addr6,
    };
    assert_eq!(bit.len(), 1);
    assert_eq!(bit.length(), 1);
    assert_eq!(bit.byte_len(), 1);
    assert_eq!(bit.bit_addr(), 6);
    assert_eq!(bit.data(), 0x01);
}

#[test]
fn packed_address_is_shifted_address_plus_bit() {
    let bit = DataSizeType::Bit {
        addr: 300,
        bit_addr: BitAddr::Addr5,
    };
    assert_eq!(bit.addr(), [0x00, 0x09, 0x65]);
    let word = DataSizeType::Word {
        addr: 0xFFFF,
        len: 1,
    };
    assert_eq!(word.addr(), [0x07, 0xFF, 0xF8]);
    let byte = DataSizeType::Byte { addr: 0, len: 1 };
    assert_eq!(byte.addr(), [0, 0, 0]);
    let timer = DataSizeType::Timer { addr: 5, len: 1 };
    assert_eq!(timer.addr(), [0, 0, 40]);
}

#[test]
fn packed_address_round_trips() {
    for byte_address in [0u32, 1, 255, 256, 300, 65_535, 65_536, 1_000_000, 0x1F_FFFF] {
        for bit_offset in 0u8..8 {
            let bytes = pack_address(byte_address, bit_offset).unwrap();
            let value = ((bytes[0] as u32) << 16) + ((bytes[1] as u32) << 8) + bytes[2] as u32;
            assert_eq!(value, (byte_address << 3) + bit_offset as u32);
            assert_eq!(value >> 3, byte_address);
            assert_eq!(value & 7, bit_offset as u32);
        }
    }
}

#[test]
fn packed_address_beyond_24_bits_is_refused() {
    assert_eq!(ADDRESS_LIMIT, 0x20_0000);
    assert_eq!(pack_address(0x1F_FFFF, 7), Some([0xFF, 0xFF, 0xFF]));
    assert_eq!(pack_address(0x20_0000, 0), None);
    assert_eq!(pack_address(0x20_0001, 3), None);
    assert_eq!(pack_address(u32::MAX, 0), None);
    assert_eq!(pack_address(0x2000_0000, 0), None);
}

#[test]
fn packed_address_refuses_a_bit_offset_above_seven() {
    assert_eq!(pack_address(0, 7), Some([0, 0, 7]));
    assert_eq!(pack_address(0, 8), None);
    assert_eq!(pack_address(300, 255), None);
}

#[test]
fn bit_addr_accepts_zero_to_seven() {
    let all = [
        BitAddr::Addr0,
        BitAddr::Addr1,
        BitAddr::Addr2,
        BitAddr::Addr3,
        BitAddr::Addr4,
        BitAddr::Addr5,
        BitAddr::Addr6,
        BitAddr::Addr7,
    ];
    for (value, expected) in all.iter().enumerate() {
        assert_eq!(BitAddr::try_from(value as u16), Ok(*expected));
        assert_eq!(expected.value(), value as u8);
    }
}

#[test]
fn bit_addr_rejects_the_rest() {
    assert_eq!(BitAddr::try_from(8), Err(Error::InvalidBitAddr(8)));
    assert_eq!(BitAddr::try_from(300), Err(Error::InvalidBitAddr(300)));
    assert_eq!(
        BitAddr::try_from(0xFFFF),
        Err(Error::InvalidBitAddr(0xFFFF))
    );
}

#[test]
fn area_codes() {
    let data = DataSizeType::Byte { addr: 1, len: 2 };
    assert_eq!(Area::ProcessInput(data).area_data(), 0x81);
    assert_eq!(Area::ProcessOutput(data).area_data(), 0x82);
    assert_eq!(Area::Merker(data).area_data(), 0x83);
    assert_eq!(Area::DataBausteine(4, data).area_data(), 0x84);
    assert_eq!(Area::V(data).area_data(), 0x84);
    assert_eq!(Area::Counter(data).area_data(), 0x1C);
    assert_eq!(Area::Timer(data).area_data(), 0x1D);
}

#[test]
fn only_a_data_block_has_a_number() {
    let data = DataSizeType::Byte { addr: 1, len: 2 };
    assert_eq!(Area::DataBausteine(0xBEEF, data).db_number(), 0xBEEF);
    assert_eq!(Area::ProcessInput(data).db_number(), 0);
    assert_eq!(Area::ProcessOutput(data).db_number(), 0);
    assert_eq!(Area::Merker(data).db_number(), 0);
    assert_eq!(Area::V(data).db_number(), 0);
    assert_eq!(Area::Counter(data).db_number(), 0);
    assert_eq!(Area::Timer(data).db_number(), 0);
}

#[test]
fn area_dereferences_to_what_is_accessed() {
    let data = DataSizeType::DInt { addr: 8, len: 3 };
    assert_eq!(*Area::DataBausteine(2, data), data);
    assert_eq!(*Area::Timer(data), data);
    assert_eq!(Area::V(data).byte_len(), 12);
    assert_eq!(Area::Merker(data).len(), 3);
}

#[test]
fn cpu_status_from_its_byte() {
    assert_eq!(CpuStatus::from_u8(0), Ok(CpuStatus::Unknown));
    assert_eq!(CpuStatus::from_u8(4), Ok(CpuStatus::Stop));
    assert_eq!(CpuStatus::from_u8(8), Ok(CpuStatus::Run));
    assert_eq!(CpuStatus::Unknown.code(), 0);
    assert_eq!(CpuStatus::Stop.code(), 4);
    assert_eq!(CpuStatus::Run.code(), 8);
    for value in [1u8, 2, 3, 5, 7, 9, 255] {
        assert_eq!(
            CpuStatus::from_u8(value),
            Err(Error::InvalidCpuStatus(value))
        );
    }
}
