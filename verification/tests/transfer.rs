use s7::telegram::Item;
use s7::transfer::Transfer;
use s7::{Area, BitAddr, DataSizeType, Error};

#[test]
fn word_read_under_pdu_240() {
    let area = Area::DataBausteine(1, DataSizeType::Word { addr: 300, len: 1 });
    assert_eq!(area.word_len(), 0x04);
    assert!(!area.keeps_word_len());
    assert_eq!(area.wire_word_len(), 0x02);
    assert_eq!(area.element_size(), 1);
    assert_eq!(area.amount(), 2);
    assert_eq!(area.transfer_len(), 2);
    let transfer = Transfer::for_read(area, 240).unwrap();
    assert_eq!(transfer.max_elements, 222);
    assert_eq!(transfer.done, 0);
    assert!(!transfer.is_complete());
    assert_eq!(transfer.count(), 2);
    assert_eq!(transfer.size(), 2);
    assert_eq!(transfer.offset(), 0);
    assert_eq!(transfer.address(), 300);
    assert_eq!(
        transfer.item(),
        Item {
            area: 0x84,
            db_number: 1,
            word_len: 0x02,
            count: 2,
            address: [0x00, 0x09, 0x60],
        }
    );
}

#[test]
fn answers_drive_the_transfer() {
    let area = Area::V(DataSizeType::Byte { addr: 0, len: 4 });
    let mut buffer = vec![0; 4];
    let mut reply = vec![0u8; 25];
    reply[21] = 0xFF;
    reply.extend_from_slice(&[1, 2]);

    let mut transfer = Transfer::for_read(area, 18 + 2).unwrap();
    assert_eq!(
        transfer.take_read_answer(Ok(reply.clone()), &mut buffer),
        Ok(())
    );
    assert_eq!((transfer.done, &buffer[..]), (2, &[1, 2, 0, 0][..]));
    assert_eq!(
        transfer.take_read_answer(Err(Error::Lock), &mut buffer),
        Err(Error::Lock)
    );
    assert_eq!((transfer.done, &buffer[..]), (2, &[1, 2, 0, 0][..]));
    assert_eq!(transfer.take_read_answer(Ok(reply), &mut buffer), Ok(()));
    assert_eq!((transfer.done, &buffer[..]), (4, &[1, 2, 1, 2][..]));
    assert!(transfer.is_complete());

    let mut transfer = Transfer::for_write(area, 35 + 3).unwrap();
    assert_eq!(transfer.take_write_answer(Ok(vec![])), Ok(()));
    assert_eq!(transfer.done, 3);
    assert_eq!(
        transfer.take_write_answer(Err(Error::Iso)),
        Err(Error::Iso)
    );
    assert_eq!(transfer.done, 3);
    assert_eq!(transfer.take_write_answer(Ok(vec![0xAB; 40])), Ok(()));
    assert!(transfer.is_complete());
}

#[test]
fn chunk_bounds() {
    let bytes = Area::V(DataSizeType::Byte { addr: 0, len: 1 });
    let timers = Area::Timer(DataSizeType::Timer { addr: 0, len: 1 });
    assert_eq!(Transfer::for_read(bytes, 480).unwrap().max_elements, 462);
    assert_eq!(Transfer::for_write(bytes, 480).unwrap().max_elements, 445);
    assert_eq!(Transfer::for_read(timers, 480).unwrap().max_elements, 231);
    assert_eq!(Transfer::for_write(timers, 480).unwrap().max_elements, 222);
    assert_eq!(Transfer::for_read(timers, 21).unwrap().max_elements, 1);
    assert_eq!(Transfer::for_read(bytes, 0xFFFF).unwrap().max_elements, 65_517);
    assert_eq!(Transfer::for_write(bytes, 0xFFFF).unwrap().max_elements, 65_500);
}

#[test]
fn pdu_length_must_hold_one_element() {
    let bytes = Area::V(DataSizeType::Byte { addr: 0, len: 1 });
    let timers = Area::Timer(DataSizeType::Timer { addr: 0, len: 1 });
    for pdu_length in [0u16, 1, 17, 18] {
        assert_eq!(
            Transfer::for_read(bytes, pdu_length),
            Err(Error::PduLength(pdu_length))
        );
    }
    assert_eq!(Transfer::for_read(timers, 19), Err(Error::PduLength(19)));
    assert!(Transfer::for_read(bytes, 19).is_ok());
    assert!(Transfer::for_read(timers, 20).is_ok());
    for pdu_length in [0u16, 34, 35] {
        assert_eq!(
            Transfer::for_write(bytes, pdu_length),
            Err(Error::PduLength(pdu_length))
        );
    }
    assert_eq!(Transfer::for_write(timers, 36), Err(Error::PduLength(36)));
    assert!(Transfer::for_write(bytes, 36).is_ok());
    assert!(Transfer::for_write(timers, 37).is_ok());
}

#[test]
fn chunks_advance_address_and_offset() {
    let area = Area::Merker(DataSizeType::Int { addr: 10, len: 6 });
    let mut transfer = Transfer::for_read(area, 18 + 5).unwrap();
    let mut seen = Vec::new();
    while !transfer.is_complete() {
        seen.push((transfer.address(), transfer.offset(), transfer.count()));
        transfer.advance();
    }
    assert_eq!(seen, vec![(10, 0, 5), (15, 5, 5), (20, 10, 2)]);
    assert_eq!(transfer.done, 12);
    assert_eq!(transfer.count(), 0);
    assert_eq!(transfer.size(), 0);
    assert_eq!(transfer.offset(), 12);
}

#[test]
fn counter_chunks_advance_by_words() {
    let area = Area::ProcessInput(DataSizeType::Counter { addr: 4, len: 5 });
    assert!(area.keeps_word_len());
    assert_eq!(area.wire_word_len(), 0x1C);
    assert_eq!(area.transport_size(), 9);
    let mut transfer = Transfer::for_read(area, 18 + 4).unwrap();
    assert_eq!(transfer.max_elements, 2);
    let mut seen = Vec::new();
    while !transfer.is_complete() {
        seen.push((
            transfer.address(),
            transfer.offset(),
            transfer.count(),
            transfer.size(),
        ));
        transfer.advance();
    }
    assert_eq!(seen, vec![(4, 0, 2, 4), (8, 4, 2, 4), (12, 8, 1, 2)]);
}

#[test]
fn bit_transfers_one_element_in_any_area_but_counters_and_timers() {
    let bit = DataSizeType::Bit {
        addr: 2,
        bit_addr: BitAddr::Addr3,
    };
    let area = Area::V(bit);
    assert_eq!(area.amount(), 1);
    assert_eq!(area.element_size(), 1);
    assert_eq!(area.transfer_len(), 1);
    assert_eq!(area.transport_size(), 3);
    assert_eq!(area.wire_word_len(), 0x01);
    let transfer = Transfer::for_read(area, 240).unwrap();
    assert_eq!(transfer.item().address, [0, 0, 19]);
    assert_eq!(transfer.item().count, 1);

    let area = Area::Counter(bit);
    assert_eq!(area.word_len(), 0x1C);
    assert_eq!(area.amount(), 1);
    assert_eq!(area.transfer_len(), 2);
    assert_eq!(area.transport_size(), 9);
}

#[test]
fn transport_size_of_plain_types_is_byte() {
    for data in [
        DataSizeType::Byte { addr: 0, len: 1 },
        DataSizeType::Char { addr: 0, len: 1 },
        DataSizeType::Word { addr: 0, len: 1 },
        DataSizeType::Int { addr: 0, len: 1 },
        DataSizeType::DWord { addr: 0, len: 1 },
        DataSizeType::DInt { addr: 0, len: 1 },
        DataSizeType::Real { addr: 0, len: 1 },
    ] {
        let area = Area::ProcessOutput(data);
        assert_eq!(area.transport_size(), 4);
        assert_eq!(area.wire_word_len(), 0x02);
        assert_eq!(area.element_size(), 1);
        assert_eq!(area.transfer_len(), data.byte_len());
    }
}

#[test]
fn payload_length_is_in_bits_for_plain_types() {
    let area = Area::V(DataSizeType::Byte { addr: 0, len: 100 });
    let transfer = Transfer::for_write(area, 35 + 30).unwrap();
    assert_eq!(transfer.payload_length(), 240);
    let area = Area::Timer(DataSizeType::Timer { addr: 0, len: 100 });
    let transfer = Transfer::for_write(area, 35 + 30).unwrap();
    assert_eq!(transfer.payload_length(), 30);
}

#[test]
fn payload_length_keeps_the_low_16_bits() {
    let area = Area::V(DataSizeType::Byte {
        addr: 0,
        len: 0xFFFF,
    });
    let transfer = Transfer::for_write(area, 35 + 8191).unwrap();
    assert_eq!(transfer.payload_length(), 65_528);
    let transfer = Transfer::for_write(area, 35 + 8192).unwrap();
    assert_eq!(transfer.payload_length(), 0);
    let transfer = Transfer::for_write(area, 35 + 8200).unwrap();
    assert_eq!(transfer.payload_length(), 64);
}

#[test]
fn write_request_carries_its_share_of_the_buffer() {
    let area = Area::V(DataSizeType::Byte { addr: 300, len: 6 });
    let mut transfer = Transfer::for_write(area, 35 + 4).unwrap();
    let buffer = [10, 11, 12, 13, 14, 15, 99];
    let first = transfer.write_request(&buffer);
    assert_eq!(&first[35..], &[10, 11, 12, 13]);
    transfer.advance();
    let second = transfer.write_request(&buffer);
    assert_eq!(&second[35..], &[14, 15]);
    assert_eq!(&second[28..31], &[0x00, 0x09, 0x80]);
    transfer.advance();
    assert!(transfer.is_complete());
}

#[test]
fn accepted_reply_moves_the_transfer_on() {
    let area = Area::V(DataSizeType::Byte { addr: 300, len: 6 });
    let mut transfer = Transfer::for_read(area, 18 + 4).unwrap();
    let mut buffer = vec![0xAA; 8];
    let mut reply = vec![0u8; 25];
    reply[21] = 0xFF;
    reply.extend_from_slice(&[1, 2, 3, 4, 250]);
    assert_eq!(transfer.accept_read_reply(&reply, &mut buffer), Ok(()));
    assert_eq!(buffer, vec![1, 2, 3, 4, 0xAA, 0xAA, 0xAA, 0xAA]);
    assert_eq!(transfer.done, 4);

    reply[21] = 0x0A;
    assert_eq!(
        transfer.accept_read_reply(&reply, &mut buffer),
        Err(Error::CPU { code: 10 })
    );
    assert_eq!(buffer, vec![1, 2, 3, 4, 0xAA, 0xAA, 0xAA, 0xAA]);
    assert_eq!(transfer.done, 4);

    reply[21] = 0xFF;
    assert_eq!(transfer.accept_read_reply(&reply, &mut buffer), Ok(()));
    assert_eq!(buffer, vec![1, 2, 3, 4, 1, 2, 0xAA, 0xAA]);
    assert!(transfer.is_complete());
}
