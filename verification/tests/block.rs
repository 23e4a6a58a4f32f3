use wamr_pool::{get_header, is_storable, AllocationHeader, Block, ByteOrder, ALIGNMENT, HEADER_SIZE};

#[test]
fn the_header_is_padded_to_the_alignment() {
    assert_eq!(ALIGNMENT, 8);
    assert_eq!(HEADER_SIZE, 8);
}

#[test]
fn a_header_is_written_in_the_byte_order_of_the_machine() {
    let mut bytes = vec![0xFFu8; 10];
    AllocationHeader { size: 0x0102_0304 }.write(ByteOrder::Little, &mut bytes);
    assert_eq!(bytes, vec![4, 3, 2, 1, 0, 0, 0, 0, 0xFF, 0xFF]);
    AllocationHeader { size: 0x0102_0304 }.write(ByteOrder::Big, &mut bytes);
    assert_eq!(bytes, vec![0, 0, 0, 0, 1, 2, 3, 4, 0xFF, 0xFF]);
}

#[test]
fn a_header_holds_the_size_as_the_standard_library_writes_it() {
    for size in [0x0102_0304_0506_0708, usize::MAX - 1] {
        let mut bytes = vec![0xAAu8; HEADER_SIZE];
        AllocationHeader { size }.write(ByteOrder::Little, &mut bytes);
        assert_eq!(bytes, size.to_le_bytes().to_vec());
        AllocationHeader { size }.write(ByteOrder::Big, &mut bytes);
        assert_eq!(bytes, size.to_be_bytes().to_vec());
    }
}

#[test]
fn a_header_is_read_back_as_written() {
    for order in [ByteOrder::Little, ByteOrder::Big] {
        for size in [0, 1, 255, 256, 65_535, 1_114_112, u32::MAX as usize, usize::MAX] {
            let mut bytes = vec![0xAAu8; HEADER_SIZE];
            AllocationHeader { size }.write(order, &mut bytes);
            assert_eq!(AllocationHeader::read(order, &bytes), AllocationHeader { size });
        }
    }
}

#[test]
fn a_header_is_read_from_the_first_bytes() {
    let bytes = [0x80, 0, 1, 0, 0, 0, 0, 0, 0x55];
    assert_eq!(AllocationHeader::read(ByteOrder::Little, &bytes).size, 0x1_0080);
    assert_eq!(AllocationHeader::read(ByteOrder::Big, &bytes).size, 0x8000_0100_0000_0000);
}

#[test]
fn bytes_of_a_word_have_a_position() {
    assert_eq!(ByteOrder::Little.position(0), 0);
    assert_eq!(ByteOrder::Little.position(3), 3);
    assert_eq!(ByteOrder::Big.position(0), (usize::BITS / 8 - 1) as usize);
}

#[test]
fn the_header_is_in_front_of_the_payload() {
    assert_eq!(get_header(4096), 4088);
    let block = Block { raw: 4088, size: 40 };
    assert_eq!(block.ptr(), 4096);
    assert_eq!(block.total(), 48);
}

#[test]
fn what_is_storable_is_bounded_by_layouts() {
    assert!(is_storable(0));
    assert!(is_storable(u32::MAX as usize / 2));
    assert!(is_storable(isize::MAX as usize - 15));
    assert!(!is_storable(isize::MAX as usize - 14));
    assert!(!is_storable(usize::MAX - 8));
    assert!(!is_storable(usize::MAX));
}

#[test]
fn a_larger_block_is_filled_with_the_whole_payload() {
    let replaced = Block { raw: 64, size: 3 };
    let mut replaced_bytes = vec![1u8, 2, 3, 4, 5, 6, 7, 8, 10, 11, 12];
    AllocationHeader { size: 3 }.write(ByteOrder::Little, &mut replaced_bytes);
    let block = Block { raw: 128, size: 5 };
    let mut bytes = vec![0xEEu8; 13];
    block.fill_from(ByteOrder::Little, &mut bytes, &replaced, &replaced_bytes);
    assert_eq!(bytes, vec![5, 0, 0, 0, 0, 0, 0, 0, 10, 11, 12, 0xEE, 0xEE]);
}

#[test]
fn a_smaller_block_is_filled_with_the_start_of_the_payload() {
    let replaced = Block { raw: 64, size: 4 };
    let replaced_bytes = vec![4u8, 0, 0, 0, 0, 0, 0, 0, 10, 11, 12, 13];
    let block = Block { raw: 128, size: 2 };
    let mut bytes = vec![0xEEu8; 10];
    block.fill_from(ByteOrder::Little, &mut bytes, &replaced, &replaced_bytes);
    assert_eq!(bytes, vec![2, 0, 0, 0, 0, 0, 0, 0, 10, 11]);
}
