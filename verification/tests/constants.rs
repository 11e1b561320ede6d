use wal_decoder::constants::HEAPBLK_TO_MAPBLOCK;

#[test]
fn heap_block_to_map_page() {
    assert_eq!(HEAPBLK_TO_MAPBLOCK(0), 0);
    assert_eq!(HEAPBLK_TO_MAPBLOCK(32671), 0);
    assert_eq!(HEAPBLK_TO_MAPBLOCK(32672), 1);
    assert_eq!(HEAPBLK_TO_MAPBLOCK(u32::MAX), 131457);
}
