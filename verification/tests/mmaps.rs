use bb_runner::mmaps::{
    page_size, page_size_from, Region, StackError, StackMap, DEFAULT_PAGE_SIZE,
};

#[test]
fn page_size_falls_back_to_the_default() {
    assert_eq!(DEFAULT_PAGE_SIZE, 4096);
    assert_eq!(page_size_from(None), 4096);
    assert_eq!(page_size_from(Some(16384)), 16384);
    assert_eq!(page_size_from(Some(4096)), 4096);
}

#[test]
fn page_size_is_the_one_of_the_host() {
    let size = page_size();
    assert!(size >= 512);
    assert!(size.is_power_of_two());
    let host = nix::unistd::sysconf(nix::unistd::SysconfVar::PAGE_SIZE).unwrap().unwrap();
    assert_eq!(size as i64, host as i64);
}

#[test]
fn stack_gets_one_page_more_than_asked_for() {
    let map = StackMap::layout(1024 * 1024, 4096).unwrap();
    assert_eq!(map.stack_size(), 1_048_576);
    assert_eq!(map.mmap_size(), 1_052_672);
    assert_eq!(map.as_slice(), Region { offset: 4096, len: 1_048_576 });
    let one = StackMap::layout(4096, 4096).unwrap();
    assert_eq!(one.mmap_size(), 8192);
}

#[test]
fn stack_size_must_be_a_positive_multiple_of_the_page_size() {
    assert_eq!(StackMap::layout(0, 4096), Err(StackError::InvalidArgument));
    assert_eq!(StackMap::layout(4097, 4096), Err(StackError::InvalidArgument));
    assert_eq!(StackMap::layout(100, 4096), Err(StackError::InvalidArgument));
    assert_eq!(StackMap::layout(4096, 0), Err(StackError::InvalidArgument));
    let huge = usize::MAX - 4095;
    assert_eq!(huge % 4096, 0);
    assert_eq!(StackMap::layout(huge, 4096), Err(StackError::InvalidArgument));
}

#[test]
fn new_stack_uses_the_page_size_of_the_host() {
    let page = page_size();
    let map = StackMap::new(256 * page).unwrap();
    assert_eq!(map.stack_size(), 256 * page);
    assert_eq!(map.mmap_size(), 257 * page);
    assert_eq!(map.as_slice(), Region { offset: page, len: 256 * page });
    assert_eq!(StackMap::new(0), Err(StackError::InvalidArgument));
    assert_eq!(StackMap::new(page + 1), Err(StackError::InvalidArgument));
    assert!(StackMap::new(1024 * 1024).is_ok());
}
