use numeral::Cardinal;
use std::mem::size_of;

#[test]
fn cardinal_value_min_max_ptr() {
    if size_of::<isize>() == size_of::<i8>() {
        assert_eq!(isize::MIN.cardinal(), i8::MIN.cardinal());
        assert_eq!(isize::MAX.cardinal(), i8::MAX.cardinal());
    }
    if size_of::<isize>() == size_of::<i16>() {
        assert_eq!(isize::MIN.cardinal(), i16::MIN.cardinal());
        assert_eq!(isize::MAX.cardinal(), i16::MAX.cardinal());
    }
    if size_of::<isize>() == size_of::<i32>() {
        assert_eq!(isize::MIN.cardinal(), i32::MIN.cardinal());
        assert_eq!(isize::MAX.cardinal(), i32::MAX.cardinal());
    }
    if size_of::<isize>() == size_of::<i64>() {
        assert_eq!(isize::MIN.cardinal(), i64::MIN.cardinal());
        assert_eq!(isize::MAX.cardinal(), i64::MAX.cardinal());
    }
    if size_of::<usize>() == size_of::<u8>() {
        assert_eq!(usize::MIN.cardinal(), u8::MIN.cardinal());
        assert_eq!(usize::MAX.cardinal(), u8::MAX.cardinal());
    }
    if size_of::<usize>() == size_of::<u16>() {
        assert_eq!(usize::MIN.cardinal(), u16::MIN.cardinal());
        assert_eq!(usize::MAX.cardinal(), u16::MAX.cardinal());
    }
    if size_of::<usize>() == size_of::<u32>() {
        assert_eq!(usize::MIN.cardinal(), u32::MIN.cardinal());
        assert_eq!(usize::MAX.cardinal(), u32::MAX.cardinal());
    }
    if size_of::<usize>() == size_of::<u64>() {
        assert_eq!(usize::MIN.cardinal(), u64::MIN.cardinal());
        assert_eq!(usize::MAX.cardinal(), u64::MAX.cardinal());
    }
}

#[test]
fn call_on_min_max_every_width() {
    i8::MAX.cardinal();
    i8::MIN.cardinal();
    u8::MAX.cardinal();
    u8::MIN.cardinal();
    i16::MAX.cardinal();
    i16::MIN.cardinal();
    u16::MAX.cardinal();
    u16::MIN.cardinal();
    i32::MAX.cardinal();
    i32::MIN.cardinal();
    u32::MAX.cardinal();
    u32::MIN.cardinal();
    i64::MAX.cardinal();
    i64::MIN.cardinal();
    u64::MAX.cardinal();
    u64::MIN.cardinal();
    isize::MAX.cardinal();
    isize::MIN.cardinal();
    usize::MAX.cardinal();
    usize::MIN.cardinal();
}
