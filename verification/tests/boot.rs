use boros::boot::{kernel_bounds, size_in_kib, Bounds, Section};
use boros::vga_buffer::{ColorCode, ScreenChar};

#[test]
fn image_without_sections_has_no_bounds() {
    assert_eq!(kernel_bounds(&[]), None);
}

#[test]
fn bounds_of_one_section() {
    let sections = [Section { addr: 0x10_0000, size: 0x2345 }];
    assert_eq!(kernel_bounds(&sections), Some(Bounds { start: 0x10_0000, end: 0x10_2345 }));
}

#[test]
fn bounds_of_many_sections() {
    let sections = [
        Section { addr: 0x10_3000, size: 0x1000 },
        Section { addr: 0x10_0000, size: 0x800 },
        Section { addr: 0x10_1000, size: 0x4000 },
        Section { addr: 0x10_8000, size: 0 },
        Section { addr: 0x10_2000, size: 0x10 },
    ];
    let bounds = kernel_bounds(&sections).unwrap();
    assert_eq!(bounds, Bounds { start: 0x10_0000, end: 0x10_8000 });
    assert_eq!(size_in_kib(&bounds), 32);
}

#[test]
fn section_that_ends_at_the_end_of_the_address_space() {
    let sections = [Section { addr: 0xffff_ffff_ffff_f000, size: 0xfff }, Section { addr: 8, size: 8 }];
    assert_eq!(kernel_bounds(&sections), Some(Bounds { start: 8, end: u64::MAX }));
}

#[test]
fn size_is_rounded_down() {
    assert_eq!(size_in_kib(&Bounds { start: 0, end: 1023 }), 0);
    assert_eq!(size_in_kib(&Bounds { start: 0, end: 1024 }), 1);
    assert_eq!(size_in_kib(&Bounds { start: 0x10_0000, end: 0x20_0000 }), 1024);
    assert_eq!(size_in_kib(&Bounds { start: 5, end: 5 }), 0);
}

#[test]
fn character_as_it_lies_in_the_video_memory() {
    assert_eq!(ScreenChar { character: b'A', color_code: ColorCode(0x0f) }.cell(), 0x0f41);
    assert_eq!(ScreenChar { character: 0, color_code: ColorCode(0) }.cell(), 0);
    assert_eq!(ScreenChar { character: 0xff, color_code: ColorCode(0xff) }.cell(), 0xffff);
    assert_eq!(ScreenChar { character: b' ', color_code: ColorCode(0x1e) }.cell(), 0x1e20);
}
