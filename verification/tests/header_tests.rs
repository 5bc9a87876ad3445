use kernel::returncode::ReturnCode;
use kernel::syscall::{arguments_to_syscall, Syscall};
use kernel::tbfheader::{parse_and_validate_tbf_header, TbfHeader};

fn put_u16(v: &mut Vec<u8>, x: u16) {
    v.extend_from_slice(&x.to_le_bytes());
}

fn put_u32(v: &mut Vec<u8>, x: u32) {
    v.extend_from_slice(&x.to_le_bytes());
}

/// A header with the given elements, its checksum filled in.
fn header(flags: u32, total: u32, main: Option<(u32, u32, u32)>, name: Option<&[u8]>, regions: &[(u32, u32)]) -> Vec<u8> {
    let mut tlvs = Vec::new();
    if let Some((init, protected, ram)) = main {
        put_u16(&mut tlvs, 1);
        put_u16(&mut tlvs, 12);
        put_u32(&mut tlvs, init);
        put_u32(&mut tlvs, protected);
        put_u32(&mut tlvs, ram);
    }
    if let Some(n) = name {
        put_u16(&mut tlvs, 3);
        put_u16(&mut tlvs, n.len() as u16);
        tlvs.extend_from_slice(n);
        while tlvs.len() % 4 != 0 {
            tlvs.push(0);
        }
    }
    if !regions.is_empty() {
        put_u16(&mut tlvs, 2);
        put_u16(&mut tlvs, (regions.len() * 8) as u16);
        for (o, s) in regions {
            put_u32(&mut tlvs, *o);
            put_u32(&mut tlvs, *s);
        }
    }
    let header_size = 16 + tlvs.len();
    let mut h = Vec::new();
    put_u16(&mut h, 2);
    put_u16(&mut h, header_size as u16);
    put_u32(&mut h, total);
    put_u32(&mut h, flags);
    put_u32(&mut h, 0);
    h.extend_from_slice(&tlvs);
    let mut checksum = 0u32;
    for (i, w) in h.chunks(4).enumerate() {
        if i != 3 {
            checksum ^= u32::from_le_bytes([w[0], w[1], w[2], w[3]]);
        }
    }
    h[12..16].copy_from_slice(&checksum.to_le_bytes());
    h
}

#[test]
fn parses_an_app_header() {
    let h = header(1, 4096, Some((0x40, 0x10, 8192)), Some(b"blink"), &[(0x800, 0x100), (0xc00, 0)]);
    let parsed = parse_and_validate_tbf_header(&h).unwrap();
    assert!(parsed.is_app());
    assert!(parsed.enabled());
    assert_eq!(parsed.get_total_size(), 4096);
    assert_eq!(parsed.get_minimum_app_ram_size(), 8192);
    let hs = h.len() as u32;
    assert_eq!(parsed.get_protected_size(), 0x10 + hs);
    assert_eq!(parsed.get_init_function_offset(), 0x40 + hs);
    assert_eq!(parsed.get_package_name(), "blink");
    assert_eq!(parsed.number_writeable_flash_regions(), 2);
    assert_eq!(parsed.get_writeable_flash_region(0), (0x800, 0x100));
    assert_eq!(parsed.get_writeable_flash_region(1), (0xc00, 0));
    assert_eq!(parsed.get_writeable_flash_region(2), (0, 0));
}

#[test]
fn disabled_app_is_not_enabled() {
    let h = header(0, 2048, Some((0, 0, 0)), Some(b"off"), &[]);
    let parsed = parse_and_validate_tbf_header(&h).unwrap();
    assert!(parsed.is_app());
    assert!(!parsed.enabled());
}

#[test]
fn header_without_elements_is_padding() {
    let h = header(0, 1024, None, None, &[]);
    let parsed = parse_and_validate_tbf_header(&h).unwrap();
    assert!(matches!(parsed, TbfHeader::Padding(_)));
    assert!(!parsed.is_app());
    assert_eq!(parsed.get_total_size(), 1024);
    assert_eq!(parsed.get_package_name(), "");
}

#[test]
fn bad_checksum_is_rejected() {
    let mut h = header(1, 4096, Some((0, 0, 0)), Some(b"app"), &[]);
    h[12] ^= 1;
    assert!(parse_and_validate_tbf_header(&h).is_none());
}

#[test]
fn wrong_version_or_short_input_is_rejected() {
    let mut h = header(1, 4096, Some((0, 0, 0)), None, &[]);
    assert!(parse_and_validate_tbf_header(&h[..15]).is_none());
    h[0] = 1;
    assert!(parse_and_validate_tbf_header(&h).is_none());
    assert!(parse_and_validate_tbf_header(&[]).is_none());
}

#[test]
fn header_larger_than_app_is_rejected() {
    let h = header(1, 16, Some((0, 0, 0)), None, &[]);
    assert!(parse_and_validate_tbf_header(&h).is_none());
    let big = header(1, 0x1000_0001, Some((0, 0, 0)), None, &[]);
    assert!(parse_and_validate_tbf_header(&big).is_none());
}

#[test]
fn name_that_is_not_utf8_is_left_empty() {
    let h = header(1, 4096, Some((0, 0, 0)), Some(&[0xff, 0xfe]), &[]);
    let parsed = parse_and_validate_tbf_header(&h).unwrap();
    assert_eq!(parsed.get_package_name(), "");
}

#[test]
fn return_codes_as_numbers() {
    assert_eq!(isize::from(ReturnCode::SUCCESS), 0);
    assert_eq!(isize::from(ReturnCode::SuccessWithValue { value: 42 }), 42);
    assert_eq!(isize::from(ReturnCode::FAIL), -1);
    assert_eq!(isize::from(ReturnCode::EINVAL), -6);
    assert_eq!(isize::from(ReturnCode::ENOMEM), -9);
    assert_eq!(isize::from(ReturnCode::ENOSUPPORT), -10);
    assert_eq!(isize::from(ReturnCode::ENOACK), -13);
    assert_eq!(usize::from(ReturnCode::EBUSY), (-2isize) as usize);
}

#[test]
fn syscall_numbers_decode() {
    assert_eq!(arguments_to_syscall(0, 1, 2, 3, 4), Some(Syscall::YIELD));
    assert_eq!(
        arguments_to_syscall(1, 1, 2, 3, 4),
        Some(Syscall::SUBSCRIBE { driver_number: 1, subdriver_number: 2, callback_ptr: 3, appdata: 4 })
    );
    assert_eq!(arguments_to_syscall(2, 1, 2, 3, 4), Some(Syscall::COMMAND { driver_number: 1, subdriver_number: 2, arg0: 3, arg1: 4 }));
    assert_eq!(
        arguments_to_syscall(3, 1, 2, 3, 4),
        Some(Syscall::ALLOW { driver_number: 1, subdriver_number: 2, allow_address: 3, allow_size: 4 })
    );
    assert_eq!(arguments_to_syscall(4, 1, 2, 3, 4), Some(Syscall::MEMOP { operand: 1, arg0: 2 }));
    assert_eq!(arguments_to_syscall(5, 1, 2, 3, 4), None);
    assert_eq!(arguments_to_syscall(255, 0, 0, 0, 0), None);
}
