use kos::ramdisk::{create_ramdisk, RamDisk, RamDiskDevice, RamDiskError};

#[test]
fn ramdisk_basic_read_write() {
    let rd = create_ramdisk(1024);
    let mut dev = RamDiskDevice::new(rd);

    let data = vec![0xABu8; 512];
    dev.write_sector(0, &data).unwrap();

    let mut buf = vec![0u8; 512];
    dev.read_sector(0, &mut buf).unwrap();

    assert_eq!(buf, data);
}

#[test]
fn ramdisk_fill_from_bytes() {
    let mut rd = create_ramdisk(1024);
    rd.fill_from_bytes(&b"HelloWorld".to_vec());
    let dev = RamDiskDevice::new(rd);

    let mut buf = vec![0u8; 512];
    dev.read_sector(0, &mut buf).unwrap();

    assert_eq!(&buf[..10], b"HelloWorld");
    assert_eq!(buf[10], 0);
}

#[test]
fn ramdisk_multiple_blocks() {
    let rd = create_ramdisk(2048);
    let mut dev = RamDiskDevice::new(rd);

    dev.write_sector(0, &vec![1u8; 512]).unwrap();
    dev.write_sector(1, &vec![2u8; 512]).unwrap();

    let mut buf0 = vec![0u8; 512];
    let mut buf1 = vec![0u8; 512];
    dev.read_sector(0, &mut buf0).unwrap();
    dev.read_sector(1, &mut buf1).unwrap();

    assert_eq!(buf0[0], 1);
    assert_eq!(buf1[0], 2);
}

#[test]
fn ramdisk_out_of_range() {
    let rd = create_ramdisk(1024);
    let mut dev = RamDiskDevice::new(rd);

    let mut buf = vec![0u8; 512];
    assert!(dev.read_sector(2, &mut buf).is_err());
    assert!(dev.write_sector(2, &buf).is_err());
}

#[test]
fn ramdisk_misaligned_buffer() {
    let rd = create_ramdisk(1024);
    let mut dev = RamDiskDevice::new(rd);

    let mut small_buf = vec![0u8; 10];
    assert!(dev.read_sector(0, &mut small_buf).is_err());
    assert!(dev.write_sector(0, &small_buf).is_err());
}

#[test]
fn ramdisk_error_kinds() {
    let mut rd = RamDisk::new(vec![0u8; 1024], 512);
    let mut buf = vec![0u8; 512];
    assert_eq!(rd.read_block(2, &mut buf), Err(RamDiskError::OutOfRange));
    let mut short = vec![0u8; 3];
    assert_eq!(rd.read_block(0, &mut short), Err(RamDiskError::Misaligned));
    assert_eq!(rd.write_block(9, &buf), Err(RamDiskError::OutOfRange));
    assert_eq!(rd.write_block(0, &short), Err(RamDiskError::Misaligned));
    assert_eq!(rd.write_block(1, &vec![7u8; 512]), Ok(()));
    assert_eq!(rd.read_block(1, &mut buf), Ok(()));
    assert_eq!(buf[511], 7);
}

#[test]
fn ramdisk_read_keeps_buffer_tail() {
    // A buffer longer than one block keeps its tail across a read.
    let mut rd = RamDisk::new(vec![0u8; 1024], 4);
    rd.write_block(0, &vec![9u8, 8, 7, 6]).unwrap();
    let mut buf = vec![0x55u8; 6];
    rd.read_block(0, &mut buf).unwrap();
    assert_eq!(buf, vec![9u8, 8, 7, 6, 0x55, 0x55]);
}

#[test]
fn ramdisk_geometry() {
    let rd = create_ramdisk(1030);
    // Only whole blocks count: 1030 / 512 = 2.
    assert_eq!(rd.block_size(), 512);
    assert_eq!(rd.block_count(), 2);
    let dev = RamDiskDevice::new(rd);
    assert_eq!(dev.sector_size(), 512);
}
