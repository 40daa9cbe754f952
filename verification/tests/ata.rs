use rust_kernel::drivers::ata::{
    identify_presence, identify_status, poll_drq, poll_not_busy, sector_words, store_sector_words, word_bytes,
    AtaChannel, AtaDevice, AtaDrive, AtaState, AtaTaskFile, PollStep,
};
use rust_kernel::drivers::block::{
    ata_cmd, ata_device, ata_error, ata_port, ata_regs, ata_status, ata_timeouts, BlockStats, ATA_MAX_SECTORS,
    ATA_SECTOR_SIZE, BLOCK_SIZE,
};
use rust_kernel::drivers::init::init_ata;
use rust_kernel::error::KernelError;

fn identify_words(lba28: u32, lba48: Option<u64>) -> Vec<u16> {
    let mut w = vec![0u16; 256];
    w[60] = (lba28 & 0xFFFF) as u16;
    w[61] = (lba28 >> 16) as u16;
    if let Some(c) = lba48 {
        w[83] = 0x0400;
        w[100] = (c & 0xFFFF) as u16;
        w[101] = ((c >> 16) & 0xFFFF) as u16;
        w[102] = ((c >> 32) & 0xFFFF) as u16;
        w[103] = ((c >> 48) & 0xFFFF) as u16;
    }
    w
}

#[test]
fn test_ata_registers() {
    assert_eq!(ata_regs::ATA_REG_DATA, 0x00);
    assert_eq!(ata_regs::ATA_REG_ERR, 0x01);
    assert_eq!(ata_regs::ATA_REG_NSECT, 0x02);
    assert_eq!(ata_regs::ATA_REG_LBAL, 0x03);
    assert_eq!(ata_regs::ATA_REG_LBAM, 0x04);
    assert_eq!(ata_regs::ATA_REG_LBAH, 0x05);
    assert_eq!(ata_regs::ATA_REG_DEVICE, 0x06);
    assert_eq!(ata_regs::ATA_REG_STATUS, 0x07);
    assert_eq!(ata_port::ATA_PRIMARY, 0x1F0);
    assert_eq!(ata_port::ATA_SECONDARY, 0x170);
}

#[test]
fn test_ata_status_bits() {
    assert_eq!(ata_status::ATA_BUSY, 0x80);
    assert_eq!(ata_status::ATA_DRDY, 0x40);
    assert_eq!(ata_status::ATA_DF, 0x20);
    assert_eq!(ata_status::ATA_SRV, 0x10);
    assert_eq!(ata_status::ATA_DRQ, 0x08);
    assert_eq!(ata_status::ATA_CORR, 0x04);
    assert_eq!(ata_status::ATA_SENSE, 0x02);
    assert_eq!(ata_status::ATA_ERR, 0x01);
}

#[test]
fn test_ata_error_bits() {
    assert_eq!(ata_error::ATA_AMNF, 0x01);
    assert_eq!(ata_error::ATA_TK0NF, 0x02);
    assert_eq!(ata_error::ATA_ABRT, 0x04);
    assert_eq!(ata_error::ATA_MCR, 0x08);
    assert_eq!(ata_error::ATA_IDNF, 0x10);
    assert_eq!(ata_error::ATA_MC, 0x20);
    assert_eq!(ata_error::ATA_UNC, 0x40);
    assert_eq!(ata_error::ATA_BBK, 0x80);
}

#[test]
fn test_ata_commands() {
    assert_eq!(ata_cmd::ATA_CMD_READ_PIO, 0x20);
    assert_eq!(ata_cmd::ATA_CMD_WRITE_PIO, 0x30);
    assert_eq!(ata_cmd::ATA_CMD_IDENTIFY, 0xEC);
    assert_eq!(ata_cmd::ATA_CMD_FLUSH_CACHE, 0xE7);
}

#[test]
fn test_ata_device_bits() {
    assert_eq!(ata_device::ATA_LBA, 0x40);
    assert_eq!(ata_device::ATA_DEV1, 0x10);
}

#[test]
fn test_ata_device_creation() {
    let device = AtaDevice::new(AtaChannel::Primary, AtaDrive::Master);
    assert_eq!(device.channel(), AtaChannel::Primary);
    assert_eq!(device.drive(), AtaDrive::Master);
    assert_eq!(device.base_port(), ata_port::ATA_PRIMARY);
    assert_eq!(device.ctrl_port(), ata_port::ATA_PRIMARY_CTRL);
    assert_eq!(device.state(), AtaState::Absent);
    assert_eq!(device.num_sectors(), 0);
    assert_eq!(device.sector_size(), ATA_SECTOR_SIZE);
    assert!(!device.is_present());
    assert_eq!(device.device_name(), "hda");

    let device = AtaDevice::new(AtaChannel::Secondary, AtaDrive::Slave);
    assert_eq!(device.channel(), AtaChannel::Secondary);
    assert_eq!(device.drive(), AtaDrive::Slave);
    assert_eq!(device.base_port(), ata_port::ATA_SECONDARY);
    assert_eq!(device.ctrl_port(), ata_port::ATA_SECONDARY_CTRL);
}

#[test]
fn test_block_stats() {
    let stats = BlockStats::new();
    assert_eq!(stats.reads, 0);
    assert_eq!(stats.writes, 0);
    assert_eq!(stats.read_sectors, 0);
    assert_eq!(stats.write_sectors, 0);
    assert_eq!(stats.read_errors, 0);
    assert_eq!(stats.write_errors, 0);
}

#[test]
fn test_sector_size() {
    assert_eq!(ATA_SECTOR_SIZE, 512);
    assert_eq!(BLOCK_SIZE, 4096);
    assert_eq!(ATA_MAX_SECTORS, 256);
}

#[test]
fn test_lba_device_select() {
    let master = AtaDevice::new(AtaChannel::Primary, AtaDrive::Master);
    let slave = AtaDevice::new(AtaChannel::Primary, AtaDrive::Slave);
    let lba: u64 = 0x100000;
    assert_eq!(master.select_device(false, (lba >> 24) as u8), ata_device::ATA_MASTER_MAGIC);
    let lba: u64 = 0x12345678;
    assert_eq!(master.select_device(false, (lba >> 24) as u8), 0xE2);
    assert_eq!(slave.select_device(false, (lba >> 24) as u8), 0xF2);
    assert_eq!(master.select_device(true, 0xFF), 0xEF);
}

#[test]
fn test_pio_task_file() {
    let master = AtaDevice::new(AtaChannel::Primary, AtaDrive::Master);
    let tf = master.pio_task_file(0x12345678, 300, ata_cmd::ATA_CMD_READ_PIO);
    assert_eq!(
        tf,
        AtaTaskFile { device: 0xE2, nsect: 44, lbal: 0x78, lbam: 0x56, lbah: 0x34, command: 0x20 }
    );
    let slave = AtaDevice::new(AtaChannel::Secondary, AtaDrive::Slave);
    let tf = slave.pio_task_file(5, 1, ata_cmd::ATA_CMD_WRITE_PIO);
    assert_eq!(tf, AtaTaskFile { device: 0xF0, nsect: 1, lbal: 5, lbam: 0, lbah: 0, command: 0x30 });
}

#[test]
fn test_sector_count_bounds() {
    let mut device = AtaDevice::new(AtaChannel::Primary, AtaDrive::Master);
    device.apply_identify(&identify_words(1000, None));
    assert_eq!(device.transfer_size(255, 255 * 512), Ok(130560));
    assert_eq!(device.transfer_size(1, 512), Ok(512));
    assert_eq!(device.transfer_size(2, 1000), Err(KernelError::BufferTooSmall));
    assert_eq!(device.transfer_size(0, 0), Ok(0));
}

#[test]
fn test_identify_data_parsing() {
    let mut device = AtaDevice::new(AtaChannel::Primary, AtaDrive::Master);
    assert_eq!(device.check_ready(), Err(KernelError::DeviceNotReady));
    device.apply_identify(&identify_words(0x3AE800, None));
    assert_eq!(device.num_sectors(), 0x3AE800);
    assert_eq!(device.state(), AtaState::Identified);
    assert!(device.is_present());
    assert_eq!(device.check_ready(), Ok(()));
}

#[test]
fn test_identify_lba48_capacity() {
    let mut device = AtaDevice::new(AtaChannel::Primary, AtaDrive::Master);
    device.apply_identify(&identify_words(0x0FFF_FFFF, Some(0x1_0000_0000)));
    assert_eq!(device.num_sectors(), 0x1_0000_0000);
    let mut small = AtaDevice::new(AtaChannel::Primary, AtaDrive::Master);
    small.apply_identify(&identify_words(0x3AE800, Some(0x100)));
    assert_eq!(small.num_sectors(), 0x3AE800);
    let mut huge = AtaDevice::new(AtaChannel::Primary, AtaDrive::Master);
    huge.apply_identify(&identify_words(0x3AE800, Some(0x10_0000_0000)));
    assert_eq!(huge.num_sectors(), 0x3AE800);
}

#[test]
fn test_identify_without_capacity() {
    let mut device = AtaDevice::new(AtaChannel::Primary, AtaDrive::Master);
    device.apply_identify(&identify_words(0, None));
    assert_eq!(device.state(), AtaState::Identified);
    assert_eq!(device.num_sectors(), 0);
    assert!(!device.is_present());
    assert_eq!(device.sector_size(), 512);
}

#[test]
fn test_buffer_calculations() {
    let mut device = AtaDevice::new(AtaChannel::Primary, AtaDrive::Master);
    device.apply_identify(&identify_words(1000, None));
    let cases: [(usize, usize); 9] = [
        (1, 512),
        (2, 1024),
        (4, 2048),
        (8, 4096),
        (16, 8192),
        (32, 16384),
        (64, 32768),
        (128, 65536),
        (256, 131072),
    ];
    for (sectors, expected) in cases.iter() {
        assert_eq!(device.transfer_size(*sectors, *expected), Ok(*expected));
    }
}

#[test]
fn test_finish_read_and_write() {
    let mut device = AtaDevice::new(AtaChannel::Primary, AtaDrive::Master);
    device.apply_identify(&identify_words(1000, None));
    assert_eq!(device.finish_read(ata_status::ATA_DRDY, 3), Ok(1536));
    assert_eq!(device.finish_read(ata_status::ATA_DRDY | ata_status::ATA_ERR, 3), Err(KernelError::IoError));
    assert_eq!(device.finish_write(ata_status::ATA_DRDY, 2), Ok(1024));
    assert_eq!(device.finish_write(ata_status::ATA_ERR, 2), Err(KernelError::IoError));
    assert_eq!(device.state(), AtaState::Identified);
    assert_eq!(device.num_sectors(), 1000);
    assert_eq!(device.stats(), (1, 1, 3, 2, 1, 1));
}

#[test]
fn test_poll_not_busy() {
    assert_eq!(poll_not_busy(ata_status::ATA_DRDY, 0), PollStep::Done);
    assert_eq!(poll_not_busy(ata_status::ATA_BUSY, 0), PollStep::Again);
    assert_eq!(poll_not_busy(ata_status::ATA_BUSY, ata_timeouts::BUSY_TIMEOUT - 1), PollStep::Again);
    assert_eq!(
        poll_not_busy(ata_status::ATA_BUSY, ata_timeouts::BUSY_TIMEOUT),
        PollStep::Fail(KernelError::DeviceError("ATA busy timeout"))
    );
}

#[test]
fn test_poll_drq() {
    let t = ata_timeouts::DRQ_TIMEOUT;
    assert_eq!(poll_drq(ata_status::ATA_DRQ, 0, t), PollStep::Done);
    assert_eq!(poll_drq(ata_status::ATA_DRQ | ata_status::ATA_ERR, t, t), PollStep::Done);
    assert_eq!(poll_drq(ata_status::ATA_ERR, 0, t), PollStep::Fail(KernelError::DeviceError("ATA DRQ error")));
    assert_eq!(poll_drq(0, 5, t), PollStep::Again);
    assert_eq!(poll_drq(0, t, t), PollStep::Fail(KernelError::DeviceError("ATA DRQ timeout")));
}

#[test]
fn test_identify_status_checks() {
    assert_eq!(identify_presence(0), Err(KernelError::DeviceNotFound));
    assert_eq!(identify_presence(0x50), Ok(()));
    assert_eq!(identify_status(0x51), Err(KernelError::DeviceError("ATA identify failed")));
    assert_eq!(identify_status(0x58), Ok(()));
}

#[test]
fn test_word_bytes() {
    assert_eq!(word_bytes(0x4241), (0x41, 0x42));
    assert_eq!(word_bytes(0x00FF), (0xFF, 0x00));
}

#[test]
fn test_store_sector_words() {
    let words = vec![0x4241u16; 256];
    let mut buf = vec![7u8; 600];
    assert_eq!(store_sector_words(&mut buf, 0, &words), 512);
    assert_eq!(buf[0], 0x41);
    assert_eq!(buf[1], 0x42);
    assert_eq!(buf[511], 0x42);
    assert_eq!(buf[512], 7);
    let mut short = vec![7u8; 600];
    assert_eq!(store_sector_words(&mut short, 300, &words), 600);
    assert_eq!(short[299], 7);
    assert_eq!(short[300], 0x41);
    assert_eq!(short[599], 0x42);
}

#[test]
fn test_sector_words_pads_with_zero() {
    let w = sector_words(&[1, 2, 3], 0);
    assert_eq!(w.len(), 256);
    assert_eq!(w[0], 0x0201);
    assert_eq!(w[1], 0x0003);
    assert_eq!(w[2], 0);
}

#[test]
fn test_sector_round_trip() {
    let data: Vec<u8> = (0..512u32).map(|i| (i * 7 % 251) as u8).collect();
    let words = sector_words(&data, 0);
    let mut back = vec![0u8; 512];
    assert_eq!(store_sector_words(&mut back, 0, &words), 512);
    assert_eq!(back, data);
}

#[test]
fn test_init_ata_reports_driver_failure() {
    assert_eq!(init_ata(Ok(())), Ok(()));
    assert_eq!(init_ata(Err(KernelError::DeviceNotFound)), Err(KernelError::DriverFailed("ATA")));
}
