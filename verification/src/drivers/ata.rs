//! ATA/PATA disks in PIO mode: device state, the register values each
//! command writes, the IDENTIFY data layout, status polling decisions and the
//! packing of sector data into the 16-bit data port.
//!
//! The port accesses themselves are made by the caller, which hands the
//! status bytes and data words it reads to these functions.
use vstd::prelude::*;
use crate::drivers::block::{
    ata_cmd, ata_device, ata_identify, ata_limits, ata_port, ata_status, ata_timeouts, BlockStats,
    ATA_SECTOR_SIZE,
};
use crate::error::{KernelError, KernelResult};

verus! {

/// ATA channel.
#[derive(Debug, Clone, Copy, PartialEq, Eq, Structural)]
pub enum AtaChannel {
    Primary,
    Secondary,
}

/// Drive on a channel.
#[derive(Debug, Clone, Copy, PartialEq, Eq, Structural)]
pub enum AtaDrive {
    Master,
    Slave,
}

/// State of an ATA device.
#[derive(Debug, Clone, Copy, PartialEq, Eq, Structural)]
pub enum AtaState {
    Absent,
    Present,
    Identified,
    Error,
}

/// A disk on an ATA channel.
pub struct AtaDevice {
    channel: AtaChannel,
    drive: AtaDrive,
    base_port: u16,
    ctrl_port: u16,
    state: AtaState,
    num_sectors: u64,
    sector_size: usize,
    stats: BlockStats,
    model: [u8; 40],
    serial: [u8; 20],
}

/// The values written to the task-file registers to start a command.
#[derive(Debug, Clone, Copy, PartialEq, Eq, Structural)]
pub struct AtaTaskFile {
    pub device: u8,
    pub nsect: u8,
    pub lbal: u8,
    pub lbam: u8,
    pub lbah: u8,
    pub command: u8,
}

/// What one poll of the status register decides.
#[derive(Debug, Clone, Copy, PartialEq, Eq)]
pub enum PollStep {
    /// The awaited condition holds.
    Done,
    /// Read the status again.
    Again,
    /// Give up with this error.
    Fail(KernelError),
}

/// The base and control ports of a channel.
pub open spec fn channel_ports(c: AtaChannel) -> (u16, u16) {
    match c {
        AtaChannel::Primary => (0x1F0u16, 0x3F6u16),
        AtaChannel::Secondary => (0x170u16, 0x376u16),
    }
}

/// The device/head register value that selects drive `d`.
pub open spec fn drive_magic(d: AtaDrive) -> u8 {
    match d {
        AtaDrive::Master => 0xE0u8,
        AtaDrive::Slave => 0xF0u8,
    }
}

/// The low byte of a 16-bit word.
pub open spec fn low_byte(w: u16) -> u8 {
    (w % 256) as u8
}

/// The high byte of a 16-bit word.
pub open spec fn high_byte(w: u16) -> u8 {
    (w / 256) as u8
}

/// The byte at `i` of `buf`, or 0 past its end.
pub open spec fn byte_or_zero(buf: Seq<u8>, i: int) -> u8 {
    if 0 <= i < buf.len() {
        buf[i]
    } else {
        0u8
    }
}

/// The 28-bit LBA capacity of IDENTIFY data (words 60 and 61).
pub open spec fn lba28_capacity(w: Seq<u16>) -> int {
    w[61] * 0x10000 + w[60]
}

/// The 48-bit LBA capacity of IDENTIFY data (words 100 to 103).
pub open spec fn lba48_capacity(w: Seq<u16>) -> int {
    w[103] * 0x1_0000_0000_0000 + w[102] * 0x1_0000_0000 + w[101] * 0x10000 + w[100]
}

/// Whether IDENTIFY data announces 48-bit addressing (word 83, bit 10).
pub open spec fn supports_lba48(w: Seq<u16>) -> bool {
    w[83] & 0x0400 != 0
}

/// The sector count that IDENTIFY data gives a device that had `old` sectors:
/// a sensible 28-bit capacity replaces it, and a larger sensible 48-bit
/// capacity replaces that.
pub open spec fn identified_sectors(w: Seq<u16>, old: u64) -> u64 {
    let c28 = lba28_capacity(w);
    let after28 = if 0 < c28 < 0x10000000 { c28 as u64 } else { old };
    if supports_lba48(w) && lba48_capacity(w) > c28 && lba48_capacity(w) < 0x1000000000 {
        lba48_capacity(w) as u64
    } else {
        after28
    }
}

/// The string bytes stored in `n` IDENTIFY words from `start`: each word
/// gives its low byte, then its high byte.
pub open spec fn identify_string(w: Seq<u16>, start: int, n: nat) -> Seq<u8> {
    Seq::new(2 * n, |i: int| if i % 2 == 0 { low_byte(w[start + i / 2]) } else { high_byte(w[start + i / 2]) })
}

/// The register values of a PIO command on `count` sectors from `lba`.
pub open spec fn pio_task_file(drive: AtaDrive, lba: u64, count: usize, command: u8) -> AtaTaskFile {
    AtaTaskFile {
        device: drive_magic(drive) | 0x40u8 | ((lba / 0x1000000) % 16) as u8,
        nsect: (count % 256) as u8,
        lbal: (lba % 256) as u8,
        lbam: ((lba / 256) % 256) as u8,
        lbah: ((lba / 0x10000) % 256) as u8,
        command,
    }
}

/// The 16-bit data-port words that write `count` sectors from `buf` starting
/// at byte `offset`: two bytes per word, low byte first, zero past the end.
pub open spec fn packed_words(buf: Seq<u8>, offset: int, n: nat) -> Seq<u16> {
    Seq::new(
        n,
        |i: int| (byte_or_zero(buf, offset + 2 * i) + 256 * byte_or_zero(buf, offset + 2 * i + 1)) as u16,
    )
}

/// The bytes that data-port words stand for: low byte, then high byte.
pub open spec fn unpacked_bytes(words: Seq<u16>) -> Seq<u8> {
    Seq::new(2 * words.len(), |i: int| if i % 2 == 0 { low_byte(words[i / 2]) } else { high_byte(words[i / 2]) })
}

/// Splits a word into its low and high bytes.
pub fn word_bytes(w: u16) -> (r: (u8, u8))
    ensures
        r.0 == low_byte(w),
        r.1 == high_byte(w),
{
    let lo = (w & 0xFF) as u8;
    let hi = ((w >> 8) & 0xFF) as u8;
    assert(w & 0xFF == w % 256) by (bit_vector);
    assert((w >> 8) & 0xFF == w / 256) by (bit_vector);
    (lo, hi)
}

impl AtaDevice {
    /// The channel.
    pub closed spec fn channel_view(&self) -> AtaChannel {
        self.channel
    }

    /// The drive.
    pub closed spec fn drive_view(&self) -> AtaDrive {
        self.drive
    }

    /// The base I/O port.
    pub closed spec fn base_port_view(&self) -> u16 {
        self.base_port
    }

    /// The control port.
    pub closed spec fn ctrl_port_view(&self) -> u16 {
        self.ctrl_port
    }

    /// The device state.
    pub closed spec fn state_view(&self) -> AtaState {
        self.state
    }

    /// The number of sectors.
    pub closed spec fn num_sectors_view(&self) -> u64 {
        self.num_sectors
    }

    /// The sector size in bytes.
    pub closed spec fn sector_size_view(&self) -> usize {
        self.sector_size
    }

    /// The model string bytes from IDENTIFY.
    pub closed spec fn model_view(&self) -> Seq<u8> {
        self.model@
    }

    /// The serial-number bytes from IDENTIFY.
    pub closed spec fn serial_view(&self) -> Seq<u8> {
        self.serial@
    }

    /// The I/O statistics: reads, writes, sectors read, sectors written,
    /// read errors, write errors.
    pub closed spec fn stats_view(&self) -> (u64, u64, u64, u64, u64, u64) {
        (
            self.stats.reads,
            self.stats.writes,
            self.stats.read_sectors,
            self.stats.write_sectors,
            self.stats.read_errors,
            self.stats.write_errors,
        )
    }

    /// `other` differs from `self` at most in its statistics.
    pub open spec fn same_but_stats(&self, other: &AtaDevice) -> bool {
        &&& other.channel_view() == self.channel_view()
        &&& other.drive_view() == self.drive_view()
        &&& other.base_port_view() == self.base_port_view()
        &&& other.ctrl_port_view() == self.ctrl_port_view()
        &&& other.state_view() == self.state_view()
        &&& other.num_sectors_view() == self.num_sectors_view()
        &&& other.sector_size_view() == self.sector_size_view()
        &&& other.model_view() == self.model_view()
        &&& other.serial_view() == self.serial_view()
    }

    /// A device on `channel`/`drive`, not yet identified.
    pub fn new(channel: AtaChannel, drive: AtaDrive) -> (r: Self)
        ensures
            r.channel_view() == channel,
            r.drive_view() == drive,
            (r.base_port_view(), r.ctrl_port_view()) == channel_ports(channel),
            r.state_view() == AtaState::Absent,
            r.num_sectors_view() == 0,
            r.sector_size_view() == 512,
            r.stats_view() == (0u64, 0u64, 0u64, 0u64, 0u64, 0u64),
            r.model_view() == Seq::new(40, |i: int| 0u8),
            r.serial_view() == Seq::new(20, |i: int| 0u8),
    {
        let (base_port, ctrl_port) = match channel {
            AtaChannel::Primary => (ata_port::ATA_PRIMARY, ata_port::ATA_PRIMARY_CTRL),
            AtaChannel::Secondary => (ata_port::ATA_SECONDARY, ata_port::ATA_SECONDARY_CTRL),
        };
        let r = AtaDevice {
            channel,
            drive,
            base_port,
            ctrl_port,
            state: AtaState::Absent,
            num_sectors: 0,
            sector_size: ATA_SECTOR_SIZE,
            stats: BlockStats::new(),
            model: [0u8; 40],
            serial: [0u8; 20],
        };
        assert(r.model@ =~= Seq::new(40, |i: int| 0u8));
        assert(r.serial@ =~= Seq::new(20, |i: int| 0u8));
        r
    }

    /// Returns the channel.
    pub fn channel(&self) -> (r: AtaChannel)
        ensures
            r == self.channel_view(),
    {
        self.channel
    }

    /// Returns the drive.
    pub fn drive(&self) -> (r: AtaDrive)
        ensures
            r == self.drive_view(),
    {
        self.drive
    }

    /// Returns the base I/O port.
    pub fn base_port(&self) -> (r: u16)
        ensures
            r == self.base_port_view(),
    {
        self.base_port
    }

    /// Returns the control port.
    pub fn ctrl_port(&self) -> (r: u16)
        ensures
            r == self.ctrl_port_view(),
    {
        self.ctrl_port
    }

    /// Returns the device state.
    pub fn state(&self) -> (r: AtaState)
        ensures
            r == self.state_view(),
    {
        self.state
    }

    /// Returns the number of sectors.
    pub fn num_sectors(&self) -> (r: u64)
        ensures
            r == self.num_sectors_view(),
    {
        self.num_sectors
    }

    /// Returns the sector size in bytes.
    pub fn sector_size(&self) -> (r: usize)
        ensures
            r == self.sector_size_view(),
    {
        self.sector_size
    }

    /// Returns the I/O statistics: reads, writes, sectors read, sectors
    /// written, read errors, write errors.
    pub fn stats(&self) -> (r: (u64, u64, u64, u64, u64, u64))
        ensures
            r == self.stats_view(),
    {
        (
            self.stats.reads,
            self.stats.writes,
            self.stats.read_sectors,
            self.stats.write_sectors,
            self.stats.read_errors,
            self.stats.write_errors,
        )
    }

    /// Whether the device was identified and has sectors.
    pub fn is_present(&self) -> (r: bool)
        ensures
            r == (self.state_view() == AtaState::Identified && self.num_sectors_view() > 0),
    {
        self.state == AtaState::Identified && self.num_sectors > 0
    }

    /// The name of the device.
    pub fn device_name(&self) -> (r: &'static str)
        ensures
            r@ == "hda"@,
    {
        "hda"
    }

    /// The device/head register value that selects this drive, with the
    /// LBA bit when `is_lba` and the low four bits of `lba_top`.
    pub fn select_device(&self, is_lba: bool, lba_top: u8) -> (r: u8)
        ensures
            r == (drive_magic(self.drive_view()) | (if is_lba { 0x40u8 } else { 0u8 }) | (lba_top & 0x0F)),
    {
        let mut device = match self.drive {
            AtaDrive::Master => ata_device::ATA_MASTER_MAGIC,
            AtaDrive::Slave => ata_device::ATA_SLAVE_MAGIC,
        };
        if is_lba {
            device = device | ata_device::ATA_LBA;
        } else {
            assert(device | 0u8 == device) by (bit_vector);
        }
        device = device | (lba_top & 0x0F);
        device
    }

    /// The register values of a PIO command `command` on `count` sectors from
    /// `start_lba`: the drive with LBA addressing and LBA bits 24..27, the
    /// sector count (modulo 256) and LBA bytes 0, 1 and 2.
    pub fn pio_task_file(&self, start_lba: u64, count: usize, command: u8) -> (r: AtaTaskFile)
        ensures
            r == pio_task_file(self.drive_view(), start_lba, count, command),
    {
        let magic = match self.drive {
            AtaDrive::Master => ata_device::ATA_MASTER_MAGIC,
            AtaDrive::Slave => ata_device::ATA_SLAVE_MAGIC,
        };
        let top = ((start_lba >> 24) & 0x0F) as u8;
        let lbal = (start_lba & 0xFF) as u8;
        let lbam = ((start_lba >> 8) & 0xFF) as u8;
        let lbah = ((start_lba >> 16) & 0xFF) as u8;
        let nsect = (count & 0xFF) as u8;
        assert((start_lba >> 24) & 0x0F == (start_lba / 0x1000000) % 16) by (bit_vector);
        assert(start_lba & 0xFF == start_lba % 256) by (bit_vector);
        assert((start_lba >> 8) & 0xFF == (start_lba / 256) % 256) by (bit_vector);
        assert((start_lba >> 16) & 0xFF == (start_lba / 0x10000) % 256) by (bit_vector);
        assert(count & 0xFF == count % 256) by (bit_vector);
        AtaTaskFile {
            device: magic | ata_device::ATA_LBA | top,
            nsect,
            lbal,
            lbam,
            lbah,
            command,
        }
    }

    /// Reads and writes need an identified device.
    pub fn check_ready(&self) -> (r: KernelResult<()>)
        ensures
            r == if self.state_view() == AtaState::Identified {
                Ok::<(), KernelError>(())
            } else {
                Err(KernelError::DeviceNotReady)
            },
    {
        if self.state != AtaState::Identified {
            return Err(KernelError::DeviceNotReady);
        }
        Ok(())
    }

    /// The number of bytes `count` sectors hold, or `BufferTooSmall` when
    /// `buf_len` bytes cannot hold them.
    pub fn transfer_size(&self, count: usize, buf_len: usize) -> (r: KernelResult<usize>)
        requires
            count * self.sector_size_view() <= usize::MAX,
        ensures
            r == if buf_len < count * self.sector_size_view() {
                Err::<usize, KernelError>(KernelError::BufferTooSmall)
            } else {
                Ok((count * self.sector_size_view()) as usize)
            },
    {
        let expected_bytes = count * self.sector_size;
        if buf_len < expected_bytes {
            return Err(KernelError::BufferTooSmall);
        }
        Ok(expected_bytes)
    }

    /// Takes the IDENTIFY data the device returned: its capacity, model and
    /// serial number; the device is then identified, with 512-byte sectors.
    pub fn apply_identify(&mut self, identify_data: &[u16])
        requires
            identify_data@.len() == 256,
        ensures
            final(self).state_view() == AtaState::Identified,
            final(self).num_sectors_view() == identified_sectors(identify_data@, old(self).num_sectors_view()),
            final(self).sector_size_view() == 512,
            final(self).model_view() == identify_string(identify_data@, 27, 20),
            final(self).serial_view() == identify_string(identify_data@, 10, 10),
            final(self).channel_view() == old(self).channel_view(),
            final(self).drive_view() == old(self).drive_view(),
            final(self).base_port_view() == old(self).base_port_view(),
            final(self).ctrl_port_view() == old(self).ctrl_port_view(),
            final(self).stats_view() == old(self).stats_view(),
    {
        let w = identify_data;
        let lba_low = w[ata_identify::LBA28_CAPACITY_START] as u64;
        let lba_high = w[ata_identify::LBA28_CAPACITY_START + 1] as u64;
        let lba_capacity = (lba_high << 16) | lba_low;
        assert(lba_high < 0x10000 && lba_low < 0x10000 ==> (lba_high << 16) | lba_low == lba_high * 0x10000 + lba_low) by (bit_vector);
        if lba_capacity > 0 && lba_capacity < ata_limits::LBA28_MAX_SECTORS {
            self.num_sectors = lba_capacity;
        }
        let support = w[ata_identify::LBA48_SUPPORT_BIT_WORD] & ata_identify::LBA48_SUPPORT_BIT_MASK;
        if support != 0 {
            let a = w[ata_identify::LBA48_CAPACITY_START] as u64;
            let b = w[ata_identify::LBA48_CAPACITY_START + 1] as u64;
            let c = w[ata_identify::LBA48_CAPACITY_START + 2] as u64;
            let d = w[ata_identify::LBA48_CAPACITY_START + 3] as u64;
            let lba48_capacity = (d << 48) | (c << 32) | (b << 16) | a;
            assert(a < 0x10000 && b < 0x10000 && c < 0x10000 && d < 0x10000 ==> (d << 48) | (c << 32) | (b << 16) | a
                == d * 0x1_0000_0000_0000 + c * 0x1_0000_0000 + b * 0x10000 + a) by (bit_vector);
            if lba48_capacity > lba_capacity && lba48_capacity < ata_limits::LBA48_MAX_SECTORS {
                self.num_sectors = lba48_capacity;
            }
        }
        self.sector_size = ATA_SECTOR_SIZE;
        let mut i: usize = 0;
        while i < ata_identify::MODEL_LEN
            invariant
                w@.len() == 256,
                0 <= i <= 20,
                self.model@.len() == 40,
                forall|k: int| 0 <= k < 2 * i ==> self.model@[k] == #[trigger] identify_string(w@, 27, 20)[k],
                self.channel == old(self).channel,
                self.drive == old(self).drive,
                self.base_port == old(self).base_port,
                self.ctrl_port == old(self).ctrl_port,
                self.stats == old(self).stats,
                self.num_sectors == identified_sectors(w@, old(self).num_sectors),
                self.sector_size == 512,
            decreases 20 - i,
        {
            let (lo, hi) = word_bytes(w[ata_identify::MODEL_START + i]);
            self.model[i * 2] = lo;
            self.model[i * 2 + 1] = hi;
            i = i + 1;
        }
        let mut j: usize = 0;
        while j < ata_identify::SERIAL_LEN
            invariant
                w@.len() == 256,
                0 <= j <= 10,
                self.serial@.len() == 20,
                forall|k: int| 0 <= k < 2 * j ==> self.serial@[k] == #[trigger] identify_string(w@, 10, 10)[k],
                self.model@ == identify_string(w@, 27, 20),
                self.channel == old(self).channel,
                self.drive == old(self).drive,
                self.base_port == old(self).base_port,
                self.ctrl_port == old(self).ctrl_port,
                self.stats == old(self).stats,
                self.num_sectors == identified_sectors(w@, old(self).num_sectors),
                self.sector_size == 512,
            decreases 10 - j,
        {
            if j == 0 {
                assert(self.model@ =~= identify_string(w@, 27, 20));
            }
            let (lo, hi) = word_bytes(w[ata_identify::SERIAL_START + j]);
            self.serial[j * 2] = lo;
            self.serial[j * 2 + 1] = hi;
            j = j + 1;
        }
        assert(self.serial@ =~= identify_string(w@, 10, 10));
        self.state = AtaState::Identified;
    }

    /// Counts a completed PIO read of `count` sectors, or a failed one when
    /// the final status has the error bit; a good read returns the number of
    /// bytes the device sent, 512 per sector.
    pub fn finish_read(&mut self, status: u8, count: usize) -> (r: KernelResult<usize>)
        requires
            count * 512 <= usize::MAX,
            old(self).stats_view().0 < u64::MAX,
            old(self).stats_view().2 + count <= u64::MAX,
            old(self).stats_view().4 < u64::MAX,
        ensures
            old(self).same_but_stats(&*final(self)),
            ({
                let (reads, writes, rs, ws, re, we) = old(self).stats_view();
                if status & 0x01 != 0 {
                    r == Err::<usize, KernelError>(KernelError::IoError)
                        && final(self).stats_view() == (reads, writes, rs, ws, (re + 1) as u64, we)
                } else {
                    r == Ok::<usize, KernelError>((count * 512) as usize)
                        && final(self).stats_view() == ((reads + 1) as u64, writes, (rs + count) as u64, ws, re, we)
                }
            }),
    {
        if status & ata_status::ATA_ERR != 0 {
            self.stats.read_errors = self.stats.read_errors + 1;
            return Err(KernelError::IoError);
        }
        self.stats.reads = self.stats.reads + 1;
        self.stats.read_sectors = self.stats.read_sectors + count as u64;
        Ok(count * (2 * ata_identify::WORDS_PER_SECTOR))
    }

    /// Counts a completed PIO write of `count` sectors, or a failed one when
    /// the final status has the error bit; a good write returns the number of
    /// bytes the sectors hold.
    pub fn finish_write(&mut self, status: u8, count: usize) -> (r: KernelResult<usize>)
        requires
            count * old(self).sector_size_view() <= usize::MAX,
            old(self).stats_view().1 < u64::MAX,
            old(self).stats_view().3 + count <= u64::MAX,
            old(self).stats_view().5 < u64::MAX,
        ensures
            old(self).same_but_stats(&*final(self)),
            ({
                let (reads, writes, rs, ws, re, we) = old(self).stats_view();
                if status & 0x01 != 0 {
                    r == Err::<usize, KernelError>(KernelError::IoError)
                        && final(self).stats_view() == (reads, writes, rs, ws, re, (we + 1) as u64)
                } else {
                    r == Ok::<usize, KernelError>((count * old(self).sector_size_view()) as usize)
                        && final(self).stats_view() == (reads, (writes + 1) as u64, rs, (ws + count) as u64, re, we)
                }
            }),
    {
        if status & ata_status::ATA_ERR != 0 {
            self.stats.write_errors = self.stats.write_errors + 1;
            return Err(KernelError::IoError);
        }
        self.stats.writes = self.stats.writes + 1;
        self.stats.write_sectors = self.stats.write_sectors + count as u64;
        Ok(count * self.sector_size)
    }
}

/// One poll while waiting for the device to leave the busy state, after
/// `polls` earlier polls: done when the busy bit is clear, a timeout error
/// once more than `BUSY_TIMEOUT` polls were made, else poll again.
pub fn poll_not_busy(status: u8, polls: u32) -> (r: PollStep)
    requires
        polls <= ata_timeouts::BUSY_TIMEOUT,
    ensures
        r == if status & 0x80 == 0 {
            PollStep::Done
        } else if polls + 1 > ata_timeouts::BUSY_TIMEOUT {
            PollStep::Fail(KernelError::DeviceError("ATA busy timeout"))
        } else {
            PollStep::Again
        },
{
    if status & ata_status::ATA_BUSY == 0 {
        return PollStep::Done;
    }
    if polls + 1 > ata_timeouts::BUSY_TIMEOUT {
        return PollStep::Fail(KernelError::DeviceError("ATA busy timeout"));
    }
    PollStep::Again
}

/// One poll while waiting for a data request, after `polls` earlier polls:
/// done when DRQ is set, an error when the error bit is set, a timeout error
/// once more than `timeout` polls were made, else poll again.
pub fn poll_drq(status: u8, polls: u32, timeout: u32) -> (r: PollStep)
    requires
        polls <= timeout,
        timeout < u32::MAX,
    ensures
        r == if status & 0x08 != 0 {
            PollStep::Done
        } else if status & 0x01 != 0 {
            PollStep::Fail(KernelError::DeviceError("ATA DRQ error"))
        } else if polls + 1 > timeout {
            PollStep::Fail(KernelError::DeviceError("ATA DRQ timeout"))
        } else {
            PollStep::Again
        },
{
    if status & ata_status::ATA_DRQ != 0 {
        return PollStep::Done;
    }
    if status & ata_status::ATA_ERR != 0 {
        return PollStep::Fail(KernelError::DeviceError("ATA DRQ error"));
    }
    if polls + 1 > timeout {
        return PollStep::Fail(KernelError::DeviceError("ATA DRQ timeout"));
    }
    PollStep::Again
}

/// What the status right after an IDENTIFY command says: a zero status means
/// no device is attached.
pub fn identify_presence(status: u8) -> (r: KernelResult<()>)
    ensures
        r == if status == 0 {
            Err::<(), KernelError>(KernelError::DeviceNotFound)
        } else {
            Ok(())
        },
{
    if status == 0 {
        return Err(KernelError::DeviceNotFound);
    }
    Ok(())
}

/// What the status after the device settles from IDENTIFY says: the error
/// bit means the command failed.
pub fn identify_status(status: u8) -> (r: KernelResult<()>)
    ensures
        r == if status & 0x01 != 0 {
            Err::<(), KernelError>(KernelError::DeviceError("ATA identify failed"))
        } else {
            Ok(())
        },
{
    if status & ata_status::ATA_ERR != 0 {
        return Err(KernelError::DeviceError("ATA identify failed"));
    }
    Ok(())
}

/// Stores one sector of data-port words into `buf` from `offset`, low byte
/// first, dropping the bytes that fall past its end; returns the offset after
/// the last byte stored.
pub fn store_sector_words(buf: &mut [u8], offset: usize, words: &[u16]) -> (r: usize)
    requires
        offset <= old(buf)@.len(),
        words@.len() == 256,
    ensures
        final(buf)@.len() == old(buf)@.len(),
        r == (if offset + 512 <= old(buf)@.len() { offset + 512 } else { old(buf)@.len() as int }),
        forall|i: int| 0 <= i < old(buf)@.len() ==> #[trigger] final(buf)@[i] == if offset <= i < r {
            unpacked_bytes(words@)[i - offset]
        } else {
            old(buf)@[i]
        },
{
    let mut off = offset;
    let mut k: usize = 0;
    let len = buf.len();
    while k < ata_identify::WORDS_PER_SECTOR
        invariant
            len == buf@.len(),
            buf@.len() == old(buf)@.len(),
            words@.len() == 256,
            0 <= k <= 256,
            offset <= off <= len,
            off == (if offset + 2 * k <= len { offset + 2 * k } else { len as int }),
            forall|i: int| 0 <= i < len ==> #[trigger] buf@[i] == if offset <= i < off {
                unpacked_bytes(words@)[i - offset]
            } else {
                old(buf)@[i]
            },
        decreases 256 - k,
    {
        let (lo, hi) = word_bytes(words[k]);
        if off < len {
            buf[off] = lo;
            off = off + 1;
        }
        if off < len {
            buf[off] = hi;
            off = off + 1;
        }
        k = k + 1;
    }
    off
}

/// The data-port words that write one sector taken from `buf` at `offset`:
/// two bytes per word, low byte first, zero past the end of `buf`.
pub fn sector_words(buf: &[u8], offset: usize) -> (r: Vec<u16>)
    requires
        offset + 512 <= usize::MAX,
    ensures
        r@ == packed_words(buf@, offset as int, 256),
{
    let mut words: Vec<u16> = Vec::new();
    let len = buf.len();
    let mut k: usize = 0;
    while k < ata_identify::WORDS_PER_SECTOR
        invariant
            len == buf@.len(),
            offset + 512 <= usize::MAX,
            0 <= k <= 256,
            words@ == packed_words(buf@, offset as int, 256).subrange(0, k as int),
        decreases 256 - k,
    {
        let i0 = offset + 2 * k;
        let b0: u8 = if i0 < len { buf[i0] } else { 0 };
        let b1: u8 = if i0 + 1 < len { buf[i0 + 1] } else { 0 };
        let word: u16 = ((b1 as u16) << 8) | (b0 as u16);
        assert(((b1 as u16) << 8) | (b0 as u16) == b0 + 256 * b1) by (bit_vector);
        words.push(word);
        proof {
            assert(words@ =~= packed_words(buf@, offset as int, 256).subrange(0, k + 1));
        }
        k = k + 1;
    }
    words
}

/// What is written is read back: the words that write a sector unpack into
/// the sector's bytes, with zeros past the end of the buffer.
pub proof fn lemma_pack_unpack(buf: Seq<u8>, offset: int, n: nat)
    ensures
        unpacked_bytes(packed_words(buf, offset, n)) == Seq::new(2 * n, |i: int| byte_or_zero(buf, offset + i)),
{
    let w = packed_words(buf, offset, n);
    assert forall|i: int| 0 <= i < 2 * n implies #[trigger] unpacked_bytes(w)[i] == byte_or_zero(buf, offset + i) by {
        let k = i / 2;
        let b0 = byte_or_zero(buf, offset + 2 * k);
        let b1 = byte_or_zero(buf, offset + 2 * k + 1);
        assert((b0 + 256 * b1) % 256 == b0 && (b0 + 256 * b1) / 256 == b1) by (nonlinear_arith)
            requires 0 <= b0 < 256, 0 <= b1 < 256;
    }
    assert(unpacked_bytes(w) =~= Seq::new(2 * n, |i: int| byte_or_zero(buf, offset + i)));
}

/// The registers of a PIO command carry the low 28 bits of its LBA: the
/// three LBA bytes and the low nibble of the device register put them back
/// together, the high nibble of the device register selects the drive in LBA
/// mode, and the sector-count register holds the count modulo 256.
pub proof fn lemma_task_file_encodes_lba(drive: AtaDrive, lba: u64, count: usize, command: u8)
    ensures
        ({
            let tf = pio_task_file(drive, lba, count, command);
            &&& tf.lbal + 256 * tf.lbam + 0x10000 * tf.lbah + 0x1000000 * (tf.device % 16) == lba % 0x10000000
            &&& tf.device / 16 == (drive_magic(drive) | 0x40u8) / 16
            &&& tf.nsect == count % 256
            &&& tf.command == command
        }),
{
    let m = drive_magic(drive);
    let top = ((lba / 0x1000000) % 16) as u8;
    assert(top == (lba / 0x1000000) % 16);
    assert(m == 0xE0u8 || m == 0xF0u8);
    assert((m == 0xE0u8 || m == 0xF0u8) && top < 16 ==> (m | 0x40u8 | top) % 16 == top && (m | 0x40u8 | top) / 16 == (m | 0x40u8) / 16)
        by (bit_vector);
    assert(lba % 256 + 256 * ((lba / 256) % 256) + 0x10000 * ((lba / 0x10000) % 256) + 0x1000000 * ((lba / 0x1000000) % 16)
        == lba % 0x10000000) by (bit_vector);
}

/// The I/O ports of the two channels (primary: base 0x1F0, control 0x3F6;
/// secondary: base 0x170, control 0x376) and the drive-select values
/// (master 0xE0, slave 0xF0).
pub proof fn lemma_ports_and_drives()
    ensures
        channel_ports(AtaChannel::Primary) == (0x1F0u16, 0x3F6u16),
        channel_ports(AtaChannel::Secondary) == (0x170u16, 0x376u16),
        drive_magic(AtaDrive::Master) == 0xE0,
        drive_magic(AtaDrive::Slave) == 0xF0,
{
}

/// A word is its low byte plus 256 times its high byte.
pub proof fn lemma_word_split(w: u16)
    ensures
        low_byte(w) + 256 * high_byte(w) == w,
        low_byte(w) < 256 && high_byte(w) < 256,
{
}

/// What the IDENTIFY data gives: the 28-bit capacity is words 60 (low) and
/// 61 (high); the 48-bit capacity is words 100 to 103, lowest first, and
/// counts only when bit 10 of word 83 is set. A device gets the 48-bit
/// capacity when it is larger than the 28-bit one and below 2^36 sectors,
/// else the 28-bit capacity when it is nonzero and below 2^28, else keeps
/// its old count.
pub proof fn lemma_identified_capacity(w: Seq<u16>, old: u64)
    requires
        w.len() == 256,
    ensures
        ({
            let c28 = w[60] + 0x10000 * w[61];
            let c48 = w[100] + 0x10000 * w[101] + 0x1_0000_0000 * w[102] + 0x1_0000_0000_0000 * w[103];
            let lba48 = w[83] & 0x0400 != 0;
            &&& lba48 && c48 > c28 && c48 < 0x10_0000_0000 ==> identified_sectors(w, old) == c48
            &&& !(lba48 && c48 > c28 && c48 < 0x10_0000_0000) && 0 < c28 < 0x1000_0000
                ==> identified_sectors(w, old) == c28
            &&& !(lba48 && c48 > c28 && c48 < 0x10_0000_0000) && !(0 < c28 < 0x1000_0000)
                ==> identified_sectors(w, old) == old
        }),
{
}

/// An IDENTIFY string is two characters per word, the low byte first.
pub proof fn lemma_identify_string_bytes(w: Seq<u16>, start: int, n: nat)
    ensures
        identify_string(w, start, n).len() == 2 * n,
        forall|k: int|
            0 <= k < n ==> #[trigger] identify_string(w, start, n)[2 * k] == w[start + k] % 256
                && identify_string(w, start, n)[2 * k + 1] == w[start + k] / 256,
{
    assert forall|k: int| 0 <= k < n implies #[trigger] identify_string(w, start, n)[2 * k] == w[start + k] % 256
        && identify_string(w, start, n)[2 * k + 1] == w[start + k] / 256 by {
        assert((2 * k) / 2 == k && (2 * k) % 2 == 0);
        assert((2 * k + 1) / 2 == k && (2 * k + 1) % 2 == 1);
    }
}

} // verus!
