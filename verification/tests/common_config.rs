use byteorder::{ByteOrder, LittleEndian};
use devices::virtio::queue::Queue;
use devices::virtio::virtio_device::VirtioDevice;
use devices::virtio::virtio_pci_common_config::VirtioPciCommonConfig;

struct DummyDevice(u32);
const QUEUE_SIZE: u16 = 256;
const DUMMY_FEATURES: u64 = 0x5555_aaaa;

impl VirtioDevice for DummyDevice {
    fn device_type(&self) -> u32 {
        self.0
    }
    fn queue_max_sizes(&self) -> Vec<u16> {
        vec![QUEUE_SIZE]
    }
    fn features(&self) -> u64 {
        DUMMY_FEATURES
    }
    fn ack_features(&mut self, _value: u64) {}
    fn read_config(&self, _offset: u64, _data: &mut [u8]) {}
}

#[test]
fn write_base_regs() {
    let mut regs = VirtioPciCommonConfig {
        driver_status: 0xaa,
        config_generation: 0x55,
        device_feature_select: 0x0,
        driver_feature_select: 0x0,
        queue_select: 0xff,
    };

    let mut dev = DummyDevice(0);
    let mut queues: Vec<Queue> = Vec::new();

    // Can set all bits of driver_status.
    regs.write(0x14, &[0x55], &mut queues, &mut dev);
    let mut read_back = vec![0x00];
    regs.read(0x14, &mut read_back, &mut queues, &mut dev);
    assert_eq!(read_back[0], 0x55);

    // The config generation register is read only.
    regs.write(0x15, &[0xaa], &mut queues, &mut dev);
    let mut read_back = vec![0x00];
    regs.read(0x15, &mut read_back, &mut queues, &mut dev);
    assert_eq!(read_back[0], 0x55);

    // Device features is read-only and passed through from the device.
    regs.write(0x04, &[0, 0, 0, 0], &mut queues, &mut dev);
    let mut read_back = vec![0, 0, 0, 0];
    regs.read(0x04, &mut read_back, &mut queues, &mut dev);
    assert_eq!(LittleEndian::read_u32(&read_back), DUMMY_FEATURES as u32);

    // Feature select registers are read/write.
    regs.write(0x00, &[1, 2, 3, 4], &mut queues, &mut dev);
    let mut read_back = vec![0, 0, 0, 0];
    regs.read(0x00, &mut read_back, &mut queues, &mut dev);
    assert_eq!(LittleEndian::read_u32(&read_back), 0x0403_0201);
    regs.write(0x08, &[1, 2, 3, 4], &mut queues, &mut dev);
    let mut read_back = vec![0, 0, 0, 0];
    regs.read(0x08, &mut read_back, &mut queues, &mut dev);
    assert_eq!(LittleEndian::read_u32(&read_back), 0x0403_0201);

    // 'queue_select' can be read and written.
    regs.write(0x16, &[0xaa, 0x55], &mut queues, &mut dev);
    let mut read_back = vec![0x00, 0x00];
    regs.read(0x16, &mut read_back, &mut queues, &mut dev);
    assert_eq!(read_back[0], 0xaa);
    assert_eq!(read_back[1], 0x55);
}

fn default_regs() -> VirtioPciCommonConfig {
    VirtioPciCommonConfig {
        driver_status: 0,
        config_generation: 0x7,
        device_feature_select: 0,
        driver_feature_select: 0,
        queue_select: 0,
    }
}

fn read_bytes(
    regs: &mut VirtioPciCommonConfig,
    offset: u64,
    width: usize,
    queues: &mut Vec<Queue>,
    dev: &mut DummyDevice,
) -> Vec<u8> {
    let mut data = vec![0xee; width];
    regs.read(offset, &mut data, queues, dev);
    data
}

/// A device that records what is acknowledged.
struct RecordingDevice {
    features: u64,
    acked: Vec<u64>,
}

impl VirtioDevice for RecordingDevice {
    fn device_type(&self) -> u32 {
        1
    }
    fn queue_max_sizes(&self) -> Vec<u16> {
        vec![QUEUE_SIZE]
    }
    fn features(&self) -> u64 {
        self.features
    }
    fn ack_features(&mut self, value: u64) {
        self.acked.push(value);
    }
    fn read_config(&self, _offset: u64, _data: &mut [u8]) {}
}

#[test]
fn status_bar_walk() {
    let mut regs = default_regs();
    let mut dev = DummyDevice(0);
    let mut queues = vec![Queue::new(QUEUE_SIZE)];

    regs.write(0x14, &[0x55], &mut queues, &mut dev);
    assert_eq!(read_bytes(&mut regs, 0x14, 1, &mut queues, &mut dev), vec![0x55]);

    regs.write(0x15, &[0xaa], &mut queues, &mut dev);
    assert_eq!(read_bytes(&mut regs, 0x15, 1, &mut queues, &mut dev), vec![0x7]);

    regs.write(0x00, &[1, 2, 3, 4], &mut queues, &mut dev);
    assert_eq!(read_bytes(&mut regs, 0x00, 4, &mut queues, &mut dev), vec![1, 2, 3, 4]);
    assert_eq!(regs.device_feature_select, 0x0403_0201);
}

#[test]
fn queue_address_assembly() {
    let mut regs = default_regs();
    let mut dev = DummyDevice(0);
    let mut queues = vec![Queue::new(QUEUE_SIZE)];

    regs.write(0x20, &[0x44, 0x33, 0x22, 0x11], &mut queues, &mut dev);
    assert_eq!(queues[0].desc_table, 0x1122_3344);
    regs.write(0x24, &[0xdd, 0xcc, 0xbb, 0xaa], &mut queues, &mut dev);
    assert_eq!(queues[0].desc_table, 0xaabb_ccdd_1122_3344);

    regs.write(0x20, &[0; 8], &mut queues, &mut dev);
    assert_eq!(queues[0].desc_table, 0);
    assert_eq!(queues[0], Queue::new(QUEUE_SIZE));
}

#[test]
fn split_writes_round_trip_in_either_order() {
    let v: u64 = 0x0123_4567_89ab_cdef;
    let low = [0xef, 0xcd, 0xab, 0x89];
    let high = [0x67, 0x45, 0x23, 0x01];
    for base in [0x20u64, 0x28, 0x30] {
        let field = |q: &Queue| match base {
            0x20 => q.desc_table,
            0x28 => q.avail_ring,
            _ => q.used_ring,
        };
        let mut regs = default_regs();
        let mut dev = DummyDevice(0);
        let start = Queue { size: 8, ready: true, desc_table: !0, avail_ring: !0, used_ring: !0 };

        let mut queues = vec![start];
        regs.write(base, &low, &mut queues, &mut dev);
        assert_eq!(field(&queues[0]), 0xffff_ffff_89ab_cdef);
        regs.write(base + 4, &high, &mut queues, &mut dev);
        assert_eq!(field(&queues[0]), v);

        let mut queues = vec![start];
        regs.write(base + 4, &high, &mut queues, &mut dev);
        assert_eq!(field(&queues[0]), 0x0123_4567_ffff_ffff);
        regs.write(base, &low, &mut queues, &mut dev);
        assert_eq!(field(&queues[0]), v);

        let mut queues = vec![start];
        regs.write(base, &[0xef, 0xcd, 0xab, 0x89, 0x67, 0x45, 0x23, 0x01], &mut queues, &mut dev);
        assert_eq!(field(&queues[0]), v);

        // Only the one address changed.
        let mut expected = start;
        match base {
            0x20 => expected.desc_table = v,
            0x28 => expected.avail_ring = v,
            _ => expected.used_ring = v,
        }
        assert_eq!(queues[0], expected);
        assert_eq!(regs, default_regs());
    }
}

#[test]
fn eight_byte_write_at_a_high_half_is_dropped() {
    let mut regs = default_regs();
    let mut dev = DummyDevice(0);
    let mut queues = vec![Queue::new(4)];
    for offset in [0x24u64, 0x2c, 0x34, 0x38, 0x00, 0x14] {
        regs.write(offset, &[0xff; 8], &mut queues, &mut dev);
    }
    assert_eq!(queues, vec![Queue::new(4)]);
    assert_eq!(regs, default_regs());
}

#[test]
fn read_only_registers_do_not_change() {
    let mut regs = default_regs();
    let mut dev = RecordingDevice { features: 0x1_0000_0003, acked: Vec::new() };
    let mut queues = vec![Queue::new(4), Queue::new(8)];
    let before = regs;

    // config_generation, at every width.
    regs.write(0x15, &[0xaa], &mut queues, &mut dev);
    regs.write(0x15, &[0xaa, 0xbb], &mut queues, &mut dev);
    regs.write(0x15, &[0xaa; 4], &mut queues, &mut dev);
    regs.write(0x15, &[0xaa; 8], &mut queues, &mut dev);
    // device_feature.
    regs.write(0x04, &[0xff; 4], &mut queues, &mut dev);
    // num_queues and queue_notify_off.
    regs.write(0x12, &[9, 9], &mut queues, &mut dev);
    regs.write(0x1e, &[9, 9], &mut queues, &mut dev);

    assert_eq!(regs, before);
    assert_eq!(queues, vec![Queue::new(4), Queue::new(8)]);
    assert!(dev.acked.is_empty());

    let mut data = vec![0u8; 4];
    regs.read(0x04, &mut data, &mut queues, &mut dev);
    assert_eq!(data, vec![3, 0, 0, 0]);
    let mut data = vec![0u8; 2];
    regs.read(0x12, &mut data, &mut queues, &mut dev);
    assert_eq!(data, vec![2, 0]);
}

#[test]
fn device_features_are_paged() {
    let mut regs = default_regs();
    let mut dev = RecordingDevice { features: 0x8000_0001_5555_aaaa, acked: Vec::new() };
    let mut queues: Vec<Queue> = Vec::new();

    let mut data = vec![0u8; 4];
    regs.read(0x04, &mut data, &mut queues, &mut dev);
    assert_eq!(LittleEndian::read_u32(&data), 0x5555_aaaa);

    regs.write(0x00, &[1, 0, 0, 0], &mut queues, &mut dev);
    regs.read(0x04, &mut data, &mut queues, &mut dev);
    assert_eq!(LittleEndian::read_u32(&data), 0x8000_0001);

    regs.write(0x00, &[2, 0, 0, 0], &mut queues, &mut dev);
    regs.read(0x04, &mut data, &mut queues, &mut dev);
    assert_eq!(LittleEndian::read_u32(&data), 0);
}

#[test]
fn driver_features_are_acknowledged_on_the_selected_page() {
    let mut regs = default_regs();
    let mut dev = RecordingDevice { features: 0, acked: Vec::new() };
    let mut queues: Vec<Queue> = Vec::new();

    // The device feature select does not matter here.
    regs.write(0x00, &[1, 0, 0, 0], &mut queues, &mut dev);

    regs.write(0x0c, &[0x78, 0x56, 0x34, 0x12], &mut queues, &mut dev);
    assert_eq!(dev.acked, vec![0x1234_5678]);

    regs.write(0x08, &[1, 0, 0, 0], &mut queues, &mut dev);
    regs.write(0x0c, &[0x01, 0x00, 0x00, 0x80], &mut queues, &mut dev);
    assert_eq!(dev.acked, vec![0x1234_5678, 0x8000_0001_0000_0000]);

    regs.write(0x08, &[2, 0, 0, 0], &mut queues, &mut dev);
    regs.write(0x0c, &[0xff; 4], &mut queues, &mut dev);
    assert_eq!(dev.acked.len(), 2);

    // driver_feature is write-only.
    let mut data = vec![0xeeu8; 4];
    regs.read(0x0c, &mut data, &mut queues, &mut dev);
    assert_eq!(data, vec![0, 0, 0, 0]);
}

#[test]
fn writes_reach_the_selected_queue_only() {
    let mut regs = default_regs();
    let mut dev = DummyDevice(0);
    let mut queues = vec![Queue::new(2), Queue::new(4), Queue::new(8)];

    regs.write(0x16, &[1, 0], &mut queues, &mut dev);
    regs.write(0x18, &[0x40, 0x00], &mut queues, &mut dev);
    regs.write(0x1c, &[1, 0], &mut queues, &mut dev);
    regs.write(0x28, &[0x00, 0x10, 0, 0], &mut queues, &mut dev);
    regs.write(0x30, &[0, 0, 0, 0, 1, 0, 0, 0], &mut queues, &mut dev);

    assert_eq!(queues[0], Queue::new(2));
    assert_eq!(
        queues[1],
        Queue { size: 0x40, ready: true, desc_table: 0, avail_ring: 0x1000, used_ring: 0x1_0000_0000 }
    );
    assert_eq!(queues[2], Queue::new(8));

    // Switching the selector shows what the other queue holds.
    regs.write(0x16, &[2, 0], &mut queues, &mut dev);
    assert_eq!(read_bytes(&mut regs, 0x18, 2, &mut queues, &mut dev), vec![8, 0]);
    assert_eq!(read_bytes(&mut regs, 0x1c, 2, &mut queues, &mut dev), vec![0, 0]);
    assert_eq!(read_bytes(&mut regs, 0x1e, 2, &mut queues, &mut dev), vec![2, 0]);
    regs.write(0x16, &[1, 0], &mut queues, &mut dev);
    assert_eq!(read_bytes(&mut regs, 0x18, 2, &mut queues, &mut dev), vec![0x40, 0]);
    assert_eq!(read_bytes(&mut regs, 0x1c, 2, &mut queues, &mut dev), vec![1, 0]);
}

#[test]
fn queue_enable_takes_only_the_value_one() {
    let mut regs = default_regs();
    let mut dev = DummyDevice(0);
    let mut queues = vec![Queue::new(2)];
    regs.write(0x1c, &[1, 0], &mut queues, &mut dev);
    assert!(queues[0].ready);
    assert!(queues[0].is_usable());
    regs.write(0x1c, &[2, 0], &mut queues, &mut dev);
    assert!(!queues[0].ready);
    regs.write(0x1c, &[1, 1], &mut queues, &mut dev);
    assert!(!queues[0].ready);
    assert!(!queues[0].is_usable());
    regs.write(0x1c, &[1, 0], &mut queues, &mut dev);
    regs.write(0x18, &[0, 0], &mut queues, &mut dev);
    assert!(queues[0].ready);
    assert!(!queues[0].is_usable());
}

#[test]
fn selector_out_of_range_is_dropped() {
    let mut regs = default_regs();
    let mut dev = DummyDevice(0);
    let mut queues = vec![Queue::new(2)];

    regs.write(0x16, &[1, 0], &mut queues, &mut dev);
    regs.write(0x18, &[0x40, 0x00], &mut queues, &mut dev);
    regs.write(0x1c, &[1, 0], &mut queues, &mut dev);
    regs.write(0x20, &[1, 2, 3, 4], &mut queues, &mut dev);
    regs.write(0x24, &[1, 2, 3, 4], &mut queues, &mut dev);
    regs.write(0x28, &[1; 8], &mut queues, &mut dev);
    assert_eq!(queues, vec![Queue::new(2)]);

    assert_eq!(read_bytes(&mut regs, 0x18, 2, &mut queues, &mut dev), vec![0, 0]);
    assert_eq!(read_bytes(&mut regs, 0x1c, 2, &mut queues, &mut dev), vec![0, 0]);
    assert_eq!(read_bytes(&mut regs, 0x16, 2, &mut queues, &mut dev), vec![1, 0]);
    assert_eq!(read_bytes(&mut regs, 0x12, 2, &mut queues, &mut dev), vec![1, 0]);
}

#[test]
fn other_widths_are_ignored() {
    let mut regs = default_regs();
    let mut dev = DummyDevice(0);
    let mut queues = vec![Queue::new(2)];
    for width in [0usize, 3, 5, 6, 7, 9, 16] {
        let data = vec![0xffu8; width];
        for offset in [0x00u64, 0x14, 0x16, 0x18, 0x20] {
            regs.write(offset, &data, &mut queues, &mut dev);
            assert_eq!(read_bytes(&mut regs, offset, width, &mut queues, &mut dev), vec![0xee; width]);
        }
    }
    assert_eq!(regs, default_regs());
    assert_eq!(queues, vec![Queue::new(2)]);
}

#[test]
fn unmapped_and_ignored_registers_read_zero() {
    let mut regs = default_regs();
    regs.driver_status = 0xff;
    let mut dev = DummyDevice(0);
    let mut queues = vec![Queue { size: 8, ready: true, desc_table: 1, avail_ring: 2, used_ring: 3 }];

    assert_eq!(read_bytes(&mut regs, 0x13, 1, &mut queues, &mut dev), vec![0]);
    assert_eq!(read_bytes(&mut regs, 0x10, 2, &mut queues, &mut dev), vec![0, 0]);
    assert_eq!(read_bytes(&mut regs, 0x1a, 2, &mut queues, &mut dev), vec![0, 0]);
    assert_eq!(read_bytes(&mut regs, 0x14, 2, &mut queues, &mut dev), vec![0, 0]);
    assert_eq!(read_bytes(&mut regs, 0x20, 4, &mut queues, &mut dev), vec![0; 4]);
    assert_eq!(read_bytes(&mut regs, 0x38, 4, &mut queues, &mut dev), vec![0; 4]);

    regs.write(0x10, &[5, 5], &mut queues, &mut dev);
    regs.write(0x1a, &[5, 5], &mut queues, &mut dev);
    regs.write(0x13, &[5], &mut queues, &mut dev);
    assert_eq!(read_bytes(&mut regs, 0x10, 2, &mut queues, &mut dev), vec![0, 0]);
    assert_eq!(read_bytes(&mut regs, 0x1a, 2, &mut queues, &mut dev), vec![0, 0]);
    assert_eq!(regs.driver_status, 0xff);
}

#[test]
fn sub_width_accessors_agree_with_read_and_write() {
    let mut regs = default_regs();
    let mut dev = RecordingDevice { features: 0x1_0000_0000, acked: Vec::new() };
    let mut queues = vec![Queue::new(2)];

    regs.write_common_config_byte(0x14, 0x0f);
    assert_eq!(regs.read_common_config_byte(0x14), 0x0f);
    assert_eq!(regs.read_common_config_byte(0x15), 0x7);
    assert_eq!(regs.read_common_config_byte(0x16), 0);

    regs.write_common_config_word(0x18, 0x100, &mut queues);
    assert_eq!(regs.read_common_config_word(0x18, &queues), 0x100);
    assert_eq!(regs.read_common_config_word(0x12, &queues), 1);

    regs.write_common_config_dword(0x00, 1, &mut queues, &mut dev);
    assert_eq!(regs.read_common_config_dword(0x00, &dev), 1);
    assert_eq!(regs.read_common_config_dword(0x04, &dev), 1);
    regs.write_common_config_dword(0x34, 0xdead_beef, &mut queues, &mut dev);
    assert_eq!(queues[0].used_ring, 0xdead_beef_0000_0000);

    regs.write_common_config_qword(0x28, 0x1122_3344_5566_7788, &mut queues);
    assert_eq!(queues[0].avail_ring, 0x1122_3344_5566_7788);
    assert_eq!(regs.read_common_config_qword(0x28), 0);

    assert_eq!(regs.with_queue(&queues, |q| q.size), Some(0x100));
    regs.with_queue_mut(&mut queues, |q| q.size = 3);
    assert_eq!(queues[0].size, 3);
    regs.queue_select = 1;
    assert_eq!(regs.with_queue(&queues, |q| q.size), None);
    regs.with_queue_mut(&mut queues, |q| q.size = 9);
    assert_eq!(queues[0].size, 3);
}

#[test]
fn eight_byte_reads_return_zero() {
    let mut regs = default_regs();
    let mut dev = DummyDevice(0);
    let mut queues = vec![Queue { size: 8, ready: true, desc_table: !0, avail_ring: !0, used_ring: !0 }];
    for offset in [0x00u64, 0x20, 0x28, 0x30] {
        assert_eq!(read_bytes(&mut regs, offset, 8, &mut queues, &mut dev), vec![0; 8]);
    }
}

#[test]
fn num_queues_wraps_at_sixteen_bits() {
    let mut regs = default_regs();
    let mut dev = DummyDevice(0);
    let mut queues = vec![Queue::new(1); 0x1_0002];
    assert_eq!(read_bytes(&mut regs, 0x12, 2, &mut queues, &mut dev), vec![2, 0]);
}

#[test]
fn writes_to_warn_of() {
    // Writable registers, at their own width.
    for (offset, width) in [
        (0x14u64, 1usize),
        (0x10, 2),
        (0x16, 2),
        (0x18, 2),
        (0x1a, 2),
        (0x1c, 2),
        (0x00, 4),
        (0x08, 4),
        (0x0c, 4),
        (0x20, 4),
        (0x24, 4),
        (0x28, 4),
        (0x2c, 4),
        (0x30, 4),
        (0x34, 4),
        (0x20, 8),
        (0x28, 8),
        (0x30, 8),
    ] {
        assert!(!VirtioPciCommonConfig::is_invalid_write(offset, width));
    }
    // Read-only registers, unmapped offsets, and registers at another width.
    for (offset, width) in [
        (0x15u64, 1usize),
        (0x13, 1),
        (0x00, 1),
        (0x12, 2),
        (0x1e, 2),
        (0x14, 2),
        (0x20, 2),
        (0x04, 4),
        (0x10, 4),
        (0x38, 4),
        (0x24, 8),
        (0x00, 8),
        (0x38, 8),
        (u64::MAX, 4),
    ] {
        assert!(VirtioPciCommonConfig::is_invalid_write(offset, width));
    }
    // Other widths are ignored without a warning.
    for width in [0usize, 3, 5, 16] {
        assert!(!VirtioPciCommonConfig::is_invalid_write(0x15, width));
    }
}

#[test]
fn a_write_to_warn_of_changes_nothing() {
    let mut dev = RecordingDevice { features: 0, acked: Vec::new() };
    let start = Queue { size: 8, ready: true, desc_table: 1, avail_ring: 2, used_ring: 3 };
    for offset in 0u64..0x40 {
        for width in [1usize, 2, 4, 8] {
            if VirtioPciCommonConfig::is_invalid_write(offset, width) {
                let mut regs = default_regs();
                let mut queues = vec![start];
                regs.write(offset, &vec![0xff; width], &mut queues, &mut dev);
                assert_eq!(regs, default_regs());
                assert_eq!(queues, vec![start]);
            }
        }
    }
    assert!(dev.acked.is_empty());
}
