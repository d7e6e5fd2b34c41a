use mouros::ac97::{base_ports, can_write, find_ac97_device, initial_descriptors, is_available, set_sample_rate, start_playback, stop_playback, Ac97Device, Ac97Driver, StartAction};
use mouros::bga::{is_supported_id, BgaDevice};
use mouros::memory::{get_system_memory_info, heap_size_for, memory_stats, BootInfoFrameAllocator, EmptyFrameAllocator, MemoryRegion, MemoryStatsCell, RegionKind};
use mouros::mouse::{get_mouse_state, has_events, pop_mouse_event, process_packet_byte, set_screen_bounds, MouseDriver};
use mouros::pci::{config_address, decode_slot, find_device, find_vga_device, PciDevice, SlotRegisters};

fn mouse() -> MouseDriver {
    let mut d = MouseDriver::new();
    d.init(800, 600);
    d
}

fn feed(d: &mut MouseDriver, bytes: &[u8]) {
    for &b in bytes {
        process_packet_byte(d, b);
    }
}

#[test]
fn mouse_starts_centred_without_events() {
    let d = mouse();
    let s = get_mouse_state(&d);
    assert_eq!((s.x, s.y), (400, 300));
    assert!(!s.left_pressed && !s.right_pressed && !s.middle_pressed);
    assert!(!has_events(&d));
}

#[test]
fn mouse_packet_moves_and_queues_an_event() {
    let mut d = mouse();
    // Left button, dx = +10, dy = +5 (up on screen).
    feed(&mut d, &[0x09, 10, 5]);
    let s = get_mouse_state(&d);
    assert_eq!((s.x, s.y), (410, 295));
    assert!(s.left_pressed);
    assert!(has_events(&d));
    let e = pop_mouse_event(&mut d).unwrap();
    assert_eq!((e.x, e.y, e.dx, e.dy), (410, 295, 10, -5));
    assert!(e.left_pressed && !e.right_pressed);
    assert!(pop_mouse_event(&mut d).is_none());
}

#[test]
fn mouse_negative_moves_and_clamping() {
    let mut d = mouse();
    // X sign bit (0x10) with 0xF6 = -10; Y sign bit (0x20) with 0xFB = -5 (down).
    feed(&mut d, &[0x08 | 0x10 | 0x20, 0xF6, 0xFB]);
    let e = pop_mouse_event(&mut d).unwrap();
    assert_eq!((e.x, e.y), (390, 305));
    // Far beyond the edge: held to the screen.
    for _ in 0..10 {
        feed(&mut d, &[0x08, 127, 0]);
    }
    assert_eq!(get_mouse_state(&d).x, 799);
    // Overflow bits drop the movement.
    let before = get_mouse_state(&d);
    feed(&mut d, &[0x08 | 0x40 | 0x80, 50, 50]);
    let after = get_mouse_state(&d);
    assert_eq!((after.x, after.y), (before.x, before.y));
}

#[test]
fn mouse_events_come_out_in_order() {
    let mut d = mouse();
    feed(&mut d, &[0x08, 1, 0, 0x08, 2, 0, 0x08, 3, 0]);
    let xs: Vec<isize> = std::iter::from_fn(|| pop_mouse_event(&mut d)).map(|e| e.x).collect();
    assert_eq!(xs, vec![401, 403, 406]);
}

#[test]
fn mouse_resyncs_on_bytes_without_the_always_one_bit() {
    let mut d = mouse();
    feed(&mut d, &[0x00, 0x00, 0x09, 1, 1]);
    let e = pop_mouse_event(&mut d).unwrap();
    assert_eq!((e.x, e.y), (401, 299));
    assert!(pop_mouse_event(&mut d).is_none());
}

#[test]
fn mouse_without_queue_keeps_no_events() {
    let mut d = MouseDriver::new();
    feed(&mut d, &[0x08, 5, 0]);
    assert!(!has_events(&d));
    assert_eq!(get_mouse_state(&d).x, 405);
    set_screen_bounds(&mut d, 1024, 768);
    assert_eq!((get_mouse_state(&d).x, get_mouse_state(&d).y), (512, 384));
}

fn slot(bus: u8, slot: u8, vendor: u16, device: u16, class: u8, subclass: u8) -> SlotRegisters {
    SlotRegisters {
        bus,
        slot,
        id_word: (device as u32) << 16 | vendor as u32,
        class_word: (class as u32) << 24 | (subclass as u32) << 16,
    }
}

#[test]
fn pci_config_address_and_decoding() {
    assert_eq!(config_address(0, 2, 0, 0x10), 0x8000_1010);
    assert_eq!(config_address(1, 31, 7, 0xFF), 0x8001_FFFC);
    let d = decode_slot(slot(0, 3, 0x8086, 0x2415, 0x04, 0x01));
    assert_eq!(d, PciDevice { bus: 0, slot: 3, func: 0, vendor_id: 0x8086, device_id: 0x2415, class_code: 4, subclass: 1 });
}

#[test]
fn pci_finds_first_display_and_audio() {
    let slots = [
        slot(0, 0, 0xFFFF, 0xFFFF, 0xFF, 0xFF),
        slot(0, 1, 0x8086, 0x1237, 0x06, 0x00),
        slot(0, 2, 0x1234, 0x1111, 0x03, 0x00),
        slot(0, 3, 0x8086, 0x2415, 0x04, 0x01),
        slot(0, 4, 0x10DE, 0x0001, 0x03, 0x00),
    ];
    assert_eq!(find_vga_device(&slots).unwrap().slot, 2);
    assert_eq!(find_device(&slots, false).unwrap().slot, 2);
    assert_eq!(find_ac97_device(&slots).unwrap().slot, 3);
    assert_eq!(find_ac97_device(&slots[..3]), None);
    assert_eq!(find_vga_device(&[]), None);
}

#[test]
fn pci_bar_and_command_word() {
    let d = decode_slot(slot(0, 3, 0x8086, 0x2415, 0x04, 0x01));
    let mut config = [0u32; 64];
    config[4] = 0xC001;
    config[5] = 0xC101;
    assert_eq!(d.read_bar(0, &config), 0xC001);
    assert_eq!(d.read_bar(1, &config), 0xC101);
    assert_eq!(d.enable_bus_master_and_memory(0x0100), 0x0107);
}

fn codec() -> Ac97Device {
    let dev = decode_slot(slot(0, 3, 0x8086, 0x2415, 0x04, 0x01));
    Ac97Device::new(dev, 0xC000, 0xC100, 0x1000, [0; 32])
}

#[test]
fn ac97_ports_and_descriptors() {
    assert_eq!(base_ports(0xC001, 0xC101), Some((0xC000, 0xC100)));
    assert_eq!(base_ports(0x3, 0xC101), None);
    let mut pages = [0u32; 32];
    for (i, p) in pages.iter_mut().enumerate() {
        *p = 0x10_0000 + 4096 * i as u32;
    }
    let ds = initial_descriptors(&pages);
    assert_eq!(ds.len(), 32);
    assert_eq!(ds[5].addr, 0x10_0000 + 5 * 4096);
    assert_eq!(ds[5].ctl_len, 0);
}

#[test]
fn ac97_ring_accounting() {
    let mut c = codec();
    assert_eq!(c.current_sample_rate, 44100);
    assert_eq!(c.in_flight(0), 0);
    assert_eq!(c.claim_descriptor(0, 5000), Some((0, 1152)));
    assert_eq!(c.claim_descriptor(0, 100), Some((1, 100)));
    assert_eq!(c.in_flight(0), 2);
    assert_eq!(c.in_flight(33), 1);
    for _ in 0..24 {
        assert!(c.claim_descriptor(0, 10).is_some());
    }
    assert_eq!(c.in_flight(0), 26);
    assert_eq!(c.claim_descriptor(0, 10), None);
    // Not running: starts once enough is queued.
    assert_eq!(c.start_action(0, 0, 0, false), StartAction::ClearAndRun);
    assert!(c.is_running);
    assert_eq!(c.start_action(1, 1, 0, false), StartAction::ClearStatus);
    assert_eq!(c.start_action(1, 0, 0, false), StartAction::Idle);
    let mut idle = codec();
    assert_eq!(idle.start_action(0, 0, 0, false), StartAction::Idle);
    assert_eq!(idle.start_action(0, 0, 0, true), StartAction::ClearAndRun);
}

#[test]
fn ac97_driver_state() {
    let mut drv = Ac97Driver::new();
    assert!(!is_available(&drv));
    assert!(!can_write(&drv, 0));
    assert!(!set_sample_rate(&mut drv, 48000));
    drv.device = Some(codec());
    assert!(is_available(&drv));
    assert!(can_write(&drv, 0));
    assert!(set_sample_rate(&mut drv, 48000));
    assert!(!set_sample_rate(&mut drv, 48000));
    start_playback(&mut drv);
    assert!(drv.device.as_ref().unwrap().is_running);
    stop_playback(&mut drv);
    let d = drv.device.as_ref().unwrap();
    assert!(!d.is_running);
    assert_eq!(d.next_desc, 0);
    assert_eq!(d.current_sample_rate, 48000);
}

#[test]
fn bga_ids_and_screen_copies() {
    assert!(is_supported_id(0xB0C5));
    assert!(is_supported_id(0xB0C0));
    assert!(!is_supported_id(0x1234));
    let mut dev = BgaDevice::new(3, 2, 0xE000_0000);
    assert_eq!(dev.screen, vec![0; 6]);
    dev.copy_framebuffer(&[1, 2, 3, 4, 5, 6, 7]);
    assert_eq!(dev.screen, vec![1, 2, 3, 4, 5, 6]);
    dev.copy_rect(&[9; 6], 1, 1, 5, 5);
    assert_eq!(dev.screen, vec![1, 2, 3, 4, 9, 9]);
}

fn region(start: u64, end: u64, kind: RegionKind) -> MemoryRegion {
    MemoryRegion { start, end, kind }
}

#[test]
fn memory_totals_of_a_map() {
    let map = [
        region(0, 0x9F000, RegionKind::Usable),
        region(0x9F000, 0x100000, RegionKind::Reserved),
        region(0x100000, 0x8000000, RegionKind::Usable),
        region(0xFFFC0000, 0x1_0000_0000, RegionKind::Reserved),
        region(0x1_0000_0000, 0x1_4000_0000, RegionKind::Usable),
    ];
    let info = memory_stats(&map);
    assert_eq!(info.usable_ram_bytes, 0x9F000 + (0x8000000 - 0x100000) + 0x4000_0000);
    assert_eq!(info.total_ram_bytes, 0x8000000 + 0x4000_0000);
    let mut cell = MemoryStatsCell::new();
    assert_eq!(get_system_memory_info(&cell).total_ram_bytes, 8388608);
    let got = cell.init_memory_stats(&map);
    assert_eq!(got, info);
    assert_eq!(get_system_memory_info(&cell), info);
}

#[test]
fn frame_allocators_hand_out_usable_frames() {
    assert_eq!(EmptyFrameAllocator.allocate_frame(), None);
    let map = vec![
        region(0, 0x1000, RegionKind::Reserved),
        region(0x2000, 0x4000, RegionKind::Usable),
        region(0x8000, 0x9000, RegionKind::Usable),
    ];
    let mut a = BootInfoFrameAllocator::init(map);
    assert_eq!(a.allocate_frame(), Some(0x2000));
    assert_eq!(a.allocate_frame(), Some(0x3000));
    assert_eq!(a.allocate_frame(), Some(0x8000));
    assert_eq!(a.allocate_frame(), None);
    assert_eq!(a.allocate_frame(), None);
}

#[test]
fn frame_allocator_reaches_the_top_of_the_address_space() {
    let map = vec![region(u64::MAX - 0x1FFF, u64::MAX, RegionKind::Usable)];
    let mut a = BootInfoFrameAllocator::init(map);
    assert_eq!(a.allocate_frame(), Some(u64::MAX - 0x1FFF));
    assert_eq!(a.allocate_frame(), None);
}

#[test]
fn heap_size_follows_usable_ram() {
    assert_eq!(heap_size_for(1024 * 1048576), 48 * 1048576);
    assert_eq!(heap_size_for(512 * 1048576), 48 * 1048576);
    assert_eq!(heap_size_for(300 * 1048576), 32 * 1048576);
    assert_eq!(heap_size_for(128 * 1048576), 16 * 1048576);
    assert_eq!(heap_size_for(127 * 1048576), 8 * 1048576);
}
