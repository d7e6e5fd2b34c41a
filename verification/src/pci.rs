//! PCI configuration space: register addresses, base-address registers,
//! and finding the display and audio controllers among the scanned slots.
use vstd::prelude::*;

verus! {

/// A PCI function's identity and class.
#[derive(Debug, Clone, Copy, PartialEq, Eq, Structural)]
pub struct PciDevice {
    pub bus: u8,
    pub slot: u8,
    pub func: u8,
    pub vendor_id: u16,
    pub device_id: u16,
    pub class_code: u8,
    pub subclass: u8,
}

/// What a slot's function 0 answered: its first (vendor and device) and
/// third (class and revision) configuration words.
#[derive(Debug, Clone, Copy, PartialEq, Eq, Structural)]
pub struct SlotRegisters {
    pub bus: u8,
    pub slot: u8,
    pub id_word: u32,
    pub class_word: u32,
}

/// The configuration address of register `offset` of a function.
pub open spec fn config_address_of(bus: u8, slot: u8, func: u8, offset: u8) -> u32 {
    ((bus as u32) << 16u32) | ((slot as u32) << 11u32) | ((func as u32) << 8u32) | ((offset as u32) & 0xFCu32) | 0x8000_0000u32
}

/// The configuration address of register `offset` of function `func` of
/// `slot` on `bus`, with the enable bit set.
pub fn config_address(bus: u8, slot: u8, func: u8, offset: u8) -> (a: u32)
    ensures
        a == config_address_of(bus, slot, func, offset),
{
    ((bus as u32) << 16u32) | ((slot as u32) << 11u32) | ((func as u32) << 8u32) | ((offset as u32) & 0xFCu32) | 0x8000_0000u32
}

/// The device a slot's registers describe.
pub open spec fn device_in(r: SlotRegisters) -> PciDevice {
    PciDevice {
        bus: r.bus,
        slot: r.slot,
        func: 0,
        vendor_id: (r.id_word % 65536) as u16,
        device_id: (r.id_word / 65536) as u16,
        class_code: (r.class_word / 16777216) as u8,
        subclass: ((r.class_word / 65536) % 256) as u8,
    }
}

/// Whether a device sits in the slot (vendor `FFFF` means none).
pub open spec fn present(r: SlotRegisters) -> bool {
    device_in(r).vendor_id != 0xFFFF
}

/// Whether `d` is a display controller (class 3) or the Bochs adapter.
pub open spec fn is_display(d: PciDevice) -> bool {
    d.class_code == 0x03 || (d.vendor_id == 0x1234 && d.device_id == 0x1111)
}

/// Whether `d` is an audio controller (class 4, subclass 1) or Intel's AC97.
pub open spec fn is_audio(d: PciDevice) -> bool {
    (d.class_code == 0x04 && d.subclass == 0x01) || (d.vendor_id == 0x8086 && d.device_id == 0x2415)
}

/// The first present device among `rs` that is a display (`audio` false)
/// or audio (`audio` true) controller.
pub open spec fn first_match(rs: Seq<SlotRegisters>, audio: bool) -> Option<PciDevice>
    decreases rs.len(),
{
    if rs.len() == 0 {
        None
    } else {
        let d = device_in(rs[0]);
        if present(rs[0]) && (if audio { is_audio(d) } else { is_display(d) }) {
            Some(d)
        } else {
            first_match(rs.drop_first(), audio)
        }
    }
}

/// The device `r` describes.
pub fn decode_slot(r: SlotRegisters) -> (d: PciDevice)
    ensures
        d == device_in(r),
{
    let id = r.id_word;
    let cw = r.class_word;
    assert(id & 0xFFFF == id % 65536) by (bit_vector);
    assert((id >> 16u32) & 0xFFFF == id / 65536) by (bit_vector);
    assert((cw >> 24u32) & 0xFF == cw / 16777216) by (bit_vector);
    assert((cw >> 16u32) & 0xFF == (cw / 65536) % 256) by (bit_vector);
    PciDevice {
        bus: r.bus,
        slot: r.slot,
        func: 0,
        vendor_id: (id & 0xFFFF) as u16,
        device_id: ((id >> 16u32) & 0xFFFF) as u16,
        class_code: ((cw >> 24u32) & 0xFF) as u8,
        subclass: ((cw >> 16u32) & 0xFF) as u8,
    }
}

/// The first display (`audio` false) or audio (`audio` true) controller
/// among the scanned slots `rs`, in scan order.
pub fn find_device(rs: &[SlotRegisters], audio: bool) -> (d: Option<PciDevice>)
    ensures
        d == first_match(rs@, audio),
{
    let mut i: usize = 0;
    assert(rs@.skip(0) =~= rs@);
    while i < rs.len()
        invariant
            i <= rs@.len(),
            first_match(rs@.skip(i as int), audio) == first_match(rs@, audio),
        decreases rs@.len() - i,
    {
        assert(rs@.skip(i as int)[0] == rs@[i as int]);
        assert(rs@.skip(i as int).drop_first() =~= rs@.skip(i + 1));
        let d = decode_slot(rs[i]);
        if d.vendor_id != 0xFFFF {
            let hit = if audio {
                (d.class_code == 0x04 && d.subclass == 0x01) || (d.vendor_id == 0x8086 && d.device_id == 0x2415)
            } else {
                d.class_code == 0x03 || (d.vendor_id == 0x1234 && d.device_id == 0x1111)
            };
            if hit {
                return Some(d);
            }
        }
        i = i + 1;
    }
    None
}

/// The display controller among the scanned slots, if any.
pub fn find_vga_device(rs: &[SlotRegisters]) -> (d: Option<PciDevice>)
    ensures
        d == first_match(rs@, false),
{
    find_device(rs, false)
}

impl PciDevice {
    /// Base-address register `bar_index` (0 to 5) out of the function's
    /// configuration words `config` (the 64 words of its configuration space).
    pub fn read_bar(&self, bar_index: u8, config: &[u32]) -> (v: u32)
        requires
            bar_index < 6,
            config@.len() == 64,
        ensures
            v == config@[(4 + bar_index) as int],
    {
        let offset = 0x10 + bar_index * 4;
        config[(offset / 4) as usize]
    }

    /// The command word to write back to switch on I/O, memory and bus
    /// mastering, given the current command word `command`.
    pub fn enable_bus_master_and_memory(&self, command: u32) -> (v: u32)
        ensures
            v == command | 0x07,
    {
        command | 0x07
    }
}

} // verus!
