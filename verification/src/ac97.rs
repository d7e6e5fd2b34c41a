//! The AC97 audio codec's bookkeeping: the base ports from the PCI
//! registers, and the 32-entry ring of buffer descriptors the DMA engine
//! plays from.
use vstd::prelude::*;
use crate::pci::{find_device, first_match, PciDevice, SlotRegisters};

verus! {

/// Descriptors in the ring.
pub const BDL_ENTRIES: usize = 32;

/// 16-bit samples one descriptor's page holds (576 stereo frames).
pub const SAMPLES_PER_BD: usize = 1152;

/// A DMA buffer descriptor: the page's physical address and, in the low 16
/// bits of `ctl_len`, its number of samples.
#[derive(Debug, Clone, Copy, PartialEq, Eq, Structural)]
pub struct BufferDescriptor {
    pub addr: u32,
    pub ctl_len: u32,
}

/// An initialized codec.
pub struct Ac97Device {
    pub pci_dev: PciDevice,
    /// Mixer base port.
    pub nambar: u16,
    /// Bus-master base port.
    pub nabmbar: u16,
    pub bdl_phys: u32,
    pub page_phys: [u32; 32],
    pub next_desc: usize,
    pub is_running: bool,
    pub current_sample_rate: u32,
}

/// The codec driver: the device, once found and set up.
pub struct Ac97Driver {
    pub device: Option<Ac97Device>,
}

/// Descriptors queued but not yet played, with the hardware at `civ`.
pub open spec fn in_flight_of(next: int, civ: int) -> int {
    (next + 32 - civ % 32) % 32
}

/// The audio controller among the scanned slots, if any.
pub fn find_ac97_device(rs: &[SlotRegisters]) -> (d: Option<PciDevice>)
    ensures
        d == first_match(rs@, true),
{
    find_device(rs, true)
}

/// The mixer and bus-master ports from base-address registers 0 and 1
/// (low two bits cleared, kept to 16 bits); `None` when either is 0.
pub fn base_ports(bar0: u32, bar1: u32) -> (r: Option<(u16, u16)>)
    ensures
        r == if ((bar0 - bar0 % 4) as int) % 65536 == 0 || ((bar1 - bar1 % 4) as int) % 65536 == 0 {
            None
        } else {
            Some(((((bar0 - bar0 % 4) as int) % 65536) as u16, (((bar1 - bar1 % 4) as int) % 65536) as u16))
        },
{
    assert(bar0 & 0xFFFF_FFFC == bar0 - bar0 % 4) by (bit_vector);
    assert(bar1 & 0xFFFF_FFFC == bar1 - bar1 % 4) by (bit_vector);
    let a = bar0 & 0xFFFF_FFFC;
    let b = bar1 & 0xFFFF_FFFC;
    assert((a as u16) == a % 65536) by (bit_vector);
    assert((b as u16) == b % 65536) by (bit_vector);
    let nambar = a as u16;
    let nabmbar = b as u16;
    if nambar == 0 || nabmbar == 0 {
        None
    } else {
        Some((nambar, nabmbar))
    }
}

/// The ring's descriptors before any sound: each page's address, no samples.
pub fn initial_descriptors(page_phys: &[u32; 32]) -> (ds: Vec<BufferDescriptor>)
    ensures
        ds@.len() == 32,
        forall|i: int| 0 <= i < 32 ==> #[trigger] ds@[i] == (BufferDescriptor { addr: page_phys@[i], ctl_len: 0 }),
{
    let mut ds: Vec<BufferDescriptor> = Vec::new();
    let mut i: usize = 0;
    while i < 32
        invariant
            i <= 32,
            page_phys@.len() == 32,
            ds@.len() == i,
            forall|j: int| 0 <= j < i ==> #[trigger] ds@[j] == (BufferDescriptor { addr: page_phys@[j], ctl_len: 0 }),
        decreases 32 - i,
    {
        ds.push(BufferDescriptor { addr: page_phys[i], ctl_len: 0 });
        i = i + 1;
    }
    ds
}

/// What the host must write after queueing descriptors.
#[derive(Debug, Clone, Copy, PartialEq, Eq, Structural)]
pub enum StartAction {
    /// Nothing more.
    Idle,
    /// Clear the status bits (write `status & 0x1E`) and set the run bit.
    ClearAndRun,
    /// Clear the status bits of a halted, running channel.
    ClearStatus,
}

impl Ac97Device {
    /// A freshly set-up codec at 44.1 kHz, idle, at descriptor 0.
    pub fn new(pci_dev: PciDevice, nambar: u16, nabmbar: u16, bdl_phys: u32, page_phys: [u32; 32]) -> (d: Ac97Device)
        ensures
            d.pci_dev == pci_dev,
            d.nambar == nambar,
            d.nabmbar == nabmbar,
            d.bdl_phys == bdl_phys,
            d.page_phys == page_phys,
            d.next_desc == 0,
            !d.is_running,
            d.current_sample_rate == 44100,
    {
        Ac97Device { pci_dev, nambar, nabmbar, bdl_phys, page_phys, next_desc: 0, is_running: false, current_sample_rate: 44100 }
    }

    /// Descriptors queued but not yet played, with the hardware at `civ`
    /// (its low five bits).
    pub fn in_flight(&self, civ: u8) -> (n: usize)
        requires
            self.next_desc < 32,
        ensures
            n == in_flight_of(self.next_desc as int, (civ % 32) as int),
    {
        assert(civ & 0x1F == civ % 32) by (bit_vector);
        let c = (civ & 0x1F) as usize;
        (self.next_desc + BDL_ENTRIES - c) % BDL_ENTRIES
    }

    /// Takes the next descriptor for up to `remaining` samples, unless 26 or
    /// more are in flight: its index and sample count (at most 1152); the
    /// ring moves on by one.
    pub fn claim_descriptor(&mut self, civ: u8, remaining: usize) -> (r: Option<(usize, usize)>)
        requires
            old(self).next_desc < 32,
        ensures
            final(self).next_desc < 32,
            final(self).pci_dev == old(self).pci_dev,
            final(self).is_running == old(self).is_running,
            final(self).current_sample_rate == old(self).current_sample_rate,
            if in_flight_of(old(self).next_desc as int, (civ % 32) as int) >= 26 {
                r is None && final(self).next_desc == old(self).next_desc
            } else {
                &&& r == Some((old(self).next_desc, if remaining < 1152 { remaining } else { 1152usize }))
                &&& final(self).next_desc == (old(self).next_desc + 1) % 32
            },
    {
        let n = self.in_flight(civ);
        if n >= 26 {
            return None;
        }
        let idx = self.next_desc;
        let count = if remaining < SAMPLES_PER_BD { remaining } else { SAMPLES_PER_BD };
        self.next_desc = (self.next_desc + 1) % BDL_ENTRIES;
        Some((idx, count))
    }

    /// After queueing: an idle channel starts once 4 descriptors are in
    /// flight or everything was queued; a running channel halted on
    /// underrun (status bit 0) has its status cleared.
    pub fn start_action(&mut self, control: u8, status: u16, civ: u8, all_queued: bool) -> (a: StartAction)
        requires
            old(self).next_desc < 32,
        ensures
            final(self).next_desc == old(self).next_desc,
            final(self).pci_dev == old(self).pci_dev,
            final(self).current_sample_rate == old(self).current_sample_rate,
            control % 2 == 0 ==> if in_flight_of(old(self).next_desc as int, (civ % 32) as int) >= 4 || all_queued {
                a == StartAction::ClearAndRun && final(self).is_running
            } else {
                a == StartAction::Idle && final(self).is_running == old(self).is_running
            },
            control % 2 == 1 ==> final(self).is_running == old(self).is_running
                && a == if status % 2 == 1 { StartAction::ClearStatus } else { StartAction::Idle },
    {
        assert(control & 0x01 == 0 <==> control % 2 == 0) by (bit_vector);
        assert(status & 0x01 != 0 <==> status % 2 == 1) by (bit_vector);
        if control & 0x01 == 0 {
            let n = self.in_flight(civ);
            if n >= 4 || all_queued {
                self.is_running = true;
                StartAction::ClearAndRun
            } else {
                StartAction::Idle
            }
        } else if status & 0x01 != 0 {
            StartAction::ClearStatus
        } else {
            StartAction::Idle
        }
    }
}

impl Ac97Driver {
    /// No codec.
    pub fn new() -> (d: Ac97Driver)
        ensures
            d.device is None,
    {
        Ac97Driver { device: None }
    }
}

/// Whether a codec was found and set up.
pub fn is_available(drv: &Ac97Driver) -> (b: bool)
    ensures
        b == drv.device is Some,
{
    drv.device.is_some()
}

/// Whether the ring has room: fewer than 24 descriptors in flight with
/// the hardware at `civ` (false without a codec).
pub fn can_write(drv: &Ac97Driver, civ: u8) -> (b: bool)
    requires
        drv.device is Some ==> drv.device->0.next_desc < 32,
    ensures
        b == match drv.device {
            Some(d) => in_flight_of(d.next_desc as int, (civ % 32) as int) < 24,
            None => false,
        },
{
    match &drv.device {
        Some(d) => d.in_flight(civ) < 24,
        None => false,
    }
}

/// Marks playback as running.
pub fn start_playback(drv: &mut Ac97Driver)
    ensures
        match old(drv).device {
            Some(d) => final(drv).device == Some(Ac97Device { is_running: true, ..d }),
            None => final(drv).device is None,
        },
{
    match &mut drv.device {
        Some(d) => {
            d.is_running = true;
        },
        None => {},
    }
}

/// Marks playback as paused (the host clears the run bit).
pub fn pause_playback(drv: &mut Ac97Driver)
    ensures
        match old(drv).device {
            Some(d) => final(drv).device == Some(Ac97Device { is_running: false, ..d }),
            None => final(drv).device is None,
        },
{
    match &mut drv.device {
        Some(d) => {
            d.is_running = false;
        },
        None => {},
    }
}

/// Marks playback as stopped with the ring back at descriptor 0 (the host
/// resets the channel).
pub fn stop_playback(drv: &mut Ac97Driver)
    ensures
        match old(drv).device {
            Some(d) => final(drv).device == Some(Ac97Device { is_running: false, next_desc: 0, ..d }),
            None => final(drv).device is None,
        },
{
    match &mut drv.device {
        Some(d) => {
            d.next_desc = 0;
            d.is_running = false;
        },
        None => {},
    }
}

/// Records sample rate `rate`; says whether it changed (the host then
/// programs the codec and, while running, restarts the channel).
pub fn set_sample_rate(drv: &mut Ac97Driver, rate: u32) -> (changed: bool)
    ensures
        match old(drv).device {
            Some(d) => {
                &&& changed == (d.current_sample_rate != rate)
                &&& final(drv).device == Some(Ac97Device { current_sample_rate: rate, ..d })
            },
            None => !changed && final(drv).device is None,
        },
{
    match &mut drv.device {
        Some(d) => {
            let changed = d.current_sample_rate != rate;
            d.current_sample_rate = rate;
            changed
        },
        None => false,
    }
}

/// Whether a write of `written` samples counts as a written chunk.
pub fn write_pcm_chunk(written: usize) -> (b: bool)
    ensures
        b == (written > 0),
{
    written > 0
}

} // verus!
