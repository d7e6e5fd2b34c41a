//! The PS/2 mouse: assembling the three-byte movement packets into a
//! pointer position and button state kept on the screen, and queueing the
//! resulting events for the desktop.
use vstd::prelude::*;
use crossbeam_queue::ArrayQueue;
use crate::calculator::div_toward_zero;

verus! {

/// The pointer position and the buttons held.
#[derive(Debug, Clone, Copy, PartialEq, Eq, Structural)]
pub struct MouseState {
    pub x: isize,
    pub y: isize,
    pub left_pressed: bool,
    pub right_pressed: bool,
    pub middle_pressed: bool,
}

/// One completed packet: the new position, the movement and the buttons.
#[derive(Debug, Clone, Copy)]
pub struct MouseEvent {
    pub x: isize,
    pub y: isize,
    pub dx: i32,
    pub dy: i32,
    pub left_pressed: bool,
    pub right_pressed: bool,
}

#[verifier::external_type_specification]
#[verifier::external_body]
#[verifier::reject_recursive_types(T)]
pub struct ExArrayQueue<T>(ArrayQueue<T>);

/// The events a queue holds, oldest first.
pub uninterp spec fn queued(q: ArrayQueue<MouseEvent>) -> Seq<MouseEvent>;

/// The number of events a queue can hold.
pub uninterp spec fn queue_cap(q: ArrayQueue<MouseEvent>) -> nat;

/// `ArrayQueue::new(cap)`. Claimed, as its source shows: an empty queue
/// holding up to `cap` events (it panics for 0 or a capacity whose lap size
/// overflows, which `requires` leaves out).
#[verifier::external_body]
fn new_queue(cap: usize) -> (q: ArrayQueue<MouseEvent>)
    requires
        0 < cap <= usize::MAX / 2,
    ensures
        queued(q) == Seq::<MouseEvent>::empty(),
        queue_cap(q) == cap,
{
    ArrayQueue::new(cap)
}

/// `ArrayQueue::push` with the queue held exclusively. Claimed, as its
/// source shows: when the queue is not full the event goes to the back and
/// the result is true; when it is full nothing changes and the result is
/// false.
#[verifier::external_body]
fn queue_push(q: &mut ArrayQueue<MouseEvent>, e: MouseEvent) -> (ok: bool)
    ensures
        queue_cap(*final(q)) == queue_cap(*old(q)),
        ok == (queued(*old(q)).len() < queue_cap(*old(q))),
        ok ==> queued(*final(q)) == queued(*old(q)).push(e),
        !ok ==> queued(*final(q)) == queued(*old(q)),
{
    q.push(e).is_ok()
}

/// `ArrayQueue::pop` with the queue held exclusively. Claimed, as its
/// source shows: the oldest event leaves and is returned; an empty queue
/// gives `None` and stays empty.
#[verifier::external_body]
fn queue_pop(q: &mut ArrayQueue<MouseEvent>) -> (r: Option<MouseEvent>)
    ensures
        queue_cap(*final(q)) == queue_cap(*old(q)),
        queued(*old(q)).len() == 0 ==> r is None && queued(*final(q)) == queued(*old(q)),
        queued(*old(q)).len() > 0 ==> r == Some(queued(*old(q))[0]) && queued(*final(q)) == queued(*old(q)).drop_first(),
{
    q.pop()
}

/// `ArrayQueue::is_empty`. Claimed: whether the queue holds no event.
#[verifier::external_body]
fn queue_is_empty(q: &ArrayQueue<MouseEvent>) -> (b: bool)
    ensures
        b == (queued(*q).len() == 0),
{
    q.is_empty()
}

/// The events the driver keeps at most.
pub const EVENT_CAPACITY: usize = 1024;

/// The mouse driver's state: pointer, buttons (bit 0 left, 1 right,
/// 2 middle), screen size, the packet being assembled, and the event queue
/// once set up.
pub struct MouseDriver {
    pub x: isize,
    pub y: isize,
    pub buttons: u8,
    pub screen_w: isize,
    pub screen_h: isize,
    pub cycle: u8,
    pub packet: [u8; 3],
    pub events: Option<ArrayQueue<MouseEvent>>,
}

/// A byte read as a two's-complement signed number.
pub open spec fn signed(b: u8) -> int {
    if b < 128 { b as int } else { b as int - 256 }
}

/// Whether bit `k` of `b` is set.
pub open spec fn bit(b: u8, k: nat) -> bool {
    (b as int / vstd::arithmetic::power2::pow2(k) as int) % 2 == 1
}

/// `v` held to `lo..=hi`.
pub open spec fn clamp(v: int, lo: int, hi: int) -> int {
    if v < lo { lo } else if v > hi { hi } else { v }
}

/// The events queued by `d` (none before the queue is set up).
pub open spec fn pending(d: &MouseDriver) -> Seq<MouseEvent> {
    match d.events {
        Some(q) => queued(q),
        None => Seq::empty(),
    }
}

/// The event a completed packet with flags `f`, movement bytes `rx`, `ry`
/// makes from pointer `x`, `y` on a `w` by `h` screen: movement ignored on
/// overflow (bits 6 and 7), upward movement counted downwards on screen,
/// the pointer kept on the screen, buttons from bits 0 and 1.
pub open spec fn packet_event(f: u8, rx: u8, ry: u8, x: isize, y: isize, w: isize, h: isize) -> MouseEvent {
    let dx: int = if bit(f, 6) { 0 } else { signed(rx) };
    let dy: int = if bit(f, 7) { 0 } else { signed(ry) };
    MouseEvent {
        x: clamp(x + dx, 0, w - 1) as isize,
        y: clamp(y - dy, 0, h - 1) as isize,
        dx: dx as i32,
        dy: (-dy) as i32,
        left_pressed: bit(f, 0),
        right_pressed: bit(f, 1),
    }
}

impl MouseDriver {
    /// The pointer stays on a screen at least one pixel wide and high.
    pub open spec fn wf(&self) -> bool {
        &&& 1 <= self.screen_w <= 0x3FFF_FFFF
        &&& 1 <= self.screen_h <= 0x3FFF_FFFF
        &&& 0 <= self.x < self.screen_w
        &&& 0 <= self.y < self.screen_h
        &&& self.cycle <= 2
        &&& match self.events {
            Some(q) => queue_cap(q) == 1024 && queued(q).len() <= 1024,
            None => true,
        }
    }

    /// The driver before setup: pointer at (400, 300) on 800 by 600, no
    /// buttons, no packet, no queue.
    pub fn new() -> (d: MouseDriver)
        ensures
            d.wf(),
            d.x == 400 && d.y == 300,
            d.buttons == 0,
            d.screen_w == 800 && d.screen_h == 600,
            d.cycle == 0,
            d.events is None,
    {
        MouseDriver { x: 400, y: 300, buttons: 0, screen_w: 800, screen_h: 600, cycle: 0, packet: [0u8; 3], events: None }
    }

    /// Sets up the driver for a `width` by `height` screen: the pointer in
    /// the middle and an empty queue for 1024 events (the host then
    /// switches the mouse on).
    pub fn init(&mut self, width: isize, height: isize)
        ensures
            final(self).screen_w == width && final(self).screen_h == height,
            final(self).x == div_toward_zero(width as int, 2) && final(self).y == div_toward_zero(height as int, 2),
            final(self).buttons == old(self).buttons,
            final(self).cycle == old(self).cycle,
            match old(self).events {
                Some(q) => final(self).events == Some(q),
                None => final(self).events is Some && queued(final(self).events->0) == Seq::<MouseEvent>::empty()
                    && queue_cap(final(self).events->0) == 1024,
            },
    {
        set_screen_bounds(self, width, height);
        if self.events.is_none() {
            self.events = Some(new_queue(EVENT_CAPACITY));
        }
    }
}

/// Sets the screen size and centers the pointer.
pub fn set_screen_bounds(d: &mut MouseDriver, width: isize, height: isize)
    ensures
        final(d).screen_w == width && final(d).screen_h == height,
        final(d).x == div_toward_zero(width as int, 2) && final(d).y == div_toward_zero(height as int, 2),
        final(d).buttons == old(d).buttons,
        final(d).cycle == old(d).cycle,
        final(d).packet == old(d).packet,
        final(d).events == old(d).events,
{
    d.screen_w = width;
    d.screen_h = height;
    d.x = width / 2;
    d.y = height / 2;
}

/// The pointer position and buttons.
pub fn get_mouse_state(d: &MouseDriver) -> (s: MouseState)
    ensures
        s == (MouseState {
            x: d.x,
            y: d.y,
            left_pressed: bit(d.buttons, 0),
            right_pressed: bit(d.buttons, 1),
            middle_pressed: bit(d.buttons, 2),
        }),
{
    let b = d.buttons;
    assert(b & 0x01 != 0 <==> (b as int / 1) % 2 == 1) by (bit_vector);
    assert(b & 0x02 != 0 <==> (b as int / 2) % 2 == 1) by (bit_vector);
    assert(b & 0x04 != 0 <==> (b as int / 4) % 2 == 1) by (bit_vector);
    proof {
        vstd::arithmetic::power2::lemma2_to64();
    }
    MouseState {
        x: d.x,
        y: d.y,
        left_pressed: b & 0x01 != 0,
        right_pressed: b & 0x02 != 0,
        middle_pressed: b & 0x04 != 0,
    }
}

/// The oldest queued event, taken from the queue.
pub fn pop_mouse_event(d: &mut MouseDriver) -> (e: Option<MouseEvent>)
    ensures
        pending(old(d)).len() == 0 ==> e is None,
        pending(old(d)).len() > 0 ==> e == Some(pending(old(d))[0]),
        pending(final(d)) == if pending(old(d)).len() > 0 { pending(old(d)).drop_first() } else { pending(old(d)) },
        final(d).x == old(d).x && final(d).y == old(d).y && final(d).buttons == old(d).buttons,
        final(d).screen_w == old(d).screen_w && final(d).screen_h == old(d).screen_h,
        final(d).cycle == old(d).cycle && final(d).packet == old(d).packet,
        old(d).events is Some <==> final(d).events is Some,
        old(d).wf() ==> final(d).wf(),
{
    match &mut d.events {
        Some(q) => queue_pop(q),
        None => None,
    }
}

/// Whether an event is queued.
pub fn has_events(d: &MouseDriver) -> (b: bool)
    ensures
        b == (pending(d).len() > 0),
{
    match &d.events {
        Some(q) => !queue_is_empty(q),
        None => false,
    }
}

/// Takes the next byte from the mouse. The first byte of a packet must have
/// bit 3 set (others are skipped); the third completes the packet, which
/// moves the pointer, sets the buttons and queues the event (dropped when
/// the queue is full).
pub fn process_packet_byte(d: &mut MouseDriver, byte: u8)
    requires
        old(d).wf(),
    ensures
        final(d).wf(),
        final(d).screen_w == old(d).screen_w && final(d).screen_h == old(d).screen_h,
        old(d).events is Some <==> final(d).events is Some,
        old(d).cycle == 0 ==> {
            &&& final(d).cycle == (if bit(byte, 3) { 1u8 } else { 0u8 })
            &&& final(d).packet@ == if bit(byte, 3) { old(d).packet@.update(0, byte) } else { old(d).packet@ }
            &&& final(d).x == old(d).x && final(d).y == old(d).y && final(d).buttons == old(d).buttons
            &&& pending(final(d)) == pending(old(d))
        },
        old(d).cycle == 1 ==> {
            &&& final(d).cycle == 2
            &&& final(d).packet@ == old(d).packet@.update(1, byte)
            &&& final(d).x == old(d).x && final(d).y == old(d).y && final(d).buttons == old(d).buttons
            &&& pending(final(d)) == pending(old(d))
        },
        old(d).cycle == 2 ==> {
            let f = old(d).packet@[0];
            let e = packet_event(f, old(d).packet@[1], byte, old(d).x, old(d).y, old(d).screen_w, old(d).screen_h);
            &&& final(d).cycle == 0
            &&& final(d).packet@ == old(d).packet@.update(2, byte)
            &&& final(d).x == e.x && final(d).y == e.y
            &&& final(d).buttons == (f % 8) as u8
            &&& pending(final(d)) == if old(d).events is Some && pending(old(d)).len() < 1024 {
                pending(old(d)).push(e)
            } else {
                pending(old(d))
            }
        },
{
    proof {
        vstd::arithmetic::power2::lemma2_to64();
    }
    if d.cycle == 0 {
        assert(byte & 0x08 != 0 <==> (byte as int / 8) % 2 == 1) by (bit_vector);
        if byte & 0x08 != 0 {
            d.packet[0] = byte;
            d.cycle = 1;
        }
    } else if d.cycle == 1 {
        d.packet[1] = byte;
        d.cycle = 2;
    } else {
        d.packet[2] = byte;
        d.cycle = 0;
        let flags = d.packet[0];
        let raw_x = d.packet[1];
        let raw_y = d.packet[2];
        assert(flags & 0x40 != 0 <==> (flags as int / 64) % 2 == 1) by (bit_vector);
        assert(flags & 0x80 != 0 <==> (flags as int / 128) % 2 == 1) by (bit_vector);
        assert(flags & 0x01 != 0 <==> (flags as int / 1) % 2 == 1) by (bit_vector);
        assert(flags & 0x02 != 0 <==> (flags as int / 2) % 2 == 1) by (bit_vector);
        assert(flags & 0x04 != 0 <==> (flags as int / 4) % 2 == 1) by (bit_vector);
        let dx: i32 = if flags & 0x40 != 0 { 0 } else { if raw_x < 128 { raw_x as i32 } else { raw_x as i32 - 256 } };
        let dy: i32 = if flags & 0x80 != 0 { 0 } else { if raw_y < 128 { raw_y as i32 } else { raw_y as i32 - 256 } };
        let dy_screen = -dy;
        let w = d.screen_w;
        let h = d.screen_h;
        let nx0 = d.x + dx as isize;
        let ny0 = d.y + dy_screen as isize;
        let new_x = if nx0 < 0 { 0 } else if nx0 > w - 1 { w - 1 } else { nx0 };
        let new_y = if ny0 < 0 { 0 } else if ny0 > h - 1 { h - 1 } else { ny0 };
        let left_pressed = flags & 0x01 != 0;
        let right_pressed = flags & 0x02 != 0;
        let middle_pressed = flags & 0x04 != 0;
        assert(flags & 0x07 == flags % 8) by (bit_vector);
        let btn = flags & 0x07;
        d.x = new_x;
        d.y = new_y;
        d.buttons = btn;
        let event = MouseEvent { x: new_x, y: new_y, dx, dy: dy_screen, left_pressed, right_pressed };
        match &mut d.events {
            Some(q) => {
                let _ = queue_push(q, event);
            },
            None => {},
        }
    }
}

} // verus!
