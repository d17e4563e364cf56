use vstd::prelude::*;

use crate::pixels::{IMAGE_HEIGHT, IMAGE_WIDTH};

verus! {

pub const TOUCHSCREEN_WIDTH: usize = 4096;

pub const TOUCHSCREEN_HEIGHT: usize = 4096;

/// Whether the pen touches the screen.
#[derive(Clone, Copy, Debug, PartialEq, Eq, Structural)]
pub enum PenState {
    Up,
    Down,
}

/// One report of the touch controller.
#[derive(Clone, Copy, Debug, PartialEq, Eq, Structural)]
pub struct TouchEvent {
    pub x: usize,
    pub y: usize,
    pub pen_state: PenState,
}

/// A rectangle of touchscreen coordinates, bounds included.
#[derive(Clone, Copy, Debug, Default)]
pub struct TouchArea {
    x1: usize,
    x2: usize,
    y1: usize,
    y2: usize,
}

impl TouchArea {
    pub closed spec fn bounds(&self) -> (usize, usize, usize, usize) {
        (self.x1, self.y1, self.x2, self.y2)
    }

    pub open spec fn spec_contains(&self, x: int, y: int) -> bool {
        let (x1, y1, x2, y2) = self.bounds();
        x1 <= x <= x2 && y1 <= y <= y2
    }

    /// The area from corner `c1` to corner `c2`, both included.
    pub fn new(c1: (usize, usize), c2: (usize, usize)) -> (r: Self)
        requires
            c1.0 <= c2.0,
            c2.0 < TOUCHSCREEN_WIDTH,
            c1.1 <= c2.1,
            c2.1 < TOUCHSCREEN_HEIGHT,
        ensures
            r.bounds() == (c1.0, c1.1, c2.0, c2.1),
    {
        TouchArea { x1: c1.0, x2: c2.0, y1: c1.1, y2: c2.1 }
    }

    pub fn contains(&self, x: usize, y: usize) -> (r: bool)
        ensures
            r == self.spec_contains(x as int, y as int),
    {
        self.x1 <= x && x <= self.x2 && self.y1 <= y && y <= self.y2
    }
}

/// The touch area over a rectangle given in display coordinates.
pub fn vga_area(c1: (usize, usize), c2: (usize, usize)) -> (r: TouchArea)
    requires
        c1.0 <= c2.0 < IMAGE_WIDTH,
        c1.1 <= c2.1 < IMAGE_HEIGHT,
    ensures
        r.bounds().0 as int == c1.0 as int * 4096 / 320,
        r.bounds().1 as int == c1.1 as int * 4096 / 240,
        r.bounds().2 as int == c2.0 as int * 4096 / 320,
        r.bounds().3 as int == c2.1 as int * 4096 / 240,
{
    let (x1, y1) = c1;
    let (x2, y2) = c2;
    assert(x1 * 4096 / 320 <= x2 * 4096 / 320 < 4096) by (nonlinear_arith)
        requires
            x1 <= x2 < 320,
    ;
    assert(y1 * 4096 / 240 <= y2 * 4096 / 240 < 4096) by (nonlinear_arith)
        requires
            y1 <= y2 < 240,
    ;
    TouchArea::new(
        (x1 * TOUCHSCREEN_WIDTH / IMAGE_WIDTH, y1 * TOUCHSCREEN_HEIGHT / IMAGE_HEIGHT),
        (x2 * TOUCHSCREEN_WIDTH / IMAGE_WIDTH, y2 * TOUCHSCREEN_HEIGHT / IMAGE_HEIGHT),
    )
}

/// Whether `byte` may stand at position `i` of a controller packet: the
/// first byte has its top bit set, the others have it clear, and the high
/// bytes of the coordinates have their top three bits clear.
pub open spec fn packet_byte_ok_spec(i: int, byte: u8) -> bool {
    if i == 0 {
        byte >= 128
    } else if i == 2 || i == 4 {
        byte < 32
    } else {
        byte < 128
    }
}

pub fn packet_byte_ok(i: usize, byte: u8) -> (r: bool)
    requires
        i < 5,
    ensures
        r == packet_byte_ok_spec(i as int, byte),
{
    let (magic, mask): (u8, u8) = if i == 0 {
        (0x80, 0x80)
    } else if i == 2 || i == 4 {
        (0x00, 0xE0)
    } else {
        (0x00, 0x80)
    };
    let r = (byte ^ magic) & mask == 0;
    assert(((byte ^ 0x80u8) & 0x80u8 == 0) == (byte >= 128)) by (bit_vector);
    assert(((byte ^ 0x00u8) & 0xE0u8 == 0) == (byte < 32)) by (bit_vector);
    assert(((byte ^ 0x00u8) & 0x80u8 == 0) == (byte < 128)) by (bit_vector);
    r
}

/// Assembles controller packets from the bytes read one at a time; a byte
/// out of place drops the packet begun so far.
pub struct PacketReader {
    data: [u8; 5],
    pos: usize,
}

impl PacketReader {
    pub closed spec fn pending(&self) -> Seq<u8> {
        self.data@.subrange(0, self.pos as int)
    }

    pub closed spec fn wf(&self) -> bool {
        self.pos < 5
    }

    pub fn new() -> (r: Self)
        ensures
            r.wf(),
            r.pending() == Seq::<u8>::empty(),
    {
        let r = PacketReader { data: [0u8; 5], pos: 0 };
        assert(r.pending() =~= Seq::<u8>::empty());
        r
    }

    /// Takes the next byte; gives the packet when it completes one.
    pub fn feed(&mut self, byte: u8) -> (r: Option<[u8; 5]>)
        requires
            old(self).wf(),
        ensures
            final(self).wf(),
            !packet_byte_ok_spec(old(self).pending().len() as int, byte) ==> r is None
                && final(self).pending() == Seq::<u8>::empty(),
            packet_byte_ok_spec(old(self).pending().len() as int, byte) ==> {
                let p = old(self).pending().push(byte);
                if p.len() == 5 {
                    r matches Some(packet) && packet@ == p && final(self).pending()
                        == Seq::<u8>::empty()
                } else {
                    r is None && final(self).pending() == p
                }
            },
    {
        if !packet_byte_ok(self.pos, byte) {
            self.pos = 0;
            assert(self.pending() =~= Seq::<u8>::empty());
            return None;
        }
        let ghost p = self.pending().push(byte);
        self.data[self.pos] = byte;
        self.pos = self.pos + 1;
        if self.pos == 5 {
            assert(self.data@ =~= p);
            self.pos = 0;
            assert(self.pending() =~= Seq::<u8>::empty());
            Some(self.data)
        } else {
            assert(self.pending() =~= p);
            None
        }
    }
}

/// Decodes a controller packet: pen state in the first byte, then each
/// coordinate as seven low bits and five high bits.
pub fn decode_event(packet: [u8; 5]) -> (r: TouchEvent)
    ensures
        r.pen_state == (if packet@[0] % 2 == 1 {
            PenState::Down
        } else {
            PenState::Up
        }),
        packet_byte_ok_spec(1, packet@[1]) && packet_byte_ok_spec(2, packet@[2]) ==> r.x
            == packet@[2] * 128 + packet@[1],
        packet_byte_ok_spec(3, packet@[3]) && packet_byte_ok_spec(4, packet@[4]) ==> r.y
            == packet@[4] * 128 + packet@[3],
{
    let pen = packet[0];
    let x_lo = packet[1] as usize;
    let x_hi = packet[2] as usize;
    let y_lo = packet[3] as usize;
    let y_hi = packet[4] as usize;
    assert(x_hi < 256 && x_lo < 256);
    let x = (x_hi << 7usize) | x_lo;
    let y = (y_hi << 7usize) | y_lo;
    assert(x_lo < 128 && x_hi < 32 ==> ((x_hi << 7usize) | x_lo) == x_hi * 128 + x_lo)
        by (bit_vector);
    assert(y_lo < 128 && y_hi < 32 ==> ((y_hi << 7usize) | y_lo) == y_hi * 128 + y_lo)
        by (bit_vector);
    assert((pen & 1 == 1) == (pen % 2 == 1)) by (bit_vector);
    let pen_state = if pen & 1 == 1 {
        PenState::Down
    } else {
        PenState::Up
    };
    TouchEvent { x, y, pen_state }
}

/// The first area that holds both where the pen went down and where it
/// went up.
pub fn touched_area(areas: &[TouchArea], down: (usize, usize), up: (usize, usize)) -> (r: Option<
    usize,
>)
    ensures
        match r {
            Some(i) => {
                &&& i < areas@.len()
                &&& areas@[i as int].spec_contains(down.0 as int, down.1 as int)
                &&& areas@[i as int].spec_contains(up.0 as int, up.1 as int)
                &&& forall|j: int|
                    0 <= j < i ==> !((#[trigger] areas@[j]).spec_contains(
                        down.0 as int,
                        down.1 as int,
                    ) && areas@[j].spec_contains(up.0 as int, up.1 as int))
            },
            None => forall|j: int|
                0 <= j < areas@.len() ==> !((#[trigger] areas@[j]).spec_contains(
                    down.0 as int,
                    down.1 as int,
                ) && areas@[j].spec_contains(up.0 as int, up.1 as int)),
        },
{
    let mut i: usize = 0;
    while i < areas.len()
        invariant
            i <= areas@.len(),
            forall|j: int|
                0 <= j < i ==> !((#[trigger] areas@[j]).spec_contains(
                    down.0 as int,
                    down.1 as int,
                ) && areas@[j].spec_contains(up.0 as int, up.1 as int)),
        decreases areas@.len() - i,
    {
        if areas[i].contains(down.0, down.1) && areas[i].contains(up.0, up.1) {
            return Some(i);
        }
        i = i + 1;
    }
    None
}

/// Follows touch reports to find taps: the pen going down and then up, both
/// inside one area.
pub struct TapDetector {
    pub down_at: Option<(usize, usize)>,
}

impl TapDetector {
    pub fn new() -> (r: Self)
        ensures
            r.down_at is None,
    {
        TapDetector { down_at: None }
    }

    /// Takes the next report; gives the index of the tapped area when a tap
    /// completes inside one.
    pub fn feed(&mut self, event: TouchEvent, areas: &[TouchArea]) -> (r: Option<usize>)
        ensures
            old(self).down_at is None ==> r is None && final(self).down_at == (if event.pen_state
                == PenState::Down {
                Some((event.x, event.y))
            } else {
                None::<(usize, usize)>
            }),
            old(self).down_at matches Some(d) ==> if event.pen_state == PenState::Up {
                &&& final(self).down_at is None
                &&& match r {
                    Some(i) => i < areas@.len() && areas@[i as int].spec_contains(
                        d.0 as int,
                        d.1 as int,
                    ) && areas@[i as int].spec_contains(event.x as int, event.y as int),
                    None => forall|j: int|
                        0 <= j < areas@.len() ==> !((#[trigger] areas@[j]).spec_contains(
                            d.0 as int,
                            d.1 as int,
                        ) && areas@[j].spec_contains(event.x as int, event.y as int)),
                }
            } else {
                r is None && final(self).down_at == old(self).down_at
            },
    {
        match self.down_at {
            None => {
                if event.pen_state == PenState::Down {
                    self.down_at = Some((event.x, event.y));
                }
                None
            },
            Some(d) => {
                if event.pen_state == PenState::Up {
                    self.down_at = None;
                    touched_area(areas, d, (event.x, event.y))
                } else {
                    None
                }
            },
        }
    }
}

} // verus!
