//! Pointer shapes that come with captured frames.
use crate::cursor::ids::{write_u32, write_u64};
use std::collections::hash_map::DefaultHasher;
use std::hash::Hasher;
use vstd::prelude::*;

verus! {

/// Set in the identifiers of these shapes, which are then no handles of the
/// system.
pub const CURSOR_ID_FLAG: u64 = 0x8000_0000_0000_0000;

/// A shape of two planes of single bits, one above the other.
pub const MONOCHROME: u32 = 1;

pub const COLOR: u32 = 2;

pub const MASKED_COLOR: u32 = 4;

pub const INVALID_SHAPE: &'static str = "Invalid DXGI cursor shape";

/// What comes with the pixels of a shape.
#[derive(Clone, Copy, Debug, PartialEq, Eq, Structural)]
pub struct ShapeInfo {
    pub kind: u32,
    pub width: u32,
    /// The rows of all planes.
    pub height: u32,
    /// The bytes of a row.
    pub pitch: u32,
    pub hot_x: i32,
    pub hot_y: i32,
}

impl ShapeInfo {
    /// The rows of one plane.
    pub open spec fn rows(self) -> int {
        if self.kind == MONOCHROME {
            self.height as int / 2
        } else {
            self.height as int
        }
    }

    /// The least number of bytes of a row.
    pub open spec fn least_pitch(self) -> int {
        if self.kind == MONOCHROME {
            (self.width + 7) / 8
        } else {
            self.width * 4
        }
    }

    /// These are the dimensions of a shape with so many bytes of pixels.
    pub open spec fn describes(self, bytes: nat) -> bool {
        &&& self.kind == MONOCHROME || self.kind == COLOR || self.kind == MASKED_COLOR
        &&& self.kind == MONOCHROME ==> self.height % 2 == 0
        &&& 0 < self.width <= i32::MAX
        &&& 0 < self.rows()
        &&& self.height <= i32::MAX
        &&& self.least_pitch() <= self.pitch <= i32::MAX
        &&& self.least_pitch() <= u32::MAX
        &&& self.pitch * self.height == bytes
        &&& 0 <= self.hot_x < self.width
        &&& 0 <= self.hot_y < self.rows()
    }
}

/// A pointer's shape. Its density is given by the bit pattern of the number.
#[derive(Debug)]
pub struct Shape {
    pub id: u64,
    pub scale_bits: u64,
    pub kind: u32,
    pub width: u32,
    /// The rows of one plane.
    pub height: u32,
    pub pitch: u32,
    pub hotspot: (i32, i32),
    /// All planes.
    pub pixels: Vec<u8>,
}

/// The identifier for a hash.
pub fn flagged_id(hash: u64) -> (r: u64)
    ensures
        r == hash | CURSOR_ID_FLAG,
        r >= CURSOR_ID_FLAG,
{
    let id: u64 = hash | CURSOR_ID_FLAG;
    assert(id >= 0x8000_0000_0000_0000) by (bit_vector)
        requires
            id == hash | 0x8000_0000_0000_0000,
    ;
    id
}

impl Shape {
    /// A shape of these pixels, without an identifier and a density yet.
    pub fn new(info: ShapeInfo, pixels: Vec<u8>) -> (r: Result<Shape, &'static str>)
        ensures
            match r {
                Ok(shape) => {
                    &&& info.describes(pixels@.len())
                    &&& shape.id == 0
                    &&& shape.scale_bits == 0
                    &&& shape.kind == info.kind
                    &&& shape.width == info.width
                    &&& shape.height == info.rows()
                    &&& shape.pitch == info.pitch
                    &&& shape.hotspot == (info.hot_x, info.hot_y)
                    &&& shape.pixels@ == pixels@
                },
                Err(e) => !info.describes(pixels@.len()) && e == INVALID_SHAPE,
            },
    {
        let height: u32;
        let least_pitch: u64;
        if info.kind == MONOCHROME && info.height % 2 == 0 {
            height = info.height / 2;
            least_pitch = (info.width as u64 + 7) / 8;
        } else if info.kind == COLOR || info.kind == MASKED_COLOR {
            height = info.height;
            least_pitch = info.width as u64 * 4;
            if least_pitch > u32::MAX as u64 {
                return Err(INVALID_SHAPE);
            }
        } else {
            return Err(INVALID_SHAPE);
        }
        assert(info.pitch * info.height <= 0xffff_ffff * 0xffff_ffff) by (nonlinear_arith)
            requires
                info.pitch <= 0xffff_ffff,
                info.height <= 0xffff_ffff,
        ;
        let length: u64 = info.pitch as u64 * info.height as u64;
        if info.width == 0 || height == 0 || info.width > i32::MAX as u32 || info.height
            > i32::MAX as u32 || info.pitch > i32::MAX as u32 || (info.pitch as u64) < least_pitch
            || length != pixels.len() as u64 || info.hot_x < 0 || info.hot_x as u32 >= info.width
            || info.hot_y < 0 || info.hot_y as u32 >= height {
            return Err(INVALID_SHAPE);
        }
        Ok(
            Shape {
                id: 0,
                scale_bits: 0,
                kind: info.kind,
                width: info.width,
                height,
                pitch: info.pitch,
                hotspot: (info.hot_x, info.hot_y),
                pixels,
            },
        )
    }

    /// What the identifier of the shape with a density is made from.
    pub open spec fn writes(self, scale_bits: u64) -> Seq<Seq<u8>> {
        seq![
            vstd::bytes::spec_u32_to_le_bytes(self.kind),
            vstd::bytes::spec_u32_to_le_bytes(self.width),
            vstd::bytes::spec_u32_to_le_bytes(self.height),
            vstd::bytes::spec_u32_to_le_bytes(self.pitch),
            vstd::bytes::spec_u32_to_le_bytes(self.hotspot.0 as u32),
            vstd::bytes::spec_u32_to_le_bytes(self.hotspot.1 as u32),
            vstd::bytes::spec_u64_to_le_bytes(self.pixels@.len() as u64),
            self.pixels@,
            vstd::bytes::spec_u64_to_le_bytes(scale_bits),
        ]
    }

    /// The shape with a density, and with the identifier of both.
    pub fn with_scale(self, scale_bits: u64) -> (r: Shape)
        ensures
            r.id == crate::cursor::ids::hash_of(self.writes(scale_bits)) | CURSOR_ID_FLAG,
            r.id >= CURSOR_ID_FLAG,
            r.scale_bits == scale_bits,
            r.kind == self.kind,
            r.width == self.width,
            r.height == self.height,
            r.pitch == self.pitch,
            r.hotspot == self.hotspot,
            r.pixels == self.pixels,
    {
        let mut hasher = DefaultHasher::new();
        write_u32(&mut hasher, self.kind);
        write_u32(&mut hasher, self.width);
        write_u32(&mut hasher, self.height);
        write_u32(&mut hasher, self.pitch);
        write_u32(&mut hasher, self.hotspot.0 as u32);
        write_u32(&mut hasher, self.hotspot.1 as u32);
        write_u64(&mut hasher, self.pixels.len() as u64);
        hasher.write(self.pixels.as_slice());
        write_u64(&mut hasher, scale_bits);
        assert(hasher@ =~= self.writes(scale_bits));
        let hash: u64 = hasher.finish();
        Shape {
            id: flagged_id(hash),
            scale_bits,
            kind: self.kind,
            width: self.width,
            height: self.height,
            pitch: self.pitch,
            hotspot: self.hotspot,
            pixels: self.pixels,
        }
    }
}

impl Shape {
    /// Both shapes have the same contents.
    pub open spec fn same_as(self, other: Shape) -> bool {
        &&& self.id == other.id
        &&& self.scale_bits == other.scale_bits
        &&& self.kind == other.kind
        &&& self.width == other.width
        &&& self.height == other.height
        &&& self.pitch == other.pitch
        &&& self.hotspot == other.hotspot
        &&& self.pixels@ == other.pixels@
    }

    /// Another shape of the same contents.
    pub fn duplicate(&self) -> (r: Shape)
        ensures
            r.same_as(*self),
    {
        let mut pixels: Vec<u8> = Vec::new();
        let mut i: usize = 0;
        while i < self.pixels.len()
            invariant
                i <= self.pixels.len(),
                pixels@ == self.pixels@.take(i as int),
            decreases self.pixels.len() - i,
        {
            pixels.push(self.pixels[i]);
            i = i + 1;
            assert(self.pixels@.take(i as int) =~= self.pixels@.take(i - 1).push(
                self.pixels@[i - 1],
            ));
        }
        assert(self.pixels@.take(i as int) =~= self.pixels@);
        Shape {
            id: self.id,
            scale_bits: self.scale_bits,
            kind: self.kind,
            width: self.width,
            height: self.height,
            pitch: self.pitch,
            hotspot: self.hotspot,
            pixels,
        }
    }
}

/// The shape in a buffer of which the first `required` bytes are used.
pub fn shape_from_buffer(info: ShapeInfo, buffer: Vec<u8>, required: u32) -> (r: Result<
    Shape,
    &'static str,
>)
    ensures
        match r {
            Ok(shape) => required <= buffer@.len() && info.describes(required as nat)
                && shape.pixels@ == buffer@.take(required as int) && shape.width == info.width
                && shape.height == info.rows() && shape.kind == info.kind && shape.pitch
                == info.pitch && shape.hotspot == (info.hot_x, info.hot_y) && shape.id == 0
                && shape.scale_bits == 0,
            Err(e) => e == INVALID_SHAPE && (required > buffer@.len() || !info.describes(
                required as nat,
            )),
        },
{
    if required as u64 > buffer.len() as u64 {
        return Err(INVALID_SHAPE);
    }
    let mut pixels = buffer;
    pixels.truncate(required as usize);
    assert(pixels@ =~= buffer@.take(required as int));
    Shape::new(info, pixels)
}

/// What is known of the pointer on a monitor.
#[derive(Debug)]
pub enum Snapshot {
    /// Nothing captures the monitor.
    Unavailable,
    /// No shape has come yet.
    Pending,
    Ready(Shape),
    Failed(String),
}

impl Snapshot {
    /// Both snapshots have the same contents.
    pub open spec fn same_as(self, other: Snapshot) -> bool {
        match (self, other) {
            (Snapshot::Unavailable, Snapshot::Unavailable) => true,
            (Snapshot::Pending, Snapshot::Pending) => true,
            (Snapshot::Ready(a), Snapshot::Ready(b)) => a.same_as(b),
            (Snapshot::Failed(a), Snapshot::Failed(b)) => a@ == b@,
            _ => false,
        }
    }

    /// Another snapshot of the same contents.
    pub fn duplicate(&self) -> (r: Snapshot)
        ensures
            r.same_as(*self),
    {
        match self {
            Snapshot::Unavailable => Snapshot::Unavailable,
            Snapshot::Pending => Snapshot::Pending,
            Snapshot::Ready(shape) => Snapshot::Ready(shape.duplicate()),
            Snapshot::Failed(error) => Snapshot::Failed(error.clone()),
        }
    }
}

/// A capture of a monitor.
#[derive(Debug)]
pub struct Capture {
    /// The number of the capture.
    pub number: u64,
    pub monitor: usize,
    pub active: bool,
    /// When the snapshot came, in ticks of a clock.
    pub updated: u64,
    pub snapshot: Snapshot,
}

/// The place of a capture among others.
pub open spec fn place_of(list: Seq<Capture>, number: u64) -> Option<int>
    decreases list.len(),
{
    if list.len() == 0 {
        None
    } else if list.last().number == number {
        Some(list.len() - 1)
    } else {
        place_of(list.drop_last(), number)
    }
}

/// The place of the active capture of a monitor that was updated last, and of
/// those the one that became active last.
pub open spec fn latest(list: Seq<Capture>, monitor: usize) -> Option<int>
    decreases list.len(),
{
    if list.len() == 0 {
        None
    } else {
        let front = latest(list.drop_last(), monitor);
        let last = list.last();
        if last.active && last.monitor == monitor && (front matches Some(i) ==> list[i].updated
            <= last.updated) {
            Some(list.len() - 1)
        } else {
            front
        }
    }
}

/// A snapshot is that of a capture whose update is the newest on the monitor; none
/// is there only where nothing captures the monitor.
pub proof fn law_snapshot_is_the_newest(list: Seq<Capture>, monitor: usize)
    ensures
        match latest(list, monitor) {
            Some(i) => 0 <= i < list.len() && list[i].active && list[i].monitor == monitor && (
            forall|k: int|
                0 <= k < list.len() && (#[trigger] list[k]).active && list[k].monitor == monitor
                    ==> list[k].updated <= list[i].updated),
            None => forall|k: int|
                0 <= k < list.len() && (#[trigger] list[k]).active ==> list[k].monitor != monitor,
        },
    decreases list.len(),
{
    if list.len() > 0 {
        law_snapshot_is_the_newest(list.drop_last(), monitor);
        assert forall|k: int| 0 <= k < list.len() - 1 implies #[trigger] list[k]
            == list.drop_last()[k] by {}
    }
}

/// The captures once one was made active: it comes last, unless it was active before.
pub open spec fn activated(list: Seq<Capture>, number: u64) -> Seq<Capture> {
    match place_of(list, number) {
        Some(i) if !list[i].active => list.remove(i).push(Capture { active: true, ..list[i] }),
        _ => list,
    }
}

/// The captures once one was made inactive.
pub open spec fn deactivated(list: Seq<Capture>, number: u64) -> Seq<Capture> {
    match place_of(list, number) {
        Some(i) => list.update(i, Capture { active: false, ..list[i] }),
        None => list,
    }
}

/// The captures once one has another snapshot.
pub open spec fn shown(
    list: Seq<Capture>,
    number: u64,
    snapshot: Snapshot,
    now: u64,
) -> Seq<Capture> {
    match place_of(list, number) {
        Some(i) => list.update(i, Capture { updated: now, snapshot, ..list[i] }),
        None => list,
    }
}

/// All captures, in the order in which they became active.
#[derive(Debug)]
pub struct Captures {
    pub list: Vec<Capture>,
    pub next_number: u64,
}

impl Captures {
    pub fn new() -> (r: Captures)
        ensures
            r.list@.len() == 0,
            r.next_number == 0,
    {
        Captures { list: Vec::new(), next_number: 0 }
    }

    fn find(&self, number: u64) -> (r: Option<usize>)
        ensures
            match r {
                Some(i) => place_of(self.list@, number) == Some(i as int) && i < self.list@.len(),
                None => place_of(self.list@, number) is None,
            },
    {
        let mut i: usize = self.list.len();
        assert(self.list@.take(i as int) =~= self.list@);
        while i > 0
            invariant
                i <= self.list.len(),
                place_of(self.list@, number) == place_of(self.list@.take(i as int), number),
            decreases i,
        {
            assert(self.list@.take(i as int).drop_last() =~= self.list@.take(i - 1));
            assert(self.list@.take(i as int).last() == self.list@[i - 1]);
            if self.list[i - 1].number == number {
                return Some(i - 1);
            }
            i = i - 1;
        }
        None
    }

    /// Begins an active capture of a monitor and returns its number.
    pub fn begin(&mut self, monitor: usize, now: u64) -> (r: u64)
        requires
            old(self).next_number < u64::MAX,
        ensures
            r == old(self).next_number,
            final(self).next_number == r + 1,
            final(self).list@ == old(self).list@.push(
                Capture {
                    number: r,
                    monitor,
                    active: true,
                    updated: now,
                    snapshot: Snapshot::Pending,
                },
            ),
    {
        let number = self.next_number;
        self.list.push(
            Capture { number, monitor, active: true, updated: now, snapshot: Snapshot::Pending },
        );
        self.next_number = number + 1;
        number
    }

    /// Makes a capture active. One that is active stays where it is.
    pub fn activate(&mut self, number: u64)
        ensures
            final(self).list@ == activated(old(self).list@, number),
            final(self).next_number == old(self).next_number,
            match place_of(old(self).list@, number) {
                Some(i) if !old(self).list@[i].active => {
                    let c = old(self).list@[i];
                    final(self).list@ == old(self).list@.remove(i).push(
                        Capture {
                            number: c.number,
                            monitor: c.monitor,
                            active: true,
                            updated: c.updated,
                            snapshot: c.snapshot,
                        },
                    )
                },
                _ => final(self).list@ == old(self).list@,
            },
    {
        match self.find(number) {
            Some(i) => {
                if !self.list[i].active {
                    let c = self.list.remove(i);
                    self.list.push(
                        Capture {
                            number: c.number,
                            monitor: c.monitor,
                            active: true,
                            updated: c.updated,
                            snapshot: c.snapshot,
                        },
                    );
                }
            },
            None => {},
        }
    }

    /// Makes a capture inactive. It keeps its snapshot.
    pub fn deactivate(&mut self, number: u64)
        ensures
            final(self).list@ == deactivated(old(self).list@, number),
            final(self).next_number == old(self).next_number,
            match place_of(old(self).list@, number) {
                Some(i) => {
                    let c = old(self).list@[i];
                    final(self).list@ == old(self).list@.update(
                        i,
                        Capture {
                            number: c.number,
                            monitor: c.monitor,
                            active: false,
                            updated: c.updated,
                            snapshot: c.snapshot,
                        },
                    )
                },
                None => final(self).list@ == old(self).list@,
            },
    {
        match self.find(number) {
            Some(i) => {
                let c = self.list.remove(i);
                let ghost rest = self.list@;
                self.list.insert(
                    i,
                    Capture {
                        number: c.number,
                        monitor: c.monitor,
                        active: false,
                        updated: c.updated,
                        snapshot: c.snapshot,
                    },
                );
                assert(self.list@ =~= old(self).list@.update(i as int, self.list@[i as int]));
            },
            None => {},
        }
    }

    /// Ends a capture.
    pub fn end(&mut self, number: u64)
        ensures
            final(self).next_number == old(self).next_number,
            match place_of(old(self).list@, number) {
                Some(i) => final(self).list@ == old(self).list@.remove(i),
                None => final(self).list@ == old(self).list@,
            },
    {
        if let Some(i) = self.find(number) {
            self.list.remove(i);
        }
    }

    /// Takes what a frame brought: a shape, an error, or nothing new.
    pub fn update(&mut self, number: u64, read: Result<Option<Shape>, String>, now: u64)
        ensures
            match read {
                Ok(Some(shape)) => final(self).list@ == shown(
                    old(self).list@,
                    number,
                    Snapshot::Ready(shape),
                    now,
                ),
                Ok(None) => final(self).list@ == old(self).list@,
                Err(error) => final(self).list@ == shown(
                    old(self).list@,
                    number,
                    Snapshot::Failed(error),
                    now,
                ),
            },
            final(self).next_number == old(self).next_number,
            match (place_of(old(self).list@, number), read) {
                (Some(i), Ok(Some(shape))) => {
                    let c = old(self).list@[i];
                    final(self).list@ == old(self).list@.update(
                        i,
                        Capture {
                            number: c.number,
                            monitor: c.monitor,
                            active: c.active,
                            updated: now,
                            snapshot: Snapshot::Ready(shape),
                        },
                    )
                },
                (Some(i), Err(error)) => {
                    let c = old(self).list@[i];
                    final(self).list@ == old(self).list@.update(
                        i,
                        Capture {
                            number: c.number,
                            monitor: c.monitor,
                            active: c.active,
                            updated: now,
                            snapshot: Snapshot::Failed(error),
                        },
                    )
                },
                _ => final(self).list@ == old(self).list@,
            },
    {
        let snapshot = match read {
            Ok(Some(shape)) => Snapshot::Ready(shape),
            Ok(None) => {
                return ;
            },
            Err(error) => Snapshot::Failed(error),
        };
        if let Some(i) = self.find(number) {
            let c = self.list.remove(i);
            self.list.insert(
                i,
                Capture {
                    number: c.number,
                    monitor: c.monitor,
                    active: c.active,
                    updated: now,
                    snapshot,
                },
            );
            assert(self.list@ =~= old(self).list@.update(i as int, self.list@[i as int]));
        }
    }
}

/// What is known of the pointer on a monitor.
pub fn snapshot(captures: &Captures, monitor: usize) -> (r: Snapshot)
    ensures
        match latest(captures.list@, monitor) {
            Some(i) => r.same_as(captures.list@[i].snapshot),
            None => r is Unavailable,
        },
{
    let list = &captures.list;
    let mut best: Option<usize> = None;
    let mut i: usize = 0;
    while i < list.len()
        invariant
            i <= list.len(),
            best matches Some(b) ==> b < i,
            latest(list@.take(i as int), monitor) == match best {
                Some(b) => Some(b as int),
                None => None,
            },
        decreases list.len() - i,
    {
        assert(list@.take(i + 1).drop_last() =~= list@.take(i as int));
        assert(list@.take(i + 1).last() == list@[i as int]);
        let newer = match best {
            Some(b) => list[b].updated <= list[i].updated,
            None => true,
        };
        if list[i].active && list[i].monitor == monitor && newer {
            best = Some(i);
        }
        i = i + 1;
    }
    assert(list@.take(i as int) =~= list@);
    match best {
        Some(b) => list[b].snapshot.duplicate(),
        None => Snapshot::Unavailable,
    }
}

/// The shape of an identifier among those that active captures hold.
pub fn shape(captures: &Captures, id: u64) -> (r: Option<&Shape>)
    ensures
        match r {
            Some(shape) => shape.id == id && exists|i: int|
                0 <= i < captures.list@.len() && (#[trigger] captures.list@[i]).active
                    && captures.list@[i].snapshot == Snapshot::Ready(*shape),
            None => forall|i: int|
                0 <= i < captures.list@.len() && (#[trigger] captures.list@[i]).active ==> (
                captures.list@[i].snapshot matches Snapshot::Ready(shape) ==> shape.id != id),
        },
{
    let list = &captures.list;
    let mut i: usize = 0;
    while i < list.len()
        invariant
            *list == captures.list,
            i <= list.len(),
            forall|k: int|
                0 <= k < i && (#[trigger] list@[k]).active ==> (
                list@[k].snapshot matches Snapshot::Ready(shape) ==> shape.id != id),
        decreases list.len() - i,
    {
        if list[i].active {
            if let Snapshot::Ready(shape) = &list[i].snapshot {
                if shape.id == id {
                    assert(captures.list@[i as int].active);
                    return Some(shape);
                }
            }
        }
        i = i + 1;
    }
    None
}

/// What a frame means for a pointer's shape.
#[derive(Clone, Copy, Debug, PartialEq, Eq, Structural)]
pub enum FrameShape {
    /// A new shape comes with the frame.
    Read,
    /// The known shape gets another density.
    Rescale,
    Unchanged,
}

/// What a frame means for a pointer's shape.
pub open spec fn frame_brings(
    new_shape: bool,
    known_scale: Option<u64>,
    scale_bits: u64,
) -> FrameShape {
    match known_scale {
        _ if new_shape => FrameShape::Read,
        Some(known) if known != scale_bits => FrameShape::Rescale,
        _ => FrameShape::Unchanged,
    }
}

/// What a frame means for a pointer's shape, given the size of the shape that comes
/// with it and the density of the known one.
pub fn frame_shape(dpi: u32, buffer_size: u32, known_scale: Option<u64>, scale_bits: u64) -> (r:
    Result<FrameShape, &'static str>)
    ensures
        dpi > 0 ==> r == Ok::<FrameShape, &'static str>(
            frame_brings(buffer_size > 0, known_scale, scale_bits),
        ),
        dpi == 0 ==> r is Err,
        match r {
            Err(e) => dpi == 0 && e@ == "Invalid monitor scale"@,
            Ok(step) => dpi > 0 && step == if buffer_size > 0 {
                FrameShape::Read
            } else if known_scale is Some && known_scale != Some(scale_bits) {
                FrameShape::Rescale
            } else {
                FrameShape::Unchanged
            },
        },
{
    if dpi == 0 {
        return Err("Invalid monitor scale");
    }
    if buffer_size > 0 {
        return Ok(FrameShape::Read);
    }
    match known_scale {
        Some(known) => {
            if known != scale_bits {
                Ok(FrameShape::Rescale)
            } else {
                Ok(FrameShape::Unchanged)
            }
        },
        None => Ok(FrameShape::Unchanged),
    }
}

/// Each pixel of a shape is among its bytes: the four bytes of a coloured one, and the
/// bit of both planes of a monochrome one.
pub proof fn law_every_pixel_is_there(info: ShapeInfo, bytes: nat, x: int, y: int)
    requires
        info.describes(bytes),
        0 <= x < info.width,
        0 <= y < info.rows(),
    ensures
        info.kind != MONOCHROME ==> y * info.pitch + 4 * x + 4 <= bytes,
        info.kind == MONOCHROME ==> (y + info.rows()) * info.pitch + x / 8 < bytes,
        info.kind == MONOCHROME ==> 2 * info.rows() == info.height,
        info.kind != MONOCHROME ==> info.rows() == info.height,
{
    let pitch = info.pitch as int;
    let height = info.height as int;
    if info.kind == MONOCHROME {
        let row = y + info.rows();
        assert(row * pitch + pitch <= pitch * height) by (nonlinear_arith)
            requires
                0 <= row,
                row + 1 <= height,
                0 <= pitch,
        ;
        assert(x / 8 < pitch);
    } else {
        assert(y * pitch + pitch <= pitch * height) by (nonlinear_arith)
            requires
                0 <= y,
                y + 1 <= height,
                0 <= pitch,
        ;
    }
}

/// A shape is refused only for a reason: its kind, its size, its rows, the number of its
/// bytes, or a hot spot that is not on it.
pub proof fn law_refused_shapes_have_a_reason(info: ShapeInfo, bytes: nat)
    requires
        !info.describes(bytes),
    ensures
        ({
            ||| info.kind != 1 && info.kind != 2 && info.kind != 4
            ||| info.kind == 1 && (info.height % 2 == 1 || info.pitch * 8 < info.width)
            ||| info.kind != 1 && info.pitch < info.width * 4
            ||| info.width == 0 || info.height == 0
            ||| info.width > 0x7fff_ffff || info.height > 0x7fff_ffff || info.pitch > 0x7fff_ffff
            ||| info.pitch * info.height != bytes
            ||| info.hot_x < 0 || info.hot_y < 0 || info.hot_x >= info.width
            ||| info.kind == 1 && info.hot_y * 2 >= info.height
            ||| info.kind != 1 && info.hot_y >= info.height
        }),
{
}

/// Shapes with one identifier's material are the same: no property and no pixel of a
/// shape, nor its density, is left out of it.
pub proof fn law_material_tells_shapes_apart(
    a: Shape,
    a_scale: u64,
    b: Shape,
    b_scale: u64,
)
    requires
        a.writes(a_scale) == b.writes(b_scale),
        0 <= a.hotspot.0 && 0 <= a.hotspot.1,
        0 <= b.hotspot.0 && 0 <= b.hotspot.1,
    ensures
        a.kind == b.kind && a.width == b.width && a.height == b.height && a.pitch == b.pitch,
        a.hotspot == b.hotspot,
        a.pixels@ == b.pixels@,
        a_scale == b_scale,
{
    let u = a.writes(a_scale);
    let v = b.writes(b_scale);
    assert(u[0] == v[0] && u[1] == v[1] && u[2] == v[2] && u[3] == v[3] && u[4] == v[4] && u[5]
        == v[5] && u[7] == v[7] && u[8] == v[8]);
    vstd::bytes::lemma_auto_spec_u32_to_from_le_bytes();
    vstd::bytes::lemma_auto_spec_u64_to_from_le_bytes();
    assert(u[0].len() == 4 && u[1].len() == 4 && u[2].len() == 4 && u[3].len() == 4);
    assert(u[4].len() == 4 && u[5].len() == 4 && u[8].len() == 8);
    assert(v[0].len() == 4 && v[1].len() == 4 && v[2].len() == 4 && v[3].len() == 4);
    assert(v[4].len() == 4 && v[5].len() == 4 && v[8].len() == 8);
    assert(vstd::bytes::spec_u32_from_le_bytes(u[0]) == a.kind);
    assert(vstd::bytes::spec_u32_from_le_bytes(u[1]) == a.width);
    assert(vstd::bytes::spec_u32_from_le_bytes(u[2]) == a.height);
    assert(vstd::bytes::spec_u32_from_le_bytes(u[3]) == a.pitch);
    assert(vstd::bytes::spec_u32_from_le_bytes(u[4]) == a.hotspot.0 as u32);
    assert(vstd::bytes::spec_u32_from_le_bytes(u[5]) == a.hotspot.1 as u32);
    assert(vstd::bytes::spec_u64_from_le_bytes(u[8]) == a_scale);
}

/// A capture is found by its number, the last of several with one number, and is not
/// found only where none has it.
pub proof fn law_captures_are_found_by_number(list: Seq<Capture>, number: u64)
    ensures
        match place_of(list, number) {
            Some(i) => 0 <= i < list.len() && list[i].number == number && (forall|k: int|
                i < k < list.len() ==> (#[trigger] list[k]).number != number),
            None => forall|k: int| 0 <= k < list.len() ==> (#[trigger] list[k]).number != number,
        },
    decreases list.len(),
{
    if list.len() > 0 {
        law_captures_are_found_by_number(list.drop_last(), number);
        assert forall|k: int| 0 <= k < list.len() - 1 implies #[trigger] list[k]
            == list.drop_last()[k] by {}
    }
}

/// Of captures that were updated at one time, the one that became active last counts.
pub proof fn law_later_capture_wins_a_tie(list: Seq<Capture>, monitor: usize, k: int)
    requires
        latest(list, monitor) is Some,
        latest(list, monitor)->0 < k < list.len(),
        list[k].active,
        list[k].monitor == monitor,
    ensures
        list[k].updated < list[latest(list, monitor)->0].updated,
    decreases list.len(),
{
    let front = list.drop_last();
    law_snapshot_is_the_newest(front, monitor);
    if k < list.len() - 1 {
        assert(front[k] == list[k]);
        law_later_capture_wins_a_tie(front, monitor, k);
    }
}

/// Two shapes with the same contents agree in everything, and so do two snapshots; a
/// snapshot is like no other kind of snapshot.
pub proof fn law_same_contents(a: Shape, b: Shape, s: Snapshot, t: Snapshot)
    ensures
        a.same_as(a),
        a.same_as(b) <==> b.same_as(a),
        a.same_as(b) ==> a.id == b.id && a.scale_bits == b.scale_bits && a.kind == b.kind && a.width
            == b.width && a.height == b.height && a.pitch == b.pitch && a.hotspot == b.hotspot
            && a.pixels@ == b.pixels@,
        s.same_as(s),
        s.same_as(t) ==> (s is Ready <==> t is Ready) && (s is Failed <==> t is Failed) && (
        s is Pending <==> t is Pending) && (s is Unavailable <==> t is Unavailable),
        s.same_as(t) && s is Ready ==> s->Ready_0.same_as(t->Ready_0),
        s.same_as(t) && s is Failed ==> s->Failed_0@ == t->Failed_0@,
{
}

/// A capture that is made active keeps its monitor, its snapshot and the time of it, and
/// comes behind all others, which stay as they are and in their order.
pub proof fn law_activated_captures_come_last(list: Seq<Capture>, number: u64, i: int)
    requires
        place_of(list, number) == Some(i),
    ensures
        list[i].active ==> activated(list, number) == list,
        !list[i].active ==> ({
            let after = activated(list, number);
            &&& after.len() == list.len()
            &&& after.last().active && after.last().number == number
            &&& after.last().monitor == list[i].monitor && after.last().updated == list[i].updated
            &&& after.last().snapshot == list[i].snapshot
            &&& after.drop_last() == list.take(i) + list.skip(i + 1)
        }),
{
    law_captures_are_found_by_number(list, number);
    if !list[i].active {
        let after = activated(list, number);
        assert(after.drop_last() =~= list.take(i) + list.skip(i + 1));
    }
}

/// A capture that is made inactive is not looked at for a monitor any more, but keeps
/// what it has seen and its place; the others stay as they are.
pub proof fn law_deactivated_captures_keep_their_snapshot(
    list: Seq<Capture>,
    number: u64,
    monitor: usize,
    k: int,
)
    requires
        0 <= k < list.len(),
    ensures
        ({
            let after = deactivated(list, number);
            &&& after.len() == list.len()
            &&& Some(k) != place_of(list, number) ==> after[k] == list[k]
            &&& Some(k) == place_of(list, number) ==> !after[k].active && latest(after, monitor)
                != Some(k)
            &&& after[k].number == list[k].number && after[k].monitor == list[k].monitor
            &&& after[k].snapshot == list[k].snapshot && after[k].updated == list[k].updated
        }),
{
    law_captures_are_found_by_number(list, number);
    law_snapshot_is_the_newest(deactivated(list, number), monitor);
}

/// A frame changes nothing but the snapshot of its own capture and the time of it.
pub proof fn law_frames_concern_their_capture(
    list: Seq<Capture>,
    number: u64,
    snapshot: Snapshot,
    now: u64,
    k: int,
)
    requires
        0 <= k < list.len(),
    ensures
        ({
            let after = shown(list, number, snapshot, now);
            &&& after.len() == list.len()
            &&& Some(k) != place_of(list, number) ==> after[k] == list[k]
            &&& Some(k) == place_of(list, number) ==> after[k].snapshot == snapshot
                && after[k].updated == now
            &&& after[k].number == list[k].number && after[k].monitor == list[k].monitor
            &&& after[k].active == list[k].active
        }),
{
    law_captures_are_found_by_number(list, number);
}

/// A new shape is always read. A known one is given another density exactly where its own
/// differs, and one that is not known is left alone.
pub proof fn law_what_frames_bring(new_shape: bool, known: u64, scale_bits: u64)
    ensures
        frame_brings(true, Some(known), scale_bits) == FrameShape::Read,
        frame_brings(true, None, scale_bits) == FrameShape::Read,
        frame_brings(false, None, scale_bits) == FrameShape::Unchanged,
        frame_brings(false, Some(known), scale_bits) == FrameShape::Rescale <==> known
            != scale_bits,
        frame_brings(new_shape, Some(scale_bits), scale_bits) != FrameShape::Rescale,
{
}

/// The hot spot of a shape is one of its pixels, and a shape has at least one.
pub proof fn law_hot_spot_is_on_the_shape(info: ShapeInfo, bytes: nat)
    requires
        info.describes(bytes),
    ensures
        info.width > 0 && info.height > 0,
        0 <= info.hot_x && info.hot_x < info.width,
        0 <= info.hot_y,
        info.kind == 1 ==> 2 * info.hot_y < info.height,
        info.kind != 1 ==> info.hot_y < info.height,
        info.kind == 1 || info.kind == 2 || info.kind == 4,
        bytes == info.pitch * info.height,
{
}

} // verus!
