//! Constants, plain data and error types shared by every front end.
use crate::input::InputEvent;
use vstd::prelude::*;

verus! {

/// Bytes in one page of guest memory.
pub const PAGE_SIZE: usize = 4096;

/// An opaque handle to guest-physical memory: where a buffer starts and how many
/// bytes it spans. The transport only passes it on to the device.
#[derive(Clone, Copy, Debug, PartialEq, Eq, Structural)]
pub struct PhysBuf {
    pub addr: u64,
    pub len: u32,
}

impl PhysBuf {
    pub fn new(addr: u64, len: u32) -> (b: Self)
        ensures
            b == (PhysBuf { addr, len }),
    {
        PhysBuf { addr, len }
    }
}

/// The page frame in which `addr` lies.
pub open spec fn frame_of(addr: u64) -> int {
    addr as int / 4096
}

/// The number of the page frame in which `addr` lies, as the 32-bit register for
/// it takes it; `None` where the number does not fit.
pub fn page_frame(addr: u64) -> (pfn: Option<u32>)
    ensures
        pfn is Some <==> frame_of(addr) <= u32::MAX,
        pfn is Some ==> pfn->0 == frame_of(addr),
{
    let frame = addr / 4096;
    if frame > 0xffff_ffff {
        None
    } else {
        Some(frame as u32)
    }
}

/// A rectangle on the screen, from (`x1`, `y1`) up to but excluding (`x2`, `y2`).
#[derive(Clone, Copy, Default, Debug, PartialEq, Eq, Structural)]
pub struct Rect {
    pub x1: u32,
    pub y1: u32,
    pub x2: u32,
    pub y2: u32,
}

#[derive(Clone, Copy, Debug, PartialEq, Eq, Structural)]
pub struct Pixel {
    pub r: u8,
    pub g: u8,
    pub b: u8,
    pub a: u8,
}

impl Pixel {
    pub fn new(r: u8, g: u8, b: u8, a: u8) -> (p: Self)
        ensures
            p == (Pixel { r, g, b, a }),
    {
        Pixel { r, g, b, a }
    }

    pub fn red() -> (p: Self)
        ensures
            p == (Pixel { r: 255, g: 0, b: 0, a: 255 }),
    {
        Pixel { r: 255, g: 0, b: 0, a: 255 }
    }

    pub fn green() -> (p: Self)
        ensures
            p == (Pixel { r: 0, g: 255, b: 0, a: 255 }),
    {
        Pixel { r: 0, g: 255, b: 0, a: 255 }
    }

    pub fn blue() -> (p: Self)
        ensures
            p == (Pixel { r: 0, g: 0, b: 255, a: 255 }),
    {
        Pixel { r: 0, g: 0, b: 255, a: 255 }
    }

    pub fn yellow() -> (p: Self)
        ensures
            p == (Pixel { r: 255, g: 255, b: 0, a: 255 }),
    {
        Pixel { r: 255, g: 255, b: 0, a: 255 }
    }

    pub fn grey() -> (p: Self)
        ensures
            p == (Pixel { r: 55, g: 55, b: 55, a: 255 }),
    {
        Pixel { r: 55, g: 55, b: 55, a: 255 }
    }

    pub fn white() -> (p: Self)
        ensures
            p == (Pixel { r: 255, g: 255, b: 255, a: 255 }),
    {
        Pixel { r: 255, g: 255, b: 255, a: 255 }
    }

    pub fn black() -> (p: Self)
        ensures
            p == (Pixel { r: 0, g: 0, b: 0, a: 255 }),
    {
        Pixel { r: 0, g: 0, b: 0, a: 255 }
    }

    pub fn shallow_grey() -> (p: Self)
        ensures
            p == (Pixel { r: 122, g: 122, b: 122, a: 255 }),
    {
        Pixel { r: 122, g: 122, b: 122, a: 255 }
    }
}

/// Why a device could not be brought up. Fatal for that device.
#[derive(Debug, PartialEq, Eq)]
pub enum SetupError {
    /// The device did not keep FEATURES_OK: it refuses the negotiated subset.
    FeatureFail,
    /// The ring asked for is larger than the device's maximum.
    RingSizeTooSmall,
    Info(&'static str),
}

/// Why a request was turned away before it reached the ring.
#[derive(Debug, PartialEq, Eq)]
pub enum IoError {
    /// The slot the request would use still holds a request in flight.
    RequestError,
    Info(&'static str),
}

#[derive(Debug, PartialEq, Eq)]
pub enum InterruptOk {
    Null,
    Net,
    Block,
    Graphic,
    Input(InputEvent),
}

#[derive(Debug, PartialEq, Eq)]
pub enum InterruptError {
    /// Nothing to handle, or the device reports that the request failed.
    NoInterrupt,
    Info(&'static str),
}

#[derive(Debug, PartialEq, Eq)]
pub enum InputType {
    Event(InputEvent),
    Status(InputEvent),
}

#[derive(Debug, PartialEq, Eq)]
pub enum GraphicError {
    InvalidRect(Rect),
    BufferTooSmall(usize),
}

/// The kind of device, as its device-id register names it.
#[derive(Clone, Copy, Debug, PartialEq, Eq, Structural)]
pub enum DeviceType {
    Unknown,
    Network,
    Block,
    Console,
    Entropy,
    Gpu,
    Input,
    Memory,
}

impl DeviceType {
    /// The kind that a device id stands for. Only the four kinds with a front end
    /// in this crate are told apart; every other id is `Unknown`.
    pub open spec fn of_id(num: int) -> DeviceType {
        if num == 1 {
            DeviceType::Network
        } else if num == 2 {
            DeviceType::Block
        } else if num == 16 {
            DeviceType::Gpu
        } else if num == 18 {
            DeviceType::Input
        } else {
            DeviceType::Unknown
        }
    }

    pub fn from(num: usize) -> (t: Self)
        ensures
            t == Self::of_id(num as int),
    {
        if num == 2 {
            DeviceType::Block
        } else if num == 16 {
            DeviceType::Gpu
        } else if num == 18 {
            DeviceType::Input
        } else if num == 1 {
            DeviceType::Network
        } else {
            DeviceType::Unknown
        }
    }
}

} // verus!
