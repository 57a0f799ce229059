//! The commands of the 2-D graphics device, as the records that the device
//! reads.
use crate::config::Rect;
use vstd::prelude::*;

verus! {

pub const CONTROLL_HEADER_SIZE: u32 = 24;

pub const CREATE_2D_SIZE: u32 = 40;

pub const TRANSFER_TO_HOST_2D_SIZE: u32 = 56;

pub const ATTACH_BACKING_SIZE: u32 = 32;

pub const SCANOUT_SIZE: u32 = 48;

pub const RESOURCE_FLUSH_SIZE: u32 = 48;

pub const MEM_ENTRY_SIZE: u32 = 16;

/// What a command asks for, and what a response says.
#[derive(Clone, Copy, Debug, PartialEq, Eq, Structural)]
pub enum ControllType {
    GetDisplayInfo,
    ResourceCreate2d,
    ResourceUref,
    SetScanout,
    ResourceFlush,
    TransferToHost2d,
    ResourceAttachBacking,
    ResourceDetachBacking,
    GetCapsetInfo,
    GetCapset,
    GetEdid,
    UpdateCursor,
    MoveCursor,
    RespOkNoData,
    RespOkDisplayInfo,
    RespOkCapsetInfo,
    RespOkCapset,
    RespOkEdid,
    RespErrUnspec,
    RespErrOutOfMemory,
    RespErrInvalidScanoutId,
    RespErrInvalidResourceId,
    RespErrInvalidContextId,
    RespErrInvalidParameter,
}

impl ControllType {
    pub open spec fn spec_val32(self) -> u32 {
        match self {
            ControllType::GetDisplayInfo => 0x0100,
            ControllType::ResourceCreate2d => 0x0101,
            ControllType::ResourceUref => 0x0102,
            ControllType::SetScanout => 0x0103,
            ControllType::ResourceFlush => 0x0104,
            ControllType::TransferToHost2d => 0x0105,
            ControllType::ResourceAttachBacking => 0x0106,
            ControllType::ResourceDetachBacking => 0x0107,
            ControllType::GetCapsetInfo => 0x0108,
            ControllType::GetCapset => 0x0109,
            ControllType::GetEdid => 0x010a,
            ControllType::UpdateCursor => 0x0300,
            ControllType::MoveCursor => 0x0301,
            ControllType::RespOkNoData => 0x1100,
            ControllType::RespOkDisplayInfo => 0x1101,
            ControllType::RespOkCapsetInfo => 0x1102,
            ControllType::RespOkCapset => 0x1103,
            ControllType::RespOkEdid => 0x1104,
            ControllType::RespErrUnspec => 0x1200,
            ControllType::RespErrOutOfMemory => 0x1201,
            ControllType::RespErrInvalidScanoutId => 0x1202,
            ControllType::RespErrInvalidResourceId => 0x1203,
            ControllType::RespErrInvalidContextId => 0x1204,
            ControllType::RespErrInvalidParameter => 0x1205,
        }
    }

    /// The number that stands for this type on the wire.
    #[verifier::when_used_as_spec(spec_val32)]
    pub fn val32(self) -> (v: u32)
        ensures
            v == self.spec_val32(),
    {
        match self {
            ControllType::GetDisplayInfo => 0x0100,
            ControllType::ResourceCreate2d => 0x0101,
            ControllType::ResourceUref => 0x0102,
            ControllType::SetScanout => 0x0103,
            ControllType::ResourceFlush => 0x0104,
            ControllType::TransferToHost2d => 0x0105,
            ControllType::ResourceAttachBacking => 0x0106,
            ControllType::ResourceDetachBacking => 0x0107,
            ControllType::GetCapsetInfo => 0x0108,
            ControllType::GetCapset => 0x0109,
            ControllType::GetEdid => 0x010a,
            ControllType::UpdateCursor => 0x0300,
            ControllType::MoveCursor => 0x0301,
            ControllType::RespOkNoData => 0x1100,
            ControllType::RespOkDisplayInfo => 0x1101,
            ControllType::RespOkCapsetInfo => 0x1102,
            ControllType::RespOkCapset => 0x1103,
            ControllType::RespOkEdid => 0x1104,
            ControllType::RespErrUnspec => 0x1200,
            ControllType::RespErrOutOfMemory => 0x1201,
            ControllType::RespErrInvalidScanoutId => 0x1202,
            ControllType::RespErrInvalidResourceId => 0x1203,
            ControllType::RespErrInvalidContextId => 0x1204,
            ControllType::RespErrInvalidParameter => 0x1205,
        }
    }

    /// The type that `v` stands for on the wire, if it stands for one.
    pub fn from32(v: u32) -> (t: Option<Self>)
        ensures
            match t {
                Some(c) => c.spec_val32() == v,
                None => forall|c: ControllType| c.spec_val32() != v,
            },
    {
        match v {
            0x0100 => Some(ControllType::GetDisplayInfo),
            0x0101 => Some(ControllType::ResourceCreate2d),
            0x0102 => Some(ControllType::ResourceUref),
            0x0103 => Some(ControllType::SetScanout),
            0x0104 => Some(ControllType::ResourceFlush),
            0x0105 => Some(ControllType::TransferToHost2d),
            0x0106 => Some(ControllType::ResourceAttachBacking),
            0x0107 => Some(ControllType::ResourceDetachBacking),
            0x0108 => Some(ControllType::GetCapsetInfo),
            0x0109 => Some(ControllType::GetCapset),
            0x010a => Some(ControllType::GetEdid),
            0x0300 => Some(ControllType::UpdateCursor),
            0x0301 => Some(ControllType::MoveCursor),
            0x1100 => Some(ControllType::RespOkNoData),
            0x1101 => Some(ControllType::RespOkDisplayInfo),
            0x1102 => Some(ControllType::RespOkCapsetInfo),
            0x1103 => Some(ControllType::RespOkCapset),
            0x1104 => Some(ControllType::RespOkEdid),
            0x1200 => Some(ControllType::RespErrUnspec),
            0x1201 => Some(ControllType::RespErrOutOfMemory),
            0x1202 => Some(ControllType::RespErrInvalidScanoutId),
            0x1203 => Some(ControllType::RespErrInvalidResourceId),
            0x1204 => Some(ControllType::RespErrInvalidContextId),
            0x1205 => Some(ControllType::RespErrInvalidParameter),
            _ => None,
        }
    }
}

/// How the bytes of a pixel are laid out.
#[derive(Clone, Copy, Debug, PartialEq, Eq, Structural)]
pub enum PixelFormat {
    B8G8R8A8,
    B8G8R8X8,
    A8R8G8B8,
    X8R8G8B8,
    R8G8B8A8,
    X8B8G8R8,
    A8B8G8R8,
    R8G8B8X8,
}

impl PixelFormat {
    pub open spec fn spec_val32(self) -> u32 {
        match self {
            PixelFormat::B8G8R8A8 => 1,
            PixelFormat::B8G8R8X8 => 2,
            PixelFormat::A8R8G8B8 => 3,
            PixelFormat::X8R8G8B8 => 4,
            PixelFormat::R8G8B8A8 => 67,
            PixelFormat::X8B8G8R8 => 68,
            PixelFormat::A8B8G8R8 => 121,
            PixelFormat::R8G8B8X8 => 134,
        }
    }

    /// The number that stands for this format on the wire.
    #[verifier::when_used_as_spec(spec_val32)]
    pub fn val32(self) -> (v: u32)
        ensures
            v == self.spec_val32(),
    {
        match self {
            PixelFormat::B8G8R8A8 => 1,
            PixelFormat::B8G8R8X8 => 2,
            PixelFormat::A8R8G8B8 => 3,
            PixelFormat::X8R8G8B8 => 4,
            PixelFormat::R8G8B8A8 => 67,
            PixelFormat::X8B8G8R8 => 68,
            PixelFormat::A8B8G8R8 => 121,
            PixelFormat::R8G8B8X8 => 134,
        }
    }
}

/// The low 32 bits of a machine word, as the 32-bit fields of a command take it.
pub open spec fn low32(x: usize) -> u32 {
    (x as int % 0x1_0000_0000) as u32
}

/// The low 32 bits of `x`.
pub fn to_u32(x: usize) -> (r: u32)
    ensures
        r == low32(x),
{
    let wide = x as u64;
    assert(wide & 0xffff_ffff == wide % 0x1_0000_0000) by (bit_vector);
    (wide & 0xffff_ffff) as u32
}

/// The header that opens every command and every response.
#[derive(Clone, Copy, Debug, PartialEq, Eq, Structural)]
pub struct ControllHeader {
    pub ctype: ControllType,
    pub flag: u32,
    pub fence_idx: u64,
    pub ctx_id: u32,
    pub padding: u32,
}

impl ControllHeader {
    pub open spec fn spec_default_val(ctype: ControllType) -> ControllHeader {
        ControllHeader { ctype, flag: 0, fence_idx: 0, ctx_id: 0, padding: 0 }
    }

    /// The header of a command of type `ctype`, without fence or context.
    #[verifier::when_used_as_spec(spec_default_val)]
    pub fn default_val(ctype: ControllType) -> (h: Self)
        ensures
            h == Self::spec_default_val(ctype),
    {
        ControllHeader { ctype, flag: 0, fence_idx: 0, ctx_id: 0, padding: 0 }
    }

}

impl Default for ControllHeader {
    /// The header that an unused slot holds.
    fn default() -> (h: Self)
        ensures
            h == Self::spec_default_val(ControllType::ResourceFlush),
    {
        ControllHeader { ctype: ControllType::ResourceFlush, flag: 0, fence_idx: 0, ctx_id: 0, padding: 0 }
    }
}

/// Creates a 2-D resource of the given size.
#[derive(Clone, Copy, Debug, PartialEq, Eq, Structural)]
pub struct Create2D {
    pub header: ControllHeader,
    pub resource_idx: u32,
    pub format: PixelFormat,
    pub width: u32,
    pub height: u32,
}

impl Create2D {
    pub open spec fn spec_new(width: usize, height: usize, resouce_idx: usize) -> Create2D {
        Create2D {
            header: ControllHeader::spec_default_val(ControllType::ResourceCreate2d),
            resource_idx: low32(resouce_idx),
            format: PixelFormat::R8G8B8A8,
            width: low32(width),
            height: low32(height),
        }
    }

    #[verifier::when_used_as_spec(spec_new)]
    pub fn new(width: usize, height: usize, resouce_idx: usize) -> (c: Self)
        ensures
            c == Self::spec_new(width, height, resouce_idx),
    {
        Create2D {
            header: ControllHeader::default_val(ControllType::ResourceCreate2d),
            resource_idx: to_u32(resouce_idx),
            format: PixelFormat::R8G8B8A8,
            width: to_u32(width),
            height: to_u32(height),
        }
    }

}

impl Default for Create2D {
    /// The record that an unused slot holds.
    fn default() -> (c: Self)
        ensures
            c == (Create2D {
                header: ControllHeader::spec_default_val(ControllType::ResourceFlush),
                resource_idx: 0,
                format: PixelFormat::A8B8G8R8,
                width: 0,
                height: 0,
            }),
    {
        Create2D {
            header: ControllHeader::default(),
            resource_idx: 0,
            format: PixelFormat::A8B8G8R8,
            width: 0,
            height: 0,
        }
    }
}

/// Copies a rectangle of a resource's backing memory to the host.
#[derive(Clone, Copy, Debug, Default, PartialEq, Eq, Structural)]
pub struct TransferToHost2d {
    pub header: ControllHeader,
    pub rect: Rect,
    pub offset: u64,
    pub resource_id: u32,
    pub padding: u32,
}

impl TransferToHost2d {
    pub open spec fn spec_new(rect: Rect, resouce_idx: usize) -> TransferToHost2d {
        TransferToHost2d {
            header: ControllHeader::spec_default_val(ControllType::TransferToHost2d),
            rect,
            offset: 0,
            resource_id: low32(resouce_idx),
            padding: 0,
        }
    }

    #[verifier::when_used_as_spec(spec_new)]
    pub fn new(rect: Rect, resouce_idx: usize) -> (t: Self)
        ensures
            t == Self::spec_new(rect, resouce_idx),
    {
        TransferToHost2d {
            header: ControllHeader::default_val(ControllType::TransferToHost2d),
            rect,
            offset: 0,
            resource_id: to_u32(resouce_idx),
            padding: 0,
        }
    }
}

/// Gives a resource its backing memory: `entries` memory entries follow.
#[derive(Clone, Copy, Debug, Default, PartialEq, Eq, Structural)]
pub struct AttachBacking {
    pub header: ControllHeader,
    pub resource_id: u32,
    pub entries: u32,
}

impl AttachBacking {
    pub open spec fn spec_new(resource_idx: u32, entries: u32) -> AttachBacking {
        AttachBacking {
            header: ControllHeader::spec_default_val(ControllType::ResourceAttachBacking),
            resource_id: resource_idx,
            entries,
        }
    }

    #[verifier::when_used_as_spec(spec_new)]
    pub fn new(resource_idx: u32, entries: u32) -> (a: Self)
        ensures
            a == Self::spec_new(resource_idx, entries),
    {
        AttachBacking {
            header: ControllHeader::default_val(ControllType::ResourceAttachBacking),
            resource_id: resource_idx,
            entries,
        }
    }
}

/// Shows a rectangle of a resource on a scanout.
#[derive(Clone, Copy, Debug, Default, PartialEq, Eq, Structural)]
pub struct Scanout {
    pub header: ControllHeader,
    pub rect: Rect,
    pub scanout_id: u32,
    pub resource_id: u32,
}

impl Scanout {
    pub open spec fn spec_new(rect: Rect, resource_idx: usize, scanout_idx: usize) -> Scanout {
        Scanout {
            header: ControllHeader::spec_default_val(ControllType::SetScanout),
            rect,
            scanout_id: low32(scanout_idx),
            resource_id: low32(resource_idx),
        }
    }

    #[verifier::when_used_as_spec(spec_new)]
    pub fn new(rect: Rect, resource_idx: usize, scanout_idx: usize) -> (s: Self)
        ensures
            s == Self::spec_new(rect, resource_idx, scanout_idx),
    {
        Scanout {
            header: ControllHeader::default_val(ControllType::SetScanout),
            rect,
            scanout_id: to_u32(scanout_idx),
            resource_id: to_u32(resource_idx),
        }
    }
}

/// Puts a rectangle of a resource on the screen.
#[derive(Clone, Copy, Debug, Default, PartialEq, Eq, Structural)]
pub struct ResourceFlush {
    pub header: ControllHeader,
    pub rect: Rect,
    pub resource_id: u32,
    pub padding: u32,
}

impl ResourceFlush {
    pub open spec fn spec_new(rect: Rect, resouce_idx: usize) -> ResourceFlush {
        ResourceFlush {
            header: ControllHeader::spec_default_val(ControllType::ResourceFlush),
            rect,
            resource_id: low32(resouce_idx),
            padding: 0,
        }
    }

    #[verifier::when_used_as_spec(spec_new)]
    pub fn new(rect: Rect, resouce_idx: usize) -> (f: Self)
        ensures
            f == Self::spec_new(rect, resouce_idx),
    {
        ResourceFlush {
            header: ControllHeader::default_val(ControllType::ResourceFlush),
            rect,
            resource_id: to_u32(resouce_idx),
            padding: 0,
        }
    }
}

/// One stretch of guest memory that backs a resource.
#[derive(Clone, Copy, Debug, Default, PartialEq, Eq, Structural)]
pub struct MemEntry {
    pub addr: u64,
    pub length: u32,
    pub padding: u32,
}

impl MemEntry {
    pub open spec fn spec_new(addr: u64, length: u32) -> MemEntry {
        MemEntry { addr, length, padding: 0 }
    }

    #[verifier::when_used_as_spec(spec_new)]
    pub fn new(addr: u64, length: u32) -> (m: Self)
        ensures
            m == Self::spec_new(addr, length),
    {
        MemEntry { addr, length, padding: 0 }
    }
}

} // verus!
