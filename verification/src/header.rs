//! The device's control registers and the handshake that brings a device up.
use crate::config::SetupError;
use vstd::prelude::*;

verus! {

/// The value of the magic register of every device of this transport: "virt".
pub const MAGIC_VALUE: u32 = 0x7472_6976;

/// Distance from the start of the register block to the device's own
/// configuration space.
pub const CONFIG_OFFSET: usize = 0x100;

/// Status bit: the driver has seen the device.
pub const STATUS_ACKNOWLEDGE: u32 = 1;

/// Status bit: the driver knows how to drive the device.
pub const STATUS_DRIVER: u32 = 2;

/// Status bit: the driver is set up and ready.
pub const STATUS_DRIVER_OK: u32 = 4;

/// Status bit: the features are negotiated.
pub const STATUS_FEATURES_OK: u32 = 8;

/// Status bit: the device has met an error that it cannot recover from.
pub const STATUS_DEVICE_NEEDS_RESET: u32 = 64;

/// Status bit: the driver has given the device up.
pub const STATUS_FAILED: u32 = 128;

/// The bits of the status register.
#[derive(Clone, Copy, Debug, PartialEq, Eq, Structural)]
pub enum StatusField {
    Acknowledge,
    Driver,
    Failed,
    FeaturesOk,
    DriverOk,
    DeviceNeedsReset,
}

impl StatusField {
    pub open spec fn spec_val32(self) -> u32 {
        match self {
            StatusField::Acknowledge => STATUS_ACKNOWLEDGE,
            StatusField::Driver => STATUS_DRIVER,
            StatusField::Failed => STATUS_FAILED,
            StatusField::FeaturesOk => STATUS_FEATURES_OK,
            StatusField::DriverOk => STATUS_DRIVER_OK,
            StatusField::DeviceNeedsReset => STATUS_DEVICE_NEEDS_RESET,
        }
    }

    /// The bit as it stands in the status register.
    #[verifier::when_used_as_spec(spec_val32)]
    pub fn val32(self) -> (v: u32)
        ensures
            v == self.spec_val32(),
    {
        match self {
            StatusField::Acknowledge => STATUS_ACKNOWLEDGE,
            StatusField::Driver => STATUS_DRIVER,
            StatusField::Failed => STATUS_FAILED,
            StatusField::FeaturesOk => STATUS_FEATURES_OK,
            StatusField::DriverOk => STATUS_DRIVER_OK,
            StatusField::DeviceNeedsReset => STATUS_DEVICE_NEEDS_RESET,
        }
    }
}

/// The register block of one device, register by register, without the reserved
/// words between them.
///
/// Two fields are no registers. `status_latch` stands for the device's say in
/// the status register: of what the driver writes there, the device keeps the
/// bits in `status_latch` and drops the others. A device that refuses the
/// negotiated features leaves FEATURES_OK out. `base` is the address at which
/// the block is mapped.
#[derive(Clone, Copy, Debug, PartialEq, Eq, Structural)]
pub struct VirtHeader {
    pub magicvalue: u32,
    pub version: u32,
    pub deviceid: u32,
    pub vendorid: u32,
    pub host_features: u32,
    pub host_features_sel: u32,
    pub guest_features: u32,
    pub guest_features_sel: u32,
    pub guest_page_size: u32,
    pub queue_sel: u32,
    pub queue_num_max: u32,
    pub queue_num: u32,
    pub queue_align: u32,
    pub queue_pfn: u32,
    pub queue_notify: u32,
    pub interrupt_status: u32,
    pub interrupt_ack: u32,
    pub status: u32,
    pub queue_desc_low: u32,
    pub queue_desc_high: u32,
    pub queue_driver_low: u32,
    pub queue_driver_high: u32,
    pub queue_device_low: u32,
    pub queue_device_high: u32,
    pub config_generation: u32,
    pub status_latch: u32,
    pub base: usize,
}

impl VirtHeader {
    /// The registers after `set_feature(guest_feat)`.
    pub open spec fn negotiated(self, guest_feat: u32) -> VirtHeader {
        VirtHeader {
            status: (STATUS_ACKNOWLEDGE | STATUS_DRIVER | STATUS_FEATURES_OK) & self.status_latch,
            guest_features: self.host_features & guest_feat,
            ..self
        }
    }

    /// Whether the device keeps FEATURES_OK when the driver sets it.
    pub open spec fn latches_features(self) -> bool {
        self.status_latch & STATUS_FEATURES_OK != 0
    }

    /// The registers after `configure_ring` went through.
    pub open spec fn ring_configured(self, index: u32, size: u32, page_size: u32, pfn: u32) -> VirtHeader {
        VirtHeader {
            queue_num: size,
            guest_page_size: page_size,
            queue_sel: index,
            queue_pfn: pfn,
            ..self
        }
    }

    /// The registers after `driver_ok`: DRIVER_OK joins the status bits that
    /// are set, as far as the device keeps it.
    pub open spec fn driver_ready(self) -> VirtHeader {
        VirtHeader { status: (self.status | STATUS_DRIVER_OK) & self.status_latch, ..self }
    }

    /// The register block as a device presents it after reset: it offers
    /// `host_features`, takes rings of up to `queue_num_max` entries, and keeps
    /// every status bit that the driver sets.
    pub fn new(base: usize, deviceid: u32, host_features: u32, queue_num_max: u32) -> (h: Self)
        ensures
            h.base == base,
            h.magicvalue == MAGIC_VALUE,
            h.version == 1,
            h.deviceid == deviceid,
            h.host_features == host_features,
            h.queue_num_max == queue_num_max,
            h.status_latch == 0xffff_ffff,
            h.status == 0,
            h.guest_features == 0,
            h.queue_num == 0,
            h.queue_pfn == 0,
            h.queue_sel == 0,
            h.guest_page_size == 0,
            h.queue_notify == 0,
            h.latches_features(),
    {
        assert(0xffff_ffffu32 & 8u32 != 0) by (bit_vector);
        VirtHeader {
            magicvalue: MAGIC_VALUE,
            version: 1,
            deviceid,
            vendorid: 0,
            host_features,
            host_features_sel: 0,
            guest_features: 0,
            guest_features_sel: 0,
            guest_page_size: 0,
            queue_sel: 0,
            queue_num_max,
            queue_num: 0,
            queue_align: 0,
            queue_pfn: 0,
            queue_notify: 0,
            interrupt_status: 0,
            interrupt_ack: 0,
            status: 0,
            queue_desc_low: 0,
            queue_desc_high: 0,
            queue_driver_low: 0,
            queue_driver_high: 0,
            queue_device_low: 0,
            queue_device_high: 0,
            config_generation: 0,
            status_latch: 0xffff_ffff,
            base,
        }
    }

    /// Negotiates the features. The status register is cleared, ACKNOWLEDGE and
    /// then DRIVER are set, the features that the device offers and the driver
    /// asks for are written back, and FEATURES_OK is set. The negotiation stands
    /// if the device kept FEATURES_OK, and has failed if it did not.
    pub fn set_feature(&mut self, guest_feat: u32) -> (r: Result<(), SetupError>)
        ensures
            *final(self) == old(self).negotiated(guest_feat),
            r is Ok <==> old(self).latches_features(),
            r is Err ==> r == Err::<(), SetupError>(SetupError::FeatureFail),
    {
        let latch = self.status_latch;
        self.status = 0;
        self.status = STATUS_ACKNOWLEDGE & latch;
        self.status = (self.status | STATUS_DRIVER) & latch;
        self.guest_features = self.host_features & guest_feat;
        self.status = (self.status | STATUS_FEATURES_OK) & latch;
        assert(((((1u32 & latch) | 2u32) & latch) | 8u32) & latch == (1u32 | 2u32 | 8u32) & latch)
            by (bit_vector);
        assert((((1u32 | 2u32 | 8u32) & latch) & 8u32 == 0) <==> (latch & 8u32 == 0))
            by (bit_vector);
        if self.status & STATUS_FEATURES_OK == 0 {
            return Err(SetupError::FeatureFail);
        }
        Ok(())
    }

    /// Commits the ring size, unless it is more than the device takes.
    pub fn set_ring_size(&mut self, size: u32) -> (r: Result<(), SetupError>)
        ensures
            r is Ok <==> size <= old(self).queue_num_max,
            r is Ok ==> *final(self) == (VirtHeader { queue_num: size, ..*old(self) }),
            r is Err ==> r == Err::<(), SetupError>(SetupError::RingSizeTooSmall) && *final(self)
                == *old(self),
    {
        if self.queue_num_max < size {
            Err(SetupError::RingSizeTooSmall)
        } else {
            self.queue_num = size;
            Ok(())
        }
    }

    /// Selects queue `sel` and tells the device the page frame at which its
    /// descriptor table starts.
    pub fn set_pfn(&mut self, sel: u32, pfn: u32)
        ensures
            *final(self) == (VirtHeader { queue_sel: sel, queue_pfn: pfn, ..*old(self) }),
    {
        self.queue_sel = sel;
        self.queue_pfn = pfn;
    }

    pub fn set_page_size(&mut self, size: u32)
        ensures
            *final(self) == (VirtHeader { guest_page_size: size, ..*old(self) }),
    {
        self.guest_page_size = size;
    }

    /// Configures the ring of queue `index`: its size, the page size and the
    /// page frame of the descriptor table. A size above the device's maximum is
    /// refused, and then no register has changed.
    pub fn configure_ring(&mut self, index: u32, size: u32, page_size: u32, pfn: u32) -> (r: Result<
        (),
        SetupError,
    >)
        ensures
            r is Ok <==> size <= old(self).queue_num_max,
            r is Ok ==> *final(self) == old(self).ring_configured(index, size, page_size, pfn),
            r is Err ==> r == Err::<(), SetupError>(SetupError::RingSizeTooSmall) && *final(self)
                == *old(self),
    {
        match self.set_ring_size(size) {
            Err(e) => Err(e),
            Ok(()) => {
                self.set_page_size(page_size);
                self.set_pfn(index, pfn);
                Ok(())
            },
        }
    }

    /// Tells the device that the driver is ready: DRIVER_OK is set in the
    /// status register beside the bits that are set there, as far as the
    /// device keeps it. From here on the device may take chains off the
    /// availability ring.
    pub fn driver_ok(&mut self)
        ensures
            *final(self) == old(self).driver_ready(),
    {
        self.status = (self.status | STATUS_DRIVER_OK) & self.status_latch;
    }

    /// Tells the device that queue `idx` has new chains.
    pub fn notify(&mut self, idx: u32)
        ensures
            *final(self) == (VirtHeader { queue_notify: idx, ..*old(self) }),
    {
        self.queue_notify = idx;
    }

    /// Where the device's own configuration space starts.
    pub fn config_address(&self) -> (addr: usize)
        requires
            self.base + CONFIG_OFFSET <= usize::MAX,
        ensures
            addr == self.base + CONFIG_OFFSET,
    {
        self.base + CONFIG_OFFSET
    }
}

} // verus!
