//! The PCI subsystem as far as it can be described without the device
//! at hand: device identifiers, and the decisions that are taken while a
//! BAR is set up.

use crate::error::Error;
use crate::iomem::IoMem;
use vstd::prelude::*;

verus! {

/// Matches any vendor, device or subsystem identifier.
pub const PCI_ANY_ID: u32 = 0xffff_ffff;

/// The identifier of a PCI device, or of a class of them, as a driver lists
/// it in its table of supported devices.
#[derive(Clone, Copy, Debug, PartialEq, Eq, Structural)]
pub struct DeviceId {
    /// Vendor ID
    pub vendor: u32,
    /// Device ID
    pub device: u32,
    /// Subsystem vendor ID
    pub subvendor: u32,
    /// Subsystem device ID
    pub subdevice: u32,
    /// Device class and subclass
    pub class: u32,
    /// Limit which sub-fields of the class
    pub class_mask: u32,
}

/// An entry of a device table in the layout that the PCI core reads.
#[derive(Clone, Copy, Debug, PartialEq, Eq, Structural)]
pub struct RawDeviceId {
    pub vendor: u32,
    pub device: u32,
    pub subvendor: u32,
    pub subdevice: u32,
    pub class: u32,
    pub class_mask: u32,
    /// The distance in bytes from the entry to the data that the driver
    /// keeps for it, as an unsigned number.
    pub driver_data: usize,
    pub override_only: u32,
}

/// The unsigned number with the bit pattern of `offset`.
pub open spec fn as_unsigned(offset: isize) -> usize {
    offset as usize
}

/// The unsigned number with the bit pattern of `offset` is `offset` itself
/// where that is not negative, and read back as a signed number it is
/// `offset` in every case.
pub proof fn lemma_as_unsigned(offset: isize)
    ensures
        offset >= 0 ==> as_unsigned(offset) == offset,
        as_unsigned(offset) as isize == offset,
{
    assert((offset as usize) as isize == offset) by (bit_vector);
}

impl DeviceId {
    /// The identifier of the given device of the given vendor, with any
    /// subsystem and any class.
    pub fn new(vendor: u32, device: u32) -> (r: DeviceId)
        ensures
            r == (DeviceId {
                vendor,
                device,
                subvendor: PCI_ANY_ID,
                subdevice: PCI_ANY_ID,
                class: 0,
                class_mask: 0,
            }),
    {
        DeviceId {
            vendor,
            device,
            subvendor: PCI_ANY_ID,
            subdevice: PCI_ANY_ID,
            class: 0,
            class_mask: 0,
        }
    }

    /// The identifier of every device of the given class, as far as
    /// `class_mask` selects it, of any vendor.
    pub fn with_class(class: u32, class_mask: u32) -> (r: DeviceId)
        ensures
            r == (DeviceId {
                vendor: PCI_ANY_ID,
                device: PCI_ANY_ID,
                subvendor: PCI_ANY_ID,
                subdevice: PCI_ANY_ID,
                class,
                class_mask,
            }),
    {
        DeviceId {
            vendor: PCI_ANY_ID,
            device: PCI_ANY_ID,
            subvendor: PCI_ANY_ID,
            subdevice: PCI_ANY_ID,
            class,
            class_mask,
        }
    }

    /// The table entry of the identifier, with `offset` stored as the
    /// distance to the driver's data.
    pub fn to_rawid(&self, offset: isize) -> (r: RawDeviceId)
        ensures
            r == (RawDeviceId {
                vendor: self.vendor,
                device: self.device,
                subvendor: self.subvendor,
                subdevice: self.subdevice,
                class: self.class,
                class_mask: self.class_mask,
                driver_data: as_unsigned(offset),
                override_only: 0,
            }),
    {
        RawDeviceId {
            vendor: self.vendor,
            device: self.device,
            subvendor: self.subvendor,
            subdevice: self.subdevice,
            class: self.class,
            class_mask: self.class_mask,
            driver_data: #[verifier::truncate]
            (offset as usize),
            override_only: 0,
        }
    }
}

impl RawDeviceId {
    /// The entry that ends a device table: all zero.
    pub fn zero() -> (r: RawDeviceId)
        ensures
            r == (RawDeviceId {
                vendor: 0,
                device: 0,
                subvendor: 0,
                subdevice: 0,
                class: 0,
                class_mask: 0,
                driver_data: 0,
                override_only: 0,
            }),
    {
        RawDeviceId {
            vendor: 0,
            device: 0,
            subvendor: 0,
            subdevice: 0,
            class: 0,
            class_mask: 0,
            driver_data: 0,
            override_only: 0,
        }
    }
}

/// A PCI BAR to perform IO operations on: the region of the BAR, mapped
/// into I/O memory.
pub struct Bar {
    iomem: IoMem,
    num: u8,
}

impl Bar {
    /// The number of the BAR.
    pub closed spec fn spec_num(&self) -> u8 {
        self.num
    }

    /// The I/O memory that the BAR is mapped at.
    pub closed spec fn spec_iomem(&self) -> IoMem {
        self.iomem
    }

    /// Returns the number of the BAR.
    pub fn num(&self) -> (r: u8)
        ensures
            r == self.spec_num(),
    {
        self.num
    }

    /// Returns the I/O memory that the BAR is mapped at.
    pub fn iomem(&self) -> (r: &IoMem)
        ensures
            *r == self.spec_iomem(),
    {
        &self.iomem
    }

    /// Whether `i` numbers a resource of a device that owns an array of at
    /// most `num_resources` of them.
    pub fn index_is_valid(i: u8, num_resources: u32) -> (r: bool)
        ensures
            r == (i < num_resources),
    {
        if i as u32 >= num_resources {
            return false;
        }
        true
    }
}

/// What the setup of a BAR does next.
pub enum BarStep {
    /// Ask for the length of the resource.
    QueryLength,
    /// Request the region of the BAR.
    RequestRegion,
    /// Map the region into I/O memory.
    Iomap,
    /// Release the region, then give up with the error.
    ReleaseRegion(Error),
    /// Unmap the region from the address, release it, then give up with the
    /// error.
    UnmapAndRelease(usize, Error),
    /// Give up with the error. Nothing is held.
    Fail(Error),
    /// The BAR is set up.
    Done(Bar),
}

/// What is known of a BAR while it is being set up: which one it is, and
/// what the device answered so far.
#[derive(Clone, Copy, Debug, PartialEq, Eq, Structural)]
pub struct BarSetup {
    /// The number of the BAR.
    pub num: u8,
    /// The number of resources that a device can own.
    pub num_resources: u32,
    /// The length of the resource in bytes, once it was asked for.
    pub len: Option<u64>,
    /// What the request for the region returned, once it was made: 0 where
    /// the region was granted.
    pub requested: Option<i32>,
    /// The address that the region was mapped at, once that was tried: 0
    /// where it could not be mapped.
    pub ioptr: Option<usize>,
}

impl BarSetup {
    /// Whether `step` is what comes next, given what is known.
    ///
    /// A number that names no resource is an invalid argument. Then the
    /// length is asked for: an empty resource cannot be mapped. Then the
    /// region is requested: where it is not granted, it is busy. Then it is
    /// mapped: where that fails, the region is released again. A mapping
    /// that cannot be described as I/O memory is taken down again too.
    pub open spec fn decides(&self, step: BarStep) -> bool {
        if !(self.num < self.num_resources) {
            step == BarStep::Fail(Error::InvalidArgument)
        } else if self.len is None {
            step == BarStep::QueryLength
        } else if self.len == Some(0u64) {
            step == BarStep::Fail(Error::OutOfMemory)
        } else if self.requested is None {
            step == BarStep::RequestRegion
        } else if self.requested != Some(0i32) {
            step == BarStep::Fail(Error::Busy)
        } else if self.ioptr is None {
            step == BarStep::Iomap
        } else if self.ioptr == Some(0usize) {
            step == BarStep::ReleaseRegion(Error::OutOfMemory)
        } else if self.len.unwrap() as usize == 0 {
            step == BarStep::UnmapAndRelease(self.ioptr.unwrap(), Error::InvalidArgument)
        } else {
            &&& step matches BarStep::Done(bar)
            &&& bar.spec_num() == self.num
            &&& bar.spec_iomem().spec_ioptr() == self.ioptr.unwrap()
            &&& bar.spec_iomem().spec_maxlen() == self.len.unwrap() as usize
        }
    }

    /// Whether the answers were gathered in order: the region was requested
    /// only for a valid BAR of known length that is not empty, and mapped
    /// only once it was granted.
    pub open spec fn in_order(&self) -> bool {
        &&& self.requested is Some ==> self.num < self.num_resources && self.len is Some
            && self.len != Some(0u64)
        &&& self.ioptr is Some ==> self.requested == Some(0i32)
    }

    /// The setup of BAR `num` of a device that can own `num_resources`
    /// resources, before the device was asked anything.
    pub fn new(num: u8, num_resources: u32) -> (r: BarSetup)
        ensures
            r == (BarSetup { num, num_resources, len: None, requested: None, ioptr: None }),
            r.in_order(),
    {
        BarSetup { num, num_resources, len: None, requested: None, ioptr: None }
    }

    /// Returns what comes next, given what is known.
    pub fn next(&self) -> (step: BarStep)
        ensures
            self.decides(step),
    {
        if !Bar::index_is_valid(self.num, self.num_resources) {
            return BarStep::Fail(Error::InvalidArgument);
        }
        let barlen: u64 = match self.len {
            None => {
                return BarStep::QueryLength;
            },
            Some(barlen) => barlen,
        };
        if barlen == 0 {
            return BarStep::Fail(Error::OutOfMemory);
        }
        let ret: i32 = match self.requested {
            None => {
                return BarStep::RequestRegion;
            },
            Some(ret) => ret,
        };
        if ret != 0 {
            return BarStep::Fail(Error::Busy);
        }
        let ioptr: usize = match self.ioptr {
            None => {
                return BarStep::Iomap;
            },
            Some(ioptr) => ioptr,
        };
        if ioptr == 0 {
            return BarStep::ReleaseRegion(Error::OutOfMemory);
        }
        match IoMem::new(
            ioptr,
            #[verifier::truncate]
            (barlen as usize),
        ) {
            Ok(iomem) => BarStep::Done(Bar { iomem, num: self.num }),
            Err(err) => BarStep::UnmapAndRelease(ioptr, err),
        }
    }
}

/// A setup never gives up while it holds the region, and never ends well
/// without it: where the device was asked in order, the setup fails
/// outright only before the region was granted, and it is done only once
/// the region was granted and mapped.
pub proof fn lemma_region_is_accounted_for(setup: BarSetup, step: BarStep)
    requires
        setup.in_order(),
        setup.decides(step),
    ensures
        step is Fail ==> setup.requested != Some(0i32),
        step is Done ==> setup.requested == Some(0i32) && setup.ioptr is Some && setup.ioptr
            != Some(0usize) && setup.len is Some && setup.len != Some(0u64),
        step is ReleaseRegion || step is UnmapAndRelease ==> setup.requested == Some(0i32),
{
}

/// Asking the device what the setup says to ask next, and noting the
/// answer, keeps the answers in order.
pub proof fn lemma_steps_keep_order(setup: BarSetup, step: BarStep, len: u64, ret: i32, ioptr: usize)
    requires
        setup.in_order(),
        setup.decides(step),
    ensures
        step is QueryLength ==> (BarSetup { len: Some(len), ..setup }).in_order(),
        step is RequestRegion ==> (BarSetup { requested: Some(ret), ..setup }).in_order(),
        step is Iomap ==> (BarSetup { ioptr: Some(ioptr), ..setup }).in_order(),
{
}

} // verus!
