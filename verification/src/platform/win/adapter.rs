//! GPU adapters: what identifies one, and the list of those of one vendor.

use vstd::prelude::*;
use crate::common::AdapterVendor;
use crate::platform::win::error::WinPlatformError;
use crate::platform::win::texture::Handle;

verus! {

/// The feature level that every device of this layer must come up at.
pub const D3D_FEATURE_LEVEL_11_0: i32 = 0xb000;

/// What the platform tells of a physical adapter.
#[derive(Debug, Clone, Copy, PartialEq, Eq, Structural)]
pub struct AdapterDesc {
    pub vendor_id: u32,
    pub device_id: u32,
    pub sub_sys_id: u32,
    pub revision: u32,
    pub luid_high: i32,
    pub luid_low: u32,
}

impl AdapterDesc {
    /// The adapter's locally-unique identifier as one 64-bit number: the high
    /// part in the upper 32 bits, the low part in the lower.
    pub open spec fn luid(self) -> int {
        self.luid_high * 0x1_0000_0000 + self.luid_low
    }

    /// Computes `luid`.
    pub fn get_luid(&self) -> (luid: i64)
        ensures
            luid == self.luid(),
    {
        (self.luid_high as i64) * 0x1_0000_0000 + (self.luid_low as i64)
    }

    /// Whether the adapter is of the vendor asked for.
    pub fn is_of(&self, vendor: AdapterVendor) -> (same: bool)
        ensures
            same == (self.vendor_id == vendor.vendor_id()),
    {
        self.vendor_id == vendor.to_u32()
    }
}

/// How an attempt to create a rendering device on an adapter ended.
#[derive(Debug, Clone, Copy, PartialEq, Eq, Structural)]
pub struct DeviceCreation {
    /// The `HRESULT` of the creation call.
    pub hresult: i32,
    /// The feature level the device came up at; meaningful after success.
    pub feature_level: i32,
    pub device: Handle,
    pub context: Handle,
}

impl DeviceCreation {
    /// The error that rules the device out, if any: a failed call first, a
    /// feature level other than 11.0 second.
    pub open spec fn fault(self) -> Option<WinPlatformError> {
        if self.hresult < 0 {
            Some(WinPlatformError::DeviceCreationFailed(self.hresult))
        } else if self.feature_level != D3D_FEATURE_LEVEL_11_0 {
            Some(WinPlatformError::UnsupportedFeatureLevel(self.feature_level))
        } else {
            None
        }
    }

    /// Decides `fault`.
    pub fn check(&self) -> (r: Result<(), WinPlatformError>)
        ensures
            match self.fault() {
                Some(e) => r == Err::<(), WinPlatformError>(e),
                None => r == Ok::<(), WinPlatformError>(()),
            },
    {
        if self.hresult < 0 {
            Err(WinPlatformError::DeviceCreationFailed(self.hresult))
        } else if self.feature_level != D3D_FEATURE_LEVEL_11_0 {
            Err(WinPlatformError::UnsupportedFeatureLevel(self.feature_level))
        } else {
            Ok(())
        }
    }
}

/// One physical GPU with the rendering device made on it.
#[derive(Debug, Clone, Copy, PartialEq, Eq, Structural)]
pub struct Adapter {
    desc: AdapterDesc,
    device: Handle,
    context: Handle,
}

impl Adapter {
    pub closed spec fn spec_desc(self) -> AdapterDesc {
        self.desc
    }

    pub closed spec fn spec_device(self) -> Handle {
        self.device
    }

    pub closed spec fn spec_context(self) -> Handle {
        self.context
    }

    /// The adapter that a description and a device creation make.
    pub open spec fn made_of(self, desc: AdapterDesc, creation: DeviceCreation) -> bool {
        &&& self.spec_desc() == desc
        &&& self.spec_device() == creation.device
        &&& self.spec_context() == creation.context
    }

    /// Takes in an adapter whose device was created: refuses it with the
    /// creation's fault, if it has one.
    pub fn new(desc: AdapterDesc, creation: DeviceCreation) -> (r: Result<Adapter, WinPlatformError>)
        ensures
            match creation.fault() {
                Some(e) => r == Err::<Adapter, WinPlatformError>(e),
                None => r is Ok && r->Ok_0.made_of(desc, creation),
            },
    {
        match creation.check() {
            Err(e) => Err(e),
            Ok(()) => Ok(Adapter { desc, device: creation.device, context: creation.context }),
        }
    }

    /// Whether the context of this adapter must be put under multithread
    /// protection right after creation: Intel's decode drivers need it.
    pub fn needs_multithread_protection(&self) -> (needed: bool)
        ensures
            needed == (self.spec_desc().vendor_id
                == AdapterVendor::ADAPTER_VENDOR_INTEL.vendor_id()),
    {
        self.desc.vendor_id == AdapterVendor::ADAPTER_VENDOR_INTEL.to_u32()
    }

    pub fn device(&self) -> (device: Handle)
        ensures
            device == self.spec_device(),
    {
        self.device
    }

    pub fn context(&self) -> (context: Handle)
        ensures
            context == self.spec_context(),
    {
        self.context
    }

    pub fn desc(&self) -> (desc: &AdapterDesc)
        ensures
            *desc == self.spec_desc(),
    {
        &self.desc
    }

    pub fn luid(&self) -> (luid: i64)
        ensures
            luid == self.spec_desc().luid(),
    {
        self.desc.get_luid()
    }

    pub fn vendor_id(&self) -> (id: u32)
        ensures
            id == self.spec_desc().vendor_id,
    {
        self.desc.vendor_id
    }

    pub fn device_id(&self) -> (id: u32)
        ensures
            id == self.spec_desc().device_id,
    {
        self.desc.device_id
    }
}

/// What enumeration found at one adapter index.
#[derive(Debug, Clone, Copy, PartialEq, Eq)]
pub struct AdapterProbe {
    /// The adapter's description, or the `HRESULT` of the failed read.
    pub desc: Result<AdapterDesc, i32>,
    /// The device creation attempted on it; `None` where none was attempted.
    pub creation: Option<DeviceCreation>,
}

impl AdapterProbe {
    /// Whether the probe yields an adapter for a list of `vendor`: its
    /// description was read, the vendor matches, and a device was created
    /// on it without fault.
    pub open spec fn admitted(self, vendor: AdapterVendor) -> bool {
        &&& self.desc matches Ok(desc)
        &&& desc.vendor_id == vendor.vendor_id()
        &&& self.creation matches Some(creation)
        &&& creation.fault() is None
    }
}

/// The index of the first probe whose description could not be read.
pub open spec fn first_unreadable(probes: Seq<AdapterProbe>) -> Option<int>
    decreases probes.len(),
{
    if probes.len() == 0 {
        None
    } else {
        match first_unreadable(probes.drop_last()) {
            Some(i) => Some(i),
            None => if probes.last().desc is Err {
                Some(probes.len() - 1)
            } else {
                None
            },
        }
    }
}

/// The adapters that a list of probes yields for `vendor`, in the probes'
/// order.
pub open spec fn admitted_adapters(probes: Seq<AdapterProbe>, vendor: AdapterVendor) -> Seq<
    (AdapterDesc, DeviceCreation),
>
    decreases probes.len(),
{
    if probes.len() == 0 {
        Seq::empty()
    } else {
        let rest = admitted_adapters(probes.drop_last(), vendor);
        let last = probes.last();
        if last.admitted(vendor) {
            rest.push((last.desc->Ok_0, last.creation->Some_0))
        } else {
            rest
        }
    }
}

/// The adapters of one vendor, in enumeration order.
#[derive(Debug, Clone, PartialEq, Eq)]
pub struct Adapters {
    adapters: Vec<Adapter>,
}

impl View for Adapters {
    type V = Seq<Adapter>;

    closed spec fn view(&self) -> Seq<Adapter> {
        self.adapters@
    }
}

impl Adapters {
    /// Whether this list holds exactly the adapters given, in order.
    pub open spec fn holds(self, made: Seq<(AdapterDesc, DeviceCreation)>) -> bool {
        &&& self@.len() == made.len()
        &&& forall|i: int|
            0 <= i < made.len() ==> (#[trigger] self@[i]).made_of(made[i].0, made[i].1)
    }

    /// Whether a device is to be created on the adapter described, for a list
    /// of `vendor`: only on those of that vendor.
    pub fn wants(vendor: AdapterVendor, desc: &AdapterDesc) -> (wanted: bool)
        ensures
            wanted == (desc.vendor_id == vendor.vendor_id()),
    {
        desc.is_of(vendor)
    }

    /// Builds the list of `vendor` from what enumeration found.
    ///
    /// An unreadable description ends the whole enumeration with
    /// `DeviceCreationFailed`. An adapter whose device could not be created,
    /// or came up at the wrong feature level, is left out and the rest stays.
    pub fn new(vendor: AdapterVendor, probes: &Vec<AdapterProbe>) -> (r: Result<
        Adapters,
        WinPlatformError,
    >)
        ensures
            match first_unreadable(probes@) {
                Some(i) => r == Err::<Adapters, WinPlatformError>(
                    WinPlatformError::DeviceCreationFailed(probes@[i].desc->Err_0),
                ),
                None => r is Ok && r->Ok_0.holds(admitted_adapters(probes@, vendor)),
            },
    {
        let mut adapters: Vec<Adapter> = Vec::new();
        let mut i: usize = 0;
        while i < probes.len()
            invariant
                i <= probes.len(),
                first_unreadable(probes@.take(i as int)) is None,
                (Adapters { adapters }).holds(admitted_adapters(probes@.take(i as int), vendor)),
            decreases probes.len() - i,
        {
            proof {
                assert(probes@.take(i + 1).drop_last() == probes@.take(i as int));
            }
            let probe = &probes[i];
            match &probe.desc {
                Err(hr) => {
                    proof {
                        lemma_first_unreadable_prefix(probes@, i + 1);
                    }
                    return Err(WinPlatformError::DeviceCreationFailed(*hr));
                },
                Ok(desc) => {
                    if Self::wants(vendor, desc) {
                        match &probe.creation {
                            Some(creation) => {
                                match Adapter::new(*desc, *creation) {
                                    Ok(adapter) => {
                                        adapters.push(adapter);
                                    },
                                    Err(_) => {},
                                }
                            },
                            None => {},
                        }
                    }
                },
            }
            i += 1;
        }
        proof {
            assert(probes@.take(i as int) == probes@);
        }
        Ok(Adapters { adapters })
    }

    /// The global index of the first adapter of `vendor`, without creating
    /// any device.
    ///
    /// Descriptions are looked at in order, up to the first match. An
    /// unreadable one before it ends the search with `DeviceCreationFailed`;
    /// with neither, the answer is `AdapterNotFound`.
    pub fn get_first_adapter_index(
        vendor: AdapterVendor,
        descs: &Vec<Result<AdapterDesc, i32>>,
    ) -> (r: Result<i32, WinPlatformError>)
        requires
            descs.len() <= i32::MAX,
        ensures
            match first_decisive(descs@, of_vendor(vendor.vendor_id())) {
                Some(i) => match descs@[i] {
                    Ok(_) => r == Ok::<i32, WinPlatformError>(i as i32),
                    Err(hr) => r == Err::<i32, WinPlatformError>(
                        WinPlatformError::DeviceCreationFailed(hr),
                    ),
                },
                None => r == Err::<i32, WinPlatformError>(WinPlatformError::AdapterNotFound),
            },
    {
        let mut i: usize = 0;
        while i < descs.len()
            invariant
                i <= descs.len() <= i32::MAX,
                first_decisive(descs@.take(i as int), of_vendor(vendor.vendor_id())) is None,
            decreases descs.len() - i,
        {
            proof {
                assert(descs@.take(i + 1).drop_last() == descs@.take(i as int));
            }
            match &descs[i] {
                Err(hr) => {
                    proof {
                        lemma_first_decisive_prefix(descs@, of_vendor(vendor.vendor_id()), i + 1);
                    }
                    return Err(WinPlatformError::DeviceCreationFailed(*hr));
                },
                Ok(desc) => {
                    if desc.is_of(vendor) {
                        proof {
                            lemma_first_decisive_prefix(descs@, of_vendor(vendor.vendor_id()), i + 1);
                        }
                        return Ok(i as i32);
                    }
                },
            }
            i += 1;
        }
        proof {
            assert(descs@.take(i as int) == descs@);
        }
        Err(WinPlatformError::AdapterNotFound)
    }

    /// The adapters, first found first.
    pub fn adapters(&self) -> (list: &Vec<Adapter>)
        ensures
            list@ == self@,
    {
        &self.adapters
    }

    /// How many adapters the list holds.
    pub fn len(&self) -> (n: usize)
        ensures
            n == self@.len(),
    {
        self.adapters.len()
    }
}

/// The adapters of one vendor.
pub open spec fn of_vendor(vendor_id: int) -> spec_fn(AdapterDesc) -> bool {
    |desc: AdapterDesc| desc.vendor_id == vendor_id
}

/// The adapters with one LUID.
pub open spec fn with_luid(luid: int) -> spec_fn(AdapterDesc) -> bool {
    |desc: AdapterDesc| desc.luid() == luid
}

/// The first index at which a search for a `wanted` adapter ends: the
/// description there is unreadable, or it is a wanted one.
pub open spec fn first_decisive(
    descs: Seq<Result<AdapterDesc, i32>>,
    wanted: spec_fn(AdapterDesc) -> bool,
) -> Option<int>
    decreases descs.len(),
{
    if descs.len() == 0 {
        None
    } else {
        match first_decisive(descs.drop_last(), wanted) {
            Some(i) => Some(i),
            None => match descs.last() {
                Err(_) => Some(descs.len() - 1),
                Ok(desc) => if wanted(desc) {
                    Some(descs.len() - 1)
                } else {
                    None
                },
            },
        }
    }
}

/// Where a search ends within a prefix, it ends in the whole list.
pub proof fn lemma_first_decisive_prefix(
    descs: Seq<Result<AdapterDesc, i32>>,
    wanted: spec_fn(AdapterDesc) -> bool,
    n: int,
)
    requires
        0 <= n <= descs.len(),
        first_decisive(descs.take(n), wanted) is Some,
    ensures
        first_decisive(descs, wanted) == first_decisive(descs.take(n), wanted),
        0 <= first_decisive(descs, wanted)->Some_0 < n,
    decreases descs.len() - n,
{
    lemma_first_decisive_is_first(descs.take(n), wanted);
    if n < descs.len() {
        assert(descs.take(n + 1).drop_last() == descs.take(n));
        lemma_first_decisive_prefix(descs, wanted, n + 1);
    } else {
        assert(descs.take(n) == descs);
    }
}

/// A search ends at the first index that is unreadable or wanted, and
/// nowhere if there is none.
pub proof fn lemma_first_decisive_is_first(
    descs: Seq<Result<AdapterDesc, i32>>,
    wanted: spec_fn(AdapterDesc) -> bool,
)
    ensures
        match first_decisive(descs, wanted) {
            Some(i) => {
                &&& 0 <= i < descs.len()
                &&& (descs[i] matches Ok(desc) ==> wanted(desc))
                &&& forall|j: int|
                    0 <= j < i ==> (#[trigger] descs[j] matches Ok(desc) && !wanted(desc))
            },
            None => forall|j: int|
                0 <= j < descs.len() ==> (#[trigger] descs[j] matches Ok(desc) && !wanted(desc)),
        },
    decreases descs.len(),
{
    if descs.len() > 0 {
        lemma_first_decisive_is_first(descs.drop_last(), wanted);
        assert forall|j: int| 0 <= j < descs.len() - 1 implies descs[j] == descs.drop_last()[j] by {}
    }
}

/// If a prefix of the probes has an unreadable description, the first such
/// index is the same for the whole list.
pub proof fn lemma_first_unreadable_prefix(probes: Seq<AdapterProbe>, n: int)
    requires
        0 <= n <= probes.len(),
        first_unreadable(probes.take(n)) is Some,
    ensures
        first_unreadable(probes) == first_unreadable(probes.take(n)),
    decreases probes.len() - n,
{
    if n < probes.len() {
        assert(probes.take(n + 1).drop_last() == probes.take(n));
        lemma_first_unreadable_prefix(probes, n + 1);
    } else {
        assert(probes.take(n) == probes);
    }
}

} // verus!
