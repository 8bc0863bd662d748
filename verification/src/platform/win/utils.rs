//! The GPU signature: one number that changes when a GPU or its driver
//! does.

use vstd::prelude::*;
use vstd::arithmetic::div_mod::lemma_add_mod_noop_right;
use crate::common::AdapterVendor;
use crate::platform::win::adapter::AdapterDesc;

verus! {

/// What the platform tells of one adapter for the signature.
#[derive(Debug, Clone, Copy, PartialEq, Eq)]
pub struct AdapterReport {
    /// The adapter's description, or the `HRESULT` of the failed read.
    pub desc: Result<AdapterDesc, i32>,
    /// The version of the user-mode driver, where the platform gave one.
    pub umd_version: Option<i64>,
}

/// Whether adapters of a vendor count for the signature: those of NVIDIA,
/// AMD and Intel do.
pub open spec fn known_vendor(vendor_id: u32) -> bool {
    AdapterVendor::of_vendor_id(vendor_id as int) != AdapterVendor::ADAPTER_VENDOR_UNKNOWN
}

/// A signed 64-bit number read as the unsigned number with the same bits.
pub open spec fn as_unsigned(v: i64) -> int {
    if v >= 0 {
        v as int
    } else {
        v + 0x1_0000_0000_0000_0000
    }
}

impl AdapterReport {
    /// What an adapter adds to the signature: for one of a known vendor,
    /// its vendor id, device id, sub-system id and revision, and the driver
    /// version if there is one; nothing for any other, or for one whose
    /// description could not be read.
    pub open spec fn contribution(self) -> int {
        match self.desc {
            Ok(desc) if known_vendor(desc.vendor_id) => desc.vendor_id + desc.device_id
                + desc.sub_sys_id + desc.revision + (match self.umd_version {
                Some(v) => as_unsigned(v),
                None => 0,
            }),
            _ => 0,
        }
    }
}

/// The sum of what the adapters add.
pub open spec fn signature_sum(reports: Seq<AdapterReport>) -> int
    decreases reports.len(),
{
    if reports.len() == 0 {
        0
    } else {
        signature_sum(reports.drop_last()) + reports.last().contribution()
    }
}

/// Computes `as_unsigned`.
pub fn to_unsigned(v: i64) -> (u: u64)
    ensures
        u == as_unsigned(v),
{
    if v >= 0 {
        v as u64
    } else {
        (((v + i64::MAX) + 1) as u64) + 0x8000_0000_0000_0000
    }
}

/// Adds to a signature, modulo 2^64.
fn add_to_signature(signature: u64, x: u64, Ghost(sum): Ghost<int>) -> (r: u64)
    requires
        signature == sum % 0x1_0000_0000_0000_0000,
    ensures
        r == (sum + x) % 0x1_0000_0000_0000_0000,
{
    proof {
        lemma_add_mod_noop_right(x as int, sum, 0x1_0000_0000_0000_0000);
    }
    signature.wrapping_add(x)
}

/// The GPU signature of the adapters reported: the sum of what they add,
/// modulo 2^64. With no adapter of a known vendor it is 0.
pub fn get_gpu_signature(reports: &Vec<AdapterReport>) -> (signature: u64)
    ensures
        signature == signature_sum(reports@) % 0x1_0000_0000_0000_0000,
{
    let mut signature: u64 = 0;
    let mut i: usize = 0;
    while i < reports.len()
        invariant
            i <= reports@.len(),
            signature == signature_sum(reports@.take(i as int)) % 0x1_0000_0000_0000_0000,
        decreases reports.len() - i,
    {
        let report = &reports[i];
        let ghost sum = signature_sum(reports@.take(i as int));
        proof {
            assert(reports@.take(i + 1).drop_last() == reports@.take(i as int));
        }
        match &report.desc {
            Ok(desc) => {
                if desc.vendor_id == AdapterVendor::ADAPTER_VENDOR_NVIDIA.to_u32() || desc.vendor_id
                    == AdapterVendor::ADAPTER_VENDOR_AMD.to_u32() || desc.vendor_id
                    == AdapterVendor::ADAPTER_VENDOR_INTEL.to_u32() {
                    signature = add_to_signature(signature, desc.vendor_id as u64, Ghost(sum));
                    signature =
                    add_to_signature(
                        signature,
                        desc.device_id as u64,
                        Ghost(sum + desc.vendor_id),
                    );
                    signature =
                    add_to_signature(
                        signature,
                        desc.sub_sys_id as u64,
                        Ghost(sum + desc.vendor_id + desc.device_id),
                    );
                    signature =
                    add_to_signature(
                        signature,
                        desc.revision as u64,
                        Ghost(sum + desc.vendor_id + desc.device_id + desc.sub_sys_id),
                    );
                    match report.umd_version {
                        Some(v) => {
                            signature =
                            add_to_signature(
                                signature,
                                to_unsigned(v),
                                Ghost(
                                    sum + desc.vendor_id + desc.device_id + desc.sub_sys_id
                                        + desc.revision,
                                ),
                            );
                        },
                        None => {},
                    }
                }
            },
            Err(_) => {},
        }
        i += 1;
    }
    proof {
        assert(reports@.take(i as int) == reports@);
    }
    signature
}

} // verus!
