//! The device-side edge of the link: connection errors, the class codes a
//! PTP interface announces, recognizing camera vendors, and picking the
//! bulk and interrupt endpoints out of an interface's descriptors.
//!
//! Device enumeration itself happens in the platform's USB host stack; the
//! decisions on what it reports are made, and verified, here on plain
//! values.

use vstd::prelude::*;

use crate::error::Error;

verus! {

/// Why connecting to a camera failed.
#[derive(Debug)]
pub enum CameraError {
    /// No matching device appeared.
    NotFound,
    /// A device appeared but could not be opened or claimed.
    ConnectionFailed(String),
    /// A transfer on the established link failed.
    IoError(String),
}

/// The USB class code of a still-image (PTP/MTP) interface.
pub const PTP_CLASS: u8 = 6;

/// The USB subclass code of a still-image capture interface.
pub const PTP_SUBCLASS: u8 = 1;

/// The USB protocol code of a picture-transfer interface.
pub const PTP_PROTOCOL: u8 = 1;

/// Whether a vendor id belongs to a known camera maker.
pub open spec fn spec_is_camera_vendor(vendor_id: u16) -> bool {
    ||| vendor_id == 0x054C  // Sony
    ||| vendor_id == 0x04A9  // Canon
    ||| vendor_id == 0x04B0  // Nikon
    ||| vendor_id == 0x04CB  // Fujifilm
    ||| vendor_id == 0x04DA  // Panasonic
    ||| vendor_id == 0x04B4  // Olympus
    ||| vendor_id == 0x4CB
}

/// Whether a device is likely a PTP/MTP camera, going by its vendor id.
/// The product id is accepted for future vendor-specific pairs but does not
/// take part in the decision.
pub fn is_camera_device(vendor_id: u16, product_id: u16) -> (r: bool)
    ensures
        r == spec_is_camera_vendor(vendor_id),
{
    let _ = product_id;
    vendor_id == 0x054C || vendor_id == 0x04A9 || vendor_id == 0x04B0 || vendor_id == 0x04CB
        || vendor_id == 0x04DA || vendor_id == 0x04B4 || vendor_id == 0x4CB
}

/// What kind of transfer an endpoint carries.
#[derive(Debug, Clone, Copy, PartialEq, Eq, Structural)]
pub enum TransferKind {
    Bulk,
    Interrupt,
    Other,
}

/// One endpoint descriptor, reduced to the plain values the selection
/// reads: its address, its transfer kind, and its direction.
#[derive(Debug, Clone, Copy, PartialEq, Eq, Structural)]
pub struct EndpointDesc {
    pub address: u8,
    pub transfer: TransferKind,
    pub dir_in: bool,
}

/// The endpoints a PTP interface must offer: bulk in both directions, and
/// optionally an interrupt-in endpoint for events.
#[derive(Debug, Clone, Copy, PartialEq, Eq, Structural)]
pub struct EndpointSet {
    pub bulk_in: u8,
    pub bulk_out: u8,
    pub interrupt_in: Option<u8>,
}

/// The addresses selection settles on after walking the descriptors in
/// order (a later match supersedes an earlier one): bulk-in, bulk-out and
/// interrupt-in, each `None` when no descriptor matched.
pub open spec fn spec_select_endpoints(eps: Seq<EndpointDesc>) -> (
    Option<u8>,
    Option<u8>,
    Option<u8>,
)
    decreases eps.len(),
{
    if eps.len() == 0 {
        (None, None, None)
    } else {
        let prev = spec_select_endpoints(eps.drop_last());
        let e = eps.last();
        if e.transfer is Bulk && e.dir_in {
            (Some(e.address), prev.1, prev.2)
        } else if e.transfer is Bulk {
            (prev.0, Some(e.address), prev.2)
        } else if e.transfer is Interrupt && e.dir_in {
            (prev.0, prev.1, Some(e.address))
        } else {
            prev
        }
    }
}

/// Pick the bulk and interrupt endpoints out of an interface's descriptors.
/// Fails with `NotFound` unless a bulk-in and a bulk-out endpoint are both
/// there; the interrupt endpoint is optional.
pub fn select_endpoints(eps: &Vec<EndpointDesc>) -> (r: Result<EndpointSet, Error>)
    ensures
        ({
            let sel = spec_select_endpoints(eps@);
            &&& (r is Ok <==> sel.0 is Some && sel.1 is Some)
            &&& (r matches Ok(set) ==> Some(set.bulk_in) == sel.0 && Some(set.bulk_out) == sel.1
                && set.interrupt_in == sel.2)
            &&& (r is Err ==> r->Err_0 is NotFound)
        }),
{
    let mut bulk_in: Option<u8> = None;
    let mut bulk_out: Option<u8> = None;
    let mut interrupt_in: Option<u8> = None;
    let mut i: usize = 0;
    proof {
        assert(eps@.take(0) =~= Seq::<EndpointDesc>::empty());
    }
    while i < eps.len()
        invariant
            i <= eps@.len(),
            spec_select_endpoints(eps@.take(i as int)) == (bulk_in, bulk_out, interrupt_in),
        decreases eps@.len() - i,
    {
        let e = eps[i];
        if matches!(e.transfer, TransferKind::Bulk) {
            if e.dir_in {
                bulk_in = Some(e.address);
            } else {
                bulk_out = Some(e.address);
            }
        } else if matches!(e.transfer, TransferKind::Interrupt) {
            if e.dir_in {
                interrupt_in = Some(e.address);
            }
        }
        proof {
            assert(eps@.take(i + 1).drop_last() =~= eps@.take(i as int));
            assert(eps@.take(i + 1).last() == eps@[i as int]);
        }
        i = i + 1;
    }
    proof {
        assert(eps@.take(eps@.len() as int) =~= eps@);
    }
    let in_addr = match bulk_in {
        Some(a) => a,
        None => {
            return Err(Error::NotFound("no bulk-in endpoint".to_owned()));
        },
    };
    let out_addr = match bulk_out {
        Some(a) => a,
        None => {
            return Err(Error::NotFound("no bulk-out endpoint".to_owned()));
        },
    };
    Ok(EndpointSet { bulk_in: in_addr, bulk_out: out_addr, interrupt_in })
}

} // verus!
