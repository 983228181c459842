//! Fixed-layout decoders for the structured replies: device, object,
//! storage and property descriptions, each read from one data-phase payload
//! in a protocol-defined field order.
//!
//! A decoder over a whole payload must consume it exactly: leftover bytes
//! (or an underrun) mean the device and host disagree about the layout, and
//! the decode fails with `Malformed`.

use vstd::prelude::*;
use vstd::slice::slice_to_vec;

use crate::data_types::{spec_read_type, PtpDataType, PtpValue};
use crate::error::Error;
use crate::reader::{
    spec_read_counted, spec_read_str, spec_read_u16, spec_read_u32, spec_read_u64, spec_read_u8,
    Reader,
};

verus! {

/// The model of a decoded device description.
#[allow(non_snake_case)]
pub struct DeviceInfoModel {
    pub Version: u16,
    pub VendorExID: u32,
    pub VendorExVersion: u16,
    pub VendorExtensionDesc: Seq<char>,
    pub FunctionalMode: u16,
    pub OperationsSupported: Seq<u16>,
    pub EventsSupported: Seq<u16>,
    pub DevicePropertiesSupported: Seq<u16>,
    pub CaptureFormats: Seq<u16>,
    pub ImageFormats: Seq<u16>,
    pub Manufacturer: Seq<char>,
    pub Model: Seq<char>,
    pub DeviceVersion: Seq<char>,
    pub SerialNumber: Seq<char>,
}

/// A device description: what the camera reports about itself in reply to
/// GetDeviceInfo.
#[allow(non_snake_case)]
#[derive(Debug, PartialEq)]
pub struct PtpDeviceInfo {
    pub Version: u16,
    pub VendorExID: u32,
    pub VendorExVersion: u16,
    pub VendorExtensionDesc: String,
    pub FunctionalMode: u16,
    pub OperationsSupported: Vec<u16>,
    pub EventsSupported: Vec<u16>,
    pub DevicePropertiesSupported: Vec<u16>,
    pub CaptureFormats: Vec<u16>,
    pub ImageFormats: Vec<u16>,
    pub Manufacturer: String,
    pub Model: String,
    pub DeviceVersion: String,
    pub SerialNumber: String,
}

impl View for PtpDeviceInfo {
    type V = DeviceInfoModel;

    open spec fn view(&self) -> DeviceInfoModel {
        DeviceInfoModel {
            Version: self.Version,
            VendorExID: self.VendorExID,
            VendorExVersion: self.VendorExVersion,
            VendorExtensionDesc: self.VendorExtensionDesc@,
            FunctionalMode: self.FunctionalMode,
            OperationsSupported: self.OperationsSupported@,
            EventsSupported: self.EventsSupported@,
            DevicePropertiesSupported: self.DevicePropertiesSupported@,
            CaptureFormats: self.CaptureFormats@,
            ImageFormats: self.ImageFormats@,
            Manufacturer: self.Manufacturer@,
            Model: self.Model@,
            DeviceVersion: self.DeviceVersion@,
            SerialNumber: self.SerialNumber@,
        }
    }
}

/// The device description a payload decodes to; `None` unless the fields
/// parse in order and consume the payload exactly.
pub open spec fn spec_decode_device_info(s: Seq<u8>) -> Option<DeviceInfoModel> {
    match spec_read_u16(s, 0) {
        None => None,
        Some(g1) => match spec_read_u32(s, g1.1) {
            None => None,
            Some(g2) => match spec_read_u16(s, g2.1) {
                None => None,
                Some(g3) => match spec_read_str(s, g3.1) {
                    None => None,
                    Some(g4) => match spec_read_u16(s, g4.1) {
                        None => None,
                        Some(g5) => match spec_read_counted::<u16>(s, g5.1) {
                            None => None,
                            Some(g6) => match spec_read_counted::<u16>(s, g6.1) {
                                None => None,
                                Some(g7) => match spec_read_counted::<u16>(s, g7.1) {
                                    None => None,
                                    Some(g8) => match spec_read_counted::<u16>(s, g8.1) {
                                        None => None,
                                        Some(g9) => match spec_read_counted::<u16>(s, g9.1) {
                                            None => None,
                                            Some(g10) => match spec_read_str(s, g10.1) {
                                                None => None,
                                                Some(g11) => match spec_read_str(s, g11.1) {
                                                    None => None,
                                                    Some(g12) => match spec_read_str(s, g12.1) {
                                                        None => None,
                                                        Some(g13) => match spec_read_str(
                                                            s,
                                                            g13.1,
                                                        ) {
                                                            None => None,
                                                            Some(g14) => if g14.1 == s.len() {
                                                                Some(
                                                                    DeviceInfoModel {
                                                                        Version: g1.0,
                                                                        VendorExID: g2.0,
                                                                        VendorExVersion: g3.0,
                                                                        VendorExtensionDesc: g4.0,
                                                                        FunctionalMode: g5.0,
                                                                        OperationsSupported: g6.0,
                                                                        EventsSupported: g7.0,
                                                                        DevicePropertiesSupported:
                                                                            g8.0,
                                                                        CaptureFormats: g9.0,
                                                                        ImageFormats: g10.0,
                                                                        Manufacturer: g11.0,
                                                                        Model: g12.0,
                                                                        DeviceVersion: g13.0,
                                                                        SerialNumber: g14.0,
                                                                    },
                                                                )
                                                            } else {
                                                                None
                                                            },
                                                        },
                                                    },
                                                },
                                            },
                                        },
                                    },
                                },
                            },
                        },
                    },
                },
            },
        },
    }
}

impl PtpDeviceInfo {
    /// Decode a device description from one whole data-phase payload.
    pub fn decode(buf: &[u8]) -> (r: Result<PtpDeviceInfo, Error>)
        ensures
            match spec_decode_device_info(buf@) {
                Some(d) => r matches Ok(v) && v@ == d,
                None => r is Err && r->Err_0 is Malformed,
            },
    {
        let mut cur = Reader::new(slice_to_vec(buf));
        let version = match cur.read_ptp_u16() {
            Ok(v) => v,
            Err(e) => return Err(e),
        };
        let vendor_ex_id = match cur.read_ptp_u32() {
            Ok(v) => v,
            Err(e) => return Err(e),
        };
        let vendor_ex_version = match cur.read_ptp_u16() {
            Ok(v) => v,
            Err(e) => return Err(e),
        };
        let vendor_extension_desc = match cur.read_ptp_str() {
            Ok(v) => v,
            Err(e) => return Err(e),
        };
        let functional_mode = match cur.read_ptp_u16() {
            Ok(v) => v,
            Err(e) => return Err(e),
        };
        let operations_supported = match cur.read_ptp_u16_vec() {
            Ok(v) => v,
            Err(e) => return Err(e),
        };
        let events_supported = match cur.read_ptp_u16_vec() {
            Ok(v) => v,
            Err(e) => return Err(e),
        };
        let device_properties_supported = match cur.read_ptp_u16_vec() {
            Ok(v) => v,
            Err(e) => return Err(e),
        };
        let capture_formats = match cur.read_ptp_u16_vec() {
            Ok(v) => v,
            Err(e) => return Err(e),
        };
        let image_formats = match cur.read_ptp_u16_vec() {
            Ok(v) => v,
            Err(e) => return Err(e),
        };
        let manufacturer = match cur.read_ptp_str() {
            Ok(v) => v,
            Err(e) => return Err(e),
        };
        let model = match cur.read_ptp_str() {
            Ok(v) => v,
            Err(e) => return Err(e),
        };
        let device_version = match cur.read_ptp_str() {
            Ok(v) => v,
            Err(e) => return Err(e),
        };
        let serial_number = match cur.read_ptp_str() {
            Ok(v) => v,
            Err(e) => return Err(e),
        };
        match cur.expect_end() {
            Ok(_) => (),
            Err(e) => return Err(e),
        };
        Ok(
            PtpDeviceInfo {
                Version: version,
                VendorExID: vendor_ex_id,
                VendorExVersion: vendor_ex_version,
                VendorExtensionDesc: vendor_extension_desc,
                FunctionalMode: functional_mode,
                OperationsSupported: operations_supported,
                EventsSupported: events_supported,
                DevicePropertiesSupported: device_properties_supported,
                CaptureFormats: capture_formats,
                ImageFormats: image_formats,
                Manufacturer: manufacturer,
                Model: model,
                DeviceVersion: device_version,
                SerialNumber: serial_number,
            },
        )
    }
}

/// The model of a decoded object description.
#[allow(non_snake_case)]
pub struct ObjectInfoModel {
    pub StorageID: u32,
    pub ObjectFormat: u16,
    pub ProtectionStatus: u16,
    pub ObjectCompressedSize: u32,
    pub ThumbFormat: u16,
    pub ThumbCompressedSize: u32,
    pub ThumbPixWidth: u32,
    pub ThumbPixHeight: u32,
    pub ImagePixWidth: u32,
    pub ImagePixHeight: u32,
    pub ImageBitDepth: u32,
    pub ParentObject: u32,
    pub AssociationType: u16,
    pub AssociationDesc: u32,
    pub SequenceNumber: u32,
    pub Filename: Seq<char>,
    pub CaptureDate: Seq<char>,
    pub ModificationDate: Seq<char>,
    pub Keywords: Seq<char>,
}

/// An object description: what the camera reports about one stored object
/// (image, directory, ...) in reply to GetObjectInfo.
#[allow(non_snake_case)]
#[derive(Debug, Clone, PartialEq)]
pub struct PtpObjectInfo {
    pub StorageID: u32,
    pub ObjectFormat: u16,
    pub ProtectionStatus: u16,
    pub ObjectCompressedSize: u32,
    pub ThumbFormat: u16,
    pub ThumbCompressedSize: u32,
    pub ThumbPixWidth: u32,
    pub ThumbPixHeight: u32,
    pub ImagePixWidth: u32,
    pub ImagePixHeight: u32,
    pub ImageBitDepth: u32,
    pub ParentObject: u32,
    pub AssociationType: u16,
    pub AssociationDesc: u32,
    pub SequenceNumber: u32,
    pub Filename: String,
    pub CaptureDate: String,
    pub ModificationDate: String,
    pub Keywords: String,
}

impl View for PtpObjectInfo {
    type V = ObjectInfoModel;

    open spec fn view(&self) -> ObjectInfoModel {
        ObjectInfoModel {
            StorageID: self.StorageID,
            ObjectFormat: self.ObjectFormat,
            ProtectionStatus: self.ProtectionStatus,
            ObjectCompressedSize: self.ObjectCompressedSize,
            ThumbFormat: self.ThumbFormat,
            ThumbCompressedSize: self.ThumbCompressedSize,
            ThumbPixWidth: self.ThumbPixWidth,
            ThumbPixHeight: self.ThumbPixHeight,
            ImagePixWidth: self.ImagePixWidth,
            ImagePixHeight: self.ImagePixHeight,
            ImageBitDepth: self.ImageBitDepth,
            ParentObject: self.ParentObject,
            AssociationType: self.AssociationType,
            AssociationDesc: self.AssociationDesc,
            SequenceNumber: self.SequenceNumber,
            Filename: self.Filename@,
            CaptureDate: self.CaptureDate@,
            ModificationDate: self.ModificationDate@,
            Keywords: self.Keywords@,
        }
    }
}

/// The object description a payload decodes to; `None` unless the fields
/// parse in order and consume the payload exactly.
pub open spec fn spec_decode_object_info(s: Seq<u8>) -> Option<ObjectInfoModel> {
    match spec_read_u32(s, 0) {
        None => None,
        Some(g1) => match spec_read_u16(s, g1.1) {
            None => None,
            Some(g2) => match spec_read_u16(s, g2.1) {
                None => None,
                Some(g3) => match spec_read_u32(s, g3.1) {
                    None => None,
                    Some(g4) => match spec_read_u16(s, g4.1) {
                        None => None,
                        Some(g5) => match spec_read_u32(s, g5.1) {
                            None => None,
                            Some(g6) => match spec_read_u32(s, g6.1) {
                                None => None,
                                Some(g7) => match spec_read_u32(s, g7.1) {
                                    None => None,
                                    Some(g8) => match spec_read_u32(s, g8.1) {
                                        None => None,
                                        Some(g9) => match spec_read_u32(s, g9.1) {
                                            None => None,
                                            Some(g10) => match spec_read_u32(s, g10.1) {
                                                None => None,
                                                Some(g11) => match spec_read_u32(s, g11.1) {
                                                    None => None,
                                                    Some(g12) => match spec_read_u16(s, g12.1) {
                                                        None => None,
                                                        Some(g13) => match spec_read_u32(
                                                            s,
                                                            g13.1,
                                                        ) {
                                                            None => None,
                                                            Some(g14) => match spec_read_u32(
                                                                s,
                                                                g14.1,
                                                            ) {
                                                                None => None,
                                                                Some(g15) => match spec_read_str(
                                                                    s,
                                                                    g15.1,
                                                                ) {
                                                                    None => None,
                                                                    Some(g16) => match spec_read_str(
                                                                        s,
                                                                        g16.1,
                                                                    ) {
                                                                        None => None,
                                                                        Some(g17) => match spec_read_str(
                                                                            s,
                                                                            g17.1,
                                                                        ) {
                                                                            None => None,
                                                                            Some(g18) => match spec_read_str(
                                                                                s,
                                                                                g18.1,
                                                                            ) {
                                                                                None => None,
                                                                                Some(g19) => if
                                                                                g19.1 == s.len() {
                                                                                    Some(
                                                                                        ObjectInfoModel {
                                                                                            StorageID: g1.0,
                                                                                            ObjectFormat: g2.0,
                                                                                            ProtectionStatus: g3.0,
                                                                                            ObjectCompressedSize: g4.0,
                                                                                            ThumbFormat: g5.0,
                                                                                            ThumbCompressedSize: g6.0,
                                                                                            ThumbPixWidth: g7.0,
                                                                                            ThumbPixHeight: g8.0,
                                                                                            ImagePixWidth: g9.0,
                                                                                            ImagePixHeight: g10.0,
                                                                                            ImageBitDepth: g11.0,
                                                                                            ParentObject: g12.0,
                                                                                            AssociationType: g13.0,
                                                                                            AssociationDesc: g14.0,
                                                                                            SequenceNumber: g15.0,
                                                                                            Filename: g16.0,
                                                                                            CaptureDate: g17.0,
                                                                                            ModificationDate: g18.0,
                                                                                            Keywords: g19.0,
                                                                                        },
                                                                                    )
                                                                                } else {
                                                                                    None
                                                                                },
                                                                            },
                                                                        },
                                                                    },
                                                                },
                                                            },
                                                        },
                                                    },
                                                },
                                            },
                                        },
                                    },
                                },
                            },
                        },
                    },
                },
            },
        },
    }
}

impl PtpObjectInfo {
    /// Decode an object description from one whole data-phase payload.
    pub fn decode(buf: &[u8]) -> (r: Result<PtpObjectInfo, Error>)
        ensures
            match spec_decode_object_info(buf@) {
                Some(d) => r matches Ok(v) && v@ == d,
                None => r is Err && r->Err_0 is Malformed,
            },
    {
        let mut cur = Reader::new(slice_to_vec(buf));
        let storage_id = match cur.read_ptp_u32() {
            Ok(v) => v,
            Err(e) => return Err(e),
        };
        let object_format = match cur.read_ptp_u16() {
            Ok(v) => v,
            Err(e) => return Err(e),
        };
        let protection_status = match cur.read_ptp_u16() {
            Ok(v) => v,
            Err(e) => return Err(e),
        };
        let object_compressed_size = match cur.read_ptp_u32() {
            Ok(v) => v,
            Err(e) => return Err(e),
        };
        let thumb_format = match cur.read_ptp_u16() {
            Ok(v) => v,
            Err(e) => return Err(e),
        };
        let thumb_compressed_size = match cur.read_ptp_u32() {
            Ok(v) => v,
            Err(e) => return Err(e),
        };
        let thumb_pix_width = match cur.read_ptp_u32() {
            Ok(v) => v,
            Err(e) => return Err(e),
        };
        let thumb_pix_height = match cur.read_ptp_u32() {
            Ok(v) => v,
            Err(e) => return Err(e),
        };
        let image_pix_width = match cur.read_ptp_u32() {
            Ok(v) => v,
            Err(e) => return Err(e),
        };
        let image_pix_height = match cur.read_ptp_u32() {
            Ok(v) => v,
            Err(e) => return Err(e),
        };
        let image_bit_depth = match cur.read_ptp_u32() {
            Ok(v) => v,
            Err(e) => return Err(e),
        };
        let parent_object = match cur.read_ptp_u32() {
            Ok(v) => v,
            Err(e) => return Err(e),
        };
        let association_type = match cur.read_ptp_u16() {
            Ok(v) => v,
            Err(e) => return Err(e),
        };
        let association_desc = match cur.read_ptp_u32() {
            Ok(v) => v,
            Err(e) => return Err(e),
        };
        let sequence_number = match cur.read_ptp_u32() {
            Ok(v) => v,
            Err(e) => return Err(e),
        };
        let filename = match cur.read_ptp_str() {
            Ok(v) => v,
            Err(e) => return Err(e),
        };
        let capture_date = match cur.read_ptp_str() {
            Ok(v) => v,
            Err(e) => return Err(e),
        };
        let modification_date = match cur.read_ptp_str() {
            Ok(v) => v,
            Err(e) => return Err(e),
        };
        let keywords = match cur.read_ptp_str() {
            Ok(v) => v,
            Err(e) => return Err(e),
        };
        match cur.expect_end() {
            Ok(_) => (),
            Err(e) => return Err(e),
        };
        Ok(
            PtpObjectInfo {
                StorageID: storage_id,
                ObjectFormat: object_format,
                ProtectionStatus: protection_status,
                ObjectCompressedSize: object_compressed_size,
                ThumbFormat: thumb_format,
                ThumbCompressedSize: thumb_compressed_size,
                ThumbPixWidth: thumb_pix_width,
                ThumbPixHeight: thumb_pix_height,
                ImagePixWidth: image_pix_width,
                ImagePixHeight: image_pix_height,
                ImageBitDepth: image_bit_depth,
                ParentObject: parent_object,
                AssociationType: association_type,
                AssociationDesc: association_desc,
                SequenceNumber: sequence_number,
                Filename: filename,
                CaptureDate: capture_date,
                ModificationDate: modification_date,
                Keywords: keywords,
            },
        )
    }
}

/// The model of a decoded storage description.
#[allow(non_snake_case)]
pub struct StorageInfoModel {
    pub StorageType: u16,
    pub FilesystemType: u16,
    pub AccessCapability: u16,
    pub MaxCapacity: u64,
    pub FreeSpaceInBytes: u64,
    pub FreeSpaceInImages: u32,
    pub StorageDescription: Seq<char>,
    pub VolumeLabel: Seq<char>,
}

/// A storage description: what the camera reports about one storage unit in
/// reply to GetStorageInfo.
#[allow(non_snake_case)]
#[derive(Debug, PartialEq)]
pub struct PtpStorageInfo {
    pub StorageType: u16,
    pub FilesystemType: u16,
    pub AccessCapability: u16,
    pub MaxCapacity: u64,
    pub FreeSpaceInBytes: u64,
    pub FreeSpaceInImages: u32,
    pub StorageDescription: String,
    pub VolumeLabel: String,
}

impl View for PtpStorageInfo {
    type V = StorageInfoModel;

    open spec fn view(&self) -> StorageInfoModel {
        StorageInfoModel {
            StorageType: self.StorageType,
            FilesystemType: self.FilesystemType,
            AccessCapability: self.AccessCapability,
            MaxCapacity: self.MaxCapacity,
            FreeSpaceInBytes: self.FreeSpaceInBytes,
            FreeSpaceInImages: self.FreeSpaceInImages,
            StorageDescription: self.StorageDescription@,
            VolumeLabel: self.VolumeLabel@,
        }
    }
}

/// The storage description read at `pos`, and the position after it.
pub open spec fn spec_decode_storage_info(s: Seq<u8>, pos: int) -> Option<(
    StorageInfoModel,
    int,
)> {
    match spec_read_u16(s, pos) {
        None => None,
        Some(g1) => match spec_read_u16(s, g1.1) {
            None => None,
            Some(g2) => match spec_read_u16(s, g2.1) {
                None => None,
                Some(g3) => match spec_read_u64(s, g3.1) {
                    None => None,
                    Some(g4) => match spec_read_u64(s, g4.1) {
                        None => None,
                        Some(g5) => match spec_read_u32(s, g5.1) {
                            None => None,
                            Some(g6) => match spec_read_str(s, g6.1) {
                                None => None,
                                Some(g7) => match spec_read_str(s, g7.1) {
                                    None => None,
                                    Some(g8) => Some(
                                        (
                                            StorageInfoModel {
                                                StorageType: g1.0,
                                                FilesystemType: g2.0,
                                                AccessCapability: g3.0,
                                                MaxCapacity: g4.0,
                                                FreeSpaceInBytes: g5.0,
                                                FreeSpaceInImages: g6.0,
                                                StorageDescription: g7.0,
                                                VolumeLabel: g8.0,
                                            },
                                            g8.1,
                                        ),
                                    ),
                                },
                            },
                        },
                    },
                },
            },
        },
    }
}

impl PtpStorageInfo {
    /// Decode a storage description from a reader; the caller decides what
    /// may follow (a whole-payload decode checks for the end).
    pub fn decode(cur: &mut Reader) -> (r: Result<PtpStorageInfo, Error>)
        requires
            old(cur).wf(),
        ensures
            final(cur).wf(),
            final(cur).bytes() == old(cur).bytes(),
            match spec_decode_storage_info(old(cur).bytes(), old(cur).position()) {
                Some(d) => r matches Ok(v) && v@ == d.0 && final(cur).position() == d.1,
                None => r is Err && r->Err_0 is Malformed,
            },
    {
        let storage_type = match cur.read_ptp_u16() {
            Ok(v) => v,
            Err(e) => return Err(e),
        };
        let filesystem_type = match cur.read_ptp_u16() {
            Ok(v) => v,
            Err(e) => return Err(e),
        };
        let access_capability = match cur.read_ptp_u16() {
            Ok(v) => v,
            Err(e) => return Err(e),
        };
        let max_capacity = match cur.read_ptp_u64() {
            Ok(v) => v,
            Err(e) => return Err(e),
        };
        let free_space_in_bytes = match cur.read_ptp_u64() {
            Ok(v) => v,
            Err(e) => return Err(e),
        };
        let free_space_in_images = match cur.read_ptp_u32() {
            Ok(v) => v,
            Err(e) => return Err(e),
        };
        let storage_description = match cur.read_ptp_str() {
            Ok(v) => v,
            Err(e) => return Err(e),
        };
        let volume_label = match cur.read_ptp_str() {
            Ok(v) => v,
            Err(e) => return Err(e),
        };
        Ok(
            PtpStorageInfo {
                StorageType: storage_type,
                FilesystemType: filesystem_type,
                AccessCapability: access_capability,
                MaxCapacity: max_capacity,
                FreeSpaceInBytes: free_space_in_bytes,
                FreeSpaceInImages: free_space_in_images,
                StorageDescription: storage_description,
                VolumeLabel: volume_label,
            },
        )
    }
}

/// The u32 array a whole payload decodes to (object handles, storage ids);
/// `None` unless the array consumes the payload exactly.
pub open spec fn spec_decode_u32_array_payload(s: Seq<u8>) -> Option<Seq<u32>> {
    match spec_read_counted::<u32>(s, 0) {
        None => None,
        Some(vp) => if vp.1 == s.len() {
            Some(vp.0)
        } else {
            None
        },
    }
}

/// Decode a whole data-phase payload as a counted u32 array (object handles,
/// storage ids); trailing bytes are malformed.
pub fn decode_u32_array_payload(buf: &[u8]) -> (r: Result<Vec<u32>, Error>)
    ensures
        match spec_decode_u32_array_payload(buf@) {
            Some(vs) => r matches Ok(v) && v@ == vs,
            None => r is Err && r->Err_0 is Malformed,
        },
{
    let mut cur = Reader::new(slice_to_vec(buf));
    let value = match cur.read_ptp_u32_vec() {
        Ok(v) => v,
        Err(e) => return Err(e),
    };
    match cur.expect_end() {
        Ok(_) => (),
        Err(e) => return Err(e),
    };
    Ok(value)
}

/// The single u32 a whole payload decodes to (an object count); `None`
/// unless it consumes the payload exactly.
pub open spec fn spec_decode_u32_payload(s: Seq<u8>) -> Option<u32> {
    match spec_read_u32(s, 0) {
        None => None,
        Some(vp) => if vp.1 == s.len() {
            Some(vp.0)
        } else {
            None
        },
    }
}

/// Decode a whole data-phase payload as one u32 (an object count); trailing
/// bytes are malformed.
pub fn decode_u32_payload(buf: &[u8]) -> (r: Result<u32, Error>)
    ensures
        match spec_decode_u32_payload(buf@) {
            Some(v) => r == Ok::<u32, Error>(v),
            None => r is Err && r->Err_0 is Malformed,
        },
{
    let mut cur = Reader::new(slice_to_vec(buf));
    let value = match cur.read_ptp_u32() {
        Ok(v) => v,
        Err(e) => return Err(e),
    };
    match cur.expect_end() {
        Ok(_) => (),
        Err(e) => return Err(e),
    };
    Ok(value)
}

/// The storage description a whole payload decodes to; `None` unless it
/// consumes the payload exactly.
pub open spec fn spec_decode_storage_info_payload(s: Seq<u8>) -> Option<StorageInfoModel> {
    match spec_decode_storage_info(s, 0) {
        None => None,
        Some(d) => if d.1 == s.len() {
            Some(d.0)
        } else {
            None
        },
    }
}

/// Law: a whole-payload decode succeeds only when the record consumes the
/// payload exactly; any unconsumed trailing byte makes it malformed.
pub proof fn lemma_payload_decode_consumes_exactly(s: Seq<u8>)
    ensures
        (spec_decode_storage_info(s, 0) matches Some(d) && d.1 < s.len())
            ==> spec_decode_storage_info_payload(s) is None,
        spec_decode_storage_info_payload(s) matches Some(_)
            ==> (spec_decode_storage_info(s, 0) matches Some(d) && d.1 == s.len()),
{
}

/// Decode a whole data-phase payload as a storage description; trailing
/// bytes are malformed.
pub fn decode_storage_info_payload(buf: &[u8]) -> (r: Result<PtpStorageInfo, Error>)
    ensures
        match spec_decode_storage_info_payload(buf@) {
            Some(d) => r matches Ok(v) && v@ == d,
            None => r is Err && r->Err_0 is Malformed,
        },
{
    let mut cur = Reader::new(slice_to_vec(buf));
    let value = match PtpStorageInfo::decode(&mut cur) {
        Ok(v) => v,
        Err(e) => return Err(e),
    };
    match cur.expect_end() {
        Ok(_) => (),
        Err(e) => return Err(e),
    };
    Ok(value)
}


/// The model of a property's form: no constraint, a range, or an explicit
/// enumeration of allowed values.
pub enum FormModel {
    NoForm,
    Range { min: PtpValue, max: PtpValue, step: PtpValue },
    Enumeration { values: Seq<PtpValue> },
}

/// The views of a sequence of typed values.
pub open spec fn spec_value_views(ds: Seq<PtpDataType>) -> Seq<PtpValue> {
    ds.map_values(|d: PtpDataType| d@)
}

/// The form constraint of a device property: selected by a one-byte
/// discriminant after the property's current value (0x01 range, 0x02
/// enumeration, anything else no form).
#[allow(non_snake_case)]
#[derive(Debug, PartialEq)]
pub enum PtpFormData {
    NoForm,
    Range { minValue: PtpDataType, maxValue: PtpDataType, step: PtpDataType },
    Enumeration { array: Vec<PtpDataType> },
}

impl View for PtpFormData {
    type V = FormModel;

    open spec fn view(&self) -> FormModel {
        match self {
            PtpFormData::NoForm => FormModel::NoForm,
            PtpFormData::Range { minValue, maxValue, step } => FormModel::Range {
                min: minValue@,
                max: maxValue@,
                step: step@,
            },
            PtpFormData::Enumeration { array } => FormModel::Enumeration {
                values: spec_value_views(array@),
            },
        }
    }
}

/// `n` typed values of one type code, read in sequence.
pub open spec fn spec_read_values(kind: u16, s: Seq<u8>, pos: int, n: nat) -> Option<(
    Seq<PtpValue>,
    int,
)>
    decreases n,
{
    if n == 0 {
        Some((Seq::empty(), pos))
    } else {
        match spec_read_type(kind, s, pos) {
            None => None,
            Some(vp) => match spec_read_values(kind, s, vp.1, (n - 1) as nat) {
                None => None,
                Some(rp) => Some((seq![vp.0] + rp.0, rp.1)),
            },
        }
    }
}

/// A successful `n`-value read yields exactly `n` values.
proof fn lemma_read_values_len(kind: u16, s: Seq<u8>, pos: int, n: nat)
    ensures
        spec_read_values(kind, s, pos, n) matches Some(vp) ==> vp.0.len() == n,
    decreases n,
{
    if n > 0 {
        match spec_read_type(kind, s, pos) {
            Some(vp) => {
                lemma_read_values_len(kind, s, vp.1, (n - 1) as nat);
            },
            None => {},
        }
    }
}

/// Read `n` typed values of one type code.
fn read_values(kind: u16, cur: &mut Reader, n: u16) -> (r: Result<Vec<PtpDataType>, Error>)
    requires
        old(cur).wf(),
    ensures
        final(cur).wf(),
        final(cur).bytes() == old(cur).bytes(),
        match spec_read_values(kind, old(cur).bytes(), old(cur).position(), n as nat) {
            Some(vp) => r matches Ok(v) && spec_value_views(v@) == vp.0 && final(cur).position()
                == vp.1,
            None => r is Err && r->Err_0 is Malformed,
        },
{
    let ghost s = cur.bytes();
    let ghost p0 = cur.position();
    let mut out: Vec<PtpDataType> = Vec::new();
    let mut i: u16 = 0;
    proof {
        match spec_read_values(kind, s, p0, n as nat) {
            Some(vp) => {
                assert(vp.0.skip(0) =~= vp.0);
                assert(spec_value_views(out@) =~= vp.0.take(0));
            },
            None => {},
        }
    }
    while i < n
        invariant
            s == old(cur).bytes(),
            p0 == old(cur).position(),
            cur.wf(),
            cur.bytes() == s,
            i <= n,
            match spec_read_values(kind, s, p0, n as nat) {
                Some(vp) => spec_read_values(kind, s, cur.position(), (n - i) as nat) == Some(
                    (vp.0.skip(i as int), vp.1),
                ) && spec_value_views(out@) == vp.0.take(i as int),
                None => spec_read_values(kind, s, cur.position(), (n - i) as nat) is None,
            },
        decreases n - i,
    {
        let ghost pos_before = cur.position();
        let v = match PtpDataType::read_type(kind, cur) {
            Ok(v) => v,
            Err(e) => {
                proof {
                    assert(spec_read_values(kind, s, pos_before, (n - i) as nat) is None);
                }
                return Err(e);
            },
        };
        proof {
            let k = (n - i) as nat;
            lemma_read_values_len(kind, s, p0, n as nat);
            match spec_read_values(kind, s, p0, n as nat) {
                Some(vp) => {
                    match spec_read_values(kind, s, cur.position(), (k - 1) as nat) {
                        Some(rp) => {
                            assert(vp.0.skip(i as int) =~= seq![v@] + rp.0);
                            assert(vp.0.skip(i as int)[0] == v@);
                            assert(vp.0[i as int] == v@);
                            assert(rp.0 =~= vp.0.skip(i as int).drop_first());
                            assert(vp.0.skip(i as int).drop_first() =~= vp.0.skip(i + 1));
                            assert(spec_value_views(out@).push(v@) =~= spec_value_views(
                                out@.push(v),
                            ));
                            assert(vp.0.take(i as int).push(vp.0[i as int]) =~= vp.0.take(i + 1));
                        },
                        None => {
                            assert(spec_read_values(kind, s, pos_before, k) is None);
                            assert(false);
                        },
                    }
                },
                None => {},
            }
        }
        out.push(v);
        i = i + 1;
    }
    proof {
        lemma_read_values_len(kind, s, p0, n as nat);
        match spec_read_values(kind, s, p0, n as nat) {
            Some(vp) => {
                assert(vp.0.skip(n as int) =~= Seq::<PtpValue>::empty());
                assert(spec_read_values(kind, s, cur.position(), 0) == Some(
                    (Seq::<PtpValue>::empty(), cur.position()),
                ));
                assert(vp.0.take(n as int) =~= vp.0);
            },
            None => {
                assert(spec_read_values(kind, s, cur.position(), 0) is Some);
            },
        }
    }
    Ok(out)
}

/// The model of a decoded property description.
#[allow(non_snake_case)]
pub struct PropInfoModel {
    pub PropertyCode: u16,
    pub DataType: u16,
    pub GetSet: u8,
    pub IsEnable: u8,
    pub FactoryDefault: PtpValue,
    pub Current: PtpValue,
    pub Form: FormModel,
}

/// A device property description. Its default and current values, and its
/// form sub-record, are decoded with the property's own type code, which is
/// read earlier in the same record.
#[allow(non_snake_case)]
#[derive(Debug, PartialEq)]
pub struct PtpPropInfo {
    pub PropertyCode: u16,
    pub DataType: u16,
    pub GetSet: u8,
    pub IsEnable: u8,
    pub FactoryDefault: PtpDataType,
    pub Current: PtpDataType,
    pub Form: PtpFormData,
}

impl View for PtpPropInfo {
    type V = PropInfoModel;

    open spec fn view(&self) -> PropInfoModel {
        PropInfoModel {
            PropertyCode: self.PropertyCode,
            DataType: self.DataType,
            GetSet: self.GetSet,
            IsEnable: self.IsEnable,
            FactoryDefault: self.FactoryDefault@,
            Current: self.Current@,
            Form: self.Form@,
        }
    }
}

/// The property description read at `pos`, and the position after it.
pub open spec fn spec_decode_prop_info(s: Seq<u8>, pos: int) -> Option<(PropInfoModel, int)> {
    match spec_read_u16(s, pos) {
        None => None,
        Some(g1) => match spec_read_u16(s, g1.1) {
            None => None,
            Some(g2) => match spec_read_u8(s, g2.1) {
                None => None,
                Some(g3) => match spec_read_u8(s, g3.1) {
                    None => None,
                    Some(g4) => match spec_read_type(g2.0, s, g4.1) {
                        None => None,
                        Some(g5) => match spec_read_type(g2.0, s, g5.1) {
                            None => None,
                            Some(g6) => match spec_read_u8(s, g6.1) {
                                None => None,
                                Some(g7) => if g7.0 == 1 {
                                    match spec_read_type(g2.0, s, g7.1) {
                                        None => None,
                                        Some(h1) => match spec_read_type(g2.0, s, h1.1) {
                                            None => None,
                                            Some(h2) => match spec_read_type(g2.0, s, h2.1) {
                                                None => None,
                                                Some(h3) => Some(
                                                    (
                                                        PropInfoModel {
                                                            PropertyCode: g1.0,
                                                            DataType: g2.0,
                                                            GetSet: g3.0,
                                                            IsEnable: g4.0,
                                                            FactoryDefault: g5.0,
                                                            Current: g6.0,
                                                            Form: FormModel::Range {
                                                                min: h1.0,
                                                                max: h2.0,
                                                                step: h3.0,
                                                            },
                                                        },
                                                        h3.1,
                                                    ),
                                                ),
                                            },
                                        },
                                    }
                                } else if g7.0 == 2 {
                                    match spec_read_u16(s, g7.1) {
                                        None => None,
                                        Some(h1) => match spec_read_values(
                                            g2.0,
                                            s,
                                            h1.1,
                                            h1.0 as nat,
                                        ) {
                                            None => None,
                                            Some(h2) => Some(
                                                (
                                                    PropInfoModel {
                                                        PropertyCode: g1.0,
                                                        DataType: g2.0,
                                                        GetSet: g3.0,
                                                        IsEnable: g4.0,
                                                        FactoryDefault: g5.0,
                                                        Current: g6.0,
                                                        Form: FormModel::Enumeration {
                                                            values: h2.0,
                                                        },
                                                    },
                                                    h2.1,
                                                ),
                                            ),
                                        },
                                    }
                                } else {
                                    Some(
                                        (
                                            PropInfoModel {
                                                PropertyCode: g1.0,
                                                DataType: g2.0,
                                                GetSet: g3.0,
                                                IsEnable: g4.0,
                                                FactoryDefault: g5.0,
                                                Current: g6.0,
                                                Form: FormModel::NoForm,
                                            },
                                            g7.1,
                                        ),
                                    )
                                },
                            },
                        },
                    },
                },
            },
        },
    }
}

impl PtpPropInfo {
    /// Decode a property description from a reader, threading the
    /// property's own type code into its value and form fields.
    pub fn decode(cur: &mut Reader) -> (r: Result<PtpPropInfo, Error>)
        requires
            old(cur).wf(),
        ensures
            final(cur).wf(),
            final(cur).bytes() == old(cur).bytes(),
            match spec_decode_prop_info(old(cur).bytes(), old(cur).position()) {
                Some(d) => r matches Ok(v) && v@ == d.0 && final(cur).position() == d.1,
                None => r is Err && r->Err_0 is Malformed,
            },
    {
        let property_code = match cur.read_ptp_u16() {
            Ok(v) => v,
            Err(e) => return Err(e),
        };
        let data_type = match cur.read_ptp_u16() {
            Ok(v) => v,
            Err(e) => return Err(e),
        };
        let get_set = match cur.read_ptp_u8() {
            Ok(v) => v,
            Err(e) => return Err(e),
        };
        let is_enable = match cur.read_ptp_u8() {
            Ok(v) => v,
            Err(e) => return Err(e),
        };
        let factory_default = match PtpDataType::read_type(data_type, cur) {
            Ok(v) => v,
            Err(e) => return Err(e),
        };
        let current = match PtpDataType::read_type(data_type, cur) {
            Ok(v) => v,
            Err(e) => return Err(e),
        };
        let form_tag = match cur.read_ptp_u8() {
            Ok(v) => v,
            Err(e) => return Err(e),
        };
        let form = if form_tag == 1 {
            let min_value = match PtpDataType::read_type(data_type, cur) {
                Ok(v) => v,
                Err(e) => return Err(e),
            };
            let max_value = match PtpDataType::read_type(data_type, cur) {
                Ok(v) => v,
                Err(e) => return Err(e),
            };
            let step = match PtpDataType::read_type(data_type, cur) {
                Ok(v) => v,
                Err(e) => return Err(e),
            };
            PtpFormData::Range { minValue: min_value, maxValue: max_value, step }
        } else if form_tag == 2 {
            let count = match cur.read_ptp_u16() {
                Ok(v) => v,
                Err(e) => return Err(e),
            };
            let array = match read_values(data_type, cur, count) {
                Ok(v) => v,
                Err(e) => return Err(e),
            };
            PtpFormData::Enumeration { array }
        } else {
            PtpFormData::NoForm
        };
        Ok(
            PtpPropInfo {
                PropertyCode: property_code,
                DataType: data_type,
                GetSet: get_set,
                IsEnable: is_enable,
                FactoryDefault: factory_default,
                Current: current,
                Form: form,
            },
        )
    }
}


/// One camera object with its children, as assembled by a traversal layer
/// above the transaction engine.
#[derive(Debug)]
pub struct PtpObjectTree {
    pub handle: u32,
    pub info: PtpObjectInfo,
    pub children: Option<Vec<PtpObjectTree>>,
}

/// The number of nodes in a tree.
pub open spec fn spec_tree_size(t: PtpObjectTree) -> nat
    decreases t,
{
    1 + (match t.children {
        Some(cs) => spec_forest_size(cs@),
        None => 0,
    })
}

/// The number of nodes in a forest.
pub open spec fn spec_forest_size(ts: Seq<PtpObjectTree>) -> nat
    decreases ts,
{
    if ts.len() == 0 {
        0
    } else {
        spec_tree_size(ts[0]) + spec_forest_size(ts.drop_first())
    }
}

/// Appending one tree adds its size to the forest's.
proof fn lemma_forest_size_push(ts: Seq<PtpObjectTree>, t: PtpObjectTree)
    ensures
        spec_forest_size(ts.push(t)) == spec_forest_size(ts) + spec_tree_size(t),
    decreases ts.len(),
{
    if ts.len() == 0 {
        assert(ts.push(t)[0] == t);
        assert(ts.push(t).drop_first() =~= Seq::<PtpObjectTree>::empty());
        assert(spec_forest_size(Seq::<PtpObjectTree>::empty()) == 0);
    } else {
        lemma_forest_size_push(ts.drop_first(), t);
        assert(ts.push(t).drop_first() =~= ts.drop_first().push(t));
        assert(ts.push(t)[0] == ts[0]);
    }
}

impl Clone for PtpObjectTree {
    /// A deep copy of the tree, node by node.
    fn clone(&self) -> (r: PtpObjectTree)
        decreases *self,
    {
        let children = match &self.children {
            Some(cs) => {
                let mut v: Vec<PtpObjectTree> = Vec::new();
                let mut i: usize = 0;
                while i < cs.len()
                    invariant
                        self.children matches Some(w) && w@ == cs@,
                    decreases cs@.len() - i,
                {
                    proof {
                        assert(decreases_to!(*self => cs@[i as int]));
                    }
                    v.push(cs[i].clone());
                    i = i + 1;
                }
                Some(v)
            },
            None => None,
        };
        PtpObjectTree { handle: self.handle, info: self.info.clone(), children }
    }
}

impl PtpObjectTree {
    /// Flatten the tree into (path, node) pairs, depth first; each node's
    /// path is its ancestors' filenames joined by '/'. Every node of the
    /// tree appears exactly once.
    pub fn walk(&self) -> (r: Vec<(String, PtpObjectTree)>)
        ensures
            r@.len() == spec_tree_size(*self),
    {
        let mut out: Vec<(String, PtpObjectTree)> = Vec::new();
        self.walk_into(String::new(), &mut out);
        out
    }

    /// Append this node and its descendants to `out`.
    fn walk_into(&self, prefix: String, out: &mut Vec<(String, PtpObjectTree)>)
        ensures
            final(out)@.len() == old(out)@.len() + spec_tree_size(*self),
        decreases *self,
    {
        let path = if prefix.as_str().unicode_len() == 0 {
            let mut p = String::new();
            p.append(self.info.Filename.as_str());
            p
        } else {
            let mut p = String::new();
            p.append(prefix.as_str());
            p.append("/");
            p.append(self.info.Filename.as_str());
            p
        };
        out.push((path.clone(), self.clone()));
        match &self.children {
            Some(cs) => {
                let ghost entry_len = out@.len();
                let mut i: usize = 0;
                proof {
                    assert(cs@.take(0) =~= Seq::<PtpObjectTree>::empty());
                }
                while i < cs.len()
                    invariant
                        i <= cs@.len(),
                        self.children matches Some(v) && v@ == cs@,
                        out@.len() == entry_len + spec_forest_size(cs@.take(i as int)),
                    decreases cs@.len() - i,
                {
                    proof {
                        assert(decreases_to!(*self => cs@[i as int]));
                    }
                    cs[i].walk_into(path.clone(), out);
                    proof {
                        lemma_forest_size_push(cs@.take(i as int), cs@[i as int]);
                        assert(cs@.take(i + 1) =~= cs@.take(i as int).push(cs@[i as int]));
                    }
                    i = i + 1;
                }
                proof {
                    assert(cs@.take(cs@.len() as int) =~= cs@);
                }
            },
            None => {},
        }
    }
}

} // verus!
