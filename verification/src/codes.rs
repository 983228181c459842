//! Container kinds and the standard PTP command and response code tables.

use vstd::prelude::*;

verus! {

/// The four framed unit kinds of the protocol.
#[derive(Debug, Clone, Copy, PartialEq, Eq, Structural)]
pub enum PtpContainerType {
    Command,
    Data,
    Response,
    Event,
}

/// The wire tag of each container kind.
pub open spec fn spec_container_type_u16(t: PtpContainerType) -> u16 {
    match t {
        PtpContainerType::Command => 1,
        PtpContainerType::Data => 2,
        PtpContainerType::Response => 3,
        PtpContainerType::Event => 4,
    }
}

/// The container kind a wire tag decodes to, if any.
pub open spec fn spec_container_type_from_u16(v: u16) -> Option<PtpContainerType> {
    if v == 1 {
        Some(PtpContainerType::Command)
    } else if v == 2 {
        Some(PtpContainerType::Data)
    } else if v == 3 {
        Some(PtpContainerType::Response)
    } else if v == 4 {
        Some(PtpContainerType::Event)
    } else {
        None
    }
}

impl PtpContainerType {
    /// Decode a 16-bit wire tag into a container kind; tags other than
    /// 1 through 4 are not valid containers.
    pub fn from_u16(v: u16) -> (r: Option<PtpContainerType>)
        ensures
            r == spec_container_type_from_u16(v),
    {
        if v == 1 {
            Some(PtpContainerType::Command)
        } else if v == 2 {
            Some(PtpContainerType::Data)
        } else if v == 3 {
            Some(PtpContainerType::Response)
        } else if v == 4 {
            Some(PtpContainerType::Event)
        } else {
            None
        }
    }

    /// The wire tag this kind is written as.
    pub fn as_u16(&self) -> (r: u16)
        ensures
            r == spec_container_type_u16(*self),
    {
        match self {
            PtpContainerType::Command => 1,
            PtpContainerType::Data => 2,
            PtpContainerType::Response => 3,
            PtpContainerType::Event => 4,
        }
    }
}

/// Response code type.
pub type ResponseCode = u16;

/// Command code type.
pub type CommandCode = u16;

/// The response code a device reports on success.
pub const RESPONSE_OK: u16 = 0x2001;

/// The standard response code table.
pub struct StandardResponseCode;

/// Whether `v` is one of the standard PTP response codes.
pub open spec fn spec_known_response_code(v: u16) -> bool {
    0x2000 <= v <= 0x2020
}

/// The characters of each standard code's name.
pub open spec fn spec_response_name(v: u16) -> Seq<char> {
    if v == 0x2000 {
        "Undefined"@
    } else if v == 0x2001 {
        "Ok"@
    } else if v == 0x2002 {
        "GeneralError"@
    } else if v == 0x2003 {
        "SessionNotOpen"@
    } else if v == 0x2004 {
        "InvalidTransactionId"@
    } else if v == 0x2005 {
        "OperationNotSupported"@
    } else if v == 0x2006 {
        "ParameterNotSupported"@
    } else if v == 0x2007 {
        "IncompleteTransfer"@
    } else if v == 0x2008 {
        "InvalidStorageId"@
    } else if v == 0x2009 {
        "InvalidObjectHandle"@
    } else if v == 0x200A {
        "DevicePropNotSupported"@
    } else if v == 0x200B {
        "InvalidObjectFormatCode"@
    } else if v == 0x200C {
        "StoreFull"@
    } else if v == 0x200D {
        "ObjectWriteProtected"@
    } else if v == 0x200E {
        "StoreReadOnly"@
    } else if v == 0x200F {
        "AccessDenied"@
    } else if v == 0x2010 {
        "NoThumbnailPresent"@
    } else if v == 0x2011 {
        "SelfTestFailed"@
    } else if v == 0x2012 {
        "PartialDeletion"@
    } else if v == 0x2013 {
        "StoreNotAvailable"@
    } else if v == 0x2014 {
        "SpecificationByFormatUnsupported"@
    } else if v == 0x2015 {
        "NoValidObjectInfo"@
    } else if v == 0x2016 {
        "InvalidCodeFormat"@
    } else if v == 0x2017 {
        "UnknownVendorCode"@
    } else if v == 0x2018 {
        "CaptureAlreadyTerminated"@
    } else if v == 0x2019 {
        "DeviceBusy"@
    } else if v == 0x201A {
        "InvalidParentObject"@
    } else if v == 0x201B {
        "InvalidDevicePropFormat"@
    } else if v == 0x201C {
        "InvalidDevicePropValue"@
    } else if v == 0x201D {
        "InvalidParameter"@
    } else if v == 0x201E {
        "SessionAlreadyOpen"@
    } else if v == 0x201F {
        "TransactionCancelled"@
    } else if v == 0x2020 {
        "SpecificationOfDestinationUnsupported"@
    } else {
        Seq::empty()
    }
}

impl StandardResponseCode {
    /// The name of a standard response code; `None` for codes outside the
    /// standard table (vendor extensions and the like).
    pub fn name(v: ResponseCode) -> (r: Option<&'static str>)
        ensures
            r is Some <==> spec_known_response_code(v),
            r matches Some(s) ==> s@ == spec_response_name(v),
    {
        match v {
            0x2000 => Some("Undefined"),
            0x2001 => Some("Ok"),
            0x2002 => Some("GeneralError"),
            0x2003 => Some("SessionNotOpen"),
            0x2004 => Some("InvalidTransactionId"),
            0x2005 => Some("OperationNotSupported"),
            0x2006 => Some("ParameterNotSupported"),
            0x2007 => Some("IncompleteTransfer"),
            0x2008 => Some("InvalidStorageId"),
            0x2009 => Some("InvalidObjectHandle"),
            0x200A => Some("DevicePropNotSupported"),
            0x200B => Some("InvalidObjectFormatCode"),
            0x200C => Some("StoreFull"),
            0x200D => Some("ObjectWriteProtected"),
            0x200E => Some("StoreReadOnly"),
            0x200F => Some("AccessDenied"),
            0x2010 => Some("NoThumbnailPresent"),
            0x2011 => Some("SelfTestFailed"),
            0x2012 => Some("PartialDeletion"),
            0x2013 => Some("StoreNotAvailable"),
            0x2014 => Some("SpecificationByFormatUnsupported"),
            0x2015 => Some("NoValidObjectInfo"),
            0x2016 => Some("InvalidCodeFormat"),
            0x2017 => Some("UnknownVendorCode"),
            0x2018 => Some("CaptureAlreadyTerminated"),
            0x2019 => Some("DeviceBusy"),
            0x201A => Some("InvalidParentObject"),
            0x201B => Some("InvalidDevicePropFormat"),
            0x201C => Some("InvalidDevicePropValue"),
            0x201D => Some("InvalidParameter"),
            0x201E => Some("SessionAlreadyOpen"),
            0x201F => Some("TransactionCancelled"),
            0x2020 => Some("SpecificationOfDestinationUnsupported"),
            _ => None,
        }
    }
}

/// The standard command (operation) code table.
pub struct StandardCommandCode;

/// Whether `v` is one of the standard PTP operation codes.
pub open spec fn spec_known_command_code(v: u16) -> bool {
    0x1000 <= v <= 0x101C
}

/// The characters of each standard code's name.
pub open spec fn spec_command_name(v: u16) -> Seq<char> {
    if v == 0x1000 {
        "Undefined"@
    } else if v == 0x1001 {
        "GetDeviceInfo"@
    } else if v == 0x1002 {
        "OpenSession"@
    } else if v == 0x1003 {
        "CloseSession"@
    } else if v == 0x1004 {
        "GetStorageIDs"@
    } else if v == 0x1005 {
        "GetStorageInfo"@
    } else if v == 0x1006 {
        "GetNumObjects"@
    } else if v == 0x1007 {
        "GetObjectHandles"@
    } else if v == 0x1008 {
        "GetObjectInfo"@
    } else if v == 0x1009 {
        "GetObject"@
    } else if v == 0x100A {
        "GetThumb"@
    } else if v == 0x100B {
        "DeleteObject"@
    } else if v == 0x100C {
        "SendObjectInfo"@
    } else if v == 0x100D {
        "SendObject"@
    } else if v == 0x100E {
        "InitiateCapture"@
    } else if v == 0x100F {
        "FormatStore"@
    } else if v == 0x1010 {
        "ResetDevice"@
    } else if v == 0x1011 {
        "SelfTest"@
    } else if v == 0x1012 {
        "SetObjectProtection"@
    } else if v == 0x1013 {
        "PowerDown"@
    } else if v == 0x1014 {
        "GetDevicePropDesc"@
    } else if v == 0x1015 {
        "GetDevicePropValue"@
    } else if v == 0x1016 {
        "SetDevicePropValue"@
    } else if v == 0x1017 {
        "ResetDevicePropValue"@
    } else if v == 0x1018 {
        "TerminateOpenCapture"@
    } else if v == 0x1019 {
        "MoveObject"@
    } else if v == 0x101A {
        "CopyObject"@
    } else if v == 0x101B {
        "GetPartialObject"@
    } else if v == 0x101C {
        "InitiateOpenCapture"@
    } else {
        Seq::empty()
    }
}

impl StandardCommandCode {
    /// The name of a standard operation code; `None` for codes outside the
    /// standard table.
    pub fn name(v: CommandCode) -> (r: Option<&'static str>)
        ensures
            r is Some <==> spec_known_command_code(v),
            r matches Some(s) ==> s@ == spec_command_name(v),
    {
        match v {
            0x1000 => Some("Undefined"),
            0x1001 => Some("GetDeviceInfo"),
            0x1002 => Some("OpenSession"),
            0x1003 => Some("CloseSession"),
            0x1004 => Some("GetStorageIDs"),
            0x1005 => Some("GetStorageInfo"),
            0x1006 => Some("GetNumObjects"),
            0x1007 => Some("GetObjectHandles"),
            0x1008 => Some("GetObjectInfo"),
            0x1009 => Some("GetObject"),
            0x100A => Some("GetThumb"),
            0x100B => Some("DeleteObject"),
            0x100C => Some("SendObjectInfo"),
            0x100D => Some("SendObject"),
            0x100E => Some("InitiateCapture"),
            0x100F => Some("FormatStore"),
            0x1010 => Some("ResetDevice"),
            0x1011 => Some("SelfTest"),
            0x1012 => Some("SetObjectProtection"),
            0x1013 => Some("PowerDown"),
            0x1014 => Some("GetDevicePropDesc"),
            0x1015 => Some("GetDevicePropValue"),
            0x1016 => Some("SetDevicePropValue"),
            0x1017 => Some("ResetDevicePropValue"),
            0x1018 => Some("TerminateOpenCapture"),
            0x1019 => Some("MoveObject"),
            0x101A => Some("CopyObject"),
            0x101B => Some("GetPartialObject"),
            0x101C => Some("InitiateOpenCapture"),
            _ => None,
        }
    }
}

} // verus!
