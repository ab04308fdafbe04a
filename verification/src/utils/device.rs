use vstd::prelude::*;
use crate::utils::device_ids::{
    lookup_vendor, spec_lookup_vendor, AlibabaModel, AmazonModel, BroadcomModel, ChelsioModel, FunctionType,
    HiSiliconModel, IntelModel, NvidiaModel, QLogicModel, Vendor, VENDOR_ID_ALIBABA, VENDOR_ID_AMAZON,
    VENDOR_ID_BROADCOM, VENDOR_ID_CHELSIO, VENDOR_ID_HISILICON, VENDOR_ID_INTEL, VENDOR_ID_NVIDIA,
    VENDOR_ID_NVIDIA_VF, VENDOR_ID_QLOGIC,
};
use crate::utils::text::push_str;

verus! {

/// What a device reports of itself that identifies it: vendor id, part id
/// and firmware version.
#[derive(Debug, Clone)]
pub struct DeviceAttr {
    pub vendor_id: u32,
    pub vendor_part_id: u32,
    pub firmware_version: String,
}

/// What the probe reports of a device.
#[derive(Debug, Clone)]
pub struct DeviceDetail {
    pub name: String,
    pub vendor: Vendor,
    pub product_desc: &'static str,
    pub numa_node: i32,
    pub function_type: FunctionType,
    pub firmware_version: String,
}

/// Vendor, function type and description of a device by its ids: looked up
/// in its vendor's table, or unknown for an unknown vendor.
pub open spec fn spec_identify(vendor_id: u32, part_id: u32) -> (Vendor, FunctionType, &'static str) {
    if vendor_id == VENDOR_ID_ALIBABA {
        spec_lookup_vendor::<AlibabaModel>(vendor_id, part_id)
    } else if vendor_id == VENDOR_ID_AMAZON {
        spec_lookup_vendor::<AmazonModel>(vendor_id, part_id)
    } else if vendor_id == VENDOR_ID_BROADCOM {
        spec_lookup_vendor::<BroadcomModel>(vendor_id, part_id)
    } else if vendor_id == VENDOR_ID_CHELSIO {
        spec_lookup_vendor::<ChelsioModel>(vendor_id, part_id)
    } else if vendor_id == VENDOR_ID_HISILICON {
        spec_lookup_vendor::<HiSiliconModel>(vendor_id, part_id)
    } else if vendor_id == VENDOR_ID_INTEL {
        spec_lookup_vendor::<IntelModel>(vendor_id, part_id)
    } else if vendor_id == VENDOR_ID_NVIDIA || vendor_id == VENDOR_ID_NVIDIA_VF {
        spec_lookup_vendor::<NvidiaModel>(vendor_id, part_id)
    } else if vendor_id == VENDOR_ID_QLOGIC {
        spec_lookup_vendor::<QLogicModel>(vendor_id, part_id)
    } else {
        (Vendor::Unknown, FunctionType::Unknown, "")
    }
}

/// Name of a function type, as `{:?}` prints it.
pub open spec fn function_type_name(t: FunctionType) -> Seq<char> {
    match t {
        FunctionType::PhysicalFunction => "PhysicalFunction"@,
        FunctionType::VirtualFunction => "VirtualFunction"@,
        FunctionType::ScalableFunction => "ScalableFunction"@,
        FunctionType::Unknown => "Unknown"@,
    }
}

impl DeviceDetail {
    /// The detail of a device from its attributes; no name and no NUMA node
    /// (-1) yet.
    pub fn from_device_attr(attr: &DeviceAttr) -> (r: DeviceDetail)
        ensures
            (r.vendor, r.function_type, r.product_desc) == spec_identify(attr.vendor_id, attr.vendor_part_id),
            r.name@ == Seq::<char>::empty(),
            r.numa_node == -1,
            r.firmware_version@ == attr.firmware_version@,
    {
        let vendor_id = attr.vendor_id;
        let part_id = attr.vendor_part_id;
        let firmware_version = attr.firmware_version.clone();
        let (vendor, function_type, product_desc) = match vendor_id {
            VENDOR_ID_ALIBABA => lookup_vendor::<AlibabaModel>(vendor_id, part_id),
            VENDOR_ID_AMAZON => lookup_vendor::<AmazonModel>(vendor_id, part_id),
            VENDOR_ID_BROADCOM => lookup_vendor::<BroadcomModel>(vendor_id, part_id),
            VENDOR_ID_CHELSIO => lookup_vendor::<ChelsioModel>(vendor_id, part_id),
            VENDOR_ID_HISILICON => lookup_vendor::<HiSiliconModel>(vendor_id, part_id),
            VENDOR_ID_INTEL => lookup_vendor::<IntelModel>(vendor_id, part_id),
            VENDOR_ID_NVIDIA | VENDOR_ID_NVIDIA_VF => lookup_vendor::<NvidiaModel>(vendor_id, part_id),
            VENDOR_ID_QLOGIC => lookup_vendor::<QLogicModel>(vendor_id, part_id),
            _ => (Vendor::Unknown, FunctionType::Unknown, ""),
        };
        DeviceDetail {
            name: String::new(),
            numa_node: -1,
            vendor,
            product_desc,
            function_type,
            firmware_version,
        }
    }

    /// The product description, function type and firmware version (as
    /// `"{desc} ({type:?}, FW: {fw})"`).
    pub fn description(&self) -> (r: String)
        ensures
            r@ == self.product_desc@ + " ("@ + function_type_name(self.function_type) + ", FW: "@
                + self.firmware_version@ + ")"@,
    {
        let mut out = String::new();
        push_str(&mut out, self.product_desc);
        push_str(&mut out, " (");
        let name = match self.function_type {
            FunctionType::PhysicalFunction => "PhysicalFunction",
            FunctionType::VirtualFunction => "VirtualFunction",
            FunctionType::ScalableFunction => "ScalableFunction",
            FunctionType::Unknown => "Unknown",
        };
        push_str(&mut out, name);
        push_str(&mut out, ", FW: ");
        push_str(&mut out, self.firmware_version.as_str());
        push_str(&mut out, ")");
        assert(out@ =~= self.product_desc@ + " ("@ + function_type_name(self.function_type) + ", FW: "@
            + self.firmware_version@ + ")"@);
        out
    }
}


/// A device is identified as made by the vendor its vendor id belongs to
/// (both Nvidia ids count as Nvidia), and as of an unknown vendor, with an
/// unknown function type and no description, exactly when its vendor id is
/// none of these.
pub proof fn lemma_identify_keeps_vendor(vendor_id: u32, part_id: u32)
    ensures
        (spec_identify(vendor_id, part_id).0 is Alibaba) == (vendor_id == VENDOR_ID_ALIBABA),
        (spec_identify(vendor_id, part_id).0 is Amazon) == (vendor_id == VENDOR_ID_AMAZON),
        (spec_identify(vendor_id, part_id).0 is Broadcom) == (vendor_id == VENDOR_ID_BROADCOM),
        (spec_identify(vendor_id, part_id).0 is Chelsio) == (vendor_id == VENDOR_ID_CHELSIO),
        (spec_identify(vendor_id, part_id).0 is HiSilicon) == (vendor_id == VENDOR_ID_HISILICON),
        (spec_identify(vendor_id, part_id).0 is Intel) == (vendor_id == VENDOR_ID_INTEL),
        (spec_identify(vendor_id, part_id).0 is Nvidia) == (vendor_id == VENDOR_ID_NVIDIA || vendor_id
            == VENDOR_ID_NVIDIA_VF),
        (spec_identify(vendor_id, part_id).0 is QLogic) == (vendor_id == VENDOR_ID_QLOGIC),
        (spec_identify(vendor_id, part_id).0 is Unknown) ==> spec_identify(vendor_id, part_id) == (
            Vendor::Unknown,
            FunctionType::Unknown,
            "",
        ),
{
}

} // verus!
