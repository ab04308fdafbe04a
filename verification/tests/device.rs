use stride::utils::device::{DeviceAttr, DeviceDetail};
use stride::utils::device_ids::{
    is_vf_by_pattern, lookup_vendor, AmazonModel, BroadcomModel, FunctionType, IntelModel,
    NvidiaModel, QLogicModel, Vendor, VendorLookup, VENDOR_ID_AMAZON, VENDOR_ID_BROADCOM,
    VENDOR_ID_INTEL, VENDOR_ID_NVIDIA, VENDOR_ID_NVIDIA_VF, VENDOR_ID_QLOGIC,
};

fn detail(vendor_id: u32, part_id: u32) -> DeviceDetail {
    DeviceDetail::from_device_attr(&DeviceAttr {
        vendor_id,
        vendor_part_id: part_id,
        firmware_version: "20.31.1014".to_string(),
    })
}

#[test]
fn known_nvidia_device() {
    let d = detail(VENDOR_ID_NVIDIA, 0x101b);
    assert_eq!(d.vendor, Vendor::Nvidia(NvidiaModel::ConnectX6));
    assert_eq!(d.function_type, FunctionType::PhysicalFunction);
    assert_eq!(d.product_desc, "ConnectX-6");
    assert_eq!(d.name, "");
    assert_eq!(d.numa_node, -1);
    assert_eq!(d.firmware_version, "20.31.1014");
    assert_eq!(d.description(), "ConnectX-6 (PhysicalFunction, FW: 20.31.1014)");
}

#[test]
fn listed_virtual_function() {
    let d = detail(VENDOR_ID_NVIDIA_VF, 0x101e);
    assert_eq!(d.vendor, Vendor::Nvidia(NvidiaModel::Mlx5GenVF));
    assert_eq!(d.function_type, FunctionType::VirtualFunction);
    let d = detail(VENDOR_ID_BROADCOM, 0x16c1);
    assert_eq!(d.vendor, Vendor::Broadcom(BroadcomModel::NetXtremeE));
    assert_eq!(d.function_type, FunctionType::VirtualFunction);
    assert_eq!(d.product_desc, "Broadcom NetXtreme-E BCM57414 Virtual Function");
}

#[test]
fn unlisted_devices_fall_back_to_pattern() {
    let d = detail(VENDOR_ID_NVIDIA, 0x1111);
    assert_eq!(d.vendor, Vendor::Nvidia(NvidiaModel::Unknown));
    assert_eq!(d.function_type, FunctionType::VirtualFunction);
    assert_eq!(d.product_desc, "");
    let d = detail(VENDOR_ID_NVIDIA, 0x1110);
    assert_eq!(d.function_type, FunctionType::PhysicalFunction);
    let d = detail(VENDOR_ID_INTEL, 0x37cd);
    assert_eq!(d.vendor, Vendor::Intel(IntelModel::Unknown));
    assert_eq!(d.function_type, FunctionType::VirtualFunction);
    let d = detail(VENDOR_ID_QLOGIC, 0x9999);
    assert_eq!(d.vendor, Vendor::QLogic(QLogicModel::Unknown));
    assert_eq!(d.function_type, FunctionType::PhysicalFunction);
}

#[test]
fn unknown_vendor() {
    let d = detail(0x1234, 0x101b);
    assert_eq!(d.vendor, Vendor::Unknown);
    assert_eq!(d.function_type, FunctionType::Unknown);
    assert_eq!(d.description(), " (Unknown, FW: 20.31.1014)");
}

#[test]
fn vf_patterns() {
    assert!(is_vf_by_pattern(VENDOR_ID_NVIDIA, 0x1019));
    assert!(!is_vf_by_pattern(VENDOR_ID_NVIDIA_VF, 0x1018));
    assert!(is_vf_by_pattern(VENDOR_ID_INTEL, 0x37d9));
    assert!(!is_vf_by_pattern(VENDOR_ID_INTEL, 0x1572));
    assert!(!is_vf_by_pattern(VENDOR_ID_AMAZON, 0xefa1));
}

#[test]
fn vendor_table_lookup() {
    let e = AmazonModel::lookup_device(0xefa2).expect("listed");
    assert_eq!(e.part_id, 0xefa2);
    assert_eq!(e.model, AmazonModel::EFA);
    assert!(AmazonModel::lookup_device(0xefa3).is_none());
    assert_eq!(NvidiaModel::devices().len(), 23);
    assert_eq!(NvidiaModel::fallback_model(), NvidiaModel::Unknown);
    assert_eq!(
        lookup_vendor::<AmazonModel>(VENDOR_ID_AMAZON, 0xefa0),
        (Vendor::Amazon(AmazonModel::EFA), FunctionType::PhysicalFunction, "Amazon EFA")
    );
    assert_eq!(
        lookup_vendor::<AmazonModel>(VENDOR_ID_AMAZON, 0x1),
        (Vendor::Amazon(AmazonModel::Unknown), FunctionType::PhysicalFunction, "")
    );
}

#[test]
fn probe_line_as_in_readme() {
    let d = DeviceDetail::from_device_attr(&DeviceAttr {
        vendor_id: VENDOR_ID_NVIDIA,
        vendor_part_id: 0x101b,
        firmware_version: "20.36.1010".to_string(),
    });
    assert_eq!(format!("rocep65s0: {}", d.description()), "rocep65s0: ConnectX-6 (PhysicalFunction, FW: 20.36.1010)");
}
