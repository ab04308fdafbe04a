use vstd::prelude::*;

verus! {

pub const VENDOR_ID_ALIBABA: u32 = 0x1ded;

pub const VENDOR_ID_AMAZON: u32 = 0x1d0f;

pub const VENDOR_ID_BROADCOM: u32 = 0x14e4;

pub const VENDOR_ID_CHELSIO: u32 = 0x1425;

pub const VENDOR_ID_HISILICON: u32 = 0x19e5;

pub const VENDOR_ID_INTEL: u32 = 0x8086;

pub const VENDOR_ID_NVIDIA: u32 = 0x15b3;

pub const VENDOR_ID_NVIDIA_VF: u32 = 0x02c9;

pub const VENDOR_ID_QLOGIC: u32 = 0x1077;

/// The maker of an RDMA device, with its model.
#[derive(Debug, Clone, Copy, PartialEq, Eq, Structural)]
pub enum Vendor {
    Alibaba(AlibabaModel),
    Amazon(AmazonModel),
    Broadcom(BroadcomModel),
    Chelsio(ChelsioModel),
    HiSilicon(HiSiliconModel),
    Intel(IntelModel),
    Nvidia(NvidiaModel),
    QLogic(QLogicModel),
    Unknown,
}

#[derive(Debug, Clone, Copy, PartialEq, Eq, Structural)]
pub enum AlibabaModel {
    ERDMA,
    Unknown,
}

#[derive(Debug, Clone, Copy, PartialEq, Eq, Structural)]
pub enum AmazonModel {
    EFA,
    Unknown,
}

#[derive(Debug, Clone, Copy, PartialEq, Eq, Structural)]
pub enum BroadcomModel {
    NetXtreme,
    NetXtremeE,
    NetXtremeC,
    Unknown,
}

#[derive(Debug, Clone, Copy, PartialEq, Eq, Structural)]
pub enum ChelsioModel {
    ChelsioT4,
    ChelsioT5,
    ChelsioT6,
    Unknown,
}

#[derive(Debug, Clone, Copy, PartialEq, Eq, Structural)]
pub enum HiSiliconModel {
    HNS,
    Unknown,
}

#[derive(Debug, Clone, Copy, PartialEq, Eq, Structural)]
pub enum IntelModel {
    C822N,
    E810C,
    E810XXV,
    E822C,
    E822L,
    E823C,
    E823L,
    X722,
    XL710,
    Unknown,
}

#[derive(Debug, Clone, Copy, PartialEq, Eq, Structural)]
pub enum NvidiaModel {
    ConnectIB,
    ConnectX4,
    ConnectX4Lx,
    ConnectX5,
    ConnectX5Ex,
    ConnectX6,
    ConnectX6Dx,
    ConnectX6Lx,
    ConnectX7,
    ConnectX8,
    ConnectX9,
    BlueField,
    BlueField2,
    BlueField3,
    BlueField4,
    Mlx5GenVF,
    Unknown,
}

#[derive(Debug, Clone, Copy, PartialEq, Eq, Structural)]
pub enum QLogicModel {
    QL41000,
    QL45000,
    Unknown,
}

/// Whether a device is a physical, a virtual or a scalable function.
#[derive(Debug, Clone, Copy, PartialEq, Eq, Structural)]
pub enum FunctionType {
    PhysicalFunction,
    VirtualFunction,
    ScalableFunction,
    Unknown,
}

/// A known device: its part id, model, whether it is a virtual function,
/// and its product description.
#[derive(Debug, Clone, Copy)]
pub struct DeviceIdEntry<T> {
    pub part_id: u32,
    pub model: T,
    pub is_vf: bool,
    pub comment: &'static str,
}

/// The first entry of `table` with part id `part_id`, if any.
pub open spec fn find_entry<T>(table: Seq<DeviceIdEntry<T>>, part_id: u32) -> Option<DeviceIdEntry<T>>
    decreases table.len(),
{
    if table.len() == 0 {
        None
    } else if table[0].part_id == part_id {
        Some(table[0])
    } else {
        find_entry(table.drop_first(), part_id)
    }
}

pub open spec fn spec_is_vf_by_pattern(vendor_id: u32, part_id: u32) -> bool {
    if vendor_id == VENDOR_ID_NVIDIA || vendor_id == VENDOR_ID_NVIDIA_VF {
        part_id % 2 == 1
    } else if vendor_id == VENDOR_ID_INTEL {
        part_id == 0x37cd || part_id == 0x37d9
    } else {
        false
    }
}

/// Whether an unlisted device is a virtual function by its ids: NVIDIA
/// virtual functions have odd part ids; two Intel part ids are virtual
/// functions.
pub fn is_vf_by_pattern(vendor_id: u32, part_id: u32) -> (r: bool)
    ensures
        r == spec_is_vf_by_pattern(vendor_id, part_id),
{
    match vendor_id {
        VENDOR_ID_NVIDIA | VENDOR_ID_NVIDIA_VF => {
            assert((part_id & 1) == 1 <==> part_id % 2 == 1) by (bit_vector);
            (part_id & 1) == 1
        },
        VENDOR_ID_INTEL => part_id == 0x37cd || part_id == 0x37d9,
        _ => false,
    }
}

/// A vendor's model type: its table of known devices, the model of devices
/// not in it, and the vendor value of a model.
pub trait VendorLookup {
    type Model: Copy;

    spec fn spec_devices() -> Seq<DeviceIdEntry<Self::Model>>;

    spec fn spec_fallback_model() -> Self::Model;

    spec fn spec_create_vendor(model: Self::Model) -> Vendor;

    fn devices() -> (r: Vec<DeviceIdEntry<Self::Model>>)
        ensures
            r@ == Self::spec_devices(),
    ;

    fn fallback_model() -> (r: Self::Model)
        ensures
            r == Self::spec_fallback_model(),
    ;

    fn create_vendor(model: Self::Model) -> (r: Vendor)
        ensures
            r == Self::spec_create_vendor(model),
    ;

    /// The first known device with part id `part_id`.
    fn lookup_device(part_id: u32) -> (r: Option<DeviceIdEntry<Self::Model>>)
        ensures
            r == find_entry(Self::spec_devices(), part_id),
    {
        let table = Self::devices();
        let mut i: usize = 0;
        assert(table@.skip(0) =~= table@);
        while i < table.len()
            invariant
                i <= table@.len(),
                table@ == Self::spec_devices(),
                find_entry(table@, part_id) == find_entry(table@.skip(i as int), part_id),
            decreases table@.len() - i,
        {
            if table[i].part_id == part_id {
                return Some(table[i]);
            }
            assert(table@.skip(i as int).drop_first() =~= table@.skip(i as int + 1));
            i = i + 1;
        }
        None
    }
}

pub open spec fn function_type_of(is_vf: bool) -> FunctionType {
    if is_vf { FunctionType::VirtualFunction } else { FunctionType::PhysicalFunction }
}

/// Vendor, function type and description of a device of `T`'s vendor: from
/// its table entry, or the fallback model, a function type by pattern and
/// no description for an unlisted part id.
pub open spec fn spec_lookup_vendor<T: VendorLookup>(vendor_id: u32, part_id: u32) -> (Vendor, FunctionType, &'static str) {
    match find_entry(T::spec_devices(), part_id) {
        Some(e) => (T::spec_create_vendor(e.model), function_type_of(e.is_vf), e.comment),
        None => (
            T::spec_create_vendor(T::spec_fallback_model()),
            function_type_of(spec_is_vf_by_pattern(vendor_id, part_id)),
            "",
        ),
    }
}

/// Identifies a device of `T`'s vendor by its part id.
pub fn lookup_vendor<T: VendorLookup>(vendor_id: u32, part_id: u32) -> (r: (Vendor, FunctionType, &'static str))
    ensures
        r == spec_lookup_vendor::<T>(vendor_id, part_id),
{
    if let Some(entry) = T::lookup_device(part_id) {
        (
            T::create_vendor(entry.model),
            if entry.is_vf { FunctionType::VirtualFunction } else { FunctionType::PhysicalFunction },
            entry.comment,
        )
    } else {
        let is_vf = is_vf_by_pattern(vendor_id, part_id);
        (
            T::create_vendor(T::fallback_model()),
            if is_vf { FunctionType::VirtualFunction } else { FunctionType::PhysicalFunction },
            "",
        )
    }
}

/// Known Alibaba devices, by part id.
pub open spec fn spec_alibaba_devices() -> Seq<DeviceIdEntry<AlibabaModel>> {
    seq![
        DeviceIdEntry { part_id: 0x107f, model: AlibabaModel::ERDMA, is_vf: false, comment: "Alibaba Elastic RDMA Adapter" },
    ]
}

/// The table of known Alibaba devices.
pub fn alibaba_devices() -> (r: Vec<DeviceIdEntry<AlibabaModel>>)
    ensures
        r@ == spec_alibaba_devices(),
{
    let r = vec![
        DeviceIdEntry { part_id: 0x107f, model: AlibabaModel::ERDMA, is_vf: false, comment: "Alibaba Elastic RDMA Adapter" },
    ];
    assert(r@ =~= spec_alibaba_devices());
    r
}

/// Known Amazon devices, by part id.
pub open spec fn spec_amazon_devices() -> Seq<DeviceIdEntry<AmazonModel>> {
    seq![
        DeviceIdEntry { part_id: 0xefa0, model: AmazonModel::EFA, is_vf: false, comment: "Amazon EFA" },
        DeviceIdEntry { part_id: 0xefa1, model: AmazonModel::EFA, is_vf: false, comment: "Amazon EFA" },
        DeviceIdEntry { part_id: 0xefa2, model: AmazonModel::EFA, is_vf: false, comment: "Amazon EFA" },
    ]
}

/// The table of known Amazon devices.
pub fn amazon_devices() -> (r: Vec<DeviceIdEntry<AmazonModel>>)
    ensures
        r@ == spec_amazon_devices(),
{
    let r = vec![
        DeviceIdEntry { part_id: 0xefa0, model: AmazonModel::EFA, is_vf: false, comment: "Amazon EFA" },
        DeviceIdEntry { part_id: 0xefa1, model: AmazonModel::EFA, is_vf: false, comment: "Amazon EFA" },
        DeviceIdEntry { part_id: 0xefa2, model: AmazonModel::EFA, is_vf: false, comment: "Amazon EFA" },
    ];
    assert(r@ =~= spec_amazon_devices());
    r
}

/// Known Broadcom devices, by part id.
pub open spec fn spec_broadcom_devices() -> Seq<DeviceIdEntry<BroadcomModel>> {
    seq![
        DeviceIdEntry { part_id: 0x1605, model: BroadcomModel::NetXtremeE, is_vf: false, comment: "Broadcom NetXtreme-E BCM57454 NPAR" },
        DeviceIdEntry { part_id: 0x1606, model: BroadcomModel::NetXtremeE, is_vf: true, comment: "Broadcom NetXtreme-E BCM57454 Virtual Function" },
        DeviceIdEntry { part_id: 0x1614, model: BroadcomModel::NetXtremeE, is_vf: false, comment: "Broadcom NetXtreme-E BCM57454" },
        DeviceIdEntry { part_id: 0x16c0, model: BroadcomModel::NetXtremeE, is_vf: false, comment: "Broadcom NetXtreme-E BCM57417 NPAR" },
        DeviceIdEntry { part_id: 0x16c1, model: BroadcomModel::NetXtremeE, is_vf: true, comment: "Broadcom NetXtreme-E BCM57414 Virtual Function" },
        DeviceIdEntry { part_id: 0x16ce, model: BroadcomModel::NetXtremeC, is_vf: false, comment: "Broadcom NetXtreme-C BCM57311" },
        DeviceIdEntry { part_id: 0x16cf, model: BroadcomModel::NetXtremeC, is_vf: false, comment: "Broadcom NetXtreme-C BCM57312" },
        DeviceIdEntry { part_id: 0x16d6, model: BroadcomModel::NetXtremeE, is_vf: false, comment: "Broadcom NetXtreme-E BCM57412" },
        DeviceIdEntry { part_id: 0x16d7, model: BroadcomModel::NetXtremeE, is_vf: false, comment: "Broadcom NetXtreme-E BCM57414" },
        DeviceIdEntry { part_id: 0x16d8, model: BroadcomModel::NetXtremeE, is_vf: false, comment: "Broadcom NetXtreme-E BCM57416 Cu" },
        DeviceIdEntry { part_id: 0x16d9, model: BroadcomModel::NetXtremeE, is_vf: false, comment: "Broadcom NetXtreme-E BCM57417 Cu" },
        DeviceIdEntry { part_id: 0x16df, model: BroadcomModel::NetXtremeC, is_vf: false, comment: "Broadcom NetXtreme-C BCM57314" },
        DeviceIdEntry { part_id: 0x16e2, model: BroadcomModel::NetXtremeE, is_vf: false, comment: "Broadcom NetXtreme-E BCM57417" },
        DeviceIdEntry { part_id: 0x16e3, model: BroadcomModel::NetXtremeE, is_vf: false, comment: "Broadcom NetXtreme-E BCM57416" },
        DeviceIdEntry { part_id: 0x16e5, model: BroadcomModel::NetXtremeC, is_vf: true, comment: "Broadcom NetXtreme-C BCM57314 Virtual Function" },
        DeviceIdEntry { part_id: 0x16ed, model: BroadcomModel::NetXtremeE, is_vf: false, comment: "Broadcom NetXtreme-E BCM57414 NPAR" },
        DeviceIdEntry { part_id: 0x16eb, model: BroadcomModel::NetXtremeE, is_vf: false, comment: "Broadcom NetXtreme-E BCM57412 NPAR" },
        DeviceIdEntry { part_id: 0x16ef, model: BroadcomModel::NetXtremeE, is_vf: false, comment: "Broadcom NetXtreme-E BCM57416 NPAR" },
        DeviceIdEntry { part_id: 0x1750, model: BroadcomModel::NetXtremeE, is_vf: false, comment: "Broadcom NetXtreme-E BCM57508" },
        DeviceIdEntry { part_id: 0x1751, model: BroadcomModel::NetXtremeE, is_vf: false, comment: "Broadcom NetXtreme-E BCM57504" },
        DeviceIdEntry { part_id: 0x1752, model: BroadcomModel::NetXtremeE, is_vf: false, comment: "Broadcom NetXtreme-E BCM57502" },
        DeviceIdEntry { part_id: 0x1803, model: BroadcomModel::NetXtremeE, is_vf: false, comment: "Broadcom NetXtreme-E BCM57508 NPAR" },
        DeviceIdEntry { part_id: 0x1804, model: BroadcomModel::NetXtremeE, is_vf: false, comment: "Broadcom NetXtreme-E BCM57504 NPAR" },
        DeviceIdEntry { part_id: 0x1805, model: BroadcomModel::NetXtremeE, is_vf: false, comment: "Broadcom NetXtreme-E BCM57502 NPAR" },
        DeviceIdEntry { part_id: 0x1807, model: BroadcomModel::NetXtremeE, is_vf: true, comment: "Broadcom NetXtreme-E BCM5750X Virtual Function" },
        DeviceIdEntry { part_id: 0x1809, model: BroadcomModel::NetXtremeE, is_vf: true, comment: "Broadcom NetXtreme-E BCM5750X Gen P5 Virtual Function HV" },
        DeviceIdEntry { part_id: 0xd800, model: BroadcomModel::NetXtreme, is_vf: true, comment: "Broadcom NetXtreme BCM880XX Virtual Function" },
        DeviceIdEntry { part_id: 0xd802, model: BroadcomModel::NetXtreme, is_vf: false, comment: "Broadcom NetXtreme BCM58802" },
        DeviceIdEntry { part_id: 0xd804, model: BroadcomModel::NetXtreme, is_vf: false, comment: "Broadcom NetXtreme BCM8804 SR" },
    ]
}

/// The table of known Broadcom devices.
pub fn broadcom_devices() -> (r: Vec<DeviceIdEntry<BroadcomModel>>)
    ensures
        r@ == spec_broadcom_devices(),
{
    let r = vec![
        DeviceIdEntry { part_id: 0x1605, model: BroadcomModel::NetXtremeE, is_vf: false, comment: "Broadcom NetXtreme-E BCM57454 NPAR" },
        DeviceIdEntry { part_id: 0x1606, model: BroadcomModel::NetXtremeE, is_vf: true, comment: "Broadcom NetXtreme-E BCM57454 Virtual Function" },
        DeviceIdEntry { part_id: 0x1614, model: BroadcomModel::NetXtremeE, is_vf: false, comment: "Broadcom NetXtreme-E BCM57454" },
        DeviceIdEntry { part_id: 0x16c0, model: BroadcomModel::NetXtremeE, is_vf: false, comment: "Broadcom NetXtreme-E BCM57417 NPAR" },
        DeviceIdEntry { part_id: 0x16c1, model: BroadcomModel::NetXtremeE, is_vf: true, comment: "Broadcom NetXtreme-E BCM57414 Virtual Function" },
        DeviceIdEntry { part_id: 0x16ce, model: BroadcomModel::NetXtremeC, is_vf: false, comment: "Broadcom NetXtreme-C BCM57311" },
        DeviceIdEntry { part_id: 0x16cf, model: BroadcomModel::NetXtremeC, is_vf: false, comment: "Broadcom NetXtreme-C BCM57312" },
        DeviceIdEntry { part_id: 0x16d6, model: BroadcomModel::NetXtremeE, is_vf: false, comment: "Broadcom NetXtreme-E BCM57412" },
        DeviceIdEntry { part_id: 0x16d7, model: BroadcomModel::NetXtremeE, is_vf: false, comment: "Broadcom NetXtreme-E BCM57414" },
        DeviceIdEntry { part_id: 0x16d8, model: BroadcomModel::NetXtremeE, is_vf: false, comment: "Broadcom NetXtreme-E BCM57416 Cu" },
        DeviceIdEntry { part_id: 0x16d9, model: BroadcomModel::NetXtremeE, is_vf: false, comment: "Broadcom NetXtreme-E BCM57417 Cu" },
        DeviceIdEntry { part_id: 0x16df, model: BroadcomModel::NetXtremeC, is_vf: false, comment: "Broadcom NetXtreme-C BCM57314" },
        DeviceIdEntry { part_id: 0x16e2, model: BroadcomModel::NetXtremeE, is_vf: false, comment: "Broadcom NetXtreme-E BCM57417" },
        DeviceIdEntry { part_id: 0x16e3, model: BroadcomModel::NetXtremeE, is_vf: false, comment: "Broadcom NetXtreme-E BCM57416" },
        DeviceIdEntry { part_id: 0x16e5, model: BroadcomModel::NetXtremeC, is_vf: true, comment: "Broadcom NetXtreme-C BCM57314 Virtual Function" },
        DeviceIdEntry { part_id: 0x16ed, model: BroadcomModel::NetXtremeE, is_vf: false, comment: "Broadcom NetXtreme-E BCM57414 NPAR" },
        DeviceIdEntry { part_id: 0x16eb, model: BroadcomModel::NetXtremeE, is_vf: false, comment: "Broadcom NetXtreme-E BCM57412 NPAR" },
        DeviceIdEntry { part_id: 0x16ef, model: BroadcomModel::NetXtremeE, is_vf: false, comment: "Broadcom NetXtreme-E BCM57416 NPAR" },
        DeviceIdEntry { part_id: 0x1750, model: BroadcomModel::NetXtremeE, is_vf: false, comment: "Broadcom NetXtreme-E BCM57508" },
        DeviceIdEntry { part_id: 0x1751, model: BroadcomModel::NetXtremeE, is_vf: false, comment: "Broadcom NetXtreme-E BCM57504" },
        DeviceIdEntry { part_id: 0x1752, model: BroadcomModel::NetXtremeE, is_vf: false, comment: "Broadcom NetXtreme-E BCM57502" },
        DeviceIdEntry { part_id: 0x1803, model: BroadcomModel::NetXtremeE, is_vf: false, comment: "Broadcom NetXtreme-E BCM57508 NPAR" },
        DeviceIdEntry { part_id: 0x1804, model: BroadcomModel::NetXtremeE, is_vf: false, comment: "Broadcom NetXtreme-E BCM57504 NPAR" },
        DeviceIdEntry { part_id: 0x1805, model: BroadcomModel::NetXtremeE, is_vf: false, comment: "Broadcom NetXtreme-E BCM57502 NPAR" },
        DeviceIdEntry { part_id: 0x1807, model: BroadcomModel::NetXtremeE, is_vf: true, comment: "Broadcom NetXtreme-E BCM5750X Virtual Function" },
        DeviceIdEntry { part_id: 0x1809, model: BroadcomModel::NetXtremeE, is_vf: true, comment: "Broadcom NetXtreme-E BCM5750X Gen P5 Virtual Function HV" },
        DeviceIdEntry { part_id: 0xd800, model: BroadcomModel::NetXtreme, is_vf: true, comment: "Broadcom NetXtreme BCM880XX Virtual Function" },
        DeviceIdEntry { part_id: 0xd802, model: BroadcomModel::NetXtreme, is_vf: false, comment: "Broadcom NetXtreme BCM58802" },
        DeviceIdEntry { part_id: 0xd804, model: BroadcomModel::NetXtreme, is_vf: false, comment: "Broadcom NetXtreme BCM8804 SR" },
    ];
    assert(r@ =~= spec_broadcom_devices());
    r
}

/// Known Chelsio devices, by part id.
pub open spec fn spec_chelsio_devices() -> Seq<DeviceIdEntry<ChelsioModel>> {
    seq![
        DeviceIdEntry { part_id: 0x4000, model: ChelsioModel::ChelsioT4, is_vf: false, comment: "Chelsio T440-DBG" },
        DeviceIdEntry { part_id: 0x4001, model: ChelsioModel::ChelsioT4, is_vf: false, comment: "Chelsio T420-CR" },
        DeviceIdEntry { part_id: 0x4002, model: ChelsioModel::ChelsioT4, is_vf: false, comment: "Chelsio T422-CR" },
        DeviceIdEntry { part_id: 0x4003, model: ChelsioModel::ChelsioT4, is_vf: false, comment: "Chelsio T440-CR" },
        DeviceIdEntry { part_id: 0x5000, model: ChelsioModel::ChelsioT5, is_vf: false, comment: "Chelsio T580-DBG" },
        DeviceIdEntry { part_id: 0x5001, model: ChelsioModel::ChelsioT5, is_vf: false, comment: "Chelsio T520-CR" },
        DeviceIdEntry { part_id: 0x5002, model: ChelsioModel::ChelsioT5, is_vf: false, comment: "Chelsio T522-CR" },
        DeviceIdEntry { part_id: 0x5003, model: ChelsioModel::ChelsioT5, is_vf: false, comment: "Chelsio T540-CR" },
        DeviceIdEntry { part_id: 0x6001, model: ChelsioModel::ChelsioT5, is_vf: false, comment: "Chelsio T6225-CR" },
        DeviceIdEntry { part_id: 0x6002, model: ChelsioModel::ChelsioT5, is_vf: false, comment: "Chelsio T6225-SO-CR" },
        DeviceIdEntry { part_id: 0x6003, model: ChelsioModel::ChelsioT5, is_vf: false, comment: "Chelsio T6425-CR" },
    ]
}

/// The table of known Chelsio devices.
pub fn chelsio_devices() -> (r: Vec<DeviceIdEntry<ChelsioModel>>)
    ensures
        r@ == spec_chelsio_devices(),
{
    let r = vec![
        DeviceIdEntry { part_id: 0x4000, model: ChelsioModel::ChelsioT4, is_vf: false, comment: "Chelsio T440-DBG" },
        DeviceIdEntry { part_id: 0x4001, model: ChelsioModel::ChelsioT4, is_vf: false, comment: "Chelsio T420-CR" },
        DeviceIdEntry { part_id: 0x4002, model: ChelsioModel::ChelsioT4, is_vf: false, comment: "Chelsio T422-CR" },
        DeviceIdEntry { part_id: 0x4003, model: ChelsioModel::ChelsioT4, is_vf: false, comment: "Chelsio T440-CR" },
        DeviceIdEntry { part_id: 0x5000, model: ChelsioModel::ChelsioT5, is_vf: false, comment: "Chelsio T580-DBG" },
        DeviceIdEntry { part_id: 0x5001, model: ChelsioModel::ChelsioT5, is_vf: false, comment: "Chelsio T520-CR" },
        DeviceIdEntry { part_id: 0x5002, model: ChelsioModel::ChelsioT5, is_vf: false, comment: "Chelsio T522-CR" },
        DeviceIdEntry { part_id: 0x5003, model: ChelsioModel::ChelsioT5, is_vf: false, comment: "Chelsio T540-CR" },
        DeviceIdEntry { part_id: 0x6001, model: ChelsioModel::ChelsioT5, is_vf: false, comment: "Chelsio T6225-CR" },
        DeviceIdEntry { part_id: 0x6002, model: ChelsioModel::ChelsioT5, is_vf: false, comment: "Chelsio T6225-SO-CR" },
        DeviceIdEntry { part_id: 0x6003, model: ChelsioModel::ChelsioT5, is_vf: false, comment: "Chelsio T6425-CR" },
    ];
    assert(r@ =~= spec_chelsio_devices());
    r
}

/// Known HiSilicon devices, by part id.
pub open spec fn spec_hisilicon_devices() -> Seq<DeviceIdEntry<HiSiliconModel>> {
    seq![
        DeviceIdEntry { part_id: 0xa222, model: HiSiliconModel::HNS, is_vf: false, comment: "HNS GE/10GE/25GE RDMA Network Controller" },
        DeviceIdEntry { part_id: 0xa223, model: HiSiliconModel::HNS, is_vf: false, comment: "HNS GE/10GE/25GE RDMA Network Controller" },
        DeviceIdEntry { part_id: 0xa224, model: HiSiliconModel::HNS, is_vf: false, comment: "HNS GE/10GE/25GE/50GE RDMA Network Controller" },
        DeviceIdEntry { part_id: 0xa225, model: HiSiliconModel::HNS, is_vf: false, comment: "HNS GE/10GE/25GE/50GE RDMA Network Controller" },
        DeviceIdEntry { part_id: 0xa226, model: HiSiliconModel::HNS, is_vf: false, comment: "HNS GE/10GE/25GE/50GE/100GE RDMA Network Controller" },
        DeviceIdEntry { part_id: 0xa227, model: HiSiliconModel::HNS, is_vf: false, comment: "HNS GE/10GE/25GE/50GE/100GE RDMA Network Controller" },
        DeviceIdEntry { part_id: 0xa228, model: HiSiliconModel::HNS, is_vf: false, comment: "HNS GE/10GE/25GE/50GE/100GE/200GE RDMA Network Controller" },
        DeviceIdEntry { part_id: 0xa22f, model: HiSiliconModel::HNS, is_vf: true, comment: "HNS GE/10GE/25GE/50GE/100GE/200GE RDMA Network Controller Virtual Function" },
    ]
}

/// The table of known HiSilicon devices.
pub fn hisilicon_devices() -> (r: Vec<DeviceIdEntry<HiSiliconModel>>)
    ensures
        r@ == spec_hisilicon_devices(),
{
    let r = vec![
        DeviceIdEntry { part_id: 0xa222, model: HiSiliconModel::HNS, is_vf: false, comment: "HNS GE/10GE/25GE RDMA Network Controller" },
        DeviceIdEntry { part_id: 0xa223, model: HiSiliconModel::HNS, is_vf: false, comment: "HNS GE/10GE/25GE RDMA Network Controller" },
        DeviceIdEntry { part_id: 0xa224, model: HiSiliconModel::HNS, is_vf: false, comment: "HNS GE/10GE/25GE/50GE RDMA Network Controller" },
        DeviceIdEntry { part_id: 0xa225, model: HiSiliconModel::HNS, is_vf: false, comment: "HNS GE/10GE/25GE/50GE RDMA Network Controller" },
        DeviceIdEntry { part_id: 0xa226, model: HiSiliconModel::HNS, is_vf: false, comment: "HNS GE/10GE/25GE/50GE/100GE RDMA Network Controller" },
        DeviceIdEntry { part_id: 0xa227, model: HiSiliconModel::HNS, is_vf: false, comment: "HNS GE/10GE/25GE/50GE/100GE RDMA Network Controller" },
        DeviceIdEntry { part_id: 0xa228, model: HiSiliconModel::HNS, is_vf: false, comment: "HNS GE/10GE/25GE/50GE/100GE/200GE RDMA Network Controller" },
        DeviceIdEntry { part_id: 0xa22f, model: HiSiliconModel::HNS, is_vf: true, comment: "HNS GE/10GE/25GE/50GE/100GE/200GE RDMA Network Controller Virtual Function" },
    ];
    assert(r@ =~= spec_hisilicon_devices());
    r
}

/// Known Intel devices, by part id.
pub open spec fn spec_intel_devices() -> Seq<DeviceIdEntry<IntelModel>> {
    seq![
        DeviceIdEntry { part_id: 0x1572, model: IntelModel::XL710, is_vf: false, comment: "Intel XL710" },
        DeviceIdEntry { part_id: 0x374c, model: IntelModel::X722, is_vf: false, comment: "Intel X722" },
    ]
}

/// The table of known Intel devices.
pub fn intel_devices() -> (r: Vec<DeviceIdEntry<IntelModel>>)
    ensures
        r@ == spec_intel_devices(),
{
    let r = vec![
        DeviceIdEntry { part_id: 0x1572, model: IntelModel::XL710, is_vf: false, comment: "Intel XL710" },
        DeviceIdEntry { part_id: 0x374c, model: IntelModel::X722, is_vf: false, comment: "Intel X722" },
    ];
    assert(r@ =~= spec_intel_devices());
    r
}

/// Known Nvidia devices, by part id.
pub open spec fn spec_nvidia_devices() -> Seq<DeviceIdEntry<NvidiaModel>> {
    seq![
        DeviceIdEntry { part_id: 0x1011, model: NvidiaModel::ConnectIB, is_vf: false, comment: "Connect-IB" },
        DeviceIdEntry { part_id: 0x1012, model: NvidiaModel::ConnectIB, is_vf: true, comment: "Connect-IB Virtual Function" },
        DeviceIdEntry { part_id: 0x1013, model: NvidiaModel::ConnectX4, is_vf: false, comment: "ConnectX-4" },
        DeviceIdEntry { part_id: 0x1014, model: NvidiaModel::ConnectX4, is_vf: true, comment: "ConnectX-4 Virtual Function" },
        DeviceIdEntry { part_id: 0x1015, model: NvidiaModel::ConnectX4Lx, is_vf: false, comment: "ConnectX-4 Lx" },
        DeviceIdEntry { part_id: 0x1016, model: NvidiaModel::ConnectX4Lx, is_vf: true, comment: "ConnectX-4 Lx Virtual Function" },
        DeviceIdEntry { part_id: 0x1017, model: NvidiaModel::ConnectX5, is_vf: false, comment: "ConnectX-5 PCIe 3.0" },
        DeviceIdEntry { part_id: 0x1018, model: NvidiaModel::ConnectX5, is_vf: true, comment: "ConnectX-5 Virtual Function" },
        DeviceIdEntry { part_id: 0x1019, model: NvidiaModel::ConnectX5Ex, is_vf: false, comment: "ConnectX-5 Ex" },
        DeviceIdEntry { part_id: 0x101a, model: NvidiaModel::ConnectX5Ex, is_vf: true, comment: "ConnectX-5 Ex Virtual Function" },
        DeviceIdEntry { part_id: 0x101b, model: NvidiaModel::ConnectX6, is_vf: false, comment: "ConnectX-6" },
        DeviceIdEntry { part_id: 0x101c, model: NvidiaModel::ConnectX6, is_vf: true, comment: "ConnectX-6 Virtual Function" },
        DeviceIdEntry { part_id: 0x101d, model: NvidiaModel::ConnectX6Dx, is_vf: false, comment: "ConnectX-6 Dx" },
        DeviceIdEntry { part_id: 0x101e, model: NvidiaModel::Mlx5GenVF, is_vf: true, comment: "ConnectX family mlx5Gen Virtual Function" },
        DeviceIdEntry { part_id: 0x101f, model: NvidiaModel::ConnectX6Lx, is_vf: false, comment: "ConnectX-6 Lx" },
        DeviceIdEntry { part_id: 0x1021, model: NvidiaModel::ConnectX7, is_vf: false, comment: "ConnectX-7" },
        DeviceIdEntry { part_id: 0x1023, model: NvidiaModel::ConnectX8, is_vf: false, comment: "ConnectX-8" },
        DeviceIdEntry { part_id: 0x1025, model: NvidiaModel::ConnectX9, is_vf: false, comment: "ConnectX-9" },
        DeviceIdEntry { part_id: 0xa2d2, model: NvidiaModel::BlueField, is_vf: false, comment: "BlueField integrated ConnectX-5 network controller" },
        DeviceIdEntry { part_id: 0xa2d3, model: NvidiaModel::BlueField, is_vf: true, comment: "BlueField integrated ConnectX-5 network controller Virtual Function" },
        DeviceIdEntry { part_id: 0xa2d6, model: NvidiaModel::BlueField2, is_vf: false, comment: "BlueField-2 integrated ConnectX-6 Dx network controller" },
        DeviceIdEntry { part_id: 0xa2dc, model: NvidiaModel::BlueField3, is_vf: false, comment: "BlueField-3 integrated ConnectX-7 network controller" },
        DeviceIdEntry { part_id: 0xa2df, model: NvidiaModel::BlueField4, is_vf: false, comment: "BlueField-4 integrated ConnectX-8 network controller" },
    ]
}

/// The table of known Nvidia devices.
pub fn nvidia_devices() -> (r: Vec<DeviceIdEntry<NvidiaModel>>)
    ensures
        r@ == spec_nvidia_devices(),
{
    let r = vec![
        DeviceIdEntry { part_id: 0x1011, model: NvidiaModel::ConnectIB, is_vf: false, comment: "Connect-IB" },
        DeviceIdEntry { part_id: 0x1012, model: NvidiaModel::ConnectIB, is_vf: true, comment: "Connect-IB Virtual Function" },
        DeviceIdEntry { part_id: 0x1013, model: NvidiaModel::ConnectX4, is_vf: false, comment: "ConnectX-4" },
        DeviceIdEntry { part_id: 0x1014, model: NvidiaModel::ConnectX4, is_vf: true, comment: "ConnectX-4 Virtual Function" },
        DeviceIdEntry { part_id: 0x1015, model: NvidiaModel::ConnectX4Lx, is_vf: false, comment: "ConnectX-4 Lx" },
        DeviceIdEntry { part_id: 0x1016, model: NvidiaModel::ConnectX4Lx, is_vf: true, comment: "ConnectX-4 Lx Virtual Function" },
        DeviceIdEntry { part_id: 0x1017, model: NvidiaModel::ConnectX5, is_vf: false, comment: "ConnectX-5 PCIe 3.0" },
        DeviceIdEntry { part_id: 0x1018, model: NvidiaModel::ConnectX5, is_vf: true, comment: "ConnectX-5 Virtual Function" },
        DeviceIdEntry { part_id: 0x1019, model: NvidiaModel::ConnectX5Ex, is_vf: false, comment: "ConnectX-5 Ex" },
        DeviceIdEntry { part_id: 0x101a, model: NvidiaModel::ConnectX5Ex, is_vf: true, comment: "ConnectX-5 Ex Virtual Function" },
        DeviceIdEntry { part_id: 0x101b, model: NvidiaModel::ConnectX6, is_vf: false, comment: "ConnectX-6" },
        DeviceIdEntry { part_id: 0x101c, model: NvidiaModel::ConnectX6, is_vf: true, comment: "ConnectX-6 Virtual Function" },
        DeviceIdEntry { part_id: 0x101d, model: NvidiaModel::ConnectX6Dx, is_vf: false, comment: "ConnectX-6 Dx" },
        DeviceIdEntry { part_id: 0x101e, model: NvidiaModel::Mlx5GenVF, is_vf: true, comment: "ConnectX family mlx5Gen Virtual Function" },
        DeviceIdEntry { part_id: 0x101f, model: NvidiaModel::ConnectX6Lx, is_vf: false, comment: "ConnectX-6 Lx" },
        DeviceIdEntry { part_id: 0x1021, model: NvidiaModel::ConnectX7, is_vf: false, comment: "ConnectX-7" },
        DeviceIdEntry { part_id: 0x1023, model: NvidiaModel::ConnectX8, is_vf: false, comment: "ConnectX-8" },
        DeviceIdEntry { part_id: 0x1025, model: NvidiaModel::ConnectX9, is_vf: false, comment: "ConnectX-9" },
        DeviceIdEntry { part_id: 0xa2d2, model: NvidiaModel::BlueField, is_vf: false, comment: "BlueField integrated ConnectX-5 network controller" },
        DeviceIdEntry { part_id: 0xa2d3, model: NvidiaModel::BlueField, is_vf: true, comment: "BlueField integrated ConnectX-5 network controller Virtual Function" },
        DeviceIdEntry { part_id: 0xa2d6, model: NvidiaModel::BlueField2, is_vf: false, comment: "BlueField-2 integrated ConnectX-6 Dx network controller" },
        DeviceIdEntry { part_id: 0xa2dc, model: NvidiaModel::BlueField3, is_vf: false, comment: "BlueField-3 integrated ConnectX-7 network controller" },
        DeviceIdEntry { part_id: 0xa2df, model: NvidiaModel::BlueField4, is_vf: false, comment: "BlueField-4 integrated ConnectX-8 network controller" },
    ];
    assert(r@ =~= spec_nvidia_devices());
    r
}

/// Known QLogic devices, by part id.
pub open spec fn spec_qlogic_devices() -> Seq<DeviceIdEntry<QLogicModel>> {
    seq![
        DeviceIdEntry { part_id: 0x1629, model: QLogicModel::QL45000, is_vf: false, comment: "QLogic FastLinQ QL45000 Series" },
        DeviceIdEntry { part_id: 0x1634, model: QLogicModel::QL45000, is_vf: false, comment: "QLogic FastLinQ QL45000 Series 40GbE Controller" },
        DeviceIdEntry { part_id: 0x1636, model: QLogicModel::QL45000, is_vf: false, comment: "QLogic FastLinQ QL45000 Series" },
        DeviceIdEntry { part_id: 0x1644, model: QLogicModel::QL45000, is_vf: false, comment: "QLogic FastLinQ QL45000 Series 100GbE Controller" },
        DeviceIdEntry { part_id: 0x1654, model: QLogicModel::QL45000, is_vf: false, comment: "QLogic FastLinQ QL45000 Series 50GbE Controller" },
        DeviceIdEntry { part_id: 0x1656, model: QLogicModel::QL45000, is_vf: false, comment: "QLogic FastLinQ QL45000 Series 25GbE Controller" },
        DeviceIdEntry { part_id: 0x1664, model: QLogicModel::QL45000, is_vf: true, comment: "QLogic FastLinQ QL45000 Series Virtual Function" },
        DeviceIdEntry { part_id: 0x1666, model: QLogicModel::QL45000, is_vf: false, comment: "QLogic FastLinQ QL45000 Series 10GbE Controller" },
        DeviceIdEntry { part_id: 0x8070, model: QLogicModel::QL41000, is_vf: false, comment: "QLogic FastLinQ QL41000 Series" },
        DeviceIdEntry { part_id: 0x8090, model: QLogicModel::QL41000, is_vf: true, comment: "QLogic FastLinQ QL41000 Series Virtual Function" },
        DeviceIdEntry { part_id: 0x8170, model: QLogicModel::QL41000, is_vf: false, comment: "QLogic FastLinQ QL41000 Series" },
        DeviceIdEntry { part_id: 0x8190, model: QLogicModel::QL41000, is_vf: true, comment: "QLogic FastLinQ QL41000 Series Virtual Function" },
    ]
}

/// The table of known QLogic devices.
pub fn qlogic_devices() -> (r: Vec<DeviceIdEntry<QLogicModel>>)
    ensures
        r@ == spec_qlogic_devices(),
{
    let r = vec![
        DeviceIdEntry { part_id: 0x1629, model: QLogicModel::QL45000, is_vf: false, comment: "QLogic FastLinQ QL45000 Series" },
        DeviceIdEntry { part_id: 0x1634, model: QLogicModel::QL45000, is_vf: false, comment: "QLogic FastLinQ QL45000 Series 40GbE Controller" },
        DeviceIdEntry { part_id: 0x1636, model: QLogicModel::QL45000, is_vf: false, comment: "QLogic FastLinQ QL45000 Series" },
        DeviceIdEntry { part_id: 0x1644, model: QLogicModel::QL45000, is_vf: false, comment: "QLogic FastLinQ QL45000 Series 100GbE Controller" },
        DeviceIdEntry { part_id: 0x1654, model: QLogicModel::QL45000, is_vf: false, comment: "QLogic FastLinQ QL45000 Series 50GbE Controller" },
        DeviceIdEntry { part_id: 0x1656, model: QLogicModel::QL45000, is_vf: false, comment: "QLogic FastLinQ QL45000 Series 25GbE Controller" },
        DeviceIdEntry { part_id: 0x1664, model: QLogicModel::QL45000, is_vf: true, comment: "QLogic FastLinQ QL45000 Series Virtual Function" },
        DeviceIdEntry { part_id: 0x1666, model: QLogicModel::QL45000, is_vf: false, comment: "QLogic FastLinQ QL45000 Series 10GbE Controller" },
        DeviceIdEntry { part_id: 0x8070, model: QLogicModel::QL41000, is_vf: false, comment: "QLogic FastLinQ QL41000 Series" },
        DeviceIdEntry { part_id: 0x8090, model: QLogicModel::QL41000, is_vf: true, comment: "QLogic FastLinQ QL41000 Series Virtual Function" },
        DeviceIdEntry { part_id: 0x8170, model: QLogicModel::QL41000, is_vf: false, comment: "QLogic FastLinQ QL41000 Series" },
        DeviceIdEntry { part_id: 0x8190, model: QLogicModel::QL41000, is_vf: true, comment: "QLogic FastLinQ QL41000 Series Virtual Function" },
    ];
    assert(r@ =~= spec_qlogic_devices());
    r
}

impl VendorLookup for AlibabaModel {
    type Model = AlibabaModel;

    open spec fn spec_devices() -> Seq<DeviceIdEntry<AlibabaModel>> {
        spec_alibaba_devices()
    }

    open spec fn spec_fallback_model() -> AlibabaModel {
        AlibabaModel::Unknown
    }

    open spec fn spec_create_vendor(model: AlibabaModel) -> Vendor {
        Vendor::Alibaba(model)
    }

    fn devices() -> (r: Vec<DeviceIdEntry<AlibabaModel>>) {
        alibaba_devices()
    }

    fn fallback_model() -> (r: AlibabaModel) {
        AlibabaModel::Unknown
    }

    fn create_vendor(model: AlibabaModel) -> (r: Vendor) {
        Vendor::Alibaba(model)
    }
}

impl VendorLookup for AmazonModel {
    type Model = AmazonModel;

    open spec fn spec_devices() -> Seq<DeviceIdEntry<AmazonModel>> {
        spec_amazon_devices()
    }

    open spec fn spec_fallback_model() -> AmazonModel {
        AmazonModel::Unknown
    }

    open spec fn spec_create_vendor(model: AmazonModel) -> Vendor {
        Vendor::Amazon(model)
    }

    fn devices() -> (r: Vec<DeviceIdEntry<AmazonModel>>) {
        amazon_devices()
    }

    fn fallback_model() -> (r: AmazonModel) {
        AmazonModel::Unknown
    }

    fn create_vendor(model: AmazonModel) -> (r: Vendor) {
        Vendor::Amazon(model)
    }
}

impl VendorLookup for BroadcomModel {
    type Model = BroadcomModel;

    open spec fn spec_devices() -> Seq<DeviceIdEntry<BroadcomModel>> {
        spec_broadcom_devices()
    }

    open spec fn spec_fallback_model() -> BroadcomModel {
        BroadcomModel::Unknown
    }

    open spec fn spec_create_vendor(model: BroadcomModel) -> Vendor {
        Vendor::Broadcom(model)
    }

    fn devices() -> (r: Vec<DeviceIdEntry<BroadcomModel>>) {
        broadcom_devices()
    }

    fn fallback_model() -> (r: BroadcomModel) {
        BroadcomModel::Unknown
    }

    fn create_vendor(model: BroadcomModel) -> (r: Vendor) {
        Vendor::Broadcom(model)
    }
}

impl VendorLookup for ChelsioModel {
    type Model = ChelsioModel;

    open spec fn spec_devices() -> Seq<DeviceIdEntry<ChelsioModel>> {
        spec_chelsio_devices()
    }

    open spec fn spec_fallback_model() -> ChelsioModel {
        ChelsioModel::Unknown
    }

    open spec fn spec_create_vendor(model: ChelsioModel) -> Vendor {
        Vendor::Chelsio(model)
    }

    fn devices() -> (r: Vec<DeviceIdEntry<ChelsioModel>>) {
        chelsio_devices()
    }

    fn fallback_model() -> (r: ChelsioModel) {
        ChelsioModel::Unknown
    }

    fn create_vendor(model: ChelsioModel) -> (r: Vendor) {
        Vendor::Chelsio(model)
    }
}

impl VendorLookup for HiSiliconModel {
    type Model = HiSiliconModel;

    open spec fn spec_devices() -> Seq<DeviceIdEntry<HiSiliconModel>> {
        spec_hisilicon_devices()
    }

    open spec fn spec_fallback_model() -> HiSiliconModel {
        HiSiliconModel::Unknown
    }

    open spec fn spec_create_vendor(model: HiSiliconModel) -> Vendor {
        Vendor::HiSilicon(model)
    }

    fn devices() -> (r: Vec<DeviceIdEntry<HiSiliconModel>>) {
        hisilicon_devices()
    }

    fn fallback_model() -> (r: HiSiliconModel) {
        HiSiliconModel::Unknown
    }

    fn create_vendor(model: HiSiliconModel) -> (r: Vendor) {
        Vendor::HiSilicon(model)
    }
}

impl VendorLookup for IntelModel {
    type Model = IntelModel;

    open spec fn spec_devices() -> Seq<DeviceIdEntry<IntelModel>> {
        spec_intel_devices()
    }

    open spec fn spec_fallback_model() -> IntelModel {
        IntelModel::Unknown
    }

    open spec fn spec_create_vendor(model: IntelModel) -> Vendor {
        Vendor::Intel(model)
    }

    fn devices() -> (r: Vec<DeviceIdEntry<IntelModel>>) {
        intel_devices()
    }

    fn fallback_model() -> (r: IntelModel) {
        IntelModel::Unknown
    }

    fn create_vendor(model: IntelModel) -> (r: Vendor) {
        Vendor::Intel(model)
    }
}

impl VendorLookup for NvidiaModel {
    type Model = NvidiaModel;

    open spec fn spec_devices() -> Seq<DeviceIdEntry<NvidiaModel>> {
        spec_nvidia_devices()
    }

    open spec fn spec_fallback_model() -> NvidiaModel {
        NvidiaModel::Unknown
    }

    open spec fn spec_create_vendor(model: NvidiaModel) -> Vendor {
        Vendor::Nvidia(model)
    }

    fn devices() -> (r: Vec<DeviceIdEntry<NvidiaModel>>) {
        nvidia_devices()
    }

    fn fallback_model() -> (r: NvidiaModel) {
        NvidiaModel::Unknown
    }

    fn create_vendor(model: NvidiaModel) -> (r: Vendor) {
        Vendor::Nvidia(model)
    }
}

impl VendorLookup for QLogicModel {
    type Model = QLogicModel;

    open spec fn spec_devices() -> Seq<DeviceIdEntry<QLogicModel>> {
        spec_qlogic_devices()
    }

    open spec fn spec_fallback_model() -> QLogicModel {
        QLogicModel::Unknown
    }

    open spec fn spec_create_vendor(model: QLogicModel) -> Vendor {
        Vendor::QLogic(model)
    }

    fn devices() -> (r: Vec<DeviceIdEntry<QLogicModel>>) {
        qlogic_devices()
    }

    fn fallback_model() -> (r: QLogicModel) {
        QLogicModel::Unknown
    }

    fn create_vendor(model: QLogicModel) -> (r: Vendor) {
        Vendor::QLogic(model)
    }
}


/// Each listed Nvidia part id identifies its model, function type and
/// product description, whatever the vendor id.
pub proof fn lemma_nvidia_device_ids(vendor_id: u32)
    ensures
        spec_lookup_vendor::<NvidiaModel>(vendor_id, 0x1011) == (Vendor::Nvidia(NvidiaModel::ConnectIB), FunctionType::PhysicalFunction, "Connect-IB"),
        spec_lookup_vendor::<NvidiaModel>(vendor_id, 0x1012) == (Vendor::Nvidia(NvidiaModel::ConnectIB), FunctionType::VirtualFunction, "Connect-IB Virtual Function"),
        spec_lookup_vendor::<NvidiaModel>(vendor_id, 0x1013) == (Vendor::Nvidia(NvidiaModel::ConnectX4), FunctionType::PhysicalFunction, "ConnectX-4"),
        spec_lookup_vendor::<NvidiaModel>(vendor_id, 0x1014) == (Vendor::Nvidia(NvidiaModel::ConnectX4), FunctionType::VirtualFunction, "ConnectX-4 Virtual Function"),
        spec_lookup_vendor::<NvidiaModel>(vendor_id, 0x1015) == (Vendor::Nvidia(NvidiaModel::ConnectX4Lx), FunctionType::PhysicalFunction, "ConnectX-4 Lx"),
        spec_lookup_vendor::<NvidiaModel>(vendor_id, 0x1016) == (Vendor::Nvidia(NvidiaModel::ConnectX4Lx), FunctionType::VirtualFunction, "ConnectX-4 Lx Virtual Function"),
        spec_lookup_vendor::<NvidiaModel>(vendor_id, 0x1017) == (Vendor::Nvidia(NvidiaModel::ConnectX5), FunctionType::PhysicalFunction, "ConnectX-5 PCIe 3.0"),
        spec_lookup_vendor::<NvidiaModel>(vendor_id, 0x1018) == (Vendor::Nvidia(NvidiaModel::ConnectX5), FunctionType::VirtualFunction, "ConnectX-5 Virtual Function"),
        spec_lookup_vendor::<NvidiaModel>(vendor_id, 0x1019) == (Vendor::Nvidia(NvidiaModel::ConnectX5Ex), FunctionType::PhysicalFunction, "ConnectX-5 Ex"),
        spec_lookup_vendor::<NvidiaModel>(vendor_id, 0x101a) == (Vendor::Nvidia(NvidiaModel::ConnectX5Ex), FunctionType::VirtualFunction, "ConnectX-5 Ex Virtual Function"),
        spec_lookup_vendor::<NvidiaModel>(vendor_id, 0x101b) == (Vendor::Nvidia(NvidiaModel::ConnectX6), FunctionType::PhysicalFunction, "ConnectX-6"),
        spec_lookup_vendor::<NvidiaModel>(vendor_id, 0x101c) == (Vendor::Nvidia(NvidiaModel::ConnectX6), FunctionType::VirtualFunction, "ConnectX-6 Virtual Function"),
        spec_lookup_vendor::<NvidiaModel>(vendor_id, 0x101d) == (Vendor::Nvidia(NvidiaModel::ConnectX6Dx), FunctionType::PhysicalFunction, "ConnectX-6 Dx"),
        spec_lookup_vendor::<NvidiaModel>(vendor_id, 0x101e) == (Vendor::Nvidia(NvidiaModel::Mlx5GenVF), FunctionType::VirtualFunction, "ConnectX family mlx5Gen Virtual Function"),
        spec_lookup_vendor::<NvidiaModel>(vendor_id, 0x101f) == (Vendor::Nvidia(NvidiaModel::ConnectX6Lx), FunctionType::PhysicalFunction, "ConnectX-6 Lx"),
        spec_lookup_vendor::<NvidiaModel>(vendor_id, 0x1021) == (Vendor::Nvidia(NvidiaModel::ConnectX7), FunctionType::PhysicalFunction, "ConnectX-7"),
        spec_lookup_vendor::<NvidiaModel>(vendor_id, 0x1023) == (Vendor::Nvidia(NvidiaModel::ConnectX8), FunctionType::PhysicalFunction, "ConnectX-8"),
        spec_lookup_vendor::<NvidiaModel>(vendor_id, 0x1025) == (Vendor::Nvidia(NvidiaModel::ConnectX9), FunctionType::PhysicalFunction, "ConnectX-9"),
        spec_lookup_vendor::<NvidiaModel>(vendor_id, 0xa2d2) == (Vendor::Nvidia(NvidiaModel::BlueField), FunctionType::PhysicalFunction, "BlueField integrated ConnectX-5 network controller"),
        spec_lookup_vendor::<NvidiaModel>(vendor_id, 0xa2d3) == (Vendor::Nvidia(NvidiaModel::BlueField), FunctionType::VirtualFunction, "BlueField integrated ConnectX-5 network controller Virtual Function"),
        spec_lookup_vendor::<NvidiaModel>(vendor_id, 0xa2d6) == (Vendor::Nvidia(NvidiaModel::BlueField2), FunctionType::PhysicalFunction, "BlueField-2 integrated ConnectX-6 Dx network controller"),
        spec_lookup_vendor::<NvidiaModel>(vendor_id, 0xa2dc) == (Vendor::Nvidia(NvidiaModel::BlueField3), FunctionType::PhysicalFunction, "BlueField-3 integrated ConnectX-7 network controller"),
        spec_lookup_vendor::<NvidiaModel>(vendor_id, 0xa2df) == (Vendor::Nvidia(NvidiaModel::BlueField4), FunctionType::PhysicalFunction, "BlueField-4 integrated ConnectX-8 network controller"),
{
    reveal_with_fuel(find_entry, 24);
}


/// Each listed Alibaba part id identifies its model, function type and
/// product description, whatever the vendor id.
pub proof fn lemma_alibaba_device_ids(vendor_id: u32)
    ensures
        spec_lookup_vendor::<AlibabaModel>(vendor_id, 0x107f) == (Vendor::Alibaba(AlibabaModel::ERDMA), FunctionType::PhysicalFunction, "Alibaba Elastic RDMA Adapter"),
{
    reveal_with_fuel(find_entry, 2);
}

/// Each listed Amazon part id identifies its model, function type and
/// product description, whatever the vendor id.
pub proof fn lemma_amazon_device_ids(vendor_id: u32)
    ensures
        spec_lookup_vendor::<AmazonModel>(vendor_id, 0xefa0) == (Vendor::Amazon(AmazonModel::EFA), FunctionType::PhysicalFunction, "Amazon EFA"),
        spec_lookup_vendor::<AmazonModel>(vendor_id, 0xefa1) == (Vendor::Amazon(AmazonModel::EFA), FunctionType::PhysicalFunction, "Amazon EFA"),
        spec_lookup_vendor::<AmazonModel>(vendor_id, 0xefa2) == (Vendor::Amazon(AmazonModel::EFA), FunctionType::PhysicalFunction, "Amazon EFA"),
{
    reveal_with_fuel(find_entry, 4);
}

/// Each listed Broadcom part id identifies its model, function type and
/// product description, whatever the vendor id.
#[verifier::rlimit(100)]
pub proof fn lemma_broadcom_device_ids(vendor_id: u32)
    ensures
        spec_lookup_vendor::<BroadcomModel>(vendor_id, 0x1605) == (Vendor::Broadcom(BroadcomModel::NetXtremeE), FunctionType::PhysicalFunction, "Broadcom NetXtreme-E BCM57454 NPAR"),
        spec_lookup_vendor::<BroadcomModel>(vendor_id, 0x1606) == (Vendor::Broadcom(BroadcomModel::NetXtremeE), FunctionType::VirtualFunction, "Broadcom NetXtreme-E BCM57454 Virtual Function"),
        spec_lookup_vendor::<BroadcomModel>(vendor_id, 0x1614) == (Vendor::Broadcom(BroadcomModel::NetXtremeE), FunctionType::PhysicalFunction, "Broadcom NetXtreme-E BCM57454"),
        spec_lookup_vendor::<BroadcomModel>(vendor_id, 0x16c0) == (Vendor::Broadcom(BroadcomModel::NetXtremeE), FunctionType::PhysicalFunction, "Broadcom NetXtreme-E BCM57417 NPAR"),
        spec_lookup_vendor::<BroadcomModel>(vendor_id, 0x16c1) == (Vendor::Broadcom(BroadcomModel::NetXtremeE), FunctionType::VirtualFunction, "Broadcom NetXtreme-E BCM57414 Virtual Function"),
        spec_lookup_vendor::<BroadcomModel>(vendor_id, 0x16ce) == (Vendor::Broadcom(BroadcomModel::NetXtremeC), FunctionType::PhysicalFunction, "Broadcom NetXtreme-C BCM57311"),
        spec_lookup_vendor::<BroadcomModel>(vendor_id, 0x16cf) == (Vendor::Broadcom(BroadcomModel::NetXtremeC), FunctionType::PhysicalFunction, "Broadcom NetXtreme-C BCM57312"),
        spec_lookup_vendor::<BroadcomModel>(vendor_id, 0x16d6) == (Vendor::Broadcom(BroadcomModel::NetXtremeE), FunctionType::PhysicalFunction, "Broadcom NetXtreme-E BCM57412"),
        spec_lookup_vendor::<BroadcomModel>(vendor_id, 0x16d7) == (Vendor::Broadcom(BroadcomModel::NetXtremeE), FunctionType::PhysicalFunction, "Broadcom NetXtreme-E BCM57414"),
        spec_lookup_vendor::<BroadcomModel>(vendor_id, 0x16d8) == (Vendor::Broadcom(BroadcomModel::NetXtremeE), FunctionType::PhysicalFunction, "Broadcom NetXtreme-E BCM57416 Cu"),
        spec_lookup_vendor::<BroadcomModel>(vendor_id, 0x16d9) == (Vendor::Broadcom(BroadcomModel::NetXtremeE), FunctionType::PhysicalFunction, "Broadcom NetXtreme-E BCM57417 Cu"),
        spec_lookup_vendor::<BroadcomModel>(vendor_id, 0x16df) == (Vendor::Broadcom(BroadcomModel::NetXtremeC), FunctionType::PhysicalFunction, "Broadcom NetXtreme-C BCM57314"),
        spec_lookup_vendor::<BroadcomModel>(vendor_id, 0x16e2) == (Vendor::Broadcom(BroadcomModel::NetXtremeE), FunctionType::PhysicalFunction, "Broadcom NetXtreme-E BCM57417"),
        spec_lookup_vendor::<BroadcomModel>(vendor_id, 0x16e3) == (Vendor::Broadcom(BroadcomModel::NetXtremeE), FunctionType::PhysicalFunction, "Broadcom NetXtreme-E BCM57416"),
        spec_lookup_vendor::<BroadcomModel>(vendor_id, 0x16e5) == (Vendor::Broadcom(BroadcomModel::NetXtremeC), FunctionType::VirtualFunction, "Broadcom NetXtreme-C BCM57314 Virtual Function"),
        spec_lookup_vendor::<BroadcomModel>(vendor_id, 0x16ed) == (Vendor::Broadcom(BroadcomModel::NetXtremeE), FunctionType::PhysicalFunction, "Broadcom NetXtreme-E BCM57414 NPAR"),
        spec_lookup_vendor::<BroadcomModel>(vendor_id, 0x16eb) == (Vendor::Broadcom(BroadcomModel::NetXtremeE), FunctionType::PhysicalFunction, "Broadcom NetXtreme-E BCM57412 NPAR"),
        spec_lookup_vendor::<BroadcomModel>(vendor_id, 0x16ef) == (Vendor::Broadcom(BroadcomModel::NetXtremeE), FunctionType::PhysicalFunction, "Broadcom NetXtreme-E BCM57416 NPAR"),
        spec_lookup_vendor::<BroadcomModel>(vendor_id, 0x1750) == (Vendor::Broadcom(BroadcomModel::NetXtremeE), FunctionType::PhysicalFunction, "Broadcom NetXtreme-E BCM57508"),
        spec_lookup_vendor::<BroadcomModel>(vendor_id, 0x1751) == (Vendor::Broadcom(BroadcomModel::NetXtremeE), FunctionType::PhysicalFunction, "Broadcom NetXtreme-E BCM57504"),
        spec_lookup_vendor::<BroadcomModel>(vendor_id, 0x1752) == (Vendor::Broadcom(BroadcomModel::NetXtremeE), FunctionType::PhysicalFunction, "Broadcom NetXtreme-E BCM57502"),
        spec_lookup_vendor::<BroadcomModel>(vendor_id, 0x1803) == (Vendor::Broadcom(BroadcomModel::NetXtremeE), FunctionType::PhysicalFunction, "Broadcom NetXtreme-E BCM57508 NPAR"),
        spec_lookup_vendor::<BroadcomModel>(vendor_id, 0x1804) == (Vendor::Broadcom(BroadcomModel::NetXtremeE), FunctionType::PhysicalFunction, "Broadcom NetXtreme-E BCM57504 NPAR"),
        spec_lookup_vendor::<BroadcomModel>(vendor_id, 0x1805) == (Vendor::Broadcom(BroadcomModel::NetXtremeE), FunctionType::PhysicalFunction, "Broadcom NetXtreme-E BCM57502 NPAR"),
        spec_lookup_vendor::<BroadcomModel>(vendor_id, 0x1807) == (Vendor::Broadcom(BroadcomModel::NetXtremeE), FunctionType::VirtualFunction, "Broadcom NetXtreme-E BCM5750X Virtual Function"),
        spec_lookup_vendor::<BroadcomModel>(vendor_id, 0x1809) == (Vendor::Broadcom(BroadcomModel::NetXtremeE), FunctionType::VirtualFunction, "Broadcom NetXtreme-E BCM5750X Gen P5 Virtual Function HV"),
        spec_lookup_vendor::<BroadcomModel>(vendor_id, 0xd800) == (Vendor::Broadcom(BroadcomModel::NetXtreme), FunctionType::VirtualFunction, "Broadcom NetXtreme BCM880XX Virtual Function"),
        spec_lookup_vendor::<BroadcomModel>(vendor_id, 0xd802) == (Vendor::Broadcom(BroadcomModel::NetXtreme), FunctionType::PhysicalFunction, "Broadcom NetXtreme BCM58802"),
        spec_lookup_vendor::<BroadcomModel>(vendor_id, 0xd804) == (Vendor::Broadcom(BroadcomModel::NetXtreme), FunctionType::PhysicalFunction, "Broadcom NetXtreme BCM8804 SR"),
{
    reveal_with_fuel(find_entry, 30);
}

/// Each listed Chelsio part id identifies its model, function type and
/// product description, whatever the vendor id.
pub proof fn lemma_chelsio_device_ids(vendor_id: u32)
    ensures
        spec_lookup_vendor::<ChelsioModel>(vendor_id, 0x4000) == (Vendor::Chelsio(ChelsioModel::ChelsioT4), FunctionType::PhysicalFunction, "Chelsio T440-DBG"),
        spec_lookup_vendor::<ChelsioModel>(vendor_id, 0x4001) == (Vendor::Chelsio(ChelsioModel::ChelsioT4), FunctionType::PhysicalFunction, "Chelsio T420-CR"),
        spec_lookup_vendor::<ChelsioModel>(vendor_id, 0x4002) == (Vendor::Chelsio(ChelsioModel::ChelsioT4), FunctionType::PhysicalFunction, "Chelsio T422-CR"),
        spec_lookup_vendor::<ChelsioModel>(vendor_id, 0x4003) == (Vendor::Chelsio(ChelsioModel::ChelsioT4), FunctionType::PhysicalFunction, "Chelsio T440-CR"),
        spec_lookup_vendor::<ChelsioModel>(vendor_id, 0x5000) == (Vendor::Chelsio(ChelsioModel::ChelsioT5), FunctionType::PhysicalFunction, "Chelsio T580-DBG"),
        spec_lookup_vendor::<ChelsioModel>(vendor_id, 0x5001) == (Vendor::Chelsio(ChelsioModel::ChelsioT5), FunctionType::PhysicalFunction, "Chelsio T520-CR"),
        spec_lookup_vendor::<ChelsioModel>(vendor_id, 0x5002) == (Vendor::Chelsio(ChelsioModel::ChelsioT5), FunctionType::PhysicalFunction, "Chelsio T522-CR"),
        spec_lookup_vendor::<ChelsioModel>(vendor_id, 0x5003) == (Vendor::Chelsio(ChelsioModel::ChelsioT5), FunctionType::PhysicalFunction, "Chelsio T540-CR"),
        spec_lookup_vendor::<ChelsioModel>(vendor_id, 0x6001) == (Vendor::Chelsio(ChelsioModel::ChelsioT5), FunctionType::PhysicalFunction, "Chelsio T6225-CR"),
        spec_lookup_vendor::<ChelsioModel>(vendor_id, 0x6002) == (Vendor::Chelsio(ChelsioModel::ChelsioT5), FunctionType::PhysicalFunction, "Chelsio T6225-SO-CR"),
        spec_lookup_vendor::<ChelsioModel>(vendor_id, 0x6003) == (Vendor::Chelsio(ChelsioModel::ChelsioT5), FunctionType::PhysicalFunction, "Chelsio T6425-CR"),
{
    reveal_with_fuel(find_entry, 12);
}

/// Each listed HiSilicon part id identifies its model, function type and
/// product description, whatever the vendor id.
pub proof fn lemma_hisilicon_device_ids(vendor_id: u32)
    ensures
        spec_lookup_vendor::<HiSiliconModel>(vendor_id, 0xa222) == (Vendor::HiSilicon(HiSiliconModel::HNS), FunctionType::PhysicalFunction, "HNS GE/10GE/25GE RDMA Network Controller"),
        spec_lookup_vendor::<HiSiliconModel>(vendor_id, 0xa223) == (Vendor::HiSilicon(HiSiliconModel::HNS), FunctionType::PhysicalFunction, "HNS GE/10GE/25GE RDMA Network Controller"),
        spec_lookup_vendor::<HiSiliconModel>(vendor_id, 0xa224) == (Vendor::HiSilicon(HiSiliconModel::HNS), FunctionType::PhysicalFunction, "HNS GE/10GE/25GE/50GE RDMA Network Controller"),
        spec_lookup_vendor::<HiSiliconModel>(vendor_id, 0xa225) == (Vendor::HiSilicon(HiSiliconModel::HNS), FunctionType::PhysicalFunction, "HNS GE/10GE/25GE/50GE RDMA Network Controller"),
        spec_lookup_vendor::<HiSiliconModel>(vendor_id, 0xa226) == (Vendor::HiSilicon(HiSiliconModel::HNS), FunctionType::PhysicalFunction, "HNS GE/10GE/25GE/50GE/100GE RDMA Network Controller"),
        spec_lookup_vendor::<HiSiliconModel>(vendor_id, 0xa227) == (Vendor::HiSilicon(HiSiliconModel::HNS), FunctionType::PhysicalFunction, "HNS GE/10GE/25GE/50GE/100GE RDMA Network Controller"),
        spec_lookup_vendor::<HiSiliconModel>(vendor_id, 0xa228) == (Vendor::HiSilicon(HiSiliconModel::HNS), FunctionType::PhysicalFunction, "HNS GE/10GE/25GE/50GE/100GE/200GE RDMA Network Controller"),
        spec_lookup_vendor::<HiSiliconModel>(vendor_id, 0xa22f) == (Vendor::HiSilicon(HiSiliconModel::HNS), FunctionType::VirtualFunction, "HNS GE/10GE/25GE/50GE/100GE/200GE RDMA Network Controller Virtual Function"),
{
    reveal_with_fuel(find_entry, 9);
}

/// Each listed Intel part id identifies its model, function type and
/// product description, whatever the vendor id.
pub proof fn lemma_intel_device_ids(vendor_id: u32)
    ensures
        spec_lookup_vendor::<IntelModel>(vendor_id, 0x1572) == (Vendor::Intel(IntelModel::XL710), FunctionType::PhysicalFunction, "Intel XL710"),
        spec_lookup_vendor::<IntelModel>(vendor_id, 0x374c) == (Vendor::Intel(IntelModel::X722), FunctionType::PhysicalFunction, "Intel X722"),
{
    reveal_with_fuel(find_entry, 3);
}

/// Each listed QLogic part id identifies its model, function type and
/// product description, whatever the vendor id.
pub proof fn lemma_qlogic_device_ids(vendor_id: u32)
    ensures
        spec_lookup_vendor::<QLogicModel>(vendor_id, 0x1629) == (Vendor::QLogic(QLogicModel::QL45000), FunctionType::PhysicalFunction, "QLogic FastLinQ QL45000 Series"),
        spec_lookup_vendor::<QLogicModel>(vendor_id, 0x1634) == (Vendor::QLogic(QLogicModel::QL45000), FunctionType::PhysicalFunction, "QLogic FastLinQ QL45000 Series 40GbE Controller"),
        spec_lookup_vendor::<QLogicModel>(vendor_id, 0x1636) == (Vendor::QLogic(QLogicModel::QL45000), FunctionType::PhysicalFunction, "QLogic FastLinQ QL45000 Series"),
        spec_lookup_vendor::<QLogicModel>(vendor_id, 0x1644) == (Vendor::QLogic(QLogicModel::QL45000), FunctionType::PhysicalFunction, "QLogic FastLinQ QL45000 Series 100GbE Controller"),
        spec_lookup_vendor::<QLogicModel>(vendor_id, 0x1654) == (Vendor::QLogic(QLogicModel::QL45000), FunctionType::PhysicalFunction, "QLogic FastLinQ QL45000 Series 50GbE Controller"),
        spec_lookup_vendor::<QLogicModel>(vendor_id, 0x1656) == (Vendor::QLogic(QLogicModel::QL45000), FunctionType::PhysicalFunction, "QLogic FastLinQ QL45000 Series 25GbE Controller"),
        spec_lookup_vendor::<QLogicModel>(vendor_id, 0x1664) == (Vendor::QLogic(QLogicModel::QL45000), FunctionType::VirtualFunction, "QLogic FastLinQ QL45000 Series Virtual Function"),
        spec_lookup_vendor::<QLogicModel>(vendor_id, 0x1666) == (Vendor::QLogic(QLogicModel::QL45000), FunctionType::PhysicalFunction, "QLogic FastLinQ QL45000 Series 10GbE Controller"),
        spec_lookup_vendor::<QLogicModel>(vendor_id, 0x8070) == (Vendor::QLogic(QLogicModel::QL41000), FunctionType::PhysicalFunction, "QLogic FastLinQ QL41000 Series"),
        spec_lookup_vendor::<QLogicModel>(vendor_id, 0x8090) == (Vendor::QLogic(QLogicModel::QL41000), FunctionType::VirtualFunction, "QLogic FastLinQ QL41000 Series Virtual Function"),
        spec_lookup_vendor::<QLogicModel>(vendor_id, 0x8170) == (Vendor::QLogic(QLogicModel::QL41000), FunctionType::PhysicalFunction, "QLogic FastLinQ QL41000 Series"),
        spec_lookup_vendor::<QLogicModel>(vendor_id, 0x8190) == (Vendor::QLogic(QLogicModel::QL41000), FunctionType::VirtualFunction, "QLogic FastLinQ QL41000 Series Virtual Function"),
{
    reveal_with_fuel(find_entry, 13);
}

} // verus!
