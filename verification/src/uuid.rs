//! Well-known GATT identifiers of the cube's service and characteristics.
//!
//! All of them share one UUID family: the last twelve bytes are constant and
//! only the first four bytes vary by characteristic.

use vstd::prelude::*;

verus! {

/// Names of the cube's GATT service and characteristics.
#[derive(Debug, Copy, Clone, PartialEq, Eq, Structural)]
pub enum CoreCubeUuidName {
    Service,
    IdInfo,
    SensorInfo,
    ButtonInfo,
    BatteryInfo,
    MotorCtrl,
    LightCtrl,
    SoundCtrl,
    Configuration,
}

/// A UUID as its four groups, in the layout the BLE binding consumes.
#[derive(Debug, Copy, Clone)]
pub struct CubeUuid {
    pub data1: u32,
    pub data2: u16,
    pub data3: u16,
    pub data4: [u8; 8],
}

/// The first group of the UUID assigned to `name`; the other three groups are
/// the same for every characteristic of the cube.
pub open spec fn uuid_data1_of(name: CoreCubeUuidName) -> u32 {
    match name {
        CoreCubeUuidName::Service => 0x10b20100,
        CoreCubeUuidName::IdInfo => 0x10b20101,
        CoreCubeUuidName::MotorCtrl => 0x10b20102,
        CoreCubeUuidName::LightCtrl => 0x10b20103,
        CoreCubeUuidName::SoundCtrl => 0x10b20104,
        CoreCubeUuidName::SensorInfo => 0x10b20106,
        CoreCubeUuidName::ButtonInfo => 0x10b20107,
        CoreCubeUuidName::BatteryInfo => 0x10b20108,
        CoreCubeUuidName::Configuration => 0x10b201ff,
    }
}

/// The constant tail of the UUID family, as the two short groups and the
/// eight-byte group.
pub open spec fn uuid_tail_ok(u: CubeUuid) -> bool {
    &&& u.data2 == 0x5b3b
    &&& u.data3 == 0x4571
    &&& u.data4@ == seq![0x95u8, 0x08, 0xcf, 0x3e, 0xfc, 0xd7, 0xbb, 0xae]
}

/// The UUID of the named service or characteristic.
pub fn get_uuid(name: CoreCubeUuidName) -> (r: Option<CubeUuid>)
    ensures
        r is Some,
        r->0.data1 == uuid_data1_of(name),
        uuid_tail_ok(r->0),
{
    let data1: u32 = match name {
        CoreCubeUuidName::Service => 0x10b20100,
        CoreCubeUuidName::IdInfo => 0x10b20101,
        CoreCubeUuidName::MotorCtrl => 0x10b20102,
        CoreCubeUuidName::LightCtrl => 0x10b20103,
        CoreCubeUuidName::SoundCtrl => 0x10b20104,
        CoreCubeUuidName::SensorInfo => 0x10b20106,
        CoreCubeUuidName::ButtonInfo => 0x10b20107,
        CoreCubeUuidName::BatteryInfo => 0x10b20108,
        CoreCubeUuidName::Configuration => 0x10b201ff,
    };
    let u = CubeUuid {
        data1,
        data2: 0x5b3b,
        data3: 0x4571,
        data4: [0x95, 0x08, 0xcf, 0x3e, 0xfc, 0xd7, 0xbb, 0xae],
    };
    Some(u)
}

} // verus!
