//! The device identity: station name, vendor string, identifiers and IP
//! configuration, as reported by Identify responses and changed by Set requests.

use crate::address::{EthernetAddress, Ipv4Address};
use crate::block::{
    DeviceInstance, DeviceVendor, NameOfStation, MAX_DEVICE_VENDOR_LENGTH,
    MAX_NAME_OF_STATION_LENGTH,
};
use crate::block_options::DeviceRole;
use vstd::prelude::*;
use vstd::string::StringSliceAdditionalSpecFns;

verus! {

/// The addresses of the device.
#[derive(Debug, Clone, Copy, PartialEq, Eq)]
pub struct IpConfig {
    pub mac_address: EthernetAddress,
    pub ip_address: Ipv4Address,
    pub subnet_mask: Ipv4Address,
    pub gateway: Ipv4Address,
}

impl IpConfig {
    /// A configuration with the MAC address `mac_address` and no IP parameters (all 0.0.0.0).
    pub fn new_not_set(mac_address: EthernetAddress) -> (r: Self)
        ensures
            r.mac_address == mac_address,
            r.ip_address.0@ == seq![0u8, 0u8, 0u8, 0u8],
            r.subnet_mask.0@ == seq![0u8, 0u8, 0u8, 0u8],
            r.gateway.0@ == seq![0u8, 0u8, 0u8, 0u8],
    {
        Self {
            mac_address,
            ip_address: Ipv4Address::new(0, 0, 0, 0),
            subnet_mask: Ipv4Address::new(0, 0, 0, 0),
            gateway: Ipv4Address::new(0, 0, 0, 0),
        }
    }
}

/// The identity of the device.
#[derive(Debug, Clone, Copy, PartialEq, Eq)]
pub struct Config {
    pub name_of_station: [u8; MAX_NAME_OF_STATION_LENGTH],
    pub name_of_station_len: usize,
    pub device_vendor: [u8; MAX_DEVICE_VENDOR_LENGTH],
    pub device_vendor_len: usize,
    pub vendor_id: u16,
    pub device_id: u16,
    pub device_role: DeviceRole,
    pub device_instance: DeviceInstance,
    pub ip_config: IpConfig,
}

/// The identity as a mathematical value.
pub struct ConfigView {
    pub name_of_station: Seq<u8>,
    pub device_vendor: Seq<u8>,
    pub vendor_id: u16,
    pub device_id: u16,
    pub device_role: DeviceRole,
    pub device_instance: DeviceInstance,
    pub mac_address: Seq<u8>,
    pub ip_address: Seq<u8>,
    pub subnet_mask: Seq<u8>,
    pub gateway: Seq<u8>,
}

impl View for Config {
    type V = ConfigView;

    open spec fn view(&self) -> ConfigView {
        ConfigView {
            name_of_station: self.name_of_station@.take(self.name_of_station_len as int),
            device_vendor: self.device_vendor@.take(self.device_vendor_len as int),
            vendor_id: self.vendor_id,
            device_id: self.device_id,
            device_role: self.device_role,
            device_instance: self.device_instance,
            mac_address: self.ip_config.mac_address.0@,
            ip_address: self.ip_config.ip_address.0@,
            subnet_mask: self.ip_config.subnet_mask.0@,
            gateway: self.ip_config.gateway.0@,
        }
    }
}

impl Config {
    /// String lengths within their capacities.
    pub open spec fn wf(&self) -> bool {
        &&& self.name_of_station_len <= MAX_NAME_OF_STATION_LENGTH
        &&& self.device_vendor_len <= MAX_DEVICE_VENDOR_LENGTH
    }

    /// An identity with the given station name, vendor string and addresses,
    /// vendor ID 0x1337, device ID 0x6969, the IO device role and instance 0x42, 0x69.
    pub fn new(name_of_station: &str, device_vendor: &str, ip_config: IpConfig) -> (r: Self)
        requires
            name_of_station.spec_bytes().len() <= MAX_NAME_OF_STATION_LENGTH,
            device_vendor.spec_bytes().len() <= MAX_DEVICE_VENDOR_LENGTH,
        ensures
            r.wf(),
            r@.name_of_station == name_of_station.spec_bytes(),
            r@.device_vendor == device_vendor.spec_bytes(),
            r.vendor_id == 0x1337,
            r.device_id == 0x6969,
            r.device_role == DeviceRole::IODevice,
            r.device_instance == (DeviceInstance { high: 0x42, low: 0x69 }),
            r.ip_config == ip_config,
    {
        let name = NameOfStation::from_str(name_of_station);
        let vendor = DeviceVendor::from_str(device_vendor);
        Self {
            name_of_station: name.name,
            name_of_station_len: name.length,
            device_vendor: vendor.vendor,
            device_vendor_len: vendor.length,
            vendor_id: 0x1337,
            device_id: 0x6969,
            device_role: DeviceRole::IODevice,
            device_instance: DeviceInstance { high: 0x42, low: 0x69 },
            ip_config,
        }
    }
}

} // verus!
