//! The registered option and suboption codes of DCP blocks, with their wire values.

use vstd::prelude::*;

verus! {

/// The option groups of a DCP block.
#[derive(Debug, Clone, Copy, PartialEq, Eq, Structural)]
pub enum BlockOption {
    IP,
    DeviceProperties,
    DHCP,
    Control,
    DeviceInitiative,
    NMEDomain,
    ManufacturerSpecific,
    All,
}

impl BlockOption {
    /// The variant that stands for wire value `v`, if any.
    pub open spec fn spec_from(v: u8) -> Option<Self> {
        if v == 0x1 {
            Some(BlockOption::IP)
        } else if v == 0x2 {
            Some(BlockOption::DeviceProperties)
        } else if v == 0x3 {
            Some(BlockOption::DHCP)
        } else if v == 0x5 {
            Some(BlockOption::Control)
        } else if v == 0x6 {
            Some(BlockOption::DeviceInitiative)
        } else if v == 0x7 {
            Some(BlockOption::NMEDomain)
        } else if 0x80 <= v <= 0xfe {
            Some(BlockOption::ManufacturerSpecific)
        } else if v == 0xff {
            Some(BlockOption::All)
        } else {
            None
        }
    }

    /// The wire value of the variant.
    pub open spec fn spec_value(self) -> u8 {
        match self {
            BlockOption::IP => 0x1,
            BlockOption::DeviceProperties => 0x2,
            BlockOption::DHCP => 0x3,
            BlockOption::Control => 0x5,
            BlockOption::DeviceInitiative => 0x6,
            BlockOption::NMEDomain => 0x7,
            BlockOption::ManufacturerSpecific => 0x80,
            BlockOption::All => 0xff,
        }
    }

    /// Decodes a wire value; `None` when no variant has it.
    pub fn from_u8(v: u8) -> (r: Option<Self>)
        ensures
            r == Self::spec_from(v),
    {
        if v == 0x1 {
            Some(BlockOption::IP)
        } else if v == 0x2 {
            Some(BlockOption::DeviceProperties)
        } else if v == 0x3 {
            Some(BlockOption::DHCP)
        } else if v == 0x5 {
            Some(BlockOption::Control)
        } else if v == 0x6 {
            Some(BlockOption::DeviceInitiative)
        } else if v == 0x7 {
            Some(BlockOption::NMEDomain)
        } else if 0x80 <= v && v <= 0xfe {
            Some(BlockOption::ManufacturerSpecific)
        } else if v == 0xff {
            Some(BlockOption::All)
        } else {
            None
        }
    }

    /// The wire value of the variant; it decodes back to the variant.
    pub fn as_u8(&self) -> (r: u8)
        ensures
            r == self.spec_value(),
            Self::spec_from(r) == Some(*self),
    {
        match self {
            BlockOption::IP => 0x1,
            BlockOption::DeviceProperties => 0x2,
            BlockOption::DHCP => 0x3,
            BlockOption::Control => 0x5,
            BlockOption::DeviceInitiative => 0x6,
            BlockOption::NMEDomain => 0x7,
            BlockOption::ManufacturerSpecific => 0x80,
            BlockOption::All => 0xff,
        }
    }
}

/// Suboptions of the IP option.
#[derive(Debug, Clone, Copy, PartialEq, Eq, Structural)]
pub enum IpSuboption {
    MacAddress,
    IpParameter,
    FullIpSuite,
}

impl IpSuboption {
    /// The variant that stands for wire value `v`, if any.
    pub open spec fn spec_from(v: u8) -> Option<Self> {
        if v == 0x1 {
            Some(IpSuboption::MacAddress)
        } else if v == 0x2 {
            Some(IpSuboption::IpParameter)
        } else if v == 0x3 {
            Some(IpSuboption::FullIpSuite)
        } else {
            None
        }
    }

    /// The wire value of the variant.
    pub open spec fn spec_value(self) -> u8 {
        match self {
            IpSuboption::MacAddress => 0x1,
            IpSuboption::IpParameter => 0x2,
            IpSuboption::FullIpSuite => 0x3,
        }
    }

    /// Decodes a wire value; `None` when no variant has it.
    pub fn from_u8(v: u8) -> (r: Option<Self>)
        ensures
            r == Self::spec_from(v),
    {
        if v == 0x1 {
            Some(IpSuboption::MacAddress)
        } else if v == 0x2 {
            Some(IpSuboption::IpParameter)
        } else if v == 0x3 {
            Some(IpSuboption::FullIpSuite)
        } else {
            None
        }
    }

    /// The wire value of the variant; it decodes back to the variant.
    pub fn as_u8(&self) -> (r: u8)
        ensures
            r == self.spec_value(),
            Self::spec_from(r) == Some(*self),
    {
        match self {
            IpSuboption::MacAddress => 0x1,
            IpSuboption::IpParameter => 0x2,
            IpSuboption::FullIpSuite => 0x3,
        }
    }
}

/// Suboptions of the device properties option.
#[derive(Debug, Clone, Copy, PartialEq, Eq, Structural)]
pub enum DevicePropertiesSuboption {
    DeviceVendor,
    NameOfStation,
    DeviceId,
    DeviceRole,
    DeviceOptions,
    AliasName,
    DeviceInstance,
    OemDeviceId,
    StandardGateway,
    RsiProperties,
}

impl DevicePropertiesSuboption {
    /// The variant that stands for wire value `v`, if any.
    pub open spec fn spec_from(v: u8) -> Option<Self> {
        if v == 0x1 {
            Some(DevicePropertiesSuboption::DeviceVendor)
        } else if v == 0x2 {
            Some(DevicePropertiesSuboption::NameOfStation)
        } else if v == 0x3 {
            Some(DevicePropertiesSuboption::DeviceId)
        } else if v == 0x4 {
            Some(DevicePropertiesSuboption::DeviceRole)
        } else if v == 0x5 {
            Some(DevicePropertiesSuboption::DeviceOptions)
        } else if v == 0x6 {
            Some(DevicePropertiesSuboption::AliasName)
        } else if v == 0x7 {
            Some(DevicePropertiesSuboption::DeviceInstance)
        } else if v == 0x8 {
            Some(DevicePropertiesSuboption::OemDeviceId)
        } else if v == 0x9 {
            Some(DevicePropertiesSuboption::StandardGateway)
        } else if v == 0xa {
            Some(DevicePropertiesSuboption::RsiProperties)
        } else {
            None
        }
    }

    /// The wire value of the variant.
    pub open spec fn spec_value(self) -> u8 {
        match self {
            DevicePropertiesSuboption::DeviceVendor => 0x1,
            DevicePropertiesSuboption::NameOfStation => 0x2,
            DevicePropertiesSuboption::DeviceId => 0x3,
            DevicePropertiesSuboption::DeviceRole => 0x4,
            DevicePropertiesSuboption::DeviceOptions => 0x5,
            DevicePropertiesSuboption::AliasName => 0x6,
            DevicePropertiesSuboption::DeviceInstance => 0x7,
            DevicePropertiesSuboption::OemDeviceId => 0x8,
            DevicePropertiesSuboption::StandardGateway => 0x9,
            DevicePropertiesSuboption::RsiProperties => 0xa,
        }
    }

    /// Decodes a wire value; `None` when no variant has it.
    pub fn from_u8(v: u8) -> (r: Option<Self>)
        ensures
            r == Self::spec_from(v),
    {
        if v == 0x1 {
            Some(DevicePropertiesSuboption::DeviceVendor)
        } else if v == 0x2 {
            Some(DevicePropertiesSuboption::NameOfStation)
        } else if v == 0x3 {
            Some(DevicePropertiesSuboption::DeviceId)
        } else if v == 0x4 {
            Some(DevicePropertiesSuboption::DeviceRole)
        } else if v == 0x5 {
            Some(DevicePropertiesSuboption::DeviceOptions)
        } else if v == 0x6 {
            Some(DevicePropertiesSuboption::AliasName)
        } else if v == 0x7 {
            Some(DevicePropertiesSuboption::DeviceInstance)
        } else if v == 0x8 {
            Some(DevicePropertiesSuboption::OemDeviceId)
        } else if v == 0x9 {
            Some(DevicePropertiesSuboption::StandardGateway)
        } else if v == 0xa {
            Some(DevicePropertiesSuboption::RsiProperties)
        } else {
            None
        }
    }

    /// The wire value of the variant; it decodes back to the variant.
    pub fn as_u8(&self) -> (r: u8)
        ensures
            r == self.spec_value(),
            Self::spec_from(r) == Some(*self),
    {
        match self {
            DevicePropertiesSuboption::DeviceVendor => 0x1,
            DevicePropertiesSuboption::NameOfStation => 0x2,
            DevicePropertiesSuboption::DeviceId => 0x3,
            DevicePropertiesSuboption::DeviceRole => 0x4,
            DevicePropertiesSuboption::DeviceOptions => 0x5,
            DevicePropertiesSuboption::AliasName => 0x6,
            DevicePropertiesSuboption::DeviceInstance => 0x7,
            DevicePropertiesSuboption::OemDeviceId => 0x8,
            DevicePropertiesSuboption::StandardGateway => 0x9,
            DevicePropertiesSuboption::RsiProperties => 0xa,
        }
    }
}

/// Suboptions of the control option.
#[derive(Debug, Clone, Copy, PartialEq, Eq, Structural)]
pub enum ControlSuboption {
    Start,
    Stop,
    Signal,
    Response,
    FactoryReset,
    ResetToFactory,
}

impl ControlSuboption {
    /// The variant that stands for wire value `v`, if any.
    pub open spec fn spec_from(v: u8) -> Option<Self> {
        if v == 0x1 {
            Some(ControlSuboption::Start)
        } else if v == 0x2 {
            Some(ControlSuboption::Stop)
        } else if v == 0x3 {
            Some(ControlSuboption::Signal)
        } else if v == 0x4 {
            Some(ControlSuboption::Response)
        } else if v == 0x5 {
            Some(ControlSuboption::FactoryReset)
        } else if v == 0x6 {
            Some(ControlSuboption::ResetToFactory)
        } else {
            None
        }
    }

    /// The wire value of the variant.
    pub open spec fn spec_value(self) -> u8 {
        match self {
            ControlSuboption::Start => 0x1,
            ControlSuboption::Stop => 0x2,
            ControlSuboption::Signal => 0x3,
            ControlSuboption::Response => 0x4,
            ControlSuboption::FactoryReset => 0x5,
            ControlSuboption::ResetToFactory => 0x6,
        }
    }

    /// Decodes a wire value; `None` when no variant has it.
    pub fn from_u8(v: u8) -> (r: Option<Self>)
        ensures
            r == Self::spec_from(v),
    {
        if v == 0x1 {
            Some(ControlSuboption::Start)
        } else if v == 0x2 {
            Some(ControlSuboption::Stop)
        } else if v == 0x3 {
            Some(ControlSuboption::Signal)
        } else if v == 0x4 {
            Some(ControlSuboption::Response)
        } else if v == 0x5 {
            Some(ControlSuboption::FactoryReset)
        } else if v == 0x6 {
            Some(ControlSuboption::ResetToFactory)
        } else {
            None
        }
    }

    /// The wire value of the variant; it decodes back to the variant.
    pub fn as_u8(&self) -> (r: u8)
        ensures
            r == self.spec_value(),
            Self::spec_from(r) == Some(*self),
    {
        match self {
            ControlSuboption::Start => 0x1,
            ControlSuboption::Stop => 0x2,
            ControlSuboption::Signal => 0x3,
            ControlSuboption::Response => 0x4,
            ControlSuboption::FactoryReset => 0x5,
            ControlSuboption::ResetToFactory => 0x6,
        }
    }
}

/// Suboptions of the device initiative option.
#[derive(Debug, Clone, Copy, PartialEq, Eq, Structural)]
pub enum DeviceInitiativeSuboption {
    DeviceInitiative,
}

impl DeviceInitiativeSuboption {
    /// The variant that stands for wire value `v`, if any.
    pub open spec fn spec_from(v: u8) -> Option<Self> {
        if v == 0x1 {
            Some(DeviceInitiativeSuboption::DeviceInitiative)
        } else {
            None
        }
    }

    /// The wire value of the variant.
    pub open spec fn spec_value(self) -> u8 {
        match self {
            DeviceInitiativeSuboption::DeviceInitiative => 0x1,
        }
    }

    /// Decodes a wire value; `None` when no variant has it.
    pub fn from_u8(v: u8) -> (r: Option<Self>)
        ensures
            r == Self::spec_from(v),
    {
        if v == 0x1 {
            Some(DeviceInitiativeSuboption::DeviceInitiative)
        } else {
            None
        }
    }

    /// The wire value of the variant; it decodes back to the variant.
    pub fn as_u8(&self) -> (r: u8)
        ensures
            r == self.spec_value(),
            Self::spec_from(r) == Some(*self),
    {
        match self {
            DeviceInitiativeSuboption::DeviceInitiative => 0x1,
        }
    }
}

/// Suboptions of the NME domain option.
#[derive(Debug, Clone, Copy, PartialEq, Eq, Structural)]
pub enum NMEDomainSuboption {
    NMEDomain,
    NMEPrio,
    NMEParameterUUID,
    NMEName,
    CIMInterface,
}

impl NMEDomainSuboption {
    /// The variant that stands for wire value `v`, if any.
    pub open spec fn spec_from(v: u8) -> Option<Self> {
        if v == 0x1 {
            Some(NMEDomainSuboption::NMEDomain)
        } else if v == 0x2 {
            Some(NMEDomainSuboption::NMEPrio)
        } else if v == 0x3 {
            Some(NMEDomainSuboption::NMEParameterUUID)
        } else if v == 0x4 {
            Some(NMEDomainSuboption::NMEName)
        } else if v == 0x5 {
            Some(NMEDomainSuboption::CIMInterface)
        } else {
            None
        }
    }

    /// The wire value of the variant.
    pub open spec fn spec_value(self) -> u8 {
        match self {
            NMEDomainSuboption::NMEDomain => 0x1,
            NMEDomainSuboption::NMEPrio => 0x2,
            NMEDomainSuboption::NMEParameterUUID => 0x3,
            NMEDomainSuboption::NMEName => 0x4,
            NMEDomainSuboption::CIMInterface => 0x5,
        }
    }

    /// Decodes a wire value; `None` when no variant has it.
    pub fn from_u8(v: u8) -> (r: Option<Self>)
        ensures
            r == Self::spec_from(v),
    {
        if v == 0x1 {
            Some(NMEDomainSuboption::NMEDomain)
        } else if v == 0x2 {
            Some(NMEDomainSuboption::NMEPrio)
        } else if v == 0x3 {
            Some(NMEDomainSuboption::NMEParameterUUID)
        } else if v == 0x4 {
            Some(NMEDomainSuboption::NMEName)
        } else if v == 0x5 {
            Some(NMEDomainSuboption::CIMInterface)
        } else {
            None
        }
    }

    /// The wire value of the variant; it decodes back to the variant.
    pub fn as_u8(&self) -> (r: u8)
        ensures
            r == self.spec_value(),
            Self::spec_from(r) == Some(*self),
    {
        match self {
            NMEDomainSuboption::NMEDomain => 0x1,
            NMEDomainSuboption::NMEPrio => 0x2,
            NMEDomainSuboption::NMEParameterUUID => 0x3,
            NMEDomainSuboption::NMEName => 0x4,
            NMEDomainSuboption::CIMInterface => 0x5,
        }
    }
}

/// The one suboption of the all-selector option.
#[derive(Debug, Clone, Copy, PartialEq, Eq, Structural)]
pub enum AllSuboption {
    All,
}

impl AllSuboption {
    /// The variant that stands for wire value `v`, if any.
    pub open spec fn spec_from(v: u8) -> Option<Self> {
        if v == 0xff {
            Some(AllSuboption::All)
        } else {
            None
        }
    }

    /// The wire value of the variant.
    pub open spec fn spec_value(self) -> u8 {
        match self {
            AllSuboption::All => 0xff,
        }
    }

    /// Decodes a wire value; `None` when no variant has it.
    pub fn from_u8(v: u8) -> (r: Option<Self>)
        ensures
            r == Self::spec_from(v),
    {
        if v == 0xff {
            Some(AllSuboption::All)
        } else {
            None
        }
    }

    /// The wire value of the variant; it decodes back to the variant.
    pub fn as_u8(&self) -> (r: u8)
        ensures
            r == self.spec_value(),
            Self::spec_from(r) == Some(*self),
    {
        match self {
            AllSuboption::All => 0xff,
        }
    }
}

/// Suboptions of the manufacturer-specific options: any value below 0xff.
#[derive(Debug, Clone, Copy, PartialEq, Eq, Structural)]
pub enum ManufacturerSpecificSuboption {
    ManufacturerSpecific,
}

impl ManufacturerSpecificSuboption {
    /// The variant that stands for wire value `v`, if any.
    pub open spec fn spec_from(v: u8) -> Option<Self> {
        if v < 0xff {
            Some(ManufacturerSpecificSuboption::ManufacturerSpecific)
        } else {
            None
        }
    }

    /// The wire value of the variant.
    pub open spec fn spec_value(self) -> u8 {
        0
    }

    /// Decodes a wire value; `None` for 0xff.
    pub fn from_u8(v: u8) -> (r: Option<Self>)
        ensures
            r == Self::spec_from(v),
    {
        if v < 0xff {
            Some(ManufacturerSpecificSuboption::ManufacturerSpecific)
        } else {
            None
        }
    }

    /// The wire value of the variant; it decodes back to the variant.
    pub fn as_u8(&self) -> (r: u8)
        ensures
            r == self.spec_value(),
            Self::spec_from(r) == Some(*self),
    {
        0
    }
}

/// Suboptions of the DHCP option.
#[derive(Debug, Clone, Copy, PartialEq, Eq, Structural)]
pub enum DHCPSuboption {
    HostName,
    VendorSpecific,
    ServerIdentifier,
    ParameterRequestList,
    ClassIdentifier,
    DHCPClientIdentifier,
    FQDN,
    UUIDBasedClient,
}

impl DHCPSuboption {
    /// The variant that stands for wire value `v`, if any.
    pub open spec fn spec_from(v: u8) -> Option<Self> {
        if v == 0xc {
            Some(DHCPSuboption::HostName)
        } else if v == 0x2b {
            Some(DHCPSuboption::VendorSpecific)
        } else if v == 0x36 {
            Some(DHCPSuboption::ServerIdentifier)
        } else if v == 0x37 {
            Some(DHCPSuboption::ParameterRequestList)
        } else if v == 0x3c {
            Some(DHCPSuboption::ClassIdentifier)
        } else if v == 0x3d {
            Some(DHCPSuboption::DHCPClientIdentifier)
        } else if v == 0x51 {
            Some(DHCPSuboption::FQDN)
        } else if v == 0x61 {
            Some(DHCPSuboption::UUIDBasedClient)
        } else {
            None
        }
    }

    /// The wire value of the variant.
    pub open spec fn spec_value(self) -> u8 {
        match self {
            DHCPSuboption::HostName => 0xc,
            DHCPSuboption::VendorSpecific => 0x2b,
            DHCPSuboption::ServerIdentifier => 0x36,
            DHCPSuboption::ParameterRequestList => 0x37,
            DHCPSuboption::ClassIdentifier => 0x3c,
            DHCPSuboption::DHCPClientIdentifier => 0x3d,
            DHCPSuboption::FQDN => 0x51,
            DHCPSuboption::UUIDBasedClient => 0x61,
        }
    }

    /// Decodes a wire value; `None` when no variant has it.
    pub fn from_u8(v: u8) -> (r: Option<Self>)
        ensures
            r == Self::spec_from(v),
    {
        if v == 0xc {
            Some(DHCPSuboption::HostName)
        } else if v == 0x2b {
            Some(DHCPSuboption::VendorSpecific)
        } else if v == 0x36 {
            Some(DHCPSuboption::ServerIdentifier)
        } else if v == 0x37 {
            Some(DHCPSuboption::ParameterRequestList)
        } else if v == 0x3c {
            Some(DHCPSuboption::ClassIdentifier)
        } else if v == 0x3d {
            Some(DHCPSuboption::DHCPClientIdentifier)
        } else if v == 0x51 {
            Some(DHCPSuboption::FQDN)
        } else if v == 0x61 {
            Some(DHCPSuboption::UUIDBasedClient)
        } else {
            None
        }
    }

    /// The wire value of the variant; it decodes back to the variant.
    pub fn as_u8(&self) -> (r: u8)
        ensures
            r == self.spec_value(),
            Self::spec_from(r) == Some(*self),
    {
        match self {
            DHCPSuboption::HostName => 0xc,
            DHCPSuboption::VendorSpecific => 0x2b,
            DHCPSuboption::ServerIdentifier => 0x36,
            DHCPSuboption::ParameterRequestList => 0x37,
            DHCPSuboption::ClassIdentifier => 0x3c,
            DHCPSuboption::DHCPClientIdentifier => 0x3d,
            DHCPSuboption::FQDN => 0x51,
            DHCPSuboption::UUIDBasedClient => 0x61,
        }
    }
}

/// The role a device announces.
#[derive(Debug, Clone, Copy, PartialEq, Eq, Structural)]
pub enum DeviceRole {
    IODevice,
    IOController,
    IOMultidevice,
    IOSupervisor,
}

impl DeviceRole {
    /// The variant that stands for wire value `v`, if any.
    pub open spec fn spec_from(v: u8) -> Option<Self> {
        if v == 0x0 {
            Some(DeviceRole::IODevice)
        } else if v == 0x1 {
            Some(DeviceRole::IOController)
        } else if v == 0x2 {
            Some(DeviceRole::IOMultidevice)
        } else if v == 0x3 {
            Some(DeviceRole::IOSupervisor)
        } else {
            None
        }
    }

    /// The wire value of the variant.
    pub open spec fn spec_value(self) -> u8 {
        match self {
            DeviceRole::IODevice => 0x0,
            DeviceRole::IOController => 0x1,
            DeviceRole::IOMultidevice => 0x2,
            DeviceRole::IOSupervisor => 0x3,
        }
    }

    /// Decodes a wire value; `None` when no variant has it.
    pub fn from_u8(v: u8) -> (r: Option<Self>)
        ensures
            r == Self::spec_from(v),
    {
        if v == 0x0 {
            Some(DeviceRole::IODevice)
        } else if v == 0x1 {
            Some(DeviceRole::IOController)
        } else if v == 0x2 {
            Some(DeviceRole::IOMultidevice)
        } else if v == 0x3 {
            Some(DeviceRole::IOSupervisor)
        } else {
            None
        }
    }

    /// The wire value of the variant; it decodes back to the variant.
    pub fn as_u8(&self) -> (r: u8)
        ensures
            r == self.spec_value(),
            Self::spec_from(r) == Some(*self),
    {
        match self {
            DeviceRole::IODevice => 0x0,
            DeviceRole::IOController => 0x1,
            DeviceRole::IOMultidevice => 0x2,
            DeviceRole::IOSupervisor => 0x3,
        }
    }
}

/// DHCP suboptions, with the end marker.
#[derive(Debug, Clone, Copy, PartialEq, Eq, Structural)]
pub enum DhcpSuboptions {
    Hostname,
    VendorSpecific,
    ServerId,
    ParReqList,
    ClassId,
    CliendId,
    Fqdn,
    UuidClientId,
    Control,
}

impl DhcpSuboptions {
    /// The variant that stands for wire value `v`, if any.
    pub open spec fn spec_from(v: u8) -> Option<Self> {
        if v == 0xc {
            Some(DhcpSuboptions::Hostname)
        } else if v == 0x2b {
            Some(DhcpSuboptions::VendorSpecific)
        } else if v == 0x36 {
            Some(DhcpSuboptions::ServerId)
        } else if v == 0x37 {
            Some(DhcpSuboptions::ParReqList)
        } else if v == 0x3c {
            Some(DhcpSuboptions::ClassId)
        } else if v == 0x3d {
            Some(DhcpSuboptions::CliendId)
        } else if v == 0x51 {
            Some(DhcpSuboptions::Fqdn)
        } else if v == 0x61 {
            Some(DhcpSuboptions::UuidClientId)
        } else if v == 0xff {
            Some(DhcpSuboptions::Control)
        } else {
            None
        }
    }

    /// The wire value of the variant.
    pub open spec fn spec_value(self) -> u8 {
        match self {
            DhcpSuboptions::Hostname => 0xc,
            DhcpSuboptions::VendorSpecific => 0x2b,
            DhcpSuboptions::ServerId => 0x36,
            DhcpSuboptions::ParReqList => 0x37,
            DhcpSuboptions::ClassId => 0x3c,
            DhcpSuboptions::CliendId => 0x3d,
            DhcpSuboptions::Fqdn => 0x51,
            DhcpSuboptions::UuidClientId => 0x61,
            DhcpSuboptions::Control => 0xff,
        }
    }

    /// Decodes a wire value; `None` when no variant has it.
    pub fn from_u8(v: u8) -> (r: Option<Self>)
        ensures
            r == Self::spec_from(v),
    {
        if v == 0xc {
            Some(DhcpSuboptions::Hostname)
        } else if v == 0x2b {
            Some(DhcpSuboptions::VendorSpecific)
        } else if v == 0x36 {
            Some(DhcpSuboptions::ServerId)
        } else if v == 0x37 {
            Some(DhcpSuboptions::ParReqList)
        } else if v == 0x3c {
            Some(DhcpSuboptions::ClassId)
        } else if v == 0x3d {
            Some(DhcpSuboptions::CliendId)
        } else if v == 0x51 {
            Some(DhcpSuboptions::Fqdn)
        } else if v == 0x61 {
            Some(DhcpSuboptions::UuidClientId)
        } else if v == 0xff {
            Some(DhcpSuboptions::Control)
        } else {
            None
        }
    }

    /// The wire value of the variant; it decodes back to the variant.
    pub fn as_u8(&self) -> (r: u8)
        ensures
            r == self.spec_value(),
            Self::spec_from(r) == Some(*self),
    {
        match self {
            DhcpSuboptions::Hostname => 0xc,
            DhcpSuboptions::VendorSpecific => 0x2b,
            DhcpSuboptions::ServerId => 0x36,
            DhcpSuboptions::ParReqList => 0x37,
            DhcpSuboptions::ClassId => 0x3c,
            DhcpSuboptions::CliendId => 0x3d,
            DhcpSuboptions::Fqdn => 0x51,
            DhcpSuboptions::UuidClientId => 0x61,
            DhcpSuboptions::Control => 0xff,
        }
    }
}

/// Control suboptions, short names.
#[derive(Debug, Clone, Copy, PartialEq, Eq, Structural)]
pub enum ControlSuboptions {
    Start,
    Stop,
    Signal,
    Response,
    FactoryReset,
    ResetToFactory,
}

impl ControlSuboptions {
    /// The variant that stands for wire value `v`, if any.
    pub open spec fn spec_from(v: u8) -> Option<Self> {
        if v == 0x1 {
            Some(ControlSuboptions::Start)
        } else if v == 0x2 {
            Some(ControlSuboptions::Stop)
        } else if v == 0x3 {
            Some(ControlSuboptions::Signal)
        } else if v == 0x4 {
            Some(ControlSuboptions::Response)
        } else if v == 0x5 {
            Some(ControlSuboptions::FactoryReset)
        } else if v == 0x6 {
            Some(ControlSuboptions::ResetToFactory)
        } else {
            None
        }
    }

    /// The wire value of the variant.
    pub open spec fn spec_value(self) -> u8 {
        match self {
            ControlSuboptions::Start => 0x1,
            ControlSuboptions::Stop => 0x2,
            ControlSuboptions::Signal => 0x3,
            ControlSuboptions::Response => 0x4,
            ControlSuboptions::FactoryReset => 0x5,
            ControlSuboptions::ResetToFactory => 0x6,
        }
    }

    /// Decodes a wire value; `None` when no variant has it.
    pub fn from_u8(v: u8) -> (r: Option<Self>)
        ensures
            r == Self::spec_from(v),
    {
        if v == 0x1 {
            Some(ControlSuboptions::Start)
        } else if v == 0x2 {
            Some(ControlSuboptions::Stop)
        } else if v == 0x3 {
            Some(ControlSuboptions::Signal)
        } else if v == 0x4 {
            Some(ControlSuboptions::Response)
        } else if v == 0x5 {
            Some(ControlSuboptions::FactoryReset)
        } else if v == 0x6 {
            Some(ControlSuboptions::ResetToFactory)
        } else {
            None
        }
    }

    /// The wire value of the variant; it decodes back to the variant.
    pub fn as_u8(&self) -> (r: u8)
        ensures
            r == self.spec_value(),
            Self::spec_from(r) == Some(*self),
    {
        match self {
            ControlSuboptions::Start => 0x1,
            ControlSuboptions::Stop => 0x2,
            ControlSuboptions::Signal => 0x3,
            ControlSuboptions::Response => 0x4,
            ControlSuboptions::FactoryReset => 0x5,
            ControlSuboptions::ResetToFactory => 0x6,
        }
    }
}

/// Device initiative suboptions, short names.
#[derive(Debug, Clone, Copy, PartialEq, Eq, Structural)]
pub enum DeviceInitiativeSuboptions {
    InitiativeSupport,
}

impl DeviceInitiativeSuboptions {
    /// The variant that stands for wire value `v`, if any.
    pub open spec fn spec_from(v: u8) -> Option<Self> {
        if v == 0x1 {
            Some(DeviceInitiativeSuboptions::InitiativeSupport)
        } else {
            None
        }
    }

    /// The wire value of the variant.
    pub open spec fn spec_value(self) -> u8 {
        match self {
            DeviceInitiativeSuboptions::InitiativeSupport => 0x1,
        }
    }

    /// Decodes a wire value; `None` when no variant has it.
    pub fn from_u8(v: u8) -> (r: Option<Self>)
        ensures
            r == Self::spec_from(v),
    {
        if v == 0x1 {
            Some(DeviceInitiativeSuboptions::InitiativeSupport)
        } else {
            None
        }
    }

    /// The wire value of the variant; it decodes back to the variant.
    pub fn as_u8(&self) -> (r: u8)
        ensures
            r == self.spec_value(),
            Self::spec_from(r) == Some(*self),
    {
        match self {
            DeviceInitiativeSuboptions::InitiativeSupport => 0x1,
        }
    }
}

/// The all-selector suboption, short name.
#[derive(Debug, Clone, Copy, PartialEq, Eq, Structural)]
pub enum AllSuboptions {
    All,
}

impl AllSuboptions {
    /// The variant that stands for wire value `v`, if any.
    pub open spec fn spec_from(v: u8) -> Option<Self> {
        if v == 0xff {
            Some(AllSuboptions::All)
        } else {
            None
        }
    }

    /// The wire value of the variant.
    pub open spec fn spec_value(self) -> u8 {
        match self {
            AllSuboptions::All => 0xff,
        }
    }

    /// Decodes a wire value; `None` when no variant has it.
    pub fn from_u8(v: u8) -> (r: Option<Self>)
        ensures
            r == Self::spec_from(v),
    {
        if v == 0xff {
            Some(AllSuboptions::All)
        } else {
            None
        }
    }

    /// The wire value of the variant; it decodes back to the variant.
    pub fn as_u8(&self) -> (r: u8)
        ensures
            r == self.spec_value(),
            Self::spec_from(r) == Some(*self),
    {
        match self {
            AllSuboptions::All => 0xff,
        }
    }
}

/// Error codes a device reports for a block of a Set request.
#[derive(Debug, Clone, Copy, PartialEq, Eq, Structural)]
pub enum BlockErrorValues {
    NoError,
    OptionNotSupported,
    OptionNotSet,
    ResourceError,
    SetNotPossible,
}

impl BlockErrorValues {
    /// The variant that stands for wire value `v`, if any.
    pub open spec fn spec_from(v: u8) -> Option<Self> {
        if v == 0x0 {
            Some(BlockErrorValues::NoError)
        } else if v == 0x1 {
            Some(BlockErrorValues::OptionNotSupported)
        } else if v == 0x2 {
            Some(BlockErrorValues::OptionNotSet)
        } else if v == 0x3 {
            Some(BlockErrorValues::ResourceError)
        } else if v == 0x4 {
            Some(BlockErrorValues::SetNotPossible)
        } else {
            None
        }
    }

    /// The wire value of the variant.
    pub open spec fn spec_value(self) -> u8 {
        match self {
            BlockErrorValues::NoError => 0x0,
            BlockErrorValues::OptionNotSupported => 0x1,
            BlockErrorValues::OptionNotSet => 0x2,
            BlockErrorValues::ResourceError => 0x3,
            BlockErrorValues::SetNotPossible => 0x4,
        }
    }

    /// Decodes a wire value; `None` when no variant has it.
    pub fn from_u8(v: u8) -> (r: Option<Self>)
        ensures
            r == Self::spec_from(v),
    {
        if v == 0x0 {
            Some(BlockErrorValues::NoError)
        } else if v == 0x1 {
            Some(BlockErrorValues::OptionNotSupported)
        } else if v == 0x2 {
            Some(BlockErrorValues::OptionNotSet)
        } else if v == 0x3 {
            Some(BlockErrorValues::ResourceError)
        } else if v == 0x4 {
            Some(BlockErrorValues::SetNotPossible)
        } else {
            None
        }
    }

    /// The wire value of the variant; it decodes back to the variant.
    pub fn as_u8(&self) -> (r: u8)
        ensures
            r == self.spec_value(),
            Self::spec_from(r) == Some(*self),
    {
        match self {
            BlockErrorValues::NoError => 0x0,
            BlockErrorValues::OptionNotSupported => 0x1,
            BlockErrorValues::OptionNotSet => 0x2,
            BlockErrorValues::ResourceError => 0x3,
            BlockErrorValues::SetNotPossible => 0x4,
        }
    }
}

} // verus!
