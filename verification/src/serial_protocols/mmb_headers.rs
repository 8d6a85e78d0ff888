//! The two-level header vocabulary of the MMB protocol: each code table as a
//! closed enumeration, and the checked lookups from wire bytes.

use vstd::prelude::*;
use crate::serial_protocols::mmb_errors::FrameError;
use crate::serial_protocols::mmb_errors::MmbZigbeeModemError;

verus! {

/// The functional domain that a frame addresses.
#[derive(Clone, Copy, Debug, PartialEq, Eq, Hash, Structural)]
pub enum PrimaryHeader {
    Utility,
    NetworkCommissioning,
    SecurityConfig,
    ZigbeeSupportConfig,
    Zdo,
    Zcl,
    GeneralClusters,
    HaClusters,
    Bootload,
    OtaBootload,
    Diagnostics,
}

impl PrimaryHeader {
    /// The wire code of a domain.
    pub open spec fn spec_code(self) -> u8 {
        match self {
            PrimaryHeader::Utility => 0x55,
            PrimaryHeader::NetworkCommissioning => 0x01,
            PrimaryHeader::SecurityConfig => 0x02,
            PrimaryHeader::ZigbeeSupportConfig => 0x03,
            PrimaryHeader::Zdo => 0x04,
            PrimaryHeader::Zcl => 0x05,
            PrimaryHeader::GeneralClusters => 0x11,
            PrimaryHeader::HaClusters => 0x12,
            PrimaryHeader::Bootload => 0x0B,
            PrimaryHeader::OtaBootload => 0xB0,
            PrimaryHeader::Diagnostics => 0xD1,
        }
    }

    /// Whether a byte is in the code table: it is the wire code of some
    /// domain.
    pub open spec fn in_table(num: u8) -> bool {
        exists|h: PrimaryHeader| #[trigger] h.spec_code() == num
    }

    /// The domain that a byte encodes, if the code table holds the byte.
    pub open spec fn lookup(num: u8) -> Option<PrimaryHeader> {
        if Self::in_table(num) {
            Some(choose|h: PrimaryHeader| #[trigger] h.spec_code() == num)
        } else {
            None
        }
    }

    /// The wire code of a domain.
    #[verifier::when_used_as_spec(spec_code)]
    pub fn code(self) -> (c: u8)
        ensures
            c == self.spec_code(),
    {
        match self {
            PrimaryHeader::Utility => 0x55,
            PrimaryHeader::NetworkCommissioning => 0x01,
            PrimaryHeader::SecurityConfig => 0x02,
            PrimaryHeader::ZigbeeSupportConfig => 0x03,
            PrimaryHeader::Zdo => 0x04,
            PrimaryHeader::Zcl => 0x05,
            PrimaryHeader::GeneralClusters => 0x11,
            PrimaryHeader::HaClusters => 0x12,
            PrimaryHeader::Bootload => 0x0B,
            PrimaryHeader::OtaBootload => 0xB0,
            PrimaryHeader::Diagnostics => 0xD1,
        }
    }

    /// Looks a byte up in the code table. A byte of the table gives the
    /// domain it encodes; any other byte is refused as `UnknownPrimary`.
    pub fn from(num: u8) -> (r: Result<PrimaryHeader, MmbZigbeeModemError>)
        ensures
            match r {
                Ok(h) => Self::lookup(num) == Some(h),
                Err(e) => Self::lookup(num) is None && e.is_kind(FrameError::UnknownPrimary),
            },
    {
        let found = match num {
            0x55 => Some(PrimaryHeader::Utility),
            0x01 => Some(PrimaryHeader::NetworkCommissioning),
            0x02 => Some(PrimaryHeader::SecurityConfig),
            0x03 => Some(PrimaryHeader::ZigbeeSupportConfig),
            0x04 => Some(PrimaryHeader::Zdo),
            0x05 => Some(PrimaryHeader::Zcl),
            0x11 => Some(PrimaryHeader::GeneralClusters),
            0x12 => Some(PrimaryHeader::HaClusters),
            0x0B => Some(PrimaryHeader::Bootload),
            0xB0 => Some(PrimaryHeader::OtaBootload),
            0xD1 => Some(PrimaryHeader::Diagnostics),
            _ => None,
        };
        proof {
            match found {
                Some(h) => {
                    assert(h.spec_code() == num);
                },
                None => {
                    assert(forall|h: PrimaryHeader| #[trigger] h.spec_code() != num);
                },
            }
        }
        match found {
            Some(h) => Ok(h),
            None => Err(MmbZigbeeModemError::new(FrameError::UnknownPrimary)),
        }
    }
}

/// The lifecycle and configuration operations under the utility header.
#[derive(Clone, Copy, Debug, PartialEq, Eq, Hash, Structural)]
pub enum HeaderUtilities {
    Reset,
    ModuleInfoRequest,
    ModuleInfoResponse,
    BootloaderVersionRequest,
    BootloaderVersionResponse,
    ApplicationVersionCountRequest,
    ApplicationVersionCountResponse,
    ApplicationVersionRequest,
    ApplicationVersionResponse,
    RestoreDefaults,
    HostStartupReady,
    StartupSyncRequest,
    StartupSyncComplete,
    AntennaConfigurationRequest,
    AntennaConfigurationResponse,
    AntennaConfigurationWrite,
    LedConfigurationRequest,
    LedConfigurationResponse,
    LedConfigurationWrite,
    SerialAckConfigWrite,
    SerialAckConfigRequest,
    SerialAckConfigResponse,
    ManufacturerIdRequest,
    ManufacturerIdResponse,
    ManufacturerIdWrite,
    SleepyParametersRequestCmd,
    SleepyParametersResponseCmd,
    SleepyParametersWriteCmd,
    SleepyHibernateDurationRequestCmd,
    SleepyHibernateDurationResponseCmd,
    SleepyHibernateDurationWriteCmd,
    StatusResponse,
    Error,
}

impl HeaderUtilities {
    /// The wire code of a utility operation.
    pub open spec fn spec_code(self) -> u8 {
        match self {
            HeaderUtilities::Reset => 0x00,
            HeaderUtilities::ModuleInfoRequest => 0x02,
            HeaderUtilities::ModuleInfoResponse => 0x03,
            HeaderUtilities::BootloaderVersionRequest => 0x04,
            HeaderUtilities::BootloaderVersionResponse => 0x05,
            HeaderUtilities::ApplicationVersionCountRequest => 0x06,
            HeaderUtilities::ApplicationVersionCountResponse => 0x07,
            HeaderUtilities::ApplicationVersionRequest => 0x08,
            HeaderUtilities::ApplicationVersionResponse => 0x09,
            HeaderUtilities::RestoreDefaults => 0x10,
            HeaderUtilities::HostStartupReady => 0x20,
            HeaderUtilities::StartupSyncRequest => 0x21,
            HeaderUtilities::StartupSyncComplete => 0x22,
            HeaderUtilities::AntennaConfigurationRequest => 0x23,
            HeaderUtilities::AntennaConfigurationResponse => 0x24,
            HeaderUtilities::AntennaConfigurationWrite => 0x25,
            HeaderUtilities::LedConfigurationRequest => 0x26,
            HeaderUtilities::LedConfigurationResponse => 0x27,
            HeaderUtilities::LedConfigurationWrite => 0x28,
            HeaderUtilities::SerialAckConfigWrite => 0x30,
            HeaderUtilities::SerialAckConfigRequest => 0x31,
            HeaderUtilities::SerialAckConfigResponse => 0x32,
            HeaderUtilities::ManufacturerIdRequest => 0x40,
            HeaderUtilities::ManufacturerIdResponse => 0x41,
            HeaderUtilities::ManufacturerIdWrite => 0x42,
            HeaderUtilities::SleepyParametersRequestCmd => 0x50,
            HeaderUtilities::SleepyParametersResponseCmd => 0x51,
            HeaderUtilities::SleepyParametersWriteCmd => 0x52,
            HeaderUtilities::SleepyHibernateDurationRequestCmd => 0x53,
            HeaderUtilities::SleepyHibernateDurationResponseCmd => 0x54,
            HeaderUtilities::SleepyHibernateDurationWriteCmd => 0x55,
            HeaderUtilities::StatusResponse => 0x80,
            HeaderUtilities::Error => 0xE0,
        }
    }

    /// Whether a byte is in the code table: it is the wire code of some
    /// utility operation.
    pub open spec fn in_table(num: u8) -> bool {
        exists|h: HeaderUtilities| #[trigger] h.spec_code() == num
    }

    /// The utility operation that a byte encodes, if the code table holds the byte.
    pub open spec fn lookup(num: u8) -> Option<HeaderUtilities> {
        if Self::in_table(num) {
            Some(choose|h: HeaderUtilities| #[trigger] h.spec_code() == num)
        } else {
            None
        }
    }

    /// The wire code of a utility operation.
    #[verifier::when_used_as_spec(spec_code)]
    pub fn code(self) -> (c: u8)
        ensures
            c == self.spec_code(),
    {
        match self {
            HeaderUtilities::Reset => 0x00,
            HeaderUtilities::ModuleInfoRequest => 0x02,
            HeaderUtilities::ModuleInfoResponse => 0x03,
            HeaderUtilities::BootloaderVersionRequest => 0x04,
            HeaderUtilities::BootloaderVersionResponse => 0x05,
            HeaderUtilities::ApplicationVersionCountRequest => 0x06,
            HeaderUtilities::ApplicationVersionCountResponse => 0x07,
            HeaderUtilities::ApplicationVersionRequest => 0x08,
            HeaderUtilities::ApplicationVersionResponse => 0x09,
            HeaderUtilities::RestoreDefaults => 0x10,
            HeaderUtilities::HostStartupReady => 0x20,
            HeaderUtilities::StartupSyncRequest => 0x21,
            HeaderUtilities::StartupSyncComplete => 0x22,
            HeaderUtilities::AntennaConfigurationRequest => 0x23,
            HeaderUtilities::AntennaConfigurationResponse => 0x24,
            HeaderUtilities::AntennaConfigurationWrite => 0x25,
            HeaderUtilities::LedConfigurationRequest => 0x26,
            HeaderUtilities::LedConfigurationResponse => 0x27,
            HeaderUtilities::LedConfigurationWrite => 0x28,
            HeaderUtilities::SerialAckConfigWrite => 0x30,
            HeaderUtilities::SerialAckConfigRequest => 0x31,
            HeaderUtilities::SerialAckConfigResponse => 0x32,
            HeaderUtilities::ManufacturerIdRequest => 0x40,
            HeaderUtilities::ManufacturerIdResponse => 0x41,
            HeaderUtilities::ManufacturerIdWrite => 0x42,
            HeaderUtilities::SleepyParametersRequestCmd => 0x50,
            HeaderUtilities::SleepyParametersResponseCmd => 0x51,
            HeaderUtilities::SleepyParametersWriteCmd => 0x52,
            HeaderUtilities::SleepyHibernateDurationRequestCmd => 0x53,
            HeaderUtilities::SleepyHibernateDurationResponseCmd => 0x54,
            HeaderUtilities::SleepyHibernateDurationWriteCmd => 0x55,
            HeaderUtilities::StatusResponse => 0x80,
            HeaderUtilities::Error => 0xE0,
        }
    }

    /// Looks a byte up in the code table: the utility operation it encodes, or
    /// `None` for a byte that the table does not hold.
    pub fn from(num: u8) -> (r: Option<HeaderUtilities>)
        ensures
            r == Self::lookup(num),
    {
        let found = match num {
            0x00 => Some(HeaderUtilities::Reset),
            0x02 => Some(HeaderUtilities::ModuleInfoRequest),
            0x03 => Some(HeaderUtilities::ModuleInfoResponse),
            0x04 => Some(HeaderUtilities::BootloaderVersionRequest),
            0x05 => Some(HeaderUtilities::BootloaderVersionResponse),
            0x06 => Some(HeaderUtilities::ApplicationVersionCountRequest),
            0x07 => Some(HeaderUtilities::ApplicationVersionCountResponse),
            0x08 => Some(HeaderUtilities::ApplicationVersionRequest),
            0x09 => Some(HeaderUtilities::ApplicationVersionResponse),
            0x10 => Some(HeaderUtilities::RestoreDefaults),
            0x20 => Some(HeaderUtilities::HostStartupReady),
            0x21 => Some(HeaderUtilities::StartupSyncRequest),
            0x22 => Some(HeaderUtilities::StartupSyncComplete),
            0x23 => Some(HeaderUtilities::AntennaConfigurationRequest),
            0x24 => Some(HeaderUtilities::AntennaConfigurationResponse),
            0x25 => Some(HeaderUtilities::AntennaConfigurationWrite),
            0x26 => Some(HeaderUtilities::LedConfigurationRequest),
            0x27 => Some(HeaderUtilities::LedConfigurationResponse),
            0x28 => Some(HeaderUtilities::LedConfigurationWrite),
            0x30 => Some(HeaderUtilities::SerialAckConfigWrite),
            0x31 => Some(HeaderUtilities::SerialAckConfigRequest),
            0x32 => Some(HeaderUtilities::SerialAckConfigResponse),
            0x40 => Some(HeaderUtilities::ManufacturerIdRequest),
            0x41 => Some(HeaderUtilities::ManufacturerIdResponse),
            0x42 => Some(HeaderUtilities::ManufacturerIdWrite),
            0x50 => Some(HeaderUtilities::SleepyParametersRequestCmd),
            0x51 => Some(HeaderUtilities::SleepyParametersResponseCmd),
            0x52 => Some(HeaderUtilities::SleepyParametersWriteCmd),
            0x53 => Some(HeaderUtilities::SleepyHibernateDurationRequestCmd),
            0x54 => Some(HeaderUtilities::SleepyHibernateDurationResponseCmd),
            0x55 => Some(HeaderUtilities::SleepyHibernateDurationWriteCmd),
            0x80 => Some(HeaderUtilities::StatusResponse),
            0xE0 => Some(HeaderUtilities::Error),
            _ => None,
        };
        proof {
            match found {
                Some(h) => {
                    assert(h.spec_code() == num);
                },
                None => {
                    assert(forall|h: HeaderUtilities| #[trigger] h.spec_code() != num);
                },
            }
        }
        found
    }
}

/// The network operations under the network-commissioning header.
#[derive(Clone, Copy, Debug, PartialEq, Eq, Hash, Structural)]
pub enum HeaderNetworkCommissioning {
    JoinNetwork,
    FormNetwork,
    PermitJoin,
    LeaveNetwork,
    RejoinNetwork,
    NetworkStatusRequest,
    NetworkStatusResponse,
    TrustCenterDeviceUpdate,
    NetworkAutoJoin,
    NetworkResetAutoJoin,
}

impl HeaderNetworkCommissioning {
    /// The wire code of a network operation.
    pub open spec fn spec_code(self) -> u8 {
        match self {
            HeaderNetworkCommissioning::JoinNetwork => 0x00,
            HeaderNetworkCommissioning::FormNetwork => 0x01,
            HeaderNetworkCommissioning::PermitJoin => 0x03,
            HeaderNetworkCommissioning::LeaveNetwork => 0x04,
            HeaderNetworkCommissioning::RejoinNetwork => 0x05,
            HeaderNetworkCommissioning::NetworkStatusRequest => 0x08,
            HeaderNetworkCommissioning::NetworkStatusResponse => 0x09,
            HeaderNetworkCommissioning::TrustCenterDeviceUpdate => 0x10,
            HeaderNetworkCommissioning::NetworkAutoJoin => 0x11,
            HeaderNetworkCommissioning::NetworkResetAutoJoin => 0x12,
        }
    }

    /// Whether a byte is in the code table: it is the wire code of some
    /// network operation.
    pub open spec fn in_table(num: u8) -> bool {
        exists|h: HeaderNetworkCommissioning| #[trigger] h.spec_code() == num
    }

    /// The network operation that a byte encodes, if the code table holds the byte.
    pub open spec fn lookup(num: u8) -> Option<HeaderNetworkCommissioning> {
        if Self::in_table(num) {
            Some(choose|h: HeaderNetworkCommissioning| #[trigger] h.spec_code() == num)
        } else {
            None
        }
    }

    /// The wire code of a network operation.
    #[verifier::when_used_as_spec(spec_code)]
    pub fn code(self) -> (c: u8)
        ensures
            c == self.spec_code(),
    {
        match self {
            HeaderNetworkCommissioning::JoinNetwork => 0x00,
            HeaderNetworkCommissioning::FormNetwork => 0x01,
            HeaderNetworkCommissioning::PermitJoin => 0x03,
            HeaderNetworkCommissioning::LeaveNetwork => 0x04,
            HeaderNetworkCommissioning::RejoinNetwork => 0x05,
            HeaderNetworkCommissioning::NetworkStatusRequest => 0x08,
            HeaderNetworkCommissioning::NetworkStatusResponse => 0x09,
            HeaderNetworkCommissioning::TrustCenterDeviceUpdate => 0x10,
            HeaderNetworkCommissioning::NetworkAutoJoin => 0x11,
            HeaderNetworkCommissioning::NetworkResetAutoJoin => 0x12,
        }
    }

    /// Looks a byte up in the code table: the network operation it encodes, or
    /// `None` for a byte that the table does not hold.
    pub fn from(num: u8) -> (r: Option<HeaderNetworkCommissioning>)
        ensures
            r == Self::lookup(num),
    {
        let found = match num {
            0x00 => Some(HeaderNetworkCommissioning::JoinNetwork),
            0x01 => Some(HeaderNetworkCommissioning::FormNetwork),
            0x03 => Some(HeaderNetworkCommissioning::PermitJoin),
            0x04 => Some(HeaderNetworkCommissioning::LeaveNetwork),
            0x05 => Some(HeaderNetworkCommissioning::RejoinNetwork),
            0x08 => Some(HeaderNetworkCommissioning::NetworkStatusRequest),
            0x09 => Some(HeaderNetworkCommissioning::NetworkStatusResponse),
            0x10 => Some(HeaderNetworkCommissioning::TrustCenterDeviceUpdate),
            0x11 => Some(HeaderNetworkCommissioning::NetworkAutoJoin),
            0x12 => Some(HeaderNetworkCommissioning::NetworkResetAutoJoin),
            _ => None,
        };
        proof {
            match found {
                Some(h) => {
                    assert(h.spec_code() == num);
                },
                None => {
                    assert(forall|h: HeaderNetworkCommissioning| #[trigger] h.spec_code() != num);
                },
            }
        }
        found
    }
}

/// The secondary code of a frame whose domain defines no operations.
#[derive(Clone, Copy, Debug, PartialEq, Eq, Hash, Structural)]
pub enum HeaderNothing {
    Unknown,
}

/// The operation that a frame names, within the domain of its primary header.
#[derive(Clone, Copy, Debug, PartialEq, Eq, Hash, Structural)]
pub enum SecondaryHeader {
    HeaderUtilities(HeaderUtilities),
    HeaderNetworkCommissioning(HeaderNetworkCommissioning),
    HeaderNothing(HeaderNothing),
}

impl SecondaryHeader {
    /// The wire code of a secondary header; the unresolved marker stands for 0xFF.
    pub open spec fn spec_code(self) -> u8 {
        match self {
            SecondaryHeader::HeaderUtilities(u) => u.spec_code(),
            SecondaryHeader::HeaderNetworkCommissioning(n) => n.spec_code(),
            SecondaryHeader::HeaderNothing(_) => 0xFF,
        }
    }

    /// Whether a byte names an operation under the given primary header: the
    /// header has a code table, and the table holds the byte.
    pub open spec fn resolvable(primary_header: PrimaryHeader, num: u8) -> bool {
        match primary_header {
            PrimaryHeader::Utility => HeaderUtilities::in_table(num),
            PrimaryHeader::NetworkCommissioning => HeaderNetworkCommissioning::in_table(num),
            _ => false,
        }
    }

    /// What the byte `num` means under `primary_header`: the operation with
    /// that code in the header's own table, or the unresolved marker where
    /// there is no such operation.
    pub open spec fn resolve(primary_header: PrimaryHeader, num: u8) -> SecondaryHeader {
        match primary_header {
            PrimaryHeader::Utility => match HeaderUtilities::lookup(num) {
                Some(u) => SecondaryHeader::HeaderUtilities(u),
                None => SecondaryHeader::HeaderNothing(HeaderNothing::Unknown),
            },
            PrimaryHeader::NetworkCommissioning => match HeaderNetworkCommissioning::lookup(num) {
                Some(n) => SecondaryHeader::HeaderNetworkCommissioning(n),
                None => SecondaryHeader::HeaderNothing(HeaderNothing::Unknown),
            },
            _ => SecondaryHeader::HeaderNothing(HeaderNothing::Unknown),
        }
    }

    /// The wire code of a secondary header; the unresolved marker stands for 0xFF.
    #[verifier::when_used_as_spec(spec_code)]
    pub fn code(self) -> (c: u8)
        ensures
            c == self.spec_code(),
    {
        match self {
            SecondaryHeader::HeaderUtilities(u) => u.code(),
            SecondaryHeader::HeaderNetworkCommissioning(n) => n.code(),
            SecondaryHeader::HeaderNothing(_) => 0xFF,
        }
    }

    /// Reads a secondary header byte in the light of the primary header. The
    /// utility and network-commissioning headers resolve it through their
    /// code tables; a byte that the table lacks, and every byte under any
    /// other primary header, gives the unresolved marker.
    pub fn from(primary_header: &PrimaryHeader, num: u8) -> (r: SecondaryHeader)
        ensures
            r == Self::resolve(*primary_header, num),
    {
        match primary_header {
            PrimaryHeader::NetworkCommissioning => match HeaderNetworkCommissioning::from(num) {
                Some(n) => SecondaryHeader::HeaderNetworkCommissioning(n),
                None => SecondaryHeader::HeaderNothing(HeaderNothing::Unknown),
            },
            PrimaryHeader::Utility => match HeaderUtilities::from(num) {
                Some(u) => SecondaryHeader::HeaderUtilities(u),
                None => SecondaryHeader::HeaderNothing(HeaderNothing::Unknown),
            },
            _ => SecondaryHeader::HeaderNothing(HeaderNothing::Unknown),
        }
    }
}

/// Two domains with the same wire code are the same domain.
pub proof fn law_primary_code_injective(a: PrimaryHeader, b: PrimaryHeader)
    requires
        a.code() == b.code(),
    ensures
        a == b,
{
}

/// Every domain is found again under its own wire code.
pub proof fn law_primary_round_trip(h: PrimaryHeader)
    ensures
        PrimaryHeader::lookup(h.code()) == Some(h),
{
    assert(PrimaryHeader::in_table(h.spec_code()));
}

/// A byte that the lookup accepts is the wire code of what was found.
pub proof fn law_primary_lookup_keeps_code(num: u8)
    requires
        PrimaryHeader::in_table(num),
    ensures
        PrimaryHeader::lookup(num).unwrap().code() == num,
{
}

/// The primary code table holds eleven bytes, and no other byte is a domain's
/// wire code.
pub proof fn law_primary_code_table(num: u8)
    ensures
        PrimaryHeader::in_table(num) <==> (num == 0x55 || num == 0x01 || num == 0x02 || num == 0x03
            || num == 0x04 || num == 0x05 || num == 0x11 || num == 0x12 || num == 0x0B || num
            == 0xB0 || num == 0xD1),
        !PrimaryHeader::in_table(num) <==> PrimaryHeader::lookup(num) is None,
{
    if PrimaryHeader::in_table(num) {
        let h = choose|h: PrimaryHeader| #[trigger] h.spec_code() == num;
        assert(h.spec_code() == num);
    } else {
        assert(forall|h: PrimaryHeader| #[trigger] h.spec_code() != num);
        assert(PrimaryHeader::Utility.spec_code() != num);
        assert(PrimaryHeader::NetworkCommissioning.spec_code() != num);
        assert(PrimaryHeader::SecurityConfig.spec_code() != num);
        assert(PrimaryHeader::ZigbeeSupportConfig.spec_code() != num);
        assert(PrimaryHeader::Zdo.spec_code() != num);
        assert(PrimaryHeader::Zcl.spec_code() != num);
        assert(PrimaryHeader::GeneralClusters.spec_code() != num);
        assert(PrimaryHeader::HaClusters.spec_code() != num);
        assert(PrimaryHeader::Bootload.spec_code() != num);
        assert(PrimaryHeader::OtaBootload.spec_code() != num);
        assert(PrimaryHeader::Diagnostics.spec_code() != num);
    }
}

/// Two utility operations with the same wire code are the same utility operation.
pub proof fn law_utilities_code_injective(a: HeaderUtilities, b: HeaderUtilities)
    requires
        a.code() == b.code(),
    ensures
        a == b,
{
}

/// Every utility operation is found again under its own wire code.
pub proof fn law_utilities_round_trip(h: HeaderUtilities)
    ensures
        HeaderUtilities::lookup(h.code()) == Some(h),
{
    assert(HeaderUtilities::in_table(h.spec_code()));
}

/// A byte that the lookup accepts is the wire code of what was found.
pub proof fn law_utilities_lookup_keeps_code(num: u8)
    requires
        HeaderUtilities::in_table(num),
    ensures
        HeaderUtilities::lookup(num).unwrap().code() == num,
{
}

/// Two network operations with the same wire code are the same network operation.
pub proof fn law_network_commissioning_code_injective(a: HeaderNetworkCommissioning, b: HeaderNetworkCommissioning)
    requires
        a.code() == b.code(),
    ensures
        a == b,
{
}

/// Every network operation is found again under its own wire code.
pub proof fn law_network_commissioning_round_trip(h: HeaderNetworkCommissioning)
    ensures
        HeaderNetworkCommissioning::lookup(h.code()) == Some(h),
{
    assert(HeaderNetworkCommissioning::in_table(h.spec_code()));
}

/// A byte that the lookup accepts is the wire code of what was found.
pub proof fn law_network_commissioning_lookup_keeps_code(num: u8)
    requires
        HeaderNetworkCommissioning::in_table(num),
    ensures
        HeaderNetworkCommissioning::lookup(num).unwrap().code() == num,
{
}

/// A byte that names an operation under a primary header is the wire code of
/// the secondary header it resolves to; any other byte resolves to the
/// unresolved marker.
pub proof fn law_secondary_resolution(primary_header: PrimaryHeader, num: u8)
    ensures
        SecondaryHeader::resolvable(primary_header, num) ==> SecondaryHeader::resolve(
            primary_header,
            num,
        ).code() == num,
        !SecondaryHeader::resolvable(primary_header, num) ==> SecondaryHeader::resolve(
            primary_header,
            num,
        ) == SecondaryHeader::HeaderNothing(HeaderNothing::Unknown),
        primary_header != PrimaryHeader::Utility && primary_header
            != PrimaryHeader::NetworkCommissioning ==> !SecondaryHeader::resolvable(
            primary_header,
            num,
        ),
{
}

} // verus!
