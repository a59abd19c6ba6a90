//! The event decoder: given an Event packet's code and parameter bytes,
//! produces one structured event value or a field-tagged error. Dispatch is
//! a switch on the event code, with the LE Meta Event recursing into a
//! second switch on a subevent code read from the first payload byte. A
//! recognized but unhandled code yields `NotImplemented`, distinct from the
//! `OutOfBounds` that marks a truncated payload. The advertising report and
//! advertising data iterators decode their sequences lazily and convert any
//! field failure into silent termination: a failed read ends the sequence
//! for good rather than raising an error.

use vstd::prelude::*;

use crate::gap::{decode_ad, AdDataModel, AdvertisingData};
use crate::packet::HCIEventPacket;
use crate::reader::Reader;
use crate::wire::{as_i8, byte_as_i8, le_u16};

verus! {

pub const DISCONNECTION_COMPLETE_EVCODE: u8 = 0x05;

pub const COMMAND_COMPLETE_EVCODE: u8 = 0x0E;

pub const LE_META_EVENT_EVCODE: u8 = 0x3E;

/// The top-level event codes this decoder handles.
#[derive(Debug, Clone, Copy, PartialEq, Eq, Structural)]
pub enum HCIEventCode {
    DisconnectionComplete,
    CommandComplete,
    LEMetaEvent,
}

impl HCIEventCode {
    /// The named event for a code byte, or nothing for a byte outside the
    /// handled set. The mapping is injective: one byte names at most one
    /// event.
    pub open spec fn spec_from_u8(v: u8) -> Option<HCIEventCode> {
        if v == DISCONNECTION_COMPLETE_EVCODE {
            Some(HCIEventCode::DisconnectionComplete)
        } else if v == COMMAND_COMPLETE_EVCODE {
            Some(HCIEventCode::CommandComplete)
        } else if v == LE_META_EVENT_EVCODE {
            Some(HCIEventCode::LEMetaEvent)
        } else {
            None
        }
    }

    /// The code byte of a named event: the exact inverse of the lookup.
    pub open spec fn spec_to_u8(self) -> u8 {
        match self {
            HCIEventCode::DisconnectionComplete => DISCONNECTION_COMPLETE_EVCODE,
            HCIEventCode::CommandComplete => COMMAND_COMPLETE_EVCODE,
            HCIEventCode::LEMetaEvent => LE_META_EVENT_EVCODE,
        }
    }

    /// Looks a code byte up in the event table.
    pub fn from_u8(v: u8) -> (r: Option<HCIEventCode>)
        ensures
            r == HCIEventCode::spec_from_u8(v),
    {
        if v == DISCONNECTION_COMPLETE_EVCODE {
            Some(HCIEventCode::DisconnectionComplete)
        } else if v == COMMAND_COMPLETE_EVCODE {
            Some(HCIEventCode::CommandComplete)
        } else if v == LE_META_EVENT_EVCODE {
            Some(HCIEventCode::LEMetaEvent)
        } else {
            None
        }
    }

    /// The code byte of a named event.
    pub fn to_u8(self) -> (r: u8)
        ensures
            r == self.spec_to_u8(),
    {
        match self {
            HCIEventCode::DisconnectionComplete => DISCONNECTION_COMPLETE_EVCODE,
            HCIEventCode::CommandComplete => COMMAND_COMPLETE_EVCODE,
            HCIEventCode::LEMetaEvent => LE_META_EVENT_EVCODE,
        }
    }
}

/// The event lookup and its table of code bytes are exact inverses.
pub proof fn lemma_event_code_round_trip(c: HCIEventCode, v: u8)
    ensures
        HCIEventCode::spec_from_u8(c.spec_to_u8()) == Some(c),
        HCIEventCode::spec_from_u8(v) matches Some(u) ==> u.spec_to_u8() == v,
{
}

/// The LE Meta subevent codes recognized by this decoder, one per named
/// subevent of the specification. Only the first three are decoded further;
/// the rest are recognized and reported as not implemented.
#[derive(Debug, Clone, Copy, PartialEq, Eq, Structural)]
pub enum SubeventCode {
    ConnectionComplete,
    AdvertisingReport,
    ConnectionUpdateComplete,
    ReadRemoteFeaturesPage0Complete,
    LongTermKeyRequest,
    RemoteConnectionParameterRequest,
    DataLengthChange,
    ReadLocalP256PublicKeyComplete,
    GenerateDHKeyComplete,
    EnhancedConnectionCompleteV1,
    EnhancedConnectionCompleteV2,
    DirectedAdvertisingReport,
    PHYUpdateComplete,
    ExtendedAdvertisingReport,
    PeriodicAdvertisingSyncEstablished,
    PeriodicAdvertisingReport,
    PeriodicAdvertisingSyncLost,
    ScanTimeout,
    AdvertisingSetTerminated,
    ScanRequestReceived,
    ChannelSelectionAlgorithm,
    ConnectionlessIQReport,
    ConnectionIQReport,
    CTERequestFailed,
    PeriodicAdvertisingSyncTransferReceivedV1,
    PeriodicAdvertisingSyncTransferReceivedV2,
    CISEstablishedV1,
    CISEstablishedV2,
    CISRequest,
    CreateBIGComplete,
    TerminateBIGComplete,
    BIGSyncEstablished,
    BIGSyncLost,
    RequestPeerSCAComplete,
    PathLossThreshold,
    TransmitPowerReporting,
    BIGInfoAdvertisingReport,
    SubrateChange,
    PeriodicAdvertisingSubeventDataRequest,
    PeriodicAdvertisingResponseReport,
    ReadAllRemoteFeaturesComplete,
    CSReadRemoteSupportedCapabilitiesComplete,
    CSReadRemoteFAETableComplete,
    CSSecurityEnableComplete,
    CSConfigComplete,
    CSProcedureEnableComplete,
    CSSubeventResult,
    CSSubeventResultContinue,
    CSTestEndComplete,
    MonitoredAdvertisersReport,
    FrameSpaceUpdateComplete,
}

impl SubeventCode {
    /// The named subevent for a code byte, or nothing for a byte outside
    /// the recognized set. The mapping is injective: one byte names at most
    /// one subevent.
    pub open spec fn spec_from_u8(v: u8) -> Option<SubeventCode> {
        match v {
            0x01 => Some(SubeventCode::ConnectionComplete),
            0x02 => Some(SubeventCode::AdvertisingReport),
            0x03 => Some(SubeventCode::ConnectionUpdateComplete),
            0x04 => Some(SubeventCode::ReadRemoteFeaturesPage0Complete),
            0x05 => Some(SubeventCode::LongTermKeyRequest),
            0x06 => Some(SubeventCode::RemoteConnectionParameterRequest),
            0x07 => Some(SubeventCode::DataLengthChange),
            0x08 => Some(SubeventCode::ReadLocalP256PublicKeyComplete),
            0x09 => Some(SubeventCode::GenerateDHKeyComplete),
            0x0A => Some(SubeventCode::EnhancedConnectionCompleteV1),
            0x0B => Some(SubeventCode::DirectedAdvertisingReport),
            0x0C => Some(SubeventCode::PHYUpdateComplete),
            0x0D => Some(SubeventCode::ExtendedAdvertisingReport),
            0x0E => Some(SubeventCode::PeriodicAdvertisingSyncEstablished),
            0x0F => Some(SubeventCode::PeriodicAdvertisingReport),
            0x10 => Some(SubeventCode::PeriodicAdvertisingSyncLost),
            0x11 => Some(SubeventCode::ScanTimeout),
            0x12 => Some(SubeventCode::AdvertisingSetTerminated),
            0x13 => Some(SubeventCode::ScanRequestReceived),
            0x14 => Some(SubeventCode::ChannelSelectionAlgorithm),
            0x15 => Some(SubeventCode::ConnectionlessIQReport),
            0x16 => Some(SubeventCode::ConnectionIQReport),
            0x17 => Some(SubeventCode::CTERequestFailed),
            0x18 => Some(SubeventCode::PeriodicAdvertisingSyncTransferReceivedV1),
            0x19 => Some(SubeventCode::CISEstablishedV1),
            0x1A => Some(SubeventCode::CISRequest),
            0x1B => Some(SubeventCode::CreateBIGComplete),
            0x1C => Some(SubeventCode::TerminateBIGComplete),
            0x1D => Some(SubeventCode::BIGSyncEstablished),
            0x1E => Some(SubeventCode::BIGSyncLost),
            0x1F => Some(SubeventCode::RequestPeerSCAComplete),
            0x20 => Some(SubeventCode::PathLossThreshold),
            0x21 => Some(SubeventCode::TransmitPowerReporting),
            0x22 => Some(SubeventCode::BIGInfoAdvertisingReport),
            0x23 => Some(SubeventCode::SubrateChange),
            0x26 => Some(SubeventCode::PeriodicAdvertisingSyncTransferReceivedV2),
            0x27 => Some(SubeventCode::PeriodicAdvertisingSubeventDataRequest),
            0x28 => Some(SubeventCode::PeriodicAdvertisingResponseReport),
            0x29 => Some(SubeventCode::EnhancedConnectionCompleteV2),
            0x2A => Some(SubeventCode::CISEstablishedV2),
            0x2B => Some(SubeventCode::ReadAllRemoteFeaturesComplete),
            0x2C => Some(SubeventCode::CSReadRemoteSupportedCapabilitiesComplete),
            0x2D => Some(SubeventCode::CSReadRemoteFAETableComplete),
            0x2E => Some(SubeventCode::CSSecurityEnableComplete),
            0x2F => Some(SubeventCode::CSConfigComplete),
            0x30 => Some(SubeventCode::CSProcedureEnableComplete),
            0x31 => Some(SubeventCode::CSSubeventResult),
            0x32 => Some(SubeventCode::CSSubeventResultContinue),
            0x33 => Some(SubeventCode::CSTestEndComplete),
            0x34 => Some(SubeventCode::MonitoredAdvertisersReport),
            0x35 => Some(SubeventCode::FrameSpaceUpdateComplete),
            _ => None,
        }
    }

    /// The code byte of a named subevent: the exact inverse of the lookup.
    pub open spec fn spec_to_u8(self) -> u8 {
        match self {
            SubeventCode::ConnectionComplete => 0x01,
            SubeventCode::AdvertisingReport => 0x02,
            SubeventCode::ConnectionUpdateComplete => 0x03,
            SubeventCode::ReadRemoteFeaturesPage0Complete => 0x04,
            SubeventCode::LongTermKeyRequest => 0x05,
            SubeventCode::RemoteConnectionParameterRequest => 0x06,
            SubeventCode::DataLengthChange => 0x07,
            SubeventCode::ReadLocalP256PublicKeyComplete => 0x08,
            SubeventCode::GenerateDHKeyComplete => 0x09,
            SubeventCode::EnhancedConnectionCompleteV1 => 0x0A,
            SubeventCode::EnhancedConnectionCompleteV2 => 0x29,
            SubeventCode::DirectedAdvertisingReport => 0x0B,
            SubeventCode::PHYUpdateComplete => 0x0C,
            SubeventCode::ExtendedAdvertisingReport => 0x0D,
            SubeventCode::PeriodicAdvertisingSyncEstablished => 0x0E,
            SubeventCode::PeriodicAdvertisingReport => 0x0F,
            SubeventCode::PeriodicAdvertisingSyncLost => 0x10,
            SubeventCode::ScanTimeout => 0x11,
            SubeventCode::AdvertisingSetTerminated => 0x12,
            SubeventCode::ScanRequestReceived => 0x13,
            SubeventCode::ChannelSelectionAlgorithm => 0x14,
            SubeventCode::ConnectionlessIQReport => 0x15,
            SubeventCode::ConnectionIQReport => 0x16,
            SubeventCode::CTERequestFailed => 0x17,
            SubeventCode::PeriodicAdvertisingSyncTransferReceivedV1 => 0x18,
            SubeventCode::PeriodicAdvertisingSyncTransferReceivedV2 => 0x26,
            SubeventCode::CISEstablishedV1 => 0x19,
            SubeventCode::CISEstablishedV2 => 0x2A,
            SubeventCode::CISRequest => 0x1A,
            SubeventCode::CreateBIGComplete => 0x1B,
            SubeventCode::TerminateBIGComplete => 0x1C,
            SubeventCode::BIGSyncEstablished => 0x1D,
            SubeventCode::BIGSyncLost => 0x1E,
            SubeventCode::RequestPeerSCAComplete => 0x1F,
            SubeventCode::PathLossThreshold => 0x20,
            SubeventCode::TransmitPowerReporting => 0x21,
            SubeventCode::BIGInfoAdvertisingReport => 0x22,
            SubeventCode::SubrateChange => 0x23,
            SubeventCode::PeriodicAdvertisingSubeventDataRequest => 0x27,
            SubeventCode::PeriodicAdvertisingResponseReport => 0x28,
            SubeventCode::ReadAllRemoteFeaturesComplete => 0x2B,
            SubeventCode::CSReadRemoteSupportedCapabilitiesComplete => 0x2C,
            SubeventCode::CSReadRemoteFAETableComplete => 0x2D,
            SubeventCode::CSSecurityEnableComplete => 0x2E,
            SubeventCode::CSConfigComplete => 0x2F,
            SubeventCode::CSProcedureEnableComplete => 0x30,
            SubeventCode::CSSubeventResult => 0x31,
            SubeventCode::CSSubeventResultContinue => 0x32,
            SubeventCode::CSTestEndComplete => 0x33,
            SubeventCode::MonitoredAdvertisersReport => 0x34,
            SubeventCode::FrameSpaceUpdateComplete => 0x35,
        }
    }

    /// Looks a code byte up in the subevent table.
    pub fn from_u8(v: u8) -> (r: Option<SubeventCode>)
        ensures
            r == SubeventCode::spec_from_u8(v),
    {
        match v {
            0x01 => Some(SubeventCode::ConnectionComplete),
            0x02 => Some(SubeventCode::AdvertisingReport),
            0x03 => Some(SubeventCode::ConnectionUpdateComplete),
            0x04 => Some(SubeventCode::ReadRemoteFeaturesPage0Complete),
            0x05 => Some(SubeventCode::LongTermKeyRequest),
            0x06 => Some(SubeventCode::RemoteConnectionParameterRequest),
            0x07 => Some(SubeventCode::DataLengthChange),
            0x08 => Some(SubeventCode::ReadLocalP256PublicKeyComplete),
            0x09 => Some(SubeventCode::GenerateDHKeyComplete),
            0x0A => Some(SubeventCode::EnhancedConnectionCompleteV1),
            0x0B => Some(SubeventCode::DirectedAdvertisingReport),
            0x0C => Some(SubeventCode::PHYUpdateComplete),
            0x0D => Some(SubeventCode::ExtendedAdvertisingReport),
            0x0E => Some(SubeventCode::PeriodicAdvertisingSyncEstablished),
            0x0F => Some(SubeventCode::PeriodicAdvertisingReport),
            0x10 => Some(SubeventCode::PeriodicAdvertisingSyncLost),
            0x11 => Some(SubeventCode::ScanTimeout),
            0x12 => Some(SubeventCode::AdvertisingSetTerminated),
            0x13 => Some(SubeventCode::ScanRequestReceived),
            0x14 => Some(SubeventCode::ChannelSelectionAlgorithm),
            0x15 => Some(SubeventCode::ConnectionlessIQReport),
            0x16 => Some(SubeventCode::ConnectionIQReport),
            0x17 => Some(SubeventCode::CTERequestFailed),
            0x18 => Some(SubeventCode::PeriodicAdvertisingSyncTransferReceivedV1),
            0x19 => Some(SubeventCode::CISEstablishedV1),
            0x1A => Some(SubeventCode::CISRequest),
            0x1B => Some(SubeventCode::CreateBIGComplete),
            0x1C => Some(SubeventCode::TerminateBIGComplete),
            0x1D => Some(SubeventCode::BIGSyncEstablished),
            0x1E => Some(SubeventCode::BIGSyncLost),
            0x1F => Some(SubeventCode::RequestPeerSCAComplete),
            0x20 => Some(SubeventCode::PathLossThreshold),
            0x21 => Some(SubeventCode::TransmitPowerReporting),
            0x22 => Some(SubeventCode::BIGInfoAdvertisingReport),
            0x23 => Some(SubeventCode::SubrateChange),
            0x26 => Some(SubeventCode::PeriodicAdvertisingSyncTransferReceivedV2),
            0x27 => Some(SubeventCode::PeriodicAdvertisingSubeventDataRequest),
            0x28 => Some(SubeventCode::PeriodicAdvertisingResponseReport),
            0x29 => Some(SubeventCode::EnhancedConnectionCompleteV2),
            0x2A => Some(SubeventCode::CISEstablishedV2),
            0x2B => Some(SubeventCode::ReadAllRemoteFeaturesComplete),
            0x2C => Some(SubeventCode::CSReadRemoteSupportedCapabilitiesComplete),
            0x2D => Some(SubeventCode::CSReadRemoteFAETableComplete),
            0x2E => Some(SubeventCode::CSSecurityEnableComplete),
            0x2F => Some(SubeventCode::CSConfigComplete),
            0x30 => Some(SubeventCode::CSProcedureEnableComplete),
            0x31 => Some(SubeventCode::CSSubeventResult),
            0x32 => Some(SubeventCode::CSSubeventResultContinue),
            0x33 => Some(SubeventCode::CSTestEndComplete),
            0x34 => Some(SubeventCode::MonitoredAdvertisersReport),
            0x35 => Some(SubeventCode::FrameSpaceUpdateComplete),
            _ => None,
        }
    }

    /// The code byte of a named subevent.
    pub fn to_u8(self) -> (r: u8)
        ensures
            r == self.spec_to_u8(),
    {
        match self {
            SubeventCode::ConnectionComplete => 0x01,
            SubeventCode::AdvertisingReport => 0x02,
            SubeventCode::ConnectionUpdateComplete => 0x03,
            SubeventCode::ReadRemoteFeaturesPage0Complete => 0x04,
            SubeventCode::LongTermKeyRequest => 0x05,
            SubeventCode::RemoteConnectionParameterRequest => 0x06,
            SubeventCode::DataLengthChange => 0x07,
            SubeventCode::ReadLocalP256PublicKeyComplete => 0x08,
            SubeventCode::GenerateDHKeyComplete => 0x09,
            SubeventCode::EnhancedConnectionCompleteV1 => 0x0A,
            SubeventCode::EnhancedConnectionCompleteV2 => 0x29,
            SubeventCode::DirectedAdvertisingReport => 0x0B,
            SubeventCode::PHYUpdateComplete => 0x0C,
            SubeventCode::ExtendedAdvertisingReport => 0x0D,
            SubeventCode::PeriodicAdvertisingSyncEstablished => 0x0E,
            SubeventCode::PeriodicAdvertisingReport => 0x0F,
            SubeventCode::PeriodicAdvertisingSyncLost => 0x10,
            SubeventCode::ScanTimeout => 0x11,
            SubeventCode::AdvertisingSetTerminated => 0x12,
            SubeventCode::ScanRequestReceived => 0x13,
            SubeventCode::ChannelSelectionAlgorithm => 0x14,
            SubeventCode::ConnectionlessIQReport => 0x15,
            SubeventCode::ConnectionIQReport => 0x16,
            SubeventCode::CTERequestFailed => 0x17,
            SubeventCode::PeriodicAdvertisingSyncTransferReceivedV1 => 0x18,
            SubeventCode::PeriodicAdvertisingSyncTransferReceivedV2 => 0x26,
            SubeventCode::CISEstablishedV1 => 0x19,
            SubeventCode::CISEstablishedV2 => 0x2A,
            SubeventCode::CISRequest => 0x1A,
            SubeventCode::CreateBIGComplete => 0x1B,
            SubeventCode::TerminateBIGComplete => 0x1C,
            SubeventCode::BIGSyncEstablished => 0x1D,
            SubeventCode::BIGSyncLost => 0x1E,
            SubeventCode::RequestPeerSCAComplete => 0x1F,
            SubeventCode::PathLossThreshold => 0x20,
            SubeventCode::TransmitPowerReporting => 0x21,
            SubeventCode::BIGInfoAdvertisingReport => 0x22,
            SubeventCode::SubrateChange => 0x23,
            SubeventCode::PeriodicAdvertisingSubeventDataRequest => 0x27,
            SubeventCode::PeriodicAdvertisingResponseReport => 0x28,
            SubeventCode::ReadAllRemoteFeaturesComplete => 0x2B,
            SubeventCode::CSReadRemoteSupportedCapabilitiesComplete => 0x2C,
            SubeventCode::CSReadRemoteFAETableComplete => 0x2D,
            SubeventCode::CSSecurityEnableComplete => 0x2E,
            SubeventCode::CSConfigComplete => 0x2F,
            SubeventCode::CSProcedureEnableComplete => 0x30,
            SubeventCode::CSSubeventResult => 0x31,
            SubeventCode::CSSubeventResultContinue => 0x32,
            SubeventCode::CSTestEndComplete => 0x33,
            SubeventCode::MonitoredAdvertisersReport => 0x34,
            SubeventCode::FrameSpaceUpdateComplete => 0x35,
        }
    }
}

/// The subevent lookup and its table of code bytes are exact inverses.
pub proof fn lemma_subevent_code_round_trip(c: SubeventCode, v: u8)
    ensures
        SubeventCode::spec_from_u8(c.spec_to_u8()) == Some(c),
        SubeventCode::spec_from_u8(v) matches Some(u) ==> u.spec_to_u8() == v,
{
}

/// One decoded event. Borrowed payloads point into the packet's parameter
/// bytes.
#[derive(Debug)]
pub enum HCIEvent<'p> {
    DisconnectionComplete(DisconnectionCompleteEvent),
    CommandComplete(CommandCompleteEvent<'p>),
    LEMetaEvent(LEMetaEvent<'p>),
}

/// Why a decode failed. Every variant carries enough context to log or to
/// assert against; none ever aborts the process.
#[derive(Debug)]
pub enum HciParseError<'p> {
    InvalidField { field: &'p str, position: usize },
    OutOfBounds { field: &'p str, position: usize },
    InvalidLength { field: &'p str, expected: usize, found: usize },
    NotImplemented { evcode: u8, sub_evcode: Option<u8> },
}

/// A Disconnection Complete event.
#[derive(Debug)]
pub struct DisconnectionCompleteEvent {
    pub status: u8,
    pub connection_handle: u16,
    pub reason: u8,
}

/// A Command Complete event; the return parameters are whatever bytes the
/// packet's declared length leaves after the fixed fields.
#[derive(Debug)]
pub struct CommandCompleteEvent<'p> {
    pub num_hci_command_packets: u8,
    pub command_opcode: u16,
    pub return_parameters: &'p [u8],
}

/// The LE Meta subevents that are decoded further.
#[derive(Debug)]
pub enum LEMetaEvent<'p> {
    ConnectionComplete(ConnectionCompleteEvent<'p>),
    AdvertisingReport(AdvertisingReportIterator<'p>),
    ConnectionUpdateComplete(ConnectionUpdateCompleteEvent),
    ReadAllRemoteFeaturesComplete(&'p [u8]),
}

/// An LE Connection Complete subevent.
#[derive(Debug)]
pub struct ConnectionCompleteEvent<'p> {
    pub status: u8,
    pub connection_handle: u16,
    pub role: u8,
    pub peer_address_type: u8,
    pub peer_address: &'p [u8],
    pub connection_interval: u16,
    pub peripheral_latency: u16,
    pub supervision_timeout: u16,
    pub central_clock_accuracy: u8,
}

/// One advertising report: a per-device observation with its address, its
/// advertising data block and the received signal strength.
#[derive(Debug)]
pub struct AdvertisingReport<'p> {
    pub event_type: u8,
    pub address_type: u8,
    pub address: &'p [u8],
    pub data: AdvertisingDataIterator<'p>,
    pub rssi: i8,
}

/// An LE Connection Update Complete subevent.
#[derive(Debug)]
pub struct ConnectionUpdateCompleteEvent {
    pub status: u8,
    pub connection_handle: u16,
    pub connection_interval: u16,
    pub peripheral_latency: u16,
    pub supervision_timeout: u16,
}

/// Lazily decodes the advertising reports of an LE Advertising Report
/// subevent. The advisory report count from the wire is informational only:
/// iteration is bounded by the bytes that are actually present, never by
/// the count.
#[derive(Debug)]
pub struct AdvertisingReportIterator<'p> {
    pub num_reports: u8,
    pub reader: Reader<'p>,
}

/// Lazily decodes the type-length-value entries of one report's advertising
/// data block.
#[derive(Debug)]
pub struct AdvertisingDataIterator<'p> {
    pub reader: Reader<'p>,
}

/// The mathematical value of a decoded event.
pub enum EventModel {
    DisconnectionComplete { status: u8, connection_handle: u16, reason: u8 },
    CommandComplete { num_hci_command_packets: u8, command_opcode: u16, return_parameters: Seq<u8> },
    LEMetaEvent(LEMetaModel),
}

/// The mathematical value of a decoded LE Meta subevent.
pub enum LEMetaModel {
    ConnectionComplete {
        status: u8,
        connection_handle: u16,
        role: u8,
        peer_address_type: u8,
        peer_address: Seq<u8>,
        connection_interval: u16,
        peripheral_latency: u16,
        supervision_timeout: u16,
        central_clock_accuracy: u8,
    },
    AdvertisingReport { num_reports: u8, reports: Seq<u8> },
    ConnectionUpdateComplete {
        status: u8,
        connection_handle: u16,
        connection_interval: u16,
        peripheral_latency: u16,
        supervision_timeout: u16,
    },
    ReadAllRemoteFeaturesComplete { bytes: Seq<u8> },
}

/// The mathematical value of one advertising report; `data` is the raw
/// advertising data block the report carries.
pub struct AdReportModel {
    pub event_type: u8,
    pub address_type: u8,
    pub address: Seq<u8>,
    pub data: Seq<u8>,
    pub rssi: i8,
}

/// The mathematical value of a decode error.
pub enum ParseErrorModel {
    InvalidField { field: Seq<char>, position: nat },
    OutOfBounds { field: Seq<char>, position: nat },
    InvalidLength { field: Seq<char>, expected: nat, found: nat },
    NotImplemented { evcode: u8, sub_evcode: Option<u8> },
}

impl<'p> View for HciParseError<'p> {
    type V = ParseErrorModel;

    open spec fn view(&self) -> ParseErrorModel {
        match self {
            HciParseError::InvalidField { field, position } => ParseErrorModel::InvalidField {
                field: field@,
                position: *position as nat,
            },
            HciParseError::OutOfBounds { field, position } => ParseErrorModel::OutOfBounds {
                field: field@,
                position: *position as nat,
            },
            HciParseError::InvalidLength { field, expected, found } => {
                ParseErrorModel::InvalidLength {
                    field: field@,
                    expected: *expected as nat,
                    found: *found as nat,
                }
            },
            HciParseError::NotImplemented { evcode, sub_evcode } => {
                ParseErrorModel::NotImplemented { evcode: *evcode, sub_evcode: *sub_evcode }
            },
        }
    }
}

impl<'p> View for LEMetaEvent<'p> {
    type V = LEMetaModel;

    open spec fn view(&self) -> LEMetaModel {
        match self {
            LEMetaEvent::ConnectionComplete(e) => LEMetaModel::ConnectionComplete {
                status: e.status,
                connection_handle: e.connection_handle,
                role: e.role,
                peer_address_type: e.peer_address_type,
                peer_address: e.peer_address@,
                connection_interval: e.connection_interval,
                peripheral_latency: e.peripheral_latency,
                supervision_timeout: e.supervision_timeout,
                central_clock_accuracy: e.central_clock_accuracy,
            },
            LEMetaEvent::AdvertisingReport(it) => LEMetaModel::AdvertisingReport {
                num_reports: it.num_reports,
                reports: it.reader.rest(),
            },
            LEMetaEvent::ConnectionUpdateComplete(e) => LEMetaModel::ConnectionUpdateComplete {
                status: e.status,
                connection_handle: e.connection_handle,
                connection_interval: e.connection_interval,
                peripheral_latency: e.peripheral_latency,
                supervision_timeout: e.supervision_timeout,
            },
            LEMetaEvent::ReadAllRemoteFeaturesComplete(bytes) => {
                LEMetaModel::ReadAllRemoteFeaturesComplete { bytes: bytes@ }
            },
        }
    }
}

impl<'p> View for HCIEvent<'p> {
    type V = EventModel;

    open spec fn view(&self) -> EventModel {
        match self {
            HCIEvent::DisconnectionComplete(e) => EventModel::DisconnectionComplete {
                status: e.status,
                connection_handle: e.connection_handle,
                reason: e.reason,
            },
            HCIEvent::CommandComplete(e) => EventModel::CommandComplete {
                num_hci_command_packets: e.num_hci_command_packets,
                command_opcode: e.command_opcode,
                return_parameters: e.return_parameters@,
            },
            HCIEvent::LEMetaEvent(sub) => EventModel::LEMetaEvent(sub@),
        }
    }
}

impl<'p> View for AdvertisingReport<'p> {
    type V = AdReportModel;

    open spec fn view(&self) -> AdReportModel {
        AdReportModel {
            event_type: self.event_type,
            address_type: self.address_type,
            address: self.address@,
            data: self.data.reader.rest(),
            rssi: self.rssi,
        }
    }
}

/// What decoding a Disconnection Complete payload yields: the event when
/// all three fields are present, the first missing field otherwise.
pub open spec fn parse_disconnection_complete(params: Seq<u8>) -> Result<
    EventModel,
    ParseErrorModel,
> {
    if params.len() < 1 {
        Err(ParseErrorModel::OutOfBounds { field: "status"@, position: 0 })
    } else if params.len() < 3 {
        Err(ParseErrorModel::OutOfBounds { field: "connection_handle"@, position: 1 })
    } else if params.len() < 4 {
        Err(ParseErrorModel::OutOfBounds { field: "reason"@, position: 3 })
    } else {
        Ok(
            EventModel::DisconnectionComplete {
                status: params[0],
                connection_handle: le_u16(params.subrange(1, 3)),
                reason: params[3],
            },
        )
    }
}

/// What decoding a Command Complete payload yields: the fixed fields, then
/// every remaining byte of the declared length as return parameters.
pub open spec fn parse_command_complete(params: Seq<u8>) -> Result<EventModel, ParseErrorModel> {
    if params.len() < 1 {
        Err(ParseErrorModel::OutOfBounds { field: "num_hci_command_packets"@, position: 0 })
    } else if params.len() < 3 {
        Err(ParseErrorModel::OutOfBounds { field: "command_opcode"@, position: 1 })
    } else {
        Ok(
            EventModel::CommandComplete {
                num_hci_command_packets: params[0],
                command_opcode: le_u16(params.subrange(1, 3)),
                return_parameters: params.skip(3),
            },
        )
    }
}

/// What decoding an LE Connection Complete subevent payload yields; the
/// subevent code byte sits at position 0.
pub open spec fn parse_connection_complete(params: Seq<u8>) -> Result<
    EventModel,
    ParseErrorModel,
> {
    if params.len() < 2 {
        Err(ParseErrorModel::OutOfBounds { field: "status"@, position: 1 })
    } else if params.len() < 4 {
        Err(ParseErrorModel::OutOfBounds { field: "connection_handle"@, position: 2 })
    } else if params.len() < 5 {
        Err(ParseErrorModel::OutOfBounds { field: "role"@, position: 4 })
    } else if params.len() < 6 {
        Err(ParseErrorModel::OutOfBounds { field: "peer_address_type"@, position: 5 })
    } else if params.len() < 12 {
        Err(ParseErrorModel::OutOfBounds { field: "peer_address"@, position: 6 })
    } else if params.len() < 14 {
        Err(ParseErrorModel::OutOfBounds { field: "connection_interval"@, position: 12 })
    } else if params.len() < 16 {
        Err(ParseErrorModel::OutOfBounds { field: "peripheral_latency"@, position: 14 })
    } else if params.len() < 18 {
        Err(ParseErrorModel::OutOfBounds { field: "supervision_timeout"@, position: 16 })
    } else if params.len() < 19 {
        Err(ParseErrorModel::OutOfBounds { field: "central_clock_accuracy"@, position: 18 })
    } else {
        Ok(
            EventModel::LEMetaEvent(
                LEMetaModel::ConnectionComplete {
                    status: params[1],
                    connection_handle: le_u16(params.subrange(2, 4)),
                    role: params[4],
                    peer_address_type: params[5],
                    peer_address: params.subrange(6, 12),
                    connection_interval: le_u16(params.subrange(12, 14)),
                    peripheral_latency: le_u16(params.subrange(14, 16)),
                    supervision_timeout: le_u16(params.subrange(16, 18)),
                    central_clock_accuracy: params[18],
                },
            ),
        )
    }
}

/// What decoding an LE Advertising Report subevent payload yields: the
/// advisory report count, then every remaining byte as the report block.
pub open spec fn parse_advertising_report(params: Seq<u8>) -> Result<
    EventModel,
    ParseErrorModel,
> {
    if params.len() < 2 {
        Err(ParseErrorModel::OutOfBounds { field: "num_reports"@, position: 1 })
    } else {
        Ok(
            EventModel::LEMetaEvent(
                LEMetaModel::AdvertisingReport { num_reports: params[1], reports: params.skip(2) },
            ),
        )
    }
}

/// What decoding an LE Connection Update Complete subevent payload yields.
pub open spec fn parse_connection_update_complete(params: Seq<u8>) -> Result<
    EventModel,
    ParseErrorModel,
> {
    if params.len() < 2 {
        Err(ParseErrorModel::OutOfBounds { field: "status"@, position: 1 })
    } else if params.len() < 4 {
        Err(ParseErrorModel::OutOfBounds { field: "connection_handle"@, position: 2 })
    } else if params.len() < 6 {
        Err(ParseErrorModel::OutOfBounds { field: "connection_interval"@, position: 4 })
    } else if params.len() < 8 {
        Err(ParseErrorModel::OutOfBounds { field: "peripheral_latency"@, position: 6 })
    } else if params.len() < 10 {
        Err(ParseErrorModel::OutOfBounds { field: "supervision_timeout"@, position: 8 })
    } else {
        Ok(
            EventModel::LEMetaEvent(
                LEMetaModel::ConnectionUpdateComplete {
                    status: params[1],
                    connection_handle: le_u16(params.subrange(2, 4)),
                    connection_interval: le_u16(params.subrange(4, 6)),
                    peripheral_latency: le_u16(params.subrange(6, 8)),
                    supervision_timeout: le_u16(params.subrange(8, 10)),
                },
            ),
        )
    }
}

/// What decoding an LE Meta Event payload yields: dispatch on the subevent
/// code in the first byte. A subevent outside the three handled ones, named
/// or not, is reported as not implemented, with its code.
pub open spec fn parse_le_meta(params: Seq<u8>) -> Result<EventModel, ParseErrorModel> {
    if params.len() < 1 {
        Err(ParseErrorModel::OutOfBounds { field: "sub_event_code"@, position: 0 })
    } else if SubeventCode::spec_from_u8(params[0]) == Some(SubeventCode::ConnectionComplete) {
        parse_connection_complete(params)
    } else if SubeventCode::spec_from_u8(params[0]) == Some(SubeventCode::AdvertisingReport) {
        parse_advertising_report(params)
    } else if SubeventCode::spec_from_u8(params[0]) == Some(
        SubeventCode::ConnectionUpdateComplete,
    ) {
        parse_connection_update_complete(params)
    } else {
        Err(
            ParseErrorModel::NotImplemented {
                evcode: LE_META_EVENT_EVCODE,
                sub_evcode: Some(params[0]),
            },
        )
    }
}

/// What decoding an Event packet's payload yields, for each event code. An
/// event code outside the handled set is reported as not implemented, with
/// no subevent code.
pub open spec fn parse_event(evcode: u8, params: Seq<u8>) -> Result<EventModel, ParseErrorModel> {
    match HCIEventCode::spec_from_u8(evcode) {
        Some(HCIEventCode::DisconnectionComplete) => parse_disconnection_complete(params),
        Some(HCIEventCode::CommandComplete) => parse_command_complete(params),
        Some(HCIEventCode::LEMetaEvent) => parse_le_meta(params),
        None => Err(ParseErrorModel::NotImplemented { evcode, sub_evcode: None }),
    }
}

impl<'p> HCIEvent<'p> {
    /// Decodes one Event packet's payload into a structured event, or fails
    /// with the first missing field, or reports an unhandled event or
    /// subevent code as not implemented.
    pub fn from_packet(packet: &HCIEventPacket<'p>) -> (r: Result<
        HCIEvent<'p>,
        HciParseError<'p>,
    >)
        requires
            packet.wf(),
        ensures
            match r {
                Ok(ev) => parse_event(packet.evcode, packet.parameters@) == Ok::<
                    EventModel,
                    ParseErrorModel,
                >(ev@),
                Err(e) => parse_event(packet.evcode, packet.parameters@) == Err::<
                    EventModel,
                    ParseErrorModel,
                >(e@),
            },
    {
        let mut reader = Reader::new(packet.parameters);

        match HCIEventCode::from_u8(packet.evcode) {
            Some(HCIEventCode::DisconnectionComplete) => {
                let status = match reader.read_u8() {
                    Some(v) => v,
                    None => {
                        return Err(
                            HciParseError::OutOfBounds { field: "status", position: reader.pos() },
                        );
                    },
                };
                let connection_handle = match reader.read_u16() {
                    Some(v) => v,
                    None => {
                        return Err(
                            HciParseError::OutOfBounds {
                                field: "connection_handle",
                                position: reader.pos(),
                            },
                        );
                    },
                };
                let reason = match reader.read_u8() {
                    Some(v) => v,
                    None => {
                        return Err(
                            HciParseError::OutOfBounds { field: "reason", position: reader.pos() },
                        );
                    },
                };
                Ok(
                    HCIEvent::DisconnectionComplete(
                        DisconnectionCompleteEvent { status, connection_handle, reason },
                    ),
                )
            },
            Some(HCIEventCode::CommandComplete) => {
                let num_hci_command_packets = match reader.read_u8() {
                    Some(v) => v,
                    None => {
                        return Err(
                            HciParseError::OutOfBounds {
                                field: "num_hci_command_packets",
                                position: reader.pos(),
                            },
                        );
                    },
                };
                let command_opcode = match reader.read_u16() {
                    Some(v) => v,
                    None => {
                        return Err(
                            HciParseError::OutOfBounds {
                                field: "command_opcode",
                                position: reader.pos(),
                            },
                        );
                    },
                };
                let return_parameters = match reader.read_u8_slice(packet.len - reader.pos()) {
                    Some(v) => v,
                    None => {
                        return Err(
                            HciParseError::OutOfBounds {
                                field: "return_parameters",
                                position: reader.pos(),
                            },
                        );
                    },
                };
                proof {
                    assert(return_parameters@ =~= packet.parameters@.skip(3));
                }
                Ok(
                    HCIEvent::CommandComplete(
                        CommandCompleteEvent {
                            num_hci_command_packets,
                            command_opcode,
                            return_parameters,
                        },
                    ),
                )
            },
            Some(HCIEventCode::LEMetaEvent) => {
                let sub_evcode = match reader.read_u8() {
                    Some(v) => v,
                    None => {
                        return Err(
                            HciParseError::OutOfBounds {
                                field: "sub_event_code",
                                position: reader.pos(),
                            },
                        );
                    },
                };
                match SubeventCode::from_u8(sub_evcode) {
                    Some(SubeventCode::ConnectionComplete) => {
                        let status = match reader.read_u8() {
                            Some(v) => v,
                            None => {
                                return Err(
                                    HciParseError::OutOfBounds {
                                        field: "status",
                                        position: reader.pos(),
                                    },
                                );
                            },
                        };
                        let connection_handle = match reader.read_u16() {
                            Some(v) => v,
                            None => {
                                return Err(
                                    HciParseError::OutOfBounds {
                                        field: "connection_handle",
                                        position: reader.pos(),
                                    },
                                );
                            },
                        };
                        let role = match reader.read_u8() {
                            Some(v) => v,
                            None => {
                                return Err(
                                    HciParseError::OutOfBounds {
                                        field: "role",
                                        position: reader.pos(),
                                    },
                                );
                            },
                        };
                        let peer_address_type = match reader.read_u8() {
                            Some(v) => v,
                            None => {
                                return Err(
                                    HciParseError::OutOfBounds {
                                        field: "peer_address_type",
                                        position: reader.pos(),
                                    },
                                );
                            },
                        };
                        let peer_address = match reader.read_u8_slice(6) {
                            Some(v) => v,
                            None => {
                                return Err(
                                    HciParseError::OutOfBounds {
                                        field: "peer_address",
                                        position: reader.pos(),
                                    },
                                );
                            },
                        };
                        let connection_interval = match reader.read_u16() {
                            Some(v) => v,
                            None => {
                                return Err(
                                    HciParseError::OutOfBounds {
                                        field: "connection_interval",
                                        position: reader.pos(),
                                    },
                                );
                            },
                        };
                        let peripheral_latency = match reader.read_u16() {
                            Some(v) => v,
                            None => {
                                return Err(
                                    HciParseError::OutOfBounds {
                                        field: "peripheral_latency",
                                        position: reader.pos(),
                                    },
                                );
                            },
                        };
                        let supervision_timeout = match reader.read_u16() {
                            Some(v) => v,
                            None => {
                                return Err(
                                    HciParseError::OutOfBounds {
                                        field: "supervision_timeout",
                                        position: reader.pos(),
                                    },
                                );
                            },
                        };
                        let central_clock_accuracy = match reader.read_u8() {
                            Some(v) => v,
                            None => {
                                return Err(
                                    HciParseError::OutOfBounds {
                                        field: "central_clock_accuracy",
                                        position: reader.pos(),
                                    },
                                );
                            },
                        };
                        Ok(
                            HCIEvent::LEMetaEvent(
                                LEMetaEvent::ConnectionComplete(
                                    ConnectionCompleteEvent {
                                        status,
                                        connection_handle,
                                        role,
                                        peer_address_type,
                                        peer_address,
                                        connection_interval,
                                        peripheral_latency,
                                        supervision_timeout,
                                        central_clock_accuracy,
                                    },
                                ),
                            ),
                        )
                    },
                    Some(SubeventCode::AdvertisingReport) => {
                        let num_reports = match reader.read_u8() {
                            Some(v) => v,
                            None => {
                                return Err(
                                    HciParseError::OutOfBounds {
                                        field: "num_reports",
                                        position: reader.pos(),
                                    },
                                );
                            },
                        };
                        let reports = match reader.read_u8_slice(packet.len - reader.pos()) {
                            Some(v) => v,
                            None => {
                                return Err(
                                    HciParseError::OutOfBounds {
                                        field: "reports",
                                        position: reader.pos(),
                                    },
                                );
                            },
                        };
                        let it = AdvertisingReportIterator {
                            num_reports,
                            reader: Reader::new(reports),
                        };
                        proof {
                            assert(it.reader.rest() =~= packet.parameters@.skip(2));
                        }
                        Ok(HCIEvent::LEMetaEvent(LEMetaEvent::AdvertisingReport(it)))
                    },
                    Some(SubeventCode::ConnectionUpdateComplete) => {
                        let status = match reader.read_u8() {
                            Some(v) => v,
                            None => {
                                return Err(
                                    HciParseError::OutOfBounds {
                                        field: "status",
                                        position: reader.pos(),
                                    },
                                );
                            },
                        };
                        let connection_handle = match reader.read_u16() {
                            Some(v) => v,
                            None => {
                                return Err(
                                    HciParseError::OutOfBounds {
                                        field: "connection_handle",
                                        position: reader.pos(),
                                    },
                                );
                            },
                        };
                        let connection_interval = match reader.read_u16() {
                            Some(v) => v,
                            None => {
                                return Err(
                                    HciParseError::OutOfBounds {
                                        field: "connection_interval",
                                        position: reader.pos(),
                                    },
                                );
                            },
                        };
                        let peripheral_latency = match reader.read_u16() {
                            Some(v) => v,
                            None => {
                                return Err(
                                    HciParseError::OutOfBounds {
                                        field: "peripheral_latency",
                                        position: reader.pos(),
                                    },
                                );
                            },
                        };
                        let supervision_timeout = match reader.read_u16() {
                            Some(v) => v,
                            None => {
                                return Err(
                                    HciParseError::OutOfBounds {
                                        field: "supervision_timeout",
                                        position: reader.pos(),
                                    },
                                );
                            },
                        };
                        Ok(
                            HCIEvent::LEMetaEvent(
                                LEMetaEvent::ConnectionUpdateComplete(
                                    ConnectionUpdateCompleteEvent {
                                        status,
                                        connection_handle,
                                        connection_interval,
                                        peripheral_latency,
                                        supervision_timeout,
                                    },
                                ),
                            ),
                        )
                    },
                    _ => {
                        Err(
                            HciParseError::NotImplemented {
                                evcode: LE_META_EVENT_EVCODE,
                                sub_evcode: Some(sub_evcode),
                            },
                        )
                    },
                }
            },
            None => {
                Err(HciParseError::NotImplemented { evcode: packet.evcode, sub_evcode: None })
            },
        }
    }
}

/// What one step of the advertising report iterator does to the bytes still
/// ahead of its cursor: the report it yields, if any, and how many bytes the
/// step consumes. A record that does not fit whole ends iteration for good:
/// the step yields nothing and consumes every byte still ahead, so every
/// later step yields nothing too.
pub open spec fn adv_report_step(r: Seq<u8>) -> (Option<AdReportModel>, nat) {
    if r.len() == 0 {
        (None, 0)
    } else if !(r.len() >= 9 && r.len() >= 10 + r[8]) {
        (None, r.len())
    } else {
        (
            Some(
                AdReportModel {
                    event_type: r[0],
                    address_type: r[1],
                    address: r.subrange(2, 8),
                    data: r.subrange(9, 9 + r[8]),
                    rssi: as_i8(r[9 + r[8]]),
                },
            ),
            (10 + r[8]) as nat,
        )
    }
}

/// Moves a cursor past every byte it still holds, the way the iterators end
/// iteration after a failed field read.
fn drain(reader: &mut Reader)
    requires
        old(reader).wf(),
    ensures
        final(reader).wf(),
        final(reader).bytes() == old(reader).bytes(),
        final(reader).spec_pos() == old(reader).bytes().len(),
{
    let n = reader.remaining();
    let _ = reader.read_u8_slice(n);
}

impl<'p> AdvertisingReportIterator<'p> {
    /// Decodes the next advertising report. Once the bytes remaining cannot
    /// hold one more whole record it yields nothing and consumes them, so
    /// every later call yields nothing too. The advisory `num_reports` never
    /// bounds iteration and is left untouched.
    pub fn next(&mut self) -> (r: Option<AdvertisingReport<'p>>)
        requires
            old(self).reader.wf(),
        ensures
            final(self).reader.wf(),
            final(self).reader.bytes() == old(self).reader.bytes(),
            final(self).num_reports == old(self).num_reports,
            final(self).reader.spec_pos() == old(self).reader.spec_pos() + adv_report_step(
                old(self).reader.rest(),
            ).1,
            match r {
                Some(rep) => adv_report_step(old(self).reader.rest()).0 == Some(rep@),
                None => adv_report_step(old(self).reader.rest()).0 is None,
            },
    {
        let ghost r0 = self.reader.rest();
        if self.reader.remaining() == 0 {
            return None;
        }
        let event_type = match self.reader.read_u8() {
            Some(v) => v,
            None => {
                drain(&mut self.reader);
                return None;
            },
        };
        let address_type = match self.reader.read_u8() {
            Some(v) => v,
            None => {
                drain(&mut self.reader);
                return None;
            },
        };
        let address = match self.reader.read_u8_slice(6) {
            Some(v) => v,
            None => {
                drain(&mut self.reader);
                return None;
            },
        };
        let data_len = match self.reader.read_u8() {
            Some(v) => v,
            None => {
                drain(&mut self.reader);
                return None;
            },
        };
        let data = match self.reader.read_u8_slice(data_len as usize) {
            Some(v) => v,
            None => {
                drain(&mut self.reader);
                return None;
            },
        };
        let rssi_byte = match self.reader.read_u8() {
            Some(v) => v,
            None => {
                drain(&mut self.reader);
                return None;
            },
        };
        let rep = AdvertisingReport {
            event_type,
            address_type,
            address,
            data: AdvertisingDataIterator { reader: Reader::new(data) },
            rssi: byte_as_i8(rssi_byte),
        };
        proof {
            assert(rep.address@ =~= r0.subrange(2, 8));
            assert(rep.data.reader.rest() =~= r0.subrange(9, 9 + r0[8]));
        }
        Some(rep)
    }
}

/// What one step of the advertising data iterator does to the bytes still
/// ahead of its cursor: the entry it yields, if any, and how many bytes the
/// step consumes. A length byte of zero, a truncated value, an unrecognized
/// type code and a value that does not fit its type all end iteration for
/// good: the step yields nothing and consumes every byte still ahead, so
/// every later step yields nothing too.
pub open spec fn ad_step(r: Seq<u8>) -> (Option<AdDataModel>, nat) {
    if r.len() == 0 {
        (None, 0)
    } else if r.len() < 2 || r[0] == 0 || r.len() < r[0] + 1 {
        (None, r.len())
    } else if decode_ad(r[1], r.subrange(2, r[0] + 1)) is Some {
        (decode_ad(r[1], r.subrange(2, r[0] + 1)), (r[0] + 1) as nat)
    } else {
        (None, r.len())
    }
}

impl<'p> AdvertisingDataIterator<'p> {
    /// Decodes the next advertising data entry. Once the bytes remaining
    /// cannot hold one more whole, recognized entry it yields nothing and
    /// consumes them, so every later call yields nothing too.
    pub fn next(&mut self) -> (r: Option<AdvertisingData<'p>>)
        requires
            old(self).reader.wf(),
        ensures
            final(self).reader.wf(),
            final(self).reader.bytes() == old(self).reader.bytes(),
            final(self).reader.spec_pos() == old(self).reader.spec_pos() + ad_step(
                old(self).reader.rest(),
            ).1,
            match r {
                Some(d) => ad_step(old(self).reader.rest()).0 == Some(d@),
                None => ad_step(old(self).reader.rest()).0 is None,
            },
    {
        let ghost r0 = self.reader.rest();
        if self.reader.remaining() == 0 {
            return None;
        }
        let len_byte = match self.reader.read_u8() {
            Some(v) => v,
            None => {
                drain(&mut self.reader);
                return None;
            },
        };
        let ad_code = match self.reader.read_u8() {
            Some(v) => v,
            None => {
                drain(&mut self.reader);
                return None;
            },
        };
        if len_byte == 0 {
            drain(&mut self.reader);
            return None;
        }
        let value = match self.reader.read_u8_slice(len_byte as usize - 1) {
            Some(v) => v,
            None => {
                drain(&mut self.reader);
                return None;
            },
        };
        proof {
            assert(value@ =~= r0.subrange(2, r0[0] + 1));
        }
        match AdvertisingData::decode(ad_code, value) {
            Some(d) => Some(d),
            None => {
                drain(&mut self.reader);
                None
            },
        }
    }
}

/// Truncated payloads of the handled events and subevents decode to
/// `OutOfBounds`, never to a crash: any payload shorter than the variant's
/// minimum required length yields that error.
pub proof fn lemma_truncated_event_out_of_bounds(evcode: u8, params: Seq<u8>)
    requires
        (evcode == DISCONNECTION_COMPLETE_EVCODE && params.len() < 4) || (evcode
            == COMMAND_COMPLETE_EVCODE && params.len() < 3) || (evcode == LE_META_EVENT_EVCODE
            && params.len() < 1) || (evcode == LE_META_EVENT_EVCODE && params.len() >= 1
            && params[0] == SubeventCode::ConnectionComplete.spec_to_u8() && params.len() < 19) || (
        evcode == LE_META_EVENT_EVCODE && params.len() >= 1 && params[0]
            == SubeventCode::AdvertisingReport.spec_to_u8() && params.len() < 2) || (evcode
            == LE_META_EVENT_EVCODE && params.len() >= 1 && params[0]
            == SubeventCode::ConnectionUpdateComplete.spec_to_u8() && params.len() < 10),
    ensures
        parse_event(evcode, params) matches Err(e) && e is OutOfBounds,
{
}

/// A failed field read ends iteration: a step that yields nothing either
/// found no bytes ahead of the cursor or consumed every byte still ahead,
/// so each later step finds nothing and yields nothing too.
pub proof fn lemma_failed_step_ends_iteration(r: Seq<u8>)
    ensures
        adv_report_step(r).0 is None ==> adv_report_step(r).1 == r.len(),
        ad_step(r).0 is None ==> ad_step(r).1 == r.len(),
{
}

/// A byte block holding exactly `k` whole advertising reports: each record's
/// declared data length fits, and nothing is left over after the `k`th.
pub open spec fn wf_reports(r: Seq<u8>, k: nat) -> bool
    decreases k,
{
    if k == 0 {
        r.len() == 0
    } else {
        r.len() >= 9 && r.len() >= 10 + r[8] && wf_reports(
            r.skip(10 + r[8]),
            (k - 1) as nat,
        )
    }
}

/// How many reports stepping the advertising report iterator over `r` will
/// yield before it first yields nothing.
pub open spec fn reports_yielded(r: Seq<u8>) -> nat
    decreases r.len(),
{
    if adv_report_step(r).0 is Some && 0 < adv_report_step(r).1 <= r.len() {
        (1 + reports_yielded(r.skip(adv_report_step(r).1 as int))) as nat
    } else {
        0
    }
}

/// Over a block of exactly `k` whole advertising reports the iterator
/// yields exactly `k` reports and then stops, whatever the advisory report
/// count of the event claimed: iteration is bounded by the bytes present
/// alone.
pub proof fn lemma_reports_yielded_exactly(r: Seq<u8>, k: nat)
    requires
        wf_reports(r, k),
    ensures
        reports_yielded(r) == k,
    decreases k,
{
    if k == 0 {
    } else {
        lemma_reports_yielded_exactly(r.skip(10 + r[8]), (k - 1) as nat);
    }
}

} // verus!
