//! Advertising Data entries: the type-length-value records carried inside an
//! advertising report. Each entry is tagged by a one-byte type code from the
//! fixed specification-defined set; the value bytes are reinterpreted per
//! type as a scalar, a list of fixed-width service UUIDs, UTF-8 text or an
//! opaque borrowed slice. A code outside the set, or a value that does not
//! fit its type's layout, is a decode failure for the entry.

use vstd::prelude::*;
use vstd::utf8::{decode_utf8, valid_utf8};

use crate::reader::{Reader, U128Slice, U16Slice, U32Slice};
use crate::wire::{as_i8, byte_as_i8, le_u16, le_u16_seq, le_u32, le_u32_seq, le_u128_seq};

verus! {

/// The Advertising Data type codes this decoder understands, one per named
/// entry kind of the specification's assigned numbers.
#[derive(Debug, Clone, Copy, PartialEq, Eq, Structural)]
pub enum AdvertisingDataType {
    Flags,
    IncompleteListOf16BitServiceUUIDs,
    CompleteListOf16BitServiceUUIDs,
    IncompleteListOf32BitServiceUUIDs,
    CompleteListOf32BitServiceUUIDs,
    IncompleteListOf128BitServiceUUIDs,
    CompleteListOf128BitServiceUUIDs,
    ShortenedLocalName,
    CompleteLocalName,
    TxPowerLevel,
    ClassOfDevice,
    PeripheralConnectionIntervalRange,
    ServiceData,
    Appearance,
    LEBluetoothDeviceAddress,
    ManufacturerSpecificData,
}

impl AdvertisingDataType {
    /// The named type for a code byte, or nothing for a code outside the
    /// recognized set. The mapping is injective: one byte names at most one
    /// type.
    pub open spec fn spec_from_u8(v: u8) -> Option<AdvertisingDataType> {
        match v {
            0x01 => Some(AdvertisingDataType::Flags),
            0x02 => Some(AdvertisingDataType::IncompleteListOf16BitServiceUUIDs),
            0x03 => Some(AdvertisingDataType::CompleteListOf16BitServiceUUIDs),
            0x04 => Some(AdvertisingDataType::IncompleteListOf32BitServiceUUIDs),
            0x05 => Some(AdvertisingDataType::CompleteListOf32BitServiceUUIDs),
            0x06 => Some(AdvertisingDataType::IncompleteListOf128BitServiceUUIDs),
            0x07 => Some(AdvertisingDataType::CompleteListOf128BitServiceUUIDs),
            0x08 => Some(AdvertisingDataType::ShortenedLocalName),
            0x09 => Some(AdvertisingDataType::CompleteLocalName),
            0x0A => Some(AdvertisingDataType::TxPowerLevel),
            0x0D => Some(AdvertisingDataType::ClassOfDevice),
            0x12 => Some(AdvertisingDataType::PeripheralConnectionIntervalRange),
            0x16 => Some(AdvertisingDataType::ServiceData),
            0x19 => Some(AdvertisingDataType::Appearance),
            0x1B => Some(AdvertisingDataType::LEBluetoothDeviceAddress),
            0xFF => Some(AdvertisingDataType::ManufacturerSpecificData),
            _ => None,
        }
    }

    /// The code byte of a named type: the exact inverse of the lookup.
    pub open spec fn spec_to_u8(self) -> u8 {
        match self {
            AdvertisingDataType::Flags => 0x01,
            AdvertisingDataType::IncompleteListOf16BitServiceUUIDs => 0x02,
            AdvertisingDataType::CompleteListOf16BitServiceUUIDs => 0x03,
            AdvertisingDataType::IncompleteListOf32BitServiceUUIDs => 0x04,
            AdvertisingDataType::CompleteListOf32BitServiceUUIDs => 0x05,
            AdvertisingDataType::IncompleteListOf128BitServiceUUIDs => 0x06,
            AdvertisingDataType::CompleteListOf128BitServiceUUIDs => 0x07,
            AdvertisingDataType::ShortenedLocalName => 0x08,
            AdvertisingDataType::CompleteLocalName => 0x09,
            AdvertisingDataType::TxPowerLevel => 0x0A,
            AdvertisingDataType::ClassOfDevice => 0x0D,
            AdvertisingDataType::PeripheralConnectionIntervalRange => 0x12,
            AdvertisingDataType::ServiceData => 0x16,
            AdvertisingDataType::Appearance => 0x19,
            AdvertisingDataType::LEBluetoothDeviceAddress => 0x1B,
            AdvertisingDataType::ManufacturerSpecificData => 0xFF,
        }
    }

    /// Looks a code byte up in the type table.
    pub fn from_u8(v: u8) -> (r: Option<AdvertisingDataType>)
        ensures
            r == AdvertisingDataType::spec_from_u8(v),
    {
        match v {
            0x01 => Some(AdvertisingDataType::Flags),
            0x02 => Some(AdvertisingDataType::IncompleteListOf16BitServiceUUIDs),
            0x03 => Some(AdvertisingDataType::CompleteListOf16BitServiceUUIDs),
            0x04 => Some(AdvertisingDataType::IncompleteListOf32BitServiceUUIDs),
            0x05 => Some(AdvertisingDataType::CompleteListOf32BitServiceUUIDs),
            0x06 => Some(AdvertisingDataType::IncompleteListOf128BitServiceUUIDs),
            0x07 => Some(AdvertisingDataType::CompleteListOf128BitServiceUUIDs),
            0x08 => Some(AdvertisingDataType::ShortenedLocalName),
            0x09 => Some(AdvertisingDataType::CompleteLocalName),
            0x0A => Some(AdvertisingDataType::TxPowerLevel),
            0x0D => Some(AdvertisingDataType::ClassOfDevice),
            0x12 => Some(AdvertisingDataType::PeripheralConnectionIntervalRange),
            0x16 => Some(AdvertisingDataType::ServiceData),
            0x19 => Some(AdvertisingDataType::Appearance),
            0x1B => Some(AdvertisingDataType::LEBluetoothDeviceAddress),
            0xFF => Some(AdvertisingDataType::ManufacturerSpecificData),
            _ => None,
        }
    }

    /// The code byte of a named type.
    pub fn to_u8(self) -> (r: u8)
        ensures
            r == self.spec_to_u8(),
    {
        match self {
            AdvertisingDataType::Flags => 0x01,
            AdvertisingDataType::IncompleteListOf16BitServiceUUIDs => 0x02,
            AdvertisingDataType::CompleteListOf16BitServiceUUIDs => 0x03,
            AdvertisingDataType::IncompleteListOf32BitServiceUUIDs => 0x04,
            AdvertisingDataType::CompleteListOf32BitServiceUUIDs => 0x05,
            AdvertisingDataType::IncompleteListOf128BitServiceUUIDs => 0x06,
            AdvertisingDataType::CompleteListOf128BitServiceUUIDs => 0x07,
            AdvertisingDataType::ShortenedLocalName => 0x08,
            AdvertisingDataType::CompleteLocalName => 0x09,
            AdvertisingDataType::TxPowerLevel => 0x0A,
            AdvertisingDataType::ClassOfDevice => 0x0D,
            AdvertisingDataType::PeripheralConnectionIntervalRange => 0x12,
            AdvertisingDataType::ServiceData => 0x16,
            AdvertisingDataType::Appearance => 0x19,
            AdvertisingDataType::LEBluetoothDeviceAddress => 0x1B,
            AdvertisingDataType::ManufacturerSpecificData => 0xFF,
        }
    }
}

/// The code-to-type lookup and the type-to-code table are exact inverses:
/// decoding a named type's own code gives that type back, and a byte that
/// the lookup names always maps back to itself.
pub proof fn lemma_advertising_data_type_round_trip(t: AdvertisingDataType, v: u8)
    ensures
        AdvertisingDataType::spec_from_u8(t.spec_to_u8()) == Some(t),
        AdvertisingDataType::spec_from_u8(v) matches Some(u) ==> u.spec_to_u8() == v,
{
}

/// One decoded Advertising Data entry. Slices and text borrow from the
/// buffer the entry was decoded out of.
#[derive(Debug)]
pub enum AdvertisingData<'p> {
    Flags(u8),
    IncompleteListOf16BitServiceUUIDs(U16Slice<'p>),
    CompleteListOf16BitServiceUUIDs(U16Slice<'p>),
    IncompleteListOf32BitServiceUUIDs(U32Slice<'p>),
    CompleteListOf32BitServiceUUIDs(U32Slice<'p>),
    IncompleteListOf128BitServiceUUIDs(U128Slice<'p>),
    CompleteListOf128BitServiceUUIDs(U128Slice<'p>),
    ShortenedLocalName(&'p str),
    CompleteLocalName(&'p str),
    TxPowerLevel(i8),
    ClassOfDevice(u32),
    PeripheralConnectionIntervalRange(&'p [u8]),
    ServiceData(&'p [u8]),
    Appearance(u16),
    LEBluetoothDeviceAddress(&'p [u8]),
    ManufacturerSpecificData(&'p [u8]),
}

/// The mathematical value of a decoded entry.
pub enum AdDataModel {
    Flags(u8),
    IncompleteListOf16BitServiceUUIDs(Seq<u16>),
    CompleteListOf16BitServiceUUIDs(Seq<u16>),
    IncompleteListOf32BitServiceUUIDs(Seq<u32>),
    CompleteListOf32BitServiceUUIDs(Seq<u32>),
    IncompleteListOf128BitServiceUUIDs(Seq<u128>),
    CompleteListOf128BitServiceUUIDs(Seq<u128>),
    ShortenedLocalName(Seq<char>),
    CompleteLocalName(Seq<char>),
    TxPowerLevel(i8),
    ClassOfDevice(u32),
    PeripheralConnectionIntervalRange(Seq<u8>),
    ServiceData(Seq<u8>),
    Appearance(u16),
    LEBluetoothDeviceAddress(Seq<u8>),
    ManufacturerSpecificData(Seq<u8>),
}

impl<'p> View for AdvertisingData<'p> {
    type V = AdDataModel;

    open spec fn view(&self) -> AdDataModel {
        match self {
            AdvertisingData::Flags(v) => AdDataModel::Flags(*v),
            AdvertisingData::IncompleteListOf16BitServiceUUIDs(
                v,
            ) => AdDataModel::IncompleteListOf16BitServiceUUIDs(v@),
            AdvertisingData::CompleteListOf16BitServiceUUIDs(
                v,
            ) => AdDataModel::CompleteListOf16BitServiceUUIDs(v@),
            AdvertisingData::IncompleteListOf32BitServiceUUIDs(
                v,
            ) => AdDataModel::IncompleteListOf32BitServiceUUIDs(v@),
            AdvertisingData::CompleteListOf32BitServiceUUIDs(
                v,
            ) => AdDataModel::CompleteListOf32BitServiceUUIDs(v@),
            AdvertisingData::IncompleteListOf128BitServiceUUIDs(
                v,
            ) => AdDataModel::IncompleteListOf128BitServiceUUIDs(v@),
            AdvertisingData::CompleteListOf128BitServiceUUIDs(
                v,
            ) => AdDataModel::CompleteListOf128BitServiceUUIDs(v@),
            AdvertisingData::ShortenedLocalName(v) => AdDataModel::ShortenedLocalName(v@),
            AdvertisingData::CompleteLocalName(v) => AdDataModel::CompleteLocalName(v@),
            AdvertisingData::TxPowerLevel(v) => AdDataModel::TxPowerLevel(*v),
            AdvertisingData::ClassOfDevice(v) => AdDataModel::ClassOfDevice(*v),
            AdvertisingData::PeripheralConnectionIntervalRange(
                v,
            ) => AdDataModel::PeripheralConnectionIntervalRange(v@),
            AdvertisingData::ServiceData(v) => AdDataModel::ServiceData(v@),
            AdvertisingData::Appearance(v) => AdDataModel::Appearance(*v),
            AdvertisingData::LEBluetoothDeviceAddress(
                v,
            ) => AdDataModel::LEBluetoothDeviceAddress(v@),
            AdvertisingData::ManufacturerSpecificData(
                v,
            ) => AdDataModel::ManufacturerSpecificData(v@),
        }
    }
}

/// What decoding the value bytes of an entry with type code `code` yields:
/// the typed entry where the value fits the type's layout, nothing where it
/// does not or where the code is outside the recognized set.
pub open spec fn decode_ad(code: u8, value: Seq<u8>) -> Option<AdDataModel> {
    match AdvertisingDataType::spec_from_u8(code) {
        None => None,
        Some(t) => match t {
            AdvertisingDataType::Flags => if value.len() >= 1 {
                Some(AdDataModel::Flags(value[0]))
            } else {
                None
            },
            AdvertisingDataType::IncompleteListOf16BitServiceUUIDs => if value.len() % 2 == 0 {
                Some(AdDataModel::IncompleteListOf16BitServiceUUIDs(le_u16_seq(value)))
            } else {
                None
            },
            AdvertisingDataType::CompleteListOf16BitServiceUUIDs => if value.len() % 2 == 0 {
                Some(AdDataModel::CompleteListOf16BitServiceUUIDs(le_u16_seq(value)))
            } else {
                None
            },
            AdvertisingDataType::IncompleteListOf32BitServiceUUIDs => if value.len() % 4 == 0 {
                Some(AdDataModel::IncompleteListOf32BitServiceUUIDs(le_u32_seq(value)))
            } else {
                None
            },
            AdvertisingDataType::CompleteListOf32BitServiceUUIDs => if value.len() % 4 == 0 {
                Some(AdDataModel::CompleteListOf32BitServiceUUIDs(le_u32_seq(value)))
            } else {
                None
            },
            AdvertisingDataType::IncompleteListOf128BitServiceUUIDs => if value.len() % 16 == 0 {
                Some(AdDataModel::IncompleteListOf128BitServiceUUIDs(le_u128_seq(value)))
            } else {
                None
            },
            AdvertisingDataType::CompleteListOf128BitServiceUUIDs => if value.len() % 16 == 0 {
                Some(AdDataModel::CompleteListOf128BitServiceUUIDs(le_u128_seq(value)))
            } else {
                None
            },
            AdvertisingDataType::ShortenedLocalName => if valid_utf8(value) {
                Some(AdDataModel::ShortenedLocalName(decode_utf8(value)))
            } else {
                None
            },
            AdvertisingDataType::CompleteLocalName => if valid_utf8(value) {
                Some(AdDataModel::CompleteLocalName(decode_utf8(value)))
            } else {
                None
            },
            AdvertisingDataType::TxPowerLevel => if value.len() >= 1 {
                Some(AdDataModel::TxPowerLevel(as_i8(value[0])))
            } else {
                None
            },
            AdvertisingDataType::ClassOfDevice => if value.len() >= 4 {
                Some(AdDataModel::ClassOfDevice(le_u32(value.subrange(0, 4))))
            } else {
                None
            },
            AdvertisingDataType::PeripheralConnectionIntervalRange => Some(
                AdDataModel::PeripheralConnectionIntervalRange(value),
            ),
            AdvertisingDataType::ServiceData => Some(AdDataModel::ServiceData(value)),
            AdvertisingDataType::Appearance => if value.len() >= 2 {
                Some(AdDataModel::Appearance(le_u16(value.subrange(0, 2))))
            } else {
                None
            },
            AdvertisingDataType::LEBluetoothDeviceAddress => Some(
                AdDataModel::LEBluetoothDeviceAddress(value),
            ),
            AdvertisingDataType::ManufacturerSpecificData => Some(
                AdDataModel::ManufacturerSpecificData(value),
            ),
        },
    }
}

/// Relies on `core::str::from_utf8`: it succeeds exactly on valid UTF-8 and
/// hands back the decoded text of those bytes.
#[verifier::external_body]
fn utf8_from(bytes: &[u8]) -> (r: Option<&str>)
    ensures
        match r {
            Some(s) => valid_utf8(bytes@) && s@ == decode_utf8(bytes@),
            None => !valid_utf8(bytes@),
        },
{
    core::str::from_utf8(bytes).ok()
}

impl<'p> AdvertisingData<'p> {
    /// Decodes the value bytes of one entry according to its type code.
    pub fn decode(code: u8, value: &'p [u8]) -> (r: Option<AdvertisingData<'p>>)
        ensures
            match r {
                Some(d) => decode_ad(code, value@) == Some(d@),
                None => decode_ad(code, value@) is None,
            },
    {
        let t = match AdvertisingDataType::from_u8(code) {
            Some(t) => t,
            None => {
                return None;
            },
        };
        let n = value.len();
        match t {
            AdvertisingDataType::Flags => {
                let mut rd = Reader::new(value);
                match rd.read_u8() {
                    Some(b) => Some(AdvertisingData::Flags(b)),
                    None => None,
                }
            },
            AdvertisingDataType::IncompleteListOf16BitServiceUUIDs => {
                let mut rd = Reader::new(value);
                match rd.read_u16_slice(n) {
                    Some(v) => {
                        proof {
                            assert(value@.subrange(0, n as int) =~= value@);
                        }
                        Some(AdvertisingData::IncompleteListOf16BitServiceUUIDs(v))
                    },
                    None => None,
                }
            },
            AdvertisingDataType::CompleteListOf16BitServiceUUIDs => {
                let mut rd = Reader::new(value);
                match rd.read_u16_slice(n) {
                    Some(v) => {
                        proof {
                            assert(value@.subrange(0, n as int) =~= value@);
                        }
                        Some(AdvertisingData::CompleteListOf16BitServiceUUIDs(v))
                    },
                    None => None,
                }
            },
            AdvertisingDataType::IncompleteListOf32BitServiceUUIDs => {
                let mut rd = Reader::new(value);
                match rd.read_u32_slice(n) {
                    Some(v) => {
                        proof {
                            assert(value@.subrange(0, n as int) =~= value@);
                        }
                        Some(AdvertisingData::IncompleteListOf32BitServiceUUIDs(v))
                    },
                    None => None,
                }
            },
            AdvertisingDataType::CompleteListOf32BitServiceUUIDs => {
                let mut rd = Reader::new(value);
                match rd.read_u32_slice(n) {
                    Some(v) => {
                        proof {
                            assert(value@.subrange(0, n as int) =~= value@);
                        }
                        Some(AdvertisingData::CompleteListOf32BitServiceUUIDs(v))
                    },
                    None => None,
                }
            },
            AdvertisingDataType::IncompleteListOf128BitServiceUUIDs => {
                let mut rd = Reader::new(value);
                match rd.read_u128_slice(n) {
                    Some(v) => {
                        proof {
                            assert(value@.subrange(0, n as int) =~= value@);
                        }
                        Some(AdvertisingData::IncompleteListOf128BitServiceUUIDs(v))
                    },
                    None => None,
                }
            },
            AdvertisingDataType::CompleteListOf128BitServiceUUIDs => {
                let mut rd = Reader::new(value);
                match rd.read_u128_slice(n) {
                    Some(v) => {
                        proof {
                            assert(value@.subrange(0, n as int) =~= value@);
                        }
                        Some(AdvertisingData::CompleteListOf128BitServiceUUIDs(v))
                    },
                    None => None,
                }
            },
            AdvertisingDataType::ShortenedLocalName => {
                match utf8_from(value) {
                    Some(s) => Some(AdvertisingData::ShortenedLocalName(s)),
                    None => None,
                }
            },
            AdvertisingDataType::CompleteLocalName => {
                match utf8_from(value) {
                    Some(s) => Some(AdvertisingData::CompleteLocalName(s)),
                    None => None,
                }
            },
            AdvertisingDataType::TxPowerLevel => {
                let mut rd = Reader::new(value);
                match rd.read_u8() {
                    Some(b) => Some(AdvertisingData::TxPowerLevel(byte_as_i8(b))),
                    None => None,
                }
            },
            AdvertisingDataType::ClassOfDevice => {
                let mut rd = Reader::new(value);
                match rd.read_u32() {
                    Some(v) => Some(AdvertisingData::ClassOfDevice(v)),
                    None => None,
                }
            },
            AdvertisingDataType::PeripheralConnectionIntervalRange => Some(
                AdvertisingData::PeripheralConnectionIntervalRange(value),
            ),
            AdvertisingDataType::ServiceData => Some(AdvertisingData::ServiceData(value)),
            AdvertisingDataType::Appearance => {
                let mut rd = Reader::new(value);
                match rd.read_u16() {
                    Some(v) => Some(AdvertisingData::Appearance(v)),
                    None => None,
                }
            },
            AdvertisingDataType::LEBluetoothDeviceAddress => Some(
                AdvertisingData::LEBluetoothDeviceAddress(value),
            ),
            AdvertisingDataType::ManufacturerSpecificData => Some(
                AdvertisingData::ManufacturerSpecificData(value),
            ),
        }
    }
}

} // verus!
