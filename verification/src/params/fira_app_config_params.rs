//! The FiRa ranging-configuration record: a fixed, strongly typed set of
//! parameters, each of which renders itself into exactly one configuration
//! TLV, plus the validating builder that is the only way to obtain a record.
//!
//! Validation happens at build time only; rendering is total over every value
//! a builder can hand out.

use vstd::prelude::*;

use crate::params::uci_packets::{
    diff_config_entries, tlvs_view, updated_entries_spec, AppConfigTlv, AppConfigTlvType, TlvModel,
};
use crate::params::utils::{array_to_vec, one_byte, u16_le, u16_le_spec, u32_le, u32_le_spec};

verus! {

/// Whether this device controls the ranging round.
#[derive(Clone, Copy, Debug, PartialEq, Eq, Structural)]
pub enum DeviceType {
    Controlee,
    Controller,
}

impl DeviceType {
    /// The fixed wire identifier of each value.
    pub open spec fn wire_code_spec(self) -> u8 {
        match self {
            DeviceType::Controlee => 0x00,
            DeviceType::Controller => 0x01,
        }
    }

    /// Executable counterpart of [`Self::wire_code_spec`].
    pub fn wire_code(self) -> (r: u8)
        ensures
            r == self.wire_code_spec(),
    {
        match self {
            DeviceType::Controlee => 0x00,
            DeviceType::Controller => 0x01,
        }
    }
}

/// The two-way-ranging flavour of a ranging round.
#[derive(Clone, Copy, Debug, PartialEq, Eq, Structural)]
pub enum RangingRoundUsage {
    SsTwr,
    DsTwr,
    SsTwrNon,
    DsTwrNon,
}

impl RangingRoundUsage {
    /// The fixed wire identifier of each value.
    pub open spec fn wire_code_spec(self) -> u8 {
        match self {
            RangingRoundUsage::SsTwr => 0x01,
            RangingRoundUsage::DsTwr => 0x02,
            RangingRoundUsage::SsTwrNon => 0x03,
            RangingRoundUsage::DsTwrNon => 0x04,
        }
    }

    /// Executable counterpart of [`Self::wire_code_spec`].
    pub fn wire_code(self) -> (r: u8)
        ensures
            r == self.wire_code_spec(),
    {
        match self {
            RangingRoundUsage::SsTwr => 0x01,
            RangingRoundUsage::DsTwr => 0x02,
            RangingRoundUsage::SsTwrNon => 0x03,
            RangingRoundUsage::DsTwrNon => 0x04,
        }
    }
}

/// How the scrambled timestamp sequence is keyed.
#[derive(Clone, Copy, Debug, PartialEq, Eq, Structural)]
pub enum StsConfig {
    Static,
    Dynamic,
    DynamicForControleeIndividualKey,
}

impl StsConfig {
    /// The fixed wire identifier of each value.
    pub open spec fn wire_code_spec(self) -> u8 {
        match self {
            StsConfig::Static => 0x00,
            StsConfig::Dynamic => 0x01,
            StsConfig::DynamicForControleeIndividualKey => 0x02,
        }
    }

    /// Executable counterpart of [`Self::wire_code_spec`].
    pub fn wire_code(self) -> (r: u8)
        ensures
            r == self.wire_code_spec(),
    {
        match self {
            StsConfig::Static => 0x00,
            StsConfig::Dynamic => 0x01,
            StsConfig::DynamicForControleeIndividualKey => 0x02,
        }
    }
}

/// How many devices take part in one session.
#[derive(Clone, Copy, Debug, PartialEq, Eq, Structural)]
pub enum MultiNodeMode {
    Unicast,
    OneToMany,
    ManyToMany,
}

impl MultiNodeMode {
    /// The fixed wire identifier of each value.
    pub open spec fn wire_code_spec(self) -> u8 {
        match self {
            MultiNodeMode::Unicast => 0x00,
            MultiNodeMode::OneToMany => 0x01,
            MultiNodeMode::ManyToMany => 0x02,
        }
    }

    /// Executable counterpart of [`Self::wire_code_spec`].
    pub fn wire_code(self) -> (r: u8)
        ensures
            r == self.wire_code_spec(),
    {
        match self {
            MultiNodeMode::Unicast => 0x00,
            MultiNodeMode::OneToMany => 0x01,
            MultiNodeMode::ManyToMany => 0x02,
        }
    }
}

/// The UWB channel the session ranges on.
#[derive(Clone, Copy, Debug, PartialEq, Eq, Structural)]
pub enum UwbChannel {
    Channel5,
    Channel6,
    Channel8,
    Channel9,
    Channel10,
    Channel12,
    Channel13,
    Channel14,
}

impl UwbChannel {
    /// The fixed wire identifier of each value.
    pub open spec fn wire_code_spec(self) -> u8 {
        match self {
            UwbChannel::Channel5 => 5,
            UwbChannel::Channel6 => 6,
            UwbChannel::Channel8 => 8,
            UwbChannel::Channel9 => 9,
            UwbChannel::Channel10 => 10,
            UwbChannel::Channel12 => 12,
            UwbChannel::Channel13 => 13,
            UwbChannel::Channel14 => 14,
        }
    }

    /// Executable counterpart of [`Self::wire_code_spec`].
    pub fn wire_code(self) -> (r: u8)
        ensures
            r == self.wire_code_spec(),
    {
        match self {
            UwbChannel::Channel5 => 5,
            UwbChannel::Channel6 => 6,
            UwbChannel::Channel8 => 8,
            UwbChannel::Channel9 => 9,
            UwbChannel::Channel10 => 10,
            UwbChannel::Channel12 => 12,
            UwbChannel::Channel13 => 13,
            UwbChannel::Channel14 => 14,
        }
    }
}

/// The frame check sequence length of MAC frames.
#[derive(Clone, Copy, Debug, PartialEq, Eq, Structural)]
pub enum MacFcsType {
    Crc16,
    Crc32,
}

impl MacFcsType {
    /// The fixed wire identifier of each value.
    pub open spec fn wire_code_spec(self) -> u8 {
        match self {
            MacFcsType::Crc16 => 0x00,
            MacFcsType::Crc32 => 0x01,
        }
    }

    /// Executable counterpart of [`Self::wire_code_spec`].
    pub fn wire_code(self) -> (r: u8)
        ensures
            r == self.wire_code_spec(),
    {
        match self {
            MacFcsType::Crc16 => 0x00,
            MacFcsType::Crc32 => 0x01,
        }
    }
}

/// Which angle-of-arrival results the caller asks for.
#[derive(Clone, Copy, Debug, PartialEq, Eq, Structural)]
pub enum AoaResultRequest {
    NoAoaReport,
    ReqAoaResults,
    ReqAoaResultsAzimuthOnly,
    ReqAoaResultsElevationOnly,
    ReqAoaResultsInterleaved,
}

impl AoaResultRequest {
    /// The fixed wire identifier of each value.
    pub open spec fn wire_code_spec(self) -> u8 {
        match self {
            AoaResultRequest::NoAoaReport => 0x00,
            AoaResultRequest::ReqAoaResults => 0x01,
            AoaResultRequest::ReqAoaResultsAzimuthOnly => 0x02,
            AoaResultRequest::ReqAoaResultsElevationOnly => 0x03,
            AoaResultRequest::ReqAoaResultsInterleaved => 0xF0,
        }
    }

    /// Executable counterpart of [`Self::wire_code_spec`].
    pub fn wire_code(self) -> (r: u8)
        ensures
            r == self.wire_code_spec(),
    {
        match self {
            AoaResultRequest::NoAoaReport => 0x00,
            AoaResultRequest::ReqAoaResults => 0x01,
            AoaResultRequest::ReqAoaResultsAzimuthOnly => 0x02,
            AoaResultRequest::ReqAoaResultsElevationOnly => 0x03,
            AoaResultRequest::ReqAoaResultsInterleaved => 0xF0,
        }
    }
}

/// When the radio reports range-data notifications.
#[derive(Clone, Copy, Debug, PartialEq, Eq, Structural)]
pub enum RangeDataNtfConfig {
    Disable,
    Enable,
    EnableProximity,
}

impl RangeDataNtfConfig {
    /// The fixed wire identifier of each value.
    pub open spec fn wire_code_spec(self) -> u8 {
        match self {
            RangeDataNtfConfig::Disable => 0x00,
            RangeDataNtfConfig::Enable => 0x01,
            RangeDataNtfConfig::EnableProximity => 0x02,
        }
    }

    /// Executable counterpart of [`Self::wire_code_spec`].
    pub fn wire_code(self) -> (r: u8)
        ensures
            r == self.wire_code_spec(),
    {
        match self {
            RangeDataNtfConfig::Disable => 0x00,
            RangeDataNtfConfig::Enable => 0x01,
            RangeDataNtfConfig::EnableProximity => 0x02,
        }
    }
}

/// Whether this device initiates or responds within a ranging round.
#[derive(Clone, Copy, Debug, PartialEq, Eq, Structural)]
pub enum DeviceRole {
    Responder,
    Initiator,
}

impl DeviceRole {
    /// The fixed wire identifier of each value.
    pub open spec fn wire_code_spec(self) -> u8 {
        match self {
            DeviceRole::Responder => 0x00,
            DeviceRole::Initiator => 0x01,
        }
    }

    /// Executable counterpart of [`Self::wire_code_spec`].
    pub fn wire_code(self) -> (r: u8)
        ensures
            r == self.wire_code_spec(),
    {
        match self {
            DeviceRole::Responder => 0x00,
            DeviceRole::Initiator => 0x01,
        }
    }
}

/// The ranging frame configuration (which packets carry an STS).
#[derive(Clone, Copy, Debug, PartialEq, Eq, Structural)]
pub enum RframeConfig {
    SP0,
    SP1,
    SP3,
}

impl RframeConfig {
    /// The fixed wire identifier of each value.
    pub open spec fn wire_code_spec(self) -> u8 {
        match self {
            RframeConfig::SP0 => 0x00,
            RframeConfig::SP1 => 0x01,
            RframeConfig::SP3 => 0x03,
        }
    }

    /// Executable counterpart of [`Self::wire_code_spec`].
    pub fn wire_code(self) -> (r: u8)
        ensures
            r == self.wire_code_spec(),
    {
        match self {
            RframeConfig::SP0 => 0x00,
            RframeConfig::SP1 => 0x01,
            RframeConfig::SP3 => 0x03,
        }
    }
}

/// The MAC addressing mode of the session.
///
/// The eight-byte-with-two-byte-header mode still addresses peers by their
/// two-byte short address on the wire.
#[derive(Clone, Copy, Debug, PartialEq, Eq, Structural)]
pub enum MacAddressMode {
    MacAddress2Bytes,
    MacAddress8Bytes2BytesHeader,
    MacAddress8Bytes,
}

impl MacAddressMode {
    /// The fixed wire identifier of each value.
    pub open spec fn wire_code_spec(self) -> u8 {
        match self {
            MacAddressMode::MacAddress2Bytes => 0x00,
            MacAddressMode::MacAddress8Bytes2BytesHeader => 0x01,
            MacAddressMode::MacAddress8Bytes => 0x02,
        }
    }

    /// Executable counterpart of [`Self::wire_code_spec`].
    pub fn wire_code(self) -> (r: u8)
        ensures
            r == self.wire_code_spec(),
    {
        match self {
            MacAddressMode::MacAddress2Bytes => 0x00,
            MacAddressMode::MacAddress8Bytes2BytesHeader => 0x01,
            MacAddressMode::MacAddress8Bytes => 0x02,
        }
    }
}

/// Whether the session hops channels between ranging rounds.
#[derive(Clone, Copy, Debug, PartialEq, Eq, Structural)]
pub enum HoppingMode {
    Disable,
    FiraHoppingEnable,
}

impl HoppingMode {
    /// The fixed wire identifier of each value.
    pub open spec fn wire_code_spec(self) -> u8 {
        match self {
            HoppingMode::Disable => 0x00,
            HoppingMode::FiraHoppingEnable => 0x01,
        }
    }

    /// Executable counterpart of [`Self::wire_code_spec`].
    pub fn wire_code(self) -> (r: u8)
        ensures
            r == self.wire_code_spec(),
    {
        match self {
            HoppingMode::Disable => 0x00,
            HoppingMode::FiraHoppingEnable => 0x01,
        }
    }
}

/// A peer device address, two bytes short form or eight bytes extended form.
#[derive(Clone, Copy, Debug, PartialEq, Eq)]
pub enum UwbAddress {
    Short([u8; 2]),
    Extended([u8; 8]),
}

impl UwbAddress {
    /// The raw bytes of the address.
    pub open spec fn bytes_spec(self) -> Seq<u8> {
        match self {
            UwbAddress::Short(a) => a@,
            UwbAddress::Extended(a) => a@,
        }
    }

    /// Renders the address into a freshly allocated vector.
    pub fn to_bytes(&self) -> (r: Vec<u8>)
        ensures
            r@ == self.bytes_spec(),
    {
        match self {
            UwbAddress::Short(a) => array_to_vec::<2>(a),
            UwbAddress::Extended(a) => array_to_vec::<8>(a),
        }
    }
}

/// The flat concatenation of the byte renderings of a list of addresses.
pub open spec fn addresses_bytes_spec(s: Seq<UwbAddress>) -> Seq<u8>
    decreases s.len(),
{
    if s.len() == 0 {
        Seq::empty()
    } else {
        addresses_bytes_spec(s.drop_last()) + s.last().bytes_spec()
    }
}

/// Renders a list of addresses as one flat byte string.
pub fn addresses_bytes(list: &Vec<UwbAddress>) -> (r: Vec<u8>)
    ensures
        r@ == addresses_bytes_spec(list@),
{
    let mut r: Vec<u8> = Vec::new();
    let mut i: usize = 0;
    while i < list.len()
        invariant
            i <= list.len(),
            r@ == addresses_bytes_spec(list@.take(i as int)),
        decreases list.len() - i,
    {
        let mut b = list[i].to_bytes();
        r.append(&mut b);
        proof {
            assert(list@.take(i + 1).drop_last() =~= list@.take(i as int));
            assert(list@.take(i + 1).last() == list@[i as int]);
        }
        i = i + 1;
    }
    proof {
        assert(list@.take(list@.len() as int) =~= list@);
    }
    r
}

/// The three flags of the ranging-round-control TLV.
#[derive(Clone, Copy, Debug, PartialEq, Eq, Structural)]
pub struct RangingRoundControl {
    pub ranging_result_report_message: bool,
    pub control_message: bool,
    pub measurement_report_message: bool,
}

impl RangingRoundControl {
    /// The bitfield byte: flags at bits 0, 1 and 7.
    pub open spec fn as_byte_spec(self) -> u8 {
        ((if self.ranging_result_report_message {
            1int
        } else {
            0int
        }) + (if self.control_message {
            2int
        } else {
            0int
        }) + (if self.measurement_report_message {
            128int
        } else {
            0int
        })) as u8
    }

    /// Executable counterpart of [`Self::as_byte_spec`].
    pub fn as_byte(self) -> (r: u8)
        ensures
            r == self.as_byte_spec(),
    {
        let mut r: u8 = 0;
        if self.ranging_result_report_message {
            r = r + 1;
        }
        if self.control_message {
            r = r + 2;
        }
        if self.measurement_report_message {
            r = r + 128;
        }
        r
    }
}

/// The four flags of the result-report-config TLV.
#[derive(Clone, Copy, Debug, PartialEq, Eq, Structural)]
pub struct ResultReportConfig {
    pub tof: bool,
    pub aoa_azimuth: bool,
    pub aoa_elevation: bool,
    pub aoa_fom: bool,
}

impl ResultReportConfig {
    /// The bitfield byte: flags at bits 0 through 3.
    pub open spec fn as_byte_spec(self) -> u8 {
        ((if self.tof {
            1int
        } else {
            0int
        }) + (if self.aoa_azimuth {
            2int
        } else {
            0int
        }) + (if self.aoa_elevation {
            4int
        } else {
            0int
        }) + (if self.aoa_fom {
            8int
        } else {
            0int
        })) as u8
    }

    /// Executable counterpart of [`Self::as_byte_spec`].
    pub fn as_byte(self) -> (r: u8)
        ensures
            r == self.as_byte_spec(),
    {
        let mut r: u8 = 0;
        if self.tof {
            r = r + 1;
        }
        if self.aoa_azimuth {
            r = r + 2;
        }
        if self.aoa_elevation {
            r = r + 4;
        }
        if self.aoa_fom {
            r = r + 8;
        }
        r
    }
}


/// The FiRa configuration record.
///
/// A value is only obtainable through [`FiraAppConfigParamsBuilder`], which
/// validates every range and consistency rule; rendering is total over every
/// value that passed construction.
#[derive(Clone, Debug, PartialEq, Eq)]
pub struct FiraAppConfigParams {
    pub device_type: DeviceType,
    pub ranging_round_usage: RangingRoundUsage,
    pub sts_config: StsConfig,
    pub multi_node_mode: MultiNodeMode,
    pub channel_number: UwbChannel,
    pub device_mac_address: UwbAddress,
    pub dst_mac_address: Vec<UwbAddress>,
    pub slot_duration_rstu: u16,
    pub ranging_interval_ms: u32,
    pub mac_fcs_type: MacFcsType,
    pub ranging_round_control: RangingRoundControl,
    pub aoa_result_request: AoaResultRequest,
    pub range_data_ntf_config: RangeDataNtfConfig,
    pub range_data_ntf_proximity_near_cm: u16,
    pub range_data_ntf_proximity_far_cm: u16,
    pub device_role: DeviceRole,
    pub rframe_config: RframeConfig,
    pub preamble_code_index: u8,
    pub sfd_id: u8,
    pub session_priority: u8,
    pub mac_address_mode: MacAddressMode,
    pub vendor_id: [u8; 2],
    pub static_sts_iv: [u8; 6],
    pub sub_session_id: u32,
    pub result_report_config: ResultReportConfig,
    pub hopping_mode: HoppingMode,
    pub in_band_termination_attempt_count: u8,
    pub max_rr_retry: u16,
    pub uwb_initiation_time_ms: u32,
    pub block_stride_length: u8,
}

/// Whether an address has the width that the addressing mode prescribes.
pub open spec fn address_mode_consistent(mode: MacAddressMode, a: UwbAddress) -> bool {
    match mode {
        MacAddressMode::MacAddress2Bytes => a is Short,
        MacAddressMode::MacAddress8Bytes2BytesHeader => a is Short,
        MacAddressMode::MacAddress8Bytes => a is Extended,
    }
}

impl FiraAppConfigParams {
    /// The number of fields of the record; one TLV is rendered per field.
    pub open spec fn field_count() -> int {
        30
    }

    /// The fixed tag of each field, in rendering order.
    pub open spec fn tags() -> Seq<AppConfigTlvType> {
        seq![
            AppConfigTlvType::DeviceType,
            AppConfigTlvType::RangingRoundUsage,
            AppConfigTlvType::StsConfig,
            AppConfigTlvType::MultiNodeMode,
            AppConfigTlvType::ChannelNumber,
            AppConfigTlvType::DeviceMacAddress,
            AppConfigTlvType::DstMacAddress,
            AppConfigTlvType::SlotDuration,
            AppConfigTlvType::RangingInterval,
            AppConfigTlvType::MacFcsType,
            AppConfigTlvType::RangingRoundControl,
            AppConfigTlvType::AoaResultReq,
            AppConfigTlvType::RngDataNtf,
            AppConfigTlvType::RngDataNtfProximityNear,
            AppConfigTlvType::RngDataNtfProximityFar,
            AppConfigTlvType::DeviceRole,
            AppConfigTlvType::RframeConfig,
            AppConfigTlvType::PreambleCodeIndex,
            AppConfigTlvType::SfdId,
            AppConfigTlvType::SessionPriority,
            AppConfigTlvType::MacAddressMode,
            AppConfigTlvType::VendorId,
            AppConfigTlvType::StaticStsIv,
            AppConfigTlvType::SubSessionId,
            AppConfigTlvType::ResultReportConfig,
            AppConfigTlvType::HoppingMode,
            AppConfigTlvType::InBandTerminationAttemptCount,
            AppConfigTlvType::MaxRrRetry,
            AppConfigTlvType::UwbInitiationTime,
            AppConfigTlvType::BlockStrideLength,
        ]
    }

    /// The rendered bytes of the field at position `i` of [`Self::tags`].
    pub open spec fn field_bytes_spec(self, i: int) -> Seq<u8> {
        if i == 0 {
            seq![self.device_type.wire_code_spec()]
        } else if i == 1 {
            seq![self.ranging_round_usage.wire_code_spec()]
        } else if i == 2 {
            seq![self.sts_config.wire_code_spec()]
        } else if i == 3 {
            seq![self.multi_node_mode.wire_code_spec()]
        } else if i == 4 {
            seq![self.channel_number.wire_code_spec()]
        } else if i == 5 {
            self.device_mac_address.bytes_spec()
        } else if i == 6 {
            addresses_bytes_spec(self.dst_mac_address@)
        } else if i == 7 {
            u16_le_spec(self.slot_duration_rstu)
        } else if i == 8 {
            u32_le_spec(self.ranging_interval_ms)
        } else if i == 9 {
            seq![self.mac_fcs_type.wire_code_spec()]
        } else if i == 10 {
            seq![self.ranging_round_control.as_byte_spec()]
        } else if i == 11 {
            seq![self.aoa_result_request.wire_code_spec()]
        } else if i == 12 {
            seq![self.range_data_ntf_config.wire_code_spec()]
        } else if i == 13 {
            u16_le_spec(self.range_data_ntf_proximity_near_cm)
        } else if i == 14 {
            u16_le_spec(self.range_data_ntf_proximity_far_cm)
        } else if i == 15 {
            seq![self.device_role.wire_code_spec()]
        } else if i == 16 {
            seq![self.rframe_config.wire_code_spec()]
        } else if i == 17 {
            seq![self.preamble_code_index]
        } else if i == 18 {
            seq![self.sfd_id]
        } else if i == 19 {
            seq![self.session_priority]
        } else if i == 20 {
            seq![self.mac_address_mode.wire_code_spec()]
        } else if i == 21 {
            self.vendor_id@
        } else if i == 22 {
            self.static_sts_iv@
        } else if i == 23 {
            u32_le_spec(self.sub_session_id)
        } else if i == 24 {
            seq![self.result_report_config.as_byte_spec()]
        } else if i == 25 {
            seq![self.hopping_mode.wire_code_spec()]
        } else if i == 26 {
            seq![self.in_band_termination_attempt_count]
        } else if i == 27 {
            u16_le_spec(self.max_rr_retry)
        } else if i == 28 {
            u32_le_spec(self.uwb_initiation_time_ms)
        } else if i == 29 {
            seq![self.block_stride_length]
        } else {
            Seq::empty()
        }
    }

    /// The full rendering of the record: one entry per field, in tag order.
    pub open spec fn config_entries_spec(self) -> Seq<TlvModel> {
        Seq::new(
            Self::tags().len(),
            |i: int| TlvModel { cfg_id: Self::tags()[i], v: self.field_bytes_spec(i) },
        )
    }

    /// The validation rules that construction enforces.
    pub open spec fn valid_spec(self) -> bool {
        &&& 9 <= self.preamble_code_index <= 32
    &&& self.sfd_id <= 4
        &&& 1 <= self.session_priority <= 100
        &&& self.range_data_ntf_proximity_near_cm <= self.range_data_ntf_proximity_far_cm
        &&& 1 <= self.in_band_termination_attempt_count <= 10
        &&& 1 <= self.dst_mac_address@.len() <= 8
        &&& address_mode_consistent(self.mac_address_mode, self.device_mac_address)
        &&& forall|i: int|
            0 <= i < self.dst_mac_address@.len() ==> address_mode_consistent(
                self.mac_address_mode,
                #[trigger] self.dst_mac_address@[i],
            )
    }

    /// Renders every field into its TLV, in the fixed tag order.
    pub fn generate_config_map(&self) -> (r: Vec<AppConfigTlv>)
        ensures
            tlvs_view(r@) == self.config_entries_spec(),
            r@.len() == Self::field_count(),
    {
        let mut tlvs: Vec<AppConfigTlv> = Vec::new();
        tlvs.push(AppConfigTlv {
            cfg_id: AppConfigTlvType::DeviceType,
            v: one_byte(self.device_type.wire_code()),
        });
        tlvs.push(AppConfigTlv {
            cfg_id: AppConfigTlvType::RangingRoundUsage,
            v: one_byte(self.ranging_round_usage.wire_code()),
        });
        tlvs.push(AppConfigTlv {
            cfg_id: AppConfigTlvType::StsConfig,
            v: one_byte(self.sts_config.wire_code()),
        });
        tlvs.push(AppConfigTlv {
            cfg_id: AppConfigTlvType::MultiNodeMode,
            v: one_byte(self.multi_node_mode.wire_code()),
        });
        tlvs.push(AppConfigTlv {
            cfg_id: AppConfigTlvType::ChannelNumber,
            v: one_byte(self.channel_number.wire_code()),
        });
        tlvs.push(AppConfigTlv {
            cfg_id: AppConfigTlvType::DeviceMacAddress,
            v: self.device_mac_address.to_bytes(),
        });
        tlvs.push(AppConfigTlv {
            cfg_id: AppConfigTlvType::DstMacAddress,
            v: addresses_bytes(&self.dst_mac_address),
        });
        tlvs.push(AppConfigTlv {
            cfg_id: AppConfigTlvType::SlotDuration,
            v: u16_le(self.slot_duration_rstu),
        });
        tlvs.push(AppConfigTlv {
            cfg_id: AppConfigTlvType::RangingInterval,
            v: u32_le(self.ranging_interval_ms),
        });
        tlvs.push(AppConfigTlv {
            cfg_id: AppConfigTlvType::MacFcsType,
            v: one_byte(self.mac_fcs_type.wire_code()),
        });
        tlvs.push(AppConfigTlv {
            cfg_id: AppConfigTlvType::RangingRoundControl,
            v: one_byte(self.ranging_round_control.as_byte()),
        });
        tlvs.push(AppConfigTlv {
            cfg_id: AppConfigTlvType::AoaResultReq,
            v: one_byte(self.aoa_result_request.wire_code()),
        });
        tlvs.push(AppConfigTlv {
            cfg_id: AppConfigTlvType::RngDataNtf,
            v: one_byte(self.range_data_ntf_config.wire_code()),
        });
        tlvs.push(AppConfigTlv {
            cfg_id: AppConfigTlvType::RngDataNtfProximityNear,
            v: u16_le(self.range_data_ntf_proximity_near_cm),
        });
        tlvs.push(AppConfigTlv {
            cfg_id: AppConfigTlvType::RngDataNtfProximityFar,
            v: u16_le(self.range_data_ntf_proximity_far_cm),
        });
        tlvs.push(AppConfigTlv {
            cfg_id: AppConfigTlvType::DeviceRole,
            v: one_byte(self.device_role.wire_code()),
        });
        tlvs.push(AppConfigTlv {
            cfg_id: AppConfigTlvType::RframeConfig,
            v: one_byte(self.rframe_config.wire_code()),
        });
        tlvs.push(AppConfigTlv {
            cfg_id: AppConfigTlvType::PreambleCodeIndex,
            v: one_byte(self.preamble_code_index),
        });
        tlvs.push(AppConfigTlv { cfg_id: AppConfigTlvType::SfdId, v: one_byte(self.sfd_id) });
        tlvs.push(AppConfigTlv {
            cfg_id: AppConfigTlvType::SessionPriority,
            v: one_byte(self.session_priority),
        });
        tlvs.push(AppConfigTlv {
            cfg_id: AppConfigTlvType::MacAddressMode,
            v: one_byte(self.mac_address_mode.wire_code()),
        });
        tlvs.push(AppConfigTlv {
            cfg_id: AppConfigTlvType::VendorId,
            v: array_to_vec::<2>(&self.vendor_id),
        });
        tlvs.push(AppConfigTlv {
            cfg_id: AppConfigTlvType::StaticStsIv,
            v: array_to_vec::<6>(&self.static_sts_iv),
        });
        tlvs.push(AppConfigTlv {
            cfg_id: AppConfigTlvType::SubSessionId,
            v: u32_le(self.sub_session_id),
        });
        tlvs.push(AppConfigTlv {
            cfg_id: AppConfigTlvType::ResultReportConfig,
            v: one_byte(self.result_report_config.as_byte()),
        });
        tlvs.push(AppConfigTlv {
            cfg_id: AppConfigTlvType::HoppingMode,
            v: one_byte(self.hopping_mode.wire_code()),
        });
        tlvs.push(AppConfigTlv {
            cfg_id: AppConfigTlvType::InBandTerminationAttemptCount,
            v: one_byte(self.in_band_termination_attempt_count),
        });
        tlvs.push(AppConfigTlv {
            cfg_id: AppConfigTlvType::MaxRrRetry,
            v: u16_le(self.max_rr_retry),
        });
        tlvs.push(AppConfigTlv {
            cfg_id: AppConfigTlvType::UwbInitiationTime,
            v: u32_le(self.uwb_initiation_time_ms),
        });
        tlvs.push(AppConfigTlv {
            cfg_id: AppConfigTlvType::BlockStrideLength,
            v: one_byte(self.block_stride_length),
        });
        proof {
            assert(tlvs_view(tlvs@) =~= self.config_entries_spec());
        }
        tlvs
    }
}



/// Executable counterpart of [`address_mode_consistent`].
pub fn check_address_mode(mode: MacAddressMode, a: &UwbAddress) -> (r: bool)
    ensures
        r == address_mode_consistent(mode, *a),
{
    match mode {
        MacAddressMode::MacAddress2Bytes => matches!(a, UwbAddress::Short(_)),
        MacAddressMode::MacAddress8Bytes2BytesHeader => matches!(a, UwbAddress::Short(_)),
        MacAddressMode::MacAddress8Bytes => matches!(a, UwbAddress::Extended(_)),
    }
}

/// The validating builder for [`FiraAppConfigParams`].
///
/// Fields without a sensible default (the device's type, role, addressing and
/// key material) must be supplied; every other field starts at its default.
/// [`Self::build`] succeeds exactly when every required field was supplied and
/// every range and consistency rule holds.
#[derive(Debug)]
pub struct FiraAppConfigParamsBuilder {
    pub device_type: Option<DeviceType>,
    pub ranging_round_usage: RangingRoundUsage,
    pub sts_config: StsConfig,
    pub multi_node_mode: Option<MultiNodeMode>,
    pub channel_number: UwbChannel,
    pub device_mac_address: Option<UwbAddress>,
    pub dst_mac_address: Vec<UwbAddress>,
    pub slot_duration_rstu: u16,
    pub ranging_interval_ms: u32,
    pub mac_fcs_type: MacFcsType,
    pub ranging_round_control: RangingRoundControl,
    pub aoa_result_request: AoaResultRequest,
    pub range_data_ntf_config: RangeDataNtfConfig,
    pub range_data_ntf_proximity_near_cm: u16,
    pub range_data_ntf_proximity_far_cm: u16,
    pub device_role: Option<DeviceRole>,
    pub rframe_config: RframeConfig,
    pub preamble_code_index: u8,
    pub sfd_id: u8,
    pub session_priority: u8,
    pub mac_address_mode: MacAddressMode,
    pub vendor_id: Option<[u8; 2]>,
    pub static_sts_iv: Option<[u8; 6]>,
    pub sub_session_id: u32,
    pub result_report_config: ResultReportConfig,
    pub hopping_mode: HoppingMode,
    pub in_band_termination_attempt_count: u8,
    pub max_rr_retry: u16,
    pub uwb_initiation_time_ms: u32,
    pub block_stride_length: u8,
}

impl FiraAppConfigParamsBuilder {
    /// The record this builder would produce, meaningful once every required
    /// field has been supplied.
    pub open spec fn built_spec(self) -> FiraAppConfigParams {
        FiraAppConfigParams {
            device_type: self.device_type->Some_0,
            ranging_round_usage: self.ranging_round_usage,
            sts_config: self.sts_config,
            multi_node_mode: self.multi_node_mode->Some_0,
            channel_number: self.channel_number,
            device_mac_address: self.device_mac_address->Some_0,
            dst_mac_address: self.dst_mac_address,
            slot_duration_rstu: self.slot_duration_rstu,
            ranging_interval_ms: self.ranging_interval_ms,
            mac_fcs_type: self.mac_fcs_type,
            ranging_round_control: self.ranging_round_control,
            aoa_result_request: self.aoa_result_request,
            range_data_ntf_config: self.range_data_ntf_config,
            range_data_ntf_proximity_near_cm: self.range_data_ntf_proximity_near_cm,
            range_data_ntf_proximity_far_cm: self.range_data_ntf_proximity_far_cm,
            device_role: self.device_role->Some_0,
            rframe_config: self.rframe_config,
            preamble_code_index: self.preamble_code_index,
            sfd_id: self.sfd_id,
            session_priority: self.session_priority,
            mac_address_mode: self.mac_address_mode,
            vendor_id: self.vendor_id->Some_0,
            static_sts_iv: self.static_sts_iv->Some_0,
            sub_session_id: self.sub_session_id,
            result_report_config: self.result_report_config,
            hopping_mode: self.hopping_mode,
            in_band_termination_attempt_count: self.in_band_termination_attempt_count,
            max_rr_retry: self.max_rr_retry,
            uwb_initiation_time_ms: self.uwb_initiation_time_ms,
            block_stride_length: self.block_stride_length,
        }
    }

    /// Exactly when [`Self::build`] succeeds: every required field supplied
    /// and the resulting record valid.
    pub open spec fn ok_spec(self) -> bool {
        &&& self.device_type is Some
        &&& self.multi_node_mode is Some
        &&& self.device_mac_address is Some
        &&& self.device_role is Some
        &&& self.vendor_id is Some
        &&& self.static_sts_iv is Some
        &&& self.built_spec().valid_spec()
    }

    /// A fresh builder holding every default.
    pub fn new() -> (r: Self)
        ensures
            r.device_type is None,
            r.multi_node_mode is None,
            r.device_mac_address is None,
            r.device_role is None,
            r.vendor_id is None,
            r.static_sts_iv is None,
            r.dst_mac_address@.len() == 0,
            r.ranging_round_usage == RangingRoundUsage::DsTwr,
            r.sts_config == StsConfig::Static,
            r.channel_number == UwbChannel::Channel9,
            r.slot_duration_rstu == 2400,
            r.ranging_interval_ms == 200,
            r.mac_fcs_type == MacFcsType::Crc16,
            r.ranging_round_control == (RangingRoundControl {
                ranging_result_report_message: true,
                control_message: true,
                measurement_report_message: false,
            }),
            r.aoa_result_request == AoaResultRequest::ReqAoaResults,
            r.range_data_ntf_config == RangeDataNtfConfig::Enable,
            r.range_data_ntf_proximity_near_cm == 0,
            r.range_data_ntf_proximity_far_cm == 20000,
            r.rframe_config == RframeConfig::SP3,
            r.preamble_code_index == 10,
            r.sfd_id == 2,
            r.session_priority == 50,
            r.mac_address_mode == MacAddressMode::MacAddress2Bytes,
            r.sub_session_id == 0,
            r.result_report_config == (ResultReportConfig {
                tof: true,
                aoa_azimuth: false,
                aoa_elevation: false,
                aoa_fom: false,
            }),
            r.hopping_mode == HoppingMode::Disable,
            r.in_band_termination_attempt_count == 1,
            r.max_rr_retry == 0,
            r.uwb_initiation_time_ms == 0,
            r.block_stride_length == 0,
    {
        FiraAppConfigParamsBuilder {
            device_type: None,
            ranging_round_usage: RangingRoundUsage::DsTwr,
            sts_config: StsConfig::Static,
            multi_node_mode: None,
            channel_number: UwbChannel::Channel9,
            device_mac_address: None,
            dst_mac_address: Vec::new(),
            slot_duration_rstu: 2400,
            ranging_interval_ms: 200,
            mac_fcs_type: MacFcsType::Crc16,
            ranging_round_control: RangingRoundControl {
                ranging_result_report_message: true,
                control_message: true,
                measurement_report_message: false,
            },
            aoa_result_request: AoaResultRequest::ReqAoaResults,
            range_data_ntf_config: RangeDataNtfConfig::Enable,
            range_data_ntf_proximity_near_cm: 0,
            range_data_ntf_proximity_far_cm: 20000,
            device_role: None,
            rframe_config: RframeConfig::SP3,
            preamble_code_index: 10,
            sfd_id: 2,
            session_priority: 50,
            mac_address_mode: MacAddressMode::MacAddress2Bytes,
            vendor_id: None,
            static_sts_iv: None,
            sub_session_id: 0,
            result_report_config: ResultReportConfig {
                tof: true,
                aoa_azimuth: false,
                aoa_elevation: false,
                aoa_fom: false,
            },
            hopping_mode: HoppingMode::Disable,
            in_band_termination_attempt_count: 1,
            max_rr_retry: 0,
            uwb_initiation_time_ms: 0,
            block_stride_length: 0,
        }
    }

    /// Supplies the device type.
    pub fn device_type(self, value: DeviceType) -> (r: Self)
        ensures
            r == (Self { device_type: Some(value), ..self }),
    {
        Self { device_type: Some(value), ..self }
    }

    /// Supplies the ranging-round usage.
    pub fn ranging_round_usage(self, value: RangingRoundUsage) -> (r: Self)
        ensures
            r == (Self { ranging_round_usage: value, ..self }),
    {
        Self { ranging_round_usage: value, ..self }
    }

    /// Supplies the STS keying mode.
    pub fn sts_config(self, value: StsConfig) -> (r: Self)
        ensures
            r == (Self { sts_config: value, ..self }),
    {
        Self { sts_config: value, ..self }
    }

    /// Supplies the multi-node mode.
    pub fn multi_node_mode(self, value: MultiNodeMode) -> (r: Self)
        ensures
            r == (Self { multi_node_mode: Some(value), ..self }),
    {
        Self { multi_node_mode: Some(value), ..self }
    }

    /// Supplies the channel.
    pub fn channel_number(self, value: UwbChannel) -> (r: Self)
        ensures
            r == (Self { channel_number: value, ..self }),
    {
        Self { channel_number: value, ..self }
    }

    /// Supplies this device's MAC address.
    pub fn device_mac_address(self, value: UwbAddress) -> (r: Self)
        ensures
            r == (Self { device_mac_address: Some(value), ..self }),
    {
        Self { device_mac_address: Some(value), ..self }
    }

    /// Supplies the peer address list.
    pub fn dst_mac_address(self, value: Vec<UwbAddress>) -> (r: Self)
        ensures
            r == (Self { dst_mac_address: value, ..self }),
    {
        Self { dst_mac_address: value, ..self }
    }

    /// Supplies the slot duration in ranging slot time units.
    pub fn slot_duration_rstu(self, value: u16) -> (r: Self)
        ensures
            r == (Self { slot_duration_rstu: value, ..self }),
    {
        Self { slot_duration_rstu: value, ..self }
    }

    /// Supplies the ranging interval in milliseconds.
    pub fn ranging_interval_ms(self, value: u32) -> (r: Self)
        ensures
            r == (Self { ranging_interval_ms: value, ..self }),
    {
        Self { ranging_interval_ms: value, ..self }
    }

    /// Supplies the frame check sequence kind.
    pub fn mac_fcs_type(self, value: MacFcsType) -> (r: Self)
        ensures
            r == (Self { mac_fcs_type: value, ..self }),
    {
        Self { mac_fcs_type: value, ..self }
    }

    /// Supplies the ranging-round-control flags.
    pub fn ranging_round_control(self, value: RangingRoundControl) -> (r: Self)
        ensures
            r == (Self { ranging_round_control: value, ..self }),
    {
        Self { ranging_round_control: value, ..self }
    }

    /// Supplies the angle-of-arrival request.
    pub fn aoa_result_request(self, value: AoaResultRequest) -> (r: Self)
        ensures
            r == (Self { aoa_result_request: value, ..self }),
    {
        Self { aoa_result_request: value, ..self }
    }

    /// Supplies the range-data notification policy.
    pub fn range_data_ntf_config(self, value: RangeDataNtfConfig) -> (r: Self)
        ensures
            r == (Self { range_data_ntf_config: value, ..self }),
    {
        Self { range_data_ntf_config: value, ..self }
    }

    /// Supplies the near proximity bound in centimetres.
    pub fn range_data_ntf_proximity_near_cm(self, value: u16) -> (r: Self)
        ensures
            r == (Self { range_data_ntf_proximity_near_cm: value, ..self }),
    {
        Self { range_data_ntf_proximity_near_cm: value, ..self }
    }

    /// Supplies the far proximity bound in centimetres.
    pub fn range_data_ntf_proximity_far_cm(self, value: u16) -> (r: Self)
        ensures
            r == (Self { range_data_ntf_proximity_far_cm: value, ..self }),
    {
        Self { range_data_ntf_proximity_far_cm: value, ..self }
    }

    /// Supplies the device role.
    pub fn device_role(self, value: DeviceRole) -> (r: Self)
        ensures
            r == (Self { device_role: Some(value), ..self }),
    {
        Self { device_role: Some(value), ..self }
    }

    /// Supplies the ranging frame configuration.
    pub fn rframe_config(self, value: RframeConfig) -> (r: Self)
        ensures
            r == (Self { rframe_config: value, ..self }),
    {
        Self { rframe_config: value, ..self }
    }

    /// Supplies the preamble code index.
    pub fn preamble_code_index(self, value: u8) -> (r: Self)
        ensures
            r == (Self { preamble_code_index: value, ..self }),
    {
        Self { preamble_code_index: value, ..self }
    }

    /// Supplies the start-of-frame delimiter id.
    pub fn sfd_id(self, value: u8) -> (r: Self)
        ensures
            r == (Self { sfd_id: value, ..self }),
    {
        Self { sfd_id: value, ..self }
    }

    /// Supplies the session priority.
    pub fn session_priority(self, value: u8) -> (r: Self)
        ensures
            r == (Self { session_priority: value, ..self }),
    {
        Self { session_priority: value, ..self }
    }

    /// Supplies the MAC addressing mode.
    pub fn mac_address_mode(self, value: MacAddressMode) -> (r: Self)
        ensures
            r == (Self { mac_address_mode: value, ..self }),
    {
        Self { mac_address_mode: value, ..self }
    }

    /// Supplies the vendor id, part of the static STS key material.
    pub fn vendor_id(self, value: [u8; 2]) -> (r: Self)
        ensures
            r == (Self { vendor_id: Some(value), ..self }),
    {
        Self { vendor_id: Some(value), ..self }
    }

    /// Supplies the static STS initialization vector.
    pub fn static_sts_iv(self, value: [u8; 6]) -> (r: Self)
        ensures
            r == (Self { static_sts_iv: Some(value), ..self }),
    {
        Self { static_sts_iv: Some(value), ..self }
    }

    /// Supplies the sub-session id.
    pub fn sub_session_id(self, value: u32) -> (r: Self)
        ensures
            r == (Self { sub_session_id: value, ..self }),
    {
        Self { sub_session_id: value, ..self }
    }

    /// Supplies the result-report flags.
    pub fn result_report_config(self, value: ResultReportConfig) -> (r: Self)
        ensures
            r == (Self { result_report_config: value, ..self }),
    {
        Self { result_report_config: value, ..self }
    }

    /// Supplies the hopping mode.
    pub fn hopping_mode(self, value: HoppingMode) -> (r: Self)
        ensures
            r == (Self { hopping_mode: value, ..self }),
    {
        Self { hopping_mode: value, ..self }
    }

    /// Supplies the in-band termination attempt count.
    pub fn in_band_termination_attempt_count(self, value: u8) -> (r: Self)
        ensures
            r == (Self { in_band_termination_attempt_count: value, ..self }),
    {
        Self { in_band_termination_attempt_count: value, ..self }
    }

    /// Supplies the maximum number of ranging-round retries.
    pub fn max_rr_retry(self, value: u16) -> (r: Self)
        ensures
            r == (Self { max_rr_retry: value, ..self }),
    {
        Self { max_rr_retry: value, ..self }
    }

    /// Supplies the UWB initiation time in milliseconds.
    pub fn uwb_initiation_time_ms(self, value: u32) -> (r: Self)
        ensures
            r == (Self { uwb_initiation_time_ms: value, ..self }),
    {
        Self { uwb_initiation_time_ms: value, ..self }
    }

    /// Supplies the block stride length.
    pub fn block_stride_length(self, value: u8) -> (r: Self)
        ensures
            r == (Self { block_stride_length: value, ..self }),
    {
        Self { block_stride_length: value, ..self }
    }

    /// Validates and produces the record.
    ///
    /// Succeeds exactly when every required field was supplied and every
    /// range and consistency rule of [`FiraAppConfigParams::valid_spec`]
    /// holds; the produced record is the builder's fields, verbatim.
    pub fn build(self) -> (r: Option<FiraAppConfigParams>)
        ensures
            r is Some <==> self.ok_spec(),
            r matches Some(p) ==> p == self.built_spec() && p.valid_spec(),
    {
        let device_type = match self.device_type {
            Some(v) => v,
            None => {
                return None;
            },
        };
        let multi_node_mode = match self.multi_node_mode {
            Some(v) => v,
            None => {
                return None;
            },
        };
        let device_mac_address = match self.device_mac_address {
            Some(v) => v,
            None => {
                return None;
            },
        };
        let device_role = match self.device_role {
            Some(v) => v,
            None => {
                return None;
            },
        };
        let vendor_id = match self.vendor_id {
            Some(v) => v,
            None => {
                return None;
            },
        };
        let static_sts_iv = match self.static_sts_iv {
            Some(v) => v,
            None => {
                return None;
            },
        };
        let p = FiraAppConfigParams {
            device_type,
            ranging_round_usage: self.ranging_round_usage,
            sts_config: self.sts_config,
            multi_node_mode,
            channel_number: self.channel_number,
            device_mac_address,
            dst_mac_address: self.dst_mac_address,
            slot_duration_rstu: self.slot_duration_rstu,
            ranging_interval_ms: self.ranging_interval_ms,
            mac_fcs_type: self.mac_fcs_type,
            ranging_round_control: self.ranging_round_control,
            aoa_result_request: self.aoa_result_request,
            range_data_ntf_config: self.range_data_ntf_config,
            range_data_ntf_proximity_near_cm: self.range_data_ntf_proximity_near_cm,
            range_data_ntf_proximity_far_cm: self.range_data_ntf_proximity_far_cm,
            device_role,
            rframe_config: self.rframe_config,
            preamble_code_index: self.preamble_code_index,
            sfd_id: self.sfd_id,
            session_priority: self.session_priority,
            mac_address_mode: self.mac_address_mode,
            vendor_id,
            static_sts_iv,
            sub_session_id: self.sub_session_id,
            result_report_config: self.result_report_config,
            hopping_mode: self.hopping_mode,
            in_band_termination_attempt_count: self.in_band_termination_attempt_count,
            max_rr_retry: self.max_rr_retry,
            uwb_initiation_time_ms: self.uwb_initiation_time_ms,
            block_stride_length: self.block_stride_length,
        };
        if !(9 <= p.preamble_code_index && p.preamble_code_index <= 32) {
            return None;
        }
        if !(p.sfd_id <= 4) {
            return None;
        }
        if !(1 <= p.session_priority && p.session_priority <= 100) {
            return None;
        }
        if !(p.range_data_ntf_proximity_near_cm <= p.range_data_ntf_proximity_far_cm) {
            return None;
        }
        if !(1 <= p.in_band_termination_attempt_count && p.in_band_termination_attempt_count
            <= 10) {
            return None;
        }
        if !(1 <= p.dst_mac_address.len() && p.dst_mac_address.len() <= 8) {
            return None;
        }
        if !check_address_mode(p.mac_address_mode, &p.device_mac_address) {
            return None;
        }
        let mut addrs_ok: bool = true;
        let mut i: usize = 0;
        while i < p.dst_mac_address.len()
            invariant
                i <= p.dst_mac_address@.len(),
                addrs_ok == (forall|k: int|
                    0 <= k < i ==> address_mode_consistent(
                        p.mac_address_mode,
                        #[trigger] p.dst_mac_address@[k],
                    )),
            decreases p.dst_mac_address@.len() - i,
        {
            if !check_address_mode(p.mac_address_mode, &p.dst_mac_address[i]) {
                addrs_ok = false;
            }
            i = i + 1;
        }
        if !addrs_ok {
            return None;
        }
        Some(p)
    }
}



impl FiraAppConfigParams {
    /// Renders only what changed: the TLVs of `self` whose bytes differ from
    /// the rendering of `prev`, position by position over the fixed tag set.
    pub fn generate_updated_config_map(&self, prev: &Self) -> (r: Vec<AppConfigTlv>)
        ensures
            tlvs_view(r@) == updated_entries_spec(
                self.config_entries_spec(),
                prev.config_entries_spec(),
            ),
    {
        let new_entries = self.generate_config_map();
        let old_entries = prev.generate_config_map();
        diff_config_entries(new_entries, &old_entries)
    }
}

} // verus!
