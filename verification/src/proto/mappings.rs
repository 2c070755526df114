//! The conversion layer between the core's types and their cross-process
//! mirror records.
//!
//! The mirror is a bit-exact structural counterpart of the configuration and
//! measurement types, with every numeric field widened to the wire's 32-bit
//! representation, addresses and key material as raw byte strings, and
//! submessages optional. Conversion towards the mirror is total; conversion
//! back validates every field and fails with the field that was malformed.
//! Sensitive key material held by the mirror — vendor id, static STS
//! initialization vector, sub-session id — is overwritten with zeros by
//! [`ProtoFiraAppConfigParams::scrub`] before its storage is released.

use vstd::prelude::*;

use zeroize::Zeroize;

use crate::error::Error;
use crate::params::app_config_params::AppConfigParams;
use crate::params::fira_app_config_params::{
    address_mode_consistent, AoaResultRequest, DeviceRole, DeviceType, FiraAppConfigParams,
    FiraAppConfigParamsBuilder, HoppingMode, MacAddressMode, MacFcsType, MultiNodeMode,
    RangeDataNtfConfig, RangingRoundControl, RangingRoundUsage, ResultReportConfig, RframeConfig,
    StsConfig, UwbAddress, UwbChannel,
};
use crate::params::utils::array_to_vec;
use crate::params::uci_packets::{
    Controlee, ExtendedAddressTwoWayRangingMeasurement, PowerStats, RangingMeasurementType,
    ShortAddressTwoWayRangingMeasurement,
};
use crate::uci::notification::{RangingMeasurements, SessionRangeData};

verus! {

/// The field of a mirror record that made a conversion towards the core
/// fail.
#[derive(Clone, Copy, Debug, PartialEq, Eq, Structural)]
pub enum ProtoConversionError {
    DeviceMacAddress,
    DstMacAddress,
    SlotDurationRstu,
    ProximityNearCm,
    ProximityFarCm,
    PreambleCodeIndex,
    SfdId,
    SessionPriority,
    RangingRoundControl,
    ResultReportConfig,
    VendorId,
    StaticStsIv,
    InBandTerminationAttemptCount,
    MaxRrRetry,
    BlockStrideLength,
    ShortAddress,
    Build,
}

/// The presentation status every engine-level result collapses to at the
/// cross-process boundary. The variant names are the boundary's stable
/// identifiers.
#[allow(non_camel_case_types)]
#[derive(Clone, Copy, Debug, PartialEq, Eq, Structural)]
pub enum ProtoStatus {
    OK,
    BAD_PARAMETERS,
    MAX_SESSIONS_EXCEEDED,
    MAX_RR_RETRY_REACHED,
    PROTOCOL_SPECIFIC,
    REMOTE_REQUEST,
    TIMEOUT,
    COMMAND_RETRY,
    DUPLICATED_SESSION_ID,
    UNKNOWN,
}

/// The total, one-directional presentation mapping: success and every listed
/// error kind map to their own status, anything else to `UNKNOWN`.
pub open spec fn status_from_result_spec<T>(item: Result<T, Error>) -> ProtoStatus {
    match item {
        Result::Ok(_) => ProtoStatus::OK,
        Result::Err(e) => match e {
            Error::BadParameters => ProtoStatus::BAD_PARAMETERS,
            Error::MaxSessionsExceeded => ProtoStatus::MAX_SESSIONS_EXCEEDED,
            Error::MaxRrRetryReached => ProtoStatus::MAX_RR_RETRY_REACHED,
            Error::ProtocolSpecific => ProtoStatus::PROTOCOL_SPECIFIC,
            Error::RemoteRequest => ProtoStatus::REMOTE_REQUEST,
            Error::Timeout => ProtoStatus::TIMEOUT,
            Error::CommandRetry => ProtoStatus::COMMAND_RETRY,
            Error::DuplicatedSessionId => ProtoStatus::DUPLICATED_SESSION_ID,
            Error::Unknown => ProtoStatus::UNKNOWN,
        },
    }
}

/// Executable counterpart of [`status_from_result_spec`].
pub fn status_from_result<T>(item: &Result<T, Error>) -> (r: ProtoStatus)
    ensures
        r == status_from_result_spec::<T>(*item),
{
    match item {
        Result::Ok(_) => ProtoStatus::OK,
        Result::Err(e) => match e {
            Error::BadParameters => ProtoStatus::BAD_PARAMETERS,
            Error::MaxSessionsExceeded => ProtoStatus::MAX_SESSIONS_EXCEEDED,
            Error::MaxRrRetryReached => ProtoStatus::MAX_RR_RETRY_REACHED,
            Error::ProtocolSpecific => ProtoStatus::PROTOCOL_SPECIFIC,
            Error::RemoteRequest => ProtoStatus::REMOTE_REQUEST,
            Error::Timeout => ProtoStatus::TIMEOUT,
            Error::CommandRetry => ProtoStatus::COMMAND_RETRY,
            Error::DuplicatedSessionId => ProtoStatus::DUPLICATED_SESSION_ID,
            Error::Unknown => ProtoStatus::UNKNOWN,
        },
    }
}

/// The mirror of one two-way ranging measurement: every field widened to the
/// boundary's representation.
#[derive(Clone, Copy, Debug, PartialEq, Eq, Structural)]
pub struct ProtoRangingMeasurement {
    pub mac_address: u64,
    pub status: u32,
    pub nlos: u32,
    pub distance: u32,
    pub aoa_azimuth: u32,
    pub aoa_azimuth_fom: u32,
    pub aoa_elevation: u32,
    pub aoa_elevation_fom: u32,
    pub aoa_destination_azimuth: u32,
    pub aoa_destination_azimuth_fom: u32,
    pub aoa_destination_elevation: u32,
    pub aoa_destination_elevation_fom: u32,
    pub slot_index: u32,
    pub rssi: u32,
}

/// The mirror of a short-addressed measurement.
pub open spec fn short_measurement_to_proto_spec(
    item: ShortAddressTwoWayRangingMeasurement,
) -> ProtoRangingMeasurement {
    ProtoRangingMeasurement {
        mac_address: item.mac_address as u64,
        status: item.status.wire_code_spec() as u32,
        nlos: item.nlos as u32,
        distance: item.distance as u32,
        aoa_azimuth: item.aoa_azimuth as u32,
        aoa_azimuth_fom: item.aoa_azimuth_fom as u32,
        aoa_elevation: item.aoa_elevation as u32,
        aoa_elevation_fom: item.aoa_elevation_fom as u32,
        aoa_destination_azimuth: item.aoa_destination_azimuth as u32,
        aoa_destination_azimuth_fom: item.aoa_destination_azimuth_fom as u32,
        aoa_destination_elevation: item.aoa_destination_elevation as u32,
        aoa_destination_elevation_fom: item.aoa_destination_elevation_fom as u32,
        slot_index: item.slot_index as u32,
        rssi: item.rssi as u32,
    }
}

/// The mirror of an extended-addressed measurement.
pub open spec fn extended_measurement_to_proto_spec(
    item: ExtendedAddressTwoWayRangingMeasurement,
) -> ProtoRangingMeasurement {
    ProtoRangingMeasurement {
        mac_address: item.mac_address,
        status: item.status.wire_code_spec() as u32,
        nlos: item.nlos as u32,
        distance: item.distance as u32,
        aoa_azimuth: item.aoa_azimuth as u32,
        aoa_azimuth_fom: item.aoa_azimuth_fom as u32,
        aoa_elevation: item.aoa_elevation as u32,
        aoa_elevation_fom: item.aoa_elevation_fom as u32,
        aoa_destination_azimuth: item.aoa_destination_azimuth as u32,
        aoa_destination_azimuth_fom: item.aoa_destination_azimuth_fom as u32,
        aoa_destination_elevation: item.aoa_destination_elevation as u32,
        aoa_destination_elevation_fom: item.aoa_destination_elevation_fom as u32,
        slot_index: item.slot_index as u32,
        rssi: item.rssi as u32,
    }
}

impl ProtoRangingMeasurement {
    /// Widens a short-addressed measurement into the mirror.
    pub fn from_short(item: &ShortAddressTwoWayRangingMeasurement) -> (r: Self)
        ensures
            r == short_measurement_to_proto_spec(*item),
    {
        ProtoRangingMeasurement {
            mac_address: item.mac_address as u64,
            status: item.status.wire_code() as u32,
            nlos: item.nlos as u32,
            distance: item.distance as u32,
            aoa_azimuth: item.aoa_azimuth as u32,
            aoa_azimuth_fom: item.aoa_azimuth_fom as u32,
            aoa_elevation: item.aoa_elevation as u32,
            aoa_elevation_fom: item.aoa_elevation_fom as u32,
            aoa_destination_azimuth: item.aoa_destination_azimuth as u32,
            aoa_destination_azimuth_fom: item.aoa_destination_azimuth_fom as u32,
            aoa_destination_elevation: item.aoa_destination_elevation as u32,
            aoa_destination_elevation_fom: item.aoa_destination_elevation_fom as u32,
            slot_index: item.slot_index as u32,
            rssi: item.rssi as u32,
        }
    }

    /// Widens an extended-addressed measurement into the mirror.
    pub fn from_extended(item: &ExtendedAddressTwoWayRangingMeasurement) -> (r: Self)
        ensures
            r == extended_measurement_to_proto_spec(*item),
    {
        ProtoRangingMeasurement {
            mac_address: item.mac_address,
            status: item.status.wire_code() as u32,
            nlos: item.nlos as u32,
            distance: item.distance as u32,
            aoa_azimuth: item.aoa_azimuth as u32,
            aoa_azimuth_fom: item.aoa_azimuth_fom as u32,
            aoa_elevation: item.aoa_elevation as u32,
            aoa_elevation_fom: item.aoa_elevation_fom as u32,
            aoa_destination_azimuth: item.aoa_destination_azimuth as u32,
            aoa_destination_azimuth_fom: item.aoa_destination_azimuth_fom as u32,
            aoa_destination_elevation: item.aoa_destination_elevation as u32,
            aoa_destination_elevation_fom: item.aoa_destination_elevation_fom as u32,
            slot_index: item.slot_index as u32,
            rssi: item.rssi as u32,
        }
    }
}

/// Widens every measurement of a ranging round into the mirror, in order.
pub fn to_proto_ranging_measurements(item: &RangingMeasurements) -> (r: Vec<
    ProtoRangingMeasurement,
>)
    ensures
        item matches RangingMeasurements::Short(arr) ==> r@ == arr@.map_values(
            |m: ShortAddressTwoWayRangingMeasurement| short_measurement_to_proto_spec(m),
        ),
        item matches RangingMeasurements::Extended(arr) ==> r@ == arr@.map_values(
            |m: ExtendedAddressTwoWayRangingMeasurement| extended_measurement_to_proto_spec(m),
        ),
{
    let mut r: Vec<ProtoRangingMeasurement> = Vec::new();
    match item {
        RangingMeasurements::Short(arr) => {
            let mut i: usize = 0;
            while i < arr.len()
                invariant
                    i <= arr@.len(),
                    r@ == arr@.take(i as int).map_values(
                        |m: ShortAddressTwoWayRangingMeasurement| short_measurement_to_proto_spec(
                            m,
                        ),
                    ),
                decreases arr@.len() - i,
            {
                r.push(ProtoRangingMeasurement::from_short(&arr[i]));
                proof {
                    assert(r@ =~= arr@.take(i + 1).map_values(
                        |m: ShortAddressTwoWayRangingMeasurement| short_measurement_to_proto_spec(
                            m,
                        ),
                    ));
                }
                i = i + 1;
            }
            proof {
                assert(arr@.take(arr@.len() as int) =~= arr@);
            }
        },
        RangingMeasurements::Extended(arr) => {
            let mut i: usize = 0;
            while i < arr.len()
                invariant
                    i <= arr@.len(),
                    r@ == arr@.take(i as int).map_values(
                        |m: ExtendedAddressTwoWayRangingMeasurement|
                            extended_measurement_to_proto_spec(m),
                    ),
                decreases arr@.len() - i,
            {
                r.push(ProtoRangingMeasurement::from_extended(&arr[i]));
                proof {
                    assert(r@ =~= arr@.take(i + 1).map_values(
                        |m: ExtendedAddressTwoWayRangingMeasurement|
                            extended_measurement_to_proto_spec(m),
                    ));
                }
                i = i + 1;
            }
            proof {
                assert(arr@.take(arr@.len() as int) =~= arr@);
            }
        },
    }
    r
}

/// The outside crate's repeated-field container, declared so that the mirror
/// of a ranging report can carry it.
#[verifier::external_type_specification]
#[verifier::external_body]
#[verifier::reject_recursive_types(T)]
pub struct ExRepeatedField<T>(protobuf::RepeatedField<T>);

/// What a repeated field of mirror measurements holds.
pub uninterp spec fn repeated_field_elems(
    rf: protobuf::RepeatedField<ProtoRangingMeasurement>,
) -> Seq<ProtoRangingMeasurement>;

/// Relies on protobuf's `RepeatedField::from_vec`: it wraps the vector and
/// records the vector's full length, so the container holds exactly the
/// vector's elements.
#[verifier::external_body]
fn repeated_from_vec(v: Vec<ProtoRangingMeasurement>) -> (r: protobuf::RepeatedField<
    ProtoRangingMeasurement,
>)
    ensures
        repeated_field_elems(r) == v@,
{
    protobuf::RepeatedField::from_vec(v)
}

/// The mirror of one ranging report.
pub struct ProtoSessionRangeData {
    pub sequence_number: u32,
    pub session_id: u32,
    pub current_ranging_interval_ms: u32,
    pub ranging_measurement_type: RangingMeasurementType,
    pub ranging_measurements: protobuf::RepeatedField<ProtoRangingMeasurement>,
}

impl ProtoSessionRangeData {
    /// Mirrors a ranging report, measurement by measurement.
    pub fn from_session_range_data(item: SessionRangeData) -> (r: Self)
        ensures
            r.sequence_number == item.sequence_number,
            r.session_id == item.session_id,
            r.current_ranging_interval_ms == item.current_ranging_interval_ms,
            r.ranging_measurement_type == item.ranging_measurement_type,
            item.ranging_measurements matches RangingMeasurements::Short(arr)
                ==> repeated_field_elems(r.ranging_measurements) == arr@.map_values(
                |m: ShortAddressTwoWayRangingMeasurement| short_measurement_to_proto_spec(m),
            ),
            item.ranging_measurements matches RangingMeasurements::Extended(arr)
                ==> repeated_field_elems(r.ranging_measurements) == arr@.map_values(
                |m: ExtendedAddressTwoWayRangingMeasurement| extended_measurement_to_proto_spec(m),
            ),
    {
        let measurements = to_proto_ranging_measurements(&item.ranging_measurements);
        ProtoSessionRangeData {
            sequence_number: item.sequence_number,
            session_id: item.session_id,
            current_ranging_interval_ms: item.current_ranging_interval_ms,
            ranging_measurement_type: item.ranging_measurement_type,
            ranging_measurements: repeated_from_vec(measurements),
        }
    }
}

/// The mirror of the power statistics.
#[derive(Clone, Copy, Debug, PartialEq, Eq, Structural)]
pub struct ProtoPowerStats {
    pub status: u32,
    pub idle_time_ms: u32,
    pub tx_time_ms: u32,
    pub rx_time_ms: u32,
    pub total_wake_count: u32,
}

impl ProtoPowerStats {
    /// Mirrors the power statistics, with the status as its wire identifier.
    pub fn from_power_stats(item: &PowerStats) -> (r: Self)
        ensures
            r.status == item.status.wire_code_spec() as u32,
            r.idle_time_ms == item.idle_time_ms,
            r.tx_time_ms == item.tx_time_ms,
            r.rx_time_ms == item.rx_time_ms,
            r.total_wake_count == item.total_wake_count,
    {
        ProtoPowerStats {
            status: item.status.wire_code() as u32,
            idle_time_ms: item.idle_time_ms,
            tx_time_ms: item.tx_time_ms,
            rx_time_ms: item.rx_time_ms,
            total_wake_count: item.total_wake_count,
        }
    }
}

/// The mirror of the ranging-round-control flags.
#[derive(Clone, Copy, Debug, PartialEq, Eq, Structural)]
pub struct ProtoRangingRoundControl {
    pub ranging_result_report_message: bool,
    pub control_message: bool,
    pub measurement_report_message: bool,
}

impl RangingRoundControl {
    /// Reads the flags back from the mirror.
    pub fn from_proto(item: &ProtoRangingRoundControl) -> (r: Self)
        ensures
            r.ranging_result_report_message == item.ranging_result_report_message,
            r.control_message == item.control_message,
            r.measurement_report_message == item.measurement_report_message,
    {
        RangingRoundControl {
            ranging_result_report_message: item.ranging_result_report_message,
            control_message: item.control_message,
            measurement_report_message: item.measurement_report_message,
        }
    }

    /// Mirrors the flags.
    pub fn to_proto(&self) -> (r: ProtoRangingRoundControl)
        ensures
            r.ranging_result_report_message == self.ranging_result_report_message,
            r.control_message == self.control_message,
            r.measurement_report_message == self.measurement_report_message,
    {
        ProtoRangingRoundControl {
            ranging_result_report_message: self.ranging_result_report_message,
            control_message: self.control_message,
            measurement_report_message: self.measurement_report_message,
        }
    }
}

/// The mirror of the result-report flags.
#[derive(Clone, Copy, Debug, PartialEq, Eq, Structural)]
pub struct ProtoResultReportConfig {
    pub tof: bool,
    pub aoa_azimuth: bool,
    pub aoa_elevation: bool,
    pub aoa_fom: bool,
}

impl ResultReportConfig {
    /// Reads the flags back from the mirror.
    pub fn from_proto(item: &ProtoResultReportConfig) -> (r: Self)
        ensures
            r.tof == item.tof,
            r.aoa_azimuth == item.aoa_azimuth,
            r.aoa_elevation == item.aoa_elevation,
            r.aoa_fom == item.aoa_fom,
    {
        ResultReportConfig {
            tof: item.tof,
            aoa_azimuth: item.aoa_azimuth,
            aoa_elevation: item.aoa_elevation,
            aoa_fom: item.aoa_fom,
        }
    }

    /// Mirrors the flags.
    pub fn to_proto(&self) -> (r: ProtoResultReportConfig)
        ensures
            r.tof == self.tof,
            r.aoa_azimuth == self.aoa_azimuth,
            r.aoa_elevation == self.aoa_elevation,
            r.aoa_fom == self.aoa_fom,
    {
        ProtoResultReportConfig {
            tof: self.tof,
            aoa_azimuth: self.aoa_azimuth,
            aoa_elevation: self.aoa_elevation,
            aoa_fom: self.aoa_fom,
        }
    }
}

/// The mirror of one controlee entry.
#[derive(Clone, Debug, PartialEq, Eq)]
pub struct ProtoControlee {
    pub short_address: Vec<u8>,
    pub subsession_id: u32,
}

impl Controlee {
    /// Builds a controlee from the mirror; fails exactly when the short
    /// address is not two bytes.
    pub fn try_from_proto(item: &ProtoControlee) -> (r: Result<Controlee, ProtoConversionError>)
        ensures
            r is Ok <==> item.short_address@.len() == 2,
            r matches Ok(c) ==> c.short_address@ == item.short_address@ && c.subsession_id
                == item.subsession_id,
            r matches Err(e) ==> e == ProtoConversionError::ShortAddress,
    {
        if item.short_address.len() != 2 {
            return Result::Err(ProtoConversionError::ShortAddress);
        }
        let short_address: [u8; 2] = [item.short_address[0], item.short_address[1]];
        proof {
            assert(short_address@ =~= item.short_address@);
        }
        Result::Ok(Controlee { short_address, subsession_id: item.subsession_id })
    }
}

/// The byte width an address must have under each addressing mode.
pub open spec fn address_len_spec(mode: MacAddressMode) -> int {
    match mode {
        MacAddressMode::MacAddress2Bytes => 2,
        MacAddressMode::MacAddress8Bytes2BytesHeader => 2,
        MacAddressMode::MacAddress8Bytes => 8,
    }
}

/// Rebuilds a typed address from raw bytes under an addressing mode.
///
/// Succeeds exactly when the byte string has the mode's width; the produced
/// address carries the same bytes and is consistent with the mode. The
/// eight-byte-with-two-byte-header mode addresses peers by their two-byte
/// short address.
pub fn to_uwb_address(bytes: &Vec<u8>, mode: MacAddressMode) -> (r: Option<UwbAddress>)
    ensures
        r is Some <==> bytes@.len() == address_len_spec(mode),
        r matches Some(a) ==> a.bytes_spec() == bytes@ && address_mode_consistent(mode, a),
{
    match mode {
        MacAddressMode::MacAddress2Bytes | MacAddressMode::MacAddress8Bytes2BytesHeader => {
            if bytes.len() != 2 {
                return Option::None;
            }
            let a: [u8; 2] = [bytes[0], bytes[1]];
            proof {
                assert(a@ =~= bytes@);
            }
            Option::Some(UwbAddress::Short(a))
        },
        MacAddressMode::MacAddress8Bytes => {
            if bytes.len() != 8 {
                return Option::None;
            }
            let a: [u8; 8] = [
                bytes[0],
                bytes[1],
                bytes[2],
                bytes[3],
                bytes[4],
                bytes[5],
                bytes[6],
                bytes[7],
            ];
            proof {
                assert(a@ =~= bytes@);
            }
            Option::Some(UwbAddress::Extended(a))
        },
    }
}

/// Relies on zeroize's `Zeroize` for `Vec<u8>`: it overwrites the vector's
/// whole capacity — elements and spare — with zeros and then clears it, so
/// the vector comes back empty with no byte of its old content left in its
/// buffer.
#[verifier::external_body]
fn zeroize_bytes(v: &mut Vec<u8>)
    ensures
        final(v)@.len() == 0,
{
    v.zeroize()
}

/// Relies on zeroize's `Zeroize` for `u32`: it overwrites the value with
/// zero through a volatile write.
#[verifier::external_body]
fn zeroize_u32(x: &mut u32)
    ensures
        *final(x) == 0,
{
    x.zeroize()
}


/// The mirror of the FiRa configuration record: enumerated fields carried as
/// their core values (the wire mapping is one-to-one and total), numeric
/// fields widened to the boundary's 32-bit representation, addresses and the
/// static STS key material as raw byte strings, and submessages optional.
#[derive(Debug, PartialEq, Eq)]
pub struct ProtoFiraAppConfigParams {
    pub device_type: DeviceType,
    pub ranging_round_usage: RangingRoundUsage,
    pub sts_config: StsConfig,
    pub multi_node_mode: MultiNodeMode,
    pub channel_number: UwbChannel,
    pub device_mac_address: Vec<u8>,
    pub dst_mac_address: Vec<Vec<u8>>,
    pub slot_duration_rstu: u32,
    pub ranging_interval_ms: u32,
    pub mac_fcs_type: MacFcsType,
    pub ranging_round_control: Option<ProtoRangingRoundControl>,
    pub aoa_result_request: AoaResultRequest,
    pub range_data_ntf_config: RangeDataNtfConfig,
    pub range_data_ntf_proximity_near_cm: u32,
    pub range_data_ntf_proximity_far_cm: u32,
    pub device_role: DeviceRole,
    pub rframe_config: RframeConfig,
    pub preamble_code_index: u32,
    pub sfd_id: u32,
    pub session_priority: u32,
    pub mac_address_mode: MacAddressMode,
    pub vendor_id: Vec<u8>,
    pub static_sts_iv: Vec<u8>,
    pub sub_session_id: u32,
    pub result_report_config: Option<ProtoResultReportConfig>,
    pub hopping_mode: HoppingMode,
    pub in_band_termination_attempt_count: u32,
    pub max_rr_retry: u32,
    pub uwb_initiation_time_ms: u32,
    pub block_stride_length: u32,
}

impl ProtoFiraAppConfigParams {
    /// Mirrors a configuration record; total, field for field.
    pub fn from_params(item: &FiraAppConfigParams) -> (r: Self)
        ensures
            r.device_type == item.device_type,
            r.ranging_round_usage == item.ranging_round_usage,
            r.sts_config == item.sts_config,
            r.multi_node_mode == item.multi_node_mode,
            r.channel_number == item.channel_number,
            r.device_mac_address@ == item.device_mac_address.bytes_spec(),
            r.dst_mac_address@.len() == item.dst_mac_address@.len(),
            forall|i: int|
                0 <= i < item.dst_mac_address@.len() ==> (#[trigger] r.dst_mac_address@[i])@
                    == item.dst_mac_address@[i].bytes_spec(),
            r.slot_duration_rstu == item.slot_duration_rstu as u32,
            r.ranging_interval_ms == item.ranging_interval_ms,
            r.mac_fcs_type == item.mac_fcs_type,
            r.ranging_round_control == Option::Some(
                ProtoRangingRoundControl {
                    ranging_result_report_message:
                        item.ranging_round_control.ranging_result_report_message,
                    control_message: item.ranging_round_control.control_message,
                    measurement_report_message:
                        item.ranging_round_control.measurement_report_message,
                },
            ),
            r.aoa_result_request == item.aoa_result_request,
            r.range_data_ntf_config == item.range_data_ntf_config,
            r.range_data_ntf_proximity_near_cm == item.range_data_ntf_proximity_near_cm as u32,
            r.range_data_ntf_proximity_far_cm == item.range_data_ntf_proximity_far_cm as u32,
            r.device_role == item.device_role,
            r.rframe_config == item.rframe_config,
            r.preamble_code_index == item.preamble_code_index as u32,
            r.sfd_id == item.sfd_id as u32,
            r.session_priority == item.session_priority as u32,
            r.mac_address_mode == item.mac_address_mode,
            r.vendor_id@ == item.vendor_id@,
            r.static_sts_iv@ == item.static_sts_iv@,
            r.sub_session_id == item.sub_session_id,
            r.result_report_config == Option::Some(
                ProtoResultReportConfig {
                    tof: item.result_report_config.tof,
                    aoa_azimuth: item.result_report_config.aoa_azimuth,
                    aoa_elevation: item.result_report_config.aoa_elevation,
                    aoa_fom: item.result_report_config.aoa_fom,
                },
            ),
            r.hopping_mode == item.hopping_mode,
            r.in_band_termination_attempt_count == item.in_band_termination_attempt_count as u32,
            r.max_rr_retry == item.max_rr_retry as u32,
            r.uwb_initiation_time_ms == item.uwb_initiation_time_ms,
            r.block_stride_length == item.block_stride_length as u32,
    {
        let mut dst_mac_address: Vec<Vec<u8>> = Vec::new();
        let mut i: usize = 0;
        while i < item.dst_mac_address.len()
            invariant
                i <= item.dst_mac_address@.len(),
                dst_mac_address@.len() == i,
                forall|k: int|
                    0 <= k < i ==> (#[trigger] dst_mac_address@[k])@
                        == item.dst_mac_address@[k].bytes_spec(),
            decreases item.dst_mac_address@.len() - i,
        {
            dst_mac_address.push(item.dst_mac_address[i].to_bytes());
            i = i + 1;
        }
        ProtoFiraAppConfigParams {
            device_type: item.device_type,
            ranging_round_usage: item.ranging_round_usage,
            sts_config: item.sts_config,
            multi_node_mode: item.multi_node_mode,
            channel_number: item.channel_number,
            device_mac_address: item.device_mac_address.to_bytes(),
            dst_mac_address,
            slot_duration_rstu: item.slot_duration_rstu as u32,
            ranging_interval_ms: item.ranging_interval_ms,
            mac_fcs_type: item.mac_fcs_type,
            ranging_round_control: Option::Some(item.ranging_round_control.to_proto()),
            aoa_result_request: item.aoa_result_request,
            range_data_ntf_config: item.range_data_ntf_config,
            range_data_ntf_proximity_near_cm: item.range_data_ntf_proximity_near_cm as u32,
            range_data_ntf_proximity_far_cm: item.range_data_ntf_proximity_far_cm as u32,
            device_role: item.device_role,
            rframe_config: item.rframe_config,
            preamble_code_index: item.preamble_code_index as u32,
            sfd_id: item.sfd_id as u32,
            session_priority: item.session_priority as u32,
            mac_address_mode: item.mac_address_mode,
            vendor_id: array_to_vec::<2>(&item.vendor_id),
            static_sts_iv: array_to_vec::<6>(&item.static_sts_iv),
            sub_session_id: item.sub_session_id,
            result_report_config: Option::Some(item.result_report_config.to_proto()),
            hopping_mode: item.hopping_mode,
            in_band_termination_attempt_count: item.in_band_termination_attempt_count as u32,
            max_rr_retry: item.max_rr_retry as u32,
            uwb_initiation_time_ms: item.uwb_initiation_time_ms,
            block_stride_length: item.block_stride_length as u32,
        }
    }

    /// Overwrites the sensitive key material held by the mirror — vendor id,
    /// static STS initialization vector, sub-session id — with zeros, to be
    /// called before the mirror's storage is released. Every other field is
    /// left as it was.
    pub fn scrub(&mut self)
        ensures
            final(self).vendor_id@.len() == 0,
            final(self).static_sts_iv@.len() == 0,
            final(self).sub_session_id == 0,
            final(self).device_type == old(self).device_type,
            final(self).ranging_round_usage == old(self).ranging_round_usage,
            final(self).sts_config == old(self).sts_config,
            final(self).multi_node_mode == old(self).multi_node_mode,
            final(self).channel_number == old(self).channel_number,
            final(self).device_mac_address == old(self).device_mac_address,
            final(self).dst_mac_address == old(self).dst_mac_address,
            final(self).slot_duration_rstu == old(self).slot_duration_rstu,
            final(self).ranging_interval_ms == old(self).ranging_interval_ms,
            final(self).mac_fcs_type == old(self).mac_fcs_type,
            final(self).ranging_round_control == old(self).ranging_round_control,
            final(self).aoa_result_request == old(self).aoa_result_request,
            final(self).range_data_ntf_config == old(self).range_data_ntf_config,
            final(self).range_data_ntf_proximity_near_cm == old(
                self,
            ).range_data_ntf_proximity_near_cm,
            final(self).range_data_ntf_proximity_far_cm == old(
                self,
            ).range_data_ntf_proximity_far_cm,
            final(self).device_role == old(self).device_role,
            final(self).rframe_config == old(self).rframe_config,
            final(self).preamble_code_index == old(self).preamble_code_index,
            final(self).sfd_id == old(self).sfd_id,
            final(self).session_priority == old(self).session_priority,
            final(self).mac_address_mode == old(self).mac_address_mode,
            final(self).result_report_config == old(self).result_report_config,
            final(self).hopping_mode == old(self).hopping_mode,
            final(self).in_band_termination_attempt_count == old(
                self,
            ).in_band_termination_attempt_count,
            final(self).max_rr_retry == old(self).max_rr_retry,
            final(self).uwb_initiation_time_ms == old(self).uwb_initiation_time_ms,
            final(self).block_stride_length == old(self).block_stride_length,
    {
        zeroize_bytes(&mut self.vendor_id);
        zeroize_bytes(&mut self.static_sts_iv);
        zeroize_u32(&mut self.sub_session_id);
    }
}

/// The conversion-level checks of the FiRa mirror: every byte string has its
/// prescribed width, every widened numeric fits its core width, and both
/// submessages are present.
pub open spec fn fira_proto_convertible(item: ProtoFiraAppConfigParams) -> bool {
    &&& item.device_mac_address@.len() == address_len_spec(item.mac_address_mode)
    &&& forall|j: int|
        0 <= j < item.dst_mac_address@.len() ==> (#[trigger] item.dst_mac_address@[j])@.len()
            == address_len_spec(item.mac_address_mode)
    &&& item.slot_duration_rstu <= u16::MAX
    &&& item.ranging_round_control is Some
    &&& item.range_data_ntf_proximity_near_cm <= u16::MAX
    &&& item.range_data_ntf_proximity_far_cm <= u16::MAX
    &&& item.preamble_code_index <= u8::MAX
    &&& item.sfd_id <= u8::MAX
    &&& item.session_priority <= u8::MAX
    &&& item.vendor_id@.len() == 2
    &&& item.static_sts_iv@.len() == 6
    &&& item.result_report_config is Some
    &&& item.in_band_termination_attempt_count <= u8::MAX
    &&& item.max_rr_retry <= u16::MAX
    &&& item.block_stride_length <= u8::MAX
}

/// The record-level rules the rebuilt configuration must pass, stated over
/// the mirror's widened values.
pub open spec fn fira_proto_buildable(item: ProtoFiraAppConfigParams) -> bool {
    &&& 9 <= item.preamble_code_index <= 32
    &&& item.sfd_id <= 4
    &&& 1 <= item.session_priority <= 100
    &&& item.range_data_ntf_proximity_near_cm <= item.range_data_ntf_proximity_far_cm
    &&& 1 <= item.in_band_termination_attempt_count <= 10
    &&& 1 <= item.dst_mac_address@.len() <= 8
}

/// The first check of [`AppConfigParams::try_from_proto`] that fails, in its
/// checking order.
pub open spec fn fira_proto_first_error(item: ProtoFiraAppConfigParams) -> ProtoConversionError {
    if item.device_mac_address@.len() != address_len_spec(item.mac_address_mode) {
        ProtoConversionError::DeviceMacAddress
    } else if exists|j: int|
        0 <= j < item.dst_mac_address@.len() && (#[trigger] item.dst_mac_address@[j])@.len()
            != address_len_spec(item.mac_address_mode) {
        ProtoConversionError::DstMacAddress
    } else if item.slot_duration_rstu > u16::MAX {
        ProtoConversionError::SlotDurationRstu
    } else if item.ranging_round_control is None {
        ProtoConversionError::RangingRoundControl
    } else if item.range_data_ntf_proximity_near_cm > u16::MAX {
        ProtoConversionError::ProximityNearCm
    } else if item.range_data_ntf_proximity_far_cm > u16::MAX {
        ProtoConversionError::ProximityFarCm
    } else if item.preamble_code_index > u8::MAX {
        ProtoConversionError::PreambleCodeIndex
    } else if item.sfd_id > u8::MAX {
        ProtoConversionError::SfdId
    } else if item.session_priority > u8::MAX {
        ProtoConversionError::SessionPriority
    } else if item.vendor_id@.len() != 2 {
        ProtoConversionError::VendorId
    } else if item.static_sts_iv@.len() != 6 {
        ProtoConversionError::StaticStsIv
    } else if item.result_report_config is None {
        ProtoConversionError::ResultReportConfig
    } else if item.in_band_termination_attempt_count > u8::MAX {
        ProtoConversionError::InBandTerminationAttemptCount
    } else if item.max_rr_retry > u16::MAX {
        ProtoConversionError::MaxRrRetry
    } else if item.block_stride_length > u8::MAX {
        ProtoConversionError::BlockStrideLength
    } else {
        ProtoConversionError::Build
    }
}

impl AppConfigParams {
    /// Rebuilds a FiRa configuration from its mirror.
    ///
    /// Succeeds exactly when every byte string has its prescribed width,
    /// every widened numeric fits, both submessages are present, and the
    /// rebuilt record passes the configuration rules; the failure names the
    /// first field that was malformed. Malformed values never reach the
    /// radio: rejection happens here, at build time.
    #[verifier::rlimit(60)]
    pub fn try_from_proto(item: ProtoFiraAppConfigParams) -> (r: Result<
        AppConfigParams,
        ProtoConversionError,
    >)
        ensures
            r is Ok <==> fira_proto_convertible(item) && fira_proto_buildable(item),
            r matches Err(e) ==> e == fira_proto_first_error(item),
            r matches Ok(p) ==> p matches AppConfigParams::Fira(f) && {
                &&& f.device_type == item.device_type
                &&& f.ranging_round_usage == item.ranging_round_usage
                &&& f.sts_config == item.sts_config
                &&& f.multi_node_mode == item.multi_node_mode
                &&& f.channel_number == item.channel_number
                &&& f.device_mac_address.bytes_spec() == item.device_mac_address@
                &&& f.dst_mac_address@.len() == item.dst_mac_address@.len()
                &&& forall|j: int|
                    0 <= j < f.dst_mac_address@.len() ==> (
                    #[trigger] f.dst_mac_address@[j]).bytes_spec() == item.dst_mac_address@[j]@
                &&& f.slot_duration_rstu == item.slot_duration_rstu as u16
                &&& f.ranging_interval_ms == item.ranging_interval_ms
                &&& f.mac_fcs_type == item.mac_fcs_type
                &&& f.ranging_round_control == (RangingRoundControl {
                    ranging_result_report_message:
                        item.ranging_round_control->Some_0.ranging_result_report_message,
                    control_message: item.ranging_round_control->Some_0.control_message,
                    measurement_report_message:
                        item.ranging_round_control->Some_0.measurement_report_message,
                })
                &&& f.aoa_result_request == item.aoa_result_request
                &&& f.range_data_ntf_config == item.range_data_ntf_config
                &&& f.range_data_ntf_proximity_near_cm
                    == item.range_data_ntf_proximity_near_cm as u16
                &&& f.range_data_ntf_proximity_far_cm
                    == item.range_data_ntf_proximity_far_cm as u16
                &&& f.device_role == item.device_role
                &&& f.rframe_config == item.rframe_config
                &&& f.preamble_code_index == item.preamble_code_index as u8
                &&& f.sfd_id == item.sfd_id as u8
                &&& f.session_priority == item.session_priority as u8
                &&& f.mac_address_mode == item.mac_address_mode
                &&& f.vendor_id@ == item.vendor_id@
                &&& f.static_sts_iv@ == item.static_sts_iv@
                &&& f.sub_session_id == item.sub_session_id
                &&& f.result_report_config == (ResultReportConfig {
                    tof: item.result_report_config->Some_0.tof,
                    aoa_azimuth: item.result_report_config->Some_0.aoa_azimuth,
                    aoa_elevation: item.result_report_config->Some_0.aoa_elevation,
                    aoa_fom: item.result_report_config->Some_0.aoa_fom,
                })
                &&& f.hopping_mode == item.hopping_mode
                &&& f.in_band_termination_attempt_count
                    == item.in_band_termination_attempt_count as u8
                &&& f.max_rr_retry == item.max_rr_retry as u16
                &&& f.uwb_initiation_time_ms == item.uwb_initiation_time_ms
                &&& f.block_stride_length == item.block_stride_length as u8
                &&& f.valid_spec()
            },
    {
        let device_mac_address = match to_uwb_address(
            &item.device_mac_address,
            item.mac_address_mode,
        ) {
            Option::Some(a) => a,
            Option::None => {
                return Result::Err(ProtoConversionError::DeviceMacAddress);
            },
        };
        let mut dst_mac_address: Vec<UwbAddress> = Vec::new();
        let mut dst_ok = true;
        let mut k: usize = 0;
        while k < item.dst_mac_address.len()
            invariant
                k <= item.dst_mac_address@.len(),
                dst_ok ==> dst_mac_address@.len() == k,
                dst_ok ==> forall|j: int|
                    0 <= j < k ==> (#[trigger] dst_mac_address@[j]).bytes_spec()
                        == item.dst_mac_address@[j]@ && address_mode_consistent(
                        item.mac_address_mode,
                        dst_mac_address@[j],
                    ),
                dst_ok == (forall|j: int|
                    0 <= j < k ==> (#[trigger] item.dst_mac_address@[j])@.len()
                        == address_len_spec(item.mac_address_mode)),
            decreases item.dst_mac_address@.len() - k,
        {
            match to_uwb_address(&item.dst_mac_address[k], item.mac_address_mode) {
                Option::Some(a) => {
                    if dst_ok {
                        dst_mac_address.push(a);
                    }
                },
                Option::None => {
                    dst_ok = false;
                },
            }
            k = k + 1;
        }
        if !dst_ok {
            return Result::Err(ProtoConversionError::DstMacAddress);
        }
        if item.slot_duration_rstu > 0xFFFF {
            return Result::Err(ProtoConversionError::SlotDurationRstu);
        }
        let ranging_round_control = match item.ranging_round_control {
            Option::Some(c) => c,
            Option::None => {
                return Result::Err(ProtoConversionError::RangingRoundControl);
            },
        };
        if item.range_data_ntf_proximity_near_cm > 0xFFFF {
            return Result::Err(ProtoConversionError::ProximityNearCm);
        }
        if item.range_data_ntf_proximity_far_cm > 0xFFFF {
            return Result::Err(ProtoConversionError::ProximityFarCm);
        }
        if item.preamble_code_index > 0xFF {
            return Result::Err(ProtoConversionError::PreambleCodeIndex);
        }
        if item.sfd_id > 0xFF {
            return Result::Err(ProtoConversionError::SfdId);
        }
        if item.session_priority > 0xFF {
            return Result::Err(ProtoConversionError::SessionPriority);
        }
        if item.vendor_id.len() != 2 {
            return Result::Err(ProtoConversionError::VendorId);
        }
        let vendor_id: [u8; 2] = [item.vendor_id[0], item.vendor_id[1]];
        if item.static_sts_iv.len() != 6 {
            return Result::Err(ProtoConversionError::StaticStsIv);
        }
        let static_sts_iv: [u8; 6] = [
            item.static_sts_iv[0],
            item.static_sts_iv[1],
            item.static_sts_iv[2],
            item.static_sts_iv[3],
            item.static_sts_iv[4],
            item.static_sts_iv[5],
        ];
        let result_report_config = match item.result_report_config {
            Option::Some(c) => c,
            Option::None => {
                return Result::Err(ProtoConversionError::ResultReportConfig);
            },
        };
        if item.in_band_termination_attempt_count > 0xFF {
            return Result::Err(ProtoConversionError::InBandTerminationAttemptCount);
        }
        if item.max_rr_retry > 0xFFFF {
            return Result::Err(ProtoConversionError::MaxRrRetry);
        }
        if item.block_stride_length > 0xFF {
            return Result::Err(ProtoConversionError::BlockStrideLength);
        }
        proof {
            assert(vendor_id@ =~= item.vendor_id@);
            assert(static_sts_iv@ =~= item.static_sts_iv@);
            assert(item.dst_mac_address@.take(item.dst_mac_address@.len() as int)
                =~= item.dst_mac_address@);
        }
        let builder = FiraAppConfigParamsBuilder::new().device_type(item.device_type)
            .ranging_round_usage(item.ranging_round_usage)
            .sts_config(item.sts_config)
            .multi_node_mode(item.multi_node_mode)
            .channel_number(item.channel_number)
            .device_mac_address(device_mac_address)
            .dst_mac_address(dst_mac_address)
            .slot_duration_rstu(item.slot_duration_rstu as u16)
            .ranging_interval_ms(item.ranging_interval_ms)
            .mac_fcs_type(item.mac_fcs_type)
            .ranging_round_control(RangingRoundControl::from_proto(&ranging_round_control))
            .aoa_result_request(item.aoa_result_request)
            .range_data_ntf_config(item.range_data_ntf_config)
            .range_data_ntf_proximity_near_cm(item.range_data_ntf_proximity_near_cm as u16)
            .range_data_ntf_proximity_far_cm(item.range_data_ntf_proximity_far_cm as u16)
            .device_role(item.device_role)
            .rframe_config(item.rframe_config)
            .preamble_code_index(item.preamble_code_index as u8)
            .sfd_id(item.sfd_id as u8)
            .session_priority(item.session_priority as u8)
            .mac_address_mode(item.mac_address_mode)
            .vendor_id(vendor_id)
            .static_sts_iv(static_sts_iv)
            .sub_session_id(item.sub_session_id)
            .result_report_config(ResultReportConfig::from_proto(&result_report_config))
            .hopping_mode(item.hopping_mode)
            .in_band_termination_attempt_count(item.in_band_termination_attempt_count as u8)
            .max_rr_retry(item.max_rr_retry as u16)
            .uwb_initiation_time_ms(item.uwb_initiation_time_ms)
            .block_stride_length(item.block_stride_length as u8);
        match builder.build() {
            Option::Some(p) => Result::Ok(AppConfigParams::Fira(p)),
            Option::None => Result::Err(ProtoConversionError::Build),
        }
    }
}


} // verus!
