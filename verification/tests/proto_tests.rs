//! Tests of the cross-process mirror: conversions, the status mapping, and
//! the scrubbing of key material.

use uwb_core::error::Error;
use uwb_core::params::app_config_params::AppConfigParams;
use uwb_core::params::fira_app_config_params::{
    DeviceRole, DeviceType, FiraAppConfigParamsBuilder, MacAddressMode, MultiNodeMode, UwbAddress,
    UwbChannel,
};
use uwb_core::params::uci_packets::{
    Controlee, PowerStats, RangingMeasurementType, ShortAddressTwoWayRangingMeasurement,
    StatusCode,
};
use uwb_core::proto::mappings::{
    status_from_result, to_uwb_address, ProtoControlee, ProtoConversionError,
    ProtoFiraAppConfigParams, ProtoPowerStats, ProtoRangingMeasurement, ProtoSessionRangeData,
    ProtoStatus,
};
use uwb_core::uci::notification::{RangingMeasurements, SessionRangeData};

fn fira_params() -> AppConfigParams {
    AppConfigParams::Fira(
        FiraAppConfigParamsBuilder::new()
            .device_type(DeviceType::Controlee)
            .multi_node_mode(MultiNodeMode::OneToMany)
            .channel_number(UwbChannel::Channel5)
            .device_mac_address(UwbAddress::Short([10, 11]))
            .dst_mac_address(vec![UwbAddress::Short([12, 13]), UwbAddress::Short([14, 15])])
            .device_role(DeviceRole::Responder)
            .vendor_id([0xAA, 0xBB])
            .static_sts_iv([1, 2, 3, 4, 5, 6])
            .sub_session_id(99)
            .build()
            .unwrap(),
    )
}

fn fira_mirror() -> ProtoFiraAppConfigParams {
    match fira_params() {
        AppConfigParams::Fira(f) => ProtoFiraAppConfigParams::from_params(&f),
        AppConfigParams::Ccc(_) => panic!("fira expected"),
    }
}

fn short_measurement() -> ShortAddressTwoWayRangingMeasurement {
    ShortAddressTwoWayRangingMeasurement {
        mac_address: 0x1234,
        status: StatusCode::UciStatusOk,
        nlos: 0,
        distance: 150,
        aoa_azimuth: 90,
        aoa_azimuth_fom: 50,
        aoa_elevation: 45,
        aoa_elevation_fom: 60,
        aoa_destination_azimuth: 10,
        aoa_destination_azimuth_fom: 70,
        aoa_destination_elevation: 20,
        aoa_destination_elevation_fom: 80,
        slot_index: 3,
        rssi: 90,
    }
}

#[test]
fn test_fira_mirror_fields() {
    let mirror = fira_mirror();
    assert_eq!(mirror.device_type, DeviceType::Controlee);
    assert_eq!(mirror.device_mac_address, vec![10, 11]);
    assert_eq!(mirror.dst_mac_address, vec![vec![12, 13], vec![14, 15]]);
    assert_eq!(mirror.slot_duration_rstu, 2400);
    assert_eq!(mirror.vendor_id, vec![0xAA, 0xBB]);
    assert_eq!(mirror.static_sts_iv, vec![1, 2, 3, 4, 5, 6]);
    assert_eq!(mirror.sub_session_id, 99);
    assert!(mirror.ranging_round_control.is_some());
    assert!(mirror.result_report_config.is_some());
}

#[test]
fn test_fira_proto_round_trip() {
    let params = fira_params();
    let mirror = fira_mirror();
    let rebuilt = AppConfigParams::try_from_proto(mirror).unwrap();
    assert_eq!(rebuilt, params);
}

#[test]
fn test_try_from_proto_rejects_bad_vendor_id() {
    let mut mirror = fira_mirror();
    mirror.vendor_id = vec![1];
    assert_eq!(
        AppConfigParams::try_from_proto(mirror),
        Err(ProtoConversionError::VendorId)
    );
}

#[test]
fn test_try_from_proto_rejects_bad_static_sts_iv() {
    let mut mirror = fira_mirror();
    mirror.static_sts_iv = vec![1, 2, 3];
    assert_eq!(
        AppConfigParams::try_from_proto(mirror),
        Err(ProtoConversionError::StaticStsIv)
    );
}

#[test]
fn test_try_from_proto_rejects_wide_numeric() {
    let mut mirror = fira_mirror();
    mirror.session_priority = 300;
    assert_eq!(
        AppConfigParams::try_from_proto(mirror),
        Err(ProtoConversionError::SessionPriority)
    );
}

#[test]
fn test_try_from_proto_rejects_bad_device_address() {
    let mut mirror = fira_mirror();
    mirror.device_mac_address = vec![1, 2, 3];
    assert_eq!(
        AppConfigParams::try_from_proto(mirror),
        Err(ProtoConversionError::DeviceMacAddress)
    );
}

#[test]
fn test_try_from_proto_rejects_bad_destination_address() {
    let mut mirror = fira_mirror();
    mirror.dst_mac_address = vec![vec![12, 13], vec![14]];
    assert_eq!(
        AppConfigParams::try_from_proto(mirror),
        Err(ProtoConversionError::DstMacAddress)
    );
}

#[test]
fn test_try_from_proto_rejects_missing_submessage() {
    let mut mirror = fira_mirror();
    mirror.ranging_round_control = None;
    assert_eq!(
        AppConfigParams::try_from_proto(mirror),
        Err(ProtoConversionError::RangingRoundControl)
    );
}

#[test]
fn test_try_from_proto_rejects_unbuildable_record() {
    // Fits the narrow width but violates the configuration rules.
    let mut mirror = fira_mirror();
    mirror.preamble_code_index = 50;
    assert_eq!(
        AppConfigParams::try_from_proto(mirror),
        Err(ProtoConversionError::Build)
    );
}

#[test]
fn test_to_uwb_address_widths() {
    assert_eq!(
        to_uwb_address(&vec![1, 2], MacAddressMode::MacAddress2Bytes),
        Some(UwbAddress::Short([1, 2]))
    );
    assert_eq!(
        to_uwb_address(&vec![1, 2], MacAddressMode::MacAddress8Bytes2BytesHeader),
        Some(UwbAddress::Short([1, 2]))
    );
    assert_eq!(
        to_uwb_address(&vec![1, 2, 3, 4, 5, 6, 7, 8], MacAddressMode::MacAddress8Bytes),
        Some(UwbAddress::Extended([1, 2, 3, 4, 5, 6, 7, 8]))
    );
    assert_eq!(to_uwb_address(&vec![1, 2, 3], MacAddressMode::MacAddress2Bytes), None);
    assert_eq!(to_uwb_address(&vec![1, 2], MacAddressMode::MacAddress8Bytes), None);
}

#[test]
fn test_controlee_from_proto() {
    let ok = Controlee::try_from_proto(&ProtoControlee {
        short_address: vec![1, 2],
        subsession_id: 7,
    });
    assert_eq!(ok, Ok(Controlee { short_address: [1, 2], subsession_id: 7 }));
    let err = Controlee::try_from_proto(&ProtoControlee {
        short_address: vec![1, 2, 3],
        subsession_id: 7,
    });
    assert_eq!(err, Err(ProtoConversionError::ShortAddress));
}

#[test]
fn test_status_from_result_is_total() {
    assert_eq!(status_from_result::<()>(&Ok(())), ProtoStatus::OK);
    assert_eq!(status_from_result::<()>(&Err(Error::BadParameters)), ProtoStatus::BAD_PARAMETERS);
    assert_eq!(
        status_from_result::<()>(&Err(Error::MaxSessionsExceeded)),
        ProtoStatus::MAX_SESSIONS_EXCEEDED
    );
    assert_eq!(
        status_from_result::<()>(&Err(Error::MaxRrRetryReached)),
        ProtoStatus::MAX_RR_RETRY_REACHED
    );
    assert_eq!(
        status_from_result::<()>(&Err(Error::ProtocolSpecific)),
        ProtoStatus::PROTOCOL_SPECIFIC
    );
    assert_eq!(status_from_result::<()>(&Err(Error::RemoteRequest)), ProtoStatus::REMOTE_REQUEST);
    assert_eq!(status_from_result::<()>(&Err(Error::Timeout)), ProtoStatus::TIMEOUT);
    assert_eq!(status_from_result::<()>(&Err(Error::CommandRetry)), ProtoStatus::COMMAND_RETRY);
    assert_eq!(
        status_from_result::<()>(&Err(Error::DuplicatedSessionId)),
        ProtoStatus::DUPLICATED_SESSION_ID
    );
    assert_eq!(status_from_result::<()>(&Err(Error::Unknown)), ProtoStatus::UNKNOWN);
}

#[test]
fn test_measurement_mirror_values() {
    let m = ProtoRangingMeasurement::from_short(&short_measurement());
    assert_eq!(m.mac_address, 0x1234);
    // UciStatusOk's wire identifier.
    assert_eq!(m.status, 0);
    assert_eq!(m.distance, 150);
    assert_eq!(m.aoa_azimuth, 90);
    assert_eq!(m.slot_index, 3);
    assert_eq!(m.rssi, 90);
}

#[test]
fn test_session_range_data_mirror_round_trip() {
    let mut second = short_measurement();
    second.mac_address = 0x5678;
    second.status = StatusCode::UciStatusRangingRxTimeout;
    let data = SessionRangeData {
        sequence_number: 5,
        session_id: 7,
        current_ranging_interval_ms: 200,
        ranging_measurement_type: RangingMeasurementType::TwoWay,
        ranging_measurements: RangingMeasurements::Short(vec![short_measurement(), second]),
    };
    let mirror = ProtoSessionRangeData::from_session_range_data(data);
    assert_eq!(mirror.sequence_number, 5);
    assert_eq!(mirror.session_id, 7);
    assert_eq!(mirror.ranging_measurement_type, RangingMeasurementType::TwoWay);
    // Read the repeated field back through the outside crate's own API: the
    // container must hold exactly the widened measurements, in order.
    let held = mirror.ranging_measurements.into_vec();
    assert_eq!(held.len(), 2);
    assert_eq!(held[0], ProtoRangingMeasurement::from_short(&short_measurement()));
    assert_eq!(held[1].mac_address, 0x5678);
    // UciStatusRangingRxTimeout's wire identifier.
    assert_eq!(held[1].status, 0x21);
}

#[test]
fn test_power_stats_mirror() {
    let stats = PowerStats {
        status: StatusCode::UciStatusOk,
        idle_time_ms: 100,
        tx_time_ms: 200,
        rx_time_ms: 300,
        total_wake_count: 4,
    };
    let mirror = ProtoPowerStats::from_power_stats(&stats);
    assert_eq!(mirror.status, 0);
    assert_eq!(mirror.idle_time_ms, 100);
    assert_eq!(mirror.tx_time_ms, 200);
    assert_eq!(mirror.rx_time_ms, 300);
    assert_eq!(mirror.total_wake_count, 4);
}

#[test]
fn test_scrub_zeroes_key_material_and_keeps_the_rest() {
    let mut mirror = fira_mirror();
    mirror.scrub();
    assert_eq!(mirror.vendor_id, Vec::<u8>::new());
    assert_eq!(mirror.static_sts_iv, Vec::<u8>::new());
    assert_eq!(mirror.sub_session_id, 0);
    // Everything that is not key material is untouched.
    assert_eq!(mirror.device_type, DeviceType::Controlee);
    assert_eq!(mirror.channel_number, UwbChannel::Channel5);
    assert_eq!(mirror.device_mac_address, vec![10, 11]);
    assert_eq!(mirror.slot_duration_rstu, 2400);
}

#[test]
fn test_try_from_proto_remaining_numeric_rejections() {
    let mut mirror = fira_mirror();
    mirror.slot_duration_rstu = 0x1_0000;
    assert_eq!(
        AppConfigParams::try_from_proto(mirror),
        Err(ProtoConversionError::SlotDurationRstu)
    );
    let mut mirror = fira_mirror();
    mirror.range_data_ntf_proximity_near_cm = 0x1_0000;
    assert_eq!(
        AppConfigParams::try_from_proto(mirror),
        Err(ProtoConversionError::ProximityNearCm)
    );
    let mut mirror = fira_mirror();
    mirror.range_data_ntf_proximity_far_cm = 0x1_0000;
    assert_eq!(
        AppConfigParams::try_from_proto(mirror),
        Err(ProtoConversionError::ProximityFarCm)
    );
    let mut mirror = fira_mirror();
    mirror.preamble_code_index = 0x100;
    assert_eq!(
        AppConfigParams::try_from_proto(mirror),
        Err(ProtoConversionError::PreambleCodeIndex)
    );
    let mut mirror = fira_mirror();
    mirror.sfd_id = 0x100;
    assert_eq!(AppConfigParams::try_from_proto(mirror), Err(ProtoConversionError::SfdId));
    let mut mirror = fira_mirror();
    mirror.result_report_config = None;
    assert_eq!(
        AppConfigParams::try_from_proto(mirror),
        Err(ProtoConversionError::ResultReportConfig)
    );
    let mut mirror = fira_mirror();
    mirror.in_band_termination_attempt_count = 0x100;
    assert_eq!(
        AppConfigParams::try_from_proto(mirror),
        Err(ProtoConversionError::InBandTerminationAttemptCount)
    );
    let mut mirror = fira_mirror();
    mirror.max_rr_retry = 0x1_0000;
    assert_eq!(AppConfigParams::try_from_proto(mirror), Err(ProtoConversionError::MaxRrRetry));
    let mut mirror = fira_mirror();
    mirror.block_stride_length = 0x100;
    assert_eq!(
        AppConfigParams::try_from_proto(mirror),
        Err(ProtoConversionError::BlockStrideLength)
    );
}

#[test]
fn test_status_code_wire_identifiers() {
    assert_eq!(StatusCode::UciStatusOk.wire_code(), 0x00);
    assert_eq!(StatusCode::UciStatusCommandRetry.wire_code(), 0x0A);
    assert_eq!(StatusCode::UciStatusSessionDuplicate.wire_code(), 0x12);
    assert_eq!(StatusCode::UciStatusErrorCccLifecycle.wire_code(), 0x51);
}

#[test]
fn test_status_code_error_mapping() {
    assert_eq!(StatusCode::UciStatusInvalidParam.to_error(), Error::BadParameters);
    assert_eq!(StatusCode::UciStatusCommandRetry.to_error(), Error::CommandRetry);
    assert_eq!(StatusCode::UciStatusSessionDuplicate.to_error(), Error::DuplicatedSessionId);
    assert_eq!(StatusCode::UciStatusMaxSessionsExceeded.to_error(), Error::MaxSessionsExceeded);
    assert_eq!(StatusCode::UciStatusRangingTxFailed.to_error(), Error::ProtocolSpecific);
    assert_eq!(StatusCode::UciStatusFailed.to_error(), Error::Unknown);
}
