//! Tests of the configuration model: rendering, diffing and validation.

use uwb_core::params::app_config_params::AppConfigParams;
use uwb_core::params::ccc_app_config_params::{
    CccAppConfigParamsBuilder, CccProtocolVersion, CccPulseShapeCombo, CccUwbChannel, CccUwbConfig,
    ChapsPerSlot, PulseShape,
};
use uwb_core::params::fira_app_config_params::{
    DeviceRole, DeviceType, FiraAppConfigParamsBuilder, MacAddressMode, MultiNodeMode, UwbAddress,
};
use uwb_core::params::uci_packets::{AppConfigTlv, AppConfigTlvType, CountryCode, SessionType};

fn fira_builder() -> FiraAppConfigParamsBuilder {
    FiraAppConfigParamsBuilder::new()
        .device_type(DeviceType::Controller)
        .multi_node_mode(MultiNodeMode::Unicast)
        .device_mac_address(UwbAddress::Short([1, 2]))
        .dst_mac_address(vec![UwbAddress::Short([3, 4])])
        .device_role(DeviceRole::Initiator)
        .vendor_id([0xFE, 0xDC])
        .static_sts_iv([0xDF, 0xCE, 0xAB, 0x12, 0x34, 0x56])
}

fn fira_params() -> AppConfigParams {
    AppConfigParams::Fira(fira_builder().build().unwrap())
}

fn ccc_builder() -> CccAppConfigParamsBuilder {
    CccAppConfigParamsBuilder::new()
        .protocol_version(CccProtocolVersion { major: 2, minor: 1 })
        .uwb_config(CccUwbConfig::Config0)
        .pulse_shape_combo(CccPulseShapeCombo {
            initiator_tx: PulseShape::PrecursorFree,
            responder_tx: PulseShape::PrecursorFreeSpecial,
        })
        .ran_multiplier(300)
        .channel_number(CccUwbChannel::Channel9)
        .chaps_per_slot(ChapsPerSlot::S6)
        .num_responder_nodes(2)
        .sync_code_index(10)
}

fn ccc_params() -> AppConfigParams {
    AppConfigParams::Ccc(ccc_builder().build().unwrap())
}

fn tlv_value(tlvs: &[AppConfigTlv], tag: AppConfigTlvType) -> Vec<u8> {
    for t in tlvs {
        if t.cfg_id == tag {
            return t.v.clone();
        }
    }
    panic!("tag not rendered");
}

#[test]
fn test_generate_tlvs_fira_cardinality() {
    let tlvs = fira_params().generate_tlvs();
    assert_eq!(tlvs.len(), 30);
    for i in 0..tlvs.len() {
        for j in (i + 1)..tlvs.len() {
            assert_ne!(tlvs[i].cfg_id, tlvs[j].cfg_id);
        }
    }
}

#[test]
fn test_generate_tlvs_ccc_cardinality() {
    let tlvs = ccc_params().generate_tlvs();
    assert_eq!(tlvs.len(), 8);
    for i in 0..tlvs.len() {
        for j in (i + 1)..tlvs.len() {
            assert_ne!(tlvs[i].cfg_id, tlvs[j].cfg_id);
        }
    }
}

#[test]
fn test_generate_tlvs_fira_values() {
    let tlvs = fira_params().generate_tlvs();
    assert_eq!(tlv_value(&tlvs, AppConfigTlvType::DeviceType), vec![0x01]);
    assert_eq!(tlv_value(&tlvs, AppConfigTlvType::MultiNodeMode), vec![0x00]);
    assert_eq!(tlv_value(&tlvs, AppConfigTlvType::ChannelNumber), vec![9]);
    // 2400 slot-time units little endian.
    assert_eq!(tlv_value(&tlvs, AppConfigTlvType::SlotDuration), vec![0x60, 0x09]);
    // 200 ms little endian over four bytes.
    assert_eq!(tlv_value(&tlvs, AppConfigTlvType::RangingInterval), vec![0xC8, 0x00, 0x00, 0x00]);
    // Default flags: ranging result report and control message set.
    assert_eq!(tlv_value(&tlvs, AppConfigTlvType::RangingRoundControl), vec![0x03]);
    // Default result report: time-of-flight only.
    assert_eq!(tlv_value(&tlvs, AppConfigTlvType::ResultReportConfig), vec![0x01]);
    assert_eq!(tlv_value(&tlvs, AppConfigTlvType::DeviceMacAddress), vec![1, 2]);
    assert_eq!(tlv_value(&tlvs, AppConfigTlvType::DstMacAddress), vec![3, 4]);
    assert_eq!(tlv_value(&tlvs, AppConfigTlvType::VendorId), vec![0xFE, 0xDC]);
    assert_eq!(
        tlv_value(&tlvs, AppConfigTlvType::StaticStsIv),
        vec![0xDF, 0xCE, 0xAB, 0x12, 0x34, 0x56]
    );
    assert_eq!(tlv_value(&tlvs, AppConfigTlvType::SessionPriority), vec![50]);
    assert_eq!(tlv_value(&tlvs, AppConfigTlvType::MacAddressMode), vec![0x00]);
    assert_eq!(tlv_value(&tlvs, AppConfigTlvType::DeviceRole), vec![0x01]);
}

#[test]
fn test_generate_tlvs_fira_multiple_destinations() {
    let params = AppConfigParams::Fira(
        fira_builder()
            .dst_mac_address(vec![UwbAddress::Short([3, 4]), UwbAddress::Short([5, 6])])
            .build()
            .unwrap(),
    );
    let tlvs = params.generate_tlvs();
    assert_eq!(tlv_value(&tlvs, AppConfigTlvType::DstMacAddress), vec![3, 4, 5, 6]);
}

#[test]
fn test_generate_tlvs_ccc_values() {
    let tlvs = ccc_params().generate_tlvs();
    assert_eq!(tlv_value(&tlvs, AppConfigTlvType::CccRangingProtocolVer), vec![2, 1]);
    assert_eq!(tlv_value(&tlvs, AppConfigTlvType::CccUwbConfigId), vec![0x00]);
    // Initiator pulse shape in the upper nibble, responder in the lower.
    assert_eq!(tlv_value(&tlvs, AppConfigTlvType::CccPulseshapeCombo), vec![0x12]);
    // 300 little endian over four bytes.
    assert_eq!(tlv_value(&tlvs, AppConfigTlvType::CccRanMultiplier), vec![0x2C, 0x01, 0x00, 0x00]);
    assert_eq!(tlv_value(&tlvs, AppConfigTlvType::CccChannelNumber), vec![9]);
    assert_eq!(tlv_value(&tlvs, AppConfigTlvType::CccChapsPerSlot), vec![6]);
    assert_eq!(tlv_value(&tlvs, AppConfigTlvType::CccNumResponderNodes), vec![2]);
    assert_eq!(tlv_value(&tlvs, AppConfigTlvType::CccSyncCodeIndex), vec![10]);
}

#[test]
fn test_generate_updated_tlvs_contains_exactly_changes() {
    let old = fira_params();
    let new = AppConfigParams::Fira(
        fira_builder().ranging_interval_ms(300).session_priority(70).build().unwrap(),
    );
    let diff = new.generate_updated_tlvs(&old);
    assert_eq!(diff.len(), 2);
    assert_eq!(tlv_value(&diff, AppConfigTlvType::RangingInterval), vec![0x2C, 0x01, 0x00, 0x00]);
    assert_eq!(tlv_value(&diff, AppConfigTlvType::SessionPriority), vec![70]);
}

#[test]
fn test_generate_updated_tlvs_identical_is_empty() {
    let a = fira_params();
    let b = fira_params();
    assert_eq!(a.generate_updated_tlvs(&b).len(), 0);
    let c = ccc_params();
    let d = ccc_params();
    assert_eq!(c.generate_updated_tlvs(&d).len(), 0);
}

#[test]
fn test_generate_updated_tlvs_across_variants_is_empty() {
    let fira = fira_params();
    let ccc = ccc_params();
    assert_eq!(fira.generate_updated_tlvs(&ccc).len(), 0);
    assert_eq!(ccc.generate_updated_tlvs(&fira).len(), 0);
}

#[test]
fn test_generate_updated_tlvs_ccc_change() {
    let old = ccc_params();
    let new = AppConfigParams::Ccc(ccc_builder().sync_code_index(11).build().unwrap());
    let diff = new.generate_updated_tlvs(&old);
    assert_eq!(diff.len(), 1);
    assert_eq!(tlv_value(&diff, AppConfigTlvType::CccSyncCodeIndex), vec![11]);
}

#[test]
fn test_is_type_matched() {
    let fira = fira_params();
    let ccc = ccc_params();
    assert!(fira.is_type_matched(SessionType::FiraRangingSession));
    assert!(fira.is_type_matched(SessionType::FiraDataTransfer));
    assert!(!fira.is_type_matched(SessionType::Ccc));
    assert!(ccc.is_type_matched(SessionType::Ccc));
    assert!(!ccc.is_type_matched(SessionType::FiraRangingSession));
    assert!(!ccc.is_type_matched(SessionType::FiraDataTransfer));
}

#[test]
fn test_fira_builder_requires_mandatory_fields() {
    assert!(FiraAppConfigParamsBuilder::new().build().is_none());
    assert!(fira_builder().build().is_some());
}

#[test]
fn test_fira_builder_rejects_preamble_code_index_out_of_range() {
    assert!(fira_builder().preamble_code_index(8).build().is_none());
    assert!(fira_builder().preamble_code_index(33).build().is_none());
    assert!(fira_builder().preamble_code_index(9).build().is_some());
    assert!(fira_builder().preamble_code_index(32).build().is_some());
}

#[test]
fn test_fira_builder_rejects_sfd_id_out_of_range() {
    assert!(fira_builder().sfd_id(5).build().is_none());
    assert!(fira_builder().sfd_id(4).build().is_some());
}

#[test]
fn test_fira_builder_rejects_session_priority_out_of_range() {
    assert!(fira_builder().session_priority(0).build().is_none());
    assert!(fira_builder().session_priority(101).build().is_none());
    assert!(fira_builder().session_priority(1).build().is_some());
    assert!(fira_builder().session_priority(100).build().is_some());
}

#[test]
fn test_fira_builder_rejects_inverted_proximity_range() {
    assert!(
        fira_builder()
            .range_data_ntf_proximity_near_cm(30)
            .range_data_ntf_proximity_far_cm(20)
            .build()
            .is_none()
    );
    assert!(
        fira_builder()
            .range_data_ntf_proximity_near_cm(20)
            .range_data_ntf_proximity_far_cm(30)
            .build()
            .is_some()
    );
}

#[test]
fn test_fira_builder_rejects_termination_count_out_of_range() {
    assert!(fira_builder().in_band_termination_attempt_count(0).build().is_none());
    assert!(fira_builder().in_band_termination_attempt_count(11).build().is_none());
    assert!(fira_builder().in_band_termination_attempt_count(10).build().is_some());
}

#[test]
fn test_fira_builder_rejects_bad_destination_count() {
    assert!(fira_builder().dst_mac_address(vec![]).build().is_none());
    let nine = vec![
        UwbAddress::Short([0, 0]),
        UwbAddress::Short([0, 1]),
        UwbAddress::Short([0, 2]),
        UwbAddress::Short([0, 3]),
        UwbAddress::Short([0, 4]),
        UwbAddress::Short([0, 5]),
        UwbAddress::Short([0, 6]),
        UwbAddress::Short([0, 7]),
        UwbAddress::Short([0, 8]),
    ];
    assert!(fira_builder().dst_mac_address(nine).build().is_none());
}

#[test]
fn test_fira_builder_rejects_address_mode_mismatch() {
    // Two-byte mode with an extended device address.
    assert!(
        fira_builder()
            .device_mac_address(UwbAddress::Extended([1, 2, 3, 4, 5, 6, 7, 8]))
            .build()
            .is_none()
    );
    // Eight-byte mode with short addresses.
    assert!(
        fira_builder().mac_address_mode(MacAddressMode::MacAddress8Bytes).build().is_none()
    );
    // Eight-byte mode with extended addresses on both sides.
    assert!(
        fira_builder()
            .mac_address_mode(MacAddressMode::MacAddress8Bytes)
            .device_mac_address(UwbAddress::Extended([1, 2, 3, 4, 5, 6, 7, 8]))
            .dst_mac_address(vec![UwbAddress::Extended([8, 7, 6, 5, 4, 3, 2, 1])])
            .build()
            .is_some()
    );
    // The eight-byte-with-two-byte-header mode still uses short addresses.
    assert!(
        fira_builder()
            .mac_address_mode(MacAddressMode::MacAddress8Bytes2BytesHeader)
            .build()
            .is_some()
    );
}

#[test]
fn test_ccc_builder_requires_every_field() {
    assert!(CccAppConfigParamsBuilder::new().build().is_none());
    assert!(ccc_builder().build().is_some());
}

#[test]
fn test_ccc_builder_rejects_out_of_range_values() {
    assert!(ccc_builder().num_responder_nodes(0).build().is_none());
    assert!(ccc_builder().num_responder_nodes(9).build().is_none());
    assert!(ccc_builder().sync_code_index(0).build().is_none());
    assert!(ccc_builder().sync_code_index(33).build().is_none());
    assert!(ccc_builder().num_responder_nodes(8).sync_code_index(32).build().is_some());
}

#[test]
fn test_country_code_validation() {
    let ok = CountryCode::new([b'U', b'S']);
    assert!(ok.is_some());
    assert_eq!(ok.unwrap().0, [b'U', b'S']);
    assert!(CountryCode::new([b'u', b's']).is_none());
    assert!(CountryCode::new([b'U', b'1']).is_none());
}
