//! Tests of the correlation engine: single-command-in-flight serialisation,
//! the retry bound, timeouts, and the session bookkeeping.

use uwb_core::error::Error;
use uwb_core::params::app_config_params::AppConfigParams;
use uwb_core::params::ccc_app_config_params::{
    CccAppConfigParamsBuilder, CccProtocolVersion, CccPulseShapeCombo, CccUwbChannel, CccUwbConfig,
    ChapsPerSlot, PulseShape,
};
use uwb_core::params::fira_app_config_params::{
    DeviceRole, DeviceType, FiraAppConfigParamsBuilder, MultiNodeMode, UwbAddress,
};
use uwb_core::params::uci_packets::{
    AppConfigTlvType, ReasonCode, SessionState, SessionType, SetAppConfigResponse, StatusCode,
};
use uwb_core::uci::correlation::{
    CorrelationEngine, ResponseResult, SubmitResult, TimeoutResult, UciCommand, UciResponse,
    UciResponsePayload, MAX_RETRY_COUNT,
};
use uwb_core::uci::notification::{SessionNotification, UciNotification};

fn fira_params() -> AppConfigParams {
    AppConfigParams::Fira(
        FiraAppConfigParamsBuilder::new()
            .device_type(DeviceType::Controller)
            .multi_node_mode(MultiNodeMode::Unicast)
            .device_mac_address(UwbAddress::Short([1, 2]))
            .dst_mac_address(vec![UwbAddress::Short([3, 4])])
            .device_role(DeviceRole::Initiator)
            .vendor_id([0xFE, 0xDC])
            .static_sts_iv([0xDF, 0xCE, 0xAB, 0x12, 0x34, 0x56])
            .build()
            .unwrap(),
    )
}

fn ccc_params() -> AppConfigParams {
    AppConfigParams::Ccc(
        CccAppConfigParamsBuilder::new()
            .protocol_version(CccProtocolVersion { major: 1, minor: 0 })
            .uwb_config(CccUwbConfig::Config0)
            .pulse_shape_combo(CccPulseShapeCombo {
                initiator_tx: PulseShape::PrecursorFree,
                responder_tx: PulseShape::PrecursorFree,
            })
            .ran_multiplier(96)
            .channel_number(CccUwbChannel::Channel9)
            .chaps_per_slot(ChapsPerSlot::S3)
            .num_responder_nodes(1)
            .sync_code_index(1)
            .build()
            .unwrap(),
    )
}

fn response(cmd: &UciCommand, status: StatusCode, payload: UciResponsePayload) -> UciResponse {
    UciResponse { gid: cmd.gid(), oid: cmd.oid(), status, payload }
}

fn ok_response(cmd: &UciCommand, payload: UciResponsePayload) -> UciResponse {
    response(cmd, StatusCode::UciStatusOk, payload)
}

fn expect_done(r: ResponseResult) -> (Result<UciResponsePayload, Error>, bool) {
    match r {
        ResponseResult::Done { outcome, started_next } => (outcome, started_next),
        _ => panic!("exchange should have resolved"),
    }
}

fn init_session(engine: &mut CorrelationEngine, session_id: u32, session_type: SessionType) {
    let cmd = UciCommand::SessionInit { session_id, session_type };
    assert_eq!(engine.submit(cmd.clone()), SubmitResult::Sent);
    let (outcome, started) = expect_done(engine.on_response(ok_response(
        &cmd,
        UciResponsePayload::Unit,
    )));
    assert!(outcome.is_ok());
    assert!(!started);
}

#[test]
fn test_submit_when_idle_sends() {
    let mut engine = CorrelationEngine::new();
    assert_eq!(engine.submit(UciCommand::CoreGetDeviceInfo), SubmitResult::Sent);
}

#[test]
fn test_second_submit_deferred_until_resolution() {
    let mut engine = CorrelationEngine::new();
    let first = UciCommand::CoreGetDeviceInfo;
    let second = UciCommand::SessionGetCount;
    assert_eq!(engine.submit(first.clone()), SubmitResult::Sent);
    // The slot is taken: the second call's send is deferred, never a second
    // simultaneous send.
    assert_eq!(engine.submit(second.clone()), SubmitResult::Queued);
    let info = UciResponsePayload::DeviceInfo(uwb_core::params::uci_packets::GetDeviceInfoResponse {
        status: StatusCode::UciStatusOk,
        uci_version: 0x1001,
        mac_version: 0x3001,
        phy_version: 0x3001,
        uci_test_version: 0x1001,
        vendor_spec_info: vec![0x0A],
    });
    let (outcome, started) = expect_done(engine.on_response(ok_response(&first, info)));
    assert!(outcome.is_ok());
    // Only now is the deferred command started.
    assert!(started);
    let (outcome2, started2) = expect_done(engine.on_response(ok_response(
        &second,
        UciResponsePayload::SessionCount(0),
    )));
    assert_eq!(outcome2, Ok(UciResponsePayload::SessionCount(0)));
    assert!(!started2);
}

#[test]
fn test_retry_is_bounded_then_surfaces_status() {
    let mut engine = CorrelationEngine::new();
    let cmd = UciCommand::CoreGetCapsInfo;
    assert_eq!(engine.submit(cmd.clone()), SubmitResult::Sent);
    // The transient retry status re-sends the same command, up to the bound.
    for _ in 0..MAX_RETRY_COUNT {
        let r = engine.on_response(response(
            &cmd,
            StatusCode::UciStatusCommandRetry,
            UciResponsePayload::Unit,
        ));
        assert!(matches!(r, ResponseResult::Resend));
    }
    // The next retry answer is surfaced as the final failure.
    let r = engine.on_response(response(
        &cmd,
        StatusCode::UciStatusCommandRetry,
        UciResponsePayload::Unit,
    ));
    let (outcome, _) = expect_done(r);
    assert_eq!(outcome, Err(Error::CommandRetry));
}

#[test]
fn test_retry_then_success() {
    let mut engine = CorrelationEngine::new();
    let cmd = UciCommand::CoreGetCapsInfo;
    assert_eq!(engine.submit(cmd.clone()), SubmitResult::Sent);
    let r = engine.on_response(response(
        &cmd,
        StatusCode::UciStatusCommandRetry,
        UciResponsePayload::Unit,
    ));
    assert!(matches!(r, ResponseResult::Resend));
    let (outcome, _) = expect_done(engine.on_response(ok_response(
        &cmd,
        UciResponsePayload::CapsInfo(vec![]),
    )));
    assert_eq!(outcome, Ok(UciResponsePayload::CapsInfo(vec![])));
}

#[test]
fn test_duplicate_session_init_rejected() {
    let mut engine = CorrelationEngine::new();
    init_session(&mut engine, 7, SessionType::FiraRangingSession);
    assert_eq!(engine.session_state(7), Some(SessionState::SessionStateInit));
    // Re-using the id without an intervening deinit fails as a duplicate...
    let again = UciCommand::SessionInit {
        session_id: 7,
        session_type: SessionType::FiraRangingSession,
    };
    assert_eq!(engine.submit(again), SubmitResult::Rejected(Error::DuplicatedSessionId));
    // ...and leaves the first session's state unchanged.
    assert_eq!(engine.session_state(7), Some(SessionState::SessionStateInit));
    assert_eq!(engine.session_count(), 1);
}

#[test]
fn test_timeout_then_next_command_succeeds() {
    let mut engine = CorrelationEngine::new();
    assert_eq!(engine.submit(UciCommand::CoreGetDeviceInfo), SubmitResult::Sent);
    // The HAL never answers: the bounded wait elapses.
    assert_eq!(engine.on_timeout(), TimeoutResult::Expired { started_next: false });
    // A subsequent, unrelated command still succeeds normally.
    let next = UciCommand::SessionGetCount;
    assert_eq!(engine.submit(next.clone()), SubmitResult::Sent);
    let (outcome, _) = expect_done(engine.on_response(ok_response(
        &next,
        UciResponsePayload::SessionCount(2),
    )));
    assert_eq!(outcome, Ok(UciResponsePayload::SessionCount(2)));
}

#[test]
fn test_timeout_when_idle_reports_idle() {
    let mut engine = CorrelationEngine::new();
    assert_eq!(engine.on_timeout(), TimeoutResult::Idle);
}

#[test]
fn test_late_response_after_timeout_is_discarded() {
    let mut engine = CorrelationEngine::new();
    let cmd = UciCommand::CoreGetDeviceInfo;
    assert_eq!(engine.submit(cmd.clone()), SubmitResult::Sent);
    assert_eq!(engine.on_timeout(), TimeoutResult::Expired { started_next: false });
    // The abandoned exchange's response eventually arrives: discarded.
    let r = engine.on_response(ok_response(&cmd, UciResponsePayload::Unit));
    assert!(matches!(r, ResponseResult::Ignored));
}

#[test]
fn test_response_for_other_opcode_is_discarded() {
    let mut engine = CorrelationEngine::new();
    let cmd = UciCommand::CoreGetDeviceInfo;
    assert_eq!(engine.submit(cmd.clone()), SubmitResult::Sent);
    let alien = UciCommand::SessionGetCount;
    let r = engine.on_response(ok_response(&alien, UciResponsePayload::SessionCount(0)));
    assert!(matches!(r, ResponseResult::Ignored));
    // The exchange is still pending: another submission is deferred.
    assert_eq!(engine.submit(UciCommand::CoreGetCapsInfo), SubmitResult::Queued);
}

#[test]
fn test_wrong_payload_kind_resolves_unknown() {
    let mut engine = CorrelationEngine::new();
    let cmd = UciCommand::CoreGetDeviceInfo;
    assert_eq!(engine.submit(cmd.clone()), SubmitResult::Sent);
    let (outcome, _) = expect_done(engine.on_response(ok_response(
        &cmd,
        UciResponsePayload::SessionCount(1),
    )));
    assert_eq!(outcome, Err(Error::Unknown));
}

#[test]
fn test_error_status_maps_to_error_kind() {
    let mut engine = CorrelationEngine::new();
    let cmd = UciCommand::SessionInit { session_id: 1, session_type: SessionType::Ccc };
    assert_eq!(engine.submit(cmd.clone()), SubmitResult::Sent);
    let (outcome, _) = expect_done(engine.on_response(response(
        &cmd,
        StatusCode::UciStatusMaxSessionsExceeded,
        UciResponsePayload::Unit,
    )));
    assert_eq!(outcome, Err(Error::MaxSessionsExceeded));
    // The failed init records no session.
    assert_eq!(engine.session_count(), 0);
}

#[test]
fn test_set_app_config_type_mismatch_rejected() {
    let mut engine = CorrelationEngine::new();
    init_session(&mut engine, 3, SessionType::Ccc);
    // A FiRa configuration cannot be applied to a CCC session; the command
    // is rejected before any bytes are sent.
    let cmd = UciCommand::SessionSetAppConfig { session_id: 3, config: fira_params() };
    assert_eq!(engine.submit(cmd), SubmitResult::Rejected(Error::BadParameters));
    // The matching family is accepted.
    let cmd2 = UciCommand::SessionSetAppConfig { session_id: 3, config: ccc_params() };
    assert_eq!(engine.submit(cmd2), SubmitResult::Sent);
}

#[test]
fn test_session_lifecycle_states() {
    let mut engine = CorrelationEngine::new();
    init_session(&mut engine, 7, SessionType::FiraRangingSession);
    assert_eq!(engine.session_state(7), Some(SessionState::SessionStateInit));
    // A successful configuration set parks the session idle.
    let set = UciCommand::SessionSetAppConfig { session_id: 7, config: fira_params() };
    assert_eq!(engine.submit(set.clone()), SubmitResult::Sent);
    let rsp = UciResponsePayload::SetAppConfigRsp(SetAppConfigResponse {
        status: StatusCode::UciStatusOk,
        config_status: vec![],
    });
    let (outcome, _) = expect_done(engine.on_response(ok_response(&set, rsp)));
    assert!(outcome.is_ok());
    assert_eq!(engine.session_state(7), Some(SessionState::SessionStateIdle));
    // A successful range start makes it active.
    let start = UciCommand::RangeStart { session_id: 7 };
    assert_eq!(engine.submit(start.clone()), SubmitResult::Sent);
    let (outcome, _) = expect_done(engine.on_response(ok_response(&start, UciResponsePayload::Unit)));
    assert!(outcome.is_ok());
    assert_eq!(engine.session_state(7), Some(SessionState::SessionStateActive));
    // A radio-driven status notification drives the recorded state too.
    engine.on_notification(&UciNotification::Session(SessionNotification::Status {
        session_id: 7,
        session_state: SessionState::SessionStateIdle,
        reason_code: ReasonCode::MaxRangingRoundRetryCountReached,
    }));
    assert_eq!(engine.session_state(7), Some(SessionState::SessionStateIdle));
    // A deinitialised notification destroys the record.
    engine.on_notification(&UciNotification::Session(SessionNotification::Status {
        session_id: 7,
        session_state: SessionState::SessionStateDeinit,
        reason_code: ReasonCode::StateChangeWithSessionManagementCommands,
    }));
    assert_eq!(engine.session_state(7), None);
}

#[test]
fn test_session_deinit_frees_the_id() {
    let mut engine = CorrelationEngine::new();
    init_session(&mut engine, 9, SessionType::FiraRangingSession);
    let deinit = UciCommand::SessionDeinit { session_id: 9 };
    assert_eq!(engine.submit(deinit.clone()), SubmitResult::Sent);
    let (outcome, _) = expect_done(engine.on_response(ok_response(
        &deinit,
        UciResponsePayload::Unit,
    )));
    assert!(outcome.is_ok());
    assert_eq!(engine.session_state(9), None);
    // The id may now be re-used.
    init_session(&mut engine, 9, SessionType::Ccc);
    assert_eq!(engine.session_count(), 1);
}

#[test]
fn test_device_reset_destroys_every_session() {
    let mut engine = CorrelationEngine::new();
    init_session(&mut engine, 1, SessionType::FiraRangingSession);
    init_session(&mut engine, 2, SessionType::Ccc);
    assert_eq!(engine.session_count(), 2);
    let reset = UciCommand::DeviceReset {
        reset_config: uwb_core::params::uci_packets::ResetConfig::UwbsReset,
    };
    assert_eq!(engine.submit(reset.clone()), SubmitResult::Sent);
    let (outcome, _) = expect_done(engine.on_response(ok_response(&reset, UciResponsePayload::Unit)));
    assert!(outcome.is_ok());
    assert_eq!(engine.session_count(), 0);
}

#[test]
fn test_outgoing_config_tlvs_full_then_diff() {
    let mut engine = CorrelationEngine::new();
    init_session(&mut engine, 7, SessionType::FiraRangingSession);
    // No configuration applied yet: the full tag set goes out.
    let full = engine.outgoing_config_tlvs(7, &fira_params());
    assert_eq!(full.len(), 30);
    // Apply the configuration successfully.
    let set = UciCommand::SessionSetAppConfig { session_id: 7, config: fira_params() };
    assert_eq!(engine.submit(set.clone()), SubmitResult::Sent);
    let rsp = UciResponsePayload::SetAppConfigRsp(SetAppConfigResponse {
        status: StatusCode::UciStatusOk,
        config_status: vec![],
    });
    let (outcome, _) = expect_done(engine.on_response(ok_response(&set, rsp)));
    assert!(outcome.is_ok());
    // The next update only re-transmits what changed.
    let updated = AppConfigParams::Fira(
        FiraAppConfigParamsBuilder::new()
            .device_type(DeviceType::Controller)
            .multi_node_mode(MultiNodeMode::Unicast)
            .device_mac_address(UwbAddress::Short([1, 2]))
            .dst_mac_address(vec![UwbAddress::Short([3, 4])])
            .device_role(DeviceRole::Initiator)
            .vendor_id([0xFE, 0xDC])
            .static_sts_iv([0xDF, 0xCE, 0xAB, 0x12, 0x34, 0x56])
            .ranging_interval_ms(400)
            .build()
            .unwrap(),
    );
    let diff = engine.outgoing_config_tlvs(7, &updated);
    assert_eq!(diff.len(), 1);
    assert_eq!(diff[0].cfg_id, AppConfigTlvType::RangingInterval);
    assert_eq!(diff[0].v, vec![0x90, 0x01, 0x00, 0x00]);
}
