//! Tests of the notification multiplexing support: classification and the
//! delivery of callbacks.

use uwb_core::error::Error;
use uwb_core::params::app_config_params::AppConfigParams;
use uwb_core::params::fira_app_config_params::{
    DeviceRole, DeviceType, FiraAppConfigParamsBuilder, MultiNodeMode, UwbAddress,
};
use uwb_core::params::uci_packets::{
    DeviceState, RawVendorMessage, ReasonCode, SessionState, SessionType, SetAppConfigResponse,
    StatusCode,
};
use uwb_core::uci::correlation::{
    CorrelationEngine, ResponseResult, SubmitResult, UciCommand, UciResponse, UciResponsePayload,
};
use uwb_core::uci::notification::{
    classify_gid, deliver_notification, CoreNotification, NotificationCategory,
    NotificationManager, SessionNotification, UciNotification,
};

struct CountingManager {
    core_calls: u32,
    session_calls: u32,
    vendor_calls: u32,
    fail: bool,
}

impl CountingManager {
    fn new(fail: bool) -> Self {
        CountingManager { core_calls: 0, session_calls: 0, vendor_calls: 0, fail: fail }
    }

    fn outcome(&self) -> Result<(), Error> {
        if self.fail {
            Err(Error::Unknown)
        } else {
            Ok(())
        }
    }
}

impl NotificationManager for CountingManager {
    fn on_core_notification(&mut self, _core_notification: CoreNotification) -> Result<(), Error> {
        self.core_calls += 1;
        self.outcome()
    }

    fn on_session_notification(
        &mut self,
        _session_notification: SessionNotification,
    ) -> Result<(), Error> {
        self.session_calls += 1;
        self.outcome()
    }

    fn on_vendor_notification(
        &mut self,
        _vendor_notification: RawVendorMessage,
    ) -> Result<(), Error> {
        self.vendor_calls += 1;
        self.outcome()
    }
}

fn session_status_notification() -> UciNotification {
    UciNotification::Session(SessionNotification::Status {
        session_id: 7,
        session_state: SessionState::SessionStateActive,
        reason_code: ReasonCode::StateChangeWithSessionManagementCommands,
    })
}

#[test]
fn test_deliver_session_notification_exactly_once() {
    let mut manager = CountingManager::new(false);
    // A session state-change notification reaches the session callback,
    // exactly once, and no other callback.
    let delivered = deliver_notification(&mut manager, session_status_notification());
    assert!(delivered);
    assert_eq!(manager.session_calls, 1);
    assert_eq!(manager.core_calls, 0);
    assert_eq!(manager.vendor_calls, 0);
}

#[test]
fn test_deliver_core_and_vendor_notifications() {
    let mut manager = CountingManager::new(false);
    assert!(deliver_notification(
        &mut manager,
        UciNotification::Core(CoreNotification::DeviceStatus(DeviceState::DeviceStateReady)),
    ));
    assert!(deliver_notification(
        &mut manager,
        UciNotification::Core(CoreNotification::GenericError(StatusCode::UciStatusFailed)),
    ));
    assert!(deliver_notification(
        &mut manager,
        UciNotification::Vendor(RawVendorMessage { gid: 9, oid: 1, payload: vec![1, 2] }),
    ));
    assert_eq!(manager.core_calls, 2);
    assert_eq!(manager.session_calls, 0);
    assert_eq!(manager.vendor_calls, 1);
}

#[test]
fn test_callback_failure_is_confined() {
    let mut manager = CountingManager::new(true);
    // The callback's failure is reported to the forwarding loop, not thrown:
    // the callback still ran exactly once.
    let delivered = deliver_notification(&mut manager, session_status_notification());
    assert!(!delivered);
    assert_eq!(manager.session_calls, 1);
}

#[test]
fn test_classify_gid_table() {
    assert_eq!(classify_gid(0), NotificationCategory::Core);
    assert_eq!(classify_gid(1), NotificationCategory::Session);
    assert_eq!(classify_gid(2), NotificationCategory::Session);
    assert_eq!(classify_gid(9), NotificationCategory::Vendor);
    assert_eq!(classify_gid(0x0E), NotificationCategory::Vendor);
    assert_eq!(classify_gid(0xFF), NotificationCategory::Vendor);
}

#[test]
fn test_notification_category() {
    assert_eq!(session_status_notification().category(), NotificationCategory::Session);
    assert_eq!(
        UciNotification::Core(CoreNotification::DeviceStatus(DeviceState::DeviceStateReady))
            .category(),
        NotificationCategory::Core
    );
    assert_eq!(
        UciNotification::Vendor(RawVendorMessage { gid: 9, oid: 0, payload: vec![] }).category(),
        NotificationCategory::Vendor
    );
}

#[test]
fn test_ranging_session_scenario() {
    // Session 7 is initialised as a ranging session, configured with a
    // complete valid parameter set, and range-started; the incoming
    // active-state notification then reaches the session callback exactly
    // once.
    let mut engine = CorrelationEngine::new();
    let config = AppConfigParams::Fira(
        FiraAppConfigParamsBuilder::new()
            .device_type(DeviceType::Controller)
            .multi_node_mode(MultiNodeMode::Unicast)
            .device_mac_address(UwbAddress::Short([1, 2]))
            .dst_mac_address(vec![UwbAddress::Short([3, 4])])
            .device_role(DeviceRole::Initiator)
            .vendor_id([0xFE, 0xDC])
            .static_sts_iv([0xDF, 0xCE, 0xAB, 0x12, 0x34, 0x56])
            .build()
            .unwrap(),
    );
    let init = UciCommand::SessionInit { session_id: 7, session_type: SessionType::FiraRangingSession };
    assert_eq!(engine.submit(init.clone()), SubmitResult::Sent);
    let ok = |cmd: &UciCommand, payload: UciResponsePayload| UciResponse {
        gid: cmd.gid(),
        oid: cmd.oid(),
        status: StatusCode::UciStatusOk,
        payload,
    };
    assert!(matches!(
        engine.on_response(ok(&init, UciResponsePayload::Unit)),
        ResponseResult::Done { outcome: Ok(_), .. }
    ));
    let set = UciCommand::SessionSetAppConfig { session_id: 7, config };
    assert_eq!(engine.submit(set.clone()), SubmitResult::Sent);
    let set_rsp = UciResponsePayload::SetAppConfigRsp(SetAppConfigResponse {
        status: StatusCode::UciStatusOk,
        config_status: vec![],
    });
    assert!(matches!(
        engine.on_response(ok(&set, set_rsp)),
        ResponseResult::Done { outcome: Ok(_), .. }
    ));
    let start = UciCommand::RangeStart { session_id: 7 };
    assert_eq!(engine.submit(start.clone()), SubmitResult::Sent);
    assert!(matches!(
        engine.on_response(ok(&start, UciResponsePayload::Unit)),
        ResponseResult::Done { outcome: Ok(_), .. }
    ));
    // The radio reports the active state change.
    let ntf = UciNotification::Session(SessionNotification::Status {
        session_id: 7,
        session_state: SessionState::SessionStateActive,
        reason_code: ReasonCode::StateChangeWithSessionManagementCommands,
    });
    engine.on_notification(&ntf);
    assert_eq!(engine.session_state(7), Some(SessionState::SessionStateActive));
    let mut manager = CountingManager::new(false);
    assert!(deliver_notification(&mut manager, ntf));
    assert_eq!(manager.session_calls, 1);
    assert_eq!(manager.core_calls, 0);
    assert_eq!(manager.vendor_calls, 0);
}
