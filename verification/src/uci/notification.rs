//! Asynchronous notifications: the typed model of each category, the
//! classification of inbound traffic by protocol group, and the handler
//! contract through which a synchronous facade delivers notifications.

use vstd::prelude::*;

use crate::error::Error;
use crate::params::uci_packets::{
    DeviceState, ExtendedAddressTwoWayRangingMeasurement, RangingMeasurementType, RawVendorMessage,
    ReasonCode, SessionId, SessionState, ShortAddressTwoWayRangingMeasurement, StatusCode,
};

verus! {

/// The measurement list of one ranging round, short or extended addressed.
#[derive(Clone, Debug, PartialEq, Eq)]
pub enum RangingMeasurements {
    Short(Vec<ShortAddressTwoWayRangingMeasurement>),
    Extended(Vec<ExtendedAddressTwoWayRangingMeasurement>),
}

/// One ranging report of a session.
#[derive(Clone, Debug, PartialEq, Eq)]
pub struct SessionRangeData {
    pub sequence_number: u32,
    pub session_id: SessionId,
    pub current_ranging_interval_ms: u32,
    pub ranging_measurement_type: RangingMeasurementType,
    pub ranging_measurements: RangingMeasurements,
}

/// A device-wide notification.
#[derive(Clone, Debug, PartialEq, Eq)]
pub enum CoreNotification {
    /// The device changed state.
    DeviceStatus(DeviceState),
    /// The device reported an error outside any exchange.
    GenericError(StatusCode),
}

/// A per-session notification.
#[derive(Clone, Debug, PartialEq, Eq)]
pub enum SessionNotification {
    /// The session changed state, with the radio's reason.
    Status { session_id: SessionId, session_state: SessionState, reason_code: ReasonCode },
    /// A ranging round produced measurements.
    RangeData(SessionRangeData),
}

/// Any notification, tagged with its delivery category.
///
/// Every inbound buffer that is not the response of the pending exchange is
/// decoded into exactly one of these three variants.
#[derive(Clone, Debug, PartialEq, Eq)]
pub enum UciNotification {
    Core(CoreNotification),
    Session(SessionNotification),
    Vendor(RawVendorMessage),
}

/// The three delivery channels of the notification multiplexer.
#[derive(Clone, Copy, Debug, PartialEq, Eq, Structural)]
pub enum NotificationCategory {
    Core,
    Session,
    Vendor,
}

/// The classification table: group 0 is the device-wide core group, groups 1
/// (session configuration) and 2 (ranging) are per-session, and every other
/// group is treated as vendor-specific opaque traffic.
pub open spec fn classify_gid_spec(gid: u32) -> NotificationCategory {
    if gid == 0 {
        NotificationCategory::Core
    } else if gid == 1 || gid == 2 {
        NotificationCategory::Session
    } else {
        NotificationCategory::Vendor
    }
}

/// Classifies an inbound notification buffer by its protocol group
/// identifier; total, and each group lands in exactly one category.
pub fn classify_gid(gid: u32) -> (r: NotificationCategory)
    ensures
        r == classify_gid_spec(gid),
{
    if gid == 0 {
        NotificationCategory::Core
    } else if gid == 1 || gid == 2 {
        NotificationCategory::Session
    } else {
        NotificationCategory::Vendor
    }
}

impl UciNotification {
    /// The category a decoded notification is delivered on.
    pub open spec fn category_spec(self) -> NotificationCategory {
        match self {
            UciNotification::Core(_) => NotificationCategory::Core,
            UciNotification::Session(_) => NotificationCategory::Session,
            UciNotification::Vendor(_) => NotificationCategory::Vendor,
        }
    }

    /// Executable counterpart of [`Self::category_spec`].
    pub fn category(&self) -> (r: NotificationCategory)
        ensures
            r == self.category_spec(),
    {
        match self {
            UciNotification::Core(_) => NotificationCategory::Core,
            UciNotification::Session(_) => NotificationCategory::Session,
            UciNotification::Vendor(_) => NotificationCategory::Vendor,
        }
    }
}

/// The host-supplied handler that consumes notifications.
///
/// A synchronous facade takes one of these at construction and invokes the
/// matching callback for every notification, in arrival order within each
/// category. The callbacks' failures are confined to the forwarding path:
/// they are reported back to the forwarding loop, never into the radio I/O
/// path, and never terminate delivery.
pub trait NotificationManager: 'static + Send {
    /// Consumes a device-wide notification.
    fn on_core_notification(&mut self, core_notification: CoreNotification) -> Result<(), Error>;

    /// Consumes a per-session notification.
    fn on_session_notification(&mut self, session_notification: SessionNotification) -> Result<
        (),
        Error,
    >;

    /// Consumes a vendor-specific notification.
    fn on_vendor_notification(&mut self, vendor_notification: RawVendorMessage) -> Result<
        (),
        Error,
    >;
}

/// Invokes the handler callback matching the notification's category, exactly
/// once, and confines any failure the callback returns to the forwarding
/// path: the result only reports whether the callback succeeded, so a
/// forwarding loop can log it and carry on.
pub fn deliver_notification<U: NotificationManager>(manager: &mut U, ntf: UciNotification) -> (r:
    bool)
{
    let callback_result = match ntf {
        UciNotification::Core(n) => manager.on_core_notification(n),
        UciNotification::Session(n) => manager.on_session_notification(n),
        UciNotification::Vendor(n) => manager.on_vendor_notification(n),
    };
    match callback_result {
        Ok(()) => true,
        Err(_) => false,
    }
}

} // verus!
