//! Plain wire-level value types of the UCI command surface: status codes,
//! session kinds and states, configuration TLVs, and the response records.
//!
//! Every closed enumeration carries a fixed numeric wire identifier, written
//! out as an explicit, total conversion table. The identifiers are stable wire
//! constants; they are not re-derivable from the declaration order.

use vstd::prelude::*;

use crate::error::Error;
use crate::params::utils::bytes_eq;

verus! {

/// The caller-chosen numeric identifier of a session.
pub type SessionId = u32;

/// The protocol family and flavour a session is created with.
#[derive(Clone, Copy, Debug, PartialEq, Eq, Structural)]
pub enum SessionType {
    /// A FiRa two-way-ranging session.
    FiraRangingSession,
    /// A FiRa data-transfer session.
    FiraDataTransfer,
    /// A CCC (digital-key) ranging session.
    Ccc,
}

impl SessionType {
    /// The fixed wire identifier of each session kind.
    pub open spec fn wire_code_spec(self) -> u8 {
        match self {
            SessionType::FiraRangingSession => 0x00,
            SessionType::FiraDataTransfer => 0x01,
            SessionType::Ccc => 0xA0,
        }
    }

    /// Executable counterpart of [`Self::wire_code_spec`].
    pub fn wire_code(self) -> (r: u8)
        ensures
            r == self.wire_code_spec(),
    {
        match self {
            SessionType::FiraRangingSession => 0x00,
            SessionType::FiraDataTransfer => 0x01,
            SessionType::Ccc => 0xA0,
        }
    }
}

/// The lifecycle state of a session as reported by the radio.
#[derive(Clone, Copy, Debug, PartialEq, Eq, Structural)]
pub enum SessionState {
    /// Created but not yet configured.
    SessionStateInit,
    /// Destroyed; the id may be re-used.
    SessionStateDeinit,
    /// Ranging is running.
    SessionStateActive,
    /// Configured and ready to start ranging.
    SessionStateIdle,
}

impl SessionState {
    /// The fixed wire identifier of each state.
    pub open spec fn wire_code_spec(self) -> u8 {
        match self {
            SessionState::SessionStateInit => 0x00,
            SessionState::SessionStateDeinit => 0x01,
            SessionState::SessionStateActive => 0x02,
            SessionState::SessionStateIdle => 0x03,
        }
    }

    /// Executable counterpart of [`Self::wire_code_spec`].
    pub fn wire_code(self) -> (r: u8)
        ensures
            r == self.wire_code_spec(),
    {
        match self {
            SessionState::SessionStateInit => 0x00,
            SessionState::SessionStateDeinit => 0x01,
            SessionState::SessionStateActive => 0x02,
            SessionState::SessionStateIdle => 0x03,
        }
    }
}

/// The device-wide state carried by a core device-status notification.
#[derive(Clone, Copy, Debug, PartialEq, Eq, Structural)]
pub enum DeviceState {
    /// Initialised and ready for commands.
    DeviceStateReady,
    /// At least one session is actively ranging.
    DeviceStateActive,
    /// An unrecoverable device error; a reset is needed.
    DeviceStateError,
}

impl DeviceState {
    /// The fixed wire identifier of each state.
    pub open spec fn wire_code_spec(self) -> u8 {
        match self {
            DeviceState::DeviceStateReady => 0x01,
            DeviceState::DeviceStateActive => 0x02,
            DeviceState::DeviceStateError => 0xFF,
        }
    }

    /// Executable counterpart of [`Self::wire_code_spec`].
    pub fn wire_code(self) -> (r: u8)
        ensures
            r == self.wire_code_spec(),
    {
        match self {
            DeviceState::DeviceStateReady => 0x01,
            DeviceState::DeviceStateActive => 0x02,
            DeviceState::DeviceStateError => 0xFF,
        }
    }
}

/// The reason attached to a session state-change notification.
#[derive(Clone, Copy, Debug, PartialEq, Eq, Structural)]
pub enum ReasonCode {
    StateChangeWithSessionManagementCommands,
    MaxRangingRoundRetryCountReached,
    MaxNumberOfMeasurementsReached,
    ErrorSlotLengthNotSupported,
    ErrorInsufficientSlotsPerRr,
    ErrorMacAddressModeNotSupported,
    ErrorInvalidRangingInterval,
    ErrorInvalidStsConfig,
    ErrorInvalidRframeConfig,
}

impl ReasonCode {
    /// The fixed wire identifier of each reason.
    pub open spec fn wire_code_spec(self) -> u8 {
        match self {
            ReasonCode::StateChangeWithSessionManagementCommands => 0x00,
            ReasonCode::MaxRangingRoundRetryCountReached => 0x01,
            ReasonCode::MaxNumberOfMeasurementsReached => 0x02,
            ReasonCode::ErrorSlotLengthNotSupported => 0x20,
            ReasonCode::ErrorInsufficientSlotsPerRr => 0x21,
            ReasonCode::ErrorMacAddressModeNotSupported => 0x22,
            ReasonCode::ErrorInvalidRangingInterval => 0x23,
            ReasonCode::ErrorInvalidStsConfig => 0x24,
            ReasonCode::ErrorInvalidRframeConfig => 0x25,
        }
    }

    /// Executable counterpart of [`Self::wire_code_spec`].
    pub fn wire_code(self) -> (r: u8)
        ensures
            r == self.wire_code_spec(),
    {
        match self {
            ReasonCode::StateChangeWithSessionManagementCommands => 0x00,
            ReasonCode::MaxRangingRoundRetryCountReached => 0x01,
            ReasonCode::MaxNumberOfMeasurementsReached => 0x02,
            ReasonCode::ErrorSlotLengthNotSupported => 0x20,
            ReasonCode::ErrorInsufficientSlotsPerRr => 0x21,
            ReasonCode::ErrorMacAddressModeNotSupported => 0x22,
            ReasonCode::ErrorInvalidRangingInterval => 0x23,
            ReasonCode::ErrorInvalidStsConfig => 0x24,
            ReasonCode::ErrorInvalidRframeConfig => 0x25,
        }
    }
}

/// The status byte returned by every radio operation.
#[derive(Clone, Copy, Debug, PartialEq, Eq, Structural)]
pub enum StatusCode {
    UciStatusOk,
    UciStatusRejected,
    UciStatusFailed,
    UciStatusSyntaxError,
    UciStatusInvalidParam,
    UciStatusInvalidRange,
    UciStatusInvalidMsgSize,
    UciStatusUnknownGid,
    UciStatusUnknownOid,
    UciStatusReadOnly,
    UciStatusCommandRetry,
    UciStatusSessionNotExist,
    UciStatusSessionDuplicate,
    UciStatusSessionActive,
    UciStatusMaxSessionsExceeded,
    UciStatusSessionNotConfigured,
    UciStatusActiveSessionsOngoing,
    UciStatusMulticastListFull,
    UciStatusAddressNotFound,
    UciStatusAddressAlreadyPresent,
    UciStatusRangingTxFailed,
    UciStatusRangingRxTimeout,
    UciStatusRangingRxPhyDecFailed,
    UciStatusRangingRxPhyToaFailed,
    UciStatusRangingRxPhyStsFailed,
    UciStatusRangingRxMacDecFailed,
    UciStatusRangingRxMacIeDecFailed,
    UciStatusRangingRxMacIeMissing,
    UciStatusErrorRoundIndexNotActivated,
    UciStatusErrorNumberOfActiveRangingRoundsExceeded,
    UciStatusErrorRoundIndexNotSetAsInitiator,
    UciStatusErrorDlTdoaDeviceAddressNotMatchingInReplyTimeList,
    UciStatusDataMaxTxPsduSizeExceeded,
    UciStatusDataRxCrcError,
    UciStatusErrorCccSeBusy,
    UciStatusErrorCccLifecycle,
}

impl StatusCode {
    /// The fixed wire identifier of each status.
    pub open spec fn wire_code_spec(self) -> u8 {
        match self {
            StatusCode::UciStatusOk => 0x00,
            StatusCode::UciStatusRejected => 0x01,
            StatusCode::UciStatusFailed => 0x02,
            StatusCode::UciStatusSyntaxError => 0x03,
            StatusCode::UciStatusInvalidParam => 0x04,
            StatusCode::UciStatusInvalidRange => 0x05,
            StatusCode::UciStatusInvalidMsgSize => 0x06,
            StatusCode::UciStatusUnknownGid => 0x07,
            StatusCode::UciStatusUnknownOid => 0x08,
            StatusCode::UciStatusReadOnly => 0x09,
            StatusCode::UciStatusCommandRetry => 0x0A,
            StatusCode::UciStatusSessionNotExist => 0x11,
            StatusCode::UciStatusSessionDuplicate => 0x12,
            StatusCode::UciStatusSessionActive => 0x13,
            StatusCode::UciStatusMaxSessionsExceeded => 0x14,
            StatusCode::UciStatusSessionNotConfigured => 0x15,
            StatusCode::UciStatusActiveSessionsOngoing => 0x16,
            StatusCode::UciStatusMulticastListFull => 0x17,
            StatusCode::UciStatusAddressNotFound => 0x18,
            StatusCode::UciStatusAddressAlreadyPresent => 0x19,
            StatusCode::UciStatusRangingTxFailed => 0x20,
            StatusCode::UciStatusRangingRxTimeout => 0x21,
            StatusCode::UciStatusRangingRxPhyDecFailed => 0x22,
            StatusCode::UciStatusRangingRxPhyToaFailed => 0x23,
            StatusCode::UciStatusRangingRxPhyStsFailed => 0x24,
            StatusCode::UciStatusRangingRxMacDecFailed => 0x25,
            StatusCode::UciStatusRangingRxMacIeDecFailed => 0x26,
            StatusCode::UciStatusRangingRxMacIeMissing => 0x27,
            StatusCode::UciStatusErrorRoundIndexNotActivated => 0x28,
            StatusCode::UciStatusErrorNumberOfActiveRangingRoundsExceeded => 0x29,
            StatusCode::UciStatusErrorRoundIndexNotSetAsInitiator => 0x2A,
            StatusCode::UciStatusErrorDlTdoaDeviceAddressNotMatchingInReplyTimeList => 0x2B,
            StatusCode::UciStatusDataMaxTxPsduSizeExceeded => 0x30,
            StatusCode::UciStatusDataRxCrcError => 0x31,
            StatusCode::UciStatusErrorCccSeBusy => 0x50,
            StatusCode::UciStatusErrorCccLifecycle => 0x51,
        }
    }

    /// The local error kind each non-success status collapses to.
    ///
    /// The mapping is total; statuses without a dedicated error kind map to
    /// `ProtocolSpecific` (radio-reported protocol failures) or `Unknown`.
    pub open spec fn to_error_spec(self) -> Error {
        match self {
            StatusCode::UciStatusOk => Error::Unknown,
            StatusCode::UciStatusRejected => Error::BadParameters,
            StatusCode::UciStatusFailed => Error::Unknown,
            StatusCode::UciStatusSyntaxError => Error::BadParameters,
            StatusCode::UciStatusInvalidParam => Error::BadParameters,
            StatusCode::UciStatusInvalidRange => Error::BadParameters,
            StatusCode::UciStatusInvalidMsgSize => Error::BadParameters,
            StatusCode::UciStatusUnknownGid => Error::BadParameters,
            StatusCode::UciStatusUnknownOid => Error::BadParameters,
            StatusCode::UciStatusReadOnly => Error::BadParameters,
            StatusCode::UciStatusCommandRetry => Error::CommandRetry,
            StatusCode::UciStatusSessionNotExist => Error::ProtocolSpecific,
            StatusCode::UciStatusSessionDuplicate => Error::DuplicatedSessionId,
            StatusCode::UciStatusSessionActive => Error::ProtocolSpecific,
            StatusCode::UciStatusMaxSessionsExceeded => Error::MaxSessionsExceeded,
            StatusCode::UciStatusSessionNotConfigured => Error::ProtocolSpecific,
            StatusCode::UciStatusActiveSessionsOngoing => Error::ProtocolSpecific,
            StatusCode::UciStatusMulticastListFull => Error::ProtocolSpecific,
            StatusCode::UciStatusAddressNotFound => Error::ProtocolSpecific,
            StatusCode::UciStatusAddressAlreadyPresent => Error::ProtocolSpecific,
            StatusCode::UciStatusRangingTxFailed => Error::ProtocolSpecific,
            StatusCode::UciStatusRangingRxTimeout => Error::ProtocolSpecific,
            StatusCode::UciStatusRangingRxPhyDecFailed => Error::ProtocolSpecific,
            StatusCode::UciStatusRangingRxPhyToaFailed => Error::ProtocolSpecific,
            StatusCode::UciStatusRangingRxPhyStsFailed => Error::ProtocolSpecific,
            StatusCode::UciStatusRangingRxMacDecFailed => Error::ProtocolSpecific,
            StatusCode::UciStatusRangingRxMacIeDecFailed => Error::ProtocolSpecific,
            StatusCode::UciStatusRangingRxMacIeMissing => Error::ProtocolSpecific,
            StatusCode::UciStatusErrorRoundIndexNotActivated => Error::ProtocolSpecific,
            StatusCode::UciStatusErrorNumberOfActiveRangingRoundsExceeded => Error::ProtocolSpecific,
            StatusCode::UciStatusErrorRoundIndexNotSetAsInitiator => Error::ProtocolSpecific,
            StatusCode::UciStatusErrorDlTdoaDeviceAddressNotMatchingInReplyTimeList => Error::ProtocolSpecific,
            StatusCode::UciStatusDataMaxTxPsduSizeExceeded => Error::ProtocolSpecific,
            StatusCode::UciStatusDataRxCrcError => Error::ProtocolSpecific,
            StatusCode::UciStatusErrorCccSeBusy => Error::ProtocolSpecific,
            StatusCode::UciStatusErrorCccLifecycle => Error::ProtocolSpecific,
        }
    }

    /// Executable counterpart of [`Self::wire_code_spec`].
    pub fn wire_code(self) -> (r: u8)
        ensures
            r == self.wire_code_spec(),
    {
        match self {
            StatusCode::UciStatusOk => 0x00,
            StatusCode::UciStatusRejected => 0x01,
            StatusCode::UciStatusFailed => 0x02,
            StatusCode::UciStatusSyntaxError => 0x03,
            StatusCode::UciStatusInvalidParam => 0x04,
            StatusCode::UciStatusInvalidRange => 0x05,
            StatusCode::UciStatusInvalidMsgSize => 0x06,
            StatusCode::UciStatusUnknownGid => 0x07,
            StatusCode::UciStatusUnknownOid => 0x08,
            StatusCode::UciStatusReadOnly => 0x09,
            StatusCode::UciStatusCommandRetry => 0x0A,
            StatusCode::UciStatusSessionNotExist => 0x11,
            StatusCode::UciStatusSessionDuplicate => 0x12,
            StatusCode::UciStatusSessionActive => 0x13,
            StatusCode::UciStatusMaxSessionsExceeded => 0x14,
            StatusCode::UciStatusSessionNotConfigured => 0x15,
            StatusCode::UciStatusActiveSessionsOngoing => 0x16,
            StatusCode::UciStatusMulticastListFull => 0x17,
            StatusCode::UciStatusAddressNotFound => 0x18,
            StatusCode::UciStatusAddressAlreadyPresent => 0x19,
            StatusCode::UciStatusRangingTxFailed => 0x20,
            StatusCode::UciStatusRangingRxTimeout => 0x21,
            StatusCode::UciStatusRangingRxPhyDecFailed => 0x22,
            StatusCode::UciStatusRangingRxPhyToaFailed => 0x23,
            StatusCode::UciStatusRangingRxPhyStsFailed => 0x24,
            StatusCode::UciStatusRangingRxMacDecFailed => 0x25,
            StatusCode::UciStatusRangingRxMacIeDecFailed => 0x26,
            StatusCode::UciStatusRangingRxMacIeMissing => 0x27,
            StatusCode::UciStatusErrorRoundIndexNotActivated => 0x28,
            StatusCode::UciStatusErrorNumberOfActiveRangingRoundsExceeded => 0x29,
            StatusCode::UciStatusErrorRoundIndexNotSetAsInitiator => 0x2A,
            StatusCode::UciStatusErrorDlTdoaDeviceAddressNotMatchingInReplyTimeList => 0x2B,
            StatusCode::UciStatusDataMaxTxPsduSizeExceeded => 0x30,
            StatusCode::UciStatusDataRxCrcError => 0x31,
            StatusCode::UciStatusErrorCccSeBusy => 0x50,
            StatusCode::UciStatusErrorCccLifecycle => 0x51,
        }
    }

    /// Executable counterpart of [`Self::to_error_spec`].
    pub fn to_error(self) -> (r: Error)
        ensures
            r == self.to_error_spec(),
    {
        match self {
            StatusCode::UciStatusRejected => Error::BadParameters,
            StatusCode::UciStatusSyntaxError => Error::BadParameters,
            StatusCode::UciStatusInvalidParam => Error::BadParameters,
            StatusCode::UciStatusInvalidRange => Error::BadParameters,
            StatusCode::UciStatusInvalidMsgSize => Error::BadParameters,
            StatusCode::UciStatusUnknownGid => Error::BadParameters,
            StatusCode::UciStatusUnknownOid => Error::BadParameters,
            StatusCode::UciStatusReadOnly => Error::BadParameters,
            StatusCode::UciStatusCommandRetry => Error::CommandRetry,
            StatusCode::UciStatusSessionDuplicate => Error::DuplicatedSessionId,
            StatusCode::UciStatusMaxSessionsExceeded => Error::MaxSessionsExceeded,
            StatusCode::UciStatusOk => Error::Unknown,
            StatusCode::UciStatusFailed => Error::Unknown,
            _ => Error::ProtocolSpecific,
        }
    }
}

/// The kind of a ranging measurement report.
#[derive(Clone, Copy, Debug, PartialEq, Eq, Structural)]
pub enum RangingMeasurementType {
    OneWay,
    TwoWay,
    DlTdoa,
}

impl RangingMeasurementType {
    /// The fixed wire identifier of each measurement kind.
    pub open spec fn wire_code_spec(self) -> u8 {
        match self {
            RangingMeasurementType::OneWay => 0x00,
            RangingMeasurementType::TwoWay => 0x01,
            RangingMeasurementType::DlTdoa => 0x02,
        }
    }

    /// Executable counterpart of [`Self::wire_code_spec`].
    pub fn wire_code(self) -> (r: u8)
        ensures
            r == self.wire_code_spec(),
    {
        match self {
            RangingMeasurementType::OneWay => 0x00,
            RangingMeasurementType::TwoWay => 0x01,
            RangingMeasurementType::DlTdoa => 0x02,
        }
    }
}

/// Whether a multicast-list update adds or removes a controlee.
#[derive(Clone, Copy, Debug, PartialEq, Eq, Structural)]
pub enum UpdateMulticastListAction {
    AddControlee,
    RemoveControlee,
}

impl UpdateMulticastListAction {
    /// The fixed wire identifier of each action.
    pub open spec fn wire_code_spec(self) -> u8 {
        match self {
            UpdateMulticastListAction::AddControlee => 0x00,
            UpdateMulticastListAction::RemoveControlee => 0x01,
        }
    }

    /// Executable counterpart of [`Self::wire_code_spec`].
    pub fn wire_code(self) -> (r: u8)
        ensures
            r == self.wire_code_spec(),
    {
        match self {
            UpdateMulticastListAction::AddControlee => 0x00,
            UpdateMulticastListAction::RemoveControlee => 0x01,
        }
    }
}

/// The argument of a device reset command.
#[derive(Clone, Copy, Debug, PartialEq, Eq, Structural)]
pub enum ResetConfig {
    /// Reset the whole UWB subsystem; every session is destroyed.
    UwbsReset,
}

impl ResetConfig {
    /// The fixed wire identifier of each reset kind.
    pub open spec fn wire_code_spec(self) -> u8 {
        match self {
            ResetConfig::UwbsReset => 0x00,
        }
    }

    /// Executable counterpart of [`Self::wire_code_spec`].
    pub fn wire_code(self) -> (r: u8)
        ensures
            r == self.wire_code_spec(),
    {
        match self {
            ResetConfig::UwbsReset => 0x00,
        }
    }
}

/// A device-level configuration identifier.
#[derive(Clone, Copy, Debug, PartialEq, Eq, Structural)]
pub enum DeviceConfigId {
    DeviceState,
    LowPowerMode,
}

impl DeviceConfigId {
    /// The fixed wire identifier of each device configuration id.
    pub open spec fn wire_code_spec(self) -> u8 {
        match self {
            DeviceConfigId::DeviceState => 0x00,
            DeviceConfigId::LowPowerMode => 0x01,
        }
    }

    /// Executable counterpart of [`Self::wire_code_spec`].
    pub fn wire_code(self) -> (r: u8)
        ensures
            r == self.wire_code_spec(),
    {
        match self {
            DeviceConfigId::DeviceState => 0x00,
            DeviceConfigId::LowPowerMode => 0x01,
        }
    }
}

/// The tag of one application configuration TLV.
///
/// Each field of a configuration variant renders under exactly one of these
/// tags; the numeric identifiers under [`Self::wire_code_spec`] are the stable
/// wire constants.
#[derive(Clone, Copy, Debug, PartialEq, Eq, Structural)]
pub enum AppConfigTlvType {
    DeviceType,
    RangingRoundUsage,
    StsConfig,
    MultiNodeMode,
    ChannelNumber,
    DeviceMacAddress,
    DstMacAddress,
    SlotDuration,
    RangingInterval,
    MacFcsType,
    RangingRoundControl,
    AoaResultReq,
    RngDataNtf,
    RngDataNtfProximityNear,
    RngDataNtfProximityFar,
    DeviceRole,
    RframeConfig,
    PreambleCodeIndex,
    SfdId,
    SessionPriority,
    MacAddressMode,
    VendorId,
    StaticStsIv,
    SubSessionId,
    ResultReportConfig,
    HoppingMode,
    InBandTerminationAttemptCount,
    MaxRrRetry,
    UwbInitiationTime,
    BlockStrideLength,
    CccRangingProtocolVer,
    CccUwbConfigId,
    CccPulseshapeCombo,
    CccRanMultiplier,
    CccChannelNumber,
    CccChapsPerSlot,
    CccNumResponderNodes,
    CccSyncCodeIndex,
}

impl AppConfigTlvType {
    /// The fixed wire identifier of each tag.
    pub open spec fn wire_code_spec(self) -> u8 {
        match self {
            AppConfigTlvType::DeviceType => 0x00,
            AppConfigTlvType::RangingRoundUsage => 0x01,
            AppConfigTlvType::StsConfig => 0x02,
            AppConfigTlvType::MultiNodeMode => 0x03,
            AppConfigTlvType::ChannelNumber => 0x04,
            AppConfigTlvType::DeviceMacAddress => 0x06,
            AppConfigTlvType::DstMacAddress => 0x07,
            AppConfigTlvType::SlotDuration => 0x08,
            AppConfigTlvType::RangingInterval => 0x09,
            AppConfigTlvType::MacFcsType => 0x0B,
            AppConfigTlvType::RangingRoundControl => 0x0C,
            AppConfigTlvType::AoaResultReq => 0x0D,
            AppConfigTlvType::RngDataNtf => 0x0E,
            AppConfigTlvType::RngDataNtfProximityNear => 0x0F,
            AppConfigTlvType::RngDataNtfProximityFar => 0x10,
            AppConfigTlvType::DeviceRole => 0x11,
            AppConfigTlvType::RframeConfig => 0x12,
            AppConfigTlvType::PreambleCodeIndex => 0x14,
            AppConfigTlvType::SfdId => 0x15,
            AppConfigTlvType::SessionPriority => 0x1A,
            AppConfigTlvType::MacAddressMode => 0x26,
            AppConfigTlvType::VendorId => 0x27,
            AppConfigTlvType::StaticStsIv => 0x28,
            AppConfigTlvType::SubSessionId => 0x30,
            AppConfigTlvType::ResultReportConfig => 0x2E,
            AppConfigTlvType::HoppingMode => 0x2C,
            AppConfigTlvType::InBandTerminationAttemptCount => 0x2F,
            AppConfigTlvType::MaxRrRetry => 0x2A,
            AppConfigTlvType::UwbInitiationTime => 0x2B,
            AppConfigTlvType::BlockStrideLength => 0x2D,
            AppConfigTlvType::CccRangingProtocolVer => 0xA3,
            AppConfigTlvType::CccUwbConfigId => 0xA4,
            AppConfigTlvType::CccPulseshapeCombo => 0xA5,
            AppConfigTlvType::CccRanMultiplier => 0xA6,
            AppConfigTlvType::CccChannelNumber => 0xA7,
            AppConfigTlvType::CccChapsPerSlot => 0xA8,
            AppConfigTlvType::CccNumResponderNodes => 0xA9,
            AppConfigTlvType::CccSyncCodeIndex => 0xAA,
        }
    }

    /// Executable counterpart of [`Self::wire_code_spec`].
    pub fn wire_code(self) -> (r: u8)
        ensures
            r == self.wire_code_spec(),
    {
        match self {
            AppConfigTlvType::DeviceType => 0x00,
            AppConfigTlvType::RangingRoundUsage => 0x01,
            AppConfigTlvType::StsConfig => 0x02,
            AppConfigTlvType::MultiNodeMode => 0x03,
            AppConfigTlvType::ChannelNumber => 0x04,
            AppConfigTlvType::DeviceMacAddress => 0x06,
            AppConfigTlvType::DstMacAddress => 0x07,
            AppConfigTlvType::SlotDuration => 0x08,
            AppConfigTlvType::RangingInterval => 0x09,
            AppConfigTlvType::MacFcsType => 0x0B,
            AppConfigTlvType::RangingRoundControl => 0x0C,
            AppConfigTlvType::AoaResultReq => 0x0D,
            AppConfigTlvType::RngDataNtf => 0x0E,
            AppConfigTlvType::RngDataNtfProximityNear => 0x0F,
            AppConfigTlvType::RngDataNtfProximityFar => 0x10,
            AppConfigTlvType::DeviceRole => 0x11,
            AppConfigTlvType::RframeConfig => 0x12,
            AppConfigTlvType::PreambleCodeIndex => 0x14,
            AppConfigTlvType::SfdId => 0x15,
            AppConfigTlvType::SessionPriority => 0x1A,
            AppConfigTlvType::MacAddressMode => 0x26,
            AppConfigTlvType::VendorId => 0x27,
            AppConfigTlvType::StaticStsIv => 0x28,
            AppConfigTlvType::SubSessionId => 0x30,
            AppConfigTlvType::ResultReportConfig => 0x2E,
            AppConfigTlvType::HoppingMode => 0x2C,
            AppConfigTlvType::InBandTerminationAttemptCount => 0x2F,
            AppConfigTlvType::MaxRrRetry => 0x2A,
            AppConfigTlvType::UwbInitiationTime => 0x2B,
            AppConfigTlvType::BlockStrideLength => 0x2D,
            AppConfigTlvType::CccRangingProtocolVer => 0xA3,
            AppConfigTlvType::CccUwbConfigId => 0xA4,
            AppConfigTlvType::CccPulseshapeCombo => 0xA5,
            AppConfigTlvType::CccRanMultiplier => 0xA6,
            AppConfigTlvType::CccChannelNumber => 0xA7,
            AppConfigTlvType::CccChapsPerSlot => 0xA8,
            AppConfigTlvType::CccNumResponderNodes => 0xA9,
            AppConfigTlvType::CccSyncCodeIndex => 0xAA,
        }
    }
}

/// The mathematical model of one configuration TLV: its tag and the rendered
/// byte string.
pub struct TlvModel {
    pub cfg_id: AppConfigTlvType,
    pub v: Seq<u8>,
}

/// One application configuration entry: a tag and an opaque byte payload.
#[derive(Clone, Debug, PartialEq, Eq)]
pub struct AppConfigTlv {
    /// The tag.
    pub cfg_id: AppConfigTlvType,
    /// The rendered value bytes.
    pub v: Vec<u8>,
}

impl View for AppConfigTlv {
    type V = TlvModel;

    open spec fn view(&self) -> TlvModel {
        TlvModel { cfg_id: self.cfg_id, v: self.v@ }
    }
}

/// The per-tag status list answered to a set-app-config command.
#[derive(Clone, Copy, Debug, PartialEq, Eq, Structural)]
pub struct AppConfigStatus {
    pub cfg_id: AppConfigTlvType,
    pub status: StatusCode,
}

/// The radio's answer to a set-app-config command.
#[derive(Clone, Debug, PartialEq, Eq)]
pub struct SetAppConfigResponse {
    pub status: StatusCode,
    pub config_status: Vec<AppConfigStatus>,
}

/// One device-level configuration entry.
#[derive(Clone, Debug, PartialEq, Eq)]
pub struct DeviceConfigTlv {
    pub cfg_id: DeviceConfigId,
    pub v: Vec<u8>,
}

/// The per-id status list answered to a set-config command.
#[derive(Clone, Copy, Debug, PartialEq, Eq, Structural)]
pub struct DeviceConfigStatus {
    pub cfg_id: DeviceConfigId,
    pub status: StatusCode,
}

/// The radio's answer to a core set-config command.
#[derive(Clone, Debug, PartialEq, Eq)]
pub struct CoreSetConfigResponse {
    pub status: StatusCode,
    pub config_status: Vec<DeviceConfigStatus>,
}

/// One capability entry reported by the radio.
#[derive(Clone, Debug, PartialEq, Eq)]
pub struct CapTlv {
    /// The capability tag byte.
    pub t: u8,
    /// The capability value bytes.
    pub v: Vec<u8>,
}

/// The radio's answer to a get-device-info command.
#[derive(Clone, Debug, PartialEq, Eq)]
pub struct GetDeviceInfoResponse {
    pub status: StatusCode,
    pub uci_version: u16,
    pub mac_version: u16,
    pub phy_version: u16,
    pub uci_test_version: u16,
    pub vendor_spec_info: Vec<u8>,
}

/// One controlee entry of a multicast-list update.
#[derive(Clone, Copy, Debug, PartialEq, Eq)]
pub struct Controlee {
    pub short_address: [u8; 2],
    pub subsession_id: u32,
}

/// Per-state power statistics reported by the radio.
#[derive(Clone, Copy, Debug, PartialEq, Eq, Structural)]
pub struct PowerStats {
    pub status: StatusCode,
    pub idle_time_ms: u32,
    pub tx_time_ms: u32,
    pub rx_time_ms: u32,
    pub total_wake_count: u32,
}

/// One two-way ranging measurement against a short-address peer.
#[derive(Clone, Copy, Debug, PartialEq, Eq)]
pub struct ShortAddressTwoWayRangingMeasurement {
    pub mac_address: u16,
    pub status: StatusCode,
    pub nlos: u8,
    pub distance: u16,
    pub aoa_azimuth: u16,
    pub aoa_azimuth_fom: u8,
    pub aoa_elevation: u16,
    pub aoa_elevation_fom: u8,
    pub aoa_destination_azimuth: u16,
    pub aoa_destination_azimuth_fom: u8,
    pub aoa_destination_elevation: u16,
    pub aoa_destination_elevation_fom: u8,
    pub slot_index: u8,
    pub rssi: u8,
}

/// One two-way ranging measurement against an extended-address peer.
#[derive(Clone, Copy, Debug, PartialEq, Eq)]
pub struct ExtendedAddressTwoWayRangingMeasurement {
    pub mac_address: u64,
    pub status: StatusCode,
    pub nlos: u8,
    pub distance: u16,
    pub aoa_azimuth: u16,
    pub aoa_azimuth_fom: u8,
    pub aoa_elevation: u16,
    pub aoa_elevation_fom: u8,
    pub aoa_destination_azimuth: u16,
    pub aoa_destination_azimuth_fom: u8,
    pub aoa_destination_elevation: u16,
    pub aoa_destination_elevation_fom: u8,
    pub slot_index: u8,
    pub rssi: u8,
}

/// An ISO 3166-1 alpha-2 country code, two upper-case ASCII letters.
#[derive(Clone, Copy, Debug, PartialEq, Eq)]
pub struct CountryCode(pub [u8; 2]);

impl CountryCode {
    /// Whether both bytes are upper-case ASCII letters.
    pub open spec fn valid_spec(code: Seq<u8>) -> bool {
        code.len() == 2 && (forall|i: int| 0 <= i < 2 ==> 0x41 <= #[trigger] code[i] <= 0x5A)
    }

    /// Accepts exactly the two-letter upper-case codes.
    pub fn new(code: [u8; 2]) -> (r: Option<CountryCode>)
        ensures
            r is Some <==> Self::valid_spec(code@),
            r matches Some(c) ==> c.0@ == code@,
    {
        if 0x41 <= code[0] && code[0] <= 0x5A && 0x41 <= code[1] && code[1] <= 0x5A {
            Some(CountryCode(code))
        } else {
            None
        }
    }
}

/// An opaque vendor-specific message, identified by its group and opcode.
#[derive(Clone, Debug, PartialEq, Eq)]
pub struct RawVendorMessage {
    pub gid: u32,
    pub oid: u32,
    pub payload: Vec<u8>,
}


/// The mathematical view of a list of configuration TLVs.
pub open spec fn tlvs_view(s: Seq<AppConfigTlv>) -> Seq<TlvModel> {
    s.map_values(|t: AppConfigTlv| t@)
}

/// The diff of two renderings whose entries are aligned position by
/// position: the entries of `new` whose tag or bytes differ from the entry at
/// the same position of `old`, in rendering order. A tag present in `old` but
/// absent from `new` never occurs here, because both renderings always carry
/// the full tag set of their variant.
pub open spec fn updated_entries_spec(new: Seq<TlvModel>, old: Seq<TlvModel>) -> Seq<TlvModel>
    recommends
        new.len() == old.len(),
    decreases new.len(),
{
    if new.len() == 0 {
        Seq::empty()
    } else {
        let rest = updated_entries_spec(new.drop_last(), old.drop_last());
        if new.last().cfg_id == old.last().cfg_id && new.last().v == old.last().v {
            rest
        } else {
            rest.push(new.last())
        }
    }
}

/// Keeps exactly the entries of `new` that differ from the aligned entry of
/// `old`.
pub(crate) fn diff_config_entries(new: Vec<AppConfigTlv>, old: &Vec<AppConfigTlv>) -> (r: Vec<
    AppConfigTlv,
>)
    requires
        new@.len() == old@.len(),
    ensures
        tlvs_view(r@) == updated_entries_spec(tlvs_view(new@), tlvs_view(old@)),
{
    let mut new = new;
    let ghost n0 = new@;
    let n_total: usize = new.len();
    proof {
        assert(n0.len() == n_total);
    }
    let mut r: Vec<AppConfigTlv> = Vec::new();
    let mut i: usize = 0;
    while new.len() > 0
        invariant
            i + new@.len() == n0.len(),
            n0.len() <= usize::MAX,
            n0.len() == old@.len(),
            new@ == n0.skip(i as int),
            tlvs_view(r@) == updated_entries_spec(
                tlvs_view(n0.take(i as int)),
                tlvs_view(old@.take(i as int)),
            ),
        decreases new@.len(),
    {
        let e = new.remove(0);
        proof {
            assert(n0.skip(i as int).remove(0) =~= n0.skip(i + 1));
            assert(e == n0[i as int]);
        }
        let ghost r_before = r@;
        let same = e.cfg_id == old[i].cfg_id && bytes_eq(&e.v, &old[i].v);
        let ghost ev = e@;
        if !same {
            r.push(e);
        }
        proof {
            let nv = tlvs_view(n0.take(i + 1));
            let ov = tlvs_view(old@.take(i + 1));
            assert(nv.drop_last() =~= tlvs_view(n0.take(i as int)));
            assert(ov.drop_last() =~= tlvs_view(old@.take(i as int)));
            assert(nv.last() == ev);
            assert(ov.last() == old@[i as int]@);
            if same {
                assert(tlvs_view(r@) == updated_entries_spec(nv, ov));
            } else {
                assert(tlvs_view(r_before.push(n0[i as int])) =~= tlvs_view(r_before).push(ev));
                assert(tlvs_view(r@) == updated_entries_spec(nv, ov));
            }
        }
        i = i + 1;
    }
    proof {
        assert(n0.take(n0.len() as int) =~= n0);
        assert(old@.take(old@.len() as int) =~= old@);
    }
    r
}


/// Whether position `i` of two aligned renderings carries a change.
pub open spec fn entry_differs(new: Seq<TlvModel>, old: Seq<TlvModel>, i: int) -> bool {
    !(new[i].cfg_id == old[i].cfg_id && new[i].v == old[i].v)
}

/// Whether the diff entry at position `k` comes from a differing position of
/// `new`: the "only differing tags" half of the diff law.
pub open spec fn diff_entry_witnessed(new: Seq<TlvModel>, old: Seq<TlvModel>, k: int) -> bool {
    exists|i: int| #![trigger new[i]]
        (0 <= i < new.len() && updated_entries_spec(new, old)[k] == new[i] && entry_differs(
            new,
            old,
            i,
        ))
}

/// The diff is exact: it holds only entries of `new` that differ from the
/// aligned entry of `old`, and every differing entry of `new` is in it.
pub proof fn lemma_updated_entries_exact(new: Seq<TlvModel>, old: Seq<TlvModel>)
    requires
        new.len() == old.len(),
    ensures
        forall|k: int|
            0 <= k < updated_entries_spec(new, old).len() ==> #[trigger] diff_entry_witnessed(
                new,
                old,
                k,
            ),
        forall|i: int|
            0 <= i < new.len() && #[trigger] entry_differs(new, old, i)
                ==> updated_entries_spec(new, old).contains(new[i]),
    decreases new.len(),
{
    if new.len() == 0 {
    } else {
        let u = updated_entries_spec(new, old);
        let n1 = new.drop_last();
        let o1 = old.drop_last();
        let u1 = updated_entries_spec(n1, o1);
        lemma_updated_entries_exact(n1, o1);
        let last_same = new.last().cfg_id == old.last().cfg_id && new.last().v == old.last().v;
        assert forall|k: int|
            0 <= k < updated_entries_spec(new, old).len() implies diff_entry_witnessed(
            new,
            old,
            k,
        ) by {
            if k < u1.len() {
                assert(diff_entry_witnessed(n1, o1, k));
                let i = choose|i: int| #![trigger n1[i]]
                    (0 <= i < n1.len() && updated_entries_spec(n1, o1)[k] == n1[i]
                        && entry_differs(n1, o1, i));
                assert(new[i] == n1[i]);
                assert(old[i] == o1[i]);
                assert(u[k] == u1[k]);
                assert(entry_differs(new, old, i));
                assert(updated_entries_spec(new, old)[k] == new[i]);
            } else {
                assert(!last_same);
                assert(u == u1.push(new.last()));
                assert(u[k] == new.last());
                let i = new.len() - 1;
                assert(updated_entries_spec(new, old)[k] == new[i]);
                assert(entry_differs(new, old, i));
            }
        }
        assert forall|i: int|
            0 <= i < new.len() && #[trigger] entry_differs(new, old, i) implies updated_entries_spec(
            new,
            old,
        ).contains(new[i]) by {
            if i < new.len() - 1 {
                assert(n1[i] == new[i]);
                assert(o1[i] == old[i]);
                assert(entry_differs(n1, o1, i));
                assert(u1.contains(n1[i]));
                let k = choose|k: int| 0 <= k < u1.len() && #[trigger] u1[k] == n1[i];
                assert(u[k] == new[i]);
                assert(u.contains(new[i]));
            } else {
                assert(!last_same);
                assert(u == u1.push(new.last()));
                assert(u[u1.len() as int] == new.last());
                assert(u.contains(new[i]));
            }
        }
    }
}

} // verus!
