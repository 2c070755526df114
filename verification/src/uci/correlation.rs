//! The command/response correlation engine.
//!
//! The engine serialises the whole command surface onto the HAL's
//! single-command-in-flight link: it owns the one pending-exchange slot, a
//! FIFO of deferred submissions, and the per-session bookkeeping. It is a
//! pure decision core: a driving loop submits commands, feeds back each
//! response, timeout and notification, and performs the I/O that the returned
//! decisions call for (send the command, re-send it unchanged, resolve the
//! waiting caller). Every transition is specified against the abstract
//! [`EngineModel`].

use vstd::prelude::*;

use crate::error::Error;
use crate::params::app_config_params::AppConfigParams;
use crate::params::uci_packets::{
    tlvs_view, updated_entries_spec, AppConfigTlv, AppConfigTlvType, CapTlv, Controlee,
    CoreSetConfigResponse, CountryCode, DeviceConfigId, DeviceConfigTlv, GetDeviceInfoResponse,
    PowerStats, RawVendorMessage, ResetConfig, SessionId, SessionState, SessionType,
    SetAppConfigResponse, StatusCode, UpdateMulticastListAction,
};
use crate::uci::notification::{SessionNotification, UciNotification};

verus! {

/// How many times a command is transparently re-sent when the radio answers
/// with the transient retry status; the next such answer is surfaced as the
/// final failure.
pub const MAX_RETRY_COUNT: u8 = 3;

/// The bounded wait for the response of one command, in milliseconds. The
/// timer runs with the driving loop; when it fires the loop feeds
/// [`CorrelationEngine::on_timeout`] back into the engine.
pub const UCI_TIMEOUT_MS: u64 = 800;

/// One command of the UCI surface, with its strongly typed arguments.
#[derive(Clone, Debug, PartialEq, Eq)]
pub enum UciCommand {
    DeviceReset { reset_config: ResetConfig },
    CoreGetDeviceInfo,
    CoreGetCapsInfo,
    CoreSetConfig { config_tlvs: Vec<DeviceConfigTlv> },
    CoreGetConfig { cfg_id: Vec<DeviceConfigId> },
    SessionInit { session_id: SessionId, session_type: SessionType },
    SessionDeinit { session_id: SessionId },
    SessionSetAppConfig { session_id: SessionId, config: AppConfigParams },
    SessionGetAppConfig { session_id: SessionId, config_ids: Vec<AppConfigTlvType> },
    SessionGetCount,
    SessionGetState { session_id: SessionId },
    SessionUpdateControllerMulticastList {
        session_id: SessionId,
        action: UpdateMulticastListAction,
        controlees: Vec<Controlee>,
    },
    RangeStart { session_id: SessionId },
    RangeStop { session_id: SessionId },
    RangeGetRangingCount { session_id: SessionId },
    AndroidSetCountryCode { country_code: CountryCode },
    AndroidGetPowerStats,
    RawVendorCmd { gid: u32, oid: u32, payload: Vec<u8> },
}

impl UciCommand {
    /// The protocol group a command belongs to; its response carries the
    /// same group.
    pub open spec fn gid_spec(self) -> u32 {
        match self {
            UciCommand::DeviceReset { .. } => 0x00,
            UciCommand::CoreGetDeviceInfo => 0x00,
            UciCommand::CoreGetCapsInfo => 0x00,
            UciCommand::CoreSetConfig { .. } => 0x00,
            UciCommand::CoreGetConfig { .. } => 0x00,
            UciCommand::SessionInit { .. } => 0x01,
            UciCommand::SessionDeinit { .. } => 0x01,
            UciCommand::SessionSetAppConfig { .. } => 0x01,
            UciCommand::SessionGetAppConfig { .. } => 0x01,
            UciCommand::SessionGetCount => 0x01,
            UciCommand::SessionGetState { .. } => 0x01,
            UciCommand::SessionUpdateControllerMulticastList { .. } => 0x01,
            UciCommand::RangeStart { .. } => 0x02,
            UciCommand::RangeStop { .. } => 0x02,
            UciCommand::RangeGetRangingCount { .. } => 0x02,
            UciCommand::AndroidSetCountryCode { .. } => 0x0E,
            UciCommand::AndroidGetPowerStats => 0x0E,
            UciCommand::RawVendorCmd { gid, .. } => gid,
        }
    }

    /// The opcode of a command within its group.
    pub open spec fn oid_spec(self) -> u32 {
        match self {
            UciCommand::DeviceReset { .. } => 0x00,
            UciCommand::CoreGetDeviceInfo => 0x02,
            UciCommand::CoreGetCapsInfo => 0x03,
            UciCommand::CoreSetConfig { .. } => 0x04,
            UciCommand::CoreGetConfig { .. } => 0x05,
            UciCommand::SessionInit { .. } => 0x00,
            UciCommand::SessionDeinit { .. } => 0x01,
            UciCommand::SessionSetAppConfig { .. } => 0x03,
            UciCommand::SessionGetAppConfig { .. } => 0x04,
            UciCommand::SessionGetCount => 0x05,
            UciCommand::SessionGetState { .. } => 0x06,
            UciCommand::SessionUpdateControllerMulticastList { .. } => 0x07,
            UciCommand::RangeStart { .. } => 0x00,
            UciCommand::RangeStop { .. } => 0x01,
            UciCommand::RangeGetRangingCount { .. } => 0x03,
            UciCommand::AndroidSetCountryCode { .. } => 0x01,
            UciCommand::AndroidGetPowerStats => 0x00,
            UciCommand::RawVendorCmd { oid, .. } => oid,
        }
    }

    /// Executable counterpart of [`Self::gid_spec`].
    pub fn gid(&self) -> (r: u32)
        ensures
            r == self.gid_spec(),
    {
        match self {
            UciCommand::DeviceReset { .. } => 0x00,
            UciCommand::CoreGetDeviceInfo => 0x00,
            UciCommand::CoreGetCapsInfo => 0x00,
            UciCommand::CoreSetConfig { .. } => 0x00,
            UciCommand::CoreGetConfig { .. } => 0x00,
            UciCommand::SessionInit { .. } => 0x01,
            UciCommand::SessionDeinit { .. } => 0x01,
            UciCommand::SessionSetAppConfig { .. } => 0x01,
            UciCommand::SessionGetAppConfig { .. } => 0x01,
            UciCommand::SessionGetCount => 0x01,
            UciCommand::SessionGetState { .. } => 0x01,
            UciCommand::SessionUpdateControllerMulticastList { .. } => 0x01,
            UciCommand::RangeStart { .. } => 0x02,
            UciCommand::RangeStop { .. } => 0x02,
            UciCommand::RangeGetRangingCount { .. } => 0x02,
            UciCommand::AndroidSetCountryCode { .. } => 0x0E,
            UciCommand::AndroidGetPowerStats => 0x0E,
            UciCommand::RawVendorCmd { gid, .. } => *gid,
        }
    }

    /// Executable counterpart of [`Self::oid_spec`].
    pub fn oid(&self) -> (r: u32)
        ensures
            r == self.oid_spec(),
    {
        match self {
            UciCommand::DeviceReset { .. } => 0x00,
            UciCommand::CoreGetDeviceInfo => 0x02,
            UciCommand::CoreGetCapsInfo => 0x03,
            UciCommand::CoreSetConfig { .. } => 0x04,
            UciCommand::CoreGetConfig { .. } => 0x05,
            UciCommand::SessionInit { .. } => 0x00,
            UciCommand::SessionDeinit { .. } => 0x01,
            UciCommand::SessionSetAppConfig { .. } => 0x03,
            UciCommand::SessionGetAppConfig { .. } => 0x04,
            UciCommand::SessionGetCount => 0x05,
            UciCommand::SessionGetState { .. } => 0x06,
            UciCommand::SessionUpdateControllerMulticastList { .. } => 0x07,
            UciCommand::RangeStart { .. } => 0x00,
            UciCommand::RangeStop { .. } => 0x01,
            UciCommand::RangeGetRangingCount { .. } => 0x03,
            UciCommand::AndroidSetCountryCode { .. } => 0x01,
            UciCommand::AndroidGetPowerStats => 0x00,
            UciCommand::RawVendorCmd { oid, .. } => *oid,
        }
    }
}

/// The typed payload a response resolves its caller with.
#[derive(Clone, Debug, PartialEq, Eq)]
pub enum UciResponsePayload {
    /// The command acknowledges without data.
    Unit,
    DeviceInfo(GetDeviceInfoResponse),
    CapsInfo(Vec<CapTlv>),
    SetConfigRsp(CoreSetConfigResponse),
    GetConfigRsp(Vec<DeviceConfigTlv>),
    SetAppConfigRsp(SetAppConfigResponse),
    AppConfig(Vec<AppConfigTlv>),
    SessionCount(u8),
    SessionState(SessionState),
    RangingCount(u32),
    PowerStats(PowerStats),
    Vendor(RawVendorMessage),
}

/// One response buffer, already decoded by the packet layer: the group and
/// opcode it answers, the status byte, and the typed payload.
#[derive(Clone, Debug, PartialEq, Eq)]
pub struct UciResponse {
    pub gid: u32,
    pub oid: u32,
    pub status: StatusCode,
    pub payload: UciResponsePayload,
}

/// Which payload kind each command's response must carry.
pub open spec fn payload_matches(cmd: UciCommand, payload: UciResponsePayload) -> bool {
    match cmd {
        UciCommand::DeviceReset { .. } => payload is Unit,
        UciCommand::CoreGetDeviceInfo => payload is DeviceInfo,
        UciCommand::CoreGetCapsInfo => payload is CapsInfo,
        UciCommand::CoreSetConfig { .. } => payload is SetConfigRsp,
        UciCommand::CoreGetConfig { .. } => payload is GetConfigRsp,
        UciCommand::SessionInit { .. } => payload is Unit,
        UciCommand::SessionDeinit { .. } => payload is Unit,
        UciCommand::SessionSetAppConfig { .. } => payload is SetAppConfigRsp,
        UciCommand::SessionGetAppConfig { .. } => payload is AppConfig,
        UciCommand::SessionGetCount => payload is SessionCount,
        UciCommand::SessionGetState { .. } => payload is SessionState,
        UciCommand::SessionUpdateControllerMulticastList { .. } => payload is Unit,
        UciCommand::RangeStart { .. } => payload is Unit,
        UciCommand::RangeStop { .. } => payload is Unit,
        UciCommand::RangeGetRangingCount { .. } => payload is RangingCount,
        UciCommand::AndroidSetCountryCode { .. } => payload is Unit,
        UciCommand::AndroidGetPowerStats => payload is PowerStats,
        UciCommand::RawVendorCmd { .. } => payload is Vendor,
    }
}

/// Executable counterpart of [`payload_matches`].
pub fn payload_matched(cmd: &UciCommand, payload: &UciResponsePayload) -> (r: bool)
    ensures
        r == payload_matches(*cmd, *payload),
{
    match cmd {
        UciCommand::DeviceReset { .. } => matches!(payload, UciResponsePayload::Unit),
        UciCommand::CoreGetDeviceInfo => matches!(payload, UciResponsePayload::DeviceInfo(_)),
        UciCommand::CoreGetCapsInfo => matches!(payload, UciResponsePayload::CapsInfo(_)),
        UciCommand::CoreSetConfig { .. } => matches!(payload, UciResponsePayload::SetConfigRsp(_)),
        UciCommand::CoreGetConfig { .. } => matches!(payload, UciResponsePayload::GetConfigRsp(_)),
        UciCommand::SessionInit { .. } => matches!(payload, UciResponsePayload::Unit),
        UciCommand::SessionDeinit { .. } => matches!(payload, UciResponsePayload::Unit),
        UciCommand::SessionSetAppConfig { .. } => matches!(
            payload,
            UciResponsePayload::SetAppConfigRsp(_),
        ),
        UciCommand::SessionGetAppConfig { .. } => matches!(
            payload,
            UciResponsePayload::AppConfig(_),
        ),
        UciCommand::SessionGetCount => matches!(payload, UciResponsePayload::SessionCount(_)),
        UciCommand::SessionGetState { .. } => matches!(
            payload,
            UciResponsePayload::SessionState(_),
        ),
        UciCommand::SessionUpdateControllerMulticastList { .. } => matches!(
            payload,
            UciResponsePayload::Unit,
        ),
        UciCommand::RangeStart { .. } => matches!(payload, UciResponsePayload::Unit),
        UciCommand::RangeStop { .. } => matches!(payload, UciResponsePayload::Unit),
        UciCommand::RangeGetRangingCount { .. } => matches!(
            payload,
            UciResponsePayload::RangingCount(_),
        ),
        UciCommand::AndroidSetCountryCode { .. } => matches!(payload, UciResponsePayload::Unit),
        UciCommand::AndroidGetPowerStats => matches!(payload, UciResponsePayload::PowerStats(_)),
        UciCommand::RawVendorCmd { .. } => matches!(payload, UciResponsePayload::Vendor(_)),
    }
}

/// The single in-flight exchange: the command that was sent and how many
/// transparent retries it has already consumed. At most one of these exists
/// at any instant.
#[derive(Clone, Debug)]
pub struct PendingRequest {
    pub cmd: UciCommand,
    pub retry_count: u8,
}

/// The engine's record of one live session.
#[derive(Clone, Debug)]
pub struct SessionRecord {
    /// The caller-chosen id; unique among live sessions.
    pub id: SessionId,
    /// The protocol type the session was initialised with.
    pub session_type: SessionType,
    /// The lifecycle state, driven by command acknowledgements and by
    /// session-status notifications.
    pub state: SessionState,
    /// The configuration last successfully applied to the radio, used to
    /// diff the next configuration update.
    pub applied_config: Option<AppConfigParams>,
}

/// The mathematical state of the engine.
#[verifier::ext_equal]
pub struct EngineModel {
    /// The single in-flight exchange, if any.
    pub pending: Option<PendingRequest>,
    /// Deferred submissions, oldest first.
    pub queue: Seq<UciCommand>,
    /// The live sessions.
    pub sessions: Seq<SessionRecord>,
}

/// Pairwise distinct session ids.
pub open spec fn ids_unique(s: Seq<SessionRecord>) -> bool {
    forall|i: int, j: int| 0 <= i < j < s.len() ==> (#[trigger] s[i].id) != (#[trigger] s[j].id)
}

/// Whether a live session carries the id.
pub open spec fn has_session(s: Seq<SessionRecord>, id: SessionId) -> bool {
    exists|k: int| 0 <= k < s.len() && (#[trigger] s[k].id) == id
}

/// The position of the first record carrying the id, if any.
pub open spec fn find_session(s: Seq<SessionRecord>, id: SessionId) -> Option<int>
    decreases s.len(),
{
    if s.len() == 0 {
        Option::None
    } else if s[0].id == id {
        Option::Some(0)
    } else {
        match find_session(s.skip(1), id) {
            Option::Some(i) => Option::Some(i + 1),
            Option::None => Option::None,
        }
    }
}

/// A found position is in range, carries the id, and is the first such.
pub proof fn lemma_find_session_first(s: Seq<SessionRecord>, id: SessionId, j: int)
    requires
        0 <= j < s.len(),
        s[j].id == id,
        forall|k: int| 0 <= k < j ==> (#[trigger] s[k].id) != id,
    ensures
        find_session(s, id) == Option::Some(j),
    decreases j,
{
    if j == 0 {
    } else {
        assert(s[0].id != id);
        lemma_find_session_first(s.skip(1), id, j - 1);
    }
}

/// When no record carries the id, nothing is found.
pub proof fn lemma_find_session_none(s: Seq<SessionRecord>, id: SessionId)
    requires
        forall|k: int| 0 <= k < s.len() ==> (#[trigger] s[k].id) != id,
    ensures
        find_session(s, id) is None,
    decreases s.len(),
{
    if s.len() == 0 {
    } else {
        lemma_find_session_none(s.skip(1), id);
    }
}

/// A found position is in range and carries the id.
pub proof fn lemma_find_session_found(s: Seq<SessionRecord>, id: SessionId)
    requires
        find_session(s, id) is Some,
    ensures
        0 <= find_session(s, id)->Some_0 < s.len(),
        s[find_session(s, id)->Some_0].id == id,
    decreases s.len(),
{
    if s.len() == 0 {
    } else if s[0].id == id {
    } else {
        lemma_find_session_found(s.skip(1), id);
    }
}

/// The caller's view of a submission.
#[derive(Clone, Copy, Debug, PartialEq, Eq, Structural)]
pub enum SubmitResult {
    /// The in-flight slot was free; the command must now be sent to the HAL.
    Sent,
    /// An exchange is in flight; the command was deferred and will be
    /// started, in submission order, when its turn's predecessor resolves.
    Queued,
    /// Rejected before any bytes were sent.
    Rejected(Error),
}

/// What the driving loop must do after feeding a response in.
#[derive(Debug)]
pub enum ResponseResult {
    /// No exchange was pending, or the buffer answers another group/opcode:
    /// the late or alien response is discarded.
    Ignored,
    /// The transient retry status arrived below the bound: the pending
    /// command must be re-sent to the HAL, unchanged.
    Resend,
    /// The pending exchange resolved with this outcome; when `started_next`
    /// is set, the head of the queue has been promoted to the in-flight slot
    /// and must now be sent.
    Done { outcome: Result<UciResponsePayload, Error>, started_next: bool },
}

/// What the driving loop must do after the response timer fired.
#[derive(Clone, Copy, Debug, PartialEq, Eq, Structural)]
pub enum TimeoutResult {
    /// Nothing was pending; nothing to resolve.
    Idle,
    /// The pending exchange is abandoned and its caller must be resolved
    /// with the timeout failure; when `started_next` is set, the head of the
    /// queue has been promoted and must now be sent.
    Expired { started_next: bool },
}

impl EngineModel {
    /// The checks a submission must pass before any bytes are sent: a
    /// duplicate live session id is rejected, and a configuration is
    /// rejected when its protocol family does not match the target
    /// session's type.
    pub open spec fn submit_validation(self, cmd: UciCommand) -> Option<Error> {
        match cmd {
            UciCommand::SessionInit { session_id, .. } => if has_session(
                self.sessions,
                session_id,
            ) {
                Option::Some(Error::DuplicatedSessionId)
            } else {
                Option::None
            },
            UciCommand::SessionSetAppConfig { session_id, config } => match find_session(
                self.sessions,
                session_id,
            ) {
                Option::Some(i) => if !config.is_type_matched_spec(
                    self.sessions[i].session_type,
                ) {
                    Option::Some(Error::BadParameters)
                } else {
                    Option::None
                },
                Option::None => Option::None,
            },
            _ => Option::None,
        }
    }

    /// The submission transition: reject, defer, or occupy the in-flight
    /// slot.
    pub open spec fn submit_step(self, cmd: UciCommand) -> (EngineModel, SubmitResult) {
        match self.submit_validation(cmd) {
            Option::Some(e) => (self, SubmitResult::Rejected(e)),
            Option::None => match self.pending {
                Option::Some(_) => (
                    EngineModel { queue: self.queue.push(cmd), ..self },
                    SubmitResult::Queued,
                ),
                Option::None => (
                    EngineModel {
                        pending: Option::Some(PendingRequest { cmd: cmd, retry_count: 0 }),
                        ..self
                    },
                    SubmitResult::Sent,
                ),
            },
        }
    }

    /// Frees the in-flight slot and promotes the head of the queue into it,
    /// if any; the flag says whether a deferred command was started.
    pub open spec fn promote_spec(self) -> (EngineModel, bool) {
        if self.queue.len() > 0 {
            (
                EngineModel {
                    pending: Option::Some(
                        PendingRequest { cmd: self.queue[0], retry_count: 0 },
                    ),
                    queue: self.queue.skip(1),
                    ..self
                },
                true,
            )
        } else {
            (EngineModel { pending: Option::None, ..self }, false)
        }
    }

    /// The session bookkeeping applied when a command's response reports
    /// success: init creates the record, deinit destroys it, a configuration
    /// set records the applied configuration and parks the session idle,
    /// range start/stop move it between active and idle, and a device reset
    /// destroys every session.
    pub open spec fn apply_bookkeeping_spec(self, cmd: UciCommand) -> EngineModel {
        match cmd {
            UciCommand::DeviceReset { .. } => EngineModel {
                sessions: Seq::empty(),
                ..self
            },
            UciCommand::SessionInit { session_id, session_type } => if has_session(
                self.sessions,
                session_id,
            ) {
                self
            } else {
                EngineModel {
                    sessions: self.sessions.push(
                        SessionRecord {
                            id: session_id,
                            session_type: session_type,
                            state: SessionState::SessionStateInit,
                            applied_config: Option::None,
                        },
                    ),
                    ..self
                }
            },
            UciCommand::SessionDeinit { session_id } => match find_session(
                self.sessions,
                session_id,
            ) {
                Option::Some(i) => EngineModel { sessions: self.sessions.remove(i), ..self },
                Option::None => self,
            },
            UciCommand::SessionSetAppConfig { session_id, config } => match find_session(
                self.sessions,
                session_id,
            ) {
                Option::Some(i) => EngineModel {
                    sessions: self.sessions.update(
                        i,
                        SessionRecord {
                            state: SessionState::SessionStateIdle,
                            applied_config: Option::Some(config),
                            ..self.sessions[i]
                        },
                    ),
                    ..self
                },
                Option::None => self,
            },
            UciCommand::RangeStart { session_id } => match find_session(
                self.sessions,
                session_id,
            ) {
                Option::Some(i) => EngineModel {
                    sessions: self.sessions.update(
                        i,
                        SessionRecord {
                            state: SessionState::SessionStateActive,
                            ..self.sessions[i]
                        },
                    ),
                    ..self
                },
                Option::None => self,
            },
            UciCommand::RangeStop { session_id } => match find_session(
                self.sessions,
                session_id,
            ) {
                Option::Some(i) => EngineModel {
                    sessions: self.sessions.update(
                        i,
                        SessionRecord {
                            state: SessionState::SessionStateIdle,
                            ..self.sessions[i]
                        },
                    ),
                    ..self
                },
                Option::None => self,
            },
            _ => self,
        }
    }

    /// The response transition: discard an unmatched buffer, retry the
    /// transient status up to the bound, then resolve the caller — with the
    /// mapped failure for a non-success status, with the retry status itself
    /// when the bound is exhausted, or with the payload on success, applying
    /// the session bookkeeping first.
    pub open spec fn response_step(self, resp: UciResponse) -> (EngineModel, ResponseResult) {
        match self.pending {
            Option::None => (self, ResponseResult::Ignored),
            Option::Some(p) => if resp.gid != p.cmd.gid_spec() || resp.oid != p.cmd.oid_spec() {
                (self, ResponseResult::Ignored)
            } else if resp.status == StatusCode::UciStatusCommandRetry {
                if p.retry_count < MAX_RETRY_COUNT {
                    (
                        EngineModel {
                            pending: Option::Some(
                                PendingRequest {
                                    cmd: p.cmd,
                                    retry_count: (p.retry_count + 1) as u8,
                                },
                            ),
                            ..self
                        },
                        ResponseResult::Resend,
                    )
                } else {
                    (
                        self.promote_spec().0,
                        ResponseResult::Done {
                            outcome: Result::Err(Error::CommandRetry),
                            started_next: self.promote_spec().1,
                        },
                    )
                }
            } else if resp.status != StatusCode::UciStatusOk {
                (
                    self.promote_spec().0,
                    ResponseResult::Done {
                        outcome: Result::Err(resp.status.to_error_spec()),
                        started_next: self.promote_spec().1,
                    },
                )
            } else if !payload_matches(p.cmd, resp.payload) {
                (
                    self.promote_spec().0,
                    ResponseResult::Done {
                        outcome: Result::Err(Error::Unknown),
                        started_next: self.promote_spec().1,
                    },
                )
            } else {
                (
                    self.apply_bookkeeping_spec(p.cmd).promote_spec().0,
                    ResponseResult::Done {
                        outcome: Result::Ok(resp.payload),
                        started_next: self.apply_bookkeeping_spec(p.cmd).promote_spec().1,
                    },
                )
            },
        }
    }

    /// The timeout transition: abandon the pending exchange, if any, and
    /// promote the head of the queue.
    pub open spec fn timeout_step(self) -> (EngineModel, TimeoutResult) {
        match self.pending {
            Option::None => (self, TimeoutResult::Idle),
            Option::Some(_) => (
                self.promote_spec().0,
                TimeoutResult::Expired { started_next: self.promote_spec().1 },
            ),
        }
    }

    /// The notification transition: a session-status notification drives the
    /// recorded state of the session, destroying the record when the radio
    /// reports it deinitialised; every other notification leaves the engine
    /// unchanged.
    pub open spec fn notification_step(self, ntf: UciNotification) -> EngineModel {
        match ntf {
            UciNotification::Session(
                SessionNotification::Status { session_id, session_state, .. },
            ) => match find_session(self.sessions, session_id) {
                Option::Some(i) => if session_state == SessionState::SessionStateDeinit {
                    EngineModel { sessions: self.sessions.remove(i), ..self }
                } else {
                    EngineModel {
                        sessions: self.sessions.update(
                            i,
                            SessionRecord { state: session_state, ..self.sessions[i] },
                        ),
                        ..self
                    }
                },
                Option::None => self,
            },
            _ => self,
        }
    }

    /// The engine's invariant: live session ids are pairwise distinct, and
    /// the in-flight retry counter never exceeds the bound.
    pub open spec fn wf(self) -> bool {
        &&& ids_unique(self.sessions)
        &&& (self.pending matches Option::Some(p) ==> p.retry_count <= MAX_RETRY_COUNT)
    }
}

/// Promotion preserves the invariant.
proof fn lemma_promote_preserves_wf(m: EngineModel)
    requires
        m.wf(),
    ensures
        m.promote_spec().0.wf(),
{
}

/// The session bookkeeping preserves the invariant.
proof fn lemma_bookkeeping_preserves_wf(m: EngineModel, cmd: UciCommand)
    requires
        m.wf(),
    ensures
        m.apply_bookkeeping_spec(cmd).wf(),
{
    let s = m.sessions;
    match cmd {
        UciCommand::SessionInit { session_id, .. } => {
            if !has_session(s, session_id) {
                let s2 = m.apply_bookkeeping_spec(cmd).sessions;
                assert forall|i: int, j: int| 0 <= i < j < s2.len() implies (#[trigger] s2[i].id)
                    != (#[trigger] s2[j].id) by {
                    if j < s.len() {
                    } else {
                        assert(s2[i].id == s[i].id);
                        if s[i].id == session_id {
                            assert(has_session(s, session_id));
                        }
                    }
                }
            }
        },
        UciCommand::SessionDeinit { session_id } => {
            match find_session(s, session_id) {
                Option::Some(i) => {
                    lemma_find_session_found(s, session_id);
                    let s2 = s.remove(i);
                    assert forall|a: int, b: int| 0 <= a < b < s2.len() implies (
                    #[trigger] s2[a].id) != (#[trigger] s2[b].id) by {
                        let a0 = if a < i {
                            a
                        } else {
                            a + 1
                        };
                        let b0 = if b < i {
                            b
                        } else {
                            b + 1
                        };
                        assert(s2[a] == s[a0]);
                        assert(s2[b] == s[b0]);
                    }
                },
                Option::None => {},
            }
        },
        UciCommand::SessionSetAppConfig { session_id, .. } => {
            match find_session(s, session_id) {
                Option::Some(i) => {
                    lemma_find_session_found(s, session_id);
                    let s2 = m.apply_bookkeeping_spec(cmd).sessions;
                    assert forall|a: int, b: int| 0 <= a < b < s2.len() implies (
                    #[trigger] s2[a].id) != (#[trigger] s2[b].id) by {
                        assert(s2[a].id == s[a].id);
                        assert(s2[b].id == s[b].id);
                    }
                },
                Option::None => {},
            }
        },
        UciCommand::RangeStart { session_id } => {
            match find_session(s, session_id) {
                Option::Some(i) => {
                    lemma_find_session_found(s, session_id);
                    let s2 = m.apply_bookkeeping_spec(cmd).sessions;
                    assert forall|a: int, b: int| 0 <= a < b < s2.len() implies (
                    #[trigger] s2[a].id) != (#[trigger] s2[b].id) by {
                        assert(s2[a].id == s[a].id);
                        assert(s2[b].id == s[b].id);
                    }
                },
                Option::None => {},
            }
        },
        UciCommand::RangeStop { session_id } => {
            match find_session(s, session_id) {
                Option::Some(i) => {
                    lemma_find_session_found(s, session_id);
                    let s2 = m.apply_bookkeeping_spec(cmd).sessions;
                    assert forall|a: int, b: int| 0 <= a < b < s2.len() implies (
                    #[trigger] s2[a].id) != (#[trigger] s2[b].id) by {
                        assert(s2[a].id == s[a].id);
                        assert(s2[b].id == s[b].id);
                    }
                },
                Option::None => {},
            }
        },
        _ => {},
    }
}

/// The notification transition preserves the invariant.
proof fn lemma_notification_preserves_wf(m: EngineModel, ntf: UciNotification)
    requires
        m.wf(),
    ensures
        m.notification_step(ntf).wf(),
{
    match ntf {
        UciNotification::Session(
            SessionNotification::Status { session_id, session_state, .. },
        ) => {
            let s = m.sessions;
            match find_session(s, session_id) {
                Option::Some(i) => {
                    lemma_find_session_found(s, session_id);
                    let s2 = m.notification_step(ntf).sessions;
                    if session_state == SessionState::SessionStateDeinit {
                        assert forall|a: int, b: int| 0 <= a < b < s2.len() implies (
                        #[trigger] s2[a].id) != (#[trigger] s2[b].id) by {
                            let a0 = if a < i {
                                a
                            } else {
                                a + 1
                            };
                            let b0 = if b < i {
                                b
                            } else {
                                b + 1
                            };
                            assert(s2[a] == s[a0]);
                            assert(s2[b] == s[b0]);
                        }
                    } else {
                        assert forall|a: int, b: int| 0 <= a < b < s2.len() implies (
                        #[trigger] s2[a].id) != (#[trigger] s2[b].id) by {
                            assert(s2[a].id == s[a].id);
                            assert(s2[b].id == s[b].id);
                        }
                    }
                },
                Option::None => {},
            }
        },
        _ => {},
    }
}

/// Finds the first record with the given id, as [`find_session`] does.
fn find_index(sessions: &Vec<SessionRecord>, id: SessionId) -> (r: Option<usize>)
    ensures
        match r {
            Option::Some(j) => find_session(sessions@, id) == Option::Some(j as int),
            Option::None => find_session(sessions@, id) is None,
        },
{
    let mut j: usize = 0;
    while j < sessions.len()
        invariant
            j <= sessions@.len(),
            forall|k: int| 0 <= k < j ==> (#[trigger] sessions@[k].id) != id,
        decreases sessions@.len() - j,
    {
        if sessions[j].id == id {
            proof {
                lemma_find_session_first(sessions@, id, j as int);
            }
            return Option::Some(j);
        }
        j = j + 1;
    }
    proof {
        lemma_find_session_none(sessions@, id);
    }
    Option::None
}

/// The correlation engine's concrete state; its behaviour is specified
/// against [`EngineModel`] through the engine's view.
pub struct CorrelationEngine {
    pending: Option<PendingRequest>,
    queue: Vec<UciCommand>,
    sessions: Vec<SessionRecord>,
}

impl View for CorrelationEngine {
    type V = EngineModel;

    closed spec fn view(&self) -> EngineModel {
        EngineModel { pending: self.pending, queue: self.queue@, sessions: self.sessions@ }
    }
}

impl CorrelationEngine {
    /// A fresh engine: nothing in flight, nothing queued, no session.
    pub fn new() -> (r: Self)
        ensures
            r@ == (EngineModel {
                pending: Option::None,
                queue: Seq::empty(),
                sessions: Seq::empty(),
            }),
            r@.wf(),
    {
        let r = CorrelationEngine { pending: Option::None, queue: Vec::new(), sessions: Vec::new() };
        proof {
            assert(r@ =~= EngineModel {
                pending: Option::None,
                queue: Seq::empty(),
                sessions: Seq::empty(),
            });
        }
        r
    }

    /// Executable counterpart of [`EngineModel::submit_validation`].
    fn validate_submit(&self, cmd: &UciCommand) -> (r: Option<Error>)
        ensures
            r == self@.submit_validation(*cmd),
    {
        match cmd {
            UciCommand::SessionInit { session_id, .. } => {
                match find_index(&self.sessions, *session_id) {
                    Option::Some(j) => {
                        proof {
                            lemma_find_session_found(self.sessions@, *session_id);
                            assert(has_session(self.sessions@, *session_id));
                        }
                        Option::Some(Error::DuplicatedSessionId)
                    },
                    Option::None => {
                        proof {
                            if has_session(self.sessions@, *session_id) {
                                lemma_find_session_first_exists(self.sessions@, *session_id);
                            }
                        }
                        Option::None
                    },
                }
            },
            UciCommand::SessionSetAppConfig { session_id, config } => {
                match find_index(&self.sessions, *session_id) {
                    Option::Some(j) => {
                        proof {
                            lemma_find_session_found(self.sessions@, *session_id);
                        }
                        if !config.is_type_matched(self.sessions[j].session_type) {
                            Option::Some(Error::BadParameters)
                        } else {
                            Option::None
                        }
                    },
                    Option::None => Option::None,
                }
            },
            _ => Option::None,
        }
    }

    /// Submits one command for transmission.
    ///
    /// Validation failures are rejected before any bytes are sent. While an
    /// exchange is in flight the command is deferred, never sent: at most
    /// one command is in flight at any instant, and deferred commands are
    /// served strictly in submission order.
    pub fn submit(&mut self, cmd: UciCommand) -> (r: SubmitResult)
        requires
            old(self)@.wf(),
        ensures
            final(self)@ == old(self)@.submit_step(cmd).0,
            r == old(self)@.submit_step(cmd).1,
            final(self)@.wf(),
    {
        let rejection = self.validate_submit(&cmd);
        match rejection {
            Option::Some(e) => {
                return SubmitResult::Rejected(e);
            },
            Option::None => {},
        }
        if self.pending.is_some() {
            self.queue.push(cmd);
            proof {
                assert(self@ =~= old(self)@.submit_step(cmd).0);
            }
            return SubmitResult::Queued;
        }
        self.pending = Option::Some(PendingRequest { cmd, retry_count: 0 });
        proof {
            assert(self@ =~= old(self)@.submit_step(cmd).0);
        }
        SubmitResult::Sent
    }

    /// Frees the in-flight slot and promotes the queue head, if any.
    fn start_next(&mut self) -> (started: bool)
        ensures
            final(self)@ == old(self)@.promote_spec().0,
            started == old(self)@.promote_spec().1,
    {
        if self.queue.len() > 0 {
            let cmd = self.queue.remove(0);
            self.pending = Option::Some(PendingRequest { cmd, retry_count: 0 });
            proof {
                assert(old(self)@.queue.remove(0) =~= old(self)@.queue.skip(1));
                assert(self@ =~= old(self)@.promote_spec().0);
            }
            true
        } else {
            self.pending = Option::None;
            proof {
                assert(self@ =~= old(self)@.promote_spec().0);
            }
            false
        }
    }

    /// Executable counterpart of [`EngineModel::apply_bookkeeping_spec`].
    fn apply_bookkeeping(&mut self, cmd: UciCommand)
        ensures
            final(self)@ == old(self)@.apply_bookkeeping_spec(cmd),
    {
        match cmd {
            UciCommand::DeviceReset { .. } => {
                self.sessions = Vec::new();
                proof {
                    assert(self@ =~= old(self)@.apply_bookkeeping_spec(cmd));
                }
            },
            UciCommand::SessionInit { session_id, session_type } => {
                match find_index(&self.sessions, session_id) {
                    Option::Some(_) => {
                        proof {
                            lemma_find_session_found(self.sessions@, session_id);
                            assert(has_session(self.sessions@, session_id));
                            assert(self@ =~= old(self)@.apply_bookkeeping_spec(cmd));
                        }
                    },
                    Option::None => {
                        proof {
                            if has_session(self.sessions@, session_id) {
                                lemma_find_session_first_exists(self.sessions@, session_id);
                            }
                        }
                        self.sessions.push(
                            SessionRecord {
                                id: session_id,
                                session_type,
                                state: SessionState::SessionStateInit,
                                applied_config: Option::None,
                            },
                        );
                        proof {
                            assert(self@ =~= old(self)@.apply_bookkeeping_spec(cmd));
                        }
                    },
                }
            },
            UciCommand::SessionDeinit { session_id } => {
                match find_index(&self.sessions, session_id) {
                    Option::Some(j) => {
                        proof {
                            lemma_find_session_found(self.sessions@, session_id);
                        }
                        let _removed = self.sessions.remove(j);
                        proof {
                            assert(self@ =~= old(self)@.apply_bookkeeping_spec(cmd));
                        }
                    },
                    Option::None => {
                        proof {
                            assert(self@ =~= old(self)@.apply_bookkeeping_spec(cmd));
                        }
                    },
                }
            },
            UciCommand::SessionSetAppConfig { session_id, config } => {
                match find_index(&self.sessions, session_id) {
                    Option::Some(j) => {
                        proof {
                            lemma_find_session_found(self.sessions@, session_id);
                        }
                        let mut rec = self.sessions.remove(j);
                        rec.state = SessionState::SessionStateIdle;
                        rec.applied_config = Option::Some(config);
                        self.sessions.insert(j, rec);
                        proof {
                            assert(self.sessions@ =~= old(self)@.sessions.update(
                                j as int,
                                SessionRecord {
                                    state: SessionState::SessionStateIdle,
                                    applied_config: old(self)@.apply_bookkeeping_spec(
                                        cmd,
                                    ).sessions[j as int].applied_config,
                                    ..old(self)@.sessions[j as int]
                                },
                            ));
                            assert(self@ =~= old(self)@.apply_bookkeeping_spec(cmd));
                        }
                    },
                    Option::None => {
                        proof {
                            assert(self@ =~= old(self)@.apply_bookkeeping_spec(cmd));
                        }
                    },
                }
            },
            UciCommand::RangeStart { session_id } => {
                match find_index(&self.sessions, session_id) {
                    Option::Some(j) => {
                        proof {
                            lemma_find_session_found(self.sessions@, session_id);
                        }
                        let mut rec = self.sessions.remove(j);
                        rec.state = SessionState::SessionStateActive;
                        self.sessions.insert(j, rec);
                        proof {
                            assert(self.sessions@ =~= old(self)@.sessions.update(
                                j as int,
                                SessionRecord {
                                    state: SessionState::SessionStateActive,
                                    ..old(self)@.sessions[j as int]
                                },
                            ));
                            assert(self@ =~= old(self)@.apply_bookkeeping_spec(cmd));
                        }
                    },
                    Option::None => {
                        proof {
                            assert(self@ =~= old(self)@.apply_bookkeeping_spec(cmd));
                        }
                    },
                }
            },
            UciCommand::RangeStop { session_id } => {
                match find_index(&self.sessions, session_id) {
                    Option::Some(j) => {
                        proof {
                            lemma_find_session_found(self.sessions@, session_id);
                        }
                        let mut rec = self.sessions.remove(j);
                        rec.state = SessionState::SessionStateIdle;
                        self.sessions.insert(j, rec);
                        proof {
                            assert(self.sessions@ =~= old(self)@.sessions.update(
                                j as int,
                                SessionRecord {
                                    state: SessionState::SessionStateIdle,
                                    ..old(self)@.sessions[j as int]
                                },
                            ));
                            assert(self@ =~= old(self)@.apply_bookkeeping_spec(cmd));
                        }
                    },
                    Option::None => {
                        proof {
                            assert(self@ =~= old(self)@.apply_bookkeeping_spec(cmd));
                        }
                    },
                }
            },
            _ => {
                proof {
                    assert(self@ =~= old(self)@.apply_bookkeeping_spec(cmd));
                }
            },
        }
    }

    /// Feeds one inbound response buffer into the engine.
    ///
    /// A buffer answering another group/opcode — or arriving while nothing
    /// is pending, as after a timeout — is discarded, never fatal. The
    /// transient retry status re-sends the same command up to the bound and
    /// then surfaces as the final failure. Every other status resolves the
    /// pending caller: the mapped failure for a non-success status, the
    /// typed payload on success, with the session bookkeeping applied.
    pub fn on_response(&mut self, resp: UciResponse) -> (r: ResponseResult)
        requires
            old(self)@.wf(),
        ensures
            final(self)@ == old(self)@.response_step(resp).0,
            r == old(self)@.response_step(resp).1,
            final(self)@.wf(),
    {
        let pending = self.pending.take();
        let p = match pending {
            Option::None => {
                return ResponseResult::Ignored;
            },
            Option::Some(p) => p,
        };
        if resp.gid != p.cmd.gid() || resp.oid != p.cmd.oid() {
            self.pending = Option::Some(p);
            proof {
                assert(self@ =~= old(self)@.response_step(resp).0);
            }
            return ResponseResult::Ignored;
        }
        if resp.status == StatusCode::UciStatusCommandRetry {
            if p.retry_count < MAX_RETRY_COUNT {
                self.pending = Option::Some(
                    PendingRequest { cmd: p.cmd, retry_count: p.retry_count + 1 },
                );
                proof {
                    assert(self@ =~= old(self)@.response_step(resp).0);
                }
                return ResponseResult::Resend;
            }
            let started = self.start_next();
            proof {
                assert(self@ =~= old(self)@.response_step(resp).0);
                lemma_promote_preserves_wf(old(self)@);
            }
            return ResponseResult::Done {
                outcome: Result::Err(Error::CommandRetry),
                started_next: started,
            };
        }
        if resp.status != StatusCode::UciStatusOk {
            let mapped = resp.status.to_error();
            let started = self.start_next();
            proof {
                assert(self@ =~= old(self)@.response_step(resp).0);
                lemma_promote_preserves_wf(old(self)@);
            }
            return ResponseResult::Done { outcome: Result::Err(mapped), started_next: started };
        }
        if !payload_matched(&p.cmd, &resp.payload) {
            let started = self.start_next();
            proof {
                assert(self@ =~= old(self)@.response_step(resp).0);
                lemma_promote_preserves_wf(old(self)@);
            }
            return ResponseResult::Done {
                outcome: Result::Err(Error::Unknown),
                started_next: started,
            };
        }
        self.apply_bookkeeping(p.cmd);
        let started = self.start_next();
        proof {
            assert(self@ =~= old(self)@.response_step(resp).0);
            lemma_bookkeeping_preserves_wf(
                EngineModel { pending: Option::None, ..old(self)@ },
                old(self)@.pending->Some_0.cmd,
            );
            lemma_promote_preserves_wf(
                EngineModel {
                    pending: Option::None,
                    ..old(self)@
                }.apply_bookkeeping_spec(old(self)@.pending->Some_0.cmd),
            );
        }
        ResponseResult::Done { outcome: Result::Ok(resp.payload), started_next: started }
    }

    /// Abandons the pending exchange after the bounded wait elapsed.
    ///
    /// The timed-out caller must be resolved with the timeout failure; the
    /// engine itself stays healthy and serves the next command normally. A
    /// response of the abandoned exchange that arrives later finds nothing
    /// pending and is discarded by [`Self::on_response`].
    pub fn on_timeout(&mut self) -> (r: TimeoutResult)
        requires
            old(self)@.wf(),
        ensures
            final(self)@ == old(self)@.timeout_step().0,
            r == old(self)@.timeout_step().1,
            final(self)@.wf(),
    {
        if self.pending.is_none() {
            return TimeoutResult::Idle;
        }
        self.pending = Option::None;
        let started = self.start_next();
        proof {
            assert(self@ =~= old(self)@.timeout_step().0);
            lemma_promote_preserves_wf(old(self)@);
        }
        TimeoutResult::Expired { started_next: started }
    }

    /// Feeds one classified notification into the session bookkeeping: a
    /// session-status notification drives the recorded lifecycle state.
    pub fn on_notification(&mut self, ntf: &UciNotification)
        requires
            old(self)@.wf(),
        ensures
            final(self)@ == old(self)@.notification_step(*ntf),
            final(self)@.wf(),
    {
        match ntf {
            UciNotification::Session(
                SessionNotification::Status { session_id, session_state, .. },
            ) => {
                match find_index(&self.sessions, *session_id) {
                    Option::Some(j) => {
                        proof {
                            lemma_find_session_found(self.sessions@, *session_id);
                        }
                        if *session_state == SessionState::SessionStateDeinit {
                            let _removed = self.sessions.remove(j);
                            proof {
                                assert(self@ =~= old(self)@.notification_step(*ntf));
                            }
                        } else {
                            let mut rec = self.sessions.remove(j);
                            rec.state = *session_state;
                            self.sessions.insert(j, rec);
                            proof {
                                assert(self.sessions@ =~= old(self)@.sessions.update(
                                    j as int,
                                    SessionRecord {
                                        state: *session_state,
                                        ..old(self)@.sessions[j as int]
                                    },
                                ));
                                assert(self@ =~= old(self)@.notification_step(*ntf));
                            }
                        }
                    },
                    Option::None => {
                        proof {
                            assert(self@ =~= old(self)@.notification_step(*ntf));
                        }
                    },
                }
            },
            _ => {
                proof {
                    assert(self@ =~= old(self)@.notification_step(*ntf));
                }
            },
        }
        proof {
            lemma_notification_preserves_wf(old(self)@, *ntf);
        }
    }

    /// The recorded lifecycle state of a session, if the engine tracks the
    /// id.
    pub fn session_state(&self, session_id: SessionId) -> (r: Option<SessionState>)
        ensures
            match find_session(self@.sessions, session_id) {
                Option::Some(i) => r == Option::Some(self@.sessions[i].state),
                Option::None => r is None,
            },
    {
        match find_index(&self.sessions, session_id) {
            Option::Some(j) => {
                proof {
                    lemma_find_session_found(self.sessions@, session_id);
                }
                Option::Some(self.sessions[j].state)
            },
            Option::None => Option::None,
        }
    }

    /// How many live sessions the engine currently tracks.
    pub fn session_count(&self) -> (r: usize)
        ensures
            r == self@.sessions.len(),
    {
        self.sessions.len()
    }

    /// The wire payload for applying `config` to the session: the full TLV
    /// set when the engine has no applied configuration recorded for it, and
    /// the diff against the recorded one otherwise. Callers render this
    /// payload into the set-app-config command they submit.
    pub fn outgoing_config_tlvs(&self, session_id: SessionId, config: &AppConfigParams) -> (r: Vec<
        AppConfigTlv,
    >)
        ensures
            match find_session(self@.sessions, session_id) {
                Option::Some(i) => match self@.sessions[i].applied_config {
                    Option::Some(prev) => {
                        &&& config.same_variant(prev) ==> tlvs_view(r@) == updated_entries_spec(
                            config.config_entries_spec(),
                            prev.config_entries_spec(),
                        )
                        &&& !config.same_variant(prev) ==> r@.len() == 0
                    },
                    Option::None => tlvs_view(r@) == config.config_entries_spec(),
                },
                Option::None => tlvs_view(r@) == config.config_entries_spec(),
            },
    {
        match find_index(&self.sessions, session_id) {
            Option::Some(j) => {
                proof {
                    lemma_find_session_found(self.sessions@, session_id);
                }
                match &self.sessions[j].applied_config {
                    Option::Some(prev) => config.generate_updated_tlvs(prev),
                    Option::None => config.generate_tlvs(),
                }
            },
            Option::None => config.generate_tlvs(),
        }
    }
}

/// When some record carries the id, [`find_session`] finds one.
proof fn lemma_find_session_first_exists(s: Seq<SessionRecord>, id: SessionId)
    requires
        has_session(s, id),
    ensures
        find_session(s, id) is Some,
    decreases s.len(),
{
    if s.len() == 0 {
    } else if s[0].id == id {
    } else {
        assert(has_session(s.skip(1), id)) by {
            let k = choose|k: int| 0 <= k < s.len() && (#[trigger] s[k].id) == id;
            assert(s.skip(1)[k - 1].id == id);
        }
        lemma_find_session_first_exists(s.skip(1), id);
    }
}


/// While an exchange is in flight, a further submission is deferred to the
/// queue and nothing is sent: at most one command is ever in flight.
pub proof fn lemma_single_command_in_flight(m: EngineModel, cmd: UciCommand)
    requires
        m.pending is Some,
        m.submit_validation(cmd) is None,
    ensures
        m.submit_step(cmd).1 == SubmitResult::Queued,
        m.submit_step(cmd).0.pending == m.pending,
        m.submit_step(cmd).0.queue == m.queue.push(cmd),
{
}

/// A deferred command is started exactly when the exchange ahead of it
/// resolves: two concurrent submissions are served strictly in order, never
/// as two simultaneous sends.
pub proof fn lemma_deferred_started_on_resolution(
    m: EngineModel,
    cmd: UciCommand,
    resp: UciResponse,
)
    requires
        m.pending matches Option::Some(p) && resp.gid == p.cmd.gid_spec() && resp.oid
            == p.cmd.oid_spec(),
        m.queue.len() == 0,
        m.submit_validation(cmd) is None,
        resp.status != StatusCode::UciStatusCommandRetry,
    ensures
        m.submit_step(cmd).1 == SubmitResult::Queued,
        m.submit_step(cmd).0.response_step(resp).1 matches ResponseResult::Done {
            started_next,
            ..
        } && started_next,
        m.submit_step(cmd).0.response_step(resp).0.pending matches Option::Some(q) && q.cmd == cmd
            && q.retry_count == 0,
{
    let m1 = m.submit_step(cmd).0;
    assert(m1.queue[0] == cmd);
}

/// Deferred commands are served strictly in submission order: with two
/// commands deferred behind a pending exchange, the queue holds them in
/// submission order, and each promotion starts the older one first — no
/// reordering or interleaving of exchanges is possible.
pub proof fn lemma_submission_order_preserved(m: EngineModel, c1: UciCommand, c2: UciCommand)
    requires
        m.pending is Some,
        m.queue.len() == 0,
        m.submit_validation(c1) is None,
        m.submit_step(c1).0.submit_validation(c2) is None,
    ensures
        m.submit_step(c1).1 == SubmitResult::Queued,
        m.submit_step(c1).0.submit_step(c2).1 == SubmitResult::Queued,
        ({
            let m2 = m.submit_step(c1).0.submit_step(c2).0;
            &&& m2.queue =~= seq![c1, c2]
            &&& m2.promote_spec().0.pending matches Option::Some(p1) && p1.cmd == c1
            &&& m2.promote_spec().0.promote_spec().0.pending matches Option::Some(p2) && p2.cmd
                == c2
        }),
{
    let m2 = m.submit_step(c1).0.submit_step(c2).0;
    assert(m2.queue =~= seq![c1, c2]);
    assert(m2.queue.skip(1) =~= seq![c2]);
}

/// Re-using a live session id without an intervening deinit fails as a
/// duplicate before any bytes are sent, and leaves the engine — including
/// the first session's record — unchanged.
pub proof fn lemma_duplicate_init_rejected(
    m: EngineModel,
    session_id: SessionId,
    session_type: SessionType,
)
    requires
        has_session(m.sessions, session_id),
    ensures
        m.submit_step(UciCommand::SessionInit { session_id, session_type }).1
            == SubmitResult::Rejected(Error::DuplicatedSessionId),
        m.submit_step(UciCommand::SessionInit { session_id, session_type }).0 == m,
{
}

/// A timeout is terminal for the timed-out call alone: with nothing queued
/// the engine is idle again and the next submission is sent normally.
pub proof fn lemma_timeout_then_next_sent(m: EngineModel, cmd: UciCommand)
    requires
        m.pending is Some,
        m.queue.len() == 0,
        m.timeout_step().0.submit_validation(cmd) is None,
    ensures
        m.timeout_step().1 == (TimeoutResult::Expired { started_next: false }),
        m.timeout_step().0.submit_step(cmd).1 == SubmitResult::Sent,
{
}

/// The engine after feeding the same retry response `k` times.
pub open spec fn apply_retries(m: EngineModel, resp: UciResponse, k: nat) -> EngineModel
    decreases k,
{
    if k == 0 {
        m
    } else {
        apply_retries(m, resp, (k - 1) as nat).response_step(resp).0
    }
}

/// A response carrying the transient retry status re-sends the same command,
/// unchanged, as long as the bound is not exhausted: after `k` such
/// responses the very command is still the one in flight, with `k` retries
/// consumed, and each response so far asked for a re-send.
pub proof fn lemma_retry_up_to_bound(m: EngineModel, resp: UciResponse, k: nat)
    requires
        m.pending matches Option::Some(p) && p.retry_count == 0 && resp.gid == p.cmd.gid_spec()
            && resp.oid == p.cmd.oid_spec(),
        resp.status == StatusCode::UciStatusCommandRetry,
        k <= MAX_RETRY_COUNT,
    ensures
        apply_retries(m, resp, k).pending matches Option::Some(q) && q.cmd
            == m.pending->Some_0.cmd && q.retry_count == k,
        apply_retries(m, resp, k).queue == m.queue,
        apply_retries(m, resp, k).sessions == m.sessions,
        forall|j: nat|
            j < k ==> (#[trigger] apply_retries(m, resp, j).response_step(resp).1) is Resend,
    decreases k,
{
    if k == 0 {
    } else {
        lemma_retry_up_to_bound(m, resp, (k - 1) as nat);
        assert(apply_retries(m, resp, (k - 1) as nat).response_step(resp).1 is Resend);
    }
}

/// Exceeding the retry bound surfaces the retry status itself as the final
/// failure of the exchange: after the bound's worth of transparent re-sends,
/// one more retry response resolves the caller with the retry failure.
pub proof fn lemma_retry_bound_surfaces_failure(m: EngineModel, resp: UciResponse)
    requires
        m.pending matches Option::Some(p) && p.retry_count == 0 && resp.gid == p.cmd.gid_spec()
            && resp.oid == p.cmd.oid_spec(),
        resp.status == StatusCode::UciStatusCommandRetry,
    ensures
        apply_retries(m, resp, MAX_RETRY_COUNT as nat).response_step(resp).1
            matches ResponseResult::Done { outcome, .. } && outcome == Result::<
            UciResponsePayload,
            Error,
        >::Err(Error::CommandRetry),
{
    lemma_retry_up_to_bound(m, resp, MAX_RETRY_COUNT as nat);
}


} // verus!
