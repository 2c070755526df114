//! The CCC (digital-key) ranging-configuration record: the second protocol
//! family, with its own fixed field set, tags and validating builder.

use vstd::prelude::*;

use crate::params::uci_packets::{
    diff_config_entries, tlvs_view, updated_entries_spec, AppConfigTlv, AppConfigTlvType, TlvModel,
};
use crate::params::utils::{one_byte, u32_le, u32_le_spec};

verus! {

/// The CCC configuration identifier the session runs under.
#[derive(Clone, Copy, Debug, PartialEq, Eq, Structural)]
pub enum CccUwbConfig {
    Config0,
    Config1,
}

impl CccUwbConfig {
    /// The fixed wire identifier of each value.
    pub open spec fn wire_code_spec(self) -> u8 {
        match self {
            CccUwbConfig::Config0 => 0x00,
            CccUwbConfig::Config1 => 0x01,
        }
    }

    /// Executable counterpart of [`Self::wire_code_spec`].
    pub fn wire_code(self) -> (r: u8)
        ensures
            r == self.wire_code_spec(),
    {
        match self {
            CccUwbConfig::Config0 => 0x00,
            CccUwbConfig::Config1 => 0x01,
        }
    }
}

/// The pulse shape of one side of the exchange.
#[derive(Clone, Copy, Debug, PartialEq, Eq, Structural)]
pub enum PulseShape {
    SymmetricalRootRaisedCosine,
    PrecursorFree,
    PrecursorFreeSpecial,
}

impl PulseShape {
    /// The fixed wire identifier of each value.
    pub open spec fn wire_code_spec(self) -> u8 {
        match self {
            PulseShape::SymmetricalRootRaisedCosine => 0x00,
            PulseShape::PrecursorFree => 0x01,
            PulseShape::PrecursorFreeSpecial => 0x02,
        }
    }

    /// Executable counterpart of [`Self::wire_code_spec`].
    pub fn wire_code(self) -> (r: u8)
        ensures
            r == self.wire_code_spec(),
    {
        match self {
            PulseShape::SymmetricalRootRaisedCosine => 0x00,
            PulseShape::PrecursorFree => 0x01,
            PulseShape::PrecursorFreeSpecial => 0x02,
        }
    }
}

/// The initiator and responder pulse shapes, packed into one byte.
#[derive(Clone, Copy, Debug, PartialEq, Eq, Structural)]
pub struct CccPulseShapeCombo {
    pub initiator_tx: PulseShape,
    pub responder_tx: PulseShape,
}

impl CccPulseShapeCombo {
    /// The packed byte: initiator in the upper nibble, responder in the lower.
    pub open spec fn as_byte_spec(self) -> u8 {
        (self.initiator_tx.wire_code_spec() * 16 + self.responder_tx.wire_code_spec()) as u8
    }

    /// Executable counterpart of [`Self::as_byte_spec`].
    pub fn as_byte(self) -> (r: u8)
        ensures
            r == self.as_byte_spec(),
    {
        self.initiator_tx.wire_code() * 16 + self.responder_tx.wire_code()
    }
}

/// The channels CCC may range on.
#[derive(Clone, Copy, Debug, PartialEq, Eq, Structural)]
pub enum CccUwbChannel {
    Channel5,
    Channel9,
}

impl CccUwbChannel {
    /// The fixed wire identifier of each value.
    pub open spec fn wire_code_spec(self) -> u8 {
        match self {
            CccUwbChannel::Channel5 => 5,
            CccUwbChannel::Channel9 => 9,
        }
    }

    /// Executable counterpart of [`Self::wire_code_spec`].
    pub fn wire_code(self) -> (r: u8)
        ensures
            r == self.wire_code_spec(),
    {
        match self {
            CccUwbChannel::Channel5 => 5,
            CccUwbChannel::Channel9 => 9,
        }
    }
}

/// How many chirps-per-slot the session uses.
#[derive(Clone, Copy, Debug, PartialEq, Eq, Structural)]
pub enum ChapsPerSlot {
    S3,
    S4,
    S6,
    S8,
    S9,
    S12,
    S24,
}

impl ChapsPerSlot {
    /// The fixed wire identifier of each value.
    pub open spec fn wire_code_spec(self) -> u8 {
        match self {
            ChapsPerSlot::S3 => 3,
            ChapsPerSlot::S4 => 4,
            ChapsPerSlot::S6 => 6,
            ChapsPerSlot::S8 => 8,
            ChapsPerSlot::S9 => 9,
            ChapsPerSlot::S12 => 12,
            ChapsPerSlot::S24 => 24,
        }
    }

    /// Executable counterpart of [`Self::wire_code_spec`].
    pub fn wire_code(self) -> (r: u8)
        ensures
            r == self.wire_code_spec(),
    {
        match self {
            ChapsPerSlot::S3 => 3,
            ChapsPerSlot::S4 => 4,
            ChapsPerSlot::S6 => 6,
            ChapsPerSlot::S8 => 8,
            ChapsPerSlot::S9 => 9,
            ChapsPerSlot::S12 => 12,
            ChapsPerSlot::S24 => 24,
        }
    }
}

/// The CCC protocol version, major then minor.
#[derive(Clone, Copy, Debug, PartialEq, Eq, Structural)]
pub struct CccProtocolVersion {
    pub major: u8,
    pub minor: u8,
}

impl CccProtocolVersion {
    /// The two rendered bytes, major first.
    pub open spec fn bytes_spec(self) -> Seq<u8> {
        seq![self.major, self.minor]
    }

    /// Executable counterpart of [`Self::bytes_spec`].
    pub fn to_bytes(self) -> (r: Vec<u8>)
        ensures
            r@ == self.bytes_spec(),
    {
        let mut r: Vec<u8> = Vec::new();
        r.push(self.major);
        r.push(self.minor);
        proof {
            assert(r@ =~= self.bytes_spec());
        }
        r
    }
}

/// The CCC configuration record.
///
/// A value is only obtainable through [`CccAppConfigParamsBuilder`].
#[derive(Clone, Copy, Debug, PartialEq, Eq, Structural)]
pub struct CccAppConfigParams {
    pub protocol_version: CccProtocolVersion,
    pub uwb_config: CccUwbConfig,
    pub pulse_shape_combo: CccPulseShapeCombo,
    pub ran_multiplier: u32,
    pub channel_number: CccUwbChannel,
    pub chaps_per_slot: ChapsPerSlot,
    pub num_responder_nodes: u8,
    pub sync_code_index: u8,
}

impl CccAppConfigParams {
    /// The number of fields of the record; one TLV is rendered per field.
    pub open spec fn field_count() -> int {
        8
    }

    /// The fixed tag of each field, in rendering order.
    pub open spec fn tags() -> Seq<AppConfigTlvType> {
        seq![
            AppConfigTlvType::CccRangingProtocolVer,
            AppConfigTlvType::CccUwbConfigId,
            AppConfigTlvType::CccPulseshapeCombo,
            AppConfigTlvType::CccRanMultiplier,
            AppConfigTlvType::CccChannelNumber,
            AppConfigTlvType::CccChapsPerSlot,
            AppConfigTlvType::CccNumResponderNodes,
            AppConfigTlvType::CccSyncCodeIndex,
        ]
    }

    /// The rendered bytes of the field at position `i` of [`Self::tags`].
    pub open spec fn field_bytes_spec(self, i: int) -> Seq<u8> {
        if i == 0 {
            self.protocol_version.bytes_spec()
        } else if i == 1 {
            seq![self.uwb_config.wire_code_spec()]
        } else if i == 2 {
            seq![self.pulse_shape_combo.as_byte_spec()]
        } else if i == 3 {
            u32_le_spec(self.ran_multiplier)
        } else if i == 4 {
            seq![self.channel_number.wire_code_spec()]
        } else if i == 5 {
            seq![self.chaps_per_slot.wire_code_spec()]
        } else if i == 6 {
            seq![self.num_responder_nodes]
        } else if i == 7 {
            seq![self.sync_code_index]
        } else {
            Seq::empty()
        }
    }

    /// The full rendering of the record: one entry per field, in tag order.
    pub open spec fn config_entries_spec(self) -> Seq<TlvModel> {
        Seq::new(
            Self::tags().len(),
            |i: int| TlvModel { cfg_id: Self::tags()[i], v: self.field_bytes_spec(i) },
        )
    }

    /// The validation rules that construction enforces.
    pub open spec fn valid_spec(self) -> bool {
        &&& 1 <= self.num_responder_nodes <= 8
        &&& 1 <= self.sync_code_index <= 32
    }

    /// Renders every field into its TLV, in the fixed tag order.
    pub fn generate_config_map(&self) -> (r: Vec<AppConfigTlv>)
        ensures
            tlvs_view(r@) == self.config_entries_spec(),
            r@.len() == Self::field_count(),
    {
        let mut tlvs: Vec<AppConfigTlv> = Vec::new();
        tlvs.push(AppConfigTlv {
            cfg_id: AppConfigTlvType::CccRangingProtocolVer,
            v: self.protocol_version.to_bytes(),
        });
        tlvs.push(AppConfigTlv {
            cfg_id: AppConfigTlvType::CccUwbConfigId,
            v: one_byte(self.uwb_config.wire_code()),
        });
        tlvs.push(AppConfigTlv {
            cfg_id: AppConfigTlvType::CccPulseshapeCombo,
            v: one_byte(self.pulse_shape_combo.as_byte()),
        });
        tlvs.push(AppConfigTlv {
            cfg_id: AppConfigTlvType::CccRanMultiplier,
            v: u32_le(self.ran_multiplier),
        });
        tlvs.push(AppConfigTlv {
            cfg_id: AppConfigTlvType::CccChannelNumber,
            v: one_byte(self.channel_number.wire_code()),
        });
        tlvs.push(AppConfigTlv {
            cfg_id: AppConfigTlvType::CccChapsPerSlot,
            v: one_byte(self.chaps_per_slot.wire_code()),
        });
        tlvs.push(AppConfigTlv {
            cfg_id: AppConfigTlvType::CccNumResponderNodes,
            v: one_byte(self.num_responder_nodes),
        });
        tlvs.push(AppConfigTlv {
            cfg_id: AppConfigTlvType::CccSyncCodeIndex,
            v: one_byte(self.sync_code_index),
        });
        proof {
            assert(tlvs_view(tlvs@) =~= self.config_entries_spec());
        }
        tlvs
    }
}

/// The validating builder for [`CccAppConfigParams`]: every field must be
/// supplied, and [`Self::build`] succeeds exactly when the counts and the
/// sync code index are within their documented ranges.
#[derive(Clone, Copy, Debug)]
pub struct CccAppConfigParamsBuilder {
    pub protocol_version: Option<CccProtocolVersion>,
    pub uwb_config: Option<CccUwbConfig>,
    pub pulse_shape_combo: Option<CccPulseShapeCombo>,
    pub ran_multiplier: Option<u32>,
    pub channel_number: Option<CccUwbChannel>,
    pub chaps_per_slot: Option<ChapsPerSlot>,
    pub num_responder_nodes: Option<u8>,
    pub sync_code_index: Option<u8>,
}

impl CccAppConfigParamsBuilder {
    /// The record this builder would produce, meaningful once every field has
    /// been supplied.
    pub open spec fn built_spec(self) -> CccAppConfigParams {
        CccAppConfigParams {
            protocol_version: self.protocol_version->Some_0,
            uwb_config: self.uwb_config->Some_0,
            pulse_shape_combo: self.pulse_shape_combo->Some_0,
            ran_multiplier: self.ran_multiplier->Some_0,
            channel_number: self.channel_number->Some_0,
            chaps_per_slot: self.chaps_per_slot->Some_0,
            num_responder_nodes: self.num_responder_nodes->Some_0,
            sync_code_index: self.sync_code_index->Some_0,
        }
    }

    /// Exactly when [`Self::build`] succeeds.
    pub open spec fn ok_spec(self) -> bool {
        &&& self.protocol_version is Some
        &&& self.uwb_config is Some
        &&& self.pulse_shape_combo is Some
        &&& self.ran_multiplier is Some
        &&& self.channel_number is Some
        &&& self.chaps_per_slot is Some
        &&& self.num_responder_nodes is Some
        &&& self.sync_code_index is Some
        &&& self.built_spec().valid_spec()
    }

    /// A fresh builder with nothing supplied.
    pub fn new() -> (r: Self)
        ensures
            r.protocol_version is None,
            r.uwb_config is None,
            r.pulse_shape_combo is None,
            r.ran_multiplier is None,
            r.channel_number is None,
            r.chaps_per_slot is None,
            r.num_responder_nodes is None,
            r.sync_code_index is None,
    {
        CccAppConfigParamsBuilder {
            protocol_version: None,
            uwb_config: None,
            pulse_shape_combo: None,
            ran_multiplier: None,
            channel_number: None,
            chaps_per_slot: None,
            num_responder_nodes: None,
            sync_code_index: None,
        }
    }

    /// Supplies the protocol version.
    pub fn protocol_version(self, value: CccProtocolVersion) -> (r: Self)
        ensures
            r == (Self { protocol_version: Some(value), ..self }),
    {
        Self { protocol_version: Some(value), ..self }
    }

    /// Supplies the configuration identifier.
    pub fn uwb_config(self, value: CccUwbConfig) -> (r: Self)
        ensures
            r == (Self { uwb_config: Some(value), ..self }),
    {
        Self { uwb_config: Some(value), ..self }
    }

    /// Supplies the pulse shape pair.
    pub fn pulse_shape_combo(self, value: CccPulseShapeCombo) -> (r: Self)
        ensures
            r == (Self { pulse_shape_combo: Some(value), ..self }),
    {
        Self { pulse_shape_combo: Some(value), ..self }
    }

    /// Supplies the RAN multiplier.
    pub fn ran_multiplier(self, value: u32) -> (r: Self)
        ensures
            r == (Self { ran_multiplier: Some(value), ..self }),
    {
        Self { ran_multiplier: Some(value), ..self }
    }

    /// Supplies the channel.
    pub fn channel_number(self, value: CccUwbChannel) -> (r: Self)
        ensures
            r == (Self { channel_number: Some(value), ..self }),
    {
        Self { channel_number: Some(value), ..self }
    }

    /// Supplies the chirps-per-slot count.
    pub fn chaps_per_slot(self, value: ChapsPerSlot) -> (r: Self)
        ensures
            r == (Self { chaps_per_slot: Some(value), ..self }),
    {
        Self { chaps_per_slot: Some(value), ..self }
    }

    /// Supplies the number of responder nodes.
    pub fn num_responder_nodes(self, value: u8) -> (r: Self)
        ensures
            r == (Self { num_responder_nodes: Some(value), ..self }),
    {
        Self { num_responder_nodes: Some(value), ..self }
    }

    /// Supplies the synchronisation code index.
    pub fn sync_code_index(self, value: u8) -> (r: Self)
        ensures
            r == (Self { sync_code_index: Some(value), ..self }),
    {
        Self { sync_code_index: Some(value), ..self }
    }

    /// Validates and produces the record.
    pub fn build(self) -> (r: Option<CccAppConfigParams>)
        ensures
            r is Some <==> self.ok_spec(),
            r matches Some(p) ==> p == self.built_spec() && p.valid_spec(),
    {
        let protocol_version = match self.protocol_version {
            Some(v) => v,
            None => {
                return None;
            },
        };
        let uwb_config = match self.uwb_config {
            Some(v) => v,
            None => {
                return None;
            },
        };
        let pulse_shape_combo = match self.pulse_shape_combo {
            Some(v) => v,
            None => {
                return None;
            },
        };
        let ran_multiplier = match self.ran_multiplier {
            Some(v) => v,
            None => {
                return None;
            },
        };
        let channel_number = match self.channel_number {
            Some(v) => v,
            None => {
                return None;
            },
        };
        let chaps_per_slot = match self.chaps_per_slot {
            Some(v) => v,
            None => {
                return None;
            },
        };
        let num_responder_nodes = match self.num_responder_nodes {
            Some(v) => v,
            None => {
                return None;
            },
        };
        let sync_code_index = match self.sync_code_index {
            Some(v) => v,
            None => {
                return None;
            },
        };
        if !(1 <= num_responder_nodes && num_responder_nodes <= 8) {
            return None;
        }
        if !(1 <= sync_code_index && sync_code_index <= 32) {
            return None;
        }
        Some(
            CccAppConfigParams {
                protocol_version,
                uwb_config,
                pulse_shape_combo,
                ran_multiplier,
                channel_number,
                chaps_per_slot,
                num_responder_nodes,
                sync_code_index,
            },
        )
    }
}


impl CccAppConfigParams {
    /// Renders only what changed: the TLVs of `self` whose bytes differ from
    /// the rendering of `prev`, position by position over the fixed tag set.
    pub fn generate_updated_config_map(&self, prev: &Self) -> (r: Vec<AppConfigTlv>)
        ensures
            tlvs_view(r@) == updated_entries_spec(
                self.config_entries_spec(),
                prev.config_entries_spec(),
            ),
    {
        let new_entries = self.generate_config_map();
        let old_entries = prev.generate_config_map();
        diff_config_entries(new_entries, &old_entries)
    }
}

} // verus!
