//! The polymorphic session configuration: one variant per protocol family,
//! the rendering of a configuration into its TLV set, and the diff algorithm
//! that decides which TLVs must be re-sent when a configuration changes.

use vstd::prelude::*;

use crate::params::ccc_app_config_params::CccAppConfigParams;
use crate::params::fira_app_config_params::FiraAppConfigParams;
use crate::params::uci_packets::{
    diff_entry_witnessed, entry_differs, lemma_updated_entries_exact, tlvs_view,
    updated_entries_spec, AppConfigTlv, SessionType, TlvModel,
};

verus! {

/// The parameters of a UWB session.
///
/// A configuration is always a complete record of one protocol-family
/// variant; a variant is only compatible with sessions whose protocol type
/// matches it (see [`Self::is_type_matched`]).
#[derive(Clone, Debug, PartialEq, Eq)]
pub enum AppConfigParams {
    Fira(FiraAppConfigParams),
    Ccc(CccAppConfigParams),
}

impl AppConfigParams {
    /// The full rendering of the active variant: one TLV model per field, in
    /// the variant's fixed tag order.
    pub open spec fn config_entries_spec(self) -> Seq<TlvModel> {
        match self {
            AppConfigParams::Fira(p) => p.config_entries_spec(),
            AppConfigParams::Ccc(p) => p.config_entries_spec(),
        }
    }

    /// The number of fields of the active variant.
    pub open spec fn field_count_spec(self) -> int {
        match self {
            AppConfigParams::Fira(_) => FiraAppConfigParams::field_count(),
            AppConfigParams::Ccc(_) => CccAppConfigParams::field_count(),
        }
    }

    /// Whether both values belong to the same protocol-family variant.
    pub open spec fn same_variant(self, other: Self) -> bool {
        match (self, other) {
            (AppConfigParams::Fira(_), AppConfigParams::Fira(_)) => true,
            (AppConfigParams::Ccc(_), AppConfigParams::Ccc(_)) => true,
            _ => false,
        }
    }

    /// The compatibility table between variants and session kinds: a FiRa
    /// configuration fits exactly the FiRa ranging and data-transfer session
    /// kinds, a CCC configuration exactly the CCC session kind.
    pub open spec fn is_type_matched_spec(self, session_type: SessionType) -> bool {
        match self {
            AppConfigParams::Fira(_) => session_type == SessionType::FiraDataTransfer
                || session_type == SessionType::FiraRangingSession,
            AppConfigParams::Ccc(_) => session_type == SessionType::Ccc,
        }
    }

    /// Generate the TLV list from the params.
    ///
    /// Total and deterministic: every field of the active variant renders
    /// exactly one entry, so the list's length is exactly the field count of
    /// the variant.
    pub fn generate_tlvs(&self) -> (r: Vec<AppConfigTlv>)
        ensures
            tlvs_view(r@) == self.config_entries_spec(),
            r@.len() == self.field_count_spec(),
    {
        self.generate_config_map()
    }

    /// Generate the updated TLV list from the difference between this and
    /// the previous params.
    ///
    /// For two configurations of the same variant the result carries exactly
    /// the tags whose rendered bytes differ (see
    /// [`lemma_updated_tlvs_exact`]). A tag present in the previous
    /// configuration is never emitted as a removal: the wire protocol has no
    /// "clear" TLV, and both renderings carry the full tag set anyway. For
    /// configurations of different variants no diff is defined and the empty
    /// list is returned: a configuration update can never re-type a session.
    pub fn generate_updated_tlvs(&self, prev_params: &Self) -> (r: Vec<AppConfigTlv>)
        ensures
            self.same_variant(*prev_params) ==> tlvs_view(r@) == updated_entries_spec(
                self.config_entries_spec(),
                prev_params.config_entries_spec(),
            ),
            !self.same_variant(*prev_params) ==> r@.len() == 0,
    {
        self.generate_updated_config_map(prev_params)
    }

    /// Renders the full tag set of the active variant.
    fn generate_config_map(&self) -> (r: Vec<AppConfigTlv>)
        ensures
            tlvs_view(r@) == self.config_entries_spec(),
            r@.len() == self.field_count_spec(),
    {
        match self {
            AppConfigParams::Fira(p) => p.generate_config_map(),
            AppConfigParams::Ccc(p) => p.generate_config_map(),
        }
    }

    /// Renders the diff against the previous params, or nothing across
    /// variants.
    fn generate_updated_config_map(&self, prev_params: &Self) -> (r: Vec<AppConfigTlv>)
        ensures
            self.same_variant(*prev_params) ==> tlvs_view(r@) == updated_entries_spec(
                self.config_entries_spec(),
                prev_params.config_entries_spec(),
            ),
            !self.same_variant(*prev_params) ==> r@.len() == 0,
    {
        match (self, prev_params) {
            (AppConfigParams::Fira(p), AppConfigParams::Fira(prev)) => p
                .generate_updated_config_map(prev),
            (AppConfigParams::Ccc(p), AppConfigParams::Ccc(prev)) => p
                .generate_updated_config_map(prev),
            _ => Vec::new(),
        }
    }

    /// Whether this configuration may be applied to a session of the given
    /// kind; true if and only if the variant's protocol family is compatible
    /// with it.
    pub fn is_type_matched(&self, session_type: SessionType) -> (r: bool)
        ensures
            r == self.is_type_matched_spec(session_type),
    {
        match self {
            AppConfigParams::Fira(_) => session_type == SessionType::FiraDataTransfer
                || session_type == SessionType::FiraRangingSession,
            AppConfigParams::Ccc(_) => session_type == SessionType::Ccc,
        }
    }
}

/// For two configurations of the same protocol-family variant, the updated
/// TLV list holds only entries whose rendering differs between the two
/// configurations, and every differing tag is present.
pub proof fn lemma_updated_tlvs_exact(new: AppConfigParams, old: AppConfigParams)
    requires
        new.same_variant(old),
    ensures
        forall|k: int|
            0 <= k < updated_entries_spec(
                new.config_entries_spec(),
                old.config_entries_spec(),
            ).len() ==> #[trigger] diff_entry_witnessed(
                new.config_entries_spec(),
                old.config_entries_spec(),
                k,
            ),
        forall|i: int|
            0 <= i < new.config_entries_spec().len() && #[trigger] entry_differs(
                new.config_entries_spec(),
                old.config_entries_spec(),
                i,
            ) ==> updated_entries_spec(
                new.config_entries_spec(),
                old.config_entries_spec(),
            ).contains(new.config_entries_spec()[i]),
{
    assert(new.config_entries_spec().len() == old.config_entries_spec().len());
    lemma_updated_entries_exact(new.config_entries_spec(), old.config_entries_spec());
}

/// Two configurations of the same variant render the same tag at every
/// position: the tag sequence is a constant of the variant.
pub proof fn lemma_same_variant_same_tags(new: AppConfigParams, old: AppConfigParams)
    requires
        new.same_variant(old),
    ensures
        new.config_entries_spec().len() == old.config_entries_spec().len(),
        forall|i: int|
            0 <= i < new.config_entries_spec().len()
                ==> #[trigger] new.config_entries_spec()[i].cfg_id
                == old.config_entries_spec()[i].cfg_id,
{
}


/// Within one rendering the tags are pairwise distinct: the TLV list is a
/// map from tags to byte strings, fully materialized.
#[verifier::rlimit(60)]
pub proof fn lemma_config_tags_unique(p: AppConfigParams)
    ensures
        forall|i: int, j: int|
            0 <= i < j < p.config_entries_spec().len()
                ==> #[trigger] p.config_entries_spec()[i].cfg_id
                != #[trigger] p.config_entries_spec()[j].cfg_id,
{
    match p {
        AppConfigParams::Fira(f) => {
            assert forall|i: int, j: int|
                0 <= i < j < p.config_entries_spec().len() implies #[trigger] p.config_entries_spec()[i].cfg_id
                != #[trigger] p.config_entries_spec()[j].cfg_id by {
                assert(p.config_entries_spec()[i].cfg_id == FiraAppConfigParams::tags()[i]);
                assert(p.config_entries_spec()[j].cfg_id == FiraAppConfigParams::tags()[j]);
            }
        },
        AppConfigParams::Ccc(c) => {
            assert forall|i: int, j: int|
                0 <= i < j < p.config_entries_spec().len() implies #[trigger] p.config_entries_spec()[i].cfg_id
                != #[trigger] p.config_entries_spec()[j].cfg_id by {
                assert(p.config_entries_spec()[i].cfg_id == CccAppConfigParams::tags()[i]);
                assert(p.config_entries_spec()[j].cfg_id == CccAppConfigParams::tags()[j]);
            }
        },
    }
}

} // verus!
