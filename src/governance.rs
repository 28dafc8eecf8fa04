use vstd::prelude::*;
use candid::Principal;
use icrc_ledger_types::icrc1::account::Account;
use crate::host::default_account;

verus! {

/// Default length of a proposal's voting period: two days.
pub const DEFAULT_PROPOSAL_DURATION_SECONDS: u64 = 172800;
/// Shortest voting period allowed: one day.
pub const PROPOSAL_DURATION_LOWER_LIMIT_SECONDS: u64 = 86400;
/// Longest voting period allowed: four days.
pub const PROPOSAL_DURATION_UPPER_LIMIT_SECONDS: u64 = 345600;
/// Shortest interval between canister status fetches: five minutes.
pub const CANISTER_STATUS_FETCH_INTERVAL_LOWER_LIMIT_SECONDS: u64 = 300;
/// Longest interval between canister status fetches: one year.
pub const CANISTER_STATUS_FETCH_INTERVAL_UPPER_LIMIT_SECONDS: u64 = 31536000;

/// Settings of a governance token.
#[derive(Debug, Clone, PartialEq, Eq, Hash)]
pub struct ProposalTokenInitArgs {
    pub decimals: u8,
    pub token_name: String,
    pub token_symbol: String,
    pub transfer_fee: u64,
    pub logo_base64: Option<String>,
}

/// Who votes on proposals.
#[derive(Debug, Clone, PartialEq, Eq, Hash)]
pub enum ProposalType {
    Member,
    Token(ProposalTokenInitArgs),
}

/// How a project is governed.
#[derive(Debug, Clone, PartialEq, Eq, Hash)]
pub enum GovernanceType {
    /// No governance chosen.
    Unset,
    Permission,
    Proposal(ProposalType),
}

impl Default for GovernanceType {
    fn default() -> (r: Self)
        ensures
            r is Unset,
    {
        GovernanceType::Unset
    }
}

/// Text form of a governance type.
pub open spec fn governance_text(g: GovernanceType) -> Seq<char> {
    match g {
        GovernanceType::Unset => "governance::none"@,
        GovernanceType::Permission => "governance::permission"@,
        GovernanceType::Proposal(ProposalType::Member) => "governance::proposal::member"@,
        GovernanceType::Proposal(ProposalType::Token(_)) => "governance::proposal::token"@,
    }
}

/// The governance type a text names: only the none, permission and member
/// forms are read back; anything else is `Unset`.
pub open spec fn parse_governance(s: Seq<char>) -> GovernanceType {
    if s == "governance::permission"@ {
        GovernanceType::Permission
    } else if s == "governance::proposal::member"@ {
        GovernanceType::Proposal(ProposalType::Member)
    } else {
        GovernanceType::Unset
    }
}

/// What reading back the text of `g` yields: `g` itself, except that token
/// governance is not read back.
pub open spec fn readable(g: GovernanceType) -> GovernanceType {
    match g {
        GovernanceType::Proposal(ProposalType::Token(_)) => GovernanceType::Unset,
        _ => g,
    }
}

/// The text form of each governance type reads back as [`readable`] says.
pub proof fn lemma_governance_text_round_trip(g: GovernanceType)
    ensures
        parse_governance(governance_text(g)) == readable(g),
{
    reveal_strlit("governance::none");
    reveal_strlit("governance::permission");
    reveal_strlit("governance::proposal::member");
    reveal_strlit("governance::proposal::token");
    assert("governance::none"@.len() != "governance::permission"@.len());
    assert("governance::none"@.len() != "governance::proposal::member"@.len());
    assert("governance::proposal::member"@.len() != "governance::permission"@.len());
    assert("governance::proposal::token"@.len() != "governance::permission"@.len());
    assert("governance::proposal::token"@.len() != "governance::proposal::member"@.len());
}

fn text_eq(a: &str, b: &str) -> (r: bool)
    ensures
        r == (a@ == b@),
{
    String::from_str(a) == String::from_str(b)
}

impl GovernanceType {
    /// Reads a governance type from its text form; unknown text gives `Unset`.
    pub fn from_string(input: &str) -> (r: Self)
        ensures
            r == parse_governance(input@),
    {
        if text_eq(input, "governance::permission") {
            GovernanceType::Permission
        } else if text_eq(input, "governance::proposal::member") {
            GovernanceType::Proposal(ProposalType::Member)
        } else {
            GovernanceType::Unset
        }
    }

    /// The text form (`governance::proposal::member`, ...).
    pub fn to_text(&self) -> (r: String)
        ensures
            r@ == governance_text(*self),
    {
        match self {
            GovernanceType::Unset => String::from_str("governance::none"),
            GovernanceType::Permission => String::from_str("governance::permission"),
            GovernanceType::Proposal(ProposalType::Member) => String::from_str("governance::proposal::member"),
            GovernanceType::Proposal(ProposalType::Token(_)) => String::from_str("governance::proposal::token"),
        }
    }
}

impl ProposalType {
    /// `member` or `token`.
    pub fn to_text(&self) -> (r: String)
        ensures
            self is Member ==> r@ == "member"@,
            self is Token ==> r@ == "token"@,
    {
        match self {
            ProposalType::Member => String::from_str("member"),
            ProposalType::Token(_) => String::from_str("token"),
        }
    }
}

/// Governance settings of a project.
#[derive(Debug, Clone)]
pub struct GovernanceConfig {
    pub proposal_duration_seconds: u64,
    pub governance_type: Option<String>,
    pub management_canister_id: Principal,
    pub deployer_canister_id: Principal,
    pub owner: Account,
    pub hotkeys_enabled: bool,
    pub upgraded_at: u64,
    pub deployed_at: u64,
}

/// The governance type a stored text stands for.
pub open spec fn stored_governance(t: Option<String>) -> GovernanceType {
    match t {
        Some(s) => parse_governance(s@),
        None => GovernanceType::Unset,
    }
}

impl GovernanceConfig {
    /// Settings of a project deployed by `deployer_canister_id` at `now`:
    /// hotkeys on, no governance chosen, the default voting period.
    pub fn new(owner: Principal, management_canister_id: Principal, deployer_canister_id: Principal, now: u64) -> (r: Self)
        ensures
            r.hotkeys_enabled,
            r.governance_type is None,
            r.deployer_canister_id == deployer_canister_id,
            r.proposal_duration_seconds == DEFAULT_PROPOSAL_DURATION_SECONDS,
            r.management_canister_id == management_canister_id,
            r.owner.owner == owner,
            r.owner.subaccount is None,
            r.upgraded_at == now,
            r.deployed_at == now,
    {
        GovernanceConfig {
            hotkeys_enabled: true,
            governance_type: None,
            deployer_canister_id,
            proposal_duration_seconds: DEFAULT_PROPOSAL_DURATION_SECONDS,
            management_canister_id,
            owner: default_account(owner),
            upgraded_at: now,
            deployed_at: now,
        }
    }

    pub fn set_upgraded_at(&mut self, value: u64)
        ensures
            *final(self) == (GovernanceConfig { upgraded_at: value, ..*old(self) }),
    {
        self.upgraded_at = value;
    }

    /// Records `value` by its text form; `Unset` clears it.
    pub fn set_governance(&mut self, value: GovernanceType)
        ensures
            value is Unset ==> final(self).governance_type is None,
            !(value is Unset) ==> (final(self).governance_type matches Some(t) && t@ == governance_text(value)),
            stored_governance(final(self).governance_type) == readable(value),
            final(self).proposal_duration_seconds == old(self).proposal_duration_seconds,
            final(self).hotkeys_enabled == old(self).hotkeys_enabled,
            final(self).upgraded_at == old(self).upgraded_at,
            final(self).deployed_at == old(self).deployed_at,
            final(self).owner == old(self).owner,
            final(self).management_canister_id == old(self).management_canister_id,
            final(self).deployer_canister_id == old(self).deployer_canister_id,
    {
        proof {
            lemma_governance_text_round_trip(value);
        }
        if let GovernanceType::Unset = value {
            self.governance_type = None;
        } else {
            self.governance_type = Some(value.to_text());
        }
    }

    pub fn get_governance(&self) -> (r: GovernanceType)
        ensures
            r == stored_governance(self.governance_type),
    {
        match &self.governance_type {
            Some(t) => GovernanceType::from_string(t.as_str()),
            None => GovernanceType::Unset,
        }
    }

    pub fn governance_is_proposal_based(&self) -> (r: bool)
        ensures
            r == (stored_governance(self.governance_type) is Proposal),
    {
        let g = self.get_governance();
        matches!(g, GovernanceType::Proposal(_))
    }

    /// Token governance is never read back from the stored text, so this is
    /// false for every stored value.
    pub fn governance_is_token_based(&self) -> (r: bool)
        ensures
            r == (stored_governance(self.governance_type) matches GovernanceType::Proposal(ProposalType::Token(_))),
            !r,
    {
        let g = self.get_governance();
        matches!(g, GovernanceType::Proposal(ProposalType::Token(_)))
    }

    pub fn set_proposal_duration_seconds(&mut self, value: u64)
        ensures
            *final(self) == (GovernanceConfig { proposal_duration_seconds: value, ..*old(self) }),
    {
        self.proposal_duration_seconds = value;
    }

    pub fn set_owner(&mut self, value: Account)
        ensures
            *final(self) == (GovernanceConfig { owner: value, ..*old(self) }),
    {
        self.owner = value;
    }

    pub fn set_hotkeys_enabled(&mut self, value: bool)
        ensures
            *final(self) == (GovernanceConfig { hotkeys_enabled: value, ..*old(self) }),
    {
        self.hotkeys_enabled = value;
    }
}

} // verus!
