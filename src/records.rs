use vstd::prelude::*;
use vstd::utf8::encode_utf8;
use candid::Principal;
use icrc_ledger_types::icrc1::account::Account;
use crate::api_error::{ApiError, ApiErrorTypeView, ApiErrorView, CanisterResult, fresh_error};
use crate::codec::{generate_checksum, sha256_of};
use crate::host::default_account;
use crate::version::Version;

verus! {

/// A value recorded in a change log.
#[derive(Debug, Clone)]
pub enum ActionValue {
    /// No value.
    Unset,
    String(String),
    Number(u64),
    Principal(Principal),
    Account(Account),
    Bytes(Vec<u8>),
    Bool(bool),
    Time(u64),
    Unknown(String),
}

impl Default for ActionValue {
    fn default() -> (r: Self)
        ensures
            r is Unset,
    {
        ActionValue::Unset
    }
}

/// `a` and `b` hold the same value (byte values compared by content).
pub open spec fn same_value(a: ActionValue, b: ActionValue) -> bool {
    match (a, b) {
        (ActionValue::Bytes(x), ActionValue::Bytes(y)) => x@ == y@,
        _ => a == b,
    }
}

/// Both absent, or both present with the same value.
pub open spec fn same_optional_value(a: Option<ActionValue>, b: Option<ActionValue>) -> bool {
    match (a, b) {
        (Some(x), Some(y)) => same_value(x, y),
        (None, None) => true,
        _ => false,
    }
}

impl ActionValue {
    /// A copy of the value.
    pub fn duplicate(&self) -> (r: Self)
        ensures
            same_value(r, *self),
    {
        match self {
            ActionValue::Unset => ActionValue::Unset,
            ActionValue::String(s) => ActionValue::String(s.clone()),
            ActionValue::Number(n) => ActionValue::Number(*n),
            ActionValue::Principal(p) => ActionValue::Principal(*p),
            ActionValue::Account(a) => ActionValue::Account(*a),
            ActionValue::Bytes(b) => {
                let c = b.clone();
                proof {
                    assert(c@ =~= b@);
                }
                ActionValue::Bytes(c)
            },
            ActionValue::Bool(b) => ActionValue::Bool(*b),
            ActionValue::Time(t) => ActionValue::Time(*t),
            ActionValue::Unknown(s) => ActionValue::Unknown(s.clone()),
        }
    }
}

/// A copy of an optional value.
pub fn duplicate_optional(v: &Option<ActionValue>) -> (r: Option<ActionValue>)
    ensures
        same_optional_value(r, *v),
{
    match v {
        Some(x) => Some(x.duplicate()),
        None => None,
    }
}

/// `s`, or the empty string.
pub open spec fn text_or_empty(s: Option<String>) -> Seq<char> {
    match s {
        Some(t) => t@,
        None => Seq::empty(),
    }
}

fn clone_or_empty(s: &Option<String>) -> (r: String)
    ensures
        r@ == text_or_empty(*s),
{
    match s {
        Some(t) => t.clone(),
        None => String::new(),
    }
}

fn clone_text(s: &Option<String>) -> (r: Option<String>)
    ensures
        r == *s,
{
    match s {
        Some(t) => Some(t.clone()),
        None => None,
    }
}

/// Number of bytes of a string in UTF-8 (as the machine's `usize` holds it).
pub open spec fn byte_len(s: Seq<char>) -> int {
    (encode_utf8(s).len() as usize) as int
}

/// A code module stored by a canister, with its version.
#[derive(Debug, Clone, Default)]
pub struct CanisterEntry {
    pub version: Option<Version>,
    pub wasm: Vec<u8>,
    pub created_at: u64,
    pub updated_at: u64,
}

/// What a caller sees of a [`CanisterEntry`].
#[derive(Debug, Clone)]
pub struct CanisterEntryResponse {
    pub version: Option<Version>,
    pub canister_id: Principal,
    pub created_at: u64,
    pub updated_at: u64,
}

/// Arguments for creating a canister.
#[derive(Debug, Clone, PartialEq, Eq)]
pub struct NewCanisterArgs {
    pub icp_e8s: Option<u64>,
    pub wasm: Option<Vec<u8>>,
    pub args: Option<Vec<u8>>,
}

impl CanisterEntry {
    /// An entry with no module, created at `now`.
    pub fn new(now: u64) -> (r: Self)
        ensures
            r.version is None,
            r.wasm@.len() == 0,
            r.created_at == now,
            r.updated_at == now,
    {
        CanisterEntry { version: None, wasm: Vec::new(), created_at: now, updated_at: now }
    }

    pub fn to_response(&self, canister_id: Principal) -> (r: CanisterEntryResponse)
        ensures
            r.canister_id == canister_id,
            r.version == self.version,
            r.created_at == self.created_at,
            r.updated_at == self.updated_at,
    {
        CanisterEntryResponse {
            canister_id,
            version: self.version,
            created_at: self.created_at,
            updated_at: self.updated_at,
        }
    }
}

/// Initial settings of a custom root.
#[derive(Debug, Clone)]
pub struct CustomRootInitArgs {
    pub name: String,
    pub description: String,
    pub logo: String,
    pub website: Option<String>,
}

/// Initial settings of a project.
#[derive(Debug, Clone)]
pub struct ProjectInitArgs {
    pub name: String,
    pub description: String,
    pub logo: String,
    pub website: Option<String>,
}

/// The error of a rejected name or logo.
pub open spec fn init_args_error(name: Seq<char>, method: Option<Seq<char>>, source: Option<Seq<char>>) -> ApiErrorView {
    ApiErrorView {
        method_name: method,
        source,
        ..fresh_error(ApiErrorTypeView::BadRequest, if byte_len(name) < 3 {
            "Name must be at least 3 characters"@
        } else {
            "Logo is not a valid base64 string."@
        })
    }
}

impl CustomRootInitArgs {
    /// The name has at least three bytes and the logo is not empty.
    pub fn validate(&self) -> (r: CanisterResult<()>)
        ensures
            r is Ok <==> byte_len(self.name@) >= 3 && self.logo@.len() > 0,
            r matches Err(e) ==> e@ == init_args_error(self.name@, None, None),
    {
        if self.name.as_str().len() < 3 {
            return Err(ApiError::bad_request("").add_message("Name must be at least 3 characters"));
        }
        if self.logo.as_str().is_empty() {
            return Err(ApiError::bad_request("").add_message("Logo is not a valid base64 string."));
        }
        Ok(())
    }
}

impl ProjectInitArgs {
    /// The name has at least three bytes and the logo is not empty.
    pub fn validate(&self) -> (r: CanisterResult<()>)
        ensures
            r is Ok <==> byte_len(self.name@) >= 3 && self.logo@.len() > 0,
            r matches Err(e) ==> e@ == init_args_error(self.name@, Some("validate"@), Some("toolkit_utils"@)),
    {
        if self.name.as_str().len() < 3 {
            return Err(ApiError::bad_request("Name must be at least 3 characters")
                .add_method_name("validate")
                .add_source("toolkit_utils"));
        }
        if self.logo.as_str().is_empty() {
            return Err(ApiError::bad_request("Logo is not a valid base64 string.")
                .add_method_name("validate")
                .add_source("toolkit_utils"));
        }
        Ok(())
    }
}

/// Default interval between canister status fetches: one hour.
pub const DEFAULT_CANISTER_STATUS_FETCH_INTERVAL_SECONDS: u64 = 3600;

/// Bytes of the principal of the service that manages project code modules
/// (`qaa6y-5yaaa-aaaaa-aaafa-cai`).
pub const SNS_WASM_CANISTER_ID_BYTES: [u8; 10] = [0, 0, 0, 0, 0, 0, 0, 10, 1, 1];

/// Relies on `Principal::from_slice`, which panics past 29 bytes.
#[verifier::external_body]
fn principal_from_bytes(bytes: &[u8]) -> (r: Principal)
    requires
        bytes@.len() <= 29,
{
    Principal::from_slice(bytes)
}

/// Management settings of a project.
#[derive(Debug, Clone)]
pub struct ManagementConfig {
    pub ledger_canister_id: Option<Principal>,
    pub index_canister_id: Option<Principal>,
    pub governance_canister_id: Principal,
    pub deployer_canister_id: Principal,
    pub snsw_canister_id: Principal,
    pub canister_status_fetch_interval_seconds: u64,
    pub deployed_by: Principal,
    pub is_public: bool,
    pub upgraded_at: u64,
    pub created_at: u64,
}

impl ManagementConfig {
    /// Settings of a project deployed by canister `deployer_canister_id` on
    /// behalf of `deployed_by` at `now`: no ledger yet, private, hourly status fetch.
    pub fn new(governance_canister_id: Principal, deployed_by: Principal, deployer_canister_id: Principal, now: u64) -> (r: Self)
        ensures
            r.ledger_canister_id is None,
            r.index_canister_id is None,
            r.governance_canister_id == governance_canister_id,
            r.deployer_canister_id == deployer_canister_id,
            r.canister_status_fetch_interval_seconds == DEFAULT_CANISTER_STATUS_FETCH_INTERVAL_SECONDS,
            r.deployed_by == deployed_by,
            !r.is_public,
            r.upgraded_at == now,
            r.created_at == now,
    {
        let snsw = SNS_WASM_CANISTER_ID_BYTES;
        ManagementConfig {
            ledger_canister_id: None,
            index_canister_id: None,
            governance_canister_id,
            deployer_canister_id,
            canister_status_fetch_interval_seconds: DEFAULT_CANISTER_STATUS_FETCH_INTERVAL_SECONDS,
            snsw_canister_id: principal_from_bytes(snsw.as_slice()),
            deployed_by,
            is_public: false,
            upgraded_at: now,
            created_at: now,
        }
    }

    /// Sets the upgrade time; gives the old and new values.
    pub fn set_upgraded_at(&mut self, value: u64) -> (r: (ActionValue, ActionValue))
        ensures
            *final(self) == (ManagementConfig { upgraded_at: value, ..*old(self) }),
            r.0 == ActionValue::Number(old(self).upgraded_at),
            r.1 == ActionValue::Number(value),
    {
        let old_value = self.upgraded_at;
        self.upgraded_at = value;
        (ActionValue::Number(old_value), ActionValue::Number(value))
    }

    /// Sets the status fetch interval; gives the old and new values.
    pub fn set_canister_status_fetch_interval(&mut self, value: u64) -> (r: (ActionValue, ActionValue))
        ensures
            *final(self) == (ManagementConfig { canister_status_fetch_interval_seconds: value, ..*old(self) }),
            r.0 == ActionValue::Number(old(self).canister_status_fetch_interval_seconds),
            r.1 == ActionValue::Number(value),
    {
        let old_value = self.canister_status_fetch_interval_seconds;
        self.canister_status_fetch_interval_seconds = value;
        (ActionValue::Number(old_value), ActionValue::Number(value))
    }

    /// Sets the visibility; gives the old and new values.
    pub fn set_public(&mut self, value: bool) -> (r: (ActionValue, ActionValue))
        ensures
            *final(self) == (ManagementConfig { is_public: value, ..*old(self) }),
            r.0 == ActionValue::Bool(old(self).is_public),
            r.1 == ActionValue::Bool(value),
    {
        let old_value = self.is_public;
        self.is_public = value;
        (ActionValue::Bool(old_value), ActionValue::Bool(value))
    }

    pub fn set_ledger_canister_id(&mut self, value: Principal)
        ensures
            *final(self) == (ManagementConfig { ledger_canister_id: Some(value), ..*old(self) }),
    {
        self.ledger_canister_id = Some(value);
    }

    pub fn set_index_canister_id(&mut self, value: Principal)
        ensures
            *final(self) == (ManagementConfig { index_canister_id: Some(value), ..*old(self) }),
    {
        self.index_canister_id = Some(value);
    }
}

/// Relies on `Principal::anonymous`: the principal of unauthenticated callers.
#[verifier::external_body]
fn anonymous_principal() -> (r: Principal) {
    Principal::anonymous()
}

/// Descriptive data of a project.
#[derive(Debug, Clone)]
pub struct Metadata {
    pub url: Option<String>,
    pub logo: Option<String>,
    pub name: Option<String>,
    pub description: Option<String>,
    pub created_by: Account,
    pub created_at: u64,
    pub updated_at: u64,
}

/// Changes to a project's descriptive data; absent fields stay as they are.
#[derive(Debug, Clone, PartialEq, Eq)]
pub struct UpdateMetadata {
    pub url: Option<String>,
    pub logo: Option<String>,
    pub name: Option<String>,
    pub description: Option<String>,
}

/// What a caller sees of [`Metadata`].
#[derive(Debug, Clone)]
pub struct MetadataResponse {
    pub name: String,
    pub description: String,
    pub logo: String,
    pub url: Option<String>,
    pub created_by: Account,
    pub created_at: u64,
    pub updated_at: u64,
}

impl Default for Metadata {
    /// Empty data, created by the anonymous principal at time zero.
    fn default() -> (r: Self)
        ensures
            r.name is None,
            r.description is None,
            r.logo is None,
            r.url is None,
            r.created_by.subaccount is None,
            r.created_at == 0,
            r.updated_at == 0,
    {
        Metadata {
            name: None,
            description: None,
            logo: None,
            url: None,
            created_by: default_account(anonymous_principal()),
            created_at: 0,
            updated_at: 0,
        }
    }
}

/// The new value if given, else the current one, else empty.
pub open spec fn merged(new: Option<String>, current: Option<String>) -> Seq<char> {
    match new {
        Some(s) => s@,
        None => text_or_empty(current),
    }
}

/// `o` holds a string whose text is `t`.
pub open spec fn holds_text(o: Option<String>, t: Seq<char>) -> bool {
    o matches Some(s) && s@ == t
}

fn merge(new: Option<String>, current: &Option<String>) -> (r: String)
    ensures
        r@ == merged(new, *current),
{
    match new {
        Some(s) => s,
        None => clone_or_empty(current),
    }
}

impl Metadata {
    /// Data for a project created by `created_by` at `now`.
    pub fn new(name: String, description: String, logo: String, url: Option<String>, created_by: Principal, now: u64) -> (r: Self)
        ensures
            r.name == Some(name),
            r.description == Some(description),
            r.logo == Some(logo),
            r.url == url,
            r.created_by.owner == created_by,
            r.created_by.subaccount is None,
            r.created_at == now,
            r.updated_at == now,
    {
        Metadata {
            name: Some(name),
            description: Some(description),
            logo: Some(logo),
            created_by: default_account(created_by),
            url,
            created_at: now,
            updated_at: now,
        }
    }

    /// Applies `metadata` at time `now` when the result still has a name of
    /// at least three bytes and a logo; leaves everything unchanged otherwise.
    pub fn update_metadata(&mut self, metadata: UpdateMetadata, now: u64) -> (r: CanisterResult<()>)
        ensures
            ({
                let name = merged(metadata.name, old(self).name);
                let logo = merged(metadata.logo, old(self).logo);
                &&& (r is Ok <==> byte_len(name) >= 3 && logo.len() > 0)
                &&& (r matches Err(e) ==> e@ == init_args_error(name, Some("validate"@), Some("toolkit_utils"@))
                    && *final(self) == *old(self))
                &&& (r is Ok ==> {
                    &&& holds_text(final(self).name, name)
                    &&& holds_text(final(self).description, merged(metadata.description, old(self).description))
                    &&& holds_text(final(self).logo, logo)
                    &&& holds_text(final(self).url, merged(metadata.url, old(self).url))
                    &&& final(self).created_by == old(self).created_by
                    &&& final(self).created_at == old(self).created_at
                    &&& final(self).updated_at == now
                })
            }),
    {
        let data = ProjectInitArgs {
            name: merge(metadata.name, &self.name),
            description: merge(metadata.description, &self.description),
            logo: merge(metadata.logo, &self.logo),
            website: Some(merge(metadata.url, &self.url)),
        };
        match data.validate() {
            Err(e) => {
                return Err(e);
            },
            Ok(()) => {},
        }
        self.name = Some(data.name);
        self.description = Some(data.description);
        self.logo = Some(data.logo);
        self.url = data.website;
        self.updated_at = now;
        Ok(())
    }

    /// Sets the name at time `now`; gives the old (empty if unset) and new names.
    pub fn update_name(&mut self, name: String, now: u64) -> (r: (ActionValue, ActionValue))
        ensures
            *final(self) == (Metadata { name: Some(name), updated_at: now, ..*old(self) }),
            r.0 matches ActionValue::String(o) && o@ == text_or_empty(old(self).name),
            r.1 == ActionValue::String(name),
    {
        let old_name = clone_or_empty(&self.name);
        self.name = Some(name.clone());
        self.updated_at = now;
        (ActionValue::String(old_name), ActionValue::String(name))
    }

    /// Sets the description at time `now`; gives the old and new descriptions.
    pub fn update_description(&mut self, description: String, now: u64) -> (r: (ActionValue, ActionValue))
        ensures
            *final(self) == (Metadata { description: Some(description), updated_at: now, ..*old(self) }),
            r.0 matches ActionValue::String(o) && o@ == text_or_empty(old(self).description),
            r.1 == ActionValue::String(description),
    {
        let old_description = clone_or_empty(&self.description);
        self.description = Some(description.clone());
        self.updated_at = now;
        (ActionValue::String(old_description), ActionValue::String(description))
    }

    /// Sets the logo at time `now`; gives the old and new logos.
    pub fn update_logo(&mut self, logo: String, now: u64) -> (r: (ActionValue, ActionValue))
        ensures
            *final(self) == (Metadata { logo: Some(logo), updated_at: now, ..*old(self) }),
            r.0 matches ActionValue::String(o) && o@ == text_or_empty(old(self).logo),
            r.1 == ActionValue::String(logo),
    {
        let old_logo = clone_or_empty(&self.logo);
        self.logo = Some(logo.clone());
        self.updated_at = now;
        (ActionValue::String(old_logo), ActionValue::String(logo))
    }

    /// Sets or clears the website at time `now`; gives the old and new
    /// addresses, empty where unset.
    pub fn update_website(&mut self, website: Option<String>, now: u64) -> (r: (ActionValue, ActionValue))
        ensures
            *final(self) == (Metadata { url: website, updated_at: now, ..*old(self) }),
            r.0 matches ActionValue::String(o) && o@ == text_or_empty(old(self).url),
            r.1 matches ActionValue::String(n) && n@ == text_or_empty(website),
    {
        let old_website = clone_or_empty(&self.url);
        let new_website = clone_or_empty(&website);
        self.url = website;
        self.updated_at = now;
        (ActionValue::String(old_website), ActionValue::String(new_website))
    }

    pub fn to_response(&self) -> (r: MetadataResponse)
        ensures
            r.name@ == text_or_empty(self.name),
            r.description@ == text_or_empty(self.description),
            r.logo@ == text_or_empty(self.logo),
            r.url == self.url,
            r.created_by == self.created_by,
            r.created_at == self.created_at,
            r.updated_at == self.updated_at,
    {
        MetadataResponse {
            name: clone_or_empty(&self.name),
            description: clone_or_empty(&self.description),
            logo: clone_or_empty(&self.logo),
            url: clone_text(&self.url),
            created_by: self.created_by,
            created_at: self.created_at,
            updated_at: self.updated_at,
        }
    }
}

/// A project in the public registry.
#[derive(Debug, Clone)]
pub struct ProjectRegistryEntry {
    pub governance_canister_id: Principal,
    pub name: String,
    pub description: String,
    pub url: String,
    pub is_public: bool,
    pub updated_at: u64,
    pub created_at: u64,
}

/// A registry entry as submitted.
#[derive(Debug, Clone)]
pub struct PostProjectRegistryEntry {
    pub governance_canister_id: Principal,
    pub name: String,
    pub description: String,
    pub url: String,
    pub is_public: bool,
}

/// What a caller sees of a [`ProjectRegistryEntry`].
#[derive(Debug, Clone)]
pub struct ProjectRegistryEntryResponse {
    pub management_canister_id: Principal,
    pub governance_canister_id: Principal,
    pub name: String,
    pub description: String,
    pub url: String,
    pub is_public: bool,
    pub updated_at: u64,
    pub created_at: u64,
}

impl ProjectRegistryEntry {
    /// The entry for a submission received at `now`.
    pub fn from_post(post: PostProjectRegistryEntry, now: u64) -> (r: Self)
        ensures
            r.governance_canister_id == post.governance_canister_id,
            r.name == post.name,
            r.description == post.description,
            r.url == post.url,
            r.is_public == post.is_public,
            r.updated_at == now,
            r.created_at == now,
    {
        ProjectRegistryEntry {
            governance_canister_id: post.governance_canister_id,
            name: post.name,
            description: post.description,
            url: post.url,
            is_public: post.is_public,
            updated_at: now,
            created_at: now,
        }
    }

    pub fn to_response(&self, management_canister_id: Principal) -> (r: ProjectRegistryEntryResponse)
        ensures
            r.management_canister_id == management_canister_id,
            r.governance_canister_id == self.governance_canister_id,
            r.name == self.name,
            r.description == self.description,
            r.url == self.url,
            r.is_public == self.is_public,
            r.updated_at == self.updated_at,
            r.created_at == self.created_at,
    {
        ProjectRegistryEntryResponse {
            management_canister_id,
            governance_canister_id: self.governance_canister_id,
            name: self.name.clone(),
            description: self.description.clone(),
            url: self.url.clone(),
            is_public: self.is_public,
            updated_at: self.updated_at,
            created_at: self.created_at,
        }
    }
}

/// Which of the two project canisters a code module is for.
#[derive(Debug, Clone, Copy, PartialEq, Eq, Structural)]
pub enum WasmType {
    Management,
    Governance,
}

/// A code module with its version.
#[derive(Debug, Clone, Default)]
pub struct Wasm {
    pub version: Version,
    pub wasm: Vec<u8>,
    pub created_at: u64,
}

/// A code module's version and digest.
#[derive(Debug, Clone, Default)]
pub struct WasmDetails {
    pub version: Version,
    pub wasm_hash: Vec<u8>,
    pub created_at: u64,
}

/// Details of the code modules of both project canisters.
#[derive(Debug, Clone)]
pub struct AllWasmDetails {
    pub management: WasmDetails,
    pub governance: WasmDetails,
}

impl Wasm {
    /// A module stored at `now`.
    pub fn new(wasm: Vec<u8>, version: Version, now: u64) -> (r: Self)
        ensures
            r.wasm == wasm,
            r.version == version,
            r.created_at == now,
    {
        Wasm { wasm, created_at: now, version }
    }

    /// The module's version, SHA-256 digest and creation time.
    pub fn to_details(&self) -> (r: WasmDetails)
        ensures
            r.version == self.version,
            r.wasm_hash@ == sha256_of(self.wasm@),
            r.created_at == self.created_at,
    {
        WasmDetails { version: self.version, wasm_hash: generate_checksum(&self.wasm), created_at: self.created_at }
    }
}

impl WasmDetails {
    /// Details of `wasm`, recorded at `now`.
    pub fn new(wasm: Vec<u8>, version: Version, now: u64) -> (r: Self)
        ensures
            r.version == version,
            r.wasm_hash@ == sha256_of(wasm@),
            r.created_at == now,
    {
        WasmDetails { wasm_hash: generate_checksum(&wasm), created_at: now, version }
    }
}

/// A standard that a canister supports.
#[derive(Debug, PartialEq, Eq)]
pub struct SupportedStandard {
    pub url: String,
    pub name: String,
}

/// The origins that a canister trusts.
#[derive(Debug, Clone)]
pub struct Icrc28TrustedOriginsResponse {
    pub trusted_origins: Vec<String>,
}

} // verus!
