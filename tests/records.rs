use candid::Principal;
use ic_stable_structures::memory_manager::{MemoryId, MemoryManager};
use ic_stable_structures::{Cell, DefaultMemoryImpl};
use toolkit_utils::api_error::{ApiError, ApiErrorType, CanisterCallResult};
use toolkit_utils::cell::{ByteCell, CellStorage, GenericCellStorage};
use toolkit_utils::date_range::DateRange;
use toolkit_utils::governance::{GovernanceConfig, GovernanceType, ProposalTokenInitArgs, ProposalType};
use toolkit_utils::guards::{admin_guard, anonymous_guard, controller_guard, is_admin_text};
use toolkit_utils::ledger::{archive_for, notify_create_failure, notify_top_up_failure, BlockRange, NotifyFailure};
use toolkit_utils::log::{Changevalues, Log};
use toolkit_utils::records::{
    ActionValue, CanisterEntry, CustomRootInitArgs, ManagementConfig, Metadata, PostProjectRegistryEntry,
    ProjectInitArgs, ProjectRegistryEntry, UpdateMetadata, Wasm, WasmDetails,
};
use toolkit_utils::units::{
    amount_after_fees, cycles_per_icp_at_rate, hours_to_nanoseconds, icp_fee_in_e8s_at_rate, ICP_TRANSACTION_FEE,
    MIN_CYCLES_FOR_PROJECT_SPINUP,
};
use toolkit_utils::version::Version;

fn principal(n: u8) -> Principal {
    Principal::from_slice(&[n, 1, 2])
}

#[test]
fn version_ordering() {
    let v = Version::new(1, 2, 3);
    assert!(v.is_higher_version(&Version::new(1, 2, 2)));
    assert!(v.is_higher_version(&Version::new(0, 9, 9)));
    assert!(v.is_higher_version(&Version::new(1, 1, 7)));
    assert!(!v.is_higher_version(&Version::new(1, 2, 3)));
    assert!(!v.is_higher_version(&Version::new(2, 0, 0)));
    assert_eq!(v.to_text(), "1.2.3");
    assert_eq!(Version::new(10, 0, 250).to_text(), "10.0.250");
}

#[test]
fn date_range_checks() {
    let d = DateRange::new(10, 20);
    assert!(d.is_within(10) && d.is_within(20) && !d.is_within(21));
    assert!(DateRange::new(10, 0).is_within(1000));
    assert!(d.is_outside(9) && d.is_outside(21) && !d.is_outside(15));
    assert!(d.is_before_start_date(9) && !d.is_before_start_date(10));
    assert!(d.is_after_start_date(11) && !d.is_after_start_date(10));
    assert!(d.is_before_end_date(19) && !d.is_before_end_date(20));
    assert!(d.is_after_end_date(21) && !d.is_after_end_date(20));
    assert_eq!((d.start_date(), d.end_date()), (10, 20));
}

#[test]
fn governance_text_forms() {
    assert_eq!(GovernanceType::from_string("governance::permission"), GovernanceType::Permission);
    assert_eq!(
        GovernanceType::from_string("governance::proposal::member"),
        GovernanceType::Proposal(ProposalType::Member)
    );
    assert_eq!(GovernanceType::from_string("governance::none"), GovernanceType::Unset);
    assert_eq!(GovernanceType::from_string("governance::proposal::token"), GovernanceType::Unset);
    assert_eq!(GovernanceType::from_string("something"), GovernanceType::Unset);
    assert_eq!(GovernanceType::Permission.to_text(), "governance::permission");
    assert_eq!(ProposalType::Member.to_text(), "member");
}

#[test]
fn governance_config_round_trip() {
    let mut c = GovernanceConfig::new(principal(1), principal(2), principal(3), 77);
    assert_eq!(c.proposal_duration_seconds, 172800);
    assert!(c.hotkeys_enabled);
    assert_eq!(c.owner.owner, principal(1));
    assert_eq!(c.get_governance(), GovernanceType::Unset);
    c.set_governance(GovernanceType::Proposal(ProposalType::Member));
    assert_eq!(c.governance_type.as_deref(), Some("governance::proposal::member"));
    assert!(c.governance_is_proposal_based());
    assert!(!c.governance_is_token_based());
    let token = ProposalTokenInitArgs {
        decimals: 8,
        token_name: "T".to_string(),
        token_symbol: "T".to_string(),
        transfer_fee: 1,
        logo_base64: None,
    };
    c.set_governance(GovernanceType::Proposal(ProposalType::Token(token)));
    assert_eq!(c.governance_type.as_deref(), Some("governance::proposal::token"));
    assert_eq!(c.get_governance(), GovernanceType::Unset);
    c.set_governance(GovernanceType::Unset);
    assert_eq!(c.governance_type, None);
    c.set_proposal_duration_seconds(5);
    c.set_hotkeys_enabled(false);
    c.set_upgraded_at(9);
    assert_eq!((c.proposal_duration_seconds, c.hotkeys_enabled, c.upgraded_at), (5, false, 9));
}

#[test]
fn unit_conversions() {
    assert_eq!(hours_to_nanoseconds(2), 7_200_000_000_000);
    assert_eq!(hours_to_nanoseconds(0), 0);
    assert_eq!(cycles_per_icp_at_rate(40_000), 4_000_000_000_000);
    assert_eq!(icp_fee_in_e8s_at_rate(5_000, 40_000), 12_500_000);
    assert_eq!(amount_after_fees(1_000_000, 2), 1_000_000 - 2 * ICP_TRANSACTION_FEE);
    assert_eq!(MIN_CYCLES_FOR_PROJECT_SPINUP, 21_000_000_000_000);
}

#[test]
fn api_error_builders() {
    let e = ApiError::bad_request("oops").add_tag("t").add_method_name("m").add_source("s").add_info("a").add_info("b");
    assert!(matches!(e.error_type(), ApiErrorType::BadRequest));
    assert_eq!(e.message(), "oops");
    assert_eq!(e.method_name(), Some("m"));
    assert_eq!(e.source(), Some("s"));
    assert_eq!(e.info().unwrap(), &vec!["a".to_string(), "b".to_string()]);
    assert_eq!(e.add_timestamp(5).timestamp(), 5);
    assert_eq!(ApiError::conflict("x").add_message("y").message(), "y");
    assert_eq!(ApiError::unexpected("x").error_type().to_text(), "Unexpected");
    assert_eq!(ApiError::validation_response(vec![]).error_type().to_text(), "ValidationError");
    let r: Result<u8, ApiError> = CanisterCallResult::Success(3).into_result();
    assert_eq!(r.unwrap(), 3);
    assert!(CanisterCallResult::<u8>::Failure(ApiError::forbidden("no")).into_result().is_err());
}

#[test]
fn guard_decisions() {
    assert!(controller_guard(true).is_ok());
    let e = controller_guard(false).unwrap_err();
    assert!(matches!(e.error_type(), ApiErrorType::Forbidden));
    assert_eq!(e.message(), "Caller is not a controller");
    assert!(anonymous_guard(false).is_ok());
    assert_eq!(anonymous_guard(true).unwrap_err().message(), "Caller is anonymous");
    assert!(is_admin_text("tg7ak-dyvdw-wels6-b4hx3-vaooh-mxn7w-vqvvs-k4mab-ju56d-pqrbf-5qe"));
    assert!(!is_admin_text("2vxsx-fae"));
    assert!(admin_guard("jx573-d63v2-vmp75-c5lgs-evd2l-j2uft-hgxs6-6g7hx-hy4al-o4g3k-qae").is_ok());
    assert_eq!(admin_guard("2vxsx-fae").unwrap_err().message(), "Caller is not an admin");
}

fn init_args(name: &str, logo: &str) -> ProjectInitArgs {
    ProjectInitArgs { name: name.to_string(), description: String::new(), logo: logo.to_string(), website: None }
}

#[test]
fn init_args_validation() {
    assert!(init_args("abc", "x").validate().is_ok());
    let e = init_args("ab", "x").validate().unwrap_err();
    assert!(matches!(e.error_type(), ApiErrorType::BadRequest));
    assert_eq!(e.message(), "Name must be at least 3 characters");
    assert_eq!(e.method_name(), Some("validate"));
    assert_eq!(init_args("abc", "").validate().unwrap_err().message(), "Logo is not a valid base64 string.");
    let c = CustomRootInitArgs { name: "é".to_string(), description: String::new(), logo: "l".to_string(), website: None };
    assert_eq!(c.validate().unwrap_err().message(), "Name must be at least 3 characters");
    let c = CustomRootInitArgs { name: "éa".to_string(), description: String::new(), logo: "l".to_string(), website: None };
    assert!(c.validate().is_ok());
}

#[test]
fn metadata_updates() {
    let mut m = Metadata::new("proj".to_string(), "d".to_string(), "logo".to_string(), None, principal(4), 1);
    let (old, new) = m.update_name("next".to_string(), 2);
    assert!(matches!(old, ActionValue::String(ref s) if s == "proj"));
    assert!(matches!(new, ActionValue::String(ref s) if s == "next"));
    assert_eq!(m.updated_at, 2);
    let (old, _) = m.update_website(Some("w".to_string()), 3);
    assert!(matches!(old, ActionValue::String(ref s) if s.is_empty()));
    let bad = UpdateMetadata { url: None, logo: None, name: Some("x".to_string()), description: None };
    assert!(m.update_metadata(bad, 4).is_err());
    assert_eq!(m.name.as_deref(), Some("next"));
    let good = UpdateMetadata { url: None, logo: Some("new".to_string()), name: None, description: None };
    assert!(m.update_metadata(good, 5).is_ok());
    let r = m.to_response();
    assert_eq!((r.name.as_str(), r.logo.as_str(), r.url.as_deref(), r.updated_at), ("next", "new", Some("w"), 5));
    let d = Metadata::default();
    assert_eq!(d.to_response().name, "");
    assert_eq!(d.created_by.owner, Principal::anonymous());
}

#[test]
fn management_config_setters() {
    let mut c = ManagementConfig::new(principal(1), principal(2), principal(3), 10);
    assert_eq!(c.snsw_canister_id, Principal::from_text("qaa6y-5yaaa-aaaaa-aaafa-cai").unwrap());
    assert_eq!(c.canister_status_fetch_interval_seconds, 3600);
    let (a, b) = c.set_canister_status_fetch_interval(600);
    assert!(matches!(a, ActionValue::Number(3600)) && matches!(b, ActionValue::Number(600)));
    let (a, b) = c.set_public(true);
    assert!(matches!(a, ActionValue::Bool(false)) && matches!(b, ActionValue::Bool(true)));
    let (a, _) = c.set_upgraded_at(11);
    assert!(matches!(a, ActionValue::Number(10)));
    c.set_ledger_canister_id(principal(7));
    c.set_index_canister_id(principal(8));
    assert_eq!((c.ledger_canister_id, c.index_canister_id), (Some(principal(7)), Some(principal(8))));
}

#[test]
fn registry_and_entries() {
    let post = PostProjectRegistryEntry {
        governance_canister_id: principal(1),
        name: "n".to_string(),
        description: "d".to_string(),
        url: "u".to_string(),
        is_public: true,
    };
    let e = ProjectRegistryEntry::from_post(post, 5);
    let r = e.to_response(principal(9));
    assert_eq!((r.management_canister_id, r.name.as_str(), r.created_at), (principal(9), "n", 5));
    let c = CanisterEntry::new(3).to_response(principal(2));
    assert_eq!((c.canister_id, c.created_at, c.version), (principal(2), 3, None));
}

#[test]
fn wasm_details_hash_module() {
    let w = Wasm::new(b"abc".to_vec(), Version::new(1, 0, 0), 8);
    let d = w.to_details();
    assert_eq!(d.wasm_hash.len(), 32);
    assert_eq!(d.wasm_hash[0], 0xba);
    assert_eq!(d.created_at, 8);
    assert_eq!(WasmDetails::new(b"abc".to_vec(), Version::new(1, 0, 0), 2).wasm_hash, d.wasm_hash);
}

#[test]
fn log_keeps_one_entry_per_setting() {
    let mut log = Log::new("update", principal(1), 4);
    log.add_change("name", Changevalues { initial: None, new: ActionValue::Number(1) });
    log.add_change("logo", Changevalues { initial: None, new: ActionValue::Number(2) });
    let snapshot = log.add_change("name", Changevalues { initial: Some(ActionValue::Number(1)), new: ActionValue::Number(3) });
    let r = log.to_response(12);
    assert_eq!(r.id, 12);
    assert_eq!(r.action, "update");
    let actions: Vec<&str> = r.changes.iter().map(|c| c.action()).collect();
    assert_eq!(actions, vec!["name", "logo"]);
    assert!(matches!(r.changes[0].new_value(), ActionValue::Number(3)));
    assert_eq!(snapshot.to_response(1).changes.len(), 2);
}

#[test]
fn cell_storage_get_set() {
    let manager = MemoryManager::init(DefaultMemoryImpl::default());
    let cell = Cell::init(manager.get(MemoryId::new(1)), None).unwrap();
    let mut c = GenericCellStorage::new("config", ByteCell { cell });
    assert!(c.is_empty());
    let e = c.get().unwrap_err();
    assert!(matches!(e.error_type(), ApiErrorType::Unexpected));
    assert_eq!(e.message(), "Failed to get config, not initialized");
    assert_eq!(c.set(vec![4, 5]).unwrap(), vec![4, 5]);
    assert!(!c.is_empty());
    assert_eq!(c.get().unwrap(), vec![4, 5]);
    assert_eq!(c.name(), "config");
}

#[test]
fn notify_failures_are_worded_and_tagged() {
    let e = notify_top_up_failure(NotifyFailure::Refunded { block_index: Some(5), reason: "no \"funds\"".to_string() }, "notify_top_up_cycles");
    assert!(matches!(e.error_type(), ApiErrorType::ExternalServiceError));
    assert_eq!(e.message(), "Refunded: block_index: Some(5), reason: \"no \\\"funds\\\"\"");
    assert_eq!(e.method_name(), Some("notify_top_up_cycles"));
    assert_eq!(e.source(), Some("toolkit_utils"));
    let e = notify_top_up_failure(NotifyFailure::Processing, "notify_top_up_cycles");
    assert_eq!((e.message(), e.method_name()), ("Processing", Some("notify_top_up_cycles")));
    assert_eq!(e.source(), Some("toolkit_utils"));
    let e = notify_create_failure(NotifyFailure::Processing, "notify_create");
    assert_eq!((e.message(), e.method_name()), ("Processing", Some("notify_create")));
    let e = notify_create_failure(NotifyFailure::Other { error_message: "x".to_string(), error_code: 7 }, "notify_create");
    assert_eq!(e.message(), "Other: error_message: x, error_code: 7");
    let e = notify_create_failure(NotifyFailure::Refunded { block_index: None, reason: String::new() }, "n");
    assert_eq!(e.message(), "Refunded: block_index: None, reason: \"\"");
    assert_eq!(notify_create_failure(NotifyFailure::TransactionTooOld(12), "n").message(), "TransactionTooOld: 12");
    assert_eq!(notify_create_failure(NotifyFailure::InvalidTransaction("t".to_string()), "n").message(), "InvalidTransaction: \"t\"");
    let ranges = vec![BlockRange { start: 0, length: 10 }, BlockRange { start: 10, length: 5 }];
    assert_eq!(archive_for(&ranges, 12), Some(1));
    assert_eq!(archive_for(&ranges, 0), Some(0));
    assert_eq!(archive_for(&ranges, 15), None);
}

#[test]
fn log_initial_value_and_copies() {
    let mut log = Log::new("rename", principal(2), 6);
    assert!(matches!(log.initial_value(), ActionValue::Unset));
    log.add_change("bytes", Changevalues { initial: Some(ActionValue::Bytes(vec![1, 2])), new: ActionValue::Bytes(vec![3]) });
    let copy = log.set_initial_value(ActionValue::String("old".to_string()));
    assert!(matches!(log.initial_value(), ActionValue::String(ref s) if s == "old"));
    assert!(matches!(copy.initial_value(), ActionValue::String(ref s) if s == "old"));
    let r = copy.to_response(3);
    assert!(matches!(r.changes[0].initial(), Some(ActionValue::Bytes(ref b)) if b == &vec![1, 2]));
    assert!(matches!(r.changes[0].new_value(), ActionValue::Bytes(ref b) if b == &vec![3]));
}
