use vstd::prelude::*;
use crate::api_error::{ApiError, external_failure, external_failure_view};
use crate::text::{decimal, push_decimal};
use crate::validation::debug_of;

verus! {

/// A run of ledger blocks kept by an archive: the first index and how many.
#[derive(Debug, Clone, Copy, PartialEq, Eq, Structural)]
pub struct BlockRange {
    pub start: u64,
    pub length: u64,
}

/// Block `index` lies in `r`.
pub open spec fn holds_block(r: BlockRange, index: u64) -> bool {
    r.start <= index && index - r.start < r.length
}

impl BlockRange {
    pub fn contains(&self, index: u64) -> (r: bool)
        ensures
            r == holds_block(*self, index),
    {
        self.start <= index && index - self.start < self.length
    }
}

/// Position of the first archive range that holds block `index`, if any.
pub fn archive_for(ranges: &Vec<BlockRange>, index: u64) -> (r: Option<usize>)
    ensures
        r matches Some(i) ==> i < ranges@.len() && holds_block(ranges@[i as int], index)
            && forall|j: int| 0 <= j < i ==> !holds_block(#[trigger] ranges@[j], index),
        r is None ==> forall|j: int| 0 <= j < ranges@.len() ==> !holds_block(#[trigger] ranges@[j], index),
{
    let mut i: usize = 0;
    while i < ranges.len()
        invariant
            i <= ranges@.len(),
            forall|j: int| 0 <= j < i ==> !holds_block(#[trigger] ranges@[j], index),
        decreases ranges@.len() - i,
    {
        if ranges[i].contains(index) {
            return Some(i);
        }
        i = i + 1;
    }
    None
}

/// Why the cycles minting service refused to act on a ledger transfer.
#[derive(Debug, Clone)]
pub enum NotifyFailure {
    Refunded { block_index: Option<u64>, reason: String },
    InvalidTransaction(String),
    Other { error_message: String, error_code: u64 },
    Processing,
    TransactionTooOld(u64),
}

/// Rust's debug notation of an optional index (`Some(5)`, `None`).
pub open spec fn optional_index_text(i: Option<u64>) -> Seq<char> {
    match i {
        Some(n) => "Some("@ + decimal(n as nat) + ")"@,
        None => "None"@,
    }
}

/// The wording of a refusal.
pub open spec fn notify_message(f: NotifyFailure) -> Seq<char> {
    match f {
        NotifyFailure::Refunded { block_index, reason } => "Refunded: block_index: "@
            + optional_index_text(block_index) + ", reason: "@ + debug_of(reason@),
        NotifyFailure::InvalidTransaction(v) => "InvalidTransaction: "@ + debug_of(v@),
        NotifyFailure::Other { error_message, error_code } => "Other: error_message: "@
            + error_message@ + ", error_code: "@ + decimal(error_code as nat),
        NotifyFailure::Processing => "Processing"@,
        NotifyFailure::TransactionTooOld(v) => "TransactionTooOld: "@ + decimal(v as nat),
    }
}

fn message_of(f: &NotifyFailure) -> (r: String)
    ensures
        r@ == notify_message(*f),
{
    match f {
        NotifyFailure::Refunded { block_index, reason } => {
            let mut s = String::from_str("Refunded: block_index: ");
            match block_index {
                Some(n) => {
                    s.append("Some(");
                    push_decimal(&mut s, *n);
                    s.append(")");
                },
                None => s.append("None"),
            }
            s.append(", reason: ");
            s.append(crate::validation::debug_text(reason.as_str()).as_str());
            s
        },
        NotifyFailure::InvalidTransaction(v) => {
            let mut s = String::from_str("InvalidTransaction: ");
            s.append(crate::validation::debug_text(v.as_str()).as_str());
            s
        },
        NotifyFailure::Other { error_message, error_code } => {
            let mut s = String::from_str("Other: error_message: ");
            s.append(error_message.as_str());
            s.append(", error_code: ");
            push_decimal(&mut s, *error_code);
            s
        },
        NotifyFailure::Processing => String::from_str("Processing"),
        NotifyFailure::TransactionTooOld(v) => {
            let mut s = String::from_str("TransactionTooOld: ");
            push_decimal(&mut s, *v);
            s
        },
    }
}

/// The error for a refused top-up notification, tagged with the operation.
pub fn notify_top_up_failure(failure: NotifyFailure, method_name: &str) -> (r: ApiError)
    ensures
        r@ == external_failure_view(notify_message(failure), method_name@),
{
    let message = message_of(&failure);
    external_failure(message.as_str(), method_name)
}

/// The error for a refused canister creation, tagged with the operation.
pub fn notify_create_failure(failure: NotifyFailure, method_name: &str) -> (r: ApiError)
    ensures
        r@ == external_failure_view(notify_message(failure), method_name@),
{
    let message = message_of(&failure);
    external_failure(message.as_str(), method_name)
}

} // verus!
