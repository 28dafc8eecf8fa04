use vstd::prelude::*;
use ic_stable_structures::memory_manager::VirtualMemory;
use ic_stable_structures::{Cell, DefaultMemoryImpl};
use crate::api_error::{ApiError, ApiErrorType, ApiErrorTypeView, ApiErrorView, CanisterResult, fresh_error, with_info};

verus! {

/// A stable cell that holds at most one encoded value, over one memory region.
/// The host layer builds it (`Cell::init` over a region that a memory manager
/// hands out) and gives it to [`GenericCellStorage`].
#[verifier::external_body]
pub struct ByteCell {
    pub cell: Cell<Option<Vec<u8>>, VirtualMemory<DefaultMemoryImpl>>,
}

/// What a stable cell holds.
pub uninterp spec fn cell_value(c: ByteCell) -> Option<Seq<u8>>;

/// Relies on `Cell::get`: the value held.
#[verifier::external_body]
fn cell_get(c: &ByteCell) -> (r: Option<Vec<u8>>)
    ensures
        r is None <==> cell_value(*c) is None,
        r matches Some(v) ==> cell_value(*c) == Some(v@),
{
    c.cell.get().clone()
}

/// Relies on `Cell::set`: on success the cell holds the new value; when the
/// region cannot grow to fit it, the cell is unchanged.
#[verifier::external_body]
fn cell_set(c: &mut ByteCell, value: Option<Vec<u8>>) -> (r: bool)
    ensures
        r ==> cell_value(*final(c)) == (match value { Some(v) => Some(v@), None => None::<Seq<u8>> }),
        !r ==> cell_value(*final(c)) == cell_value(*old(c)),
{
    c.cell.set(value).is_ok()
}

/// The error a cell operation reports: an unexpected state, with the
/// operation's name.
pub open spec fn cell_error(message: Seq<char>, method: Seq<char>) -> ApiErrorView {
    ApiErrorView {
        method_name: Some(method),
        source: Some("toolkit_utils"@),
        ..with_info(fresh_error(ApiErrorTypeView::Unexpected, message), "cell_storage"@)
    }
}

fn cell_failure(message: String, method: &str) -> (r: ApiError)
    ensures
        r@ == cell_error(message@, method@),
{
    ApiError::new(ApiErrorType::Unexpected, message.as_str()).add_method_name(method).add_info("cell_storage").add_source("toolkit_utils")
}

/// A named single-value store.
pub trait CellStorage {
    /// Current value, if any.
    spec fn value(&self) -> Option<Seq<u8>>;

    /// The entity's name, used in error context.
    spec fn entity_name(&self) -> Seq<char>;

    fn name(&self) -> (r: String)
        ensures
            r@ == self.entity_name(),
    ;

    /// The value, or an Unexpected error when none was set.
    fn get(&self) -> (r: CanisterResult<Vec<u8>>)
        ensures
            r is Ok <==> self.value() is Some,
            r matches Ok(v) ==> self.value() == Some(v@),
            r matches Err(e) ==> e@ == cell_error("Failed to get "@ + self.entity_name() + ", not initialized"@, "get"@),
    ;

    /// Stores `value`; when the memory cannot hold it, an Unexpected error
    /// and the old value stays.
    fn set(&mut self, value: Vec<u8>) -> (r: CanisterResult<Vec<u8>>)
        ensures
            r matches Ok(v) ==> v@ == value@ && final(self).value() == Some(value@),
            r matches Err(e) ==> e@ == cell_error("Failed to set "@ + old(self).entity_name(), "set"@)
                && final(self).value() == old(self).value(),
            final(self).entity_name() == old(self).entity_name(),
    ;

    fn is_empty(&self) -> (r: bool)
        ensures
            r == (self.value() is None),
    ;
}

/// A single-value store over one stable cell.
pub struct GenericCellStorage {
    name: String,
    storage: ByteCell,
}

impl GenericCellStorage {
    pub fn new(name: &str, storage: ByteCell) -> (r: Self)
        ensures
            r.value() == cell_value(storage),
            r.entity_name() == name@,
    {
        GenericCellStorage { name: String::from_str(name), storage }
    }
}

impl CellStorage for GenericCellStorage {
    closed spec fn value(&self) -> Option<Seq<u8>> {
        cell_value(self.storage)
    }

    closed spec fn entity_name(&self) -> Seq<char> {
        self.name@
    }

    fn name(&self) -> (r: String) {
        self.name.clone()
    }

    fn get(&self) -> (r: CanisterResult<Vec<u8>>) {
        match cell_get(&self.storage) {
            Some(v) => Ok(v),
            None => {
                let mut message = String::from_str("Failed to get ");
                message.append(self.name.as_str());
                message.append(", not initialized");
                Err(cell_failure(message, "get"))
            },
        }
    }

    fn set(&mut self, value: Vec<u8>) -> (r: CanisterResult<Vec<u8>>) {
        let stored = value.clone();
        proof {
            assert(stored@ =~= value@);
        }
        if cell_set(&mut self.storage, Some(stored)) {
            Ok(value)
        } else {
            let mut message = String::from_str("Failed to set ");
            message.append(self.name.as_str());
            Err(cell_failure(message, "set"))
        }
    }

    fn is_empty(&self) -> (r: bool) {
        cell_get(&self.storage).is_none()
    }
}

} // verus!
