use vstd::prelude::*;
use crate::api_error::{ApiError, ApiErrorTypeView, ApiErrorView, CanisterResult, fresh_error};

verus! {

/// Text forms of the administrators' principals.
pub const ADMIN_PRINCIPALS: [&'static str; 3] = [
    "vafd2-aurwj-5igu3-htth5-olb42-6ficf-ttehy-2oyrp-u6nsy-qjlay-7ae",
    "tg7ak-dyvdw-wels6-b4hx3-vaooh-mxn7w-vqvvs-k4mab-ju56d-pqrbf-5qe",
    "jx573-d63v2-vmp75-c5lgs-evd2l-j2uft-hgxs6-6g7hx-hy4al-o4g3k-qae",
];

/// The error of a refused caller.
pub open spec fn refusal(message: Seq<char>, method: Seq<char>) -> ApiErrorView {
    ApiErrorView {
        method_name: Some(method),
        source: Some("toolkit_utils"@),
        ..fresh_error(ApiErrorTypeView::Forbidden, message)
    }
}

fn refuse(message: &str, method: &str) -> (r: ApiError)
    ensures
        r@ == refusal(message@, method@),
{
    ApiError::forbidden(message).add_method_name(method).add_source("toolkit_utils")
}

fn text_eq(a: &str, b: &str) -> (r: bool)
    ensures
        r == (a@ == b@),
{
    String::from_str(a) == String::from_str(b)
}

/// `caller` is the text form of an administrator's principal.
pub fn is_admin_text(caller: &str) -> (r: bool)
    ensures
        r == exists|i: int| 0 <= i < 3 && caller@ == (#[trigger] ADMIN_PRINCIPALS[i])@,
{
    let admins = ADMIN_PRINCIPALS;
    let mut i: usize = 0;
    while i < 3
        invariant
            i <= 3,
            admins@ == ADMIN_PRINCIPALS@,
            forall|j: int| 0 <= j < i ==> caller@ != (#[trigger] ADMIN_PRINCIPALS[j])@,
        decreases 3 - i,
    {
        if text_eq(caller, admins[i]) {
            return true;
        }
        i = i + 1;
    }
    false
}

/// Admits a caller that controls the canister.
pub fn controller_guard(caller_is_controller: bool) -> (r: CanisterResult<()>)
    ensures
        r is Ok <==> caller_is_controller,
        r matches Err(e) ==> e@ == refusal("Caller is not a controller"@, "is_controller"@),
{
    if !caller_is_controller {
        return Err(refuse("Caller is not a controller", "is_controller"));
    }
    Ok(())
}

/// Admits a caller that is not anonymous.
pub fn anonymous_guard(caller_is_anonymous: bool) -> (r: CanisterResult<()>)
    ensures
        r is Ok <==> !caller_is_anonymous,
        r matches Err(e) ==> e@ == refusal("Caller is anonymous"@, "is_controller"@),
{
    if caller_is_anonymous {
        return Err(refuse("Caller is anonymous", "is_controller"));
    }
    Ok(())
}

/// Admits an administrator, given the caller's principal in text form.
pub fn admin_guard(caller: &str) -> (r: CanisterResult<()>)
    ensures
        r is Ok <==> exists|i: int| 0 <= i < 3 && caller@ == (#[trigger] ADMIN_PRINCIPALS[i])@,
        r matches Err(e) ==> e@ == refusal("Caller is not an admin"@, "is_admin"@),
{
    if is_admin_text(caller) {
        Ok(())
    } else {
        Err(refuse("Caller is not an admin", "is_admin"))
    }
}

} // verus!
