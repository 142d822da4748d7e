//! Request bodies and path/query parameters of the REST surface. The
//! transport layer hands these to the service as plain values; validation
//! of the wire format (URL syntax, authentication) happens at that boundary.

use vstd::prelude::*;
use vstd::string::StringExecFns;
use crate::models::{AppCategory, AppState};
use crate::repository::AddAppRequest;
use crate::text::{decimal_digits, u16_to_string};

verus! {

/// Body of the request that adds one catalog application by id.
#[derive(Clone, Copy, Debug, PartialEq, Eq, Structural)]
pub struct AddAppHttpRequestBody {
    pub id_app: u16,
}

/// Body of the request that creates a custom application.
#[derive(Clone, Debug)]
pub struct CreateAppHttpRequestBody {
    pub name: String,
    pub state: AppState,
    pub url: String,
    pub category: AppCategory,
    pub description: String,
    pub tags: Option<String>,
}

/// Body of the partial-update request. An absent field among `name`,
/// `state`, `url` and `category` keeps its prior value; `description` and
/// `tags` always overwrite, including to absent.
#[derive(Clone, Debug)]
pub struct UpdateAppHttpRequestBody {
    pub name: Option<String>,
    pub state: Option<AppState>,
    pub url: Option<String>,
    pub category: Option<AppCategory>,
    pub description: Option<String>,
    pub tags: Option<String>,
}

/// Query parameters of the name search.
#[derive(Clone, Debug)]
pub struct SearchAppsQueryParams {
    pub query: String,
}

/// Path parameter of the read by id.
#[derive(Clone, Copy, Debug, PartialEq, Eq, Structural)]
pub struct GetAppPathContent {
    pub id: u16,
}

/// Path parameter of the delete by id.
#[derive(Clone, Copy, Debug, PartialEq, Eq, Structural)]
pub struct DeleteAppPathContent {
    pub id: u16,
}

/// Path parameter of the update by id.
#[derive(Clone, Copy, Debug, PartialEq, Eq, Structural)]
pub struct UpdateAppPathContent {
    pub id: u16,
}

/// The success body of a delete: the deleted id, rendered in decimal,
/// framed by the fixed wording.
pub fn delete_app_message(id: u16) -> (r: String)
    ensures
        r@ == "App "@ + decimal_digits(id as nat) + " deleted"@,
{
    let mut s = "App ".to_owned();
    let digits = u16_to_string(id);
    s.append(digits.as_str());
    s.append(" deleted");
    s
}

impl From<AddAppHttpRequestBody> for AddAppRequest {
    fn from(value: AddAppHttpRequestBody) -> (r: AddAppRequest) {
        AddAppRequest { id_app: value.id_app }
    }
}

impl vstd::std_specs::convert::FromSpecImpl<AddAppHttpRequestBody> for AddAppRequest {
    open spec fn obeys_from_spec() -> bool {
        true
    }

    open spec fn from_spec(v: AddAppHttpRequestBody) -> Self {
        AddAppRequest { id_app: v.id_app }
    }
}

} // verus!
