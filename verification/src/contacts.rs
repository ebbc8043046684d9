//! Contact records: the request payloads, the paginated-list query with its
//! optional filters, and the normalized filter set the query builder
//! consumes.

use vstd::prelude::*;

use crate::filters::opt_id_segments;
use crate::filters::opt_str_view;
use crate::filters::opt_trimmed_segments;
use crate::filters::sort_order_norm;
use crate::strutil::views_of;

verus! {

/// Payload for creating a contact; field validation is declarative and
/// happens at the boundary, outside this library.
#[derive(Debug, Clone)]
pub struct CreateContactRequest {
    pub code: String,
    pub name: String,
    pub email: String,
    pub position: String,
    pub contact_type: String,
    pub address: Option<String>,
}

/// Payload for a partial update of a contact.
#[derive(Debug, Clone)]
pub struct UpdateContactRequest {
    pub code: Option<String>,
    pub name: Option<String>,
    pub email: Option<String>,
    pub position: Option<String>,
    pub contact_type: Option<String>,
    pub address: Option<String>,
    pub is_active: Option<bool>,
}

/// Query parameters of the paginated contact list, as they arrive: the
/// id and type lists are comma-separated and unparsed.
#[derive(Debug, Clone)]
pub struct GetContactsQuery {
    pub page: Option<u32>,
    pub limit: Option<u32>,
    pub search: Option<String>,
    pub contact_type: Option<String>,
    pub is_active: Option<bool>,
    pub code: Option<String>,
    pub email: Option<String>,
    pub include_types: Option<String>,
    pub exclude_types: Option<String>,
    pub include_ids: Option<String>,
    pub exclude_ids: Option<String>,
    pub sort_by: Option<String>,
    pub sort_order: Option<String>,
}

impl Default for GetContactsQuery {
    /// The first page of ten, with no filters and the default sort.
    fn default() -> (q: Self)
        ensures
            q.page == Some(1u32),
            q.limit == Some(10u32),
            q.search matches None,
            q.contact_type matches None,
            q.is_active matches None,
            q.code matches None,
            q.email matches None,
            q.include_types matches None,
            q.exclude_types matches None,
            q.include_ids matches None,
            q.exclude_ids matches None,
            q.sort_by matches None,
            q.sort_order matches None,
    {
        GetContactsQuery {
            page: Some(1),
            limit: Some(10),
            search: None,
            contact_type: None,
            is_active: None,
            code: None,
            email: None,
            include_types: None,
            exclude_types: None,
            include_ids: None,
            exclude_ids: None,
            sort_by: None,
            sort_order: None,
        }
    }
}

/// Whether the query carries any filter or sort request at all.
pub fn has_filters(query: &GetContactsQuery) -> (r: bool)
    ensures
        r == ((query.search matches Some(_)) || (query.contact_type matches Some(_)) || (
        query.is_active matches Some(_)) || (query.code matches Some(_)) || (
        query.email matches Some(_)) || (query.include_types matches Some(_)) || (
        query.exclude_types matches Some(_)) || (query.include_ids matches Some(_)) || (
        query.exclude_ids matches Some(_)) || (query.sort_by matches Some(_)) || (
        query.sort_order matches Some(_))),
{
    query.search.is_some() || query.contact_type.is_some() || query.is_active.is_some()
        || query.code.is_some() || query.email.is_some() || query.include_types.is_some()
        || query.exclude_types.is_some() || query.include_ids.is_some()
        || query.exclude_ids.is_some() || query.sort_by.is_some() || query.sort_order.is_some()
}

/// The sort column the query builder will use: a requested column from the
/// allow-list, or creation time for anything unrecognized.
pub open spec fn contact_sort_by_norm(v: Option<Seq<char>>) -> Seq<char> {
    match v {
        Some(s) => if s == "name"@ {
            "name"@
        } else if s == "email"@ {
            "email"@
        } else if s == "code"@ {
            "code"@
        } else if s == "contact_type"@ {
            "type"@
        } else if s == "created_at"@ {
            "created_at"@
        } else if s == "updated_at"@ {
            "updated_at"@
        } else {
            "created_at"@
        },
        None => "created_at"@,
    }
}

/// The normalized filter set the contact query builder consumes: lists
/// parsed, sort column and direction pinned to the allow-lists.
#[derive(Debug, Clone)]
pub struct ContactFilters {
    pub search: Option<String>,
    pub contact_type: Option<String>,
    pub is_active: Option<bool>,
    pub code: Option<String>,
    pub email: Option<String>,
    pub include_types: Vec<String>,
    pub exclude_types: Vec<String>,
    pub include_ids: Vec<u128>,
    pub exclude_ids: Vec<u128>,
    pub sort_by: String,
    pub sort_order: String,
}

/// The mathematical shadow of a contact filter set.
pub ghost struct ContactFiltersV {
    pub search: Option<Seq<char>>,
    pub contact_type: Option<Seq<char>>,
    pub is_active: Option<bool>,
    pub code: Option<Seq<char>>,
    pub email: Option<Seq<char>>,
    pub include_types: Seq<Seq<char>>,
    pub exclude_types: Seq<Seq<char>>,
    pub include_ids: Seq<u128>,
    pub exclude_ids: Seq<u128>,
    pub sort_by: Seq<char>,
    pub sort_order: Seq<char>,
}

impl View for ContactFilters {
    type V = ContactFiltersV;

    open spec fn view(&self) -> ContactFiltersV {
        ContactFiltersV {
            search: opt_str_view(self.search),
            contact_type: opt_str_view(self.contact_type),
            is_active: self.is_active,
            code: opt_str_view(self.code),
            email: opt_str_view(self.email),
            include_types: views_of(self.include_types@),
            exclude_types: views_of(self.exclude_types@),
            include_ids: self.include_ids@,
            exclude_ids: self.exclude_ids@,
            sort_by: self.sort_by@,
            sort_order: self.sort_order@,
        }
    }
}

impl ContactFilters {
    /// Normalizes a raw query: the type lists are split on commas and
    /// trimmed, the id lists keep only well-formed UUIDs, and the sort
    /// column and direction fall back to the defaults on anything outside
    /// the allow-lists.
    pub fn from_query(query: &GetContactsQuery) -> (r: Self)
        ensures
            r@.search == opt_str_view(query.search),
            r@.contact_type == opt_str_view(query.contact_type),
            r@.is_active == query.is_active,
            r@.code == opt_str_view(query.code),
            r@.email == opt_str_view(query.email),
            r@.include_types == opt_trimmed_segments(opt_str_view(query.include_types)),
            r@.exclude_types == opt_trimmed_segments(opt_str_view(query.exclude_types)),
            r@.include_ids == opt_id_segments(opt_str_view(query.include_ids)),
            r@.exclude_ids == opt_id_segments(opt_str_view(query.exclude_ids)),
            r@.sort_by == contact_sort_by_norm(opt_str_view(query.sort_by)),
            r@.sort_order == sort_order_norm(opt_str_view(query.sort_order)),
    {
        let include_types = match &query.include_types {
            Some(s) => crate::filters::split_trimmed(s.as_str()),
            None => Vec::new(),
        };
        let exclude_types = match &query.exclude_types {
            Some(s) => crate::filters::split_trimmed(s.as_str()),
            None => Vec::new(),
        };
        let include_ids = match &query.include_ids {
            Some(s) => crate::filters::parse_id_list(s.as_str()),
            None => Vec::new(),
        };
        let exclude_ids = match &query.exclude_ids {
            Some(s) => crate::filters::parse_id_list(s.as_str()),
            None => Vec::new(),
        };
        let sort_by = match &query.sort_by {
            Some(s) => {
                if crate::strutil::chars_eq(s.as_str(), "name") {
                    "name".to_owned()
                } else if crate::strutil::chars_eq(s.as_str(), "email") {
                    "email".to_owned()
                } else if crate::strutil::chars_eq(s.as_str(), "code") {
                    "code".to_owned()
                } else if crate::strutil::chars_eq(s.as_str(), "contact_type") {
                    "type".to_owned()
                } else if crate::strutil::chars_eq(s.as_str(), "created_at") {
                    "created_at".to_owned()
                } else if crate::strutil::chars_eq(s.as_str(), "updated_at") {
                    "updated_at".to_owned()
                } else {
                    "created_at".to_owned()
                }
            },
            None => "created_at".to_owned(),
        };
        let sort_order = crate::filters::normalize_sort_order(&query.sort_order);
        ContactFilters {
            search: crate::filters::clone_opt_string(&query.search),
            contact_type: crate::filters::clone_opt_string(&query.contact_type),
            is_active: query.is_active,
            code: crate::filters::clone_opt_string(&query.code),
            email: crate::filters::clone_opt_string(&query.email),
            include_types,
            exclude_types,
            include_ids,
            exclude_ids,
            sort_by,
            sort_order,
        }
    }
}

} // verus!
