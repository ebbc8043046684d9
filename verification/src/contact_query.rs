//! The contact list query builder: assembles the parameterized page and
//! count statements for one tenant and caller from an optional filter set.
//!
//! Tenant scoping and caller-membership scoping are appended first and are
//! not overridable by filters; every filter value is bound as a parameter;
//! the sort column comes from a fixed allow-list with creation time as the
//! fallback. Pagination is appended by the caller.

use vstd::prelude::*;

use crate::contacts::ContactFilters;
use crate::contacts::ContactFiltersV;
use crate::sqlgen::step_id_list;
use crate::sqlgen::step_like;
use crate::sqlgen::step_search;
use crate::sqlgen::step_text;
use crate::sqlgen::step_text_list;
use crate::sqlgen::step_bool;
use crate::sqlgen::FilteredQuery;
use crate::sqlgen::ParamV;
use crate::sqlgen::SqlAcc;
use crate::sqlgen::SqlWriter;
use crate::sqlgen::params_view;
use crate::sqlgen::scoped_acc;
use crate::sqlgen::strs_views;

verus! {

/// The page query's fixed head: the contact columns, the joins that tie a
/// contact to the caller's workspaces, and the two scoping conditions.
pub open spec fn contact_base_select() -> Seq<char> {
    "SELECT contacts.id, contacts.code, contacts.name, contacts.email, contacts.position, contacts.type, contacts.address, contacts.is_active, contacts.workspace_id, contacts.created_by, contacts.updated_by, contacts.created_at, contacts.updated_at FROM contacts INNER JOIN workspaces ON contacts.workspace_id = workspaces.id INNER JOIN workspace_users ON workspaces.id = workspace_users.workspace_id WHERE contacts.workspace_id = $1 AND workspace_users.user_id = $2"@
}

/// The count query's fixed head, under the same joins and scoping.
pub open spec fn contact_base_count() -> Seq<char> {
    "SELECT COUNT(contacts.id) FROM contacts INNER JOIN workspaces ON contacts.workspace_id = workspaces.id INNER JOIN workspace_users ON workspaces.id = workspace_users.workspace_id WHERE contacts.workspace_id = $1 AND workspace_users.user_id = $2"@
}

/// The columns the search text is matched against.
pub open spec fn contact_search_frags() -> Seq<Seq<char>> {
    seq![
        "contacts.name LIKE "@,
        " OR contacts.email LIKE "@,
        " OR contacts.code LIKE "@,
        " OR contacts.position LIKE "@,
    ]
}

/// Every filter condition, in order, appended to an accumulator that
/// already holds the base statement and the two scoping parameters.
pub open spec fn contact_conds(f: ContactFiltersV, acc: SqlAcc) -> SqlAcc {
    let a1 = step_search(f.search, contact_search_frags(), acc);
    let a2 = step_text(f.contact_type, "contacts.type = "@, a1);
    let a3 = step_bool(f.is_active, "contacts.is_active = "@, a2);
    let a4 = step_like(f.code, "contacts.code LIKE "@, a3);
    let a5 = step_like(f.email, "contacts.email LIKE "@, a4);
    let a6 = step_text_list(f.include_types, "contacts.type"@, " IN ("@, a5);
    let a7 = step_text_list(f.exclude_types, "contacts.type"@, " NOT IN ("@, a6);
    let a8 = step_id_list(f.include_ids, "contacts.id"@, " IN ("@, a7);
    step_id_list(f.exclude_ids, "contacts.id"@, " NOT IN ("@, a8)
}

/// The sort columns a caller may request.
pub open spec fn is_contact_sort_col(s: Seq<char>) -> bool {
    s == "name"@ || s == "email"@ || s == "code"@ || s == "type"@ || s == "updated_at"@ || s
        == "created_at"@
}

/// The column actually interpolated into ORDER BY: the requested one when
/// it is on the allow-list, creation time otherwise. Never free text.
pub open spec fn contact_order_col(s: Seq<char>) -> Seq<char> {
    if s == "name"@ {
        "name"@
    } else if s == "email"@ {
        "email"@
    } else if s == "code"@ {
        "code"@
    } else if s == "contact_type"@ || s == "type"@ {
        "type"@
    } else if s == "updated_at"@ {
        "updated_at"@
    } else {
        "created_at"@
    }
}

/// The ORDER BY direction: ascending only when asked for exactly.
pub open spec fn order_dir(s: Seq<char>) -> Seq<char> {
    if s == "ASC"@ {
        "ASC"@
    } else {
        "DESC"@
    }
}

/// The full page query: base, filters, ORDER BY.
pub open spec fn contact_select_sql(workspace_id: u128, user_id: u128, f: ContactFiltersV) -> Seq<
    char,
> {
    contact_conds(f, scoped_acc(contact_base_select(), workspace_id, user_id)).sql
        + " ORDER BY contacts."@ + contact_order_col(f.sort_by) + " "@ + order_dir(f.sort_order)
}

/// The full count query: base and filters, no ordering.
pub open spec fn contact_count_sql(workspace_id: u128, user_id: u128, f: ContactFiltersV) -> Seq<
    char,
> {
    contact_conds(f, scoped_acc(contact_base_count(), workspace_id, user_id)).sql
}

/// The values both statements bind, in placeholder order.
pub open spec fn contact_params(workspace_id: u128, user_id: u128, f: ContactFiltersV) -> Seq<
    ParamV,
> {
    contact_conds(f, scoped_acc(contact_base_select(), workspace_id, user_id)).params
}

pub struct ContactQueryBuilder;

impl ContactQueryBuilder {
    /// Builds the parameterized page and count statements for one tenant
    /// and caller. The sort column always lands on the allow-list, an
    /// unrecognized request falling back to creation time rather than
    /// failing, and the two scoping parameters always come first.
    pub fn build_filtered_query(workspace_id: u128, user_id: u128, filters: &ContactFilters) -> (r:
        FilteredQuery)
        ensures
            r.select_sql@ == contact_select_sql(workspace_id, user_id, filters@),
            r.count_sql@ == contact_count_sql(workspace_id, user_id, filters@),
            params_view(r.params@) == contact_params(workspace_id, user_id, filters@),
            is_contact_sort_col(contact_order_col(filters@.sort_by)),
    {
        let select_writer = Self::build_select_query(workspace_id, user_id, filters);
        let count_writer = Self::build_count_query(workspace_id, user_id, filters);
        let mut select_sql = select_writer.sql;
        select_sql.append(" ORDER BY contacts.");
        let order_col = Self::order_column(filters);
        select_sql.append(order_col.as_str());
        select_sql.append(" ");
        if crate::strutil::chars_eq(filters.sort_order.as_str(), "ASC") {
            select_sql.append("ASC");
        } else {
            select_sql.append("DESC");
        }
        FilteredQuery {
            select_sql,
            count_sql: count_writer.sql,
            params: select_writer.params,
        }
    }

    fn order_column(filters: &ContactFilters) -> (r: String)
        ensures
            r@ == contact_order_col(filters@.sort_by),
    {
        let s = filters.sort_by.as_str();
        if crate::strutil::chars_eq(s, "name") {
            "name".to_owned()
        } else if crate::strutil::chars_eq(s, "email") {
            "email".to_owned()
        } else if crate::strutil::chars_eq(s, "code") {
            "code".to_owned()
        } else if crate::strutil::chars_eq(s, "contact_type") || crate::strutil::chars_eq(
            s,
            "type",
        ) {
            "type".to_owned()
        } else if crate::strutil::chars_eq(s, "updated_at") {
            "updated_at".to_owned()
        } else {
            "created_at".to_owned()
        }
    }

    fn scoped_writer(base: &str, workspace_id: u128, user_id: u128) -> (w: SqlWriter)
        ensures
            w.acc() == scoped_acc(base@, workspace_id, user_id),
    {
        let mut w = SqlWriter::new();
        w.push_sql(base);
        w.push_param(crate::sqlgen::Param::Id(workspace_id));
        w.push_param(crate::sqlgen::Param::Id(user_id));
        proof {
            assert(w.sql@ =~= base@);
            assert(params_view(w.params@) =~= seq![
                ParamV::Id(workspace_id),
                ParamV::Id(user_id),
            ]);
        }
        w
    }

    fn apply_filters(w: &mut SqlWriter, filters: &ContactFilters)
        ensures
            final(w).acc() == contact_conds(filters@, old(w).acc()),
    {
        let mut frags: Vec<&str> = Vec::new();
        frags.push("contacts.name LIKE ");
        frags.push(" OR contacts.email LIKE ");
        frags.push(" OR contacts.code LIKE ");
        frags.push(" OR contacts.position LIKE ");
        proof {
            assert(strs_views(frags@) =~= contact_search_frags());
        }
        w.apply_search(&filters.search, &frags);
        w.apply_text(&filters.contact_type, "contacts.type = ");
        w.apply_bool(&filters.is_active, "contacts.is_active = ");
        w.apply_like(&filters.code, "contacts.code LIKE ");
        w.apply_like(&filters.email, "contacts.email LIKE ");
        w.apply_text_list(&filters.include_types, "contacts.type", " IN (");
        w.apply_text_list(&filters.exclude_types, "contacts.type", " NOT IN (");
        w.apply_id_list(&filters.include_ids, "contacts.id", " IN (");
        w.apply_id_list(&filters.exclude_ids, "contacts.id", " NOT IN (");
    }

    fn build_select_query(workspace_id: u128, user_id: u128, filters: &ContactFilters) -> (w:
        SqlWriter)
        ensures
            w.acc() == contact_conds(
                filters@,
                scoped_acc(contact_base_select(), workspace_id, user_id),
            ),
    {
        let mut w = Self::scoped_writer(
            "SELECT contacts.id, contacts.code, contacts.name, contacts.email, contacts.position, contacts.type, contacts.address, contacts.is_active, contacts.workspace_id, contacts.created_by, contacts.updated_by, contacts.created_at, contacts.updated_at FROM contacts INNER JOIN workspaces ON contacts.workspace_id = workspaces.id INNER JOIN workspace_users ON workspaces.id = workspace_users.workspace_id WHERE contacts.workspace_id = $1 AND workspace_users.user_id = $2",
            workspace_id,
            user_id,
        );
        Self::apply_filters(&mut w, filters);
        w
    }

    fn build_count_query(workspace_id: u128, user_id: u128, filters: &ContactFilters) -> (w:
        SqlWriter)
        ensures
            w.acc() == contact_conds(
                filters@,
                scoped_acc(contact_base_count(), workspace_id, user_id),
            ),
    {
        let mut w = Self::scoped_writer(
            "SELECT COUNT(contacts.id) FROM contacts INNER JOIN workspaces ON contacts.workspace_id = workspaces.id INNER JOIN workspace_users ON workspaces.id = workspace_users.workspace_id WHERE contacts.workspace_id = $1 AND workspace_users.user_id = $2",
            workspace_id,
            user_id,
        );
        Self::apply_filters(&mut w, filters);
        w
    }
}

/// The two statements of one build always bind the same parameter list: the
/// filter conditions contribute identically whatever base text they follow.
pub proof fn lemma_conds_params_base_independent(f: ContactFiltersV, a: SqlAcc, b: SqlAcc)
    requires
        a.params == b.params,
    ensures
        contact_conds(f, a).params == contact_conds(f, b).params,
{
}

} // verus!
