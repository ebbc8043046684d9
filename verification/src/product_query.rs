//! The product list query builder: assembles the parameterized page and
//! count statements for one tenant and caller from an optional filter set.
//!
//! Tenant scoping and caller-membership scoping are appended first and are
//! not overridable by filters; every filter value is bound as a parameter;
//! the search matches case-insensitively against the lowered pattern; the
//! sort column comes from a fixed allow-list with creation time as the
//! fallback. Pagination is appended by the caller.

use vstd::prelude::*;

use crate::products::ProductFilters;
use crate::products::ProductFiltersV;
use crate::sqlgen::step_bool;
use crate::sqlgen::step_id;
use crate::sqlgen::step_id_list;
use crate::sqlgen::step_int;
use crate::sqlgen::step_raw;
use crate::sqlgen::step_search;
use crate::sqlgen::step_text;
use crate::sqlgen::FilteredQuery;
use crate::sqlgen::SqlAcc;
use crate::sqlgen::SqlWriter;
use crate::sqlgen::params_view;
use crate::sqlgen::scoped_acc;
use crate::sqlgen::strs_views;
use crate::strutil::lower_seq;
use crate::strutil::upper_seq;

verus! {

/// The page query's fixed head: every product column, the joins that tie a
/// product's workspace to the caller's memberships, and the two scoping
/// conditions.
pub open spec fn product_base_select() -> Seq<char> {
    "SELECT products.id, products.code, products.name, products.category_id, products.base_unit, products.unit_on_report_preview, products.selling_price, products.unit_cost, products.supplier_id, products.track_inventory, products.description, products.sku, products.barcode, products.minimum_stock, products.maximum_stock, products.reorder_level, products.current_stock, products.tax_type, products.tax_rate, products.tax_amount, products.is_active, products.workspace_id, products.created_by, products.updated_by, products.created_at, products.updated_at FROM products INNER JOIN workspaces ON products.workspace_id = workspaces.id INNER JOIN workspace_users ON workspaces.id = workspace_users.workspace_id WHERE products.workspace_id = $1 AND workspace_users.user_id = $2"@
}

/// The count query's fixed head, under the same joins and scoping.
pub open spec fn product_base_count() -> Seq<char> {
    "SELECT COUNT(products.id) FROM products INNER JOIN workspaces ON products.workspace_id = workspaces.id INNER JOIN workspace_users ON workspaces.id = workspace_users.workspace_id WHERE products.workspace_id = $1 AND workspace_users.user_id = $2"@
}

/// The columns the search text is matched against, case-insensitively.
pub open spec fn product_search_frags() -> Seq<Seq<char>> {
    seq![
        "products.name ILIKE "@,
        " OR products.code ILIKE "@,
        " OR products.sku ILIKE "@,
        " OR products.barcode ILIKE "@,
        " OR products.description ILIKE "@,
    ]
}

/// The fixed low-stock clause: tracked products whose stock has fallen to
/// the reorder level.
pub open spec fn low_stock_clause() -> Seq<char> {
    " AND (products.track_inventory = TRUE AND products.current_stock IS NOT NULL AND products.reorder_level IS NOT NULL AND products.current_stock <= products.reorder_level)"@
}

/// The lowered search text, when a search was given.
pub open spec fn lowered_search(v: Option<Seq<char>>) -> Option<Seq<char>> {
    match v {
        Some(s) => Some(lower_seq(s)),
        None => None,
    }
}

/// Every filter condition, in order, appended to an accumulator that
/// already holds the base statement and the two scoping parameters.
pub open spec fn product_conds(f: ProductFiltersV, acc: SqlAcc) -> SqlAcc {
    let a1 = step_search(lowered_search(f.search), product_search_frags(), acc);
    let a2 = step_id(f.category_id, "products.category_id = "@, a1);
    let a3 = step_id(f.supplier_id, "products.supplier_id = "@, a2);
    let a4 = step_bool(f.is_active, "products.is_active = "@, a3);
    let a5 = step_bool(f.track_inventory, "products.track_inventory = "@, a4);
    let a6 = step_text(f.code, "products.code = "@, a5);
    let a7 = step_text(f.sku, "products.sku = "@, a6);
    let a8 = step_text(f.barcode, "products.barcode = "@, a7);
    let a9 = step_text(f.base_unit, "products.base_unit = "@, a8);
    let a10 = step_text(f.tax_type, "products.tax_type = "@, a9);
    let a11 = step_id_list(f.include_categories, "products.category_id"@, " IN ("@, a10);
    let a12 = step_id_list(f.exclude_categories, "products.category_id"@, " NOT IN ("@, a11);
    let a13 = step_id_list(f.include_suppliers, "products.supplier_id"@, " IN ("@, a12);
    let a14 = step_id_list(f.exclude_suppliers, "products.supplier_id"@, " NOT IN ("@, a13);
    let a15 = step_id_list(f.include_ids, "products.id"@, " IN ("@, a14);
    let a16 = step_id_list(f.exclude_ids, "products.id"@, " NOT IN ("@, a15);
    let a17 = step_text(f.min_selling_price, "products.selling_price >= "@, a16);
    let a18 = step_text(f.max_selling_price, "products.selling_price <= "@, a17);
    let a19 = step_text(f.min_unit_cost, "products.unit_cost >= "@, a18);
    let a20 = step_text(f.max_unit_cost, "products.unit_cost <= "@, a19);
    let a21 = step_int(f.min_current_stock, "products.current_stock >= "@, a20);
    let a22 = step_int(f.max_current_stock, "products.current_stock <= "@, a21);
    step_raw(f.low_stock == Some(true), low_stock_clause(), a22)
}

/// The sort columns a caller may request.
pub open spec fn is_product_sort_col(s: Seq<char>) -> bool {
    s == "name"@ || s == "code"@ || s == "selling_price"@ || s == "unit_cost"@ || s
        == "updated_at"@ || s == "created_at"@
}

/// The column actually interpolated into ORDER BY: the requested one when
/// it is on the allow-list, creation time otherwise. Never free text.
pub open spec fn product_order_col(s: Seq<char>) -> Seq<char> {
    if s == "name"@ {
        "name"@
    } else if s == "code"@ {
        "code"@
    } else if s == "selling_price"@ {
        "selling_price"@
    } else if s == "unit_cost"@ {
        "unit_cost"@
    } else if s == "updated_at"@ {
        "updated_at"@
    } else {
        "created_at"@
    }
}

/// The ORDER BY direction: ascending when the request reads `ASC` in any
/// ASCII casing, descending otherwise.
pub open spec fn product_order_dir(s: Seq<char>) -> Seq<char> {
    if upper_seq(s) == "ASC"@ {
        "ASC"@
    } else {
        "DESC"@
    }
}

/// The full page query: base, filters, ORDER BY.
pub open spec fn product_select_sql(workspace_id: u128, user_id: u128, f: ProductFiltersV) -> Seq<
    char,
> {
    product_conds(f, scoped_acc(product_base_select(), workspace_id, user_id)).sql
        + " ORDER BY products."@ + product_order_col(f.sort_by) + " "@ + product_order_dir(
        f.sort_order,
    )
}

/// The full count query: base and filters, no ordering.
pub open spec fn product_count_sql(workspace_id: u128, user_id: u128, f: ProductFiltersV) -> Seq<
    char,
> {
    product_conds(f, scoped_acc(product_base_count(), workspace_id, user_id)).sql
}

/// The values both statements bind, in placeholder order.
pub open spec fn product_params(workspace_id: u128, user_id: u128, f: ProductFiltersV) -> Seq<
    crate::sqlgen::ParamV,
> {
    product_conds(f, scoped_acc(product_base_select(), workspace_id, user_id)).params
}

pub struct ProductQueryBuilder;

impl ProductQueryBuilder {
    /// Builds the parameterized page and count statements for one tenant
    /// and caller. The sort column always lands on the allow-list, an
    /// unrecognized request falling back to creation time rather than
    /// failing, and the two scoping parameters always come first.
    #[verifier::rlimit(60)]
    pub fn build_filtered_query(workspace_id: u128, user_id: u128, filters: &ProductFilters) -> (
        r: FilteredQuery)
        ensures
            r.select_sql@ == product_select_sql(workspace_id, user_id, filters@),
            r.count_sql@ == product_count_sql(workspace_id, user_id, filters@),
            params_view(r.params@) == product_params(workspace_id, user_id, filters@),
            is_product_sort_col(product_order_col(filters@.sort_by)),
    {
        let select_writer = Self::build_select_query(workspace_id, user_id, filters);
        let count_writer = Self::build_count_query(workspace_id, user_id, filters);
        let mut select_sql = select_writer.sql;
        select_sql.append(" ORDER BY products.");
        let order_col = Self::order_column(filters);
        select_sql.append(order_col.as_str());
        select_sql.append(" ");
        let order_upper = crate::strutil::upper_str(filters.sort_order.as_str());
        if crate::strutil::chars_eq(order_upper.as_str(), "ASC") {
            select_sql.append("ASC");
        } else {
            select_sql.append("DESC");
        }
        FilteredQuery {
            select_sql,
            count_sql: count_writer.sql,
            params: select_writer.params,
        }
    }

    fn order_column(filters: &ProductFilters) -> (r: String)
        ensures
            r@ == product_order_col(filters@.sort_by),
    {
        let s = filters.sort_by.as_str();
        if crate::strutil::chars_eq(s, "name") {
            "name".to_owned()
        } else if crate::strutil::chars_eq(s, "code") {
            "code".to_owned()
        } else if crate::strutil::chars_eq(s, "selling_price") {
            "selling_price".to_owned()
        } else if crate::strutil::chars_eq(s, "unit_cost") {
            "unit_cost".to_owned()
        } else if crate::strutil::chars_eq(s, "updated_at") {
            "updated_at".to_owned()
        } else {
            "created_at".to_owned()
        }
    }

    fn scoped_writer(base: &str, workspace_id: u128, user_id: u128) -> (w: SqlWriter)
        ensures
            w.acc() == scoped_acc(base@, workspace_id, user_id),
    {
        let mut w = SqlWriter::new();
        w.push_sql(base);
        w.push_param(crate::sqlgen::Param::Id(workspace_id));
        w.push_param(crate::sqlgen::Param::Id(user_id));
        proof {
            assert(w.sql@ =~= base@);
            assert(params_view(w.params@) =~= seq![
                crate::sqlgen::ParamV::Id(workspace_id),
                crate::sqlgen::ParamV::Id(user_id),
            ]);
        }
        w
    }

    fn apply_filters(w: &mut SqlWriter, filters: &ProductFilters)
        ensures
            final(w).acc() == product_conds(filters@, old(w).acc()),
    {
        let mut frags: Vec<&str> = Vec::new();
        frags.push("products.name ILIKE ");
        frags.push(" OR products.code ILIKE ");
        frags.push(" OR products.sku ILIKE ");
        frags.push(" OR products.barcode ILIKE ");
        frags.push(" OR products.description ILIKE ");
        proof {
            assert(strs_views(frags@) =~= product_search_frags());
        }
        w.apply_search_lower(&filters.search, &frags);
        w.apply_id(&filters.category_id, "products.category_id = ");
        w.apply_id(&filters.supplier_id, "products.supplier_id = ");
        w.apply_bool(&filters.is_active, "products.is_active = ");
        w.apply_bool(&filters.track_inventory, "products.track_inventory = ");
        w.apply_text(&filters.code, "products.code = ");
        w.apply_text(&filters.sku, "products.sku = ");
        w.apply_text(&filters.barcode, "products.barcode = ");
        w.apply_text(&filters.base_unit, "products.base_unit = ");
        w.apply_text(&filters.tax_type, "products.tax_type = ");
        w.apply_id_list(&filters.include_categories, "products.category_id", " IN (");
        w.apply_id_list(&filters.exclude_categories, "products.category_id", " NOT IN (");
        w.apply_id_list(&filters.include_suppliers, "products.supplier_id", " IN (");
        w.apply_id_list(&filters.exclude_suppliers, "products.supplier_id", " NOT IN (");
        w.apply_id_list(&filters.include_ids, "products.id", " IN (");
        w.apply_id_list(&filters.exclude_ids, "products.id", " NOT IN (");
        w.apply_text(&filters.min_selling_price, "products.selling_price >= ");
        w.apply_text(&filters.max_selling_price, "products.selling_price <= ");
        w.apply_text(&filters.min_unit_cost, "products.unit_cost >= ");
        w.apply_text(&filters.max_unit_cost, "products.unit_cost <= ");
        w.apply_int(&filters.min_current_stock, "products.current_stock >= ");
        w.apply_int(&filters.max_current_stock, "products.current_stock <= ");
        let low = match filters.low_stock {
            Some(true) => true,
            _ => false,
        };
        w.apply_raw(
            low,
            " AND (products.track_inventory = TRUE AND products.current_stock IS NOT NULL AND products.reorder_level IS NOT NULL AND products.current_stock <= products.reorder_level)",
        );
    }

    fn build_select_query(workspace_id: u128, user_id: u128, filters: &ProductFilters) -> (w:
        SqlWriter)
        ensures
            w.acc() == product_conds(
                filters@,
                scoped_acc(product_base_select(), workspace_id, user_id),
            ),
    {
        let mut w = Self::scoped_writer(
            "SELECT products.id, products.code, products.name, products.category_id, products.base_unit, products.unit_on_report_preview, products.selling_price, products.unit_cost, products.supplier_id, products.track_inventory, products.description, products.sku, products.barcode, products.minimum_stock, products.maximum_stock, products.reorder_level, products.current_stock, products.tax_type, products.tax_rate, products.tax_amount, products.is_active, products.workspace_id, products.created_by, products.updated_by, products.created_at, products.updated_at FROM products INNER JOIN workspaces ON products.workspace_id = workspaces.id INNER JOIN workspace_users ON workspaces.id = workspace_users.workspace_id WHERE products.workspace_id = $1 AND workspace_users.user_id = $2",
            workspace_id,
            user_id,
        );
        Self::apply_filters(&mut w, filters);
        w
    }

    fn build_count_query(workspace_id: u128, user_id: u128, filters: &ProductFilters) -> (w:
        SqlWriter)
        ensures
            w.acc() == product_conds(
                filters@,
                scoped_acc(product_base_count(), workspace_id, user_id),
            ),
    {
        let mut w = Self::scoped_writer(
            "SELECT COUNT(products.id) FROM products INNER JOIN workspaces ON products.workspace_id = workspaces.id INNER JOIN workspace_users ON workspaces.id = workspace_users.workspace_id WHERE products.workspace_id = $1 AND workspace_users.user_id = $2",
            workspace_id,
            user_id,
        );
        Self::apply_filters(&mut w, filters);
        w
    }
}

/// The two statements of one build always bind the same parameter list: the
/// filter conditions contribute identically whatever base text they follow.
#[verifier::rlimit(100)]
pub proof fn lemma_product_conds_params_base_independent(f: ProductFiltersV, a: SqlAcc, b: SqlAcc)
    requires
        a.params == b.params,
    ensures
        product_conds(f, a).params == product_conds(f, b).params,
{
    let a1 = step_search(lowered_search(f.search), product_search_frags(), a);
    let b1 = step_search(lowered_search(f.search), product_search_frags(), b);
    assert(a1.params == b1.params);
    let a2 = step_id(f.category_id, "products.category_id = "@, a1);
    let b2 = step_id(f.category_id, "products.category_id = "@, b1);
    assert(a2.params == b2.params);
    let a3 = step_id(f.supplier_id, "products.supplier_id = "@, a2);
    let b3 = step_id(f.supplier_id, "products.supplier_id = "@, b2);
    assert(a3.params == b3.params);
    let a4 = step_bool(f.is_active, "products.is_active = "@, a3);
    let b4 = step_bool(f.is_active, "products.is_active = "@, b3);
    assert(a4.params == b4.params);
    let a5 = step_bool(f.track_inventory, "products.track_inventory = "@, a4);
    let b5 = step_bool(f.track_inventory, "products.track_inventory = "@, b4);
    assert(a5.params == b5.params);
    let a6 = step_text(f.code, "products.code = "@, a5);
    let b6 = step_text(f.code, "products.code = "@, b5);
    assert(a6.params == b6.params);
    let a7 = step_text(f.sku, "products.sku = "@, a6);
    let b7 = step_text(f.sku, "products.sku = "@, b6);
    assert(a7.params == b7.params);
    let a8 = step_text(f.barcode, "products.barcode = "@, a7);
    let b8 = step_text(f.barcode, "products.barcode = "@, b7);
    assert(a8.params == b8.params);
    let a9 = step_text(f.base_unit, "products.base_unit = "@, a8);
    let b9 = step_text(f.base_unit, "products.base_unit = "@, b8);
    assert(a9.params == b9.params);
    let a10 = step_text(f.tax_type, "products.tax_type = "@, a9);
    let b10 = step_text(f.tax_type, "products.tax_type = "@, b9);
    assert(a10.params == b10.params);
    let a11 = step_id_list(f.include_categories, "products.category_id"@, " IN ("@, a10);
    let b11 = step_id_list(f.include_categories, "products.category_id"@, " IN ("@, b10);
    assert(a11.params == b11.params);
    let a12 = step_id_list(f.exclude_categories, "products.category_id"@, " NOT IN ("@, a11);
    let b12 = step_id_list(f.exclude_categories, "products.category_id"@, " NOT IN ("@, b11);
    assert(a12.params == b12.params);
    let a13 = step_id_list(f.include_suppliers, "products.supplier_id"@, " IN ("@, a12);
    let b13 = step_id_list(f.include_suppliers, "products.supplier_id"@, " IN ("@, b12);
    assert(a13.params == b13.params);
    let a14 = step_id_list(f.exclude_suppliers, "products.supplier_id"@, " NOT IN ("@, a13);
    let b14 = step_id_list(f.exclude_suppliers, "products.supplier_id"@, " NOT IN ("@, b13);
    assert(a14.params == b14.params);
    let a15 = step_id_list(f.include_ids, "products.id"@, " IN ("@, a14);
    let b15 = step_id_list(f.include_ids, "products.id"@, " IN ("@, b14);
    assert(a15.params == b15.params);
    let a16 = step_id_list(f.exclude_ids, "products.id"@, " NOT IN ("@, a15);
    let b16 = step_id_list(f.exclude_ids, "products.id"@, " NOT IN ("@, b15);
    assert(a16.params == b16.params);
    let a17 = step_text(f.min_selling_price, "products.selling_price >= "@, a16);
    let b17 = step_text(f.min_selling_price, "products.selling_price >= "@, b16);
    assert(a17.params == b17.params);
    let a18 = step_text(f.max_selling_price, "products.selling_price <= "@, a17);
    let b18 = step_text(f.max_selling_price, "products.selling_price <= "@, b17);
    assert(a18.params == b18.params);
    let a19 = step_text(f.min_unit_cost, "products.unit_cost >= "@, a18);
    let b19 = step_text(f.min_unit_cost, "products.unit_cost >= "@, b18);
    assert(a19.params == b19.params);
    let a20 = step_text(f.max_unit_cost, "products.unit_cost <= "@, a19);
    let b20 = step_text(f.max_unit_cost, "products.unit_cost <= "@, b19);
    assert(a20.params == b20.params);
    let a21 = step_int(f.min_current_stock, "products.current_stock >= "@, a20);
    let b21 = step_int(f.min_current_stock, "products.current_stock >= "@, b20);
    assert(a21.params == b21.params);
    let a22 = step_int(f.max_current_stock, "products.current_stock <= "@, a21);
    let b22 = step_int(f.max_current_stock, "products.current_stock <= "@, b21);
    assert(a22.params == b22.params);
    let a23 = step_raw(f.low_stock == Some(true), low_stock_clause(), a22);
    let b23 = step_raw(f.low_stock == Some(true), low_stock_clause(), b22);
    assert(a23.params == b23.params);
    assert(product_conds(f, a) == a23);
    assert(product_conds(f, b) == b23);
}

} // verus!
