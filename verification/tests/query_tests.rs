use tenantcore::contact_query::ContactQueryBuilder;
use tenantcore::contacts::ContactFilters;
use tenantcore::contacts::GetContactsQuery;
use tenantcore::product_query::ProductQueryBuilder;
use tenantcore::products::GetProductsQuery;
use tenantcore::products::ProductFilters;
use tenantcore::sqlgen::Param;

const WS: u128 = 11;
const CALLER: u128 = 22;

const CONTACT_BASE: &str = "SELECT contacts.id, contacts.code, contacts.name, contacts.email, contacts.position, contacts.type, contacts.address, contacts.is_active, contacts.workspace_id, contacts.created_by, contacts.updated_by, contacts.created_at, contacts.updated_at FROM contacts INNER JOIN workspaces ON contacts.workspace_id = workspaces.id INNER JOIN workspace_users ON workspaces.id = workspace_users.workspace_id WHERE contacts.workspace_id = $1 AND workspace_users.user_id = $2";

const CONTACT_COUNT_BASE: &str = "SELECT COUNT(contacts.id) FROM contacts INNER JOIN workspaces ON contacts.workspace_id = workspaces.id INNER JOIN workspace_users ON workspaces.id = workspace_users.workspace_id WHERE contacts.workspace_id = $1 AND workspace_users.user_id = $2";

fn default_contact_filters() -> ContactFilters {
    ContactFilters::from_query(&GetContactsQuery::default())
}

#[test]
fn contact_query_without_filters_is_scoped_and_default_sorted() {
    let filters = default_contact_filters();
    let q = ContactQueryBuilder::build_filtered_query(WS, CALLER, &filters);
    let mut expected = String::from(CONTACT_BASE);
    expected.push_str(" ORDER BY contacts.created_at DESC");
    assert_eq!(q.select_sql, expected);
    assert_eq!(q.count_sql, CONTACT_COUNT_BASE);
    assert_eq!(q.params.len(), 2);
    assert!(matches!(q.params[0], Param::Id(v) if v == WS));
    assert!(matches!(q.params[1], Param::Id(v) if v == CALLER));
}

#[test]
fn unrecognized_sort_key_falls_back_to_the_default_column() {
    let query = GetContactsQuery { sort_by: Some("; DROP TABLE contacts".to_string()), ..GetContactsQuery::default() };
    let filters = ContactFilters::from_query(&query);
    let q = ContactQueryBuilder::build_filtered_query(WS, CALLER, &filters);
    assert!(q.select_sql.ends_with(" ORDER BY contacts.created_at DESC"));
    assert!(!q.select_sql.contains("DROP"));
}

#[test]
fn recognized_sort_key_and_direction_are_used() {
    let query = GetContactsQuery {
        sort_by: Some("name".to_string()),
        sort_order: Some("asc".to_string()),
        ..GetContactsQuery::default()
    };
    let filters = ContactFilters::from_query(&query);
    let q = ContactQueryBuilder::build_filtered_query(WS, CALLER, &filters);
    assert!(q.select_sql.ends_with(" ORDER BY contacts.name ASC"));
}

#[test]
fn contact_search_binds_the_pattern_once_per_column() {
    let query = GetContactsQuery { search: Some("jo".to_string()), ..GetContactsQuery::default() };
    let filters = ContactFilters::from_query(&query);
    let q = ContactQueryBuilder::build_filtered_query(WS, CALLER, &filters);
    let mut expected = String::from(CONTACT_BASE);
    expected.push_str(
        " AND (contacts.name LIKE $3 OR contacts.email LIKE $4 OR contacts.code LIKE $5 OR contacts.position LIKE $6)",
    );
    expected.push_str(" ORDER BY contacts.created_at DESC");
    assert_eq!(q.select_sql, expected);
    assert_eq!(q.params.len(), 6);
    for p in &q.params[2..] {
        assert!(matches!(p, Param::Text(s) if s == "%jo%"));
    }
}

#[test]
fn contact_filters_are_additive_and_numbered_in_order() {
    let query = GetContactsQuery {
        contact_type: Some("customer".to_string()),
        is_active: Some(true),
        code: Some("AC".to_string()),
        ..GetContactsQuery::default()
    };
    let filters = ContactFilters::from_query(&query);
    let q = ContactQueryBuilder::build_filtered_query(WS, CALLER, &filters);
    let mut expected = String::from(CONTACT_BASE);
    expected.push_str(" AND contacts.type = $3");
    expected.push_str(" AND contacts.is_active = $4");
    expected.push_str(" AND contacts.code LIKE $5");
    expected.push_str(" ORDER BY contacts.created_at DESC");
    assert_eq!(q.select_sql, expected);
    assert!(matches!(&q.params[2], Param::Text(s) if s == "customer"));
    assert!(matches!(q.params[3], Param::Boolean(true)));
    assert!(matches!(&q.params[4], Param::Text(s) if s == "%AC%"));
}

#[test]
fn contact_id_lists_become_parameter_lists() {
    let a = uuid::Uuid::from_u128(100).to_string();
    let b = uuid::Uuid::from_u128(200).to_string();
    let mut list = a.clone();
    list.push(',');
    list.push_str(&b);
    let query = GetContactsQuery { include_ids: Some(list), ..GetContactsQuery::default() };
    let filters = ContactFilters::from_query(&query);
    assert_eq!(filters.include_ids, vec![100u128, 200u128]);

    let q = ContactQueryBuilder::build_filtered_query(WS, CALLER, &filters);
    let mut expected = String::from(CONTACT_BASE);
    expected.push_str(" AND contacts.id IN ($3,$4)");
    expected.push_str(" ORDER BY contacts.created_at DESC");
    assert_eq!(q.select_sql, expected);
    assert!(matches!(q.params[2], Param::Id(100)));
    assert!(matches!(q.params[3], Param::Id(200)));
}

#[test]
fn malformed_ids_in_a_list_are_dropped() {
    let good = uuid::Uuid::from_u128(300).to_string();
    let mut list = String::from("not-a-uuid, ");
    list.push_str(&good);
    list.push_str(" ,");
    let query = GetContactsQuery { exclude_ids: Some(list), ..GetContactsQuery::default() };
    let filters = ContactFilters::from_query(&query);
    assert_eq!(filters.exclude_ids, vec![300u128]);
}

#[test]
fn type_lists_are_split_and_trimmed() {
    let query = GetContactsQuery {
        include_types: Some(" customer , supplier".to_string()),
        ..GetContactsQuery::default()
    };
    let filters = ContactFilters::from_query(&query);
    assert_eq!(filters.include_types, vec!["customer".to_string(), "supplier".to_string()]);

    let q = ContactQueryBuilder::build_filtered_query(WS, CALLER, &filters);
    assert!(q.select_sql.contains(" AND contacts.type IN ($3,$4)"));
    assert!(matches!(&q.params[2], Param::Text(s) if s == "customer"));
    assert!(matches!(&q.params[3], Param::Text(s) if s == "supplier"));
}

#[test]
fn contact_has_filters_reports_any_request() {
    assert!(!tenantcore::contacts::has_filters(&GetContactsQuery::default()));
    let query = GetContactsQuery { search: Some("x".to_string()), ..GetContactsQuery::default() };
    assert!(tenantcore::contacts::has_filters(&query));
    let query = GetContactsQuery { sort_by: Some("name".to_string()), ..GetContactsQuery::default() };
    assert!(tenantcore::contacts::has_filters(&query));
}

const PRODUCT_BASE: &str = "SELECT products.id, products.code, products.name, products.category_id, products.base_unit, products.unit_on_report_preview, products.selling_price, products.unit_cost, products.supplier_id, products.track_inventory, products.description, products.sku, products.barcode, products.minimum_stock, products.maximum_stock, products.reorder_level, products.current_stock, products.tax_type, products.tax_rate, products.tax_amount, products.is_active, products.workspace_id, products.created_by, products.updated_by, products.created_at, products.updated_at FROM products INNER JOIN workspaces ON products.workspace_id = workspaces.id INNER JOIN workspace_users ON workspaces.id = workspace_users.workspace_id WHERE products.workspace_id = $1 AND workspace_users.user_id = $2";

const PRODUCT_COUNT_BASE: &str = "SELECT COUNT(products.id) FROM products INNER JOIN workspaces ON products.workspace_id = workspaces.id INNER JOIN workspace_users ON workspaces.id = workspace_users.workspace_id WHERE products.workspace_id = $1 AND workspace_users.user_id = $2";

#[test]
fn product_query_without_filters_is_scoped_and_default_sorted() {
    let filters = ProductFilters::from_query(&GetProductsQuery::default());
    let q = ProductQueryBuilder::build_filtered_query(WS, CALLER, &filters);
    let mut expected = String::from(PRODUCT_BASE);
    expected.push_str(" ORDER BY products.created_at DESC");
    assert_eq!(q.select_sql, expected);
    assert_eq!(q.count_sql, PRODUCT_COUNT_BASE);
    assert_eq!(q.params.len(), 2);
    assert!(matches!(q.params[0], Param::Id(v) if v == WS));
    assert!(matches!(q.params[1], Param::Id(v) if v == CALLER));
}

#[test]
fn product_search_is_case_insensitive_and_lowered() {
    let query =
        GetProductsQuery { search: Some("WiDgEt".to_string()), ..GetProductsQuery::default() };
    let filters = ProductFilters::from_query(&query);
    let q = ProductQueryBuilder::build_filtered_query(WS, CALLER, &filters);
    let mut expected = String::from(PRODUCT_BASE);
    expected.push_str(
        " AND (products.name ILIKE $3 OR products.code ILIKE $4 OR products.sku ILIKE $5 OR products.barcode ILIKE $6 OR products.description ILIKE $7)",
    );
    expected.push_str(" ORDER BY products.created_at DESC");
    assert_eq!(q.select_sql, expected);
    for p in &q.params[2..] {
        assert!(matches!(p, Param::Text(s) if s == "%widget%"));
    }
}

#[test]
fn product_range_and_stock_filters_bind_in_order() {
    let query = GetProductsQuery {
        min_selling_price: Some("10.50".to_string()),
        max_current_stock: Some(99),
        low_stock: Some(true),
        ..GetProductsQuery::default()
    };
    let filters = ProductFilters::from_query(&query);
    let q = ProductQueryBuilder::build_filtered_query(WS, CALLER, &filters);
    let mut expected = String::from(PRODUCT_BASE);
    expected.push_str(" AND products.selling_price >= $3");
    expected.push_str(" AND products.current_stock <= $4");
    expected.push_str(
        " AND (products.track_inventory = TRUE AND products.current_stock IS NOT NULL AND products.reorder_level IS NOT NULL AND products.current_stock <= products.reorder_level)",
    );
    expected.push_str(" ORDER BY products.created_at DESC");
    assert_eq!(q.select_sql, expected);
    assert!(matches!(&q.params[2], Param::Text(s) if s == "10.50"));
    assert!(matches!(q.params[3], Param::Int(99)));
}

#[test]
fn product_sort_falls_back_on_unknown_keys() {
    let query = GetProductsQuery {
        sort_by: Some("price; DELETE FROM products".to_string()),
        sort_order: Some("ASC".to_string()),
        ..GetProductsQuery::default()
    };
    let filters = ProductFilters::from_query(&query);
    assert_eq!(filters.sort_by, "created_at");
    let q = ProductQueryBuilder::build_filtered_query(WS, CALLER, &filters);
    assert!(q.select_sql.ends_with(" ORDER BY products.created_at ASC"));
    assert!(!q.select_sql.contains("DELETE"));
}

#[test]
fn product_sort_direction_matches_asc_in_any_casing() {
    let mut filters = ProductFilters::from_query(&GetProductsQuery::default());
    filters.sort_order = "asc".to_string();
    let q = ProductQueryBuilder::build_filtered_query(WS, CALLER, &filters);
    assert!(q.select_sql.ends_with(" ORDER BY products.created_at ASC"));

    filters.sort_order = "sideways".to_string();
    let q = ProductQueryBuilder::build_filtered_query(WS, CALLER, &filters);
    assert!(q.select_sql.ends_with(" ORDER BY products.created_at DESC"));
}

#[test]
fn product_has_filters_reports_any_request() {
    assert!(!tenantcore::products::has_filters(&GetProductsQuery::default()));
    let query = GetProductsQuery { low_stock: Some(true), ..GetProductsQuery::default() };
    assert!(tenantcore::products::has_filters(&query));
}
