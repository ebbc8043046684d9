//! Product records: the tax kind, the paginated-list query with its
//! optional filters, and the normalized filter set the query builder
//! consumes. Monetary bounds travel as already-rendered decimal text and
//! are only ever bound as parameters.

use vstd::prelude::*;

use crate::filters::opt_id_segments;
use crate::filters::opt_str_view;
use crate::filters::sort_order_norm;
use crate::strutil::views_of;

verus! {

/// How a product's tax is stated.
#[derive(Debug, Clone, Copy, PartialEq, Eq, Structural)]
pub enum TaxType {
    Percentage,
    FixedAmount,
}

/// Query parameters of the paginated product list, as they arrive: the id
/// lists are comma-separated and unparsed, the price bounds are decimal
/// text.
#[derive(Debug, Clone)]
pub struct GetProductsQuery {
    pub page: Option<u32>,
    pub limit: Option<u32>,
    pub search: Option<String>,
    pub category_id: Option<u128>,
    pub supplier_id: Option<u128>,
    pub is_active: Option<bool>,
    pub track_inventory: Option<bool>,
    pub code: Option<String>,
    pub sku: Option<String>,
    pub barcode: Option<String>,
    pub base_unit: Option<String>,
    pub tax_type: Option<String>,
    pub include_categories: Option<String>,
    pub exclude_categories: Option<String>,
    pub include_suppliers: Option<String>,
    pub exclude_suppliers: Option<String>,
    pub include_ids: Option<String>,
    pub exclude_ids: Option<String>,
    pub min_selling_price: Option<String>,
    pub max_selling_price: Option<String>,
    pub min_unit_cost: Option<String>,
    pub max_unit_cost: Option<String>,
    pub min_current_stock: Option<i32>,
    pub max_current_stock: Option<i32>,
    pub low_stock: Option<bool>,
    pub sort_by: Option<String>,
    pub sort_order: Option<String>,
}

impl Default for GetProductsQuery {
    /// The first page of ten, with no filters and the default sort.
    fn default() -> (q: Self)
        ensures
            q.page == Some(1u32),
            q.limit == Some(10u32),
            q.search matches None,
            q.category_id matches None,
            q.supplier_id matches None,
            q.is_active matches None,
            q.track_inventory matches None,
            q.code matches None,
            q.sku matches None,
            q.barcode matches None,
            q.base_unit matches None,
            q.tax_type matches None,
            q.include_categories matches None,
            q.exclude_categories matches None,
            q.include_suppliers matches None,
            q.exclude_suppliers matches None,
            q.include_ids matches None,
            q.exclude_ids matches None,
            q.min_selling_price matches None,
            q.max_selling_price matches None,
            q.min_unit_cost matches None,
            q.max_unit_cost matches None,
            q.min_current_stock matches None,
            q.max_current_stock matches None,
            q.low_stock matches None,
            q.sort_by matches None,
            q.sort_order matches None,
    {
        GetProductsQuery {
            page: Some(1),
            limit: Some(10),
            search: None,
            category_id: None,
            supplier_id: None,
            is_active: None,
            track_inventory: None,
            code: None,
            sku: None,
            barcode: None,
            base_unit: None,
            tax_type: None,
            include_categories: None,
            exclude_categories: None,
            include_suppliers: None,
            exclude_suppliers: None,
            include_ids: None,
            exclude_ids: None,
            min_selling_price: None,
            max_selling_price: None,
            min_unit_cost: None,
            max_unit_cost: None,
            min_current_stock: None,
            max_current_stock: None,
            low_stock: None,
            sort_by: None,
            sort_order: None,
        }
    }
}

/// Whether the query carries any filter or sort request at all.
pub fn has_filters(query: &GetProductsQuery) -> (r: bool)
    ensures
        r == ((query.search matches Some(_)) || (query.category_id matches Some(_)) || (
        query.supplier_id matches Some(_)) || (query.is_active matches Some(_)) || (
        query.track_inventory matches Some(_)) || (query.code matches Some(_)) || (
        query.sku matches Some(_)) || (query.barcode matches Some(_)) || (
        query.base_unit matches Some(_)) || (query.tax_type matches Some(_)) || (
        query.include_categories matches Some(_)) || (query.exclude_categories matches Some(_))
            || (query.include_suppliers matches Some(_)) || (
        query.exclude_suppliers matches Some(_)) || (query.include_ids matches Some(_)) || (
        query.exclude_ids matches Some(_)) || (query.min_selling_price matches Some(_)) || (
        query.max_selling_price matches Some(_)) || (query.min_unit_cost matches Some(_)) || (
        query.max_unit_cost matches Some(_)) || (query.min_current_stock matches Some(_)) || (
        query.max_current_stock matches Some(_)) || (query.low_stock matches Some(_))),
{
    query.search.is_some() || query.category_id.is_some() || query.supplier_id.is_some()
        || query.is_active.is_some() || query.track_inventory.is_some() || query.code.is_some()
        || query.sku.is_some() || query.barcode.is_some() || query.base_unit.is_some()
        || query.tax_type.is_some() || query.include_categories.is_some()
        || query.exclude_categories.is_some() || query.include_suppliers.is_some()
        || query.exclude_suppliers.is_some() || query.include_ids.is_some()
        || query.exclude_ids.is_some() || query.min_selling_price.is_some()
        || query.max_selling_price.is_some() || query.min_unit_cost.is_some()
        || query.max_unit_cost.is_some() || query.min_current_stock.is_some()
        || query.max_current_stock.is_some() || query.low_stock.is_some()
}

/// The sort column the query builder will use: a requested column from the
/// allow-list, or creation time for anything unrecognized.
pub open spec fn product_sort_by_norm(v: Option<Seq<char>>) -> Seq<char> {
    match v {
        Some(s) => if s == "name"@ {
            "name"@
        } else if s == "code"@ {
            "code"@
        } else if s == "selling_price"@ {
            "selling_price"@
        } else if s == "unit_cost"@ {
            "unit_cost"@
        } else if s == "created_at"@ {
            "created_at"@
        } else if s == "updated_at"@ {
            "updated_at"@
        } else {
            "created_at"@
        },
        None => "created_at"@,
    }
}

/// The normalized filter set the product query builder consumes.
#[derive(Debug, Clone)]
pub struct ProductFilters {
    pub search: Option<String>,
    pub category_id: Option<u128>,
    pub supplier_id: Option<u128>,
    pub is_active: Option<bool>,
    pub track_inventory: Option<bool>,
    pub code: Option<String>,
    pub sku: Option<String>,
    pub barcode: Option<String>,
    pub base_unit: Option<String>,
    pub tax_type: Option<String>,
    pub include_categories: Vec<u128>,
    pub exclude_categories: Vec<u128>,
    pub include_suppliers: Vec<u128>,
    pub exclude_suppliers: Vec<u128>,
    pub include_ids: Vec<u128>,
    pub exclude_ids: Vec<u128>,
    pub min_selling_price: Option<String>,
    pub max_selling_price: Option<String>,
    pub min_unit_cost: Option<String>,
    pub max_unit_cost: Option<String>,
    pub min_current_stock: Option<i32>,
    pub max_current_stock: Option<i32>,
    pub low_stock: Option<bool>,
    pub sort_by: String,
    pub sort_order: String,
}

/// The mathematical shadow of a product filter set.
pub ghost struct ProductFiltersV {
    pub search: Option<Seq<char>>,
    pub category_id: Option<u128>,
    pub supplier_id: Option<u128>,
    pub is_active: Option<bool>,
    pub track_inventory: Option<bool>,
    pub code: Option<Seq<char>>,
    pub sku: Option<Seq<char>>,
    pub barcode: Option<Seq<char>>,
    pub base_unit: Option<Seq<char>>,
    pub tax_type: Option<Seq<char>>,
    pub include_categories: Seq<u128>,
    pub exclude_categories: Seq<u128>,
    pub include_suppliers: Seq<u128>,
    pub exclude_suppliers: Seq<u128>,
    pub include_ids: Seq<u128>,
    pub exclude_ids: Seq<u128>,
    pub min_selling_price: Option<Seq<char>>,
    pub max_selling_price: Option<Seq<char>>,
    pub min_unit_cost: Option<Seq<char>>,
    pub max_unit_cost: Option<Seq<char>>,
    pub min_current_stock: Option<i32>,
    pub max_current_stock: Option<i32>,
    pub low_stock: Option<bool>,
    pub sort_by: Seq<char>,
    pub sort_order: Seq<char>,
}

impl View for ProductFilters {
    type V = ProductFiltersV;

    open spec fn view(&self) -> ProductFiltersV {
        ProductFiltersV {
            search: opt_str_view(self.search),
            category_id: self.category_id,
            supplier_id: self.supplier_id,
            is_active: self.is_active,
            track_inventory: self.track_inventory,
            code: opt_str_view(self.code),
            sku: opt_str_view(self.sku),
            barcode: opt_str_view(self.barcode),
            base_unit: opt_str_view(self.base_unit),
            tax_type: opt_str_view(self.tax_type),
            include_categories: self.include_categories@,
            exclude_categories: self.exclude_categories@,
            include_suppliers: self.include_suppliers@,
            exclude_suppliers: self.exclude_suppliers@,
            include_ids: self.include_ids@,
            exclude_ids: self.exclude_ids@,
            min_selling_price: opt_str_view(self.min_selling_price),
            max_selling_price: opt_str_view(self.max_selling_price),
            min_unit_cost: opt_str_view(self.min_unit_cost),
            max_unit_cost: opt_str_view(self.max_unit_cost),
            min_current_stock: self.min_current_stock,
            max_current_stock: self.max_current_stock,
            low_stock: self.low_stock,
            sort_by: self.sort_by@,
            sort_order: self.sort_order@,
        }
    }
}

impl ProductFilters {
    /// Normalizes a raw query: the id lists keep only well-formed UUIDs,
    /// and the sort column and direction fall back to the defaults on
    /// anything outside the allow-lists.
    pub fn from_query(query: &GetProductsQuery) -> (r: Self)
        ensures
            r@.search == opt_str_view(query.search),
            r@.category_id == query.category_id,
            r@.supplier_id == query.supplier_id,
            r@.is_active == query.is_active,
            r@.track_inventory == query.track_inventory,
            r@.code == opt_str_view(query.code),
            r@.sku == opt_str_view(query.sku),
            r@.barcode == opt_str_view(query.barcode),
            r@.base_unit == opt_str_view(query.base_unit),
            r@.tax_type == opt_str_view(query.tax_type),
            r@.include_categories == opt_id_segments(opt_str_view(query.include_categories)),
            r@.exclude_categories == opt_id_segments(opt_str_view(query.exclude_categories)),
            r@.include_suppliers == opt_id_segments(opt_str_view(query.include_suppliers)),
            r@.exclude_suppliers == opt_id_segments(opt_str_view(query.exclude_suppliers)),
            r@.include_ids == opt_id_segments(opt_str_view(query.include_ids)),
            r@.exclude_ids == opt_id_segments(opt_str_view(query.exclude_ids)),
            r@.min_selling_price == opt_str_view(query.min_selling_price),
            r@.max_selling_price == opt_str_view(query.max_selling_price),
            r@.min_unit_cost == opt_str_view(query.min_unit_cost),
            r@.max_unit_cost == opt_str_view(query.max_unit_cost),
            r@.min_current_stock == query.min_current_stock,
            r@.max_current_stock == query.max_current_stock,
            r@.low_stock == query.low_stock,
            r@.sort_by == product_sort_by_norm(opt_str_view(query.sort_by)),
            r@.sort_order == sort_order_norm(opt_str_view(query.sort_order)),
    {
        let include_categories = Self::ids_of(&query.include_categories);
        let exclude_categories = Self::ids_of(&query.exclude_categories);
        let include_suppliers = Self::ids_of(&query.include_suppliers);
        let exclude_suppliers = Self::ids_of(&query.exclude_suppliers);
        let include_ids = Self::ids_of(&query.include_ids);
        let exclude_ids = Self::ids_of(&query.exclude_ids);
        let sort_by = match &query.sort_by {
            Some(s) => {
                if crate::strutil::chars_eq(s.as_str(), "name") {
                    "name".to_owned()
                } else if crate::strutil::chars_eq(s.as_str(), "code") {
                    "code".to_owned()
                } else if crate::strutil::chars_eq(s.as_str(), "selling_price") {
                    "selling_price".to_owned()
                } else if crate::strutil::chars_eq(s.as_str(), "unit_cost") {
                    "unit_cost".to_owned()
                } else if crate::strutil::chars_eq(s.as_str(), "created_at") {
                    "created_at".to_owned()
                } else if crate::strutil::chars_eq(s.as_str(), "updated_at") {
                    "updated_at".to_owned()
                } else {
                    "created_at".to_owned()
                }
            },
            None => "created_at".to_owned(),
        };
        let sort_order = crate::filters::normalize_sort_order(&query.sort_order);
        ProductFilters {
            search: crate::filters::clone_opt_string(&query.search),
            category_id: query.category_id,
            supplier_id: query.supplier_id,
            is_active: query.is_active,
            track_inventory: query.track_inventory,
            code: crate::filters::clone_opt_string(&query.code),
            sku: crate::filters::clone_opt_string(&query.sku),
            barcode: crate::filters::clone_opt_string(&query.barcode),
            base_unit: crate::filters::clone_opt_string(&query.base_unit),
            tax_type: crate::filters::clone_opt_string(&query.tax_type),
            include_categories,
            exclude_categories,
            include_suppliers,
            exclude_suppliers,
            include_ids,
            exclude_ids,
            min_selling_price: crate::filters::clone_opt_string(&query.min_selling_price),
            max_selling_price: crate::filters::clone_opt_string(&query.max_selling_price),
            min_unit_cost: crate::filters::clone_opt_string(&query.min_unit_cost),
            max_unit_cost: crate::filters::clone_opt_string(&query.max_unit_cost),
            min_current_stock: query.min_current_stock,
            max_current_stock: query.max_current_stock,
            low_stock: query.low_stock,
            sort_by,
            sort_order,
        }
    }

    fn ids_of(v: &Option<String>) -> (r: Vec<u128>)
        ensures
            r@ == opt_id_segments(opt_str_view(*v)),
    {
        match v {
            Some(s) => crate::filters::parse_id_list(s.as_str()),
            None => Vec::new(),
        }
    }
}

} // verus!
