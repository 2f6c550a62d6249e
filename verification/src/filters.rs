//! Optional equality filters of the list queries, and the queries that carry
//! them together with the page that is asked for.

use vstd::prelude::*;
use crate::models::{copy_text, text_of, CustomerView, OrderView, SellerView};
use crate::pagination::PaginationParams;

verus! {

/// The constraint that a raw query field stands for: its text, unless the
/// field is absent or blank, in which case the field restricts nothing.
pub open spec fn constraint_of(raw: Option<String>) -> Option<Seq<char>> {
    match raw {
        Some(s) => if s@.len() == 0 {
            None
        } else {
            Some(s@)
        },
        None => None,
    }
}

/// Whether `value` passes an optional equality constraint. A constraint that
/// is unset lets every value pass.
pub open spec fn passes(constraint: Option<Seq<char>>, value: Seq<char>) -> bool {
    match constraint {
        Some(wanted) => value == wanted,
        None => true,
    }
}

/// The constraint of a raw query field, as a value of its own.
fn usable(raw: &Option<String>) -> (constraint: Option<String>)
    ensures
        text_of(constraint) == constraint_of(*raw),
{
    match raw {
        Some(s) => {
            if s.as_str().is_empty() {
                None
            } else {
                Some(s.clone())
            }
        },
        None => None,
    }
}

/// Whether `value` passes the constraint.
fn field_passes(constraint: &Option<String>, value: &String) -> (pass: bool)
    ensures
        pass == passes(text_of(*constraint), value@),
{
    match constraint {
        Some(wanted) => *value == *wanted,
        None => true,
    }
}

/// Equality constraints on city and state. The two are joined by "and"; one
/// that is unset matches every value.
#[derive(Debug, PartialEq, Eq)]
pub struct LocationFilter {
    pub city: Option<String>,
    pub state: Option<String>,
}

/// The filter of the customer list.
pub type CustomerFilter = LocationFilter;

/// The filter of the seller list.
pub type SellerFilter = LocationFilter;

/// A location filter as a value.
pub struct LocationFilterView {
    pub city: Option<Seq<char>>,
    pub state: Option<Seq<char>>,
}

impl LocationFilterView {
    /// Whether neither field restricts anything.
    pub open spec fn is_unset(self) -> bool {
        self.city is None && self.state is None
    }

    /// Whether a record in `city` and `state` passes the filter.
    pub open spec fn admits(self, city: Seq<char>, state: Seq<char>) -> bool {
        passes(self.city, city) && passes(self.state, state)
    }

    /// Whether the customer passes the filter.
    pub open spec fn admits_customer(self, customer: CustomerView) -> bool {
        self.admits(customer.customer_city, customer.customer_state)
    }

    /// Whether the seller passes the filter.
    pub open spec fn admits_seller(self, seller: SellerView) -> bool {
        self.admits(seller.seller_city, seller.seller_state)
    }
}

impl View for LocationFilter {
    type V = LocationFilterView;

    open spec fn view(&self) -> LocationFilterView {
        LocationFilterView { city: text_of(self.city), state: text_of(self.state) }
    }
}

impl Default for LocationFilter {
    fn default() -> (filter: Self)
        ensures
            filter@.is_unset(),
    {
        LocationFilter { city: None, state: None }
    }
}

impl Clone for LocationFilter {
    fn clone(&self) -> (copy: Self)
        ensures
            copy@ == self@,
    {
        LocationFilter { city: copy_text(&self.city), state: copy_text(&self.state) }
    }
}

impl LocationFilter {
    /// Whether a record in `city` and `state` passes the filter.
    pub fn matches(&self, city: &String, state: &String) -> (pass: bool)
        ensures
            pass == self@.admits(city@, state@),
    {
        field_passes(&self.city, city) && field_passes(&self.state, state)
    }
}

/// An equality constraint on the status of an order; unset, it matches every
/// order.
#[derive(Debug, PartialEq, Eq)]
pub struct OrderFilter {
    pub order_status: Option<String>,
}

/// An order filter as a value.
pub struct OrderFilterView {
    pub order_status: Option<Seq<char>>,
}

impl OrderFilterView {
    /// Whether the filter restricts nothing.
    pub open spec fn is_unset(self) -> bool {
        self.order_status is None
    }

    /// Whether an order of the given status passes the filter.
    pub open spec fn admits(self, order_status: Seq<char>) -> bool {
        passes(self.order_status, order_status)
    }

    /// Whether the order passes the filter.
    pub open spec fn admits_order(self, order: OrderView) -> bool {
        self.admits(order.order_status)
    }
}

impl View for OrderFilter {
    type V = OrderFilterView;

    open spec fn view(&self) -> OrderFilterView {
        OrderFilterView { order_status: text_of(self.order_status) }
    }
}

impl Default for OrderFilter {
    fn default() -> (filter: Self)
        ensures
            filter@.is_unset(),
    {
        OrderFilter { order_status: None }
    }
}

impl Clone for OrderFilter {
    fn clone(&self) -> (copy: Self)
        ensures
            copy@ == self@,
    {
        OrderFilter { order_status: copy_text(&self.order_status) }
    }
}

impl OrderFilter {
    /// Whether an order of the given status passes the filter.
    pub fn matches(&self, order_status: &String) -> (pass: bool)
        ensures
            pass == self@.admits(order_status@),
    {
        field_passes(&self.order_status, order_status)
    }
}

/// A filter with no constraint set admits every record.
pub proof fn lemma_unset_filter_admits_all(
    filter: LocationFilterView,
    city: Seq<char>,
    state: Seq<char>,
)
    requires
        filter.is_unset(),
    ensures
        filter.admits(city, state),
{
}

/// An order filter with no constraint set admits every order.
pub proof fn lemma_unset_order_filter_admits_all(filter: OrderFilterView, order_status: Seq<char>)
    requires
        filter.is_unset(),
    ensures
        filter.admits(order_status),
{
}

/// The query of a list filtered by location: page, page size, city and
/// state, each as the request gave it.
#[derive(Debug, PartialEq, Eq)]
pub struct LocationSearchQuery {
    pub page: Option<u32>,
    pub page_size: Option<u32>,
    pub city: Option<String>,
    pub state: Option<String>,
}

impl LocationSearchQuery {
    /// The page and page size that the query asks for, as given.
    pub open spec fn requested(&self) -> PaginationParams {
        PaginationParams { page: self.page, page_size: self.page_size }
    }

    /// The page and page size that the query asks for, as given.
    pub fn pagination(&self) -> (params: PaginationParams)
        ensures
            params == self.requested(),
    {
        PaginationParams { page: self.page, page_size: self.page_size }
    }

    /// The filter that the query stands for. A field that is absent or blank
    /// is unset; any other field constrains by its exact text.
    pub fn filter(&self) -> (filter: LocationFilter)
        ensures
            filter@.city == constraint_of(self.city),
            filter@.state == constraint_of(self.state),
    {
        LocationFilter { city: usable(&self.city), state: usable(&self.state) }
    }
}

/// The query of the order list: page, page size and status, each as the
/// request gave it.
#[derive(Debug, PartialEq, Eq)]
pub struct OrderSearchQuery {
    pub page: Option<u32>,
    pub page_size: Option<u32>,
    pub order_status: Option<String>,
}

impl OrderSearchQuery {
    /// The page and page size that the query asks for, as given.
    pub open spec fn requested(&self) -> PaginationParams {
        PaginationParams { page: self.page, page_size: self.page_size }
    }

    /// The page and page size that the query asks for, as given.
    pub fn pagination(&self) -> (params: PaginationParams)
        ensures
            params == self.requested(),
    {
        PaginationParams { page: self.page, page_size: self.page_size }
    }

    /// The filter that the query stands for. A status that is absent or
    /// blank is unset; any other constrains by its exact text.
    pub fn filter(&self) -> (filter: OrderFilter)
        ensures
            filter@.order_status == constraint_of(self.order_status),
    {
        OrderFilter { order_status: usable(&self.order_status) }
    }
}

} // verus!
