//! The interface between the services and the store, one trait for each
//! record type. An adapter implements it against a store of its choice; the
//! services know the store only through it.
//!
//! No method promises anything of its result: whether a call succeeds, and
//! what it finds, is for the store to decide. A method that may change the
//! store takes the repository by `&mut`, one that only reads takes it by `&`.
//! A failure of the store comes back as it is, never as an absent record.

use vstd::prelude::*;
use crate::error::StoreError;
use crate::filters::{CustomerFilter, OrderFilter, SellerFilter};
use crate::models::{
    CreateCustomerDto, CreateOrderDto, CreateSellerDto, Customer, Order, Seller, UpdateCustomerDto,
};
use crate::pagination::PaginationParams;

verus! {

/// Customers in a store.
pub trait CustomerRepository {
    /// Stores a new customer and returns the row as stored. It is handed
    /// only data that keep every field rule.
    fn create(&mut self, dto: CreateCustomerDto) -> (res: Result<Customer, StoreError>)
        requires
            dto.is_valid(),
    ;

    /// The customers that pass `filter`, in the window that `pagination`
    /// normalizes to, together with the number of all customers that pass
    /// the filter. A constraint that is unset restricts nothing.
    fn find_all(&self, filter: &CustomerFilter, pagination: &PaginationParams) -> (res: Result<
        (Vec<Customer>, i64),
        StoreError,
    >);

    /// The customer of that identity, or `None` where there is none.
    fn find_by_id(&self, id: &str) -> (res: Result<Option<Customer>, StoreError>);

    /// Replaces the fields that `dto` supplies in the customer of that
    /// identity, leaves the others as they are, and returns the row as
    /// stored, or `None` where no customer has that identity.
    fn update(&mut self, id: &str, dto: UpdateCustomerDto) -> (res: Result<
        Option<Customer>,
        StoreError,
    >);

    /// Removes the customer of that identity and returns the number of rows
    /// removed: 0 where no customer has that identity.
    fn delete(&mut self, id: &str) -> (res: Result<u64, StoreError>);
}

/// Sellers in a store.
pub trait SellerRepository {
    /// Stores a new seller and returns the row as stored. It is handed only
    /// data that keep every field rule.
    fn create(&mut self, dto: CreateSellerDto) -> (res: Result<Seller, StoreError>)
        requires
            dto.is_valid(),
    ;

    /// The sellers that pass `filter`, in the window that `pagination`
    /// normalizes to, together with the number of all sellers that pass the
    /// filter.
    fn find_all(&self, filter: &SellerFilter, pagination: &PaginationParams) -> (res: Result<
        (Vec<Seller>, i64),
        StoreError,
    >);

    /// The seller of that identity, or `None` where there is none.
    fn find_by_id(&self, id: &str) -> (res: Result<Option<Seller>, StoreError>);
}

/// Orders in a store.
pub trait OrderRepository {
    /// Stores a new order and returns the row as stored. It is handed only
    /// data that keep every field rule. Whether the customer exists is for
    /// the store to say.
    fn create(&mut self, dto: CreateOrderDto) -> (res: Result<Order, StoreError>)
        requires
            dto.is_valid(),
    ;

    /// The orders that pass `filter`, in the window that `pagination`
    /// normalizes to, together with the number of all orders that pass the
    /// filter.
    fn find_all(&self, filter: &OrderFilter, pagination: &PaginationParams) -> (res: Result<
        (Vec<Order>, i64),
        StoreError,
    >);

    /// The order of that identity, or `None` where there is none.
    fn find_by_id(&self, id: &str) -> (res: Result<Option<Order>, StoreError>);

    /// The orders of one customer, in the window that `pagination`
    /// normalizes to, together with the number of all orders of that
    /// customer.
    fn find_by_customer_id(&self, customer_id: &str, pagination: &PaginationParams) -> (res:
        Result<(Vec<Order>, i64), StoreError>);
}

} // verus!
