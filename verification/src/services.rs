//! The services: validation and the rules of each operation, above a
//! repository.
//!
//! What a service returns depends on what the repository answers. The
//! functions `stored`, `found`, `removed` and `page_of` say what is made of
//! each answer. A method that calls the repository states its result
//! through the repository's own contract: there is an answer that this
//! contract admits for the call, which takes the repository from its state
//! before to its state after, and the result is what the outcome function
//! makes of that answer. Of a repository whose methods promise nothing this
//! leaves every answer open; of one whose methods say what they return, such
//! as the repository in memory, it says what the service returns.

use vstd::prelude::*;
use crate::error::{AppError, AppResult, StoreError};
use crate::filters::{
    constraint_of, LocationFilter, LocationSearchQuery, OrderFilter, OrderSearchQuery,
};
use crate::models::{
    CreateCustomerDto, CreateOrderDto, CreateSellerDto, Customer, Order, Seller, UpdateCustomerDto,
};
use crate::pagination::{
    effective_page, effective_page_size, total_pages_of, PaginatedResponse, PaginationMeta,
    PaginationParams,
};
use crate::repositories::{CustomerRepository, OrderRepository, SellerRepository};
use crate::validation::{
    customer_violations, order_violations, patch_violations, seller_violations,
};

verus! {

/// What a service makes of the store's answer to a creation: the stored row,
/// or the store's failure.
pub open spec fn stored_outcome<T>(answer: Result<T, StoreError>) -> AppResult<T> {
    match answer {
        Ok(row) => Ok(row),
        Err(error) => Err(AppError::DatabaseError(error)),
    }
}

/// What a service makes of the store's answer to a lookup or an update by
/// identity: the row, `NotFound` where the store has none, or the store's
/// failure.
pub open spec fn found_outcome<T>(answer: Result<Option<T>, StoreError>) -> AppResult<T> {
    match answer {
        Ok(Some(row)) => Ok(row),
        Ok(None) => Err(AppError::NotFound),
        Err(error) => Err(AppError::DatabaseError(error)),
    }
}

/// What a service makes of the store's answer to a removal: success where
/// at least one row was removed, `NotFound` where none was, or the store's
/// failure.
pub open spec fn removed_outcome(answer: Result<u64, StoreError>) -> AppResult<()> {
    match answer {
        Ok(rows) => if rows == 0 {
            Err(AppError::NotFound)
        } else {
            Ok(())
        },
        Err(error) => Err(AppError::DatabaseError(error)),
    }
}

/// What a service makes of the store's answer to a creation.
pub fn stored<T>(answer: Result<T, StoreError>) -> (res: AppResult<T>)
    ensures
        res == stored_outcome(answer),
{
    match answer {
        Ok(row) => Ok(row),
        Err(error) => Err(AppError::DatabaseError(error)),
    }
}

/// What a service makes of the store's answer to a lookup or an update by
/// identity.
pub fn found<T>(answer: Result<Option<T>, StoreError>) -> (res: AppResult<T>)
    ensures
        res == found_outcome(answer),
{
    match answer {
        Ok(Some(row)) => Ok(row),
        Ok(None) => Err(AppError::NotFound),
        Err(error) => Err(AppError::DatabaseError(error)),
    }
}

/// What a service makes of the store's answer to a removal.
pub fn removed(answer: Result<u64, StoreError>) -> (res: AppResult<()>)
    ensures
        res == removed_outcome(answer),
{
    match answer {
        Ok(rows) => {
            if rows == 0 {
                Err(AppError::NotFound)
            } else {
                Ok(())
            }
        },
        Err(error) => Err(AppError::DatabaseError(error)),
    }
}

/// The figures that accompany a page of `total_records` rows in all, asked
/// for with `pagination`.
pub open spec fn meta_of(total_records: i64, pagination: PaginationParams) -> PaginationMeta {
    PaginationMeta {
        total_records,
        page: effective_page(pagination.page) as u32,
        page_size: effective_page_size(pagination.page_size) as u32,
        total_pages: total_pages_of(
            total_records as int,
            effective_page_size(pagination.page_size),
        ) as u32,
    }
}

/// What a service makes of the store's answer to a list query: the rows as
/// the store gave them, with the page and page size that the request
/// normalizes to and the number of pages that the store's count fills; or
/// the store's failure.
pub open spec fn page_outcome<T>(
    answer: Result<(Vec<T>, i64), StoreError>,
    pagination: PaginationParams,
) -> AppResult<PaginatedResponse<T>> {
    match answer {
        Ok((rows, total_records)) => Ok(
            PaginatedResponse { data: rows, meta: meta_of(total_records, pagination) },
        ),
        Err(error) => Err(AppError::DatabaseError(error)),
    }
}

/// What a service makes of the store's answer to a list query.
pub fn page_of<T>(
    answer: Result<(Vec<T>, i64), StoreError>,
    pagination: &PaginationParams,
) -> (res: AppResult<PaginatedResponse<T>>)
    ensures
        res == page_outcome(answer, *pagination),
{
    match answer {
        Ok((rows, total_records)) => {
            let (_, _, page, page_size) = pagination.normalize();
            Ok(PaginatedResponse::new(rows, total_records, page, page_size))
        },
        Err(error) => Err(AppError::DatabaseError(error)),
    }
}

/// Whether a patch may be handed to the repository: every supplied field
/// keeps its rule, and at least one field is supplied. Fields that break
/// their rule are reported first; a patch that supplies nothing is refused
/// with `NoChangesToUpdate`.
pub fn check_patch(dto: &UpdateCustomerDto) -> (res: Result<(), AppError>)
    ensures
        res is Ok <==> dto.is_valid() && !dto@.is_empty(),
        !dto.is_valid() <==> res is Err && res->Err_0 is ValidationError,
        !dto.is_valid() ==> res->Err_0->ValidationError_0@ == patch_violations(dto@),
        dto@.is_empty() <==> res == Err::<(), AppError>(AppError::NoChangesToUpdate),
{
    match dto.validate() {
        Err(errors) => Err(AppError::ValidationError(errors)),
        Ok(()) => {
            if dto.is_empty() {
                Err(AppError::NoChangesToUpdate)
            } else {
                Ok(())
            }
        },
    }
}

/// The operations on customers.
#[derive(Clone)]
pub struct CustomerService<R: CustomerRepository> {
    pub repository: R,
}

impl<R: CustomerRepository> CustomerService<R> {
    /// A service above `repository`.
    pub fn new(repository: R) -> (service: Self)
        ensures
            service.repository == repository,
    {
        Self { repository }
    }

    /// Creates a customer. Data that break a field rule are refused with the
    /// report of all such fields, and the repository is not touched. Valid
    /// data are handed to the repository as they are, in one call: the result
    /// is the stored row, or the store's failure.
    pub fn create_customer(&mut self, dto: CreateCustomerDto) -> (res: AppResult<Customer>)
        ensures
            !dto.is_valid() ==> {
                &&& res is Err
                &&& res->Err_0 is ValidationError
                &&& res->Err_0->ValidationError_0@ == customer_violations(dto@)
                &&& final(self).repository == old(self).repository
            },
            dto.is_valid() ==> exists|repository: &mut R, answer: Result<Customer, StoreError>|
                {
                    &&& mut_ref_current(repository) == old(self).repository
                    &&& mut_ref_future(repository) == final(self).repository
                    &&& #[trigger] call_ensures(R::create, (repository, dto), answer)
                    &&& res == stored_outcome(answer)
                },
    {
        match dto.validate() {
            Err(errors) => Err(AppError::ValidationError(errors)),
            Ok(()) => stored(self.repository.create(dto)),
        }
    }

    /// The customer of that identity, by one lookup in the repository:
    /// `NotFound` where the store has none, else the store's row or the
    /// store's failure.
    pub fn get_customer_by_id(&self, id: &str) -> (res: AppResult<Customer>)
        ensures
            exists|answer: Result<Option<Customer>, StoreError>|
                {
                    &&& #[trigger] call_ensures(R::find_by_id, (&self.repository, id), answer)
                    &&& res == found_outcome(answer)
                },
    {
        found(self.repository.find_by_id(id))
    }

    /// Updates a customer. A patch with a field that breaks its rule is
    /// refused with the report of all such fields; a patch that supplies no
    /// field is refused with `NoChangesToUpdate`. In both cases the
    /// repository is not touched. Any other patch is handed to the
    /// repository as it is, in one call: the result is the updated row,
    /// `NotFound` where the store has no customer of that identity, or the
    /// store's failure.
    pub fn update_customer(&mut self, id: &str, dto: UpdateCustomerDto) -> (res: AppResult<
        Customer,
    >)
        ensures
            !dto.is_valid() ==> {
                &&& res is Err
                &&& res->Err_0 is ValidationError
                &&& res->Err_0->ValidationError_0@ == patch_violations(dto@)
                &&& final(self).repository == old(self).repository
            },
            dto@.is_empty() ==> {
                &&& res == Err::<Customer, AppError>(AppError::NoChangesToUpdate)
                &&& final(self).repository == old(self).repository
            },
            dto.is_valid() && !dto@.is_empty() ==> exists|
                repository: &mut R,
                answer: Result<Option<Customer>, StoreError>,
            |
                {
                    &&& mut_ref_current(repository) == old(self).repository
                    &&& mut_ref_future(repository) == final(self).repository
                    &&& #[trigger] call_ensures(R::update, (repository, id, dto), answer)
                    &&& res == found_outcome(answer)
                },
    {
        match check_patch(&dto) {
            Err(error) => Err(error),
            Ok(()) => found(self.repository.update(id, dto)),
        }
    }

    /// Removes a customer, by one call of the repository: `NotFound` where
    /// the store removed no row, since it has no customer of that identity;
    /// else success or the store's failure.
    pub fn delete_customer(&mut self, id: &str) -> (res: AppResult<()>)
        ensures
            exists|repository: &mut R, answer: Result<u64, StoreError>|
                {
                    &&& mut_ref_current(repository) == old(self).repository
                    &&& mut_ref_future(repository) == final(self).repository
                    &&& #[trigger] call_ensures(R::delete, (repository, id), answer)
                    &&& res == removed_outcome(answer)
                },
    {
        removed(self.repository.delete(id))
    }

    /// One page of the customers that pass the filter of the query, by one
    /// listing of the repository. A city or state that the query leaves
    /// absent or blank restricts nothing. The rows are the store's; the page
    /// and page size are those that the query normalizes to; the number of
    /// pages follows from the store's count.
    pub fn get_customers(&self, query: LocationSearchQuery) -> (res: AppResult<
        PaginatedResponse<Customer>,
    >)
        ensures
            exists|filter: LocationFilter, answer: Result<(Vec<Customer>, i64), StoreError>|
                {
                    &&& filter@.city == constraint_of(query.city)
                    &&& filter@.state == constraint_of(query.state)
                    &&& #[trigger] call_ensures(
                        R::find_all,
                        (&self.repository, &filter, &query.requested()),
                        answer,
                    )
                    &&& res == page_outcome(answer, query.requested())
                },
    {
        let pagination = query.pagination();
        let filter = query.filter();
        page_of(self.repository.find_all(&filter, &pagination), &pagination)
    }
}

/// The operations on sellers.
#[derive(Clone)]
pub struct SellerService<R: SellerRepository> {
    pub repository: R,
}

impl<R: SellerRepository> SellerService<R> {
    /// A service above `repository`.
    pub fn new(repository: R) -> (service: Self)
        ensures
            service.repository == repository,
    {
        Self { repository }
    }

    /// Creates a seller. Data that break a field rule are refused with the
    /// report of all such fields, and the repository is not touched. Valid
    /// data are handed to the repository as they are, in one call: the result
    /// is the stored row, or the store's failure.
    pub fn create_seller(&mut self, dto: CreateSellerDto) -> (res: AppResult<Seller>)
        ensures
            !dto.is_valid() ==> {
                &&& res is Err
                &&& res->Err_0 is ValidationError
                &&& res->Err_0->ValidationError_0@ == seller_violations(dto@)
                &&& final(self).repository == old(self).repository
            },
            dto.is_valid() ==> exists|repository: &mut R, answer: Result<Seller, StoreError>|
                {
                    &&& mut_ref_current(repository) == old(self).repository
                    &&& mut_ref_future(repository) == final(self).repository
                    &&& #[trigger] call_ensures(R::create, (repository, dto), answer)
                    &&& res == stored_outcome(answer)
                },
    {
        match dto.validate() {
            Err(errors) => Err(AppError::ValidationError(errors)),
            Ok(()) => stored(self.repository.create(dto)),
        }
    }

    /// The seller of that identity, by one lookup in the repository:
    /// `NotFound` where the store has none, else the store's row or the
    /// store's failure.
    pub fn get_seller_by_id(&self, id: &str) -> (res: AppResult<Seller>)
        ensures
            exists|answer: Result<Option<Seller>, StoreError>|
                {
                    &&& #[trigger] call_ensures(R::find_by_id, (&self.repository, id), answer)
                    &&& res == found_outcome(answer)
                },
    {
        found(self.repository.find_by_id(id))
    }

    /// One page of the sellers that pass the filter of the query, by one
    /// listing of the repository. A city or state that the query leaves
    /// absent or blank restricts nothing. The rows are the store's; the page
    /// and page size are those that the query normalizes to; the number of
    /// pages follows from the store's count.
    pub fn get_sellers(&self, query: LocationSearchQuery) -> (res: AppResult<
        PaginatedResponse<Seller>,
    >)
        ensures
            exists|filter: LocationFilter, answer: Result<(Vec<Seller>, i64), StoreError>|
                {
                    &&& filter@.city == constraint_of(query.city)
                    &&& filter@.state == constraint_of(query.state)
                    &&& #[trigger] call_ensures(
                        R::find_all,
                        (&self.repository, &filter, &query.requested()),
                        answer,
                    )
                    &&& res == page_outcome(answer, query.requested())
                },
    {
        let pagination = query.pagination();
        let filter = query.filter();
        page_of(self.repository.find_all(&filter, &pagination), &pagination)
    }
}

/// The operations on orders.
#[derive(Clone)]
pub struct OrderService<R: OrderRepository> {
    pub repository: R,
}

impl<R: OrderRepository> OrderService<R> {
    /// A service above `repository`.
    pub fn new(repository: R) -> (service: Self)
        ensures
            service.repository == repository,
    {
        Self { repository }
    }

    /// Creates an order. Data that break a field rule are refused with the
    /// report of all such fields, and the repository is not touched. Valid
    /// data are handed to the repository as they are, in one call: the result
    /// is the stored row, or the store's failure.
    pub fn create_order(&mut self, dto: CreateOrderDto) -> (res: AppResult<Order>)
        ensures
            !dto.is_valid() ==> {
                &&& res is Err
                &&& res->Err_0 is ValidationError
                &&& res->Err_0->ValidationError_0@ == order_violations(dto@)
                &&& final(self).repository == old(self).repository
            },
            dto.is_valid() ==> exists|repository: &mut R, answer: Result<Order, StoreError>|
                {
                    &&& mut_ref_current(repository) == old(self).repository
                    &&& mut_ref_future(repository) == final(self).repository
                    &&& #[trigger] call_ensures(R::create, (repository, dto), answer)
                    &&& res == stored_outcome(answer)
                },
    {
        match dto.validate() {
            Err(errors) => Err(AppError::ValidationError(errors)),
            Ok(()) => stored(self.repository.create(dto)),
        }
    }

    /// The order of that identity, by one lookup in the repository:
    /// `NotFound` where the store has none, else the store's row or the
    /// store's failure.
    pub fn get_order_by_id(&self, id: &str) -> (res: AppResult<Order>)
        ensures
            exists|answer: Result<Option<Order>, StoreError>|
                {
                    &&& #[trigger] call_ensures(R::find_by_id, (&self.repository, id), answer)
                    &&& res == found_outcome(answer)
                },
    {
        found(self.repository.find_by_id(id))
    }

    /// One page of the orders that pass the filter of the query, by one
    /// listing of the repository. A status that the query leaves absent or
    /// blank restricts nothing. The rows are the store's; the page and page
    /// size are those that the query normalizes to; the number of pages
    /// follows from the store's count.
    pub fn get_orders(&self, query: OrderSearchQuery) -> (res: AppResult<PaginatedResponse<Order>>)
        ensures
            exists|filter: OrderFilter, answer: Result<(Vec<Order>, i64), StoreError>|
                {
                    &&& filter@.order_status == constraint_of(query.order_status)
                    &&& #[trigger] call_ensures(
                        R::find_all,
                        (&self.repository, &filter, &query.requested()),
                        answer,
                    )
                    &&& res == page_outcome(answer, query.requested())
                },
    {
        let pagination = query.pagination();
        let filter = query.filter();
        page_of(self.repository.find_all(&filter, &pagination), &pagination)
    }

    /// One page of the orders of one customer, by one listing of the
    /// repository. The rows are the store's; the page and page size are
    /// those that `pagination` normalizes to; the number of pages follows
    /// from the store's count.
    pub fn get_orders_by_customer(&self, customer_id: &str, pagination: &PaginationParams) -> (res:
        AppResult<PaginatedResponse<Order>>)
        ensures
            exists|answer: Result<(Vec<Order>, i64), StoreError>|
                {
                    &&& #[trigger] call_ensures(
                        R::find_by_customer_id,
                        (&self.repository, customer_id, pagination),
                        answer,
                    )
                    &&& res == page_outcome(answer, *pagination)
                },
    {
        page_of(self.repository.find_by_customer_id(customer_id, pagination), pagination)
    }
}

} // verus!
