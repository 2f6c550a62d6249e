//! A customer repository that keeps its rows in memory, in the order in
//! which they were created. Its listing is in that order: the customer
//! created first comes first.
//!
//! It never fails but on a second customer of one identity, and on a count
//! that does not fit the type of a count.

use vstd::prelude::*;
use vstd::string::StringExecFns;
use crate::error::{AppError, AppResult, StoreError};
use crate::filters::{constraint_of, CustomerFilter, LocationFilterView, LocationSearchQuery};
use crate::models::{
    patched_customer, CreateCustomerDto, Customer, CustomerView, UpdateCustomerDto,
};
use crate::pagination::{
    effective_page_size, lemma_page_rows_len, lemma_window_bounds, page_rows, window_of,
    PaginatedResponse, PaginationParams,
};
use crate::repositories::CustomerRepository;
use crate::services::{page_outcome, CustomerService};

verus! {

/// The customers as values.
pub open spec fn views(rows: Seq<Customer>) -> Seq<CustomerView> {
    rows.map_values(|row: Customer| row@)
}

/// The position of the first customer of identity `id` among `rows`, or the
/// number of rows where there is none.
pub open spec fn index_of(rows: Seq<CustomerView>, id: Seq<char>) -> int
    decreases rows.len(),
{
    if rows.len() == 0 {
        0
    } else if rows.first().customer_id == id {
        0
    } else {
        1 + index_of(rows.drop_first(), id)
    }
}

/// Whether a customer of identity `id` is among `rows`.
pub open spec fn holds(rows: Seq<CustomerView>, id: Seq<char>) -> bool {
    index_of(rows, id) < rows.len()
}

/// Whether no two of `rows` share an identity.
pub open spec fn identities_differ(rows: Seq<CustomerView>) -> bool {
    forall|i: int, j: int|
        0 <= i < j < rows.len() ==> (#[trigger] rows[i]).customer_id != (
        #[trigger] rows[j]).customer_id
}

/// The test that a filter applies to a customer.
pub open spec fn admission(filter: LocationFilterView) -> spec_fn(CustomerView) -> bool {
    |row: CustomerView| filter.admits_customer(row)
}

/// The customers among `rows` that pass `filter`, in their order.
pub open spec fn admitted(rows: Seq<CustomerView>, filter: LocationFilterView) -> Seq<
    CustomerView,
> {
    rows.filter(admission(filter))
}

/// `index_of` is the position of the first customer of that identity: no
/// customer before it has the identity, and the one at it has, if there is
/// one.
pub proof fn lemma_index_of(rows: Seq<CustomerView>, id: Seq<char>)
    ensures
        0 <= index_of(rows, id) <= rows.len(),
        forall|i: int| 0 <= i < index_of(rows, id) ==> (#[trigger] rows[i]).customer_id != id,
        holds(rows, id) ==> rows[index_of(rows, id)].customer_id == id,
    decreases rows.len(),
{
    if rows.len() > 0 && rows.first().customer_id != id {
        let rest = rows.drop_first();
        lemma_index_of(rest, id);
        assert forall|i: int| 0 <= i < index_of(rows, id) implies (
        #[trigger] rows[i]).customer_id != id by {
            if i > 0 {
                assert(rows[i] == rest[i - 1]);
            }
        }
        if holds(rows, id) {
            assert(rows[index_of(rows, id)] == rest[index_of(rest, id)]);
        }
    }
}

/// A position at which the identity is found, with none before it, is
/// `index_of`.
pub proof fn lemma_index_of_is(rows: Seq<CustomerView>, id: Seq<char>, at: int)
    requires
        0 <= at <= rows.len(),
        forall|i: int| 0 <= i < at ==> (#[trigger] rows[i]).customer_id != id,
        at < rows.len() ==> rows[at].customer_id == id,
    ensures
        index_of(rows, id) == at,
{
    lemma_index_of(rows, id);
    let first = index_of(rows, id);
    if first < at {
        assert(rows[first].customer_id != id);
    }
}

/// A filter with no constraint set restricts nothing: the customers that
/// pass it are all the customers, so a listing under it is the listing of
/// all, window for window.
pub proof fn lemma_unset_filter_lists_all(
    rows: Seq<CustomerView>,
    filter: LocationFilterView,
    pagination: PaginationParams,
)
    requires
        filter.is_unset(),
    ensures
        admitted(rows, filter) == rows,
        page_rows(admitted(rows, filter), pagination) == page_rows(rows, pagination),
    decreases rows.len(),
{
    if rows.len() == 0 {
        reveal(Seq::filter);
    } else {
        lemma_unset_filter_lists_all(rows.drop_last(), filter, pagination);
        rows.drop_last().lemma_filter_push(rows.last(), admission(filter));
        assert(rows.drop_last().push(rows.last()) == rows);
    }
}

/// Two filters that constrain alike list alike.
pub proof fn lemma_unset_filters_agree(
    rows: Seq<CustomerView>,
    one: LocationFilterView,
    other: LocationFilterView,
    pagination: PaginationParams,
)
    requires
        one.is_unset(),
        other.is_unset(),
    ensures
        page_rows(admitted(rows, one), pagination) == page_rows(admitted(rows, other), pagination),
        admitted(rows, one).len() == admitted(rows, other).len(),
{
    lemma_unset_filter_lists_all(rows, one, pagination);
    lemma_unset_filter_lists_all(rows, other, pagination);
}

/// Customers kept in memory, in the order of their creation. No two of them
/// share an identity.
pub struct MemoryCustomerRepository {
    rows: Vec<Customer>,
}

impl View for MemoryCustomerRepository {
    type V = Seq<CustomerView>;

    closed spec fn view(&self) -> Seq<CustomerView> {
        views(self.rows@)
    }
}

impl MemoryCustomerRepository {
    /// Whether no two customers share an identity. It holds of a new
    /// repository, and every operation keeps it.
    pub open spec fn well_formed(&self) -> bool {
        identities_differ(self@)
    }

    /// A repository without customers.
    pub fn new() -> (repository: Self)
        ensures
            repository@ == Seq::<CustomerView>::empty(),
            repository.well_formed(),
    {
        let repository = MemoryCustomerRepository { rows: Vec::new() };
        assert(views(repository.rows@) =~= Seq::<CustomerView>::empty());
        repository
    }

    /// The number of customers.
    pub fn len(&self) -> (len: usize)
        ensures
            len == self@.len(),
    {
        self.rows.len()
    }

    /// The position of the customer of identity `id`, if there is one.
    fn position(&self, id: &str) -> (at: Option<usize>)
        ensures
            at is Some <==> holds(self@, id@),
            at is Some ==> at->0 == index_of(self@, id@),
            at is None ==> index_of(self@, id@) == self@.len(),
    {
        let wanted = id.to_owned();
        let mut at: usize = 0;
        while at < self.rows.len()
            invariant
                at <= self.rows.len(),
                wanted@ == id@,
                forall|i: int| 0 <= i < at ==> (#[trigger] self@[i]).customer_id != id@,
            decreases self.rows.len() - at,
        {
            if self.rows[at].customer_id == wanted {
                proof {
                    assert(self@[at as int] == self.rows@[at as int]@);
                    lemma_index_of_is(self@, id@, at as int);
                }
                return Some(at);
            }
            assert(self@[at as int] == self.rows@[at as int]@);
            at += 1;
        }
        proof {
            lemma_index_of_is(self@, id@, at as int);
        }
        None
    }
}

/// The failure of a creation that met a customer of the same identity.
fn duplicate_identity() -> (error: StoreError)
    ensures
        error.detail@ == "duplicate key value violates unique constraint"@,
{
    StoreError { detail: String::from_str("duplicate key value violates unique constraint") }
}

/// The failure of a listing whose count does not fit the type of a count.
fn count_out_of_range() -> (error: StoreError)
    ensures
        error.detail@ == "count out of range"@,
{
    StoreError { detail: String::from_str("count out of range") }
}

impl CustomerRepository for MemoryCustomerRepository {
    /// Adds the customer behind all others and returns it, unless a customer
    /// of the same identity exists: then it fails and nothing changes.
    fn create(&mut self, dto: CreateCustomerDto) -> (res: Result<Customer, StoreError>)
        ensures
            holds(old(self)@, dto@.customer_id) ==> {
                &&& res is Err
                &&& res->Err_0.detail@ == "duplicate key value violates unique constraint"@
                &&& final(self)@ == old(self)@
            },
            !holds(old(self)@, dto@.customer_id) ==> {
                &&& res is Ok
                &&& res->Ok_0@ == dto@
                &&& final(self)@ == old(self)@.push(dto@)
            },
            old(self).well_formed() ==> final(self).well_formed(),
    {
        match self.position(dto.customer_id.as_str()) {
            Some(_) => Err(duplicate_identity()),
            None => {
                let row = dto.into_customer();
                let copy = row.clone();
                let ghost before = self.rows@;
                self.rows.push(row);
                proof {
                    lemma_index_of(views(before), dto@.customer_id);
                    assert(views(self.rows@) =~= views(before).push(dto@));
                    if identities_differ(views(before)) {
                        assert forall|i: int, j: int|
                            0 <= i < j < views(self.rows@).len() implies (#[trigger] views(
                            self.rows@,
                        )[i]).customer_id != (#[trigger] views(self.rows@)[j]).customer_id by {
                            if j < before.len() {
                                assert(views(self.rows@)[i] == views(before)[i]);
                                assert(views(self.rows@)[j] == views(before)[j]);
                            } else {
                                assert(views(self.rows@)[i] == views(before)[i]);
                            }
                        }
                    }
                }
                Ok(copy)
            },
        }
    }

    /// The customers that pass `filter`, in the order of their creation, cut
    /// to the window that `pagination` normalizes to, and the number of all
    /// customers that pass the filter. It fails only where that number does
    /// not fit an `i64`.
    fn find_all(&self, filter: &CustomerFilter, pagination: &PaginationParams) -> (res: Result<
        (Vec<Customer>, i64),
        StoreError,
    >)
        ensures
            res is Ok <==> admitted(self@, filter@).len() <= i64::MAX,
            res is Err ==> res->Err_0.detail@ == "count out of range"@,
            res is Ok ==> {
                &&& res->Ok_0.1 == admitted(self@, filter@).len()
                &&& views(res->Ok_0.0@) == page_rows(admitted(self@, filter@), *pagination)
            },
    {
        let (limit, offset, _, _) = pagination.normalize();
        proof {
            lemma_window_bounds(pagination.page, pagination.page_size);
        }
        let first: u64 = offset as u64;
        let end: u64 = first + limit as u64;
        let mut items: Vec<Customer> = Vec::new();
        let mut seen: u64 = 0;
        let mut at: usize = 0;
        proof {
            reveal(Seq::filter);
            assert(self@.take(0) =~= Seq::<CustomerView>::empty());
            assert(views(items@) =~= window_of(
                admitted(self@.take(0), filter@),
                offset as int,
                limit as int,
            ));
        }
        while at < self.rows.len()
            invariant
                at <= self.rows.len(),
                first == offset,
                end == offset + limit,
                0 <= offset,
                1 <= limit,
                seen == admitted(self@.take(at as int), filter@).len(),
                seen <= at,
                views(items@) == window_of(
                    admitted(self@.take(at as int), filter@),
                    offset as int,
                    limit as int,
                ),
            decreases self.rows.len() - at,
        {
            let row = &self.rows[at];
            let ghost before = self@.take(at as int);
            let ghost passed = admitted(before, filter@);
            proof {
                assert(self@[at as int] == row@);
                assert(self@.take(at + 1) =~= before.push(row@));
                before.lemma_filter_push(row@, admission(filter@));
            }
            if filter.matches(&row.customer_city, &row.customer_state) {
                if first <= seen && seen < end {
                    let ghost held = items@;
                    items.push(row.clone());
                    proof {
                        assert(views(items@) =~= views(held).push(row@));
                        assert(views(items@) =~= window_of(
                            passed.push(row@),
                            offset as int,
                            limit as int,
                        ));
                    }
                } else {
                    proof {
                        assert(views(items@) =~= window_of(
                            passed.push(row@),
                            offset as int,
                            limit as int,
                        ));
                    }
                }
                seen = seen + 1;
            }
            at += 1;
        }
        proof {
            assert(self@.take(at as int) =~= self@);
        }
        if seen > i64::MAX as u64 {
            Err(count_out_of_range())
        } else {
            Ok((items, seen as i64))
        }
    }

    /// The customer of identity `id`, or `None` where there is none. It
    /// never fails.
    fn find_by_id(&self, id: &str) -> (res: Result<Option<Customer>, StoreError>)
        ensures
            res is Ok,
            res->Ok_0 is Some <==> holds(self@, id@),
            res->Ok_0 is Some ==> res->Ok_0->0@ == self@[index_of(self@, id@)],
    {
        match self.position(id) {
            Some(at) => {
                let copy = self.rows[at].clone();
                assert(self@[at as int] == self.rows@[at as int]@);
                Ok(Some(copy))
            },
            None => Ok(None),
        }
    }

    /// Replaces the fields that `dto` supplies in the customer of identity
    /// `id` and returns the customer as it then is; every other field, and
    /// every other customer, stays as it is. Where there is no such customer
    /// it returns `None` and changes nothing. It never fails.
    fn update(&mut self, id: &str, dto: UpdateCustomerDto) -> (res: Result<
        Option<Customer>,
        StoreError,
    >)
        ensures
            res is Ok,
            res->Ok_0 is Some <==> holds(old(self)@, id@),
            res->Ok_0 is None ==> final(self)@ == old(self)@,
            res->Ok_0 is Some ==> {
                let at = index_of(old(self)@, id@);
                &&& res->Ok_0->0@ == patched_customer(old(self)@[at], dto@)
                &&& final(self)@ == old(self)@.update(at, res->Ok_0->0@)
            },
            old(self).well_formed() ==> final(self).well_formed(),
    {
        match self.position(id) {
            None => Ok(None),
            Some(at) => {
                let ghost before = self.rows@;
                let merged = dto.apply_to(&self.rows[at]);
                let copy = merged.clone();
                self.rows[at] = merged;
                proof {
                    assert(views(before)[at as int] == before[at as int]@);
                    assert(views(self.rows@) =~= views(before).update(at as int, copy@));
                    if identities_differ(views(before)) {
                        assert forall|i: int, j: int|
                            0 <= i < j < views(self.rows@).len() implies (#[trigger] views(
                            self.rows@,
                        )[i]).customer_id != (#[trigger] views(self.rows@)[j]).customer_id by {
                            assert(views(self.rows@)[i].customer_id == views(
                                before,
                            )[i].customer_id);
                            assert(views(self.rows@)[j].customer_id == views(
                                before,
                            )[j].customer_id);
                        }
                    }
                }
                Ok(Some(copy))
            },
        }
    }

    /// Removes the customer of identity `id` and returns 1, or returns 0
    /// where there is none and changes nothing. It never fails.
    fn delete(&mut self, id: &str) -> (res: Result<u64, StoreError>)
        ensures
            res is Ok,
            holds(old(self)@, id@) ==> res->Ok_0 == 1 && final(self)@ == old(self)@.remove(
                index_of(old(self)@, id@),
            ),
            !holds(old(self)@, id@) ==> res->Ok_0 == 0 && final(self)@ == old(self)@,
            old(self).well_formed() ==> final(self).well_formed() && !holds(final(self)@, id@),
    {
        match self.position(id) {
            None => Ok(0),
            Some(at) => {
                let ghost before = self.rows@;
                self.rows.remove(at);
                proof {
                    let after = views(self.rows@);
                    assert(after =~= views(before).remove(at as int));
                }
                proof {
                    let after = views(self.rows@);
                    if identities_differ(views(before)) {
                    assert forall|i: int, j: int| 0 <= i < j < after.len() implies (
                    #[trigger] after[i]).customer_id != (#[trigger] after[j]).customer_id by {
                        let from_i = if i < at { i } else { i + 1 };
                        let from_j = if j < at { j } else { j + 1 };
                        assert(after[i] == views(before)[from_i]);
                        assert(after[j] == views(before)[from_j]);
                    }
                    lemma_index_of(views(before), id@);
                    assert forall|i: int| 0 <= i < after.len() implies (
                    #[trigger] after[i]).customer_id != id@ by {
                        let from_i = if i < at { i } else { i + 1 };
                        assert(after[i] == views(before)[from_i]);
                        if from_i < at {
                        } else {
                            assert(views(before)[at as int].customer_id != views(
                                before,
                            )[from_i].customer_id);
                        }
                    }
                    lemma_index_of_is(after, id@, after.len() as int);
                    }
                }
                Ok(1)
            },
        }
    }
}

/// Removing, through the service, a customer that the repository does not
/// hold is answered with `NotFound`, and the repository stays as it is. So
/// is the removal of an identity that was never created, and every removal
/// that follows a removal of the same identity.
pub proof fn lemma_delete_of_unknown_is_not_found(
    before: CustomerService<MemoryCustomerRepository>,
    after: CustomerService<MemoryCustomerRepository>,
    id: &str,
    res: AppResult<()>,
)
    requires
        !holds(before.repository@, id@),
        exists|service: &mut CustomerService<MemoryCustomerRepository>|
            {
                &&& mut_ref_current(service) == before
                &&& mut_ref_future(service) == after
                &&& #[trigger] call_ensures(
                    CustomerService::<MemoryCustomerRepository>::delete_customer,
                    (service, id),
                    res,
                )
            },
    ensures
        res == Err::<(), AppError>(AppError::NotFound),
        after.repository@ == before.repository@,
{
}

/// A customer that is put behind rows that do not hold its identity is found
/// at the end, and every identity that was held before is found where it
/// was.
pub proof fn lemma_index_of_push(rows: Seq<CustomerView>, row: CustomerView, id: Seq<char>)
    ensures
        holds(rows, id) ==> index_of(rows.push(row), id) == index_of(rows, id),
        !holds(rows, id) && row.customer_id == id ==> index_of(rows.push(row), id) == rows.len(),
        !holds(rows, id) && row.customer_id != id ==> !holds(rows.push(row), id),
{
    lemma_index_of(rows, id);
    let longer = rows.push(row);
    let at = index_of(rows, id);
    assert forall|i: int| 0 <= i < at implies (#[trigger] longer[i]).customer_id != id by {
        assert(longer[i] == rows[i]);
    }
    if holds(rows, id) {
        assert(longer[at] == rows[at]);
        lemma_index_of_is(longer, id, at);
    } else if row.customer_id == id {
        lemma_index_of_is(longer, id, at);
    } else {
        assert forall|i: int| 0 <= i < longer.len() implies (#[trigger] longer[i]).customer_id
            != id by {
            if i < rows.len() {
                assert(longer[i] == rows[i]);
            }
        }
        lemma_index_of_is(longer, id, longer.len() as int);
    }
}

/// A listing, through the service, under a query that sets neither city nor
/// state is the listing of all customers: the rows are the page of all rows
/// that the query asks for, and the count is the number of all rows.
pub proof fn lemma_unfiltered_listing_is_of_all(
    service: CustomerService<MemoryCustomerRepository>,
    query: LocationSearchQuery,
    res: AppResult<PaginatedResponse<Customer>>,
)
    requires
        constraint_of(query.city) is None,
        constraint_of(query.state) is None,
        service.repository@.len() <= i64::MAX,
        call_ensures(
            CustomerService::<MemoryCustomerRepository>::get_customers,
            (&service, query),
            res,
        ),
    ensures
        res is Ok,
        views(res->Ok_0.data@) == page_rows(service.repository@, query.requested()),
        res->Ok_0.meta.total_records == service.repository@.len(),
        res->Ok_0.data@.len() <= effective_page_size(query.page_size),
{
    let filter = choose|filter: CustomerFilter|
        {
            &&& filter@.city == constraint_of(query.city)
            &&& filter@.state == constraint_of(query.state)
            &&& exists|answer: Result<(Vec<Customer>, i64), StoreError>|
                {
                    &&& #[trigger] call_ensures(
                        MemoryCustomerRepository::find_all,
                        (&service.repository, &filter, &query.requested()),
                        answer,
                    )
                    &&& res == page_outcome(answer, query.requested())
                }
        };
    lemma_unset_filter_lists_all(service.repository@, filter@, query.requested());
    lemma_page_rows_len(service.repository@, query.requested());
    assert(views(res->Ok_0.data@).len() == res->Ok_0.data@.len());
}

/// An update, through the service, of a customer that the repository holds,
/// with a valid patch that supplies at least one field, returns the customer
/// with the supplied fields replaced and every other field as it was, the
/// identity among them. In the repository that customer is replaced by the
/// returned one, and no other customer changes.
pub proof fn lemma_update_replaces_what_is_supplied(
    before: CustomerService<MemoryCustomerRepository>,
    after: CustomerService<MemoryCustomerRepository>,
    id: &str,
    dto: UpdateCustomerDto,
    res: AppResult<Customer>,
)
    requires
        holds(before.repository@, id@),
        dto.is_valid(),
        !dto@.is_empty(),
        exists|service: &mut CustomerService<MemoryCustomerRepository>|
            {
                &&& mut_ref_current(service) == before
                &&& mut_ref_future(service) == after
                &&& #[trigger] call_ensures(
                    CustomerService::<MemoryCustomerRepository>::update_customer,
                    (service, id, dto),
                    res,
                )
            },
    ensures
        res is Ok,
        res->Ok_0@ == patched_customer(
            before.repository@[index_of(before.repository@, id@)],
            dto@,
        ),
        res->Ok_0@.customer_id == id@,
        after.repository@ == before.repository@.update(
            index_of(before.repository@, id@),
            res->Ok_0@,
        ),
{
    lemma_index_of(before.repository@, id@);
}

/// A customer that was created, through the service, from valid data of an
/// identity that the repository did not hold is returned as the data
/// describe it, stands behind all other customers, and is from then on found
/// under its identity.
pub proof fn lemma_created_customer_is_held(
    before: CustomerService<MemoryCustomerRepository>,
    after: CustomerService<MemoryCustomerRepository>,
    dto: CreateCustomerDto,
    res: AppResult<Customer>,
)
    requires
        dto.is_valid(),
        !holds(before.repository@, dto@.customer_id),
        exists|service: &mut CustomerService<MemoryCustomerRepository>|
            {
                &&& mut_ref_current(service) == before
                &&& mut_ref_future(service) == after
                &&& #[trigger] call_ensures(
                    CustomerService::<MemoryCustomerRepository>::create_customer,
                    (service, dto),
                    res,
                )
            },
    ensures
        res is Ok,
        res->Ok_0@ == dto@,
        after.repository@ == before.repository@.push(dto@),
        holds(after.repository@, dto@.customer_id),
        after.repository@[index_of(after.repository@, dto@.customer_id)] == dto@,
{
    lemma_index_of_push(before.repository@, dto@, dto@.customer_id);
}

/// A lookup, through the service, of an identity that the repository holds
/// returns the customer of that identity as the repository holds it; of any
/// other identity it is answered with `NotFound`.
pub proof fn lemma_lookup_finds_what_is_held(
    service: CustomerService<MemoryCustomerRepository>,
    id: &str,
    res: AppResult<Customer>,
)
    requires
        call_ensures(
            CustomerService::<MemoryCustomerRepository>::get_customer_by_id,
            (&service, id),
            res,
        ),
    ensures
        holds(service.repository@, id@) ==> res is Ok && res->Ok_0@ == service.repository@[index_of(
            service.repository@,
            id@,
        )] && res->Ok_0@.customer_id == id@,
        !holds(service.repository@, id@) ==> res == Err::<Customer, AppError>(AppError::NotFound),
{
    lemma_index_of(service.repository@, id@);
}

} // verus!
