use paged_resources::error::{AppError, StoreError};
use paged_resources::filters::{
    CustomerFilter, LocationFilter, LocationSearchQuery, OrderFilter, OrderSearchQuery,
    SellerFilter,
};
use paged_resources::models::{
    CreateCustomerDto, CreateOrderDto, CreateSellerDto, Customer, Order, Seller,
    UpdateCustomerDto,
};
use paged_resources::pagination::{PaginatedResponse, PaginationMeta, PaginationParams};
use paged_resources::repositories::{CustomerRepository, OrderRepository, SellerRepository};
use paged_resources::services::{
    check_patch, found, page_of, removed, stored, CustomerService, OrderService, SellerService,
};
use paged_resources::validation::{Field, ValidationErrors};

fn text(s: &str) -> String {
    s.to_string()
}

fn failure() -> StoreError {
    StoreError { detail: text("pool timed out") }
}

fn customer(id: &str) -> Customer {
    Customer {
        customer_id: text(id),
        customer_unique_id: text("u"),
        customer_zip_code_prefix: text("01310"),
        customer_city: text("sao paulo"),
        customer_state: text("SP"),
    }
}

fn customer_data(id: &str, state: &str) -> CreateCustomerDto {
    CreateCustomerDto {
        customer_id: text(id),
        customer_unique_id: text("u"),
        customer_zip_code_prefix: text("01310"),
        customer_city: text("sao paulo"),
        customer_state: text(state),
    }
}

/// A repository that counts the calls it gets and answers as it was told to.
struct Scripted {
    calls: usize,
    fail: bool,
    row: Option<Customer>,
    rows_affected: u64,
    listing: (Vec<Customer>, i64),
    last_filter: Option<CustomerFilter>,
    last_pagination: Option<PaginationParams>,
    last_patch: Option<UpdateCustomerDto>,
}

fn scripted() -> Scripted {
    Scripted {
        calls: 0,
        fail: false,
        row: None,
        rows_affected: 0,
        listing: (Vec::new(), 0),
        last_filter: None,
        last_pagination: None,
        last_patch: None,
    }
}

impl CustomerRepository for Scripted {
    fn create(&mut self, dto: CreateCustomerDto) -> Result<Customer, StoreError> {
        self.calls += 1;
        if self.fail {
            return Err(failure());
        }
        Ok(dto.into_customer())
    }

    fn find_all(
        &self,
        _filter: &CustomerFilter,
        _pagination: &PaginationParams,
    ) -> Result<(Vec<Customer>, i64), StoreError> {
        if self.fail {
            return Err(failure());
        }
        Ok((self.listing.0.clone(), self.listing.1))
    }

    fn find_by_id(&self, _id: &str) -> Result<Option<Customer>, StoreError> {
        if self.fail {
            return Err(failure());
        }
        Ok(self.row.clone())
    }

    fn update(&mut self, _id: &str, dto: UpdateCustomerDto) -> Result<Option<Customer>, StoreError> {
        self.calls += 1;
        self.last_patch = Some(dto);
        if self.fail {
            return Err(failure());
        }
        Ok(self.row.clone())
    }

    fn delete(&mut self, _id: &str) -> Result<u64, StoreError> {
        self.calls += 1;
        if self.fail {
            return Err(failure());
        }
        Ok(self.rows_affected)
    }
}

#[test]
fn update_with_empty_patch_makes_no_repository_call() {
    let mut service = CustomerService::new(scripted());
    service.repository.row = Some(customer("c1"));
    let result = service.update_customer("c1", UpdateCustomerDto::default());
    assert_eq!(result, Err(AppError::NoChangesToUpdate));
    assert_eq!(service.repository.calls, 0);
    assert_eq!(service.repository.last_patch, None);
}

#[test]
fn update_with_invalid_patch_makes_no_repository_call() {
    let mut service = CustomerService::new(scripted());
    service.repository.row = Some(customer("c1"));
    let patch = UpdateCustomerDto {
        customer_unique_id: None,
        customer_zip_code_prefix: None,
        customer_city: Some(String::new()),
        customer_state: Some(text("SPX")),
    };
    let result = service.update_customer("c1", patch);
    assert_eq!(
        result,
        Err(AppError::ValidationError(ValidationErrors {
            fields: vec![Field::CustomerCity, Field::CustomerState],
        }))
    );
    assert_eq!(service.repository.calls, 0);
}

#[test]
fn update_hands_the_patch_to_the_repository() {
    let mut service = CustomerService::new(scripted());
    service.repository.row = Some(customer("c1"));
    let patch = UpdateCustomerDto {
        customer_unique_id: None,
        customer_zip_code_prefix: None,
        customer_city: Some(text("X")),
        customer_state: None,
    };
    let result = service.update_customer("c1", patch);
    assert_eq!(result, Ok(customer("c1")));
    assert_eq!(service.repository.calls, 1);
    assert_eq!(
        service.repository.last_patch,
        Some(UpdateCustomerDto {
            customer_unique_id: None,
            customer_zip_code_prefix: None,
            customer_city: Some(text("X")),
            customer_state: None,
        })
    );
}

#[test]
fn update_of_missing_customer_is_not_found() {
    let mut service = CustomerService::new(scripted());
    let patch = UpdateCustomerDto {
        customer_unique_id: Some(text("u2")),
        customer_zip_code_prefix: None,
        customer_city: None,
        customer_state: None,
    };
    assert_eq!(service.update_customer("nobody", patch), Err(AppError::NotFound));
    assert_eq!(service.repository.calls, 1);
}

#[test]
fn update_passes_store_failure_on() {
    let mut service = CustomerService::new(scripted());
    service.repository.fail = true;
    let patch = UpdateCustomerDto {
        customer_unique_id: Some(text("u2")),
        customer_zip_code_prefix: None,
        customer_city: None,
        customer_state: None,
    };
    assert_eq!(service.update_customer("c1", patch), Err(AppError::DatabaseError(failure())));
}

#[test]
fn delete_of_missing_customer_is_not_found() {
    let mut service = CustomerService::new(scripted());
    assert_eq!(service.delete_customer("never-created"), Err(AppError::NotFound));
    assert_eq!(service.repository.calls, 1);
}

#[test]
fn delete_of_existing_customer_succeeds() {
    let mut service = CustomerService::new(scripted());
    service.repository.rows_affected = 1;
    assert_eq!(service.delete_customer("c1"), Ok(()));
    service.repository.fail = true;
    assert_eq!(service.delete_customer("c1"), Err(AppError::DatabaseError(failure())));
}

#[test]
fn create_with_three_character_state_is_refused_before_the_repository() {
    let mut service = CustomerService::new(scripted());
    let result = service.create_customer(customer_data("c1", "SPX"));
    match result {
        Err(AppError::ValidationError(errors)) => {
            assert!(errors.mentions(Field::CustomerState));
            assert_eq!(errors.fields, vec![Field::CustomerState]);
        }
        other => panic!("unexpected {:?}", other),
    }
    assert_eq!(service.repository.calls, 0);
    let message = service.create_customer(customer_data("c1", "SPX")).unwrap_err().message();
    assert!(message.contains("customer_state"));
}

#[test]
fn create_returns_the_stored_row() {
    let mut service = CustomerService::new(scripted());
    assert_eq!(service.create_customer(customer_data("c1", "SP")), Ok(customer("c1")));
    assert_eq!(service.repository.calls, 1);
    service.repository.fail = true;
    assert_eq!(
        service.create_customer(customer_data("c2", "SP")),
        Err(AppError::DatabaseError(failure()))
    );
}

#[test]
fn get_by_id_turns_absence_into_not_found() {
    let mut service = CustomerService::new(scripted());
    assert_eq!(service.get_customer_by_id("c1"), Err(AppError::NotFound));
    service.repository.row = Some(customer("c1"));
    assert_eq!(service.get_customer_by_id("c1"), Ok(customer("c1")));
    service.repository.fail = true;
    assert_eq!(service.get_customer_by_id("c1"), Err(AppError::DatabaseError(failure())));
}

#[test]
fn list_wraps_rows_with_normalized_figures() {
    let mut service = CustomerService::new(scripted());
    service.repository.listing = (vec![customer("c6"), customer("c7")], 12);
    let query = LocationSearchQuery { page: Some(2), page_size: Some(5), city: None, state: None };
    let response = service.get_customers(query).unwrap();
    assert_eq!(response.data, vec![customer("c6"), customer("c7")]);
    assert_eq!(
        response.meta,
        PaginationMeta { total_records: 12, page: 2, page_size: 5, total_pages: 3 }
    );
    let query = LocationSearchQuery { page: Some(0), page_size: Some(1000), city: None, state: None };
    let response = service.get_customers(query).unwrap();
    assert_eq!(
        response.meta,
        PaginationMeta { total_records: 12, page: 1, page_size: 100, total_pages: 1 }
    );
    service.repository.fail = true;
    let query = LocationSearchQuery { page: None, page_size: None, city: None, state: None };
    assert_eq!(service.get_customers(query), Err(AppError::DatabaseError(failure())));
}

#[test]
fn outcome_of_a_creation() {
    assert_eq!(stored(Ok(7)), Ok(7));
    assert_eq!(stored::<u8>(Err(failure())), Err(AppError::DatabaseError(failure())));
}

#[test]
fn outcome_of_a_lookup() {
    assert_eq!(found(Ok(Some(7))), Ok(7));
    assert_eq!(found::<u8>(Ok(None)), Err(AppError::NotFound));
    assert_eq!(found::<u8>(Err(failure())), Err(AppError::DatabaseError(failure())));
}

#[test]
fn outcome_of_a_removal() {
    assert_eq!(removed(Ok(0)), Err(AppError::NotFound));
    assert_eq!(removed(Ok(1)), Ok(()));
    assert_eq!(removed(Ok(u64::MAX)), Ok(()));
    assert_eq!(removed(Err(failure())), Err(AppError::DatabaseError(failure())));
}

#[test]
fn outcome_of_a_listing() {
    let pagination = PaginationParams { page: Some(3), page_size: Some(20) };
    assert_eq!(
        page_of(Ok((vec![1, 2], 101)), &pagination),
        Ok(PaginatedResponse {
            data: vec![1, 2],
            meta: PaginationMeta { total_records: 101, page: 3, page_size: 20, total_pages: 6 },
        })
    );
    let defaults = PaginationParams { page: None, page_size: None };
    assert_eq!(
        page_of(Ok((Vec::<u8>::new(), 0)), &defaults),
        Ok(PaginatedResponse {
            data: Vec::new(),
            meta: PaginationMeta { total_records: 0, page: 1, page_size: 10, total_pages: 1 },
        })
    );
    assert_eq!(
        page_of::<u8>(Err(failure()), &defaults),
        Err(AppError::DatabaseError(failure()))
    );
}

#[test]
fn patch_check_order_of_refusals() {
    assert_eq!(check_patch(&UpdateCustomerDto::default()), Err(AppError::NoChangesToUpdate));
    let invalid = UpdateCustomerDto {
        customer_unique_id: None,
        customer_zip_code_prefix: Some(text("1")),
        customer_city: None,
        customer_state: None,
    };
    assert_eq!(
        check_patch(&invalid),
        Err(AppError::ValidationError(ValidationErrors {
            fields: vec![Field::CustomerZipCodePrefix],
        }))
    );
    let valid = UpdateCustomerDto {
        customer_unique_id: None,
        customer_zip_code_prefix: Some(text("12345")),
        customer_city: None,
        customer_state: None,
    };
    assert_eq!(check_patch(&valid), Ok(()));
}

struct Sellers {
    calls: usize,
    rows: Vec<Seller>,
    seen_filter: std::cell::RefCell<Option<SellerFilter>>,
}

impl SellerRepository for Sellers {
    fn create(&mut self, dto: CreateSellerDto) -> Result<Seller, StoreError> {
        self.calls += 1;
        let seller = dto.into_seller();
        self.rows.push(seller.clone());
        Ok(seller)
    }

    fn find_all(
        &self,
        filter: &SellerFilter,
        _pagination: &PaginationParams,
    ) -> Result<(Vec<Seller>, i64), StoreError> {
        *self.seen_filter.borrow_mut() = Some(filter.clone());
        Ok((self.rows.clone(), self.rows.len() as i64))
    }

    fn find_by_id(&self, id: &str) -> Result<Option<Seller>, StoreError> {
        Ok(self.rows.iter().find(|s| s.seller_id == id).cloned())
    }
}

fn seller_data(id: &str, state: &str) -> CreateSellerDto {
    CreateSellerDto {
        seller_id: text(id),
        seller_zip_code_prefix: text("13023"),
        seller_city: text("campinas"),
        seller_state: text(state),
    }
}

#[test]
fn seller_service_operations() {
    let repository = Sellers { calls: 0, rows: Vec::new(), seen_filter: std::cell::RefCell::new(None) };
    let mut service = SellerService::new(repository);
    assert_eq!(
        service.create_seller(seller_data("s1", "S")),
        Err(AppError::ValidationError(ValidationErrors { fields: vec![Field::SellerState] }))
    );
    assert_eq!(service.repository.calls, 0);
    let created = service.create_seller(seller_data("s1", "SP")).unwrap();
    assert_eq!(created, seller_data("s1", "SP").into_seller());
    assert_eq!(service.repository.calls, 1);
    assert_eq!(service.get_seller_by_id("s1"), Ok(created.clone()));
    assert_eq!(service.get_seller_by_id("s2"), Err(AppError::NotFound));
    let query = LocationSearchQuery {
        page: None,
        page_size: None,
        city: Some(String::new()),
        state: Some(text("SP")),
    };
    let response = service.get_sellers(query).unwrap();
    assert_eq!(response.data, vec![created]);
    assert_eq!(
        response.meta,
        PaginationMeta { total_records: 1, page: 1, page_size: 10, total_pages: 1 }
    );
    assert_eq!(
        *service.repository.seen_filter.borrow(),
        Some(LocationFilter { city: None, state: Some(text("SP")) })
    );
}

struct Orders {
    calls: usize,
    rows: Vec<Order>,
    seen_filter: std::cell::RefCell<Option<OrderFilter>>,
}

impl OrderRepository for Orders {
    fn create(&mut self, dto: CreateOrderDto) -> Result<Order, StoreError> {
        self.calls += 1;
        let order = dto.into_order();
        self.rows.push(order.clone());
        Ok(order)
    }

    fn find_all(
        &self,
        filter: &OrderFilter,
        _pagination: &PaginationParams,
    ) -> Result<(Vec<Order>, i64), StoreError> {
        *self.seen_filter.borrow_mut() = Some(filter.clone());
        Ok((self.rows.clone(), self.rows.len() as i64))
    }

    fn find_by_id(&self, id: &str) -> Result<Option<Order>, StoreError> {
        Ok(self.rows.iter().find(|o| o.order_id == id).cloned())
    }

    fn find_by_customer_id(
        &self,
        customer_id: &str,
        _pagination: &PaginationParams,
    ) -> Result<(Vec<Order>, i64), StoreError> {
        let rows: Vec<Order> =
            self.rows.iter().filter(|o| o.customer_id == customer_id).cloned().collect();
        let count = rows.len() as i64;
        Ok((rows, count))
    }
}

fn moment(day: u32) -> chrono::NaiveDateTime {
    chrono::NaiveDate::from_ymd_opt(2018, 3, day).unwrap().and_hms_opt(8, 0, 0).unwrap()
}

fn order_data(id: &str, customer_id: &str, status: &str) -> CreateOrderDto {
    CreateOrderDto {
        order_id: text(id),
        customer_id: text(customer_id),
        order_status: text(status),
        order_purchase_timestamp: moment(1),
        order_approved_at: moment(2),
        order_delivered_carrier_date: Some(moment(3)),
        order_delivered_customer_date: None,
        order_estimated_delivery_date: moment(15),
    }
}

#[test]
fn order_service_operations() {
    let repository = Orders { calls: 0, rows: Vec::new(), seen_filter: std::cell::RefCell::new(None) };
    let mut service = OrderService::new(repository);
    assert_eq!(
        service.create_order(order_data("o1", "c1", "")),
        Err(AppError::ValidationError(ValidationErrors { fields: vec![Field::OrderStatus] }))
    );
    assert_eq!(service.repository.calls, 0);
    let first = service.create_order(order_data("o1", "c1", "delivered")).unwrap();
    let second = service.create_order(order_data("o2", "c2", "shipped")).unwrap();
    let third = service.create_order(order_data("o3", "c1", "shipped")).unwrap();
    assert_eq!(first.order_purchase_timestamp, moment(1));
    assert_eq!(first.order_delivered_carrier_date, Some(moment(3)));
    assert_eq!(first.order_delivered_customer_date, None);
    assert_eq!(first.clone(), first);
    assert_eq!(service.get_order_by_id("o2"), Ok(second.clone()));
    assert_eq!(service.get_order_by_id("o9"), Err(AppError::NotFound));

    let pagination = PaginationParams { page: Some(1), page_size: Some(1) };
    let response = service.get_orders_by_customer("c1", &pagination).unwrap();
    assert_eq!(response.data, vec![first.clone(), third.clone()]);
    assert_eq!(
        response.meta,
        PaginationMeta { total_records: 2, page: 1, page_size: 1, total_pages: 2 }
    );

    let query = OrderSearchQuery {
        page: Some(1),
        page_size: Some(2),
        order_status: Some(text("shipped")),
    };
    let response = service.get_orders(query).unwrap();
    assert_eq!(response.data, vec![first, second, third]);
    assert_eq!(
        response.meta,
        PaginationMeta { total_records: 3, page: 1, page_size: 2, total_pages: 2 }
    );
    assert_eq!(
        *service.repository.seen_filter.borrow(),
        Some(OrderFilter { order_status: Some(text("shipped")) })
    );
}
