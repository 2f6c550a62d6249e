use paged_resources::error::AppError;
use paged_resources::models::{
    CreateCustomerDto, CreateOrderDto, CreateSellerDto, UpdateCustomerDto,
};
use paged_resources::validation::{Field, ValidationErrors};

fn text(s: &str) -> String {
    s.to_string()
}

fn customer(id: &str, unique: &str, zip: &str, city: &str, state: &str) -> CreateCustomerDto {
    CreateCustomerDto {
        customer_id: text(id),
        customer_unique_id: text(unique),
        customer_zip_code_prefix: text(zip),
        customer_city: text(city),
        customer_state: text(state),
    }
}

fn moment(day: u32) -> chrono::NaiveDateTime {
    chrono::NaiveDate::from_ymd_opt(2018, 1, day).unwrap().and_hms_opt(10, 30, 0).unwrap()
}

fn order(id: &str, customer_id: &str, status: &str) -> CreateOrderDto {
    CreateOrderDto {
        order_id: text(id),
        customer_id: text(customer_id),
        order_status: text(status),
        order_purchase_timestamp: moment(1),
        order_approved_at: moment(2),
        order_delivered_carrier_date: None,
        order_delivered_customer_date: Some(moment(9)),
        order_estimated_delivery_date: moment(20),
    }
}

#[test]
fn valid_customer_passes() {
    assert_eq!(customer("c1", "u1", "01310", "sao paulo", "SP").validate(), Ok(()));
    assert_eq!(customer("c", "u", "0131000000", "x", "RJ").validate(), Ok(()));
}

#[test]
fn three_character_state_is_reported() {
    let errors = customer("c1", "u1", "01310", "sao paulo", "SPX").validate().unwrap_err();
    assert_eq!(errors.fields, vec![Field::CustomerState]);
    assert!(errors.mentions(Field::CustomerState));
    assert!(!errors.mentions(Field::CustomerCity));
    assert!(errors.to_string().contains("customer_state"));
    assert_eq!(errors.to_string(), "customer_state: length must be exactly 2");
}

#[test]
fn state_of_one_character_or_none_is_reported() {
    assert!(customer("c1", "u1", "01310", "sao paulo", "S").validate().is_err());
    assert!(customer("c1", "u1", "01310", "sao paulo", "").validate().is_err());
}

#[test]
fn length_is_counted_in_characters() {
    assert_eq!(customer("c1", "u1", "01310", "são paulo", "ÇÃ").validate(), Ok(()));
    assert_eq!(customer("c1", "u1", "ééééé", "x", "SP").validate(), Ok(()));
    let errors = customer("c1", "u1", "éééé", "x", "SP").validate().unwrap_err();
    assert_eq!(errors.fields, vec![Field::CustomerZipCodePrefix]);
    let errors = customer("c1", "u1", "ééééééééééé", "x", "SP").validate().unwrap_err();
    assert_eq!(errors.fields, vec![Field::CustomerZipCodePrefix]);
    assert_eq!(customer("c1", "u1", "éééééééééé", "x", "SP").validate(), Ok(()));
}

#[test]
fn every_violated_field_is_reported_in_order() {
    let errors = customer("", "", "123", "", "ABC").validate().unwrap_err();
    assert_eq!(
        errors.fields,
        vec![
            Field::CustomerId,
            Field::CustomerUniqueId,
            Field::CustomerZipCodePrefix,
            Field::CustomerCity,
            Field::CustomerState,
        ]
    );
    assert_eq!(
        errors.to_string(),
        "customer_id: ID cannot be empty\n\
         customer_unique_id: length must be at least 1\n\
         customer_zip_code_prefix: length must be between 5 and 10\n\
         customer_city: length must be at least 1\n\
         customer_state: length must be exactly 2"
    );
}

#[test]
fn zip_code_prefix_bounds() {
    assert!(customer("c", "u", "1234", "x", "SP").validate().is_err());
    assert!(customer("c", "u", "12345", "x", "SP").validate().is_ok());
    assert!(customer("c", "u", "1234567890", "x", "SP").validate().is_ok());
    assert!(customer("c", "u", "12345678901", "x", "SP").validate().is_err());
}

#[test]
fn empty_identity_is_reported() {
    let errors = customer("", "u1", "01310", "sao paulo", "SP").validate().unwrap_err();
    assert_eq!(errors.fields, vec![Field::CustomerId]);
    assert_eq!(errors.to_string(), "customer_id: ID cannot be empty");
}

#[test]
fn patch_checks_only_supplied_fields() {
    assert_eq!(UpdateCustomerDto::default().validate(), Ok(()));
    let patch = UpdateCustomerDto {
        customer_unique_id: None,
        customer_zip_code_prefix: None,
        customer_city: Some(text("X")),
        customer_state: None,
    };
    assert_eq!(patch.validate(), Ok(()));
    let patch = UpdateCustomerDto {
        customer_unique_id: Some(String::new()),
        customer_zip_code_prefix: Some(text("1")),
        customer_city: Some(String::new()),
        customer_state: Some(text("ABC")),
    };
    assert_eq!(
        patch.validate().unwrap_err().fields,
        vec![
            Field::CustomerUniqueId,
            Field::CustomerZipCodePrefix,
            Field::CustomerCity,
            Field::CustomerState,
        ]
    );
    let patch = UpdateCustomerDto {
        customer_unique_id: None,
        customer_zip_code_prefix: Some(text("12345")),
        customer_city: None,
        customer_state: Some(text("A")),
    };
    assert_eq!(patch.validate().unwrap_err().fields, vec![Field::CustomerState]);
}

#[test]
fn patch_emptiness() {
    assert!(UpdateCustomerDto::default().is_empty());
    let patch = UpdateCustomerDto {
        customer_unique_id: None,
        customer_zip_code_prefix: None,
        customer_city: None,
        customer_state: Some(text("SP")),
    };
    assert!(!patch.is_empty());
    let patch = UpdateCustomerDto {
        customer_unique_id: Some(String::new()),
        customer_zip_code_prefix: None,
        customer_city: None,
        customer_state: None,
    };
    assert!(!patch.is_empty());
}

#[test]
fn seller_rules() {
    let seller = CreateSellerDto {
        seller_id: text("s1"),
        seller_zip_code_prefix: text("13023"),
        seller_city: text("campinas"),
        seller_state: text("SP"),
    };
    assert_eq!(seller.validate(), Ok(()));
    let seller = CreateSellerDto {
        seller_id: String::new(),
        seller_zip_code_prefix: text("1302"),
        seller_city: String::new(),
        seller_state: text("SPX"),
    };
    let errors = seller.validate().unwrap_err();
    assert_eq!(
        errors.fields,
        vec![Field::SellerId, Field::SellerZipCodePrefix, Field::SellerCity, Field::SellerState]
    );
    assert_eq!(
        errors.to_string(),
        "seller_id: ID cannot be empty\n\
         seller_zip_code_prefix: length must be between 5 and 10\n\
         seller_city: length must be at least 1\n\
         seller_state: length must be exactly 2"
    );
}

#[test]
fn order_rules() {
    assert_eq!(order("o1", "c1", "delivered").validate(), Ok(()));
    let errors = order("", "", "").validate().unwrap_err();
    assert_eq!(errors.fields, vec![Field::OrderId, Field::OrderCustomerId, Field::OrderStatus]);
    assert_eq!(
        errors.to_string(),
        "order_id: length must be at least 1\n\
         customer_id: length must be at least 1\n\
         order_status: length must be at least 1"
    );
    let errors = order("o1", "", "shipped").validate().unwrap_err();
    assert_eq!(errors.fields, vec![Field::OrderCustomerId]);
}

#[test]
fn field_rules() {
    assert_eq!(Field::CustomerId.least(), 1);
    assert_eq!(Field::CustomerId.most(), None);
    assert_eq!(Field::CustomerZipCodePrefix.least(), 5);
    assert_eq!(Field::CustomerZipCodePrefix.most(), Some(10));
    assert_eq!(Field::SellerZipCodePrefix.least(), 5);
    assert_eq!(Field::SellerZipCodePrefix.most(), Some(10));
    assert_eq!(Field::CustomerState.least(), 2);
    assert_eq!(Field::CustomerState.most(), Some(2));
    assert_eq!(Field::SellerState.least(), 2);
    assert_eq!(Field::SellerState.most(), Some(2));
    assert_eq!(Field::OrderStatus.least(), 1);
    assert_eq!(Field::OrderStatus.most(), None);
    assert_eq!(Field::OrderCustomerId.name(), "customer_id");
    assert_eq!(Field::CustomerUniqueId.name(), "customer_unique_id");
    assert_eq!(Field::SellerCity.name(), "seller_city");
    assert_eq!(Field::SellerCity.rule(), "length must be at least 1");
    assert_eq!(Field::SellerId.rule(), "ID cannot be empty");
}

#[test]
fn field_accepts_by_length() {
    assert!(Field::CustomerState.accepts("SP"));
    assert!(!Field::CustomerState.accepts("S"));
    assert!(!Field::CustomerState.accepts("SPX"));
    assert!(Field::CustomerCity.accepts("a"));
    assert!(!Field::CustomerCity.accepts(""));
    assert!(Field::CustomerCity.accepts(&"a".repeat(10_000)));
    assert!(Field::CustomerZipCodePrefix.accepts("1234567"));
    assert!(!Field::CustomerZipCodePrefix.accepts(""));
}

#[test]
fn report_clone_and_conversion() {
    let errors = ValidationErrors { fields: vec![Field::CustomerCity, Field::CustomerState] };
    assert_eq!(errors.clone(), errors);
    assert_eq!(AppError::from(errors.clone()), AppError::ValidationError(errors));
    assert_eq!(ValidationErrors { fields: Vec::new() }.to_string(), "");
}
