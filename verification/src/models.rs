//! The three record types, the data accepted to create them and the patch
//! that updates a customer.

use vstd::prelude::*;

verus! {

/// The text of an optional string, where there is one.
pub open spec fn text_of(value: Option<String>) -> Option<Seq<char>> {
    match value {
        Some(s) => Some(s@),
        None => None,
    }
}

/// A copy of an optional string.
pub fn copy_text(value: &Option<String>) -> (copy: Option<String>)
    ensures
        copy == *value,
        text_of(copy) == text_of(*value),
{
    match value {
        Some(s) => Some(s.clone()),
        None => None,
    }
}

/// A customer as a value: the text of each field.
pub struct CustomerView {
    pub customer_id: Seq<char>,
    pub customer_unique_id: Seq<char>,
    pub customer_zip_code_prefix: Seq<char>,
    pub customer_city: Seq<char>,
    pub customer_state: Seq<char>,
}

/// A stored customer. `customer_id` is its identity.
#[derive(Debug, PartialEq, Eq)]
pub struct Customer {
    pub customer_id: String,
    pub customer_unique_id: String,
    pub customer_zip_code_prefix: String,
    pub customer_city: String,
    pub customer_state: String,
}

impl View for Customer {
    type V = CustomerView;

    open spec fn view(&self) -> CustomerView {
        CustomerView {
            customer_id: self.customer_id@,
            customer_unique_id: self.customer_unique_id@,
            customer_zip_code_prefix: self.customer_zip_code_prefix@,
            customer_city: self.customer_city@,
            customer_state: self.customer_state@,
        }
    }
}

impl Clone for Customer {
    fn clone(&self) -> (copy: Self)
        ensures
            copy == *self,
            copy@ == self@,
    {
        Customer {
            customer_id: self.customer_id.clone(),
            customer_unique_id: self.customer_unique_id.clone(),
            customer_zip_code_prefix: self.customer_zip_code_prefix.clone(),
            customer_city: self.customer_city.clone(),
            customer_state: self.customer_state.clone(),
        }
    }
}

/// The data from which a customer is created.
#[derive(Debug, PartialEq, Eq)]
pub struct CreateCustomerDto {
    pub customer_id: String,
    pub customer_unique_id: String,
    pub customer_zip_code_prefix: String,
    pub customer_city: String,
    pub customer_state: String,
}

impl View for CreateCustomerDto {
    type V = CustomerView;

    open spec fn view(&self) -> CustomerView {
        CustomerView {
            customer_id: self.customer_id@,
            customer_unique_id: self.customer_unique_id@,
            customer_zip_code_prefix: self.customer_zip_code_prefix@,
            customer_city: self.customer_city@,
            customer_state: self.customer_state@,
        }
    }
}

impl CreateCustomerDto {
    /// The customer that these data describe, field for field.
    pub fn into_customer(self) -> (customer: Customer)
        ensures
            customer@ == self@,
    {
        Customer {
            customer_id: self.customer_id,
            customer_unique_id: self.customer_unique_id,
            customer_zip_code_prefix: self.customer_zip_code_prefix,
            customer_city: self.customer_city,
            customer_state: self.customer_state,
        }
    }
}

/// A customer patch as a value: the text of each field that it supplies.
pub struct CustomerPatchView {
    pub customer_unique_id: Option<Seq<char>>,
    pub customer_zip_code_prefix: Option<Seq<char>>,
    pub customer_city: Option<Seq<char>>,
    pub customer_state: Option<Seq<char>>,
}

impl CustomerPatchView {
    /// Whether the patch supplies no field at all.
    pub open spec fn is_empty(self) -> bool {
        &&& self.customer_unique_id is None
        &&& self.customer_zip_code_prefix is None
        &&& self.customer_city is None
        &&& self.customer_state is None
    }
}

/// The value that a field has after a patch: the supplied one, else the
/// stored one.
pub open spec fn patched_field(supplied: Option<Seq<char>>, stored: Seq<char>) -> Seq<char> {
    match supplied {
        Some(value) => value,
        None => stored,
    }
}

/// The customer that results from applying `patch` to `stored`. The identity
/// is never touched.
pub open spec fn patched_customer(stored: CustomerView, patch: CustomerPatchView) -> CustomerView {
    CustomerView {
        customer_id: stored.customer_id,
        customer_unique_id: patched_field(patch.customer_unique_id, stored.customer_unique_id),
        customer_zip_code_prefix: patched_field(
            patch.customer_zip_code_prefix,
            stored.customer_zip_code_prefix,
        ),
        customer_city: patched_field(patch.customer_city, stored.customer_city),
        customer_state: patched_field(patch.customer_state, stored.customer_state),
    }
}

/// A partial update of a customer: a field that is present replaces the
/// stored value, one that is absent leaves it as it is.
#[derive(Debug, PartialEq, Eq)]
pub struct UpdateCustomerDto {
    pub customer_unique_id: Option<String>,
    pub customer_zip_code_prefix: Option<String>,
    pub customer_city: Option<String>,
    pub customer_state: Option<String>,
}

impl View for UpdateCustomerDto {
    type V = CustomerPatchView;

    open spec fn view(&self) -> CustomerPatchView {
        CustomerPatchView {
            customer_unique_id: text_of(self.customer_unique_id),
            customer_zip_code_prefix: text_of(self.customer_zip_code_prefix),
            customer_city: text_of(self.customer_city),
            customer_state: text_of(self.customer_state),
        }
    }
}

impl Default for UpdateCustomerDto {
    fn default() -> (patch: Self)
        ensures
            patch@.is_empty(),
    {
        UpdateCustomerDto {
            customer_unique_id: None,
            customer_zip_code_prefix: None,
            customer_city: None,
            customer_state: None,
        }
    }
}

/// The supplied value of a field, else a copy of the stored one.
fn merge_field(supplied: &Option<String>, stored: &String) -> (merged: String)
    ensures
        merged@ == patched_field(text_of(*supplied), stored@),
{
    match supplied {
        Some(value) => value.clone(),
        None => stored.clone(),
    }
}

impl UpdateCustomerDto {
    /// Whether the patch supplies no field at all.
    pub fn is_empty(&self) -> (empty: bool)
        ensures
            empty == self@.is_empty(),
    {
        self.customer_unique_id.is_none() && self.customer_zip_code_prefix.is_none()
            && self.customer_city.is_none() && self.customer_state.is_none()
    }

    /// The customer that `stored` becomes under this patch: each supplied
    /// field replaces the stored value, every other field and the identity
    /// stay as they are.
    pub fn apply_to(&self, stored: &Customer) -> (merged: Customer)
        ensures
            merged@ == patched_customer(stored@, self@),
    {
        Customer {
            customer_id: stored.customer_id.clone(),
            customer_unique_id: merge_field(&self.customer_unique_id, &stored.customer_unique_id),
            customer_zip_code_prefix: merge_field(
                &self.customer_zip_code_prefix,
                &stored.customer_zip_code_prefix,
            ),
            customer_city: merge_field(&self.customer_city, &stored.customer_city),
            customer_state: merge_field(&self.customer_state, &stored.customer_state),
        }
    }
}

/// A patch never alters the identity, a field that it does not supply keeps
/// the stored value, and a field that it supplies takes the supplied one.
pub proof fn lemma_patch_keeps_what_is_absent(stored: CustomerView, patch: CustomerPatchView)
    ensures
        patched_customer(stored, patch).customer_id == stored.customer_id,
        patch.customer_unique_id is None ==> patched_customer(stored, patch).customer_unique_id
            == stored.customer_unique_id,
        patch.customer_zip_code_prefix is None ==> patched_customer(
            stored,
            patch,
        ).customer_zip_code_prefix == stored.customer_zip_code_prefix,
        patch.customer_city is None ==> patched_customer(stored, patch).customer_city
            == stored.customer_city,
        patch.customer_state is None ==> patched_customer(stored, patch).customer_state
            == stored.customer_state,
        patch.customer_unique_id is Some ==> patched_customer(stored, patch).customer_unique_id
            == patch.customer_unique_id->0,
        patch.customer_zip_code_prefix is Some ==> patched_customer(
            stored,
            patch,
        ).customer_zip_code_prefix == patch.customer_zip_code_prefix->0,
        patch.customer_city is Some ==> patched_customer(stored, patch).customer_city
            == patch.customer_city->0,
        patch.customer_state is Some ==> patched_customer(stored, patch).customer_state
            == patch.customer_state->0,
        patch.is_empty() ==> patched_customer(stored, patch) == stored,
{
}

/// A seller as a value: the text of each field.
pub struct SellerView {
    pub seller_id: Seq<char>,
    pub seller_zip_code_prefix: Seq<char>,
    pub seller_city: Seq<char>,
    pub seller_state: Seq<char>,
}

/// A stored seller. `seller_id` is its identity.
#[derive(Debug, PartialEq, Eq)]
pub struct Seller {
    pub seller_id: String,
    pub seller_zip_code_prefix: String,
    pub seller_city: String,
    pub seller_state: String,
}

impl View for Seller {
    type V = SellerView;

    open spec fn view(&self) -> SellerView {
        SellerView {
            seller_id: self.seller_id@,
            seller_zip_code_prefix: self.seller_zip_code_prefix@,
            seller_city: self.seller_city@,
            seller_state: self.seller_state@,
        }
    }
}

impl Clone for Seller {
    fn clone(&self) -> (copy: Self)
        ensures
            copy == *self,
            copy@ == self@,
    {
        Seller {
            seller_id: self.seller_id.clone(),
            seller_zip_code_prefix: self.seller_zip_code_prefix.clone(),
            seller_city: self.seller_city.clone(),
            seller_state: self.seller_state.clone(),
        }
    }
}

/// The data from which a seller is created.
#[derive(Debug, PartialEq, Eq)]
pub struct CreateSellerDto {
    pub seller_id: String,
    pub seller_zip_code_prefix: String,
    pub seller_city: String,
    pub seller_state: String,
}

impl View for CreateSellerDto {
    type V = SellerView;

    open spec fn view(&self) -> SellerView {
        SellerView {
            seller_id: self.seller_id@,
            seller_zip_code_prefix: self.seller_zip_code_prefix@,
            seller_city: self.seller_city@,
            seller_state: self.seller_state@,
        }
    }
}

impl CreateSellerDto {
    /// The seller that these data describe, field for field.
    pub fn into_seller(self) -> (seller: Seller)
        ensures
            seller@ == self@,
    {
        Seller {
            seller_id: self.seller_id,
            seller_zip_code_prefix: self.seller_zip_code_prefix,
            seller_city: self.seller_city,
            seller_state: self.seller_state,
        }
    }
}

/// A date and time without a time zone, as the store keeps it. The library
/// carries such values and never looks inside.
#[verifier::external_type_specification]
#[verifier::external_body]
pub struct ExNaiveDateTime(chrono::NaiveDateTime);

/// An order as a value: the text of its three strings and its five dates.
pub struct OrderView {
    pub order_id: Seq<char>,
    pub customer_id: Seq<char>,
    pub order_status: Seq<char>,
    pub order_purchase_timestamp: chrono::NaiveDateTime,
    pub order_approved_at: chrono::NaiveDateTime,
    pub order_delivered_carrier_date: Option<chrono::NaiveDateTime>,
    pub order_delivered_customer_date: Option<chrono::NaiveDateTime>,
    pub order_estimated_delivery_date: chrono::NaiveDateTime,
}

/// A stored order. `order_id` is its identity; `customer_id` names the
/// customer that placed it.
#[derive(Debug, PartialEq, Eq)]
pub struct Order {
    pub order_id: String,
    pub customer_id: String,
    pub order_status: String,
    pub order_purchase_timestamp: chrono::NaiveDateTime,
    pub order_approved_at: chrono::NaiveDateTime,
    pub order_delivered_carrier_date: Option<chrono::NaiveDateTime>,
    pub order_delivered_customer_date: Option<chrono::NaiveDateTime>,
    pub order_estimated_delivery_date: chrono::NaiveDateTime,
}

impl View for Order {
    type V = OrderView;

    open spec fn view(&self) -> OrderView {
        OrderView {
            order_id: self.order_id@,
            customer_id: self.customer_id@,
            order_status: self.order_status@,
            order_purchase_timestamp: self.order_purchase_timestamp,
            order_approved_at: self.order_approved_at,
            order_delivered_carrier_date: self.order_delivered_carrier_date,
            order_delivered_customer_date: self.order_delivered_customer_date,
            order_estimated_delivery_date: self.order_estimated_delivery_date,
        }
    }
}

impl Clone for Order {
    fn clone(&self) -> (copy: Self)
        ensures
            copy == *self,
            copy@ == self@,
    {
        Order {
            order_id: self.order_id.clone(),
            customer_id: self.customer_id.clone(),
            order_status: self.order_status.clone(),
            order_purchase_timestamp: self.order_purchase_timestamp,
            order_approved_at: self.order_approved_at,
            order_delivered_carrier_date: self.order_delivered_carrier_date,
            order_delivered_customer_date: self.order_delivered_customer_date,
            order_estimated_delivery_date: self.order_estimated_delivery_date,
        }
    }
}

/// The data from which an order is created.
#[derive(Debug, PartialEq, Eq)]
pub struct CreateOrderDto {
    pub order_id: String,
    pub customer_id: String,
    pub order_status: String,
    pub order_purchase_timestamp: chrono::NaiveDateTime,
    pub order_approved_at: chrono::NaiveDateTime,
    pub order_delivered_carrier_date: Option<chrono::NaiveDateTime>,
    pub order_delivered_customer_date: Option<chrono::NaiveDateTime>,
    pub order_estimated_delivery_date: chrono::NaiveDateTime,
}

impl View for CreateOrderDto {
    type V = OrderView;

    open spec fn view(&self) -> OrderView {
        OrderView {
            order_id: self.order_id@,
            customer_id: self.customer_id@,
            order_status: self.order_status@,
            order_purchase_timestamp: self.order_purchase_timestamp,
            order_approved_at: self.order_approved_at,
            order_delivered_carrier_date: self.order_delivered_carrier_date,
            order_delivered_customer_date: self.order_delivered_customer_date,
            order_estimated_delivery_date: self.order_estimated_delivery_date,
        }
    }
}

impl CreateOrderDto {
    /// The order that these data describe, field for field.
    pub fn into_order(self) -> (order: Order)
        ensures
            order@ == self@,
    {
        Order {
            order_id: self.order_id,
            customer_id: self.customer_id,
            order_status: self.order_status,
            order_purchase_timestamp: self.order_purchase_timestamp,
            order_approved_at: self.order_approved_at,
            order_delivered_carrier_date: self.order_delivered_carrier_date,
            order_delivered_customer_date: self.order_delivered_customer_date,
            order_estimated_delivery_date: self.order_estimated_delivery_date,
        }
    }
}

} // verus!
