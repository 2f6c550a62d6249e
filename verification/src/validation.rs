//! Field rules of the data that creates or updates a record. Every rule
//! bounds the number of characters of one field; a validation reports every
//! field that breaks its rule, in the order in which the record declares
//! them.

use vstd::prelude::*;
use vstd::string::StringExecFns;
use crate::models::{
    text_of, CreateCustomerDto, CreateOrderDto, CreateSellerDto, CustomerPatchView, CustomerView,
    OrderView, SellerView, UpdateCustomerDto,
};

verus! {

/// A field that carries a rule.
#[derive(Clone, Copy, Debug, PartialEq, Eq, Structural)]
pub enum Field {
    CustomerId,
    CustomerUniqueId,
    CustomerZipCodePrefix,
    CustomerCity,
    CustomerState,
    SellerId,
    SellerZipCodePrefix,
    SellerCity,
    SellerState,
    OrderId,
    OrderCustomerId,
    OrderStatus,
}

impl Field {
    /// The least number of characters that the field may have.
    pub open spec fn min_length(self) -> nat {
        match self {
            Field::CustomerZipCodePrefix | Field::SellerZipCodePrefix => 5,
            Field::CustomerState | Field::SellerState => 2,
            _ => 1,
        }
    }

    /// The greatest number of characters that the field may have, where it
    /// is bounded.
    pub open spec fn max_length(self) -> Option<nat> {
        match self {
            Field::CustomerZipCodePrefix | Field::SellerZipCodePrefix => Some(10),
            Field::CustomerState | Field::SellerState => Some(2),
            _ => None,
        }
    }

    /// Whether a value of `length` characters keeps the rule of the field.
    pub open spec fn allows(self, length: nat) -> bool {
        &&& self.min_length() <= length
        &&& match self.max_length() {
            Some(most) => length <= most,
            None => true,
        }
    }

    /// The name of the field in its record.
    pub open spec fn name_text(self) -> Seq<char> {
        match self {
            Field::CustomerId => "customer_id"@,
            Field::CustomerUniqueId => "customer_unique_id"@,
            Field::CustomerZipCodePrefix => "customer_zip_code_prefix"@,
            Field::CustomerCity => "customer_city"@,
            Field::CustomerState => "customer_state"@,
            Field::SellerId => "seller_id"@,
            Field::SellerZipCodePrefix => "seller_zip_code_prefix"@,
            Field::SellerCity => "seller_city"@,
            Field::SellerState => "seller_state"@,
            Field::OrderId => "order_id"@,
            Field::OrderCustomerId => "customer_id"@,
            Field::OrderStatus => "order_status"@,
        }
    }

    /// What the rule of the field asks for, in words.
    pub open spec fn rule_text(self) -> Seq<char> {
        match self {
            Field::CustomerId | Field::SellerId => "ID cannot be empty"@,
            Field::CustomerZipCodePrefix | Field::SellerZipCodePrefix =>
                "length must be between 5 and 10"@,
            Field::CustomerState | Field::SellerState => "length must be exactly 2"@,
            _ => "length must be at least 1"@,
        }
    }

    /// The line that reports the field: its name, a colon and its rule.
    pub open spec fn line_text(self) -> Seq<char> {
        self.name_text() + ": "@ + self.rule_text()
    }

    /// The least number of characters that the field may have.
    pub fn least(self) -> (least: u64)
        ensures
            least == self.min_length(),
    {
        match self {
            Field::CustomerZipCodePrefix | Field::SellerZipCodePrefix => 5,
            Field::CustomerState | Field::SellerState => 2,
            _ => 1,
        }
    }

    /// The greatest number of characters that the field may have, where it
    /// is bounded.
    pub fn most(self) -> (most: Option<u64>)
        ensures
            most is Some <==> self.max_length() is Some,
            most is Some ==> most->0 == self.max_length()->0,
    {
        match self {
            Field::CustomerZipCodePrefix | Field::SellerZipCodePrefix => Some(10),
            Field::CustomerState | Field::SellerState => Some(2),
            _ => None,
        }
    }

    /// The name of the field in its record.
    pub fn name(self) -> (name: &'static str)
        ensures
            name@ == self.name_text(),
    {
        match self {
            Field::CustomerId => "customer_id",
            Field::CustomerUniqueId => "customer_unique_id",
            Field::CustomerZipCodePrefix => "customer_zip_code_prefix",
            Field::CustomerCity => "customer_city",
            Field::CustomerState => "customer_state",
            Field::SellerId => "seller_id",
            Field::SellerZipCodePrefix => "seller_zip_code_prefix",
            Field::SellerCity => "seller_city",
            Field::SellerState => "seller_state",
            Field::OrderId => "order_id",
            Field::OrderCustomerId => "customer_id",
            Field::OrderStatus => "order_status",
        }
    }

    /// What the rule of the field asks for, in words.
    pub fn rule(self) -> (rule: &'static str)
        ensures
            rule@ == self.rule_text(),
    {
        match self {
            Field::CustomerId | Field::SellerId => "ID cannot be empty",
            Field::CustomerZipCodePrefix | Field::SellerZipCodePrefix =>
                "length must be between 5 and 10",
            Field::CustomerState | Field::SellerState => "length must be exactly 2",
            _ => "length must be at least 1",
        }
    }

    /// Whether `value` keeps the rule of the field.
    pub fn accepts(self, value: &str) -> (ok: bool)
        ensures
            ok == self.allows(value@.len()),
    {
        length_within(value, Some(self.least()), self.most())
    }
}

/// `validator::ValidateLength::validate_length` on a string slice, with no
/// exact length asked for. The length that it measures is the number of
/// characters of the string. It answers whether that number is at least
/// `min`, where there is one, and at most `max`, where there is one.
#[verifier::external_body]
fn length_within(value: &str, min: Option<u64>, max: Option<u64>) -> (ok: bool)
    ensures
        ok == ((min is Some ==> value@.len() >= min->0) && (max is Some ==> value@.len()
            <= max->0)),
{
    validator::ValidateLength::validate_length(value, min, max, None)
}

/// What one field adds to a report: itself if `value` breaks its rule,
/// nothing otherwise.
pub open spec fn violation(field: Field, value: Seq<char>) -> Seq<Field> {
    if field.allows(value.len()) {
        Seq::empty()
    } else {
        seq![field]
    }
}

/// What one field of a patch adds to a report: nothing where the patch does
/// not supply it.
pub open spec fn patch_violation(field: Field, value: Option<Seq<char>>) -> Seq<Field> {
    match value {
        Some(text) => violation(field, text),
        None => Seq::empty(),
    }
}

/// The fields of the data for a new customer that break their rule.
pub open spec fn customer_violations(dto: CustomerView) -> Seq<Field> {
    violation(Field::CustomerId, dto.customer_id) + violation(
        Field::CustomerUniqueId,
        dto.customer_unique_id,
    ) + violation(Field::CustomerZipCodePrefix, dto.customer_zip_code_prefix) + violation(
        Field::CustomerCity,
        dto.customer_city,
    ) + violation(Field::CustomerState, dto.customer_state)
}

/// The supplied fields of a customer patch that break their rule.
pub open spec fn patch_violations(patch: CustomerPatchView) -> Seq<Field> {
    patch_violation(Field::CustomerUniqueId, patch.customer_unique_id) + patch_violation(
        Field::CustomerZipCodePrefix,
        patch.customer_zip_code_prefix,
    ) + patch_violation(Field::CustomerCity, patch.customer_city) + patch_violation(
        Field::CustomerState,
        patch.customer_state,
    )
}

/// The fields of the data for a new seller that break their rule.
pub open spec fn seller_violations(dto: SellerView) -> Seq<Field> {
    violation(Field::SellerId, dto.seller_id) + violation(
        Field::SellerZipCodePrefix,
        dto.seller_zip_code_prefix,
    ) + violation(Field::SellerCity, dto.seller_city) + violation(
        Field::SellerState,
        dto.seller_state,
    )
}

/// The fields of the data for a new order that break their rule.
pub open spec fn order_violations(dto: OrderView) -> Seq<Field> {
    violation(Field::OrderId, dto.order_id) + violation(Field::OrderCustomerId, dto.customer_id)
        + violation(Field::OrderStatus, dto.order_status)
}

/// The text of a report: one line for each field, separated by line breaks.
pub open spec fn report_text(fields: Seq<Field>) -> Seq<char>
    decreases fields.len(),
{
    if fields.len() == 0 {
        Seq::empty()
    } else if fields.len() == 1 {
        fields[0].line_text()
    } else {
        report_text(fields.drop_last()) + "\n"@ + fields.last().line_text()
    }
}

/// The fields that broke their rule in one validation. It is never empty
/// when a validation returns it.
#[derive(Debug, PartialEq, Eq)]
pub struct ValidationErrors {
    pub fields: Vec<Field>,
}

impl View for ValidationErrors {
    type V = Seq<Field>;

    open spec fn view(&self) -> Seq<Field> {
        self.fields@
    }
}

impl Clone for ValidationErrors {
    fn clone(&self) -> (copy: Self)
        ensures
            copy@ == self@,
    {
        let mut fields: Vec<Field> = Vec::new();
        let mut at: usize = 0;
        while at < self.fields.len()
            invariant
                at <= self.fields.len(),
                fields@ == self.fields@.take(at as int),
            decreases self.fields.len() - at,
        {
            fields.push(self.fields[at]);
            at += 1;
            assert(self.fields@.take(at as int) == self.fields@.take(at - 1).push(
                self.fields@[at - 1],
            ));
        }
        assert(self.fields@.take(at as int) == self.fields@);
        ValidationErrors { fields }
    }
}

impl ValidationErrors {
    /// Whether the report names `field`.
    pub fn mentions(&self, field: Field) -> (found: bool)
        ensures
            found == self@.contains(field),
    {
        let mut at: usize = 0;
        while at < self.fields.len()
            invariant
                at <= self.fields.len(),
                forall|i: int| 0 <= i < at ==> self.fields@[i] != field,
            decreases self.fields.len() - at,
        {
            if self.fields[at] == field {
                return true;
            }
            at += 1;
        }
        false
    }

    /// The report as text: for each field a line with its name and its
    /// rule.
    pub fn to_string(&self) -> (text: String)
        ensures
            text@ == report_text(self@),
    {
        let mut text = String::new();
        let mut at: usize = 0;
        while at < self.fields.len()
            invariant
                at <= self.fields.len(),
                text@ == report_text(self.fields@.take(at as int)),
            decreases self.fields.len() - at,
        {
            let field = self.fields[at];
            let ghost before = self.fields@.take(at as int);
            let ghost after = self.fields@.take(at + 1);
            proof {
                assert(after.drop_last() == before);
                assert(after.last() == field);
            }
            if at > 0 {
                text.append("\n");
            }
            text.append(field.name());
            text.append(": ");
            text.append(field.rule());
            at += 1;
            proof {
                if at == 1 {
                    assert(before.len() == 0);
                    assert(text@ == field.line_text());
                } else {
                    assert(text@ == report_text(before) + "\n"@ + field.line_text());
                }
            }
        }
        assert(self.fields@.take(at as int) == self.fields@);
        text
    }
}

/// Adds `field` to the report if `value` breaks its rule.
fn check(field: Field, value: &String, found: &mut Vec<Field>)
    ensures
        final(found)@ == old(found)@ + violation(field, value@),
{
    if !field.accepts(value.as_str()) {
        found.push(field);
        assert(found@ == old(found)@ + seq![field]);
    } else {
        assert(found@ == old(found)@ + Seq::<Field>::empty());
    }
}

/// Adds `field` to the report if the patch supplies a value that breaks its
/// rule.
fn check_supplied(field: Field, value: &Option<String>, found: &mut Vec<Field>)
    ensures
        final(found)@ == old(found)@ + patch_violation(field, text_of(*value)),
{
    match value {
        Some(text) => check(field, text, found),
        None => {
            assert(found@ == old(found)@ + Seq::<Field>::empty());
        },
    }
}

/// The outcome of a validation: success where nothing was found, else the
/// report of what was found.
fn outcome(found: Vec<Field>) -> (res: Result<(), ValidationErrors>)
    ensures
        res is Ok <==> found@.len() == 0,
        res is Err ==> res->Err_0@ == found@,
{
    if found.len() == 0 {
        Ok(())
    } else {
        Err(ValidationErrors { fields: found })
    }
}

impl CreateCustomerDto {
    /// Whether every field keeps its rule.
    pub open spec fn is_valid(&self) -> bool {
        customer_violations(self@).len() == 0
    }

    /// Checks every field against its rule: the identity and the unique id
    /// are not empty, the zip code prefix has 5 to 10 characters, the city is
    /// not empty and the state has exactly 2 characters. Fails with the
    /// report of all fields that break their rule.
    pub fn validate(&self) -> (res: Result<(), ValidationErrors>)
        ensures
            res is Ok <==> self.is_valid(),
            res is Err ==> res->Err_0@ == customer_violations(self@),
    {
        let mut found: Vec<Field> = Vec::new();
        assert(found@ == Seq::<Field>::empty());
        check(Field::CustomerId, &self.customer_id, &mut found);
        check(Field::CustomerUniqueId, &self.customer_unique_id, &mut found);
        check(Field::CustomerZipCodePrefix, &self.customer_zip_code_prefix, &mut found);
        check(Field::CustomerCity, &self.customer_city, &mut found);
        check(Field::CustomerState, &self.customer_state, &mut found);
        assert(found@ == customer_violations(self@));
        outcome(found)
    }
}

impl UpdateCustomerDto {
    /// Whether every field that the patch supplies keeps its rule.
    pub open spec fn is_valid(&self) -> bool {
        patch_violations(self@).len() == 0
    }

    /// Checks every supplied field against its rule; an absent field breaks
    /// none. Fails with the report of all supplied fields that break their
    /// rule.
    pub fn validate(&self) -> (res: Result<(), ValidationErrors>)
        ensures
            res is Ok <==> self.is_valid(),
            res is Err ==> res->Err_0@ == patch_violations(self@),
    {
        let mut found: Vec<Field> = Vec::new();
        assert(found@ == Seq::<Field>::empty());
        check_supplied(Field::CustomerUniqueId, &self.customer_unique_id, &mut found);
        check_supplied(Field::CustomerZipCodePrefix, &self.customer_zip_code_prefix, &mut found);
        check_supplied(Field::CustomerCity, &self.customer_city, &mut found);
        check_supplied(Field::CustomerState, &self.customer_state, &mut found);
        assert(found@ == patch_violations(self@));
        outcome(found)
    }
}

impl CreateSellerDto {
    /// Whether every field keeps its rule.
    pub open spec fn is_valid(&self) -> bool {
        seller_violations(self@).len() == 0
    }

    /// Checks every field against its rule: the identity is not empty, the
    /// zip code prefix has 5 to 10 characters, the city is not empty and the
    /// state has exactly 2 characters. Fails with the report of all fields
    /// that break their rule.
    pub fn validate(&self) -> (res: Result<(), ValidationErrors>)
        ensures
            res is Ok <==> self.is_valid(),
            res is Err ==> res->Err_0@ == seller_violations(self@),
    {
        let mut found: Vec<Field> = Vec::new();
        assert(found@ == Seq::<Field>::empty());
        check(Field::SellerId, &self.seller_id, &mut found);
        check(Field::SellerZipCodePrefix, &self.seller_zip_code_prefix, &mut found);
        check(Field::SellerCity, &self.seller_city, &mut found);
        check(Field::SellerState, &self.seller_state, &mut found);
        assert(found@ == seller_violations(self@));
        outcome(found)
    }
}

impl CreateOrderDto {
    /// Whether every field keeps its rule.
    pub open spec fn is_valid(&self) -> bool {
        order_violations(self@).len() == 0
    }

    /// Checks that the identity, the customer's identity and the status are
    /// not empty. Fails with the report of all fields that break their rule.
    pub fn validate(&self) -> (res: Result<(), ValidationErrors>)
        ensures
            res is Ok <==> self.is_valid(),
            res is Err ==> res->Err_0@ == order_violations(self@),
    {
        let mut found: Vec<Field> = Vec::new();
        assert(found@ == Seq::<Field>::empty());
        check(Field::OrderId, &self.order_id, &mut found);
        check(Field::OrderCustomerId, &self.customer_id, &mut found);
        check(Field::OrderStatus, &self.order_status, &mut found);
        assert(found@ == order_violations(self@));
        outcome(found)
    }
}

/// A state of any length but 2 is reported, whatever the other fields hold.
pub proof fn lemma_state_of_wrong_length_is_reported(dto: CustomerView)
    requires
        dto.customer_state.len() != 2,
    ensures
        customer_violations(dto).len() > 0,
        customer_violations(dto).contains(Field::CustomerState),
        customer_violations(dto).last() == Field::CustomerState,
{
    let found = customer_violations(dto);
    assert(violation(Field::CustomerState, dto.customer_state) == seq![Field::CustomerState]);
    assert(found.last() == Field::CustomerState);
    assert(found[found.len() - 1] == Field::CustomerState);
}

/// A patch that supplies nothing breaks no rule.
pub proof fn lemma_empty_patch_is_valid(patch: CustomerPatchView)
    requires
        patch.is_empty(),
    ensures
        patch_violations(patch).len() == 0,
{
}

} // verus!
