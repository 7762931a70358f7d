//! Identifiers, statuses and the delivery address.
//!
//! Every identifier but [`OrderItemId`] is a UUID, held as the 128-bit
//! number that the UUID stands for.

use vstd::prelude::*;
use vstd::std_specs::convert::FromSpecImpl;
use vstd::string::StringExecFns;

verus! {

/// The value that an identifier wraps.
#[derive(Clone, Copy, Debug, PartialEq, Eq)]
pub struct BaseId<V: Clone> {
    pub value: V,
}

impl<V: Clone> BaseId<V> {
    /// Wraps `value`.
    pub fn new(value: V) -> (id: Self)
        ensures
            id.value == value,
    {
        BaseId { value }
    }
}

/// Identifies a customer.
#[derive(Clone, Copy, Debug, PartialEq, Eq)]
pub struct CustomerId {
    pub base_id: BaseId<u128>,
}

impl View for CustomerId {
    type V = u128;

    open spec fn view(&self) -> u128 {
        self.base_id.value
    }
}

impl From<u128> for CustomerId {
    fn from(id: u128) -> (customer_id: Self) {
        CustomerId { base_id: BaseId { value: id } }
    }
}

impl FromSpecImpl<u128> for CustomerId {
    open spec fn obeys_from_spec() -> bool {
        true
    }

    open spec fn from_spec(id: u128) -> Self {
        CustomerId { base_id: BaseId { value: id } }
    }
}

impl From<CustomerId> for u128 {
    fn from(id: CustomerId) -> (value: u128) {
        id.base_id.value
    }
}

impl FromSpecImpl<CustomerId> for u128 {
    open spec fn obeys_from_spec() -> bool {
        true
    }

    open spec fn from_spec(id: CustomerId) -> u128 {
        id.base_id.value
    }
}

/// Identifies an order.
#[derive(Clone, Copy, Debug, PartialEq, Eq)]
pub struct OrderId {
    pub base_id: BaseId<u128>,
}

impl View for OrderId {
    type V = u128;

    open spec fn view(&self) -> u128 {
        self.base_id.value
    }
}

impl From<u128> for OrderId {
    fn from(id: u128) -> (order_id: Self) {
        OrderId { base_id: BaseId { value: id } }
    }
}

impl FromSpecImpl<u128> for OrderId {
    open spec fn obeys_from_spec() -> bool {
        true
    }

    open spec fn from_spec(id: u128) -> Self {
        OrderId { base_id: BaseId { value: id } }
    }
}

impl From<OrderId> for u128 {
    fn from(id: OrderId) -> (value: u128) {
        id.base_id.value
    }
}

impl FromSpecImpl<OrderId> for u128 {
    open spec fn obeys_from_spec() -> bool {
        true
    }

    open spec fn from_spec(id: OrderId) -> u128 {
        id.base_id.value
    }
}

/// Identifies a product.
#[derive(Clone, Copy, Debug, PartialEq, Eq)]
pub struct ProductId {
    pub base_id: BaseId<u128>,
}

impl View for ProductId {
    type V = u128;

    open spec fn view(&self) -> u128 {
        self.base_id.value
    }
}

impl From<u128> for ProductId {
    fn from(id: u128) -> (product_id: Self) {
        ProductId { base_id: BaseId { value: id } }
    }
}

impl FromSpecImpl<u128> for ProductId {
    open spec fn obeys_from_spec() -> bool {
        true
    }

    open spec fn from_spec(id: u128) -> Self {
        ProductId { base_id: BaseId { value: id } }
    }
}

impl From<ProductId> for u128 {
    fn from(id: ProductId) -> (value: u128) {
        id.base_id.value
    }
}

impl FromSpecImpl<ProductId> for u128 {
    open spec fn obeys_from_spec() -> bool {
        true
    }

    open spec fn from_spec(id: ProductId) -> u128 {
        id.base_id.value
    }
}

/// Identifies a restaurant.
#[derive(Clone, Copy, Debug, PartialEq, Eq)]
pub struct RestaurantId {
    pub base_id: BaseId<u128>,
}

impl View for RestaurantId {
    type V = u128;

    open spec fn view(&self) -> u128 {
        self.base_id.value
    }
}

impl From<u128> for RestaurantId {
    fn from(id: u128) -> (restaurant_id: Self) {
        RestaurantId { base_id: BaseId { value: id } }
    }
}

impl FromSpecImpl<u128> for RestaurantId {
    open spec fn obeys_from_spec() -> bool {
        true
    }

    open spec fn from_spec(id: u128) -> Self {
        RestaurantId { base_id: BaseId { value: id } }
    }
}

impl From<RestaurantId> for u128 {
    fn from(id: RestaurantId) -> (value: u128) {
        id.base_id.value
    }
}

impl FromSpecImpl<RestaurantId> for u128 {
    open spec fn obeys_from_spec() -> bool {
        true
    }

    open spec fn from_spec(id: RestaurantId) -> u128 {
        id.base_id.value
    }
}

/// The identifier under which clients follow an order. It is handed out when
/// the order is created and is distinct from the order's own identifier.
#[derive(Clone, Copy, Debug, PartialEq, Eq)]
pub struct TrackingId {
    pub base_id: BaseId<u128>,
}

impl View for TrackingId {
    type V = u128;

    open spec fn view(&self) -> u128 {
        self.base_id.value
    }
}

impl From<u128> for TrackingId {
    fn from(id: u128) -> (tracking_id: Self) {
        TrackingId { base_id: BaseId { value: id } }
    }
}

impl FromSpecImpl<u128> for TrackingId {
    open spec fn obeys_from_spec() -> bool {
        true
    }

    open spec fn from_spec(id: u128) -> Self {
        TrackingId { base_id: BaseId { value: id } }
    }
}

impl From<TrackingId> for u128 {
    fn from(id: TrackingId) -> (value: u128) {
        id.base_id.value
    }
}

impl FromSpecImpl<TrackingId> for u128 {
    open spec fn obeys_from_spec() -> bool {
        true
    }

    open spec fn from_spec(id: TrackingId) -> u128 {
        id.base_id.value
    }
}

/// Numbers an item within its order.
#[derive(Clone, Copy, Debug, PartialEq, Eq)]
pub struct OrderItemId {
    pub base_id: BaseId<i64>,
}

impl View for OrderItemId {
    type V = i64;

    open spec fn view(&self) -> i64 {
        self.base_id.value
    }
}

impl From<i64> for OrderItemId {
    fn from(id: i64) -> (item_id: Self) {
        OrderItemId { base_id: BaseId { value: id } }
    }
}

impl FromSpecImpl<i64> for OrderItemId {
    open spec fn obeys_from_spec() -> bool {
        true
    }

    open spec fn from_spec(id: i64) -> Self {
        OrderItemId { base_id: BaseId { value: id } }
    }
}

impl From<OrderItemId> for i64 {
    fn from(id: OrderItemId) -> (value: i64) {
        id.base_id.value
    }
}

impl FromSpecImpl<OrderItemId> for i64 {
    open spec fn obeys_from_spec() -> bool {
        true
    }

    open spec fn from_spec(id: OrderItemId) -> i64 {
        id.base_id.value
    }
}

/// Where an order stands in its life cycle.
///
/// `Pending` is where every order starts. `Approved` and `Cancelled` are
/// final.
#[derive(Clone, Copy, Debug, PartialEq, Eq, Structural)]
pub enum OrderStatus {
    Pending,
    Paid,
    Approved,
    Cancelling,
    Cancelled,
}

impl OrderStatus {
    /// The status as text.
    pub open spec fn name(self) -> Seq<char> {
        match self {
            OrderStatus::Pending => "Pending"@,
            OrderStatus::Paid => "Paid"@,
            OrderStatus::Approved => "Approved"@,
            OrderStatus::Cancelling => "Cancelling"@,
            OrderStatus::Cancelled => "Cancelled"@,
        }
    }

    /// Spells the status out.
    pub fn to_string(&self) -> (text: String)
        ensures
            text@ == self.name(),
    {
        match self {
            OrderStatus::Pending => String::from_str("Pending"),
            OrderStatus::Paid => String::from_str("Paid"),
            OrderStatus::Approved => String::from_str("Approved"),
            OrderStatus::Cancelling => String::from_str("Cancelling"),
            OrderStatus::Cancelled => String::from_str("Cancelled"),
        }
    }

    /// Reads a status from its name. Any other text gives `None`.
    pub fn parse(text: &str) -> (status: Option<OrderStatus>)
        ensures
            match status {
                Some(status) => text@ == status.name(),
                None => forall|status: OrderStatus| text@ != status.name(),
            },
    {
        let text = String::from_str(text);
        let status = if text == String::from_str("Pending") {
            Some(OrderStatus::Pending)
        } else if text == String::from_str("Paid") {
            Some(OrderStatus::Paid)
        } else if text == String::from_str("Approved") {
            Some(OrderStatus::Approved)
        } else if text == String::from_str("Cancelling") {
            Some(OrderStatus::Cancelling)
        } else if text == String::from_str("Cancelled") {
            Some(OrderStatus::Cancelled)
        } else {
            None
        };
        assert(status is None ==> forall|status: OrderStatus| text@ != status.name());
        status
    }
}

/// No two statuses have the same name: a name that was written by
/// [`OrderStatus::to_string`] is read back by [`OrderStatus::parse`] as the
/// status it came from.
pub proof fn lemma_name_tells_status(left: OrderStatus, right: OrderStatus)
    requires
        left.name() == right.name(),
    ensures
        left == right,
{
    reveal_strlit("Pending");
    reveal_strlit("Paid");
    reveal_strlit("Approved");
    reveal_strlit("Cancelling");
    reveal_strlit("Cancelled");
    assert("Pending"@.len() == 7);
    assert("Paid"@.len() == 4);
    assert("Approved"@.len() == 8);
    assert("Cancelling"@.len() == 10);
    assert("Cancelled"@.len() == 9);
}

/// What the payment service reports about a payment.
#[derive(Clone, Copy, Debug, PartialEq, Eq, Structural)]
pub enum PaymentStatus {
    Completed,
    Failed,
    Canceled,
}

/// What the restaurant decides about an order.
#[derive(Clone, Copy, Debug, PartialEq, Eq, Structural)]
pub enum OrderApprovalStatus {
    Approved,
    Rejected,
}

/// A delivery address.
#[derive(Clone, Debug, PartialEq, Eq)]
pub struct StreetAddress {
    pub id: u128,
    pub street: String,
    pub postal_code: String,
    pub city: String,
}

/// What a [`StreetAddress`] holds.
pub struct StreetAddressView {
    pub id: u128,
    pub street: Seq<char>,
    pub postal_code: Seq<char>,
    pub city: Seq<char>,
}

impl View for StreetAddress {
    type V = StreetAddressView;

    open spec fn view(&self) -> StreetAddressView {
        StreetAddressView {
            id: self.id,
            street: self.street@,
            postal_code: self.postal_code@,
            city: self.city@,
        }
    }
}

impl StreetAddress {
    /// Puts an address together.
    pub fn new(id: u128, street: String, postal_code: String, city: String) -> (address: Self)
        ensures
            address.id == id,
            address.street == street,
            address.postal_code == postal_code,
            address.city == city,
    {
        StreetAddress { id, street, postal_code, city }
    }
}

} // verus!
