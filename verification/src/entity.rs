//! Customers, restaurants, products and the order aggregate.

use crate::error::{refusal, OrderDomainError, OrderDomainErrorView};
use crate::money::Money;
use crate::value_object::{
    CustomerId, OrderId, OrderItemId, OrderStatus, ProductId, RestaurantId, StreetAddress,
    StreetAddressView, TrackingId,
};
use vstd::prelude::*;
use vstd::std_specs::cmp::PartialEqSpecImpl;
use vstd::std_specs::convert::FromSpecImpl;

verus! {

/// Something that is told apart by its identifier.
#[derive(Clone, Copy, Debug)]
pub struct BaseEntity<ID: Clone> {
    pub id: ID,
}

impl<ID: Clone> BaseEntity<ID> {
    /// The entity with the given identifier.
    pub fn new(id: ID) -> (entity: Self)
        ensures
            entity.id == id,
    {
        BaseEntity { id }
    }
}

/// An entity through which everything it contains is reached and changed.
#[derive(Clone, Copy, Debug)]
pub struct AggregateRoot<ID: Clone> {
    pub base_entity: BaseEntity<ID>,
}

impl<ID: Clone> AggregateRoot<ID> {
    /// The aggregate with the given identifier.
    pub fn new(id: ID) -> (root: Self)
        ensures
            root.base_entity.id == id,
    {
        AggregateRoot { base_entity: BaseEntity { id } }
    }
}

/// A customer. Only its existence matters to an order.
#[derive(Clone, Copy, Debug)]
pub struct Customer {
    pub aggregate_root: AggregateRoot<CustomerId>,
}

impl View for Customer {
    type V = u128;

    /// The customer's identifier.
    open spec fn view(&self) -> u128 {
        self.aggregate_root.base_entity.id@
    }
}

impl Customer {
    /// The customer with the given identifier.
    pub fn new(customer_id: u128) -> (customer: Self)
        ensures
            customer@ == customer_id,
    {
        Customer { aggregate_root: AggregateRoot::new(CustomerId::from(customer_id)) }
    }
}

impl From<Customer> for u128 {
    fn from(customer: Customer) -> (id: u128) {
        customer.aggregate_root.base_entity.id.base_id.value
    }
}

impl FromSpecImpl<Customer> for u128 {
    open spec fn obeys_from_spec() -> bool {
        true
    }

    open spec fn from_spec(customer: Customer) -> u128 {
        customer@
    }
}

/// A product as a restaurant sells it, or as an order item remembers it.
#[derive(Debug)]
pub struct Product {
    pub base_entity: BaseEntity<ProductId>,
    pub name: String,
    pub price: Money,
}

/// What a [`Product`] holds.
pub struct ProductView {
    pub id: u128,
    pub name: Seq<char>,
    pub price: int,
}

impl ProductView {
    /// Whether two products carry the same name and the same price. Their
    /// identifiers play no part.
    pub open spec fn matches(self, other: ProductView) -> bool {
        self.name == other.name && self.price == other.price
    }
}

impl View for Product {
    type V = ProductView;

    open spec fn view(&self) -> ProductView {
        ProductView { id: self.base_entity.id@, name: self.name@, price: self.price@ }
    }
}

impl Product {
    /// A product with the given identifier, name and price.
    pub fn new(product_id: u128, name: String, price: Money) -> (product: Self)
        ensures
            product.base_entity.id@ == product_id,
            product.name == name,
            product.price == price,
    {
        Product { base_entity: BaseEntity::new(ProductId::from(product_id)), name, price }
    }
}

impl Clone for Product {
    fn clone(&self) -> (copy: Self)
        ensures
            copy == *self,
    {
        Product { base_entity: self.base_entity, name: self.name.clone(), price: self.price }
    }
}

impl PartialEq for Product {
    /// Products are equal when their names and prices are.
    fn eq(&self, other: &Self) -> (equal: bool) {
        self.name == other.name && self.price == other.price
    }
}

impl PartialEqSpecImpl for Product {
    open spec fn obeys_eq_spec() -> bool {
        true
    }

    open spec fn eq_spec(&self, other: &Self) -> bool {
        self@.matches(other@)
    }
}

impl From<Product> for u128 {
    fn from(product: Product) -> (id: u128) {
        product.base_entity.id.base_id.value
    }
}

impl FromSpecImpl<Product> for u128 {
    open spec fn obeys_from_spec() -> bool {
        true
    }

    open spec fn from_spec(product: Product) -> u128 {
        product@.id
    }
}

/// The views of a run of products.
pub open spec fn product_views(products: Seq<Product>) -> Seq<ProductView> {
    products.map_values(|product: Product| product@)
}

/// The first of the products with the given identifier, if there is one.
pub open spec fn listed(products: Seq<ProductView>, product_id: u128) -> Option<ProductView>
    decreases products.len(),
{
    if products.len() == 0 {
        None
    } else if products.first().id == product_id {
        Some(products.first())
    } else {
        listed(products.drop_first(), product_id)
    }
}

/// Whether one of the products has the given identifier.
pub open spec fn carries(products: Seq<ProductView>, product_id: u128) -> bool {
    exists|j: int| 0 <= j < products.len() && (#[trigger] products[j]).id == product_id
}

/// A product is listed exactly when one of the products has its identifier,
/// and what is listed then has that identifier.
pub proof fn lemma_listed_iff_carried(products: Seq<ProductView>, product_id: u128)
    ensures
        listed(products, product_id) is Some <==> carries(products, product_id),
        listed(products, product_id) matches Some(product) ==> product.id == product_id,
    decreases products.len(),
{
    if products.len() > 0 {
        let rest = products.drop_first();
        lemma_listed_iff_carried(rest, product_id);
        if products.first().id != product_id {
            if carries(rest, product_id) {
                let j = choose|j: int| 0 <= j < rest.len() && (#[trigger] rest[j]).id == product_id;
                assert(products[j + 1].id == product_id);
            }
            if carries(products, product_id) {
                let j = choose|j: int|
                    0 <= j < products.len() && (#[trigger] products[j]).id == product_id;
                assert(rest[j - 1].id == product_id);
            }
        } else {
            assert(products[0].id == product_id);
        }
    }
}

/// A restaurant as it stands when an order is placed: what it sells and
/// whether it takes orders.
#[derive(Clone, Debug)]
pub struct Restaurant {
    pub base_entity: BaseEntity<RestaurantId>,
    pub products: Vec<Product>,
    pub active: bool,
}

/// What a [`Restaurant`] holds.
pub struct RestaurantView {
    pub id: u128,
    pub products: Seq<ProductView>,
    pub active: bool,
}

impl View for Restaurant {
    type V = RestaurantView;

    open spec fn view(&self) -> RestaurantView {
        RestaurantView {
            id: self.base_entity.id@,
            products: product_views(self.products@),
            active: self.active,
        }
    }
}

impl Restaurant {
    /// Whether the restaurant takes orders.
    pub fn is_active(&self) -> (active: bool)
        ensures
            active == self@.active,
    {
        self.active
    }

    /// The catalogue's first entry for the product with the given
    /// identifier, if the restaurant sells it.
    pub fn product(&self, product_id: u128) -> (found: Option<&Product>)
        ensures
            match found {
                Some(product) => listed(self@.products, product_id) == Some(product@),
                None => listed(self@.products, product_id) is None,
            },
    {
        let ghost products = self@.products;
        let mut index: usize = 0;
        assert(products.skip(0) =~= products);
        while index < self.products.len()
            invariant
                index <= self.products.len(),
                products == self@.products,
                listed(products, product_id) == listed(products.skip(index as int), product_id),
            decreases self.products.len() - index,
        {
            assert(products.skip(index as int).first() == self.products@[index as int]@);
            assert(products.skip(index as int).drop_first() =~= products.skip(index as int + 1));
            if self.products[index].base_entity.id.base_id.value == product_id {
                return Some(&self.products[index]);
            }
            index += 1;
        }
        None
    }

    /// A restaurant with the given identifier, catalogue and availability.
    pub fn new(restaurant_id: u128, products: Vec<Product>, active: bool) -> (restaurant: Self)
        ensures
            restaurant.base_entity.id@ == restaurant_id,
            restaurant.products == products,
            restaurant.active == active,
    {
        let base_id = crate::value_object::BaseId::new(restaurant_id);
        let restaurant_id = RestaurantId { base_id };
        let base_entity = BaseEntity::new(restaurant_id);
        Restaurant { base_entity, products, active }
    }
}

impl From<Restaurant> for u128 {
    fn from(restaurant: Restaurant) -> (id: u128) {
        restaurant.base_entity.id.base_id.value
    }
}

impl FromSpecImpl<Restaurant> for u128 {
    open spec fn obeys_from_spec() -> bool {
        true
    }

    open spec fn from_spec(restaurant: Restaurant) -> u128 {
        restaurant@.id
    }
}

/// One line of an order: a product, how many of it, and what that costs.
#[derive(Clone, Debug)]
pub struct OrderItem {
    pub base_entity: BaseEntity<OrderItemId>,
    pub order_id: OrderId,
    pub product: Product,
    pub quantity: u64,
    pub price: Money,
    pub sub_total: Money,
}

/// What an [`OrderItem`] holds.
pub struct OrderItemView {
    pub id: i64,
    pub order_id: u128,
    pub product: ProductView,
    pub quantity: nat,
    pub price: int,
    pub sub_total: int,
}

impl OrderItemView {
    /// The item's unit price is positive, is the price of its product, and
    /// times the quantity gives the subtotal.
    pub open spec fn is_price_valid(self) -> bool {
        &&& self.price > 0
        &&& self.price == self.product.price
        &&& self.price * self.quantity == self.sub_total
    }
}

impl View for OrderItem {
    type V = OrderItemView;

    open spec fn view(&self) -> OrderItemView {
        OrderItemView {
            id: self.base_entity.id@,
            order_id: self.order_id@,
            product: self.product@,
            quantity: self.quantity as nat,
            price: self.price@,
            sub_total: self.sub_total@,
        }
    }
}

impl OrderItem {
    /// Puts an item together.
    pub fn new(
        item_id: OrderItemId,
        order_id: OrderId,
        product: Product,
        quantity: u64,
        price: Money,
        sub_total: Money,
    ) -> (item: Self)
        ensures
            item.base_entity.id == item_id,
            item.order_id == order_id,
            item.product == product,
            item.quantity == quantity,
            item.price == price,
            item.sub_total == sub_total,
    {
        let base_entity = BaseEntity::new(item_id);
        OrderItem { base_entity, order_id, product, quantity, price, sub_total }
    }

    /// Whether the item's prices agree with each other and with its product.
    /// A product that overflows `i64` cannot equal the subtotal, so such an
    /// item is not valid.
    pub fn is_price_valid(&self) -> (valid: bool)
        ensures
            valid == self@.is_price_valid(),
    {
        if !self.price.is_greater_than_zero() || self.price != self.product.price {
            return false;
        }
        match self.price.checked_mul(self.quantity) {
            Some(total) => total == self.sub_total,
            None => false,
        }
    }
}

/// The views of a run of order items.
pub open spec fn item_views(items: Seq<OrderItem>) -> Seq<OrderItemView> {
    items.map_values(|item: OrderItem| item@)
}

/// The contents of a run of strings.
pub open spec fn texts(strings: Seq<String>) -> Seq<Seq<char>> {
    strings.map_values(|text: String| text@)
}

/// The sum of the items' subtotals.
pub open spec fn sub_totals(items: Seq<OrderItemView>) -> int
    decreases items.len(),
{
    if items.len() == 0 {
        0
    } else {
        sub_totals(items.drop_last()) + items.last().sub_total
    }
}

/// Whether every item's prices are valid.
pub open spec fn all_prices_valid(items: Seq<OrderItemView>) -> bool {
    forall|k: int| 0 <= k < items.len() ==> (#[trigger] items[k]).is_price_valid()
}

/// Taking one more item adds its subtotal to the sum.
pub proof fn lemma_sub_totals_step(items: Seq<OrderItemView>, n: int)
    requires
        0 <= n < items.len(),
    ensures
        sub_totals(items.take(n + 1)) == sub_totals(items.take(n)) + items[n].sub_total,
{
    assert(items.take(n + 1).drop_last() =~= items.take(n));
}

/// Items with valid prices have a subtotal that is not negative.
pub proof fn lemma_valid_sub_total_not_negative(item: OrderItemView)
    requires
        item.is_price_valid(),
    ensures
        item.sub_total >= 0,
{
    assert(item.price * item.quantity >= 0) by (nonlinear_arith)
        requires
            item.price > 0,
            item.quantity >= 0,
    ;
}

/// An order: who ordered what from whom, where it goes, what it costs and how
/// far it has come.
///
/// Whether the items' subtotals add up to `price` is checked when the order
/// is initiated and not again afterwards.
#[derive(Clone, Debug)]
pub struct Order {
    pub aggregate_root: AggregateRoot<OrderId>,
    pub customer_id: CustomerId,
    pub restaurant_id: RestaurantId,
    pub street_address: StreetAddress,
    pub price: Money,
    pub items: Vec<OrderItem>,
    pub tracking_id: TrackingId,
    pub order_status: OrderStatus,
    pub failure_messages: Vec<String>,
}

/// What an [`Order`] holds.
pub struct OrderView {
    pub id: u128,
    pub customer_id: u128,
    pub restaurant_id: u128,
    pub street_address: StreetAddressView,
    pub price: int,
    pub items: Seq<OrderItemView>,
    pub tracking_id: u128,
    pub order_status: OrderStatus,
    pub failure_messages: Seq<Seq<char>>,
}

impl OrderView {
    /// Why the total is refused, if it is: it must be strictly positive.
    pub open spec fn total_price_refusal(self) -> Option<OrderDomainErrorView> {
        if self.price > 0 {
            None
        } else {
            Some(OrderDomainErrorView::TotalPriceZeroError)
        }
    }

    /// Why the items' prices are refused, if they are: an item whose prices
    /// are not valid comes first, then a sum that is not the order's total.
    pub open spec fn items_price_refusal(self) -> Option<OrderDomainErrorView> {
        if !all_prices_valid(self.items) {
            Some(OrderDomainErrorView::OrderItemPriceInvalid)
        } else if sub_totals(self.items) != self.price {
            Some(OrderDomainErrorView::OrderTotalPriceMismatch)
        } else {
            None
        }
    }

    /// Why the order's prices are refused, if they are: the total is looked
    /// at before the items.
    pub open spec fn price_refusal(self) -> Option<OrderDomainErrorView> {
        if self.total_price_refusal() is Some {
            self.total_price_refusal()
        } else {
            self.items_price_refusal()
        }
    }

    /// Whether the order is in a status from which it can be cancelled right
    /// away: `Cancelling`, or `Pending` when it was never paid.
    pub open spec fn can_be_cancelled(self) -> bool {
        self.order_status == OrderStatus::Cancelling || self.order_status == OrderStatus::Pending
    }

    /// The same order in another status.
    pub open spec fn with_status(self, order_status: OrderStatus) -> OrderView {
        OrderView { order_status, ..self }
    }

    /// The same order with more failure messages at the end of its list.
    pub open spec fn with_failures(self, failure_messages: Seq<Seq<char>>) -> OrderView {
        OrderView { failure_messages: self.failure_messages + failure_messages, ..self }
    }
}

impl View for Order {
    type V = OrderView;

    open spec fn view(&self) -> OrderView {
        OrderView {
            id: self.aggregate_root.base_entity.id@,
            customer_id: self.customer_id@,
            restaurant_id: self.restaurant_id@,
            street_address: self.street_address@,
            price: self.price@,
            items: item_views(self.items@),
            tracking_id: self.tracking_id@,
            order_status: self.order_status,
            failure_messages: texts(self.failure_messages@),
        }
    }
}

impl From<Order> for u128 {
    fn from(order: Order) -> (id: u128) {
        order.aggregate_root.base_entity.id.base_id.value
    }
}

impl FromSpecImpl<Order> for u128 {
    open spec fn obeys_from_spec() -> bool {
        true
    }

    open spec fn from_spec(order: Order) -> u128 {
        order@.id
    }
}

impl Order {
    /// A new order: `Pending`, with no failure recorded.
    pub fn new(
        order_id: OrderId,
        customer_id: CustomerId,
        restaurant_id: RestaurantId,
        street_address: StreetAddress,
        price: Money,
        items: Vec<OrderItem>,
        tracking_id: TrackingId,
    ) -> (order: Self)
        ensures
            order.aggregate_root.base_entity.id == order_id,
            order.customer_id == customer_id,
            order.restaurant_id == restaurant_id,
            order.street_address == street_address,
            order.price == price,
            order.items == items,
            order.tracking_id == tracking_id,
            order.order_status == OrderStatus::Pending,
            order@.failure_messages == Seq::<Seq<char>>::empty(),
    {
        let failure_messages: Vec<String> = Vec::new();
        assert(texts(failure_messages@) =~= Seq::empty());
        Order {
            aggregate_root: AggregateRoot::new(order_id),
            customer_id,
            restaurant_id,
            street_address,
            price,
            items,
            tracking_id,
            order_status: OrderStatus::Pending,
            failure_messages,
        }
    }

    /// Accepts the total only if it is strictly positive.
    pub fn validate_total_price(&self) -> (outcome: Result<(), OrderDomainError>)
        ensures
            refusal(outcome) == self@.total_price_refusal(),
    {
        if !self.price.is_greater_than_zero() {
            return Err(OrderDomainError::TotalPriceZeroError);
        }
        Ok(())
    }

    /// Accepts the items only if each has valid prices and their subtotals
    /// add up to the order's total.
    pub fn validate_items_price(&self) -> (outcome: Result<(), OrderDomainError>)
        ensures
            refusal(outcome) == self@.items_price_refusal(),
    {
        let ghost items = self@.items;
        let mut order_items_total_price = Money::new(0);
        let mut out_of_range = false;
        let mut index: usize = 0;
        while index < self.items.len()
            invariant
                items == self@.items,
                index <= self.items.len(),
                all_prices_valid(items.take(index as int)),
                sub_totals(items.take(index as int)) >= 0,
                !out_of_range ==> order_items_total_price@ == sub_totals(items.take(index as int)),
                out_of_range ==> sub_totals(items.take(index as int)) > i64::MAX,
            decreases self.items.len() - index,
        {
            let item = &self.items[index];
            assert(item@ == items[index as int]);
            if item.is_price_valid() {
                proof {
                    lemma_sub_totals_step(items, index as int);
                    lemma_valid_sub_total_not_negative(items[index as int]);
                    let more = items.take(index + 1);
                    assert forall|k: int| 0 <= k < more.len() implies (
                    #[trigger] more[k]).is_price_valid() by {
                        if k < index {
                            assert(items.take(index as int)[k].is_price_valid());
                        }
                    }
                }
                if !out_of_range {
                    match order_items_total_price.checked_add(item.sub_total) {
                        Some(total) => {
                            order_items_total_price = total;
                        },
                        None => {
                            out_of_range = true;
                        },
                    }
                }
            } else {
                return Err(OrderDomainError::OrderItemPriceInvalid);
            }
            index += 1;
        }
        assert(items.take(index as int) =~= items);
        if out_of_range || order_items_total_price != self.price {
            return Err(OrderDomainError::OrderTotalPriceMismatch);
        }
        Ok(())
    }

    /// Accepts the order's prices: first the total, then the items.
    pub fn validate_order(&self) -> (outcome: Result<(), OrderDomainError>)
        ensures
            refusal(outcome) == self@.price_refusal(),
    {
        self.validate_total_price()?;
        self.validate_items_price()?;
        Ok(())
    }

    /// Marks a `Pending` order as `Paid`. An order in any other status is
    /// left as it is and the operation `"pay"` is refused.
    pub fn pay(&mut self) -> (outcome: Result<(), OrderDomainError>)
        ensures
            old(self).order_status == OrderStatus::Pending ==> outcome is Ok
                && final(self)@ == old(self)@.with_status(OrderStatus::Paid),
            old(self).order_status != OrderStatus::Pending ==> *final(self) == *old(self)
                && refusal(outcome) == Some(OrderDomainErrorView::InvalidOrderStatus("pay"@)),
    {
        if self.order_status != OrderStatus::Pending {
            return Err(OrderDomainError::invalid_status("pay"));
        }
        self.order_status = OrderStatus::Paid;
        Ok(())
    }

    /// Marks a `Paid` order as `Approved`. An order in any other status is
    /// left as it is and the operation `"approve"` is refused.
    pub fn approve(&mut self) -> (outcome: Result<(), OrderDomainError>)
        ensures
            old(self).order_status == OrderStatus::Paid ==> outcome is Ok
                && final(self)@ == old(self)@.with_status(OrderStatus::Approved),
            old(self).order_status != OrderStatus::Paid ==> *final(self) == *old(self)
                && refusal(outcome) == Some(OrderDomainErrorView::InvalidOrderStatus("approve"@)),
    {
        if self.order_status != OrderStatus::Paid {
            return Err(OrderDomainError::invalid_status("approve"));
        }
        self.order_status = OrderStatus::Approved;
        Ok(())
    }

    /// Starts the cancellation of a `Paid` order: it becomes `Cancelling` and
    /// the failure messages go to the end of its list. An order in any other
    /// status is left as it is and the operation `"init cancel"` is refused.
    pub fn init_cancel(
        &mut self,
        failure_messages: Vec<String>,
    ) -> (outcome: Result<(), OrderDomainError>)
        ensures
            old(self).order_status == OrderStatus::Paid ==> outcome is Ok
                && final(self)@ == old(self)@.with_status(OrderStatus::Cancelling).with_failures(
                texts(failure_messages@),
            ),
            old(self).order_status != OrderStatus::Paid ==> *final(self) == *old(self)
                && refusal(outcome) == Some(
                OrderDomainErrorView::InvalidOrderStatus("init cancel"@),
            ),
    {
        if self.order_status != OrderStatus::Paid {
            return Err(OrderDomainError::invalid_status("init cancel"));
        }
        self.order_status = OrderStatus::Cancelling;
        let mut added = failure_messages;
        self.failure_messages.append(&mut added);
        assert(texts(self.failure_messages@) =~= texts(old(self).failure_messages@)
            + texts(failure_messages@));
        Ok(())
    }

    /// Cancels an order that is `Cancelling` or still `Pending`: it becomes
    /// `Cancelled` and the failure messages go to the end of its list. An
    /// order in any other status is left as it is and the operation
    /// `"cancel"` is refused.
    pub fn cancel(
        &mut self,
        failure_messages: Vec<String>,
    ) -> (outcome: Result<(), OrderDomainError>)
        ensures
            old(self)@.can_be_cancelled() ==> outcome is Ok
                && final(self)@ == old(self)@.with_status(OrderStatus::Cancelled).with_failures(
                texts(failure_messages@),
            ),
            !old(self)@.can_be_cancelled() ==> *final(self) == *old(self)
                && refusal(outcome) == Some(OrderDomainErrorView::InvalidOrderStatus("cancel"@)),
    {
        let can_be_cancelled = self.order_status == OrderStatus::Cancelling
            || self.order_status == OrderStatus::Pending;
        if !can_be_cancelled {
            return Err(OrderDomainError::invalid_status("cancel"));
        }
        self.order_status = OrderStatus::Cancelled;
        let mut added = failure_messages;
        self.failure_messages.append(&mut added);
        assert(texts(self.failure_messages@) =~= texts(old(self).failure_messages@)
            + texts(failure_messages@));
        Ok(())
    }
}

} // verus!
