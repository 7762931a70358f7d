//! The rules by which an order is initiated and moves from status to status.

use crate::entity::{
    all_prices_valid, sub_totals, texts, Order, OrderItem, OrderView, Product, Restaurant,
    RestaurantView,
};
use crate::error::{refusal, OrderDomainError, OrderDomainErrorView};
use crate::event::{OrderCancelled, OrderCreated, OrderEventView, OrderPaid};
use crate::fresh::utc_now;
use crate::value_object::OrderStatus;
use vstd::prelude::*;

verus! {

/// Why an order is not initiated at a restaurant, if it is not: an inactive
/// restaurant is refused before any price is looked at.
pub open spec fn initiation_refusal(
    order: OrderView,
    restaurant: RestaurantView,
) -> Option<OrderDomainErrorView> {
    if !restaurant.active {
        Some(OrderDomainErrorView::InactiveRestaurant)
    } else {
        order.price_refusal()
    }
}

/// An inactive restaurant has every order refused with `InactiveRestaurant`,
/// whatever the order's prices are.
pub proof fn lemma_inactive_restaurant_refused(order: OrderView, restaurant: RestaurantView)
    requires
        !restaurant.active,
    ensures
        initiation_refusal(order, restaurant) == Some(OrderDomainErrorView::InactiveRestaurant),
{
}

/// An order is only initiated if the subtotals of its items add up to its
/// total.
pub proof fn lemma_initiated_order_adds_up(order: OrderView, restaurant: RestaurantView)
    requires
        initiation_refusal(order, restaurant) is None,
    ensures
        sub_totals(order.items) == order.price,
{
}

/// At an active restaurant, an order with a positive total and an item whose
/// price is not the price of its product, or does not multiply out to its
/// subtotal, is refused with `OrderItemPriceInvalid`.
pub proof fn lemma_invalid_item_refused(order: OrderView, restaurant: RestaurantView, k: int)
    requires
        restaurant.active,
        order.price > 0,
        0 <= k < order.items.len(),
        order.items[k].price != order.items[k].product.price
            || order.items[k].price * order.items[k].quantity != order.items[k].sub_total,
    ensures
        initiation_refusal(order, restaurant) == Some(OrderDomainErrorView::OrderItemPriceInvalid),
{
    assert(!order.items[k].is_price_valid());
}

/// At an active restaurant, an order with a positive total whose items all
/// have valid prices, but whose subtotals do not add up to the total, is
/// refused with `OrderTotalPriceMismatch`.
pub proof fn lemma_total_mismatch_refused(order: OrderView, restaurant: RestaurantView)
    requires
        restaurant.active,
        order.price > 0,
        all_prices_valid(order.items),
        sub_totals(order.items) != order.price,
    ensures
        initiation_refusal(order, restaurant)
            == Some(OrderDomainErrorView::OrderTotalPriceMismatch),
{
}

/// The product once the catalogue has been gone through from its first
/// entry to its last: every entry that has the name and the price of the
/// product, as it stands by then, hands its own name and price over.
pub open spec fn confirmed(product: Product, catalogue: Seq<Product>) -> Product
    decreases catalogue.len(),
{
    if catalogue.len() == 0 {
        product
    } else {
        let before = confirmed(product, catalogue.drop_last());
        let entry = catalogue.last();
        if entry@.matches(before@) {
            Product { name: entry.name, price: entry.price, ..before }
        } else {
            before
        }
    }
}

/// The item with its product confirmed against the catalogue, and nothing
/// else about it changed.
pub open spec fn confirmed_item(item: OrderItem, catalogue: Seq<Product>) -> OrderItem {
    OrderItem { product: confirmed(item.product, catalogue), ..item }
}

/// A confirmed product holds what it held before: an entry is only taken
/// where it already agrees with the product.
pub proof fn lemma_confirmed_holds_the_same(product: Product, catalogue: Seq<Product>)
    ensures
        confirmed(product, catalogue)@ == product@,
    decreases catalogue.len(),
{
    if catalogue.len() > 0 {
        lemma_confirmed_holds_the_same(product, catalogue.drop_last());
    }
}

/// Brings the product of every item in line with the restaurant's catalogue:
/// where a catalogue entry has the name and the price of an item's product,
/// the product takes the entry's name and price. Where several entries have
/// them, the last one is the one whose name and price the product ends up
/// with. Nothing else about the order changes.
///
/// An entry is only taken where it already agrees with the product, so the
/// order holds afterwards what it held before.
pub fn confirm_products(order: &mut Order, restaurant: &Restaurant)
    ensures
        *final(order) == (Order { items: final(order).items, ..*old(order) }),
        final(order).items@ == old(order).items@.map_values(
            |item: OrderItem| confirmed_item(item, restaurant.products@),
        ),
        final(order)@ == old(order)@,
{
    let ghost catalogue = restaurant.products@;
    let ghost items = old(order).items@;
    let mut i: usize = 0;
    while i < order.items.len()
        invariant
            catalogue == restaurant.products@,
            items == old(order).items@,
            *order == (Order { items: order.items, ..*old(order) }),
            order.items@.len() == items.len(),
            i <= items.len(),
            forall|k: int| 0 <= k < i ==> order.items@[k] == confirmed_item(items[k], catalogue),
            forall|k: int| i <= k < items.len() ==> order.items@[k] == items[k],
        decreases order.items.len() - i,
    {
        let mut j: usize = 0;
        assert(catalogue.take(0).len() == 0);
        while j < restaurant.products.len()
            invariant
                catalogue == restaurant.products@,
                items == old(order).items@,
                *order == (Order { items: order.items, ..*old(order) }),
                order.items@.len() == items.len(),
                i < items.len(),
                j <= catalogue.len(),
                forall|k: int|
                    0 <= k < i ==> order.items@[k] == confirmed_item(items[k], catalogue),
                forall|k: int| i < k < items.len() ==> order.items@[k] == items[k],
                order.items@[i as int] == confirmed_item(items[i as int], catalogue.take(j as int)),
            decreases restaurant.products.len() - j,
        {
            proof {
                assert(catalogue.take(j + 1).drop_last() =~= catalogue.take(j as int));
                assert(catalogue.take(j + 1).last() == catalogue[j as int]);
            }
            if restaurant.products[j] == order.items[i].product {
                order.items[i].product.name = restaurant.products[j].name.clone();
                order.items[i].product.price = restaurant.products[j].price;
            }
            j += 1;
        }
        assert(catalogue.take(j as int) =~= catalogue);
        i += 1;
    }
    proof {
        let after = items.map_values(|item: OrderItem| confirmed_item(item, catalogue));
        assert(order.items@ =~= after);
        assert forall|k: int| 0 <= k < items.len() implies order.items@[k]@ == items[k]@ by {
            lemma_confirmed_holds_the_same(items[k].product, catalogue);
        }
        assert(order@.items =~= old(order)@.items);
    }
}

/// The operations that initiate an order and change its status. No status
/// changes anywhere else.
///
/// The status moves as follows: `Pending` to `Paid` by paying, `Paid` to
/// `Approved` by approving, `Paid` to `Cancelling` when the payment is to be
/// undone, and `Cancelling` or `Pending` to `Cancelled` by cancelling.
///
/// Each event carries the time at which it was made, read from the clock;
/// the contracts here say everything else about the result. The functions of
/// [`OrderDomainServiceImpl`] that take the time as an argument say the rest.
pub trait OrderDomainService: Send + Sync {
    /// Initiates `order` at `restaurant`: refuses an inactive restaurant,
    /// brings the items' products in line with the catalogue, and checks the
    /// order's prices. The order stays `Pending`.
    fn validate_and_initiate_order(
        &self,
        order: Order,
        restaurant: Restaurant,
    ) -> (outcome: Result<OrderCreated, OrderDomainError>)
        ensures
            refusal(outcome) == initiation_refusal(order@, restaurant@),
            outcome matches Ok(event) ==> event.order@ == order@,
    ;

    /// Pays a `Pending` order; in any other status `"pay"` is refused.
    fn pay_order(order: Order) -> (outcome: Result<OrderPaid, OrderDomainError>)
        ensures
            refusal(outcome) == status_refusal(order.order_status == OrderStatus::Pending, "pay"@),
            outcome matches Ok(event) ==> event.order@ == order@.with_status(OrderStatus::Paid),
    ;

    /// Approves a `Paid` order; in any other status `"approve"` is refused.
    fn approve_order(order: Order) -> (outcome: Result<(), OrderDomainError>)
        ensures
            refusal(outcome) == status_refusal(order.order_status == OrderStatus::Paid, "approve"@),
    ;

    /// Starts undoing the payment of a `Paid` order, which becomes
    /// `Cancelling` and takes the failure messages; in any other status
    /// `"init cancel"` is refused.
    fn cancel_order_payment(
        order: Order,
        failure_messages: Vec<String>,
    ) -> (outcome: Result<OrderCancelled, OrderDomainError>)
        ensures
            refusal(outcome) == status_refusal(
                order.order_status == OrderStatus::Paid,
                "init cancel"@,
            ),
            outcome matches Ok(event) ==> event.order@
                == order@.with_status(OrderStatus::Cancelling).with_failures(
                texts(failure_messages@),
            ),
    ;

    /// Cancels an order that is `Cancelling` or `Pending`; in any other
    /// status `"cancel"` is refused.
    fn cancel_order(
        order: Order,
        failure_messages: Vec<String>,
    ) -> (outcome: Result<(), OrderDomainError>)
        ensures
            refusal(outcome) == status_refusal(order@.can_be_cancelled(), "cancel"@),
    ;
}

/// The refusal of `operation` unless the order's status allows it.
pub open spec fn status_refusal(
    allowed: bool,
    operation: Seq<char>,
) -> Option<OrderDomainErrorView> {
    if allowed {
        None
    } else {
        Some(OrderDomainErrorView::InvalidOrderStatus(operation))
    }
}

/// The domain service.
pub struct OrderDomainServiceImpl {}

impl OrderDomainServiceImpl {
    /// Initiates `order` at `restaurant` as of `created_at`: refuses an
    /// inactive restaurant, brings the items' products in line with the
    /// catalogue, and checks the order's prices. The event holds the order as
    /// it was handed in, still `Pending`.
    pub fn validate_and_initiate_order_at(
        order: Order,
        restaurant: Restaurant,
        created_at: i64,
    ) -> (outcome: Result<OrderCreated, OrderDomainError>)
        ensures
            refusal(outcome) == initiation_refusal(order@, restaurant@),
            outcome matches Ok(event) ==> event@ == (OrderEventView { order: order@, created_at }),
    {
        if !restaurant.is_active() {
            return Err(OrderDomainError::InactiveRestaurant);
        } else {
            let mut order = order;
            confirm_products(&mut order, &restaurant);
            order.validate_order()?;
            Ok(OrderCreated { order, created_at })
        }
    }

    /// Pays a `Pending` order as of `created_at`; in any other status `"pay"`
    /// is refused.
    pub fn pay_order_at(
        order: Order,
        created_at: i64,
    ) -> (outcome: Result<OrderPaid, OrderDomainError>)
        ensures
            refusal(outcome) == status_refusal(order.order_status == OrderStatus::Pending, "pay"@),
            outcome matches Ok(event) ==> event@ == (OrderEventView {
                order: order@.with_status(OrderStatus::Paid),
                created_at,
            }),
    {
        let mut order = order;
        order.pay()?;
        Ok(OrderPaid { order, created_at })
    }

    /// Starts undoing the payment of a `Paid` order as of `created_at`; in
    /// any other status `"init cancel"` is refused.
    pub fn cancel_order_payment_at(
        order: Order,
        failure_messages: Vec<String>,
        created_at: i64,
    ) -> (outcome: Result<OrderCancelled, OrderDomainError>)
        ensures
            refusal(outcome) == status_refusal(
                order.order_status == OrderStatus::Paid,
                "init cancel"@,
            ),
            outcome matches Ok(event) ==> event@ == (OrderEventView {
                order: order@.with_status(OrderStatus::Cancelling).with_failures(
                    texts(failure_messages@),
                ),
                created_at,
            }),
    {
        let mut order = order;
        order.init_cancel(failure_messages)?;
        Ok(OrderCancelled { order, created_at })
    }
}

impl OrderDomainService for OrderDomainServiceImpl {
    fn validate_and_initiate_order(
        &self,
        order: Order,
        restaurant: Restaurant,
    ) -> (outcome: Result<OrderCreated, OrderDomainError>) {
        Self::validate_and_initiate_order_at(order, restaurant, utc_now())
    }

    fn pay_order(order: Order) -> (outcome: Result<OrderPaid, OrderDomainError>) {
        Self::pay_order_at(order, utc_now())
    }

    fn approve_order(order: Order) -> (outcome: Result<(), OrderDomainError>) {
        let mut order = order;
        order.approve()?;
        Ok(())
    }

    fn cancel_order_payment(
        order: Order,
        failure_messages: Vec<String>,
    ) -> (outcome: Result<OrderCancelled, OrderDomainError>) {
        Self::cancel_order_payment_at(order, failure_messages, utc_now())
    }

    fn cancel_order(
        order: Order,
        failure_messages: Vec<String>,
    ) -> (outcome: Result<(), OrderDomainError>) {
        let mut order = order;
        order.cancel(failure_messages)
    }
}

} // verus!
