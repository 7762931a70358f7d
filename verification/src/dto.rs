//! What clients send to the use cases and get back from them.
//!
//! UUIDs are held as 128-bit numbers, prices in minor units and times in
//! seconds since the Unix epoch.

use crate::entity::{
    carries, lemma_listed_iff_carried, listed, sub_totals, Order, OrderItemView, OrderView,
    Product, ProductView, Restaurant,
};
use crate::fresh::random_uuid;
use crate::money::Money;
use crate::value_object::{
    CustomerId, OrderApprovalStatus, OrderId, OrderItemId, OrderStatus, PaymentStatus,
    RestaurantId, StreetAddress, StreetAddressView, TrackingId,
};
use vstd::prelude::*;
use vstd::std_specs::convert::FromSpecImpl;
use vstd::string::StringExecFns;

verus! {

/// Where an order is to be delivered, as the client gives it.
#[derive(Clone, Debug)]
pub struct OrderAddress {
    pub street: String,
    pub postal_code: String,
    pub city: String,
}

impl OrderAddress {
    /// The delivery address under a new random identifier.
    pub fn into_street_address(self) -> (address: StreetAddress)
        ensures
            address.street == self.street,
            address.postal_code == self.postal_code,
            address.city == self.city,
    {
        self.into_street_address_with(random_uuid())
    }

    /// The delivery address under the given identifier.
    pub fn into_street_address_with(self, id: u128) -> (address: StreetAddress)
        ensures
            address.id == id,
            address.street == self.street,
            address.postal_code == self.postal_code,
            address.city == self.city,
    {
        StreetAddress::new(id, self.street, self.postal_code, self.city)
    }
}

/// One line of a client's order. The client names the product by its
/// identifier only and states what it expects to pay.
#[derive(Clone, Copy, Debug, PartialEq, Eq, Structural)]
pub struct OrderItem {
    pub product_id: u128,
    pub quantity: u64,
    pub price: i64,
    pub sub_total: i64,
    pub item_id: i64,
    pub order_id: u128,
}

impl OrderItem {
    /// The item as the order will hold it: its product has the client's
    /// product identifier, no name and no price.
    pub open spec fn entity(self) -> OrderItemView {
        OrderItemView {
            id: self.item_id,
            order_id: self.order_id,
            product: ProductView { id: self.product_id, name: Seq::empty(), price: 0 },
            quantity: self.quantity as nat,
            price: self.price as int,
            sub_total: self.sub_total as int,
        }
    }

    /// The item as an order holds it when nothing is known of its product.
    pub fn into_entity(self) -> (entity: crate::entity::OrderItem)
        ensures
            entity@ == self.entity(),
    {
        let product = Product::new(self.product_id, String::new(), Money::zero());
        let price = Money::new(self.price);
        let sub_total = Money::new(self.sub_total);
        let quantity = self.quantity;
        crate::entity::OrderItem::new(
            OrderItemId::from(self.item_id),
            OrderId::from(self.order_id),
            product,
            quantity,
            price,
            sub_total,
        )
    }

    /// The item as an order at a restaurant with the given catalogue holds
    /// it: its product is the catalogue's entry of the same identifier, and
    /// stays without name and price where the catalogue has none.
    pub open spec fn entity_at(self, catalogue: Seq<ProductView>) -> OrderItemView {
        match listed(catalogue, self.product_id) {
            Some(product) => OrderItemView { product, ..self.entity() },
            None => self.entity(),
        }
    }

    /// The item as an order at the given restaurant holds it.
    pub fn into_entity_at(self, restaurant: &Restaurant) -> (entity: crate::entity::OrderItem)
        ensures
            entity@ == self.entity_at(restaurant@.products),
    {
        let mut entity = self.into_entity();
        match restaurant.product(self.product_id) {
            Some(product) => {
                entity.product = product.clone();
            },
            None => {},
        }
        entity
    }
}

/// A client's request to place an order.
#[derive(Clone, Debug)]
pub struct CreateOrderCommand {
    pub customer_id: u128,
    pub restaurant_id: u128,
    pub price: i64,
    pub order_address: OrderAddress,
    pub items: Vec<OrderItem>,
}

/// The products that the items name, each without a name and a price.
pub open spec fn named_products(items: Seq<OrderItem>) -> Seq<ProductView> {
    items.map_values(|item: OrderItem| item.entity().product)
}

/// The items as an order at a restaurant with the given catalogue holds
/// them: numbered from zero in the order in which the client listed them,
/// each under the order's identifier and with its product from the
/// catalogue.
pub open spec fn numbered_items(
    items: Seq<OrderItem>,
    order_id: u128,
    catalogue: Seq<ProductView>,
) -> Seq<OrderItemView> {
    Seq::new(
        items.len(),
        |k: int| (OrderItem { item_id: k as i64, order_id, ..items[k] }).entity_at(catalogue),
    )
}

/// The sum of the subtotals that the client states.
pub open spec fn stated_total(items: Seq<OrderItem>) -> int
    decreases items.len(),
{
    if items.len() == 0 {
        0
    } else {
        stated_total(items.drop_last()) + items.last().sub_total
    }
}

/// Whether the restaurant lists the item's product at the price that the
/// client states, and that price is positive and multiplies out to the
/// stated subtotal.
pub open spec fn is_priced_as_listed(item: OrderItem, catalogue: Seq<ProductView>) -> bool {
    &&& listed(catalogue, item.product_id) matches Some(product) && product.price == item.price
    &&& item.price > 0
    &&& item.price * item.quantity == item.sub_total
}

/// The items of an order cost in all what the client states for them.
pub proof fn lemma_numbered_items_total(
    items: Seq<OrderItem>,
    order_id: u128,
    catalogue: Seq<ProductView>,
)
    ensures
        sub_totals(numbered_items(items, order_id, catalogue)) == stated_total(items),
    decreases items.len(),
{
    if items.len() > 0 {
        lemma_numbered_items_total(items.drop_last(), order_id, catalogue);
        assert(numbered_items(items, order_id, catalogue).drop_last() =~= numbered_items(
            items.drop_last(),
            order_id,
            catalogue,
        ));
    }
}

impl CreateOrderCommand {
    /// The order that the command asks for at a restaurant with the given
    /// catalogue, under the given identifiers: `Pending`, with no failure
    /// recorded.
    pub open spec fn order(
        self,
        catalogue: Seq<ProductView>,
        tracking_id: u128,
        order_id: u128,
        address_id: u128,
    ) -> OrderView {
        OrderView {
            id: order_id,
            customer_id: self.customer_id,
            restaurant_id: self.restaurant_id,
            street_address: StreetAddressView {
                id: address_id,
                street: self.order_address.street@,
                postal_code: self.order_address.postal_code@,
                city: self.order_address.city@,
            },
            price: self.price as int,
            items: numbered_items(self.items@, order_id, catalogue),
            tracking_id,
            order_status: OrderStatus::Pending,
            failure_messages: Seq::empty(),
        }
    }

    /// Whether a restaurant with the given catalogue carries every product
    /// that the command's items name.
    pub open spec fn is_carried_by(self, catalogue: Seq<ProductView>) -> bool {
        forall|k: int|
            0 <= k < self.items@.len() ==> carries(
                catalogue,
                (#[trigger] self.items@[k]).product_id,
            )
    }

    /// Whether the restaurant carries every product that the command's items
    /// name.
    pub fn is_carried(&self, restaurant: &Restaurant) -> (carried: bool)
        ensures
            carried == self.is_carried_by(restaurant@.products),
    {
        let mut index: usize = 0;
        while index < self.items.len()
            invariant
                index <= self.items.len(),
                forall|k: int|
                    0 <= k < index ==> carries(
                        restaurant@.products,
                        (#[trigger] self.items@[k]).product_id,
                    ),
            decreases self.items.len() - index,
        {
            proof {
                lemma_listed_iff_carried(
                    restaurant@.products,
                    self.items@[index as int].product_id,
                );
            }
            if restaurant.product(self.items[index].product_id).is_none() {
                return false;
            }
            index += 1;
        }
        true
    }

    /// The restaurant as the command sees it: the products that the items
    /// name, taken to be on sale. It is what the restaurant lookup is asked
    /// about.
    pub fn restaurant(&self) -> (restaurant: Restaurant)
        ensures
            restaurant@.id == self.restaurant_id,
            restaurant@.products == named_products(self.items@),
            restaurant@.active,
    {
        let mut products: Vec<Product> = Vec::new();
        let mut index: usize = 0;
        while index < self.items.len()
            invariant
                index <= self.items.len(),
                products@.len() == index,
                forall|k: int|
                    0 <= k < index ==> (#[trigger] products@[k])@
                        == self.items@[k].entity().product,
            decreases self.items.len() - index,
        {
            products.push(Product::new(self.items[index].product_id, String::new(), Money::zero()));
            index += 1;
        }
        assert(crate::entity::product_views(products@) =~= named_products(self.items@));
        Restaurant::new(self.restaurant_id, products, true)
    }

    /// The order that the command asks for at the restaurant as it was
    /// resolved, under new random identifiers for the order, its tracking and
    /// its address.
    pub fn into_order(self, restaurant: &Restaurant) -> (order: Order)
        ensures
            order@ == self.order(
                restaurant@.products,
                order@.tracking_id,
                order@.id,
                order@.street_address.id,
            ),
    {
        let tracking_id = random_uuid();
        let order_id = random_uuid();
        let address_id = random_uuid();
        self.into_order_with(restaurant, tracking_id, order_id, address_id)
    }

    /// The order that the command asks for at the restaurant as it was
    /// resolved, under the given identifiers.
    pub fn into_order_with(
        self,
        restaurant: &Restaurant,
        tracking_id: u128,
        order_id: u128,
        address_id: u128,
    ) -> (order: Order)
        ensures
            order@ == self.order(restaurant@.products, tracking_id, order_id, address_id),
    {
        let ghost numbered = numbered_items(self.items@, order_id, restaurant@.products);
        let customer_id = CustomerId::from(self.customer_id);
        let restaurant_id = RestaurantId::from(self.restaurant_id);
        let delivery_address = self.order_address.into_street_address_with(address_id);
        let price = Money::new(self.price);
        let mut order_items: Vec<crate::entity::OrderItem> = Vec::new();
        let mut index: usize = 0;
        while index < self.items.len()
            invariant
                index <= self.items.len(),
                order_items@.len() == index,
                numbered == numbered_items(self.items@, order_id, restaurant@.products),
                forall|k: int| 0 <= k < index ==> (#[trigger] order_items@[k])@ == numbered[k],
            decreases self.items.len() - index,
        {
            let mut new_item = self.items[index];
            new_item.order_id = order_id;
            new_item.item_id = #[verifier::truncate] (index as i64);
            order_items.push(new_item.into_entity_at(restaurant));
            index += 1;
        }
        assert(crate::entity::item_views(order_items@) =~= numbered);
        Order::new(
            OrderId::from(order_id),
            customer_id,
            restaurant_id,
            delivery_address,
            price,
            order_items,
            TrackingId::from(tracking_id),
        )
    }
}

/// What the client is told once its order is placed.
#[derive(Clone, Debug)]
pub struct CreateOrderResponse {
    pub order_tracking_id: u128,
    pub order_status: OrderStatus,
    pub message: String,
}

/// What a [`CreateOrderResponse`] holds.
pub struct CreateOrderResponseView {
    pub order_tracking_id: u128,
    pub order_status: OrderStatus,
    pub message: Seq<char>,
}

impl View for CreateOrderResponse {
    type V = CreateOrderResponseView;

    open spec fn view(&self) -> CreateOrderResponseView {
        CreateOrderResponseView {
            order_tracking_id: self.order_tracking_id,
            order_status: self.order_status,
            message: self.message@,
        }
    }
}

impl CreateOrderResponseView {
    /// The answer for a placed order: its tracking identifier, its status
    /// and the sentence that says it was created.
    pub open spec fn of(order: OrderView) -> CreateOrderResponseView {
        CreateOrderResponseView {
            order_tracking_id: order.tracking_id,
            order_status: order.order_status,
            message: "Order created successfully"@,
        }
    }
}

impl From<Order> for CreateOrderResponse {
    fn from(o: Order) -> (response: Self)
        ensures
            response@ == CreateOrderResponseView::of(o@),
    {
        CreateOrderResponse {
            order_tracking_id: o.tracking_id.into(),
            order_status: o.order_status,
            message: String::from_str("Order created successfully"),
        }
    }
}

impl FromSpecImpl<Order> for CreateOrderResponse {
    /// The message is new text each time, which no specification value can
    /// stand for: `from` states its result by its view instead.
    open spec fn obeys_from_spec() -> bool {
        false
    }

    open spec fn from_spec(o: Order) -> Self {
        arbitrary()
    }
}

/// A client's question about an order it placed.
#[derive(Clone, Copy, Debug)]
pub struct TrackOrderQuery {
    pub order_tracking_id: u128,
}

/// How far an order has come, and what went wrong with it, if anything.
#[derive(Clone, Debug)]
pub struct TrackOrderResponse {
    pub order_tracking_id: u128,
    pub order_status: OrderStatus,
    pub failure_messages: Vec<String>,
}

impl From<Order> for TrackOrderResponse {
    fn from(o: Order) -> (response: Self) {
        TrackOrderResponse {
            order_tracking_id: o.tracking_id.into(),
            order_status: o.order_status,
            failure_messages: o.failure_messages,
        }
    }
}

impl FromSpecImpl<Order> for TrackOrderResponse {
    open spec fn obeys_from_spec() -> bool {
        true
    }

    /// The order's tracking identifier, status and failure messages, as the
    /// order holds them.
    open spec fn from_spec(o: Order) -> Self {
        TrackOrderResponse {
            order_tracking_id: o.tracking_id@,
            order_status: o.order_status,
            failure_messages: o.failure_messages,
        }
    }
}

/// The payment service's answer, as the payment listener receives it.
#[derive(Clone, Debug)]
pub struct PaymentResponse {
    pub id: String,
    pub saga_id: String,
    pub order_id: String,
    pub payment_id: String,
    pub customer_id: String,
    pub price: i64,
    pub created_at: i64,
    pub payment_status: PaymentStatus,
    pub failure_messages: Vec<String>,
}

/// The restaurant's answer, as the approval listener receives it.
#[derive(Clone, Debug)]
pub struct RestaurantApprovalResponse {
    pub id: String,
    pub saga_id: String,
    pub order_id: String,
    pub restaurant_id: String,
    pub created_at: i64,
    pub order_approval_status: OrderApprovalStatus,
    pub failure_messages: Vec<String>,
}

} // verus!
