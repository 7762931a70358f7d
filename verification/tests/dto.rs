use ordering_service::dto::{
    CreateOrderCommand, CreateOrderResponse, OrderAddress, OrderItem, TrackOrderResponse,
};
use ordering_service::entity::{Order, Product, Restaurant};
use ordering_service::money::Money;
use ordering_service::value_object::{
    CustomerId, OrderId, OrderItemId, OrderStatus, RestaurantId, StreetAddress, TrackingId,
};

fn address() -> OrderAddress {
    OrderAddress {
        street: String::from("1 Main Street"),
        postal_code: String::from("1000AB"),
        city: String::from("Amsterdam"),
    }
}

fn line(product_id: u128, quantity: u64, price: i64, sub_total: i64) -> OrderItem {
    OrderItem { product_id, quantity, price, sub_total, item_id: 99, order_id: 98 }
}

fn command() -> CreateOrderCommand {
    CreateOrderCommand {
        customer_id: 200,
        restaurant_id: 300,
        price: 4550,
        order_address: address(),
        items: vec![line(11, 2, 1000, 2000), line(12, 3, 850, 2550)],
    }
}

fn restaurant() -> Restaurant {
    Restaurant::new(
        300,
        vec![
            Product::new(12, String::from("Pizza"), Money::new(850)),
            Product::new(13, String::from("Salad"), Money::new(600)),
            Product::new(12, String::from("Pizza Deluxe"), Money::new(1250)),
        ],
        true,
    )
}

fn version_of(id: u128) -> u128 {
    (id >> 76) & 0xf
}

#[test]
fn an_address_becomes_a_street_address_under_the_given_id() {
    let street_address = address().into_street_address_with(400);
    assert_eq!(street_address.id, 400);
    assert_eq!(street_address.street, "1 Main Street");
    assert_eq!(street_address.postal_code, "1000AB");
    assert_eq!(street_address.city, "Amsterdam");
}

#[test]
fn an_address_becomes_a_street_address_under_a_fresh_id() {
    let first = address().into_street_address();
    let second = address().into_street_address();
    assert_eq!(first.street, "1 Main Street");
    assert_eq!(first.postal_code, "1000AB");
    assert_eq!(first.city, "Amsterdam");
    assert_eq!(version_of(first.id), 4);
    assert_ne!(first.id, second.id);
}

#[test]
fn an_item_takes_its_product_from_the_catalogue() {
    let entity = line(13, 1, 600, 600).into_entity_at(&restaurant());
    assert_eq!(entity.product.base_entity.id.base_id.value, 13);
    assert_eq!(entity.product.name, "Salad");
    assert_eq!(entity.product.price, Money::new(600));
    assert_eq!(entity.quantity, 1);
    assert_eq!(entity.price, Money::new(600));
    assert_eq!(entity.sub_total, Money::new(600));
    assert_eq!(entity.base_entity.id, OrderItemId::from(99));
    assert_eq!(entity.order_id, OrderId::from(98));
}

#[test]
fn an_item_takes_the_first_catalogue_entry_of_its_product() {
    let entity = line(12, 3, 850, 2550).into_entity_at(&restaurant());
    assert_eq!(entity.product.name, "Pizza");
    assert_eq!(entity.product.price, Money::new(850));
}

#[test]
fn an_item_keeps_what_the_client_states_whatever_the_catalogue_says() {
    let entity = line(12, 3, 800, 2400).into_entity_at(&restaurant());
    assert_eq!(entity.price, Money::new(800));
    assert_eq!(entity.sub_total, Money::new(2400));
    assert_eq!(entity.product.price, Money::new(850));
    assert!(!entity.is_price_valid());
}

#[test]
fn an_item_of_an_unlisted_product_has_a_product_without_name_and_price() {
    let entity = line(11, 2, 1000, 2000).into_entity_at(&restaurant());
    assert_eq!(entity.product.base_entity.id.base_id.value, 11);
    assert_eq!(entity.product.name, "");
    assert_eq!(entity.product.price, Money::zero());
    assert!(!entity.is_price_valid());
}

#[test]
fn an_item_becomes_an_entity_whose_product_has_only_an_id() {
    let entity = OrderItem {
        product_id: 11,
        quantity: 2,
        price: 1000,
        sub_total: 2000,
        item_id: 3,
        order_id: 100,
    }
    .into_entity();
    assert_eq!(entity.base_entity.id, OrderItemId::from(3));
    assert_eq!(entity.order_id, OrderId::from(100));
    assert_eq!(entity.quantity, 2);
    assert_eq!(entity.price, Money::new(1000));
    assert_eq!(entity.sub_total, Money::new(2000));
    assert_eq!(entity.product.base_entity.id.base_id.value, 11);
    assert_eq!(entity.product.name, "");
    assert_eq!(entity.product.price, Money::zero());
}

#[test]
fn a_restaurant_carries_a_command_when_it_lists_every_product_named() {
    let mut command = command();
    assert!(!command.is_carried(&restaurant()));
    command.items = vec![line(12, 3, 850, 2550), line(13, 1, 600, 600), line(12, 1, 1, 1)];
    assert!(command.is_carried(&restaurant()));
    command.items.push(line(11, 2, 1000, 2000));
    assert!(!command.is_carried(&restaurant()));
}

#[test]
fn any_restaurant_carries_a_command_without_items() {
    let mut command = command();
    command.items = Vec::new();
    assert!(command.is_carried(&restaurant()));
    assert!(command.is_carried(&Restaurant::new(300, Vec::new(), false)));
}

#[test]
fn a_restaurant_that_takes_no_orders_carries_what_it_lists() {
    let closed = Restaurant::new(
        300,
        vec![
            Product::new(11, String::from("Burger"), Money::new(1000)),
            Product::new(12, String::from("Pizza"), Money::new(850)),
        ],
        false,
    );
    assert!(command().is_carried(&closed));
}

#[test]
fn a_command_names_the_restaurant_to_resolve() {
    let restaurant = command().restaurant();
    assert_eq!(restaurant.base_entity.id, RestaurantId::from(300));
    assert!(restaurant.is_active());
    assert_eq!(restaurant.products.len(), 2);
    assert_eq!(restaurant.products[0].base_entity.id.base_id.value, 11);
    assert_eq!(restaurant.products[0].name, "");
    assert_eq!(restaurant.products[0].price, Money::zero());
    assert_eq!(restaurant.products[1].base_entity.id.base_id.value, 12);
}

#[test]
fn a_command_without_items_names_a_restaurant_without_products() {
    let mut command = command();
    command.items = Vec::new();
    let restaurant = command.restaurant();
    assert!(restaurant.products.is_empty());
    assert!(restaurant.is_active());
}

#[test]
fn a_command_becomes_a_pending_order_under_the_given_ids() {
    let order = command().into_order_with(&restaurant(), 500, 100, 400);
    assert_eq!(order.aggregate_root.base_entity.id, OrderId::from(100));
    assert_eq!(order.tracking_id, TrackingId::from(500));
    assert_eq!(order.street_address.id, 400);
    assert_eq!(order.street_address.street, "1 Main Street");
    assert_eq!(order.street_address.postal_code, "1000AB");
    assert_eq!(order.street_address.city, "Amsterdam");
    assert_eq!(order.customer_id, CustomerId::from(200));
    assert_eq!(order.restaurant_id, RestaurantId::from(300));
    assert_eq!(order.price, Money::new(4550));
    assert_eq!(order.order_status, OrderStatus::Pending);
    assert!(order.failure_messages.is_empty());
}

#[test]
fn the_items_of_an_order_are_numbered_in_sequence() {
    let order = command().into_order_with(&restaurant(), 500, 100, 400);
    assert_eq!(order.items.len(), 2);
    assert_eq!(order.items[0].base_entity.id, OrderItemId::from(0));
    assert_eq!(order.items[1].base_entity.id, OrderItemId::from(1));
    assert_eq!(order.items[0].order_id, OrderId::from(100));
    assert_eq!(order.items[1].order_id, OrderId::from(100));
    assert_eq!(order.items[0].product.base_entity.id.base_id.value, 11);
    assert_eq!(order.items[1].product.base_entity.id.base_id.value, 12);
    assert_eq!(order.items[0].quantity, 2);
    assert_eq!(order.items[0].price, Money::new(1000));
    assert_eq!(order.items[0].sub_total, Money::new(2000));
    assert_eq!(order.items[1].quantity, 3);
    assert_eq!(order.items[1].price, Money::new(850));
    assert_eq!(order.items[1].sub_total, Money::new(2550));
}

#[test]
fn the_items_of_an_order_take_their_products_from_the_catalogue() {
    let order = command().into_order_with(&restaurant(), 500, 100, 400);
    assert_eq!(order.items[0].product.base_entity.id.base_id.value, 11);
    assert_eq!(order.items[0].product.name, "");
    assert_eq!(order.items[0].product.price, Money::zero());
    assert_eq!(order.items[1].product.base_entity.id.base_id.value, 12);
    assert_eq!(order.items[1].product.name, "Pizza");
    assert_eq!(order.items[1].product.price, Money::new(850));
}

#[test]
fn a_command_without_items_becomes_an_order_without_items() {
    let mut command = command();
    command.items = Vec::new();
    let order = command.into_order_with(&restaurant(), 500, 100, 400);
    assert!(order.items.is_empty());
    assert_eq!(order.price, Money::new(4550));
}

#[test]
fn a_command_becomes_an_order_under_fresh_ids() {
    let order = command().into_order(&restaurant());
    let order_id: u128 = order.aggregate_root.base_entity.id.into();
    let tracking_id: u128 = order.tracking_id.into();
    assert_eq!(version_of(order_id), 4);
    assert_eq!(version_of(tracking_id), 4);
    assert_eq!(version_of(order.street_address.id), 4);
    assert_ne!(order_id, tracking_id);
    assert_ne!(order_id, order.street_address.id);
    assert_eq!(order.items.len(), 2);
    assert_eq!(order.items[0].order_id, OrderId::from(order_id));
    assert_eq!(order.items[1].order_id, OrderId::from(order_id));
    assert_eq!(order.items[1].base_entity.id, OrderItemId::from(1));
    assert_eq!(order.order_status, OrderStatus::Pending);
    assert_eq!(order.price, Money::new(4550));
    let other = command().into_order(&restaurant());
    assert_ne!(other.tracking_id, order.tracking_id);
}

fn stored_order(status: OrderStatus, failure_messages: Vec<String>) -> Order {
    let mut order = Order::new(
        OrderId::from(100),
        CustomerId::from(200),
        RestaurantId::from(300),
        StreetAddress::new(400, String::new(), String::new(), String::new()),
        Money::new(2000),
        Vec::new(),
        TrackingId::from(500),
    );
    order.order_status = status;
    order.failure_messages = failure_messages;
    order
}

#[test]
fn a_placed_order_is_answered_with_its_tracking_id_and_status() {
    let response = CreateOrderResponse::from(stored_order(OrderStatus::Pending, Vec::new()));
    assert_eq!(response.order_tracking_id, 500);
    assert_eq!(response.order_status, OrderStatus::Pending);
    assert_eq!(response.message, "Order created successfully");
}

#[test]
fn a_tracked_order_is_answered_with_its_status_and_failures() {
    let response = TrackOrderResponse::from(stored_order(
        OrderStatus::Cancelled,
        vec![String::from("card declined"), String::from("payment undone")],
    ));
    assert_eq!(response.order_tracking_id, 500);
    assert_eq!(response.order_status, OrderStatus::Cancelled);
    assert_eq!(
        response.failure_messages,
        vec![String::from("card declined"), String::from("payment undone")]
    );
}
