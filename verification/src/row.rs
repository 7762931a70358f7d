//! What the store keeps: customers, restaurants and orders as rows of plain
//! values, and how rows and entities turn into each other.
//!
//! UUIDs are held as 128-bit numbers and prices in minor units. An order's
//! status is kept as its name, and its failure messages as one text in which
//! `#` stands between one message and the next.

use crate::entity::{
    item_views, product_views, texts, Customer, Order, OrderItem, OrderItemView, OrderView, Product,
    ProductView, Restaurant, RestaurantView,
};
use crate::money::Money;
use crate::value_object::{
    CustomerId, OrderId, OrderItemId, OrderStatus, RestaurantId, StreetAddress, TrackingId,
};
use vstd::prelude::*;
use vstd::std_specs::convert::FromSpecImpl;
use vstd::string::{StrSliceExecFns, StringExecFns};

verus! {

/// The messages written one after the other with `#` in between. No message
/// gives the empty text.
pub open spec fn joined(messages: Seq<Seq<char>>) -> Seq<char>
    decreases messages.len(),
{
    if messages.len() == 0 {
        Seq::empty()
    } else if messages.len() == 1 {
        messages[0]
    } else {
        joined(messages.drop_last()) + seq!['#'] + messages.last()
    }
}

/// Whether no message holds a `#`.
pub open spec fn free_of_separators(messages: Seq<Seq<char>>) -> bool {
    forall|k: int, i: int|
        0 <= k < messages.len() && 0 <= i < messages[k].len() ==> (#[trigger] messages[k][i]) != '#'
}

/// Whether `messages` is what `text` stands for: the empty text stands for
/// no message, and any other text for the pieces between its `#`s.
pub open spec fn is_split_of(messages: Seq<Seq<char>>, text: Seq<char>) -> bool {
    if text.len() == 0 {
        messages.len() == 0
    } else {
        messages.len() >= 1 && free_of_separators(messages) && joined(messages) == text
    }
}

/// Writes the messages one after the other with `#` in between.
pub fn join_messages(messages: &Vec<String>) -> (text: String)
    ensures
        text@ == joined(texts(messages@)),
{
    let ghost all = texts(messages@);
    let mut text = String::new();
    let mut index: usize = 0;
    while index < messages.len()
        invariant
            index <= messages.len(),
            all == texts(messages@),
            text@ == joined(all.take(index as int)),
        decreases messages.len() - index,
    {
        if index > 0 {
            text.append("#");
        }
        text.append(messages[index].as_str());
        proof {
            reveal_strlit("#");
            assert("#"@ =~= seq!['#']);
            assert(all.take(index + 1).drop_last() =~= all.take(index as int));
            assert(all.take(index + 1).last() == messages[index as int]@);
            if index == 0 {
                assert(text@ =~= messages[index as int]@);
            }
        }
        index += 1;
    }
    assert(all.take(index as int) =~= all);
    text
}

/// What stands before the next message once `messages` are written: nothing
/// before the first, and else the messages so far and a `#`.
pub open spec fn joined_before_next(messages: Seq<Seq<char>>) -> Seq<char> {
    if messages.len() == 0 {
        Seq::empty()
    } else {
        joined(messages) + seq!['#']
    }
}

/// Writing one more message puts it behind what stands before it.
pub proof fn lemma_joined_push(messages: Seq<Seq<char>>, next: Seq<char>)
    ensures
        joined(messages.push(next)) == joined_before_next(messages) + next,
{
    assert(messages.push(next).drop_last() =~= messages);
    if messages.len() == 0 {
        assert(joined(messages.push(next)) =~= next);
    }
}

/// Takes a text apart at its `#`s. The empty text gives no message.
pub fn split_messages(text: &String) -> (messages: Vec<String>)
    ensures
        is_split_of(texts(messages@), text@),
{
    let mut messages: Vec<String> = Vec::new();
    let length = text.as_str().unicode_len();
    if length == 0 {
        assert(texts(messages@) =~= Seq::empty());
        return messages;
    }
    let mut start: usize = 0;
    let mut index: usize = 0;
    assert(texts(messages@) =~= Seq::empty());
    assert(text@.take(0) =~= Seq::empty());
    while index < length
        invariant
            length == text@.len(),
            start <= index <= length,
            free_of_separators(texts(messages@)),
            forall|i: int| start <= i < index ==> text@[i] != '#',
            text@.take(start as int) == joined_before_next(texts(messages@)),
        decreases length - index,
    {
        if text.as_str().get_char(index) == '#' {
            let ghost before = texts(messages@);
            let piece = String::from_str(text.as_str().substring_char(start, index));
            messages.push(piece);
            proof {
                assert(texts(messages@) =~= before.push(piece@));
                lemma_joined_push(before, piece@);
                assert(text@.take(index + 1) =~= text@.take(start as int) + piece@ + seq!['#']);
            }
            start = index + 1;
        }
        index += 1;
    }
    let ghost before = texts(messages@);
    let piece = String::from_str(text.as_str().substring_char(start, length));
    messages.push(piece);
    proof {
        assert(texts(messages@) =~= before.push(piece@));
        lemma_joined_push(before, piece@);
        assert(text@ =~= text@.take(start as int) + piece@);
    }
    messages
}

/// Two runs of messages without a `#` in them that give the same text are
/// the same run: a text is taken apart in one way only.
pub proof fn lemma_split_unique(left: Seq<Seq<char>>, right: Seq<Seq<char>>)
    requires
        left.len() >= 1,
        right.len() >= 1,
        free_of_separators(left),
        free_of_separators(right),
        joined(left) == joined(right),
    ensures
        left == right,
    decreases left.len(),
{
    let text = joined(left);
    if left.len() == 1 && right.len() == 1 {
        assert(left =~= right);
    } else if left.len() == 1 {
        let at = joined(right.drop_last()).len() as int;
        assert(joined(right)[at] == '#');
        assert(left[0][at] != '#');
    } else if right.len() == 1 {
        let at = joined(left.drop_last()).len() as int;
        assert(joined(left)[at] == '#');
        assert(right[0][at] != '#');
    } else {
        let left_at = joined(left.drop_last()).len() as int;
        let right_at = joined(right.drop_last()).len() as int;
        assert(text.len() == left_at + 1 + left.last().len());
        assert(text.len() == right_at + 1 + right.last().len());
        assert(text[left_at] == '#');
        assert(text[right_at] == '#');
        if left_at < right_at {
            assert(text[right_at] == left.last()[right_at - left_at - 1]);
        }
        if right_at < left_at {
            assert(text[left_at] == right.last()[left_at - right_at - 1]);
        }
        assert(left.last() =~= text.subrange(left_at + 1, text.len() as int));
        assert(right.last() =~= text.subrange(right_at + 1, text.len() as int));
        assert(joined(left.drop_last()) =~= text.take(left_at));
        assert(joined(right.drop_last()) =~= text.take(right_at));
        assert(free_of_separators(left.drop_last())) by {
            assert forall|k: int, i: int|
                0 <= k < left.drop_last().len() && 0 <= i < left.drop_last()[k].len() implies (
            #[trigger] left.drop_last()[k][i]) != '#' by {
                assert(left[k][i] != '#');
            }
        }
        assert(free_of_separators(right.drop_last())) by {
            assert forall|k: int, i: int|
                0 <= k < right.drop_last().len() && 0 <= i < right.drop_last()[k].len() implies (
            #[trigger] right.drop_last()[k][i]) != '#' by {
                assert(right[k][i] != '#');
            }
        }
        lemma_split_unique(left.drop_last(), right.drop_last());
        assert(left =~= left.drop_last().push(left.last()));
        assert(right =~= right.drop_last().push(right.last()));
    }
}

/// Messages that are written out and taken apart again come back as they
/// were, if none of them holds a `#` and they are not a single empty
/// message, which is written like no message at all.
pub proof fn lemma_split_of_joined(messages: Seq<Seq<char>>, split: Seq<Seq<char>>)
    requires
        free_of_separators(messages),
        !(messages.len() == 1 && messages[0].len() == 0),
        is_split_of(split, joined(messages)),
    ensures
        split == messages,
{
    if messages.len() == 0 {
        assert(split =~= messages);
    } else {
        if messages.len() >= 2 {
            let at = joined(messages.drop_last()).len() as int;
            assert(joined(messages)[at] == '#');
        }
        lemma_split_unique(split, messages);
    }
}

/// A customer as the store keeps it.
#[derive(Clone, Copy, Debug, PartialEq, Eq, Structural)]
pub struct CustomerRow {
    pub id: u128,
}

impl From<Customer> for CustomerRow {
    fn from(c: Customer) -> (row: Self) {
        CustomerRow { id: c.into() }
    }
}

impl FromSpecImpl<Customer> for CustomerRow {
    open spec fn obeys_from_spec() -> bool {
        true
    }

    open spec fn from_spec(c: Customer) -> Self {
        CustomerRow { id: c@ }
    }
}

impl From<CustomerRow> for Customer {
    fn from(row: CustomerRow) -> (customer: Self)
        ensures
            customer@ == row.id,
    {
        Customer::new(row.id)
    }
}

impl FromSpecImpl<CustomerRow> for Customer {
    open spec fn obeys_from_spec() -> bool {
        true
    }

    open spec fn from_spec(row: CustomerRow) -> Self {
        Customer {
            aggregate_root: crate::entity::AggregateRoot {
                base_entity: crate::entity::BaseEntity {
                    id: CustomerId { base_id: crate::value_object::BaseId { value: row.id } },
                },
            },
        }
    }
}

/// One product of one restaurant, with what the store keeps of the
/// restaurant itself.
#[derive(Debug)]
pub struct RestaurantRow {
    pub restaurant_id: u128,
    pub product_id: u128,
    pub restaurant_name: String,
    pub product_name: String,
    pub restaurant_active: bool,
    pub product_price: i64,
}

impl Clone for RestaurantRow {
    fn clone(&self) -> (copy: Self)
        ensures
            copy == *self,
    {
        RestaurantRow {
            restaurant_id: self.restaurant_id,
            product_id: self.product_id,
            restaurant_name: self.restaurant_name.clone(),
            product_name: self.product_name.clone(),
            restaurant_active: self.restaurant_active,
            product_price: self.product_price,
        }
    }
}

impl RestaurantRow {
    /// The product that the row is about.
    pub open spec fn product(self) -> ProductView {
        ProductView {
            id: self.product_id,
            name: self.product_name@,
            price: self.product_price as int,
        }
    }

    /// The product that the row is about.
    pub fn into_product(self) -> (product: Product)
        ensures
            product@ == self.product(),
    {
        Product::new(self.product_id, self.product_name, Money::new(self.product_price))
    }
}

/// The products that the rows are about, row by row.
pub open spec fn row_products(rows: Seq<RestaurantRow>) -> Seq<ProductView> {
    rows.map_values(|row: RestaurantRow| row.product())
}

/// The identifiers of the restaurant's products, in the catalogue's order:
/// what the store is asked for, next to the restaurant's own identifier.
pub fn product_ids(restaurant: &Restaurant) -> (ids: Vec<u128>)
    ensures
        ids@ == restaurant@.products.map_values(|product: ProductView| product.id),
{
    let mut ids: Vec<u128> = Vec::new();
    let mut index: usize = 0;
    while index < restaurant.products.len()
        invariant
            index <= restaurant.products.len(),
            ids@.len() == index,
            forall|k: int| 0 <= k < index ==> #[trigger] ids@[k] == restaurant.products@[k]@.id,
        decreases restaurant.products.len() - index,
    {
        ids.push(restaurant.products[index].base_entity.id.base_id.value);
        index += 1;
    }
    assert(ids@ =~= restaurant@.products.map_values(|product: ProductView| product.id));
    ids
}

/// Whether one of the rows is about the given product of the given
/// restaurant.
pub open spec fn has_row(rows: Seq<RestaurantRow>, restaurant_id: u128, product_id: u128) -> bool {
    exists|k: int|
        0 <= k < rows.len() && (#[trigger] rows[k]).restaurant_id == restaurant_id
            && rows[k].product_id == product_id
}

/// Whether the rows hold, under the identifier of the restaurant asked
/// about, a row for every product that it was asked about.
pub open spec fn carries_all(asked: RestaurantView, rows: Seq<RestaurantRow>) -> bool {
    forall|j: int|
        0 <= j < asked.products.len() ==> has_row(rows, asked.id, (#[trigger] asked.products[j]).id)
}

/// The restaurant that the rows found for it describe, if they describe the
/// restaurant that was asked about: there is a restaurant only where there
/// is a row, and where every product asked about has a row under the
/// restaurant's identifier. A restaurant that lacks one of them is not
/// found.
///
/// The first row says which restaurant it is and whether it takes orders, so
/// a restaurant that does not is found all the same; every row gives one
/// product.
pub fn restaurant_from_rows(
    asked: &Restaurant,
    rows: &Vec<RestaurantRow>,
) -> (found: Option<Restaurant>)
    ensures
        found is Some <==> rows@.len() > 0 && carries_all(asked@, rows@),
        found matches Some(restaurant) ==> restaurant@.id == rows@[0].restaurant_id
            && restaurant@.active == rows@[0].restaurant_active
            && restaurant@.products == row_products(rows@),
{
    if rows.len() == 0 {
        return None;
    }
    let restaurant_id = asked.base_entity.id.base_id.value;
    let mut asked_index: usize = 0;
    while asked_index < asked.products.len()
        invariant
            restaurant_id == asked@.id,
            asked_index <= asked.products.len(),
            forall|j: int|
                0 <= j < asked_index ==> has_row(
                    rows@,
                    asked@.id,
                    (#[trigger] asked@.products[j]).id,
                ),
        decreases asked.products.len() - asked_index,
    {
        let product_id = asked.products[asked_index].base_entity.id.base_id.value;
        assert(product_id == asked@.products[asked_index as int].id);
        let mut carried = false;
        let mut row_index: usize = 0;
        while row_index < rows.len()
            invariant
                row_index <= rows.len(),
                carried ==> has_row(rows@, restaurant_id, product_id),
                !carried ==> forall|k: int|
                    0 <= k < row_index ==> !((#[trigger] rows@[k]).restaurant_id == restaurant_id
                        && rows@[k].product_id == product_id),
            decreases rows.len() - row_index,
        {
            let row = &rows[row_index];
            if row.restaurant_id == restaurant_id && row.product_id == product_id {
                carried = true;
            }
            row_index += 1;
        }
        if !carried {
            assert(!has_row(rows@, asked@.id, asked@.products[asked_index as int].id));
            return None;
        }
        asked_index += 1;
    }
    let mut products: Vec<Product> = Vec::new();
    let mut index: usize = 0;
    while index < rows.len()
        invariant
            index <= rows.len(),
            products@.len() == index,
            forall|k: int| 0 <= k < index ==> (#[trigger] products@[k])@ == rows@[k].product(),
        decreases rows.len() - index,
    {
        products.push(rows[index].clone().into_product());
        index += 1;
    }
    assert(product_views(products@) =~= row_products(rows@));
    Some(Restaurant::new(rows[0].restaurant_id, products, rows[0].restaurant_active))
}

/// An order as the store keeps it, without its address and its items.
#[derive(Clone, Debug)]
pub struct OrderRow {
    pub id: u128,
    pub customer_id: u128,
    pub restaurant_id: u128,
    pub tracking_id: u128,
    pub price: i64,
    pub order_status: String,
    pub failure_messages: String,
}

impl OrderRow {
    /// Whether the row and `order` agree on the identifiers and the price.
    pub open spec fn agrees_with(self, order: OrderView) -> bool {
        &&& self.id == order.id
        &&& self.customer_id == order.customer_id
        &&& self.restaurant_id == order.restaurant_id
        &&& self.tracking_id == order.tracking_id
        &&& self.price == order.price
    }

    /// Whether the row is what is written down of `order`: its identifiers
    /// and price, the name of its status, and its failure messages with `#`
    /// in between.
    pub open spec fn is_written_from(self, order: OrderView) -> bool {
        &&& self.agrees_with(order)
        &&& self.order_status@ == order.order_status.name()
        &&& self.failure_messages@ == joined(order.failure_messages)
    }

    /// Whether `order` is what is read from the row: its identifiers and
    /// price, the status of that name, and the failure messages that the
    /// text stands for.
    pub open spec fn is_read_as(self, order: OrderView) -> bool {
        &&& self.agrees_with(order)
        &&& self.order_status@ == order.order_status.name()
        &&& is_split_of(order.failure_messages, self.failure_messages@)
    }

    /// Writes down what the store keeps of an order.
    pub fn from_order(o: &Order) -> (row: Self)
        ensures
            row.is_written_from(o@),
    {
        OrderRow {
            id: o.aggregate_root.base_entity.id.into(),
            customer_id: o.customer_id.into(),
            restaurant_id: o.restaurant_id.into(),
            tracking_id: o.tracking_id.into(),
            price: o.price.amount,
            order_status: o.order_status.to_string(),
            failure_messages: join_messages(&o.failure_messages),
        }
    }
}

/// The address of an order as the store keeps it.
#[derive(Clone, Debug)]
pub struct OrderAddressRow {
    pub id: u128,
    pub order_id: u128,
    pub street: String,
    pub postal_code: String,
    pub city: String,
}

impl OrderAddressRow {
    /// The address that the row holds.
    pub fn into_street_address(self) -> (address: StreetAddress)
        ensures
            address.id == self.id,
            address.street == self.street,
            address.postal_code == self.postal_code,
            address.city == self.city,
    {
        StreetAddress::new(self.id, self.street, self.postal_code, self.city)
    }
}

/// An item of an order as the store keeps it. Of the product only the
/// identifier is kept.
#[derive(Clone, Copy, Debug, PartialEq, Eq, Structural)]
pub struct OrderItemRow {
    pub id: i64,
    pub order_id: u128,
    pub product_id: u128,
    pub quantity: u64,
    pub price: i64,
    pub sub_total: i64,
}

impl OrderItemRow {
    /// The item that the row holds: its product has the identifier that was
    /// kept, no name and no price.
    pub open spec fn item(self) -> OrderItemView {
        OrderItemView {
            id: self.id,
            order_id: self.order_id,
            product: ProductView { id: self.product_id, name: Seq::empty(), price: 0 },
            quantity: self.quantity as nat,
            price: self.price as int,
            sub_total: self.sub_total as int,
        }
    }

    /// The item that the row holds.
    pub fn into_order_item(self) -> (item: OrderItem)
        ensures
            item@ == self.item(),
    {
        OrderItem::new(
            OrderItemId::from(self.id),
            OrderId::from(self.order_id),
            Product::new(self.product_id, String::new(), Money::zero()),
            self.quantity,
            Money::new(self.price),
            Money::new(self.sub_total),
        )
    }
}

/// The items that the rows hold, row by row.
pub open spec fn row_items(rows: Seq<OrderItemRow>) -> Seq<OrderItemView> {
    rows.map_values(|row: OrderItemRow| row.item())
}

/// The order that its rows describe, or `None` where the row names a status
/// that does not exist.
pub fn order_from_rows(
    order: OrderRow,
    address: OrderAddressRow,
    items: &Vec<OrderItemRow>,
) -> (found: Option<Order>)
    ensures
        match found {
            Some(found) => {
                &&& order.is_read_as(found@)
                &&& found.street_address.id == address.id
                &&& found.street_address.street == address.street
                &&& found.street_address.postal_code == address.postal_code
                &&& found.street_address.city == address.city
                &&& found@.items == row_items(items@)
            },
            None => forall|status: OrderStatus| order.order_status@ != status.name(),
        },
{
    let order_status = match OrderStatus::parse(order.order_status.as_str()) {
        Some(order_status) => order_status,
        None => {
            return None;
        },
    };
    let mut order_items: Vec<OrderItem> = Vec::new();
    let mut index: usize = 0;
    while index < items.len()
        invariant
            index <= items.len(),
            order_items@.len() == index,
            forall|k: int| 0 <= k < index ==> (#[trigger] order_items@[k])@ == items@[k].item(),
        decreases items.len() - index,
    {
        order_items.push(items[index].into_order_item());
        index += 1;
    }
    assert(item_views(order_items@) =~= row_items(items@));
    let mut found = Order::new(
        OrderId::from(order.id),
        CustomerId::from(order.customer_id),
        RestaurantId::from(order.restaurant_id),
        address.into_street_address(),
        Money::new(order.price),
        order_items,
        TrackingId::from(order.tracking_id),
    );
    found.order_status = order_status;
    found.failure_messages = split_messages(&order.failure_messages);
    Some(found)
}

/// An order that is written down and read again comes back with its
/// identifiers, its price, its status and its failure messages as they
/// were, if no message holds a `#` and the messages are not a single empty
/// one.
pub proof fn lemma_order_read_as_written(written: OrderView, row: OrderRow, read: OrderView)
    requires
        row.is_written_from(written),
        row.is_read_as(read),
        free_of_separators(written.failure_messages),
        !(written.failure_messages.len() == 1 && written.failure_messages[0].len() == 0),
    ensures
        read.id == written.id,
        read.customer_id == written.customer_id,
        read.restaurant_id == written.restaurant_id,
        read.tracking_id == written.tracking_id,
        read.price == written.price,
        read.order_status == written.order_status,
        read.failure_messages == written.failure_messages,
{
    crate::value_object::lemma_name_tells_status(read.order_status, written.order_status);
    lemma_split_of_joined(written.failure_messages, read.failure_messages);
}

} // verus!
