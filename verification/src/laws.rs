//! What holds of the service as a whole.
//!
//! The database orders the rows of a listing and keeps what is recorded;
//! the library turns rows into records and records into rows. The laws here
//! say what the library adds to that: a listing follows its rows one by one,
//! so that the order of the rows is the order of the records, and a recorded
//! order comes back as the order that was recorded.

use crate::orders::{
    bindings_of_order, order_of_row, order_schema, orders_of_rows, row_of_order, OrderView,
    ORDER_COLUMNS,
};
use crate::products::{
    product_total_sales_of_row, product_total_sales_of_rows, product_total_sales_schema,
    ProductTotalSalesView, PRODUCT_TOTAL_SALES_COLUMNS,
};
use crate::rows::{first_error_from, lemma_listing_follows_rows, RowError};
use crate::value::{Cell, ConversionError, Number};
use vstd::prelude::*;

verus! {

/// Whether the first columns of the rows are integers that never grow from
/// one row to the next: what the database gives for a listing by descending
/// identifier.
pub open spec fn rows_by_descending_identifier(rows: Seq<Seq<Cell>>) -> bool {
    forall|i: int, j: int|
        #![trigger rows[i], rows[j]]
        0 <= i < j < rows.len() ==> {
            &&& rows[i][0] is Integer
            &&& rows[j][0] is Integer
            &&& rows[i][0]->Integer_0 >= rows[j][0]->Integer_0
        }
}

/// Whether the identifiers of the orders never grow from one order to the
/// next.
pub open spec fn orders_by_descending_identifier(orders: Seq<OrderView>) -> bool {
    forall|i: int, j: int|
        #![trigger orders[i], orders[j]]
        0 <= i < j < orders.len() ==> orders[i].order_id >= orders[j].order_id
}

/// Whether `x` stands at exactly one place of `s`.
pub open spec fn shows_once<A>(s: Seq<A>, x: A) -> bool {
    exists|i: int|
        {
            &&& 0 <= i < s.len()
            &&& #[trigger] s[i] == x
            &&& forall|j: int| 0 <= j < s.len() && #[trigger] s[j] == x ==> j == i
        }
}

/// Whether `row` holds `order`: its first columns are the row that stands
/// for the order.
pub open spec fn holds_order(row: Seq<Cell>, order: OrderView) -> bool {
    row_of_order(order).is_prefix_of(row)
}

/// Whether exactly one of `rows` holds `order`.
pub open spec fn held_once(rows: Seq<Seq<Cell>>, order: OrderView) -> bool {
    exists|i: int|
        {
            &&& 0 <= i < rows.len()
            &&& holds_order(#[trigger] rows[i], order)
            &&& forall|j: int|
                0 <= j < rows.len() && holds_order(#[trigger] rows[j], order) ==> j == i
        }
}

/// A listing of orders has one order for each row, read from that row.
pub proof fn lemma_orders_follow_rows(rows: Seq<Seq<Cell>>, i: int)
    requires
        orders_of_rows(rows) is Ok,
        0 <= i < rows.len(),
    ensures
        orders_of_rows(rows)->Ok_0.len() == rows.len(),
        order_of_row(rows[i]) == Ok::<OrderView, RowError>(
            orders_of_rows(rows)->Ok_0[i],
        ),
{
    lemma_listing_follows_rows(rows, |row: Seq<Cell>| order_of_row(row));
}

/// Rows that come by descending identifier are listed as orders by
/// descending identifier.
pub proof fn lemma_orders_listed_by_descending_identifier(rows: Seq<Seq<Cell>>)
    requires
        orders_of_rows(rows) is Ok,
        rows_by_descending_identifier(rows),
    ensures
        orders_by_descending_identifier(orders_of_rows(rows)->Ok_0),
{
    let orders = orders_of_rows(rows)->Ok_0;
    lemma_listing_follows_rows(rows, |row: Seq<Cell>| order_of_row(row));
    reveal_with_fuel(first_error_from, 2);
    assert forall|i: int, j: int|
        #![trigger orders[i], orders[j]]
        0 <= i < j < orders.len() implies orders[i].order_id >= orders[j].order_id by {
        lemma_orders_follow_rows(rows, i);
        lemma_orders_follow_rows(rows, j);
        assert(rows[i][0]->Integer_0 >= rows[j][0]->Integer_0);
    }
}

/// A listing of total sales has one record for each row, read from that
/// row: its total is the sixth column of the row, as the database computed
/// it.
pub proof fn lemma_product_total_sales_follow_rows(rows: Seq<Seq<Cell>>, i: int)
    requires
        product_total_sales_of_rows(rows) is Ok,
        0 <= i < rows.len(),
    ensures
        product_total_sales_of_rows(rows)->Ok_0.len() == rows.len(),
        product_total_sales_of_row(rows[i]) == Ok::<ProductTotalSalesView, RowError>(
            product_total_sales_of_rows(rows)->Ok_0[i],
        ),
        rows[i].len() >= 6,
        rows[i][5].as_number() == Ok::<Number, ConversionError>(
            product_total_sales_of_rows(rows)->Ok_0[i].total_sales,
        ),
{
    lemma_listing_follows_rows(rows, |row: Seq<Cell>| product_total_sales_of_row(row));
    reveal_with_fuel(first_error_from, 7);
}

/// A row is read as an order exactly if it holds that order: the row that
/// stands for an order is read back as that order, and no other row is.
pub proof fn lemma_row_read_as_order_it_holds(row: Seq<Cell>, order: OrderView)
    ensures
        order_of_row(row) == Ok::<OrderView, RowError>(order) <==> holds_order(
            row,
            order,
        ),
{
    reveal_with_fuel(first_error_from, 15);
    let stored = row_of_order(order);
    if holds_order(row, order) {
        assert(forall|k: int| 0 <= k < 14 ==> row[k] == row.subrange(0, 14)[k]);
    }
    if order_of_row(row) == Ok::<OrderView, RowError>(order) {
        assert(stored =~= row.subrange(0, 14));
    }
}

/// The row that stands for an order is read back as that order.
pub proof fn lemma_order_round_trip(order: OrderView)
    ensures
        order_of_row(row_of_order(order)) == Ok::<OrderView, RowError>(order),
{
    let stored = row_of_order(order);
    assert(stored.subrange(0, 14) =~= stored);
    lemma_row_read_as_order_it_holds(stored, order);
}

/// What the statement that records an order binds, value by value, is read
/// back as that order.
pub proof fn lemma_bound_order_reads_back(order: OrderView)
    ensures
        bindings_of_order(order).len() == ORDER_COLUMNS,
        order_of_row(bindings_of_order(order).map_values(|b: (Seq<char>, Cell)| b.1)) == Ok::<
            OrderView,
            RowError,
        >(order),
{
    let bound = bindings_of_order(order).map_values(|b: (Seq<char>, Cell)| b.1);
    assert(bound =~= row_of_order(order));
    lemma_order_round_trip(order);
}

/// An order is read from the first [`ORDER_COLUMNS`] columns of a row, as
/// many as its schema and its own row have: what follows them is not read.
pub proof fn lemma_order_read_from_first_columns(row: Seq<Cell>, order: OrderView)
    requires
        row.len() >= ORDER_COLUMNS,
    ensures
        order_schema().len() == ORDER_COLUMNS,
        row_of_order(order).len() == ORDER_COLUMNS,
        order_of_row(row.take(ORDER_COLUMNS as int)) == order_of_row(row),
{
    reveal_with_fuel(first_error_from, 15);
    let front = row.take(ORDER_COLUMNS as int);
    assert(forall|k: int| 0 <= k < 14 ==> front[k] == row[k]);
}

/// The total sales of a product are read from the first
/// [`PRODUCT_TOTAL_SALES_COLUMNS`] columns of a row, as many as their schema
/// has: what follows them is not read.
pub proof fn lemma_product_total_sales_read_from_first_columns(row: Seq<Cell>)
    requires
        row.len() >= PRODUCT_TOTAL_SALES_COLUMNS,
    ensures
        product_total_sales_schema().len() == PRODUCT_TOTAL_SALES_COLUMNS,
        product_total_sales_of_row(row.take(PRODUCT_TOTAL_SALES_COLUMNS as int))
            == product_total_sales_of_row(row),
{
    reveal_with_fuel(first_error_from, 7);
    let front = row.take(PRODUCT_TOTAL_SALES_COLUMNS as int);
    assert(forall|k: int| 0 <= k < 6 ==> front[k] == row[k]);
}

/// A listing shows an order at the places of the rows that hold it.
pub proof fn lemma_order_listed_where_held(rows: Seq<Seq<Cell>>, order: OrderView, i: int)
    requires
        orders_of_rows(rows) is Ok,
        0 <= i < rows.len(),
    ensures
        orders_of_rows(rows)->Ok_0.len() == rows.len(),
        orders_of_rows(rows)->Ok_0[i] == order <==> holds_order(rows[i], order),
{
    lemma_orders_follow_rows(rows, i);
    lemma_row_read_as_order_it_holds(rows[i], order);
}

/// Where exactly one row holds an order, the listing shows that order
/// exactly once.
pub proof fn lemma_order_held_once_listed_once(rows: Seq<Seq<Cell>>, order: OrderView)
    requires
        orders_of_rows(rows) is Ok,
        held_once(rows, order),
    ensures
        shows_once(orders_of_rows(rows)->Ok_0, order),
{
    let orders = orders_of_rows(rows)->Ok_0;
    let i = choose|i: int|
        {
            &&& 0 <= i < rows.len()
            &&& holds_order(#[trigger] rows[i], order)
            &&& forall|j: int|
                0 <= j < rows.len() && holds_order(#[trigger] rows[j], order) ==> j == i
        };
    lemma_order_listed_where_held(rows, order, i);
    assert forall|j: int| 0 <= j < orders.len() && #[trigger] orders[j] == order implies j == i by {
        lemma_order_listed_where_held(rows, order, j);
        assert(holds_order(rows[j], order));
    }
    assert(orders[i] == order);
}

} // verus!
