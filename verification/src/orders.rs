//! Orders: the record, the row that stands for it in the database, and the
//! statement that records it.

use crate::rows::{
    first_error, first_error_from, get_i32, get_number, get_optional_text, get_text,
    lemma_error_stays, records_of_rows, ColumnKind, FetchError, RowError,
};
use crate::value::{Cell, Number, SqlValue};
use vstd::prelude::*;

verus! {

/// An order.
#[derive(Debug, Clone, PartialEq, Eq)]
pub struct Order {
    pub order_id: i32,
    pub customer_id: String,
    pub employee_id: i32,
    pub order_date: Option<String>,
    pub required_date: Option<String>,
    pub shipped_date: Option<String>,
    pub ship_via: i32,
    pub freight: Number,
    pub ship_name: Option<String>,
    pub ship_address: Option<String>,
    pub ship_city: Option<String>,
    pub ship_region: Option<String>,
    pub ship_postal_code: Option<String>,
    pub ship_country: Option<String>,
}

/// The mathematical view of an [`Order`].
pub struct OrderView {
    pub order_id: i32,
    pub customer_id: Seq<char>,
    pub employee_id: i32,
    pub order_date: Option<Seq<char>>,
    pub required_date: Option<Seq<char>>,
    pub shipped_date: Option<Seq<char>>,
    pub ship_via: i32,
    pub freight: Number,
    pub ship_name: Option<Seq<char>>,
    pub ship_address: Option<Seq<char>>,
    pub ship_city: Option<Seq<char>>,
    pub ship_region: Option<Seq<char>>,
    pub ship_postal_code: Option<Seq<char>>,
    pub ship_country: Option<Seq<char>>,
}

impl View for Order {
    type V = OrderView;

    open spec fn view(&self) -> OrderView {
        OrderView {
            order_id: self.order_id,
            customer_id: self.customer_id@,
            employee_id: self.employee_id,
            order_date: self.order_date.deep_view(),
            required_date: self.required_date.deep_view(),
            shipped_date: self.shipped_date.deep_view(),
            ship_via: self.ship_via,
            freight: self.freight,
            ship_name: self.ship_name.deep_view(),
            ship_address: self.ship_address.deep_view(),
            ship_city: self.ship_city.deep_view(),
            ship_region: self.ship_region.deep_view(),
            ship_postal_code: self.ship_postal_code.deep_view(),
            ship_country: self.ship_country.deep_view(),
        }
    }
}

impl DeepView for Order {
    type V = OrderView;

    open spec fn deep_view(&self) -> OrderView {
        self@
    }
}

/// The bits of the freight charge of the fixed order, 8.53.
pub const FIXED_FREIGHT_BITS: u64 = 0x4021_0F5C_28F5_C28F;

impl OrderView {
    /// The one order that the service records.
    pub open spec fn fixed() -> OrderView {
        OrderView {
            order_id: 26533,
            customer_id: "RATTC"@,
            employee_id: 1,
            order_date: Some("1998-05-06"@),
            required_date: Some("1998-06-03"@),
            shipped_date: Some("1998-05-08"@),
            ship_via: 2,
            freight: Number::Real(FIXED_FREIGHT_BITS),
            ship_name: Some("Rattlesnake Canyon Grocery"@),
            ship_address: Some("2817 Milton Dr."@),
            ship_city: Some("Albuquerque"@),
            ship_region: Some("NM"@),
            ship_postal_code: Some("87110"@),
            ship_country: Some("USA"@),
        }
    }
}

impl Order {
    /// Builds the one order that the service records.
    pub fn fixed() -> (order: Order)
        ensures
            order@ == OrderView::fixed(),
    {
        Order {
            order_id: 26533,
            customer_id: "RATTC".to_owned(),
            employee_id: 1,
            order_date: Some("1998-05-06".to_owned()),
            required_date: Some("1998-06-03".to_owned()),
            shipped_date: Some("1998-05-08".to_owned()),
            ship_via: 2,
            freight: Number::Real(FIXED_FREIGHT_BITS),
            ship_name: Some("Rattlesnake Canyon Grocery".to_owned()),
            ship_address: Some("2817 Milton Dr.".to_owned()),
            ship_city: Some("Albuquerque".to_owned()),
            ship_region: Some("NM".to_owned()),
            ship_postal_code: Some("87110".to_owned()),
            ship_country: Some("USA".to_owned()),
        }
    }
}


/// The number of columns of a row that an order is read from.
pub const ORDER_COLUMNS: usize = 14;

/// What each column of a row is read as, for an order.
pub open spec fn order_schema() -> Seq<ColumnKind> {
    seq![
        ColumnKind::Int32,
        ColumnKind::Text,
        ColumnKind::Int32,
        ColumnKind::OptionalText,
        ColumnKind::OptionalText,
        ColumnKind::OptionalText,
        ColumnKind::Int32,
        ColumnKind::Number,
        ColumnKind::OptionalText,
        ColumnKind::OptionalText,
        ColumnKind::OptionalText,
        ColumnKind::OptionalText,
        ColumnKind::OptionalText,
        ColumnKind::OptionalText,
    ]
}

/// The order that `row` stands for: its first fourteen columns, each read as
/// [`order_schema`] asks and put into the field of the same place. Where one
/// of them is missing or cannot be read so, the error of the first such
/// column.
pub open spec fn order_of_row(row: Seq<Cell>) -> Result<OrderView, RowError> {
    match first_error(row, order_schema()) {
        Some(e) => Err(e),
        None => Ok(
            OrderView {
                order_id: row[0].as_i32()->Ok_0,
                customer_id: row[1].as_text()->Ok_0,
                employee_id: row[2].as_i32()->Ok_0,
                order_date: row[3].as_optional_text()->Ok_0,
                required_date: row[4].as_optional_text()->Ok_0,
                shipped_date: row[5].as_optional_text()->Ok_0,
                ship_via: row[6].as_i32()->Ok_0,
                freight: row[7].as_number()->Ok_0,
                ship_name: row[8].as_optional_text()->Ok_0,
                ship_address: row[9].as_optional_text()->Ok_0,
                ship_city: row[10].as_optional_text()->Ok_0,
                ship_region: row[11].as_optional_text()->Ok_0,
                ship_postal_code: row[12].as_optional_text()->Ok_0,
                ship_country: row[13].as_optional_text()->Ok_0,
            },
        ),
    }
}

/// The row that stands for `order`: one column for each field, in the order
/// of the fields.
pub open spec fn row_of_order(order: OrderView) -> Seq<Cell> {
    seq![
        Cell::of_i32(order.order_id),
        Cell::of_text(order.customer_id),
        Cell::of_i32(order.employee_id),
        Cell::of_optional_text(order.order_date),
        Cell::of_optional_text(order.required_date),
        Cell::of_optional_text(order.shipped_date),
        Cell::of_i32(order.ship_via),
        Cell::of_number(order.freight),
        Cell::of_optional_text(order.ship_name),
        Cell::of_optional_text(order.ship_address),
        Cell::of_optional_text(order.ship_city),
        Cell::of_optional_text(order.ship_region),
        Cell::of_optional_text(order.ship_postal_code),
        Cell::of_optional_text(order.ship_country),
    ]
}

/// The orders that `rows` stand for, in the order of the rows. Where a row
/// stands for none, the first such row and its error.
pub open spec fn orders_of_rows(rows: Seq<Seq<Cell>>) -> Result<Seq<OrderView>, FetchError> {
    records_of_rows(rows, |row: Seq<Cell>| order_of_row(row))
}

/// The statement that records an order, with a named parameter for each
/// field.
pub const INSERT_ORDER_SQL: &'static str =
    "INSERT INTO orders (OrderID, CustomerID, EmployeeID, OrderDate, RequiredDate, ShippedDate, \
     ShipVia, Freight, ShipName, ShipAddress, ShipCity, ShipRegion, ShipPostalCode, ShipCountry) \
     VALUES (:order_id, :customer_id, :employee_id, :order_date, :required_date, :shipped_date, \
     :ship_via, :freight, :ship_name, :ship_address, :ship_city, :ship_region, \
     :ship_postal_code, :ship_country);";

/// The statement that lists the orders, the greatest identifier first.
pub const SELECT_ORDERS_SQL: &'static str = "SELECT * FROM orders ORDER BY OrderID DESC";

/// A value bound to a named parameter of a statement.
#[derive(Debug, Clone, PartialEq, Eq)]
pub struct Binding {
    pub name: &'static str,
    pub value: SqlValue,
}

impl DeepView for Binding {
    type V = (Seq<char>, Cell);

    open spec fn deep_view(&self) -> (Seq<char>, Cell) {
        (self.name@, self.value@)
    }
}

/// A statement that changes the database, and the values of its parameters.
#[derive(Debug, Clone, PartialEq, Eq)]
pub struct Insert {
    pub sql: &'static str,
    pub bindings: Vec<Binding>,
}

/// The names of the parameters of [`INSERT_ORDER_SQL`], in the order of the
/// fields of an order.
pub open spec fn order_parameters() -> Seq<Seq<char>> {
    seq![
        ":order_id"@,
        ":customer_id"@,
        ":employee_id"@,
        ":order_date"@,
        ":required_date"@,
        ":shipped_date"@,
        ":ship_via"@,
        ":freight"@,
        ":ship_name"@,
        ":ship_address"@,
        ":ship_city"@,
        ":ship_region"@,
        ":ship_postal_code"@,
        ":ship_country"@,
    ]
}

/// The parameters that record `order`: each name of [`order_parameters`]
/// with the column of [`row_of_order`] of the same place.
pub open spec fn bindings_of_order(order: OrderView) -> Seq<(Seq<char>, Cell)> {
    Seq::new(14, |i: int| (order_parameters()[i], row_of_order(order)[i]))
}

impl Order {
    /// The statement that records this order: [`INSERT_ORDER_SQL`], with
    /// each field bound to the parameter of its name.
    pub fn insert_order(&self) -> (insert: Insert)
        ensures
            insert.sql@ == INSERT_ORDER_SQL@,
            insert.bindings.deep_view() == bindings_of_order(self@),
    {
        let bindings = vec![
            Binding { name: ":order_id", value: SqlValue::of_i32(self.order_id) },
            Binding { name: ":customer_id", value: SqlValue::of_text(&self.customer_id) },
            Binding { name: ":employee_id", value: SqlValue::of_i32(self.employee_id) },
            Binding { name: ":order_date", value: SqlValue::of_optional_text(&self.order_date) },
            Binding {
                name: ":required_date",
                value: SqlValue::of_optional_text(&self.required_date),
            },
            Binding {
                name: ":shipped_date",
                value: SqlValue::of_optional_text(&self.shipped_date),
            },
            Binding { name: ":ship_via", value: SqlValue::of_i32(self.ship_via) },
            Binding { name: ":freight", value: SqlValue::of_number(self.freight) },
            Binding { name: ":ship_name", value: SqlValue::of_optional_text(&self.ship_name) },
            Binding {
                name: ":ship_address",
                value: SqlValue::of_optional_text(&self.ship_address),
            },
            Binding { name: ":ship_city", value: SqlValue::of_optional_text(&self.ship_city) },
            Binding { name: ":ship_region", value: SqlValue::of_optional_text(&self.ship_region) },
            Binding {
                name: ":ship_postal_code",
                value: SqlValue::of_optional_text(&self.ship_postal_code),
            },
            Binding {
                name: ":ship_country",
                value: SqlValue::of_optional_text(&self.ship_country),
            },
        ];
        assert(bindings.deep_view() =~= bindings_of_order(self@));
        Insert { sql: INSERT_ORDER_SQL, bindings }
    }

    /// Reads a row as an order.
    pub fn from_row(row: &Vec<SqlValue>) -> (r: Result<Order, RowError>)
        ensures
            match r {
                Ok(order) => order_of_row(row.deep_view()) == Ok::<OrderView, RowError>(order@),
                Err(e) => order_of_row(row.deep_view()) == Err::<OrderView, RowError>(e),
            },
    {
        proof {
            reveal_with_fuel(first_error_from, 15);
        }
        let order = Order {
            order_id: get_i32(row, 0)?,
            customer_id: get_text(row, 1)?,
            employee_id: get_i32(row, 2)?,
            order_date: get_optional_text(row, 3)?,
            required_date: get_optional_text(row, 4)?,
            shipped_date: get_optional_text(row, 5)?,
            ship_via: get_i32(row, 6)?,
            freight: get_number(row, 7)?,
            ship_name: get_optional_text(row, 8)?,
            ship_address: get_optional_text(row, 9)?,
            ship_city: get_optional_text(row, 10)?,
            ship_region: get_optional_text(row, 11)?,
            ship_postal_code: get_optional_text(row, 12)?,
            ship_country: get_optional_text(row, 13)?,
        };
        Ok(order)
    }

    /// Reads the rows of a listing as orders, in the order of the rows.
    pub fn fetch_orders(rows: &Vec<Vec<SqlValue>>) -> (r: Result<Vec<Order>, FetchError>)
        ensures
            match r {
                Ok(orders) => orders_of_rows(rows.deep_view()) == Ok::<Seq<OrderView>, FetchError>(
                    orders.deep_view(),
                ),
                Err(e) => orders_of_rows(rows.deep_view()) == Err::<Seq<OrderView>, FetchError>(e),
            },
    {
        let ghost all = rows.deep_view();
        let mut orders: Vec<Order> = Vec::new();
        let mut i: usize = 0;
        assert(orders.deep_view() =~= Seq::<OrderView>::empty());
        while i < rows.len()
            invariant
                i <= rows.len(),
                all == rows.deep_view(),
                orders_of_rows(all.take(i as int)) == Ok::<Seq<OrderView>, FetchError>(
                    orders.deep_view(),
                ),
            decreases rows.len() - i,
        {
            proof {
                assert(all.take(i + 1).drop_last() =~= all.take(i as int));
                assert(all.take(i + 1).last() == rows[i as int].deep_view());
            }
            match Order::from_row(&rows[i]) {
                Ok(order) => {
                    let ghost before = orders.deep_view();
                    orders.push(order);
                    assert(orders.deep_view() =~= before.push(order@));
                },
                Err(error) => {
                    proof {
                        lemma_error_stays(all, |row: Seq<Cell>| order_of_row(row), i as int);
                    }
                    return Err(FetchError { row: i, error });
                },
            }
            i += 1;
        }
        assert(all.take(i as int) =~= all);
        Ok(orders)
    }
}

} // verus!
