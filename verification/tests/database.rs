use northwind_api::orders::{Insert, Order, ORDER_COLUMNS, SELECT_ORDERS_SQL};
use northwind_api::products::{
    ProductTotalSales, PRODUCT_TOTAL_SALES_COLUMNS, SELECT_PRODUCT_TOTAL_SALES_SQL,
};
use northwind_api::service::{
    get_orders, get_prod_total_sales, insert_order, Failure, Reply,
};
use northwind_api::value::{Number, SqlValue};
use rusqlite::types::Value;
use rusqlite::Connection;

const ORDERS_WITH_KEY: &str = "CREATE TABLE orders (
    OrderID INTEGER PRIMARY KEY, CustomerID TEXT, EmployeeID INTEGER,
    OrderDate DATETIME, RequiredDate DATETIME, ShippedDate DATETIME,
    ShipVia INTEGER, Freight NUMERIC DEFAULT 0,
    ShipName TEXT, ShipAddress TEXT, ShipCity TEXT, ShipRegion TEXT,
    ShipPostalCode TEXT, ShipCountry TEXT);";

const ORDERS_WITHOUT_KEY: &str = "CREATE TABLE orders (
    OrderID INTEGER, CustomerID TEXT, EmployeeID INTEGER,
    OrderDate DATETIME, RequiredDate DATETIME, ShippedDate DATETIME,
    ShipVia INTEGER, Freight NUMERIC DEFAULT 0,
    ShipName TEXT, ShipAddress TEXT, ShipCity TEXT, ShipRegion TEXT,
    ShipPostalCode TEXT, ShipCountry TEXT);";

const ORDERS_WITH_NUMERIC_POSTAL_CODE: &str = "CREATE TABLE orders (
    OrderID INTEGER PRIMARY KEY, CustomerID TEXT, EmployeeID INTEGER,
    OrderDate DATETIME, RequiredDate DATETIME, ShippedDate DATETIME,
    ShipVia INTEGER, Freight NUMERIC DEFAULT 0,
    ShipName TEXT, ShipAddress TEXT, ShipCity TEXT, ShipRegion TEXT,
    ShipPostalCode NUMERIC, ShipCountry TEXT);";

const PRODUCTS: &str = "CREATE TABLE Products (
    ProductID INTEGER PRIMARY KEY, ProductName TEXT NOT NULL, UnitsOnOrder INTEGER);
    CREATE TABLE \"Order Details\" (
    OrderID INTEGER, ProductID INTEGER, UnitPrice NUMERIC, Quantity INTEGER);";

fn database(schema: &str) -> Connection {
    let conn = Connection::open_in_memory().unwrap();
    conn.execute_batch(schema).unwrap();
    conn
}

fn inside(value: Value) -> SqlValue {
    match value {
        Value::Null => SqlValue::Null,
        Value::Integer(i) => SqlValue::Integer(i),
        Value::Real(f) => SqlValue::Real(f.to_bits()),
        Value::Text(s) => SqlValue::Text(s),
        Value::Blob(b) => SqlValue::Blob(b),
    }
}

fn outside(value: &SqlValue) -> Value {
    match value {
        SqlValue::Null => Value::Null,
        SqlValue::Integer(i) => Value::Integer(*i),
        SqlValue::Real(bits) => Value::Real(f64::from_bits(*bits)),
        SqlValue::Text(s) => Value::Text(s.clone()),
        SqlValue::Blob(b) => Value::Blob(b.clone()),
    }
}

fn list(conn: &Connection, sql: &str, columns: usize) -> Result<Vec<Vec<SqlValue>>, Failure> {
    let mut statement = conn.prepare(sql).map_err(|_| Failure::Query)?;
    let rows = statement
        .query_map([], |row| {
            let mut cells = Vec::with_capacity(columns);
            for column in 0..columns {
                cells.push(inside(row.get::<_, Value>(column)?));
            }
            Ok(cells)
        })
        .map_err(|_| Failure::Query)?;
    rows.collect::<Result<Vec<_>, _>>().map_err(|_| Failure::Query)
}

fn record(conn: &mut Connection, insert: &Insert) -> Result<(), Failure> {
    let transaction = conn.transaction().map_err(|_| Failure::Query)?;
    let bound: Vec<(&str, Value)> =
        insert.bindings.iter().map(|b| (b.name, outside(&b.value))).collect();
    transaction.execute(insert.sql, bound.as_slice()).map_err(|_| Failure::Query)?;
    transaction.commit().map_err(|_| Failure::Query)
}

fn listed(conn: &Connection) -> Reply<Vec<Order>> {
    get_orders(list(conn, SELECT_ORDERS_SQL, ORDER_COLUMNS))
}

fn orders_of(reply: Reply<Vec<Order>>) -> Vec<Order> {
    match reply {
        Reply::Success(orders) => orders,
        Reply::ServerError => panic!("the listing failed"),
    }
}

fn numbered(order_id: i32) -> Order {
    Order { order_id, ..Order::fixed() }
}

fn as_float(number: Number) -> f64 {
    match number {
        Number::Integer(i) => i as f64,
        Number::Real(bits) => f64::from_bits(bits),
    }
}

#[test]
fn an_empty_table_lists_no_orders() {
    let conn = database(ORDERS_WITH_KEY);
    assert_eq!(listed(&conn), Reply::Success(Vec::new()));
}

#[test]
fn the_database_lists_orders_by_descending_identifier() {
    let mut conn = database(ORDERS_WITH_KEY);
    for order_id in [10250, 26533, -4, 10248, i32::MAX, 11077, i32::MIN, 0] {
        assert_eq!(record(&mut conn, &numbered(order_id).insert_order()), Ok(()));
    }
    let orders = orders_of(listed(&conn));
    let identifiers: Vec<i32> = orders.iter().map(|o| o.order_id).collect();
    assert_eq!(identifiers, vec![i32::MAX, 26533, 11077, 10250, 10248, 0, -4, i32::MIN]);
    assert!(identifiers.windows(2).all(|pair| pair[0] >= pair[1]));
    for order in orders {
        assert_eq!(order, numbered(order.order_id));
    }
}

#[test]
fn a_recorded_order_is_listed_exactly_once() {
    let mut conn = database(ORDERS_WITH_KEY);
    for order_id in [10248, 30000] {
        record(&mut conn, &numbered(order_id).insert_order()).unwrap();
    }
    let executed = record(&mut conn, &Order::fixed().insert_order());
    assert_eq!(insert_order(executed), Reply::Success(()));
    let orders = orders_of(listed(&conn));
    assert_eq!(orders.len(), 3);
    assert_eq!(orders.iter().filter(|o| **o == Order::fixed()).count(), 1);
    assert_eq!(orders[1], Order::fixed());
}

#[test]
fn a_second_recording_is_refused_where_identifiers_are_unique() {
    let mut conn = database(ORDERS_WITH_KEY);
    let first = record(&mut conn, &Order::fixed().insert_order());
    assert_eq!(insert_order(first).status(), 200);
    let second = record(&mut conn, &Order::fixed().insert_order());
    assert_eq!(second, Err(Failure::Query));
    assert_eq!(insert_order(second), Reply::ServerError);
    assert_eq!(orders_of(listed(&conn)), vec![Order::fixed()]);
}

#[test]
fn a_second_recording_shows_twice_where_identifiers_may_repeat() {
    let mut conn = database(ORDERS_WITHOUT_KEY);
    for _ in 0..2 {
        let executed = record(&mut conn, &Order::fixed().insert_order());
        assert_eq!(insert_order(executed), Reply::Success(()));
    }
    assert_eq!(orders_of(listed(&conn)), vec![Order::fixed(), Order::fixed()]);
}

#[test]
fn a_postal_code_kept_as_a_number_fails_the_listing() {
    let mut conn = database(ORDERS_WITH_NUMERIC_POSTAL_CODE);
    let executed = record(&mut conn, &Order::fixed().insert_order());
    assert_eq!(insert_order(executed), Reply::Success(()));
    let rows = list(&conn, SELECT_ORDERS_SQL, ORDER_COLUMNS).unwrap();
    assert_eq!(rows[0][12], SqlValue::Integer(87110));
    assert_eq!(listed(&conn), Reply::ServerError);
}

#[test]
fn a_whole_freight_comes_back_as_an_integer_for_the_same_quantity() {
    let mut conn = database(ORDERS_WITH_KEY);
    let order = Order { freight: Number::Real(8f64.to_bits()), ..Order::fixed() };
    record(&mut conn, &order.insert_order()).unwrap();
    let orders = orders_of(listed(&conn));
    assert_eq!(orders[0].freight, Number::Integer(8));
    assert_eq!(as_float(orders[0].freight), as_float(order.freight));
    assert_eq!(orders[0], Order { freight: Number::Integer(8), ..Order::fixed() });
}

#[test]
fn absent_fields_are_recorded_as_null() {
    let mut conn = database(ORDERS_WITH_KEY);
    let order = Order {
        order_date: None,
        ship_region: None,
        ship_country: None,
        ..Order::fixed()
    };
    record(&mut conn, &order.insert_order()).unwrap();
    let rows = list(&conn, SELECT_ORDERS_SQL, ORDER_COLUMNS).unwrap();
    assert_eq!(rows[0][3], SqlValue::Null);
    assert_eq!(rows[0][11], SqlValue::Null);
    assert_eq!(rows[0][13], SqlValue::Null);
    assert_eq!(orders_of(listed(&conn)), vec![order]);
}

#[test]
fn a_missing_table_is_a_server_error() {
    let mut conn = Connection::open_in_memory().unwrap();
    assert_eq!(list(&conn, SELECT_ORDERS_SQL, ORDER_COLUMNS), Err(Failure::Query));
    assert_eq!(listed(&conn).status(), 500);
    let executed = record(&mut conn, &Order::fixed().insert_order());
    assert_eq!(insert_order(executed).status(), 500);
    let fetched = list(&conn, SELECT_PRODUCT_TOTAL_SALES_SQL, PRODUCT_TOTAL_SALES_COLUMNS);
    assert_eq!(get_prod_total_sales(fetched), Reply::ServerError);
}

#[test]
fn a_table_with_too_few_columns_is_a_server_error() {
    let conn = database("CREATE TABLE orders (OrderID INTEGER PRIMARY KEY, CustomerID TEXT);");
    conn.execute_batch("INSERT INTO orders VALUES (1, 'RATTC');").unwrap();
    assert_eq!(listed(&conn), Reply::ServerError);
    let rows = list(&conn, SELECT_ORDERS_SQL, 2).unwrap();
    assert_eq!(get_orders(Ok(rows)), Reply::ServerError);
}

#[test]
fn the_database_lists_total_sales_by_descending_total() {
    let conn = database(PRODUCTS);
    conn.execute_batch(
        "INSERT INTO Products VALUES (1, 'Chai', 0), (3, 'Aniseed Syrup', 70),
            (11, 'Queso Cabrales', 30), (2, 'Chang', 40), (5, 'Gumbo Mix', 3);
         INSERT INTO \"Order Details\" VALUES (10248, 11, 14, 12), (10249, 3, 8.5, 1),
            (10250, 2, 15.2, 10), (10251, 1, 14.4, 45), (10252, 5, 21.35, 2);",
    )
    .unwrap();
    let fetched = list(&conn, SELECT_PRODUCT_TOTAL_SALES_SQL, PRODUCT_TOTAL_SALES_COLUMNS);
    let totals: Vec<ProductTotalSales> = match get_prod_total_sales(fetched) {
        Reply::Success(totals) => totals,
        Reply::ServerError => panic!("the listing failed"),
    };
    let products: Vec<i32> = totals.iter().map(|t| t.product_id).collect();
    assert_eq!(products, vec![2, 3, 11, 5, 1]);
    let sums: Vec<f64> = totals.iter().map(|t| as_float(t.total_sales)).collect();
    assert_eq!(sums, vec![608.0, 595.0, 420.0, 3.0 * 21.35, 0.0]);
    assert!(sums.windows(2).all(|pair| pair[0] >= pair[1]));
    for total in &totals {
        let product = total.units_on_order as f64 * as_float(total.unit_price);
        assert_eq!(as_float(total.total_sales), product);
    }
    assert_eq!(totals[2].product_name, "Queso Cabrales");
    assert_eq!(totals[2].quantity, 12);
    assert_eq!(totals[2].unit_price, Number::Integer(14));
    assert_eq!(totals[2].total_sales, Number::Integer(420));
    assert_eq!(totals[1].total_sales, Number::Real(595f64.to_bits()));
}

#[test]
fn a_product_without_units_on_order_fails_the_listing() {
    let conn = database(PRODUCTS);
    conn.execute_batch(
        "INSERT INTO Products VALUES (1, 'Chai', NULL);
         INSERT INTO \"Order Details\" VALUES (10251, 1, 14.4, 45);",
    )
    .unwrap();
    let fetched = list(&conn, SELECT_PRODUCT_TOTAL_SALES_SQL, PRODUCT_TOTAL_SALES_COLUMNS);
    assert!(fetched.is_ok());
    assert_eq!(get_prod_total_sales(fetched), Reply::ServerError);
}
