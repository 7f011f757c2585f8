//! The total sales of products: the record and the row that stands for it.

use crate::rows::{
    first_error, first_error_from, get_i32, get_number, get_text, lemma_error_stays,
    records_of_rows, ColumnKind, FetchError, RowError,
};
use crate::value::{Cell, Number, SqlValue};
use vstd::prelude::*;

verus! {

/// A product joined with one of its order lines, and the total that the
/// database computed for it.
#[derive(Debug, Clone, PartialEq, Eq)]
pub struct ProductTotalSales {
    pub product_id: i32,
    pub product_name: String,
    pub unit_price: Number,
    pub quantity: i32,
    pub units_on_order: i32,
    pub total_sales: Number,
}

/// The mathematical view of a [`ProductTotalSales`].
pub struct ProductTotalSalesView {
    pub product_id: i32,
    pub product_name: Seq<char>,
    pub unit_price: Number,
    pub quantity: i32,
    pub units_on_order: i32,
    pub total_sales: Number,
}

impl View for ProductTotalSales {
    type V = ProductTotalSalesView;

    open spec fn view(&self) -> ProductTotalSalesView {
        ProductTotalSalesView {
            product_id: self.product_id,
            product_name: self.product_name@,
            unit_price: self.unit_price,
            quantity: self.quantity,
            units_on_order: self.units_on_order,
            total_sales: self.total_sales,
        }
    }
}

impl DeepView for ProductTotalSales {
    type V = ProductTotalSalesView;

    open spec fn deep_view(&self) -> ProductTotalSalesView {
        self@
    }
}


/// The statement that lists the total sales of the products, the greatest
/// total first. The total of a product is what the database computes as its
/// units on order times the unit price of its order line.
pub const SELECT_PRODUCT_TOTAL_SALES_SQL: &'static str =
    "SELECT Products.ProductID, Products.ProductName, OrderDetails.UnitPrice, \
     OrderDetails.Quantity, Products.UnitsOnOrder, \
     Products.UnitsOnOrder * OrderDetails.UnitPrice AS TotalSales \
     FROM Products \
     JOIN \"Order Details\" as OrderDetails ON Products.ProductID = OrderDetails.ProductID \
     GROUP BY Products.ProductID, Products.ProductName \
     ORDER BY TotalSales DESC;";

/// The number of columns of a row that the total sales of a product are read
/// from.
pub const PRODUCT_TOTAL_SALES_COLUMNS: usize = 6;

/// What each column of a row is read as, for the total sales of a product.
pub open spec fn product_total_sales_schema() -> Seq<ColumnKind> {
    seq![
        ColumnKind::Int32,
        ColumnKind::Text,
        ColumnKind::Number,
        ColumnKind::Int32,
        ColumnKind::Int32,
        ColumnKind::Number,
    ]
}

/// The total sales that `row` stands for: its first six columns, each read
/// as [`product_total_sales_schema`] asks and put into the field of the same
/// place. Where one of them is missing or cannot be read so, the error of
/// the first such column.
pub open spec fn product_total_sales_of_row(row: Seq<Cell>) -> Result<
    ProductTotalSalesView,
    RowError,
> {
    match first_error(row, product_total_sales_schema()) {
        Some(e) => Err(e),
        None => Ok(
            ProductTotalSalesView {
                product_id: row[0].as_i32()->Ok_0,
                product_name: row[1].as_text()->Ok_0,
                unit_price: row[2].as_number()->Ok_0,
                quantity: row[3].as_i32()->Ok_0,
                units_on_order: row[4].as_i32()->Ok_0,
                total_sales: row[5].as_number()->Ok_0,
            },
        ),
    }
}

/// The total sales that `rows` stand for, in the order of the rows. Where a
/// row stands for none, the first such row and its error.
pub open spec fn product_total_sales_of_rows(rows: Seq<Seq<Cell>>) -> Result<
    Seq<ProductTotalSalesView>,
    FetchError,
> {
    records_of_rows(rows, |row: Seq<Cell>| product_total_sales_of_row(row))
}

impl ProductTotalSales {
    /// Reads a row as the total sales of a product.
    pub fn from_row(row: &Vec<SqlValue>) -> (r: Result<ProductTotalSales, RowError>)
        ensures
            match r {
                Ok(total) => product_total_sales_of_row(row.deep_view()) == Ok::<
                    ProductTotalSalesView,
                    RowError,
                >(total@),
                Err(e) => product_total_sales_of_row(row.deep_view()) == Err::<
                    ProductTotalSalesView,
                    RowError,
                >(e),
            },
    {
        proof {
            reveal_with_fuel(first_error_from, 7);
        }
        let total = ProductTotalSales {
            product_id: get_i32(row, 0)?,
            product_name: get_text(row, 1)?,
            unit_price: get_number(row, 2)?,
            quantity: get_i32(row, 3)?,
            units_on_order: get_i32(row, 4)?,
            total_sales: get_number(row, 5)?,
        };
        Ok(total)
    }

    /// Reads the rows of a listing as total sales, in the order of the rows.
    pub fn fetch_prod_total(rows: &Vec<Vec<SqlValue>>) -> (r: Result<
        Vec<ProductTotalSales>,
        FetchError,
    >)
        ensures
            match r {
                Ok(totals) => product_total_sales_of_rows(rows.deep_view()) == Ok::<
                    Seq<ProductTotalSalesView>,
                    FetchError,
                >(totals.deep_view()),
                Err(e) => product_total_sales_of_rows(rows.deep_view()) == Err::<
                    Seq<ProductTotalSalesView>,
                    FetchError,
                >(e),
            },
    {
        let ghost all = rows.deep_view();
        let mut totals: Vec<ProductTotalSales> = Vec::new();
        let mut i: usize = 0;
        assert(totals.deep_view() =~= Seq::<ProductTotalSalesView>::empty());
        while i < rows.len()
            invariant
                i <= rows.len(),
                all == rows.deep_view(),
                product_total_sales_of_rows(all.take(i as int)) == Ok::<
                    Seq<ProductTotalSalesView>,
                    FetchError,
                >(totals.deep_view()),
            decreases rows.len() - i,
        {
            proof {
                assert(all.take(i + 1).drop_last() =~= all.take(i as int));
                assert(all.take(i + 1).last() == rows[i as int].deep_view());
            }
            match ProductTotalSales::from_row(&rows[i]) {
                Ok(total) => {
                    let ghost before = totals.deep_view();
                    totals.push(total);
                    assert(totals.deep_view() =~= before.push(total@));
                },
                Err(error) => {
                    proof {
                        lemma_error_stays(
                            all,
                            |row: Seq<Cell>| product_total_sales_of_row(row),
                            i as int,
                        );
                    }
                    return Err(FetchError { row: i, error });
                },
            }
            i += 1;
        }
        assert(all.take(i as int) =~= all);
        Ok(totals)
    }
}

} // verus!
