use vstd::prelude::*;

use crate::engine::SqlValue;

verus! {

/// One item row: `id` is unique within its table.
#[derive(Debug)]
pub struct Table {
    pub id: String,
    pub name: String,
    pub price: u32,
    pub inventory: i64,
    pub brand: Option<String>,
}

/// The mathematical value of an item row.
pub struct TableView {
    pub id: Seq<char>,
    pub name: Seq<char>,
    pub price: u32,
    pub inventory: i64,
    pub brand: Option<Seq<char>>,
}

impl View for Table {
    type V = TableView;

    open spec fn view(&self) -> TableView {
        TableView {
            id: self.id@,
            name: self.name@,
            price: self.price,
            inventory: self.inventory,
            brand: match self.brand {
                Some(b) => Some(b@),
                None => None,
            },
        }
    }
}

pub open spec fn text_of(v: SqlValue) -> Seq<char> {
    v->Text_0@
}

/// The item that a result row with the columns `id, name, price, inventory,
/// brand` (in that order, more may follow) stands for; none where a cell has
/// the wrong storage class or the price does not fit a `u32`. The brand may
/// be NULL.
pub open spec fn item_of(cells: Seq<SqlValue>) -> Option<TableView> {
    if cells.len() >= 5 && cells[0] is Text && cells[1] is Text && cells[2] is Integer && 0
        <= cells[2]->Integer_0 <= u32::MAX && cells[3] is Integer && (cells[4] is Text || cells[4] is Null) {
        Some(
            TableView {
                id: text_of(cells[0]),
                name: text_of(cells[1]),
                price: cells[2]->Integer_0 as u32,
                inventory: cells[3]->Integer_0,
                brand: if cells[4] is Text {
                    Some(text_of(cells[4]))
                } else {
                    None
                },
            },
        )
    } else {
        None
    }
}

/// The items of the rows that were read and decode, in row order; a row
/// that could not be read or does not decode is left out.
pub open spec fn items_of<E>(rows: Seq<Result<Vec<SqlValue>, E>>) -> Seq<TableView>
    decreases rows.len(),
{
    if rows.len() == 0 {
        Seq::empty()
    } else {
        let rest = items_of(rows.drop_last());
        match rows.last() {
            Ok(cells) => match item_of(cells@) {
                Some(t) => rest.push(t),
                None => rest,
            },
            Err(_) => rest,
        }
    }
}

/// The views of a sequence of rows.
pub open spec fn views(s: Seq<Table>) -> Seq<TableView> {
    s.map_values(|t: Table| t@)
}

/// The number in the first cell of a `COUNT(*)` result; none where the
/// first row could not be read, its first cell is not an integer, or the
/// number is negative.
pub open spec fn count_of<E>(rows: Seq<Result<Vec<SqlValue>, E>>) -> Option<u64> {
    if rows.len() > 0 && rows[0] is Ok && rows[0]->Ok_0@.len() > 0 && rows[0]->Ok_0@[0] is Integer
        && rows[0]->Ok_0@[0]->Integer_0 >= 0 {
        Some(rows[0]->Ok_0@[0]->Integer_0 as u64)
    } else {
        None
    }
}

/// The text of the first cell of each row that was read and starts with a
/// text cell, in row order.
pub open spec fn names_of<E>(rows: Seq<Result<Vec<SqlValue>, E>>) -> Seq<Seq<char>>
    decreases rows.len(),
{
    if rows.len() == 0 {
        Seq::empty()
    } else {
        let rest = names_of(rows.drop_last());
        match rows.last() {
            Ok(cells) => if cells@.len() > 0 && cells@[0] is Text {
                rest.push(text_of(cells@[0]))
            } else {
                rest
            },
            Err(_) => rest,
        }
    }
}

fn text_cell(v: &SqlValue) -> (r: Option<String>)
    ensures
        r is Some <==> v is Text,
        r is Some ==> r->Some_0@ == text_of(*v),
{
    match v {
        SqlValue::Text(s) => Some(s.clone()),
        _ => None,
    }
}

/// Decodes one result row into an item.
pub fn decode_item(cells: &Vec<SqlValue>) -> (r: Option<Table>)
    ensures
        r is Some <==> item_of(cells@) is Some,
        r is Some ==> item_of(cells@) == Some(r->Some_0@),
{
    if cells.len() < 5 {
        return None;
    }
    let id = match text_cell(&cells[0]) {
        Some(s) => s,
        None => return None,
    };
    let name = match text_cell(&cells[1]) {
        Some(s) => s,
        None => return None,
    };
    let price: u32 = match &cells[2] {
        SqlValue::Integer(n) => {
            if 0 <= *n && *n <= u32::MAX as i64 {
                *n as u32
            } else {
                return None;
            }
        },
        _ => return None,
    };
    let inventory: i64 = match &cells[3] {
        SqlValue::Integer(n) => *n,
        _ => return None,
    };
    let brand: Option<String> = match &cells[4] {
        SqlValue::Text(s) => Some(s.clone()),
        SqlValue::Null => None,
        _ => return None,
    };
    Some(Table { id, name, price, inventory, brand })
}

/// Decodes every row that was read and has the shape of an item row, in
/// order, and drops the others.
pub fn decode_rows<E>(rows: &Vec<Result<Vec<SqlValue>, E>>) -> (r: Vec<Table>)
    ensures
        views(r@) == items_of(rows@),
{
    let mut out: Vec<Table> = Vec::new();
    let mut i: usize = 0;
    while i < rows.len()
        invariant
            i <= rows.len(),
            views(out@) == items_of(rows@.subrange(0, i as int)),
        decreases rows.len() - i,
    {
        proof {
            assert(rows@.subrange(0, i + 1).drop_last() == rows@.subrange(0, i as int));
        }
        match &rows[i] {
            Ok(cells) => match decode_item(cells) {
                Some(t) => {
                    let ghost before = out@;
                    let ghost tv = t@;
                    out.push(t);
                    proof {
                        assert(views(out@) =~= views(before).push(tv));
                    }
                },
                None => {},
            },
            Err(_) => {},
        }
        i = i + 1;
    }
    proof {
        assert(rows@.subrange(0, rows@.len() as int) == rows@);
    }
    out
}

/// Reads the number out of a `COUNT(*)` result.
pub fn decode_count<E>(rows: &Vec<Result<Vec<SqlValue>, E>>) -> (r: Option<u64>)
    ensures
        r == count_of(rows@),
{
    if rows.len() == 0 {
        return None;
    }
    match &rows[0] {
        Ok(cells) => {
            if cells.len() == 0 {
                return None;
            }
            match &cells[0] {
                SqlValue::Integer(n) => {
                    if *n >= 0 {
                        Some(*n as u64)
                    } else {
                        None
                    }
                },
                _ => None,
            }
        },
        Err(_) => None,
    }
}

/// The text in the first cell of each row that was read and starts with a
/// text cell, in row order.
pub fn decode_names<E>(rows: &Vec<Result<Vec<SqlValue>, E>>) -> (r: Vec<String>)
    ensures
        r@.map_values(|s: String| s@) == names_of(rows@),
{
    let mut out: Vec<String> = Vec::new();
    let mut i: usize = 0;
    while i < rows.len()
        invariant
            i <= rows.len(),
            out@.map_values(|s: String| s@) == names_of(rows@.subrange(0, i as int)),
        decreases rows.len() - i,
    {
        proof {
            assert(rows@.subrange(0, i + 1).drop_last() == rows@.subrange(0, i as int));
        }
        match &rows[i] {
            Ok(cells) => {
                if cells.len() > 0 {
                    match text_cell(&cells[0]) {
                        Some(s) => {
                            let ghost before = out@;
                            let ghost sv = s@;
                            out.push(s);
                            proof {
                                assert(out@.map_values(|s: String| s@) =~= before.map_values(
                                    |s: String| s@,
                                ).push(sv));
                            }
                        },
                        None => {},
                    }
                }
            },
            Err(_) => {},
        }
        i = i + 1;
    }
    proof {
        assert(rows@.subrange(0, rows@.len() as int) == rows@);
    }
    out
}

} // verus!
