use vstd::prelude::*;

verus! {

/// One cell of a row that the store returned.
#[derive(Debug, Clone, PartialEq)]
pub enum Cell {
    /// No value.
    Null,
    /// A whole number.
    Integer(i64),
    /// A real number, kept as the bit pattern of its 64-bit encoding.
    Real(u64),
    /// Text.
    Text(String),
    /// Raw bytes.
    Binary(Vec<u8>),
}

/// A cell with its text and bytes seen as sequences.
pub enum CellView {
    Null,
    Integer(i64),
    Real(u64),
    Text(Seq<char>),
    Binary(Seq<u8>),
}

impl View for Cell {
    type V = CellView;

    open spec fn view(&self) -> CellView {
        match *self {
            Cell::Null => CellView::Null,
            Cell::Integer(number) => CellView::Integer(number),
            Cell::Real(bits) => CellView::Real(bits),
            Cell::Text(text) => CellView::Text(text@),
            Cell::Binary(bytes) => CellView::Binary(bytes@),
        }
    }
}

impl DeepView for Cell {
    type V = CellView;

    open spec fn deep_view(&self) -> CellView {
        self@
    }
}

/// A row as the decoders see it.
pub type RowView = Seq<CellView>;

/// The whole number in column `index`, if the row reaches that far and holds one there.
pub open spec fn spec_integer_at(row: RowView, index: int) -> Option<i64> {
    if 0 <= index < row.len() {
        match row[index] {
            CellView::Integer(number) => Some(number),
            _ => None,
        }
    } else {
        None
    }
}

/// The text in column `index`, if the row reaches that far and holds text there.
pub open spec fn spec_text_at(row: RowView, index: int) -> Option<Seq<char>> {
    if 0 <= index < row.len() {
        match row[index] {
            CellView::Text(text) => Some(text),
            _ => None,
        }
    } else {
        None
    }
}

/// The text in column `index` of a row that reaches that far, with anything that is not
/// text read as the empty string.
pub open spec fn spec_text_or_empty_at(row: RowView, index: int) -> Option<Seq<char>> {
    if 0 <= index < row.len() {
        match row[index] {
            CellView::Text(text) => Some(text),
            _ => Some(Seq::<char>::empty()),
        }
    } else {
        None
    }
}

/// Reads the whole number in column `index`.
pub fn integer_at(row: &Vec<Cell>, index: usize) -> (res: Option<i64>)
    ensures
        res == spec_integer_at(row.deep_view(), index as int),
{
    if index < row.len() {
        match &row[index] {
            Cell::Integer(number) => Some(*number),
            _ => None,
        }
    } else {
        None
    }
}

/// Reads the text in column `index`.
pub fn text_at(row: &Vec<Cell>, index: usize) -> (res: Option<String>)
    ensures
        res.deep_view() == spec_text_at(row.deep_view(), index as int),
{
    if index < row.len() {
        match &row[index] {
            Cell::Text(text) => Some(text.clone()),
            _ => None,
        }
    } else {
        None
    }
}

/// Reads the text in column `index`, taking a cell of any other kind for the empty string.
pub fn text_or_empty_at(row: &Vec<Cell>, index: usize) -> (res: Option<String>)
    ensures
        res.deep_view() == spec_text_or_empty_at(row.deep_view(), index as int),
{
    if index < row.len() {
        match &row[index] {
            Cell::Text(text) => Some(text.clone()),
            _ => Some(String::new()),
        }
    } else {
        None
    }
}

/// A value bound to a named parameter of a statement.
#[derive(Debug, Clone, PartialEq)]
pub enum Arg {
    Integer(i64),
    Text(String),
}

/// A bound value with its text seen as a sequence.
pub enum ArgView {
    Integer(i64),
    Text(Seq<char>),
}

impl View for Arg {
    type V = ArgView;

    open spec fn view(&self) -> ArgView {
        match *self {
            Arg::Integer(number) => ArgView::Integer(number),
            Arg::Text(text) => ArgView::Text(text@),
        }
    }
}

impl ArgView {
    /// The cell that the store holds for a bound value.
    pub open spec fn stored(self) -> CellView {
        match self {
            ArgView::Integer(number) => CellView::Integer(number),
            ArgView::Text(text) => CellView::Text(text),
        }
    }
}

/// A named parameter together with the value bound to it.
#[derive(Debug, Clone, PartialEq)]
pub struct Binding {
    pub name: &'static str,
    pub value: Arg,
}

/// A binding seen as a pair of parameter name and value.
pub struct BindingView {
    pub name: Seq<char>,
    pub value: ArgView,
}

impl View for Binding {
    type V = BindingView;

    open spec fn view(&self) -> BindingView {
        BindingView { name: self.name@, value: self.value@ }
    }
}

impl DeepView for Binding {
    type V = BindingView;

    open spec fn deep_view(&self) -> BindingView {
        self@
    }
}

} // verus!
