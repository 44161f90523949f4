//! Cells that are written at most once, for bytes that are costly to get.
use once_cell::sync::OnceCell;
use vstd::prelude::*;

verus! {

/// `once_cell::sync::OnceCell`: a cell that is empty or holds one value, for good.
#[verifier::external_type_specification]
#[verifier::external_body]
#[verifier::reject_recursive_types(T)]
pub struct ExOnceCell<T>(OnceCell<T>);

/// What a cell of bytes holds: no sequence of bytes, or one.
pub uninterp spec fn held(cell: OnceCell<Vec<u8>>) -> Seq<Seq<u8>>;

/// `OnceCell::clone` makes a cell of its own. Nothing is claimed here of what the new cell holds.
pub assume_specification<T: Clone>[ <OnceCell<T> as Clone>::clone ](cell: &OnceCell<T>) -> (copy:
    OnceCell<T>)
;

/// `OnceCell::new` makes a cell that holds nothing.
#[verifier::external_body]
pub(crate) fn empty_cell() -> (cell: OnceCell<Vec<u8>>)
    ensures
        held(cell) == Seq::<Seq<u8>>::empty(),
{
    OnceCell::new()
}

/// `OnceCell::get` returns the value of a cell that holds one, and nothing for an empty
/// cell; a cell never holds more than one value.
#[verifier::external_body]
pub(crate) fn cell_get(cell: &OnceCell<Vec<u8>>) -> (value: Option<&Vec<u8>>)
    ensures
        match value {
            Some(bytes) => held(*cell) == seq![bytes@],
            None => held(*cell) == Seq::<Seq<u8>>::empty(),
        },
{
    cell.get()
}

/// `OnceCell::set` fills an empty cell with `bytes` and returns `Ok`; a cell that holds a
/// value keeps it, and `bytes` come back in `Err`.
#[verifier::external_body]
pub(crate) fn cell_set(cell: &mut OnceCell<Vec<u8>>, bytes: Vec<u8>) -> (outcome: Result<(), Vec<u8>>)
    ensures
        match outcome {
            Ok(_) => held(*old(cell)) == Seq::<Seq<u8>>::empty() && held(*final(cell)) == seq![
                bytes@,
            ],
            Err(rejected) => held(*old(cell)).len() == 1 && held(*final(cell)) == held(*old(cell))
                && rejected@ == bytes@,
        },
{
    cell.set(bytes)
}

} // verus!
