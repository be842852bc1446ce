use vstd::prelude::*;

pub mod effects;
pub mod files;
pub mod git;
pub mod input;
pub mod journal;
pub mod river;
pub mod style;
pub mod tasks;
pub mod text;
pub mod timerange;
pub mod timeutils;

verus! {

/// Appends a successful item to the accumulator, or hands the item's error on.
pub fn fold_or_err<T, E>(accu: Vec<T>, item: Result<T, E>) -> (out: Result<Vec<T>, E>)
    ensures
        match item {
            Ok(v) => out matches Ok(all) && all@ == accu@.push(v),
            Err(e) => out == Err::<Vec<T>, E>(e),
        },
{
    let mut accu = accu;
    match item {
        Ok(v) => {
            accu.push(v);
            Ok(accu)
        },
        Err(e) => Err(e),
    }
}

} // verus!
