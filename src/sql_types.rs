use vstd::prelude::*;

verus! {

/// The SQL type of a Postgres `citext` column.
#[derive(Debug, Clone, Copy)]
pub struct Citext;

} // verus!
