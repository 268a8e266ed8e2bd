//! Argument marshaling for queries run through the server's embedded query interface.
use vstd::prelude::*;

verus! {

/// The null flag of an argument that has a value.
pub const NOT_NULL_FLAG: i8 = 32;

/// The null flag of a null argument.
pub const NULL_FLAG: i8 = 110;

/// The value and null flag that the query interface takes for one argument: the datum and
/// `' '`, or zero and `'n'` for a null.
pub open spec fn prepared(datum: Option<usize>) -> (usize, i8) {
    match datum {
        Some(d) => (d, NOT_NULL_FLAG),
        None => (0usize, NULL_FLAG),
    }
}

/// The value and null flag of one argument.
pub fn prepare_datum(datum: Option<usize>) -> (r: (usize, i8))
    ensures
        r == prepared(datum),
{
    match datum {
        Some(d) => (d, NOT_NULL_FLAG),
        None => (0, NULL_FLAG),
    }
}

/// The values and the null flags of a list of arguments, in order.
pub fn prepare_arguments(args: &Vec<Option<usize>>) -> (r: (Vec<usize>, Vec<i8>))
    ensures
        r.0@.len() == args@.len(),
        r.1@.len() == args@.len(),
        forall|i: int| 0 <= i < args@.len() ==> (r.0@[i], r.1@[i]) == prepared(#[trigger] args@[i]),
{
    let mut datums: Vec<usize> = Vec::new();
    let mut nulls: Vec<i8> = Vec::new();
    let n = args.len();
    let mut k: usize = 0;
    while k < n
        invariant
            n == args@.len(),
            k <= n,
            datums@.len() == k,
            nulls@.len() == k,
            forall|i: int| 0 <= i < k ==> (datums@[i], nulls@[i]) == prepared(#[trigger] args@[i]),
        decreases n - k,
    {
        let (d, f) = prepare_datum(args[k]);
        datums.push(d);
        nulls.push(f);
        k = k + 1;
    }
    (datums, nulls)
}

/// A prepared statement was given a number of arguments other than the one it was planned for.
#[derive(Clone, Copy, Debug, PartialEq, Eq)]
pub struct ArgumentMismatch {
    pub expected: usize,
    pub got: usize,
}

/// Checks the number of arguments given to a prepared statement against its plan.
pub fn check_argument_count(expected: usize, got: usize) -> (r: Result<(), ArgumentMismatch>)
    ensures
        r is Ok <==> expected == got,
        r matches Err(e) ==> e == (ArgumentMismatch { expected, got }),
{
    if expected != got {
        Err(ArgumentMismatch { expected, got })
    } else {
        Ok(())
    }
}

} // verus!
