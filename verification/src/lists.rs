//! Lists: how they are turned round, so that their items can be taken from the front.
use vstd::prelude::*;

verus! {

/// The items of a list, the last one first.
pub fn reversed<T>(items: Vec<T>) -> (r: Vec<T>)
    ensures
        r@ == items@.reverse(),
{
    let ghost all = items@;
    let mut rest = items;
    let mut out: Vec<T> = Vec::new();
    while rest.len() > 0
        invariant
            rest@.len() <= all.len(),
            rest@ == all.take(rest@.len() as int),
            out@ == all.skip(rest@.len() as int).reverse(),
        decreases rest@.len(),
    {
        let ghost n = rest@.len() as int;
        if let Some(item) = rest.pop() {
            out.push(item);
            assert(rest@ =~= all.take(n - 1));
            assert(out@ =~= all.skip(n - 1).reverse());
        }
    }
    assert(all.skip(0) =~= all);
    out
}

}
