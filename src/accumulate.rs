use vstd::prelude::*;

verus! {

/// `accs` is the running accumulation of `xs` under `step`, from `init` and
/// strictly left to right: `accs[0]` is `init`, and each `accs[i + 1]` is
/// what `step` returns on `accs[i]` and `xs[i]`.
pub open spec fn is_running_accumulation<T, F: Fn(T, T) -> T>(
    step: F,
    init: T,
    xs: Seq<T>,
    accs: Seq<T>,
) -> bool {
    &&& accs.len() == xs.len() + 1
    &&& accs[0] == init
    &&& forall|i: int|
        0 <= i < xs.len() ==> call_ensures(step, (#[trigger] accs[i], xs[i]), accs[i + 1])
}

/// Folds `data` into one value, combining from the first element to the last:
/// `step(... step(step(init, data[0]), data[1]) ..., data[n - 1])`. An empty
/// `data` gives `init`.
pub fn accumulate<T: Copy, F: Fn(T, T) -> T>(data: &Vec<T>, init: T, step: F) -> (r: T)
    requires
        forall|acc: T, x: T| call_requires(step, (acc, x)),
    ensures
        exists|accs: Seq<T>|
            is_running_accumulation(step, init, data@, accs) && #[trigger] accs.last() == r,
        data@.len() == 0 ==> r == init,
{
    let mut acc = init;
    let ghost mut accs: Seq<T> = seq![init];
    let mut i: usize = 0;
    while i < data.len()
        invariant
            i <= data@.len(),
            accs.len() == i + 1,
            accs[0] == init,
            accs.last() == acc,
            forall|j: int|
                0 <= j < i ==> call_ensures(step, (#[trigger] accs[j], data@[j]), accs[j + 1]),
            forall|a: T, x: T| call_requires(step, (a, x)),
        decreases data@.len() - i,
    {
        let next = step(acc, data[i]);
        proof {
            accs = accs.push(next);
        }
        acc = next;
        i = i + 1;
    }
    assert(is_running_accumulation(step, init, data@, accs));
    acc
}

} // verus!
