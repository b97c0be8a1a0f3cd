//! What the request numbers of a client and its clones are.
use std::sync::atomic::AtomicUsize;
use std::sync::Arc;

use vstd::prelude::*;

use crate::client::{read_from, starts_at_zero, taken_from, Client};

verus! {

/// The values that the counter of a client has had, one after another: each time that the client or
/// a clone of it takes a number, from whatever thread, there is one more.
pub struct Counting {
    pub values: Seq<usize>,
}

impl Counting {
    /// Whether value `k + 1` is one more than value `k`; after the last number comes zero.
    pub open spec fn goes_up(self, k: int) -> bool {
        self.values[k + 1] == if self.values[k] == usize::MAX {
            0
        } else {
            self.values[k] + 1
        }
    }

    /// Whether these can be the values of `counter`: it was made to start at zero, and all that is
    /// done to it is to add one.
    pub open spec fn of(self, counter: Arc<AtomicUsize>) -> bool {
        &&& starts_at_zero(counter)
        &&& self.values.len() > 0
        &&& self.values[0] == 0
        &&& forall|k: int| 0 <= k < self.values.len() - 1 ==> #[trigger] self.goes_up(k)
    }

    /// Whether `id` is the number that was taken after `k` others: adding to an atomic integer gives
    /// back what it held before.
    pub open spec fn takes(self, counter: Arc<AtomicUsize>, k: int, id: usize) -> bool {
        &&& taken_from(counter, id)
        &&& 0 <= k < self.values.len() - 1
        &&& id == self.values[k]
    }

    /// Whether `id` is a number that `counter` showed: looking at an atomic integer gives a value
    /// that it has had.
    pub open spec fn shows(self, counter: Arc<AtomicUsize>, id: usize) -> bool {
        &&& read_from(counter, id)
        &&& self.values.contains(id)
    }
}

/// The counter has gone up by one for each number that was taken.
proof fn lemma_values(counting: Counting, counter: Arc<AtomicUsize>, k: int)
    requires
        counting.of(counter),
        0 <= k < counting.values.len(),
        k <= usize::MAX,
    ensures
        counting.values[k] == k,
    decreases k,
{
    if k > 0 {
        lemma_values(counting, counter, k - 1);
        assert(counting.goes_up(k - 1));
    }
}

/// The request numbers of a client and its clones start at zero and rise by one: the number taken
/// after `k` others is `k`, and the counter then stands at `k + 1`.
pub proof fn request_numbers_count_up(client: Client, counting: Counting, k: int, id: usize)
    requires
        counting.of(client.counter()),
        counting.takes(client.counter(), k, id),
        k < usize::MAX,
    ensures
        id == k,
        counting.values[k + 1] == k + 1,
{
    lemma_values(counting, client.counter(), k);
    lemma_values(counting, client.counter(), k + 1);
}

/// No two requests of a client and its clones have the same number, until the numbers are used up.
pub proof fn request_numbers_do_not_repeat(
    client: Client,
    clone: Client,
    counting: Counting,
    i: int,
    j: int,
    first: usize,
    second: usize,
)
    requires
        clone.counter() == client.counter(),
        counting.of(client.counter()),
        counting.takes(client.counter(), i, first),
        counting.takes(clone.counter(), j, second),
        i != j,
        i <= usize::MAX,
        j <= usize::MAX,
    ensures
        first != second,
{
    lemma_values(counting, client.counter(), i);
    lemma_values(counting, client.counter(), j);
}

/// As long as no number was taken from it, a new client shows the number zero.
pub proof fn new_clients_show_zero(client: Client, counting: Counting, id: usize)
    requires
        counting.of(client.counter()),
        counting.values.len() == 1,
        counting.shows(client.counter(), id),
    ensures
        id == 0,
{
}

} // verus!
