use vstd::prelude::*;
use vstd::set_lib::{lemma_int_range, lemma_set_subset_finite, lemma_subset_equality, set_int_range};

verus! {

/// An ASCII upper-case letter.
pub open spec fn is_ascii_upper(c: char) -> bool {
    'A' as u32 <= c as u32 <= 'Z' as u32
}

/// `c` with an ASCII upper-case letter mapped to its lower-case form.
pub open spec fn ascii_lower(c: char) -> char {
    if is_ascii_upper(c) {
        ((c as u32) + 32) as char
    } else {
        c
    }
}

/// `s` with every ASCII upper-case letter mapped to lower case.
pub open spec fn ascii_lowercase(s: Seq<char>) -> Seq<char> {
    s.map_values(|c: char| ascii_lower(c))
}

/// `s` holds an ASCII upper-case letter.
pub open spec fn has_ascii_upper(s: Seq<char>) -> bool {
    exists|i: int| 0 <= i < s.len() && is_ascii_upper(#[trigger] s[i])
}

/// `str::to_ascii_lowercase`: a copy of `s` in which ASCII letters `A` to `Z`
/// become `a` to `z` and every other character is unchanged.
#[verifier::external_body]
fn to_ascii_lowercase(s: &str) -> (r: String)
    ensures
        r@ == ascii_lowercase(s@),
{
    s.to_ascii_lowercase()
}

/// The key under which the headers table stores the values of `name`: the
/// table is keyed by lower-case names, so a name holding upper-case ASCII is
/// looked up in lower case. `None` means `name` is already its own key.
pub fn header_lookup_key(name: &str) -> (r: Option<String>)
    ensures
        has_ascii_upper(name@) ==> r is Some && r->0@ == ascii_lowercase(name@),
        !has_ascii_upper(name@) ==> r is None && name@ == ascii_lowercase(name@),
{
    let mut upper = false;
    for c in it: name.chars()
        invariant
            upper == exists|i: int| 0 <= i < it.index() && is_ascii_upper(#[trigger] it.seq()[i]),
    {
        if 'A' as u32 <= c as u32 && c as u32 <= 'Z' as u32 {
            upper = true;
        }
    }
    if upper {
        Some(to_ascii_lowercase(name))
    } else {
        assert(name@ =~= ascii_lowercase(name@));
        None
    }
}

/// Lower-casing is idempotent, so a name and its lower-case form share a
/// key: a header is found whether it is asked for in lower or mixed case.
pub proof fn lookup_is_case_insensitive(name: Seq<char>)
    ensures
        ascii_lowercase(ascii_lowercase(name)) == ascii_lowercase(name),
        !has_ascii_upper(ascii_lowercase(name)),
{
    assert(ascii_lowercase(ascii_lowercase(name)) =~= ascii_lowercase(name));
}

/// Entry `a` of `pairs` comes before entry `b`: a smaller index key, or the
/// same key and an earlier position.
pub open spec fn precedes<V>(pairs: Seq<(i32, V)>, a: int, b: int) -> bool {
    pairs[a].0 < pairs[b].0 || (pairs[a].0 == pairs[b].0 && a < b)
}

/// `order` lists positions of `pairs` sorted by key, equal keys keeping their
/// original order (a stable sort by key).
pub open spec fn stable_key_order<V>(pairs: Seq<(i32, V)>, order: Seq<int>) -> bool {
    &&& order.len() == pairs.len()
    &&& forall|k: int| 0 <= k < order.len() ==> 0 <= #[trigger] order[k] < pairs.len()
    &&& forall|k: int, l: int|
        0 <= k < l < order.len() ==> precedes(pairs, #[trigger] order[k], #[trigger] order[l])
}

/// A stable key order lists every position exactly once.
proof fn stable_key_order_covers<V>(pairs: Seq<(i32, V)>, order: Seq<int>)
    requires
        stable_key_order(pairs, order),
    ensures
        forall|v: int| 0 <= v < pairs.len() ==> order.contains(v),
{
    assert(order.no_duplicates()) by {
        assert forall|k: int, l: int| 0 <= k < order.len() && 0 <= l < order.len() && k != l implies order[k]
            != order[l] by {
            if k < l {
                assert(precedes(pairs, order[k], order[l]));
            } else {
                assert(precedes(pairs, order[l], order[k]));
            }
        }
    }
    order.unique_seq_to_set();
    lemma_int_range(0, pairs.len() as int);
    assert(order.to_set().subset_of(set_int_range(0, pairs.len() as int)));
    lemma_set_subset_finite(set_int_range(0, pairs.len() as int), order.to_set());
    lemma_subset_equality(order.to_set(), set_int_range(0, pairs.len() as int));
    assert forall|v: int| 0 <= v < pairs.len() implies order.contains(v) by {
        assert(set_int_range(0, pairs.len() as int).contains(v));
        assert(order.to_set().contains(v));
    }
}

/// Two stable key orders of the same pairs agree on their first `k` positions.
proof fn stable_key_orders_agree_up_to<V>(pairs: Seq<(i32, V)>, first: Seq<int>, second: Seq<int>, k: int)
    requires
        stable_key_order(pairs, first),
        stable_key_order(pairs, second),
        0 <= k <= pairs.len(),
    ensures
        forall|j: int| 0 <= j < k ==> first[j] == second[j],
    decreases k,
{
    if k > 0 {
        stable_key_orders_agree_up_to(pairs, first, second, k - 1);
        let i = k - 1;
        let a = first[i];
        let b = second[i];
        if a != b {
            stable_key_order_covers(pairs, first);
            stable_key_order_covers(pairs, second);
            assert(0 <= a < pairs.len() && 0 <= b < pairs.len());
            assert(second.contains(a) && first.contains(b));
            let m = choose|m: int| 0 <= m < second.len() && second[m] == a;
            let n = choose|n: int| 0 <= n < first.len() && first[n] == b;
            if m < i {
                assert(first[m] == second[m]);
                assert(first[m] == a);
                assert(precedes(pairs, first[m], first[i]));
            }
            if n < i {
                assert(first[n] == second[n]);
                assert(second[n] == b);
                assert(precedes(pairs, second[n], second[i]));
            }
            assert(precedes(pairs, second[i], second[m]));
            assert(precedes(pairs, first[i], first[n]));
        }
    }
}

/// The stable order by key is unique, so the values
/// [`ordered_header_values`] returns are determined by its input.
pub proof fn stable_key_order_is_unique<V>(pairs: Seq<(i32, V)>, first: Seq<int>, second: Seq<int>)
    requires
        stable_key_order(pairs, first),
        stable_key_order(pairs, second),
    ensures
        first == second,
{
    stable_key_orders_agree_up_to(pairs, first, second, pairs.len() as int);
    assert(first =~= second);
}

/// Orders the values of a Lua header-values table (index, value pairs as
/// the table yields them) by index, stably.
pub fn ordered_header_values<V>(pairs: Vec<(i32, V)>) -> (r: Vec<V>)
    ensures
        exists|order: Seq<int>|
            {
                &&& stable_key_order(pairs@, order)
                &&& r@.len() == pairs@.len()
                &&& forall|k: int| 0 <= k < r@.len() ==> #[trigger] r@[k] == pairs@[order[k]].1
            },
{
    let ghost orig = pairs@;
    let n = pairs.len();
    let mut input = pairs;
    let mut keys: Vec<i32> = Vec::new();
    let mut values: Vec<V> = Vec::new();
    let ghost mut order: Seq<int> = Seq::empty();
    let mut i: usize = 0;
    assert(orig.skip(0) =~= orig);
    while i < n
        invariant
            n == orig.len(),
            i <= n,
            input@ == orig.skip(i as int),
            order.len() == i,
            keys@.len() == i,
            values@.len() == i,
            forall|k: int| 0 <= k < i ==> 0 <= #[trigger] order[k] < i,
            forall|k: int| 0 <= k < i ==> #[trigger] keys@[k] == orig[order[k]].0,
            forall|k: int| 0 <= k < i ==> #[trigger] values@[k] == orig[order[k]].1,
            forall|k: int, l: int|
                0 <= k < l < i ==> precedes(orig, #[trigger] order[k], #[trigger] order[l]),
        decreases n - i,
    {
        let (key, value) = input.remove(0);
        assert(input@ =~= orig.skip(i + 1));
        assert((key, value) == orig[i as int]);
        let mut j: usize = 0;
        while j < keys.len() && keys[j] <= key
            invariant
                j <= keys@.len(),
                forall|m: int| 0 <= m < j ==> keys@[m] <= key,
            decreases keys@.len() - j,
        {
            j = j + 1;
        }
        assert forall|m: int| j <= m < i implies keys@[m] > key by {
            if m > j {
                assert(precedes(orig, order[j as int], order[m]));
            }
        }
        keys.insert(j, key);
        values.insert(j, value);
        let ghost old_order = order;
        proof {
            order = order.insert(j as int, i as int);
            assert forall|k: int, l: int| 0 <= k < l < i + 1 implies precedes(
                orig,
                #[trigger] order[k],
                #[trigger] order[l],
            ) by {
                if l < j {
                    assert(order[k] == old_order[k] && order[l] == old_order[l]);
                } else if l == j {
                    assert(order[k] == old_order[k]);
                    assert(keys@[k] == orig[old_order[k]].0);
                } else if k < j {
                    assert(order[k] == old_order[k] && order[l] == old_order[l - 1]);
                } else if k == j {
                    assert(order[l] == old_order[l - 1]);
                    assert(orig[old_order[l - 1]].0 > key);
                } else {
                    assert(order[k] == old_order[k - 1] && order[l] == old_order[l - 1]);
                    assert(precedes(orig, old_order[k - 1], old_order[l - 1]));
                }
            }
            assert forall|k: int| 0 <= k < i + 1 implies #[trigger] keys@[k] == orig[order[k]].0
                && values@[k] == orig[order[k]].1 && 0 <= order[k] < i + 1 by {
                if k < j {
                } else if k == j {
                } else {
                    assert(order[k] == old_order[k - 1]);
                }
            }
        }
        i = i + 1;
    }
    assert(stable_key_order(orig, order));
    values
}

/// Request header values fetched together, one per requested name, in the
/// order the names were given; `None` where the header is absent.
pub struct RequestHeaders<S>(Vec<Option<S>>);

impl<S> View for RequestHeaders<S> {
    type V = Seq<Option<S>>;

    closed spec fn view(&self) -> Seq<Option<S>> {
        self.0@
    }
}

impl<S> RequestHeaders<S> {
    /// Wraps the fetched values, one per requested name.
    pub fn new(values: Vec<Option<S>>) -> (r: Self)
        ensures
            r@ == values@,
    {
        RequestHeaders(values)
    }

    /// The value of the header requested at `index`, if it is present.
    pub fn get(&self, index: usize) -> (r: Option<&S>)
        ensures
            index < self@.len() && self@[index as int] is Some ==> r is Some && *r->0
                == self@[index as int]->0,
            index >= self@.len() || self@[index as int] is None ==> r is None,
    {
        if index < self.0.len() {
            self.0[index].as_ref()
        } else {
            None
        }
    }

    /// Number of requested header values.
    pub fn len(&self) -> (r: usize)
        ensures
            r == self@.len(),
    {
        self.0.len()
    }

    /// Whether no header values were requested.
    pub fn is_empty(&self) -> (r: bool)
        ensures
            r == (self@.len() == 0),
    {
        self.0.len() == 0
    }
}

} // verus!
