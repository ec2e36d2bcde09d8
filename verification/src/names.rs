//! The names that a run has referred to: a set kept in order, each name
//! once.

use vstd::prelude::*;
use vstd::utf8::{encode_utf8, encode_utf8_decode_utf8};

verus! {

/// `a` and `b` agree on their first `k` bytes, and there `a` ends while `b`
/// goes on, or `a` has the smaller byte.
pub open spec fn less_at(a: Seq<u8>, b: Seq<u8>, k: int) -> bool {
    &&& 0 <= k <= a.len()
    &&& k < b.len()
    &&& forall|j: int| 0 <= j < k ==> a[j] == b[j]
    &&& (k == a.len() || a[k] < b[k])
}

/// `a` comes before `b` in the order of the dictionary, byte by byte.
pub open spec fn bytes_less(a: Seq<u8>, b: Seq<u8>) -> bool {
    exists|k: int| less_at(a, b, k)
}

/// `a` comes before `b`: the order of strings, which is that of their
/// UTF-8 bytes.
pub open spec fn name_less(a: Seq<char>, b: Seq<char>) -> bool {
    bytes_less(encode_utf8(a), encode_utf8(b))
}

/// Every name comes before all that follow it.
pub open spec fn sorted(names: Seq<Seq<char>>) -> bool {
    forall|i: int, j: int| 0 <= i < j < names.len() ==> name_less(names[i], names[j])
}

/// The order of the dictionary is transitive.
pub proof fn lemma_bytes_less_transitive(a: Seq<u8>, b: Seq<u8>, c: Seq<u8>)
    requires
        bytes_less(a, b),
        bytes_less(b, c),
    ensures
        bytes_less(a, c),
{
    let k1 = choose|k: int| less_at(a, b, k);
    let k2 = choose|k: int| less_at(b, c, k);
    let k = if k1 <= k2 {
        k1
    } else {
        k2
    };
    assert(less_at(a, c, k));
}

/// What comes before another is not the same, and does not come after it.
pub proof fn lemma_bytes_less_asymmetric(a: Seq<u8>, b: Seq<u8>)
    requires
        bytes_less(a, b),
    ensures
        a != b,
        !bytes_less(b, a),
{
    let k1 = choose|k: int| less_at(a, b, k);
    if bytes_less(b, a) {
        let k2 = choose|k: int| less_at(b, a, k);
        if k1 < k2 {
            assert(b[k1] == a[k1]);
        } else if k2 < k1 {
            assert(a[k2] == b[k2]);
        }
    }
}

/// The order of names is transitive.
pub proof fn lemma_name_less_transitive(a: Seq<char>, b: Seq<char>, c: Seq<char>)
    requires
        name_less(a, b),
        name_less(b, c),
    ensures
        name_less(a, c),
{
    lemma_bytes_less_transitive(encode_utf8(a), encode_utf8(b), encode_utf8(c));
}

/// No name comes before itself, and no two come before each other.
pub proof fn lemma_name_less_asymmetric(a: Seq<char>, b: Seq<char>)
    requires
        name_less(a, b),
    ensures
        a != b,
        !name_less(b, a),
{
    lemma_bytes_less_asymmetric(encode_utf8(a), encode_utf8(b));
}

/// Names with the same bytes are the same name.
pub proof fn lemma_same_bytes_same_name(a: Seq<char>, b: Seq<char>)
    requires
        encode_utf8(a) == encode_utf8(b),
    ensures
        a == b,
{
    encode_utf8_decode_utf8(a);
    encode_utf8_decode_utf8(b);
}

/// A sorted sequence holds no name twice.
pub proof fn lemma_sorted_no_duplicates(names: Seq<Seq<char>>)
    requires
        sorted(names),
    ensures
        names.no_duplicates(),
{
    assert forall|i: int, j: int| 0 <= i < names.len() && 0 <= j < names.len() && i != j implies names[i]
        != names[j] by {
        if i < j {
            lemma_name_less_asymmetric(names[i], names[j]);
        } else {
            lemma_name_less_asymmetric(names[j], names[i]);
        }
    }
}

/// In a sorted sequence the last name is the greatest, and the names
/// before it are sorted and are the other names.
proof fn lemma_sorted_drop_last(names: Seq<Seq<char>>)
    requires
        sorted(names),
        names.len() > 0,
    ensures
        sorted(names.drop_last()),
        !names.drop_last().contains(names.last()),
        forall|x: Seq<char>| #[trigger]
            names.contains(x) <==> (names.drop_last().contains(x) || x == names.last()),
        forall|x: Seq<char>| #[trigger]
            names.drop_last().contains(x) ==> name_less(x, names.last()),
{
    let init = names.drop_last();
    assert forall|x: Seq<char>| #[trigger] init.contains(x) implies name_less(x, names.last()) by {
        let j = choose|j: int| 0 <= j < init.len() && init[j] == x;
        assert(names[j] == x);
    }
    if init.contains(names.last()) {
        lemma_name_less_asymmetric(names.last(), names.last());
    }
    assert forall|x: Seq<char>| #[trigger]
        names.contains(x) <==> (init.contains(x) || x == names.last()) by {
        if names.contains(x) {
            let j = choose|j: int| 0 <= j < names.len() && names[j] == x;
            if j < init.len() {
                assert(init[j] == x);
            }
        }
        if init.contains(x) {
            let j = choose|j: int| 0 <= j < init.len() && init[j] == x;
            assert(names[j] == x);
        }
        if x == names.last() {
            assert(names[names.len() - 1] == x);
        }
    }
    assert forall|i: int, j: int| 0 <= i < j < init.len() implies name_less(init[i], init[j]) by {
        assert(init[i] == names[i] && init[j] == names[j]);
    }
}

/// The order of the names is decided by which names there are: two sorted
/// sequences of the same names are the same sequence. So it does not count
/// how often, or in which order, the names were put in.
pub proof fn lemma_sorted_by_content(a: Seq<Seq<char>>, b: Seq<Seq<char>>)
    requires
        sorted(a),
        sorted(b),
        a.to_set() == b.to_set(),
    ensures
        a == b,
    decreases a.len(),
{
    assert forall|x: Seq<char>| a.contains(x) <==> b.contains(x) by {
        assert(a.to_set().contains(x) == a.contains(x));
        assert(b.to_set().contains(x) == b.contains(x));
    }
    if a.len() == 0 {
        if b.len() > 0 {
            assert(b.contains(b[0]));
            assert(a.contains(b[0]));
        }
        assert(a =~= b);
    } else if b.len() == 0 {
        assert(a.contains(a[0]));
        assert(b.contains(a[0]));
    } else {
        lemma_sorted_drop_last(a);
        lemma_sorted_drop_last(b);
        assert(a.contains(a.last())) by {
            assert(a[a.len() - 1] == a.last());
        }
        assert(b.contains(b.last())) by {
            assert(b[b.len() - 1] == b.last());
        }
        assert(b.contains(a.last()));
        assert(a.contains(b.last()));
        if a.last() != b.last() {
            assert(b.drop_last().contains(a.last()));
            assert(a.drop_last().contains(b.last()));
            lemma_name_less_asymmetric(a.last(), b.last());
        }
        assert(a.drop_last().to_set() =~= b.drop_last().to_set()) by {
            assert forall|x: Seq<char>|
                a.drop_last().contains(x) <==> b.drop_last().contains(x) by {
                assert(a.contains(x) <==> b.contains(x));
            }
        }
        lemma_sorted_by_content(a.drop_last(), b.drop_last());
        assert(a =~= a.drop_last().push(a.last()));
        assert(b =~= b.drop_last().push(b.last()));
    }
}

/// How two names stand to each other.
#[derive(Debug, Clone, Copy, PartialEq, Eq, Structural)]
pub enum Rank {
    Before,
    Same,
    After,
}

/// Compares two names in the order of their bytes.
pub fn rank(a: &str, b: &str) -> (r: Rank)
    ensures
        r == Rank::Before <==> name_less(a@, b@),
        r == Rank::Same <==> a@ == b@,
        r == Rank::After <==> name_less(b@, a@),
{
    let x = a.as_bytes();
    let y = b.as_bytes();
    let mut i: usize = 0;
    while i < x.len() && i < y.len()
        invariant
            i <= x@.len(),
            i <= y@.len(),
            x@ == encode_utf8(a@),
            y@ == encode_utf8(b@),
            forall|j: int| 0 <= j < i ==> x@[j] == y@[j],
        decreases x@.len() - i,
    {
        if x[i] < y[i] {
            proof {
                assert(less_at(x@, y@, i as int));
                lemma_name_less_asymmetric(a@, b@);
            }
            return Rank::Before;
        }
        if x[i] > y[i] {
            proof {
                assert(less_at(y@, x@, i as int));
                lemma_name_less_asymmetric(b@, a@);
            }
            return Rank::After;
        }
        i = i + 1;
    }
    if i < y.len() {
        proof {
            assert(less_at(x@, y@, i as int));
            lemma_name_less_asymmetric(a@, b@);
        }
        Rank::Before
    } else if i < x.len() {
        proof {
            assert(less_at(y@, x@, i as int));
            lemma_name_less_asymmetric(b@, a@);
        }
        Rank::After
    } else {
        proof {
            assert(x@ =~= y@);
            lemma_same_bytes_same_name(a@, b@);
            if name_less(a@, b@) {
                lemma_name_less_asymmetric(a@, b@);
            }
            if name_less(b@, a@) {
                lemma_name_less_asymmetric(b@, a@);
            }
        }
        Rank::Same
    }
}

/// The texts of a sequence of strings.
pub open spec fn texts(names: Seq<String>) -> Seq<Seq<char>> {
    Seq::new(names.len(), |i: int| names[i]@)
}

/// A set of names, kept in the order of strings, each name once.
#[derive(Debug)]
pub struct NameSet {
    names: Vec<String>,
}

impl View for NameSet {
    type V = Seq<Seq<char>>;

    /// The names, in order.
    closed spec fn view(&self) -> Seq<Seq<char>> {
        texts(self.names@)
    }
}

impl NameSet {
    #[verifier::type_invariant]
    closed spec fn inv(self) -> bool {
        sorted(self@)
    }

    /// The set without a name.
    pub fn new() -> (set: NameSet)
        ensures
            set@ == Seq::<Seq<char>>::empty(),
    {
        let set = NameSet { names: Vec::new() };
        assert(set@ =~= Seq::<Seq<char>>::empty());
        set
    }

    /// The number of names. The names are always in order.
    pub fn len(&self) -> (n: usize)
        ensures
            n == self@.len(),
            sorted(self@),
    {
        proof {
            use_type_invariant(self);
        }
        self.names.len()
    }

    /// The name at a place in the order.
    pub fn get(&self, i: usize) -> (name: &str)
        requires
            i < self@.len(),
        ensures
            name@ == self@[i as int],
    {
        self.names[i].as_str()
    }

    /// The first place whose name does not come before `name`.
    fn position(&self, name: &str) -> (p: usize)
        ensures
            p <= self@.len(),
            forall|j: int| 0 <= j < p ==> name_less(#[trigger] self@[j], name@),
            forall|j: int| p <= j < self@.len() ==> !name_less(#[trigger] self@[j], name@),
    {
        proof {
            use_type_invariant(self);
        }
        let mut lo: usize = 0;
        let mut hi: usize = self.names.len();
        while lo < hi
            invariant
                lo <= hi <= self@.len(),
                self@.len() == self.names@.len(),
                self@ == texts(self.names@),
                sorted(self@),
                forall|j: int| 0 <= j < lo ==> name_less(#[trigger] self@[j], name@),
                forall|j: int| hi <= j < self@.len() ==> !name_less(#[trigger] self@[j], name@),
            decreases hi - lo,
        {
            let mid = lo + (hi - lo) / 2;
            match rank(self.names[mid].as_str(), name) {
                Rank::Before => {
                    proof {
                        assert forall|j: int| 0 <= j < mid + 1 implies name_less(
                            #[trigger] self@[j],
                            name@,
                        ) by {
                            if j < mid {
                                lemma_name_less_transitive(self@[j], self@[mid as int], name@);
                            }
                        }
                    }
                    lo = mid + 1;
                },
                _ => {
                    proof {
                        assert forall|j: int| mid <= j < self@.len() implies !name_less(
                            #[trigger] self@[j],
                            name@,
                        ) by {
                            if mid < j && name_less(self@[j], name@) {
                                lemma_name_less_transitive(self@[mid as int], self@[j], name@);
                            }
                        }
                    }
                    hi = mid;
                },
            }
        }
        lo
    }

    /// Whether the set holds `name`.
    pub fn contains(&self, name: &str) -> (r: bool)
        ensures
            r == self@.contains(name@),
    {
        proof {
            use_type_invariant(self);
        }
        let p = self.position(name);
        if p < self.names.len() {
            match rank(self.names[p].as_str(), name) {
                Rank::Same => {
                    assert(self@[p as int] == name@);
                    true
                },
                _ => {
                    proof {
                        if self@.contains(name@) {
                            let j = choose|j: int| 0 <= j < self@.len() && self@[j] == name@;
                            if j < p {
                                lemma_name_less_asymmetric(self@[j], name@);
                            } else if j > p {
                                lemma_name_less_asymmetric(self@[p as int], self@[j]);
                            }
                        }
                    }
                    false
                },
            }
        } else {
            proof {
                if self@.contains(name@) {
                    let j = choose|j: int| 0 <= j < self@.len() && self@[j] == name@;
                    lemma_name_less_asymmetric(self@[j], name@);
                }
            }
            false
        }
    }

    /// Puts `name` into the set. A name that is there already is not put
    /// there again; a new one goes to its place in the order.
    pub fn insert(&mut self, name: String) -> (added: bool)
        ensures
            sorted(final(self)@),
            added == !old(self)@.contains(name@),
            !added ==> final(self)@ == old(self)@,
            added ==> exists|p: int|
                0 <= p <= old(self)@.len() && final(self)@ == old(self)@.insert(p, name@),
            final(self)@.to_set() == old(self)@.to_set().insert(name@),
    {
        proof {
            use_type_invariant(&*self);
        }
        let p = self.position(name.as_str());
        let ghost before = self@;
        let present = if p < self.names.len() {
            match rank(self.names[p].as_str(), name.as_str()) {
                Rank::Same => true,
                _ => false,
            }
        } else {
            false
        };
        if present {
            assert(before[p as int] == name@);
            assert(before.to_set() =~= before.to_set().insert(name@));
            return false;
        }
        proof {
            if before.contains(name@) {
                let j = choose|j: int| 0 <= j < before.len() && before[j] == name@;
                if j < p {
                    lemma_name_less_asymmetric(before[j], name@);
                } else if j > p {
                    lemma_name_less_asymmetric(before[p as int], before[j]);
                }
            }
        }
        let ghost added_name = name@;
        let mut taken = NameSet::new();
        core::mem::swap(self, &mut taken);
        let mut names = taken.names;
        names.insert(p, name);
        proof {
            let after = texts(names@);
            assert(after =~= before.insert(p as int, added_name));
            assert forall|i: int, j: int| 0 <= i < j < after.len() implies name_less(
                after[i],
                after[j],
            ) by {
                if j < p {
                    assert(after[i] == before[i] && after[j] == before[j]);
                } else if j == p {
                    assert(after[i] == before[i]);
                } else if i == p {
                    assert(after[j] == before[j - 1]);
                    if j - 1 > p {
                        lemma_name_less_transitive(added_name, before[p as int], before[j - 1]);
                    }
                } else if i < p {
                    assert(after[i] == before[i] && after[j] == before[j - 1]);
                } else {
                    assert(after[i] == before[i - 1] && after[j] == before[j - 1]);
                }
            }
        }
        *self = NameSet { names };
        proof {
            let after = self@;
            assert(after =~= before.insert(p as int, added_name));
            assert(after.to_set() =~= before.to_set().insert(added_name)) by {
                assert forall|x: Seq<char>| after.contains(x) <==> (before.contains(x) || x
                    == added_name) by {
                    if after.contains(x) {
                        let j = choose|j: int| 0 <= j < after.len() && after[j] == x;
                        if j < p {
                            assert(before[j] == x);
                        } else if j > p {
                            assert(before[j - 1] == x);
                        }
                    }
                    if before.contains(x) {
                        let j = choose|j: int| 0 <= j < before.len() && before[j] == x;
                        if j < p {
                            assert(after[j] == x);
                        } else {
                            assert(after[j + 1] == x);
                        }
                    }
                    if x == added_name {
                        assert(after[p as int] == x);
                    }
                }
            }
        }
        true
    }

    /// Puts every one of `names` into the set.
    pub fn extend(&mut self, names: &Vec<String>)
        ensures
            sorted(final(self)@),
            final(self)@.to_set() == old(self)@.to_set().union(texts(names@).to_set()),
    {
        let ghost all = texts(names@);
        let n = names.len();
        let mut i: usize = 0;
        proof {
            use_type_invariant(&*self);
            assert(all.take(0).to_set() =~= Set::<Seq<char>>::empty());
            assert(self@.to_set() =~= old(self)@.to_set().union(all.take(0).to_set()));
        }
        while i < n
            invariant
                i <= n,
                n == names@.len(),
                all == texts(names@),
                sorted(self@),
                self@.to_set() == old(self)@.to_set().union(all.take(i as int).to_set()),
            decreases n - i,
        {
            let ghost before = self@.to_set();
            self.insert(names[i].clone());
            proof {
                let done = all.take(i as int);
                let next = all.take(i + 1);
                assert(all[i as int] == names@[i as int]@);
                assert(next =~= done.push(all[i as int]));
                assert(next.to_set() =~= done.to_set().insert(all[i as int])) by {
                    assert forall|x: Seq<char>|
                        next.contains(x) <==> (done.contains(x) || x == all[i as int]) by {
                        if next.contains(x) {
                            let j = choose|j: int| 0 <= j < next.len() && next[j] == x;
                            if j < i {
                                assert(done[j] == x);
                            }
                        }
                        if done.contains(x) {
                            let j = choose|j: int| 0 <= j < done.len() && done[j] == x;
                            assert(next[j] == x);
                        }
                        if x == all[i as int] {
                            assert(next[i as int] == x);
                        }
                    }
                }
                assert(self@.to_set() =~= old(self)@.to_set().union(next.to_set()));
            }
            i = i + 1;
        }
        assert(all.take(n as int) =~= all);
    }
}

} // verus!
