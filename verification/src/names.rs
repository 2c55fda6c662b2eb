//! Device addresses and the nicknames kept for them.

use crate::text::{
    ascii_upper, before, chars_of, hex_digit, is_hex_digit, precedes, precedes_is_an_order, same,
    to_ascii_upper,
};
use vstd::prelude::*;

verus! {

/// The hexadecimal digits of an address, as capitals.
pub open spec fn mac_digits(mac: Seq<char>) -> Seq<char>
    decreases mac.len(),
{
    if mac.len() == 0 {
        Seq::empty()
    } else if is_hex_digit(mac.last()) {
        mac_digits(mac.drop_last()).push(ascii_upper(mac.last()))
    } else {
        mac_digits(mac.drop_last())
    }
}

/// Digits in pairs with a colon between one pair and the next.
pub open spec fn in_pairs(digits: Seq<char>) -> Seq<char>
    decreases digits.len(),
{
    if digits.len() <= 2 {
        digits
    } else {
        digits.take(2) + seq![':'] + in_pairs(digits.skip(2))
    }
}

/// An address as a table key: its digits as capitals, in pairs.
pub open spec fn normal_mac(mac: Seq<char>) -> Seq<char> {
    in_pairs(mac_digits(mac))
}

/// A MAC as a table key: uppercase, colon-separated. Boards report addresses in
/// whatever case their stack prefers and a hand-typed one may use dashes, so
/// keying on the raw string would file the same board twice.
pub fn normalize_mac(mac: &str) -> (r: String)
    ensures
        r@ == normal_mac(mac@),
{
    let chars = chars_of(mac);
    let mut digits: Vec<char> = Vec::new();
    let mut i: usize = 0;
    while i < chars.len()
        invariant
            i <= chars@.len(),
            chars@ == mac@,
            digits@ == mac_digits(mac@.take(i as int)),
        decreases chars@.len() - i,
    {
        proof {
            assert(mac@.take(i + 1).drop_last() =~= mac@.take(i as int));
        }
        if hex_digit(chars[i]) {
            digits.push(to_ascii_upper(chars[i]));
        }
        i = i + 1;
    }
    proof {
        assert(mac@.take(i as int) =~= mac@);
    }
    let mut r = String::new();
    let mut j: usize = 0;
    proof {
        assert(digits@.skip(0) =~= digits@);
    }
    while digits.len() - j > 2
        invariant
            j <= digits@.len(),
            r@ + in_pairs(digits@.skip(j as int)) =~= in_pairs(digits@),
        decreases digits@.len() - j,
    {
        r.push(digits[j]);
        r.push(digits[j + 1]);
        r.push(':');
        proof {
            let rest = digits@.skip(j as int);
            assert(rest.take(2) =~= seq![digits@[j as int], digits@[j + 1]]);
            assert(rest.skip(2) =~= digits@.skip(j + 2));
        }
        j = j + 2;
    }
    while j < digits.len()
        invariant
            j <= digits@.len(),
            digits@.len() - j <= 2,
            r@ + digits@.skip(j as int) =~= in_pairs(digits@),
        decreases digits@.len() - j,
    {
        r.push(digits[j]);
        proof {
            assert(digits@.skip(j as int) =~= seq![digits@[j as int]] + digits@.skip(j + 1));
        }
        j = j + 1;
    }
    r
}

proof fn lemma_digits_of_joined(a: Seq<char>, b: Seq<char>)
    ensures
        mac_digits(a + b) == mac_digits(a) + mac_digits(b),
    decreases b.len(),
{
    if b.len() == 0 {
        assert(a + b =~= a);
        assert(mac_digits(a) + mac_digits(b) =~= mac_digits(a));
    } else {
        assert((a + b).drop_last() =~= a + b.drop_last());
        lemma_digits_of_joined(a, b.drop_last());
        assert(mac_digits(a + b) =~= mac_digits(a) + mac_digits(b));
    }
}

/// Nothing but capital hexadecimal digits.
pub open spec fn capital_digits(s: Seq<char>) -> bool {
    forall|i: int|
        0 <= i < s.len() ==> is_hex_digit(#[trigger] s[i]) && ascii_upper(s[i]) == s[i]
}

proof fn lemma_digits_are_capital(mac: Seq<char>)
    ensures
        capital_digits(mac_digits(mac)),
    decreases mac.len(),
{
    if mac.len() > 0 {
        lemma_digits_are_capital(mac.drop_last());
    }
}

proof fn lemma_digits_of_digits(s: Seq<char>)
    requires
        capital_digits(s),
    ensures
        mac_digits(s) == s,
    decreases s.len(),
{
    if s.len() > 0 {
        lemma_digits_of_digits(s.drop_last());
        assert(is_hex_digit(s[s.len() - 1]));
        assert(mac_digits(s) =~= s);
    }
}

proof fn lemma_digits_of_pairs(s: Seq<char>)
    requires
        capital_digits(s),
    ensures
        mac_digits(in_pairs(s)) == s,
    decreases s.len(),
{
    if s.len() <= 2 {
        lemma_digits_of_digits(s);
    } else {
        let head = s.take(2);
        let tail = s.skip(2);
        assert(capital_digits(head)) by {
            assert forall|i: int| 0 <= i < head.len() implies is_hex_digit(#[trigger] head[i])
                && ascii_upper(head[i]) == head[i] by {
                assert(head[i] == s[i]);
            }
        }
        assert(capital_digits(tail)) by {
            assert forall|i: int| 0 <= i < tail.len() implies is_hex_digit(#[trigger] tail[i])
                && ascii_upper(tail[i]) == tail[i] by {
                assert(tail[i] == s[i + 2]);
            }
        }
        lemma_digits_of_digits(head);
        lemma_digits_of_pairs(tail);
        lemma_digits_of_joined(head + seq![':'], in_pairs(tail));
        lemma_digits_of_joined(head, seq![':']);
        assert(!is_hex_digit(seq![':'].last()));
        assert(seq![':'].drop_last() =~= Seq::<char>::empty());
        assert(mac_digits(seq![':'].drop_last()) =~= Seq::<char>::empty());
        assert(mac_digits(seq![':']) =~= Seq::<char>::empty());
        assert(head + Seq::<char>::empty() + tail =~= s);
    }
}

/// The key of an address spells the same digits as the address.
pub proof fn key_keeps_digits(mac: Seq<char>)
    ensures
        mac_digits(normal_mac(mac)) == mac_digits(mac),
{
    lemma_digits_are_capital(mac);
    lemma_digits_of_pairs(mac_digits(mac));
}

/// A key is its own key.
pub proof fn key_of_key_is_itself(mac: Seq<char>)
    ensures
        normal_mac(normal_mac(mac)) == normal_mac(mac),
{
    key_keeps_digits(mac);
}

/// Two spellings share a key exactly when they spell the same digits, whatever
/// their case and their separators.
pub proof fn spellings_share_a_key(a: Seq<char>, b: Seq<char>)
    ensures
        normal_mac(a) == normal_mac(b) <==> mac_digits(a) == mac_digits(b),
{
    key_keeps_digits(a);
    key_keeps_digits(b);
}

/// Case makes no difference to the key of an address.
pub proof fn case_makes_no_difference(mac: Seq<char>)
    ensures
        normal_mac(mac.map_values(|c: char| ascii_upper(c))) == normal_mac(mac),
    decreases mac.len(),
{
    lemma_digits_of_capitals(mac);
}

proof fn lemma_digits_of_capitals(mac: Seq<char>)
    ensures
        mac_digits(mac.map_values(|c: char| ascii_upper(c))) == mac_digits(mac),
    decreases mac.len(),
{
    let up = mac.map_values(|c: char| ascii_upper(c));
    if mac.len() > 0 {
        assert(up.drop_last() =~= mac.drop_last().map_values(|c: char| ascii_upper(c)));
        lemma_digits_of_capitals(mac.drop_last());
    }
}

/// Nicknames by device key, walked in the dictionary order of the keys.
pub struct NameTable {
    entries: Vec<(String, String)>,
}

/// The keys and names of `entries`, in order.
pub closed spec fn pairs_of(entries: Seq<(String, String)>) -> Seq<(Seq<char>, Seq<char>)> {
    entries.map_values(|e: (String, String)| (e.0@, e.1@))
}

/// Keys in strictly ascending order.
pub open spec fn ascending(pairs: Seq<(Seq<char>, Seq<char>)>) -> bool {
    forall|i: int, j: int|
        0 <= i < j < pairs.len() ==> precedes((#[trigger] pairs[i]).0, (#[trigger] pairs[j]).0)
}

/// The name that `pairs` files under a key.
pub open spec fn filed(pairs: Seq<(Seq<char>, Seq<char>)>, key: Seq<char>) -> bool {
    exists|i: int| 0 <= i < pairs.len() && (#[trigger] pairs[i]).0 == key
}

/// Where `pairs` files a key.
pub open spec fn place(pairs: Seq<(Seq<char>, Seq<char>)>, key: Seq<char>) -> int {
    choose|i: int| 0 <= i < pairs.len() && (#[trigger] pairs[i]).0 == key
}

/// `pairs` as a map from keys to names.
pub open spec fn pairs_map(pairs: Seq<(Seq<char>, Seq<char>)>) -> Map<Seq<char>, Seq<char>> {
    Map::new(|key: Seq<char>| filed(pairs, key), |key: Seq<char>| pairs[place(pairs, key)].1)
}

impl View for NameTable {
    type V = Map<Seq<char>, Seq<char>>;

    open spec fn view(&self) -> Map<Seq<char>, Seq<char>> {
        pairs_map(self.pairs())
    }
}

proof fn lemma_place(pairs: Seq<(Seq<char>, Seq<char>)>, i: int)
    requires
        ascending(pairs),
        0 <= i < pairs.len(),
    ensures
        filed(pairs, pairs[i].0),
        place(pairs, pairs[i].0) == i,
        pairs_map(pairs).dom().contains(pairs[i].0),
        pairs_map(pairs)[pairs[i].0] == pairs[i].1,
{
    let key = pairs[i].0;
    let p = place(pairs, key);
    assert(0 <= p < pairs.len() && pairs[p].0 == key);
    precedes_is_an_order(key, key, key);
    if p < i {
        assert(precedes(pairs[p].0, pairs[i].0));
    } else if i < p {
        assert(precedes(pairs[i].0, pairs[p].0));
    }
}

impl NameTable {
    /// Keys and names, in dictionary order of the keys.
    pub closed spec fn pairs(&self) -> Seq<(Seq<char>, Seq<char>)> {
        pairs_of(self.entries@)
    }

    #[verifier::type_invariant]
    spec fn in_order(&self) -> bool {
        ascending(self.pairs())
    }

    /// A table with no names.
    pub fn new() -> (r: Self)
        ensures
            r@ == Map::<Seq<char>, Seq<char>>::empty(),
            r.pairs() == Seq::<(Seq<char>, Seq<char>)>::empty(),
    {
        let r = NameTable { entries: Vec::new() };
        assert(r.pairs() =~= Seq::empty());
        assert(r@ =~= Map::empty());
        r
    }

    /// How many names there are.
    pub fn len(&self) -> (r: usize)
        ensures
            r == self.pairs().len(),
            ascending(self.pairs()),
    {
        proof {
            use_type_invariant(self);
        }
        self.entries.len()
    }

    /// Whether there is no name at all.
    pub fn is_empty(&self) -> (r: bool)
        ensures
            r == (self.pairs().len() == 0),
    {
        self.entries.len() == 0
    }

    /// The key at a place in the order.
    pub fn key_at(&self, i: usize) -> (r: &str)
        requires
            i < self.pairs().len(),
        ensures
            r@ == self.pairs()[i as int].0,
    {
        self.entries[i].0.as_str()
    }

    /// The name at a place in the order.
    pub fn name_at(&self, i: usize) -> (r: &str)
        requires
            i < self.pairs().len(),
        ensures
            r@ == self.pairs()[i as int].1,
    {
        self.entries[i].1.as_str()
    }

    /// The place of a key in the order, or where it would go.
    fn seek(&self, key: &str) -> (r: (usize, bool))
        ensures
            r.0 <= self.pairs().len(),
            r.1 ==> r.0 < self.pairs().len() && self.pairs()[r.0 as int].0 == key@,
            r.1 <==> self@.dom().contains(key@),
            forall|i: int| 0 <= i < r.0 ==> precedes((#[trigger] self.pairs()[i]).0, key@),
            !r.1 ==> forall|i: int|
                r.0 <= i < self.pairs().len() ==> precedes(key@, (#[trigger] self.pairs()[i]).0),
    {
        proof {
            use_type_invariant(self);
        }
        let mut i: usize = 0;
        while i < self.entries.len() && before(self.entries[i].0.as_str(), key)
            invariant
                i <= self.entries@.len(),
                ascending(self.pairs()),
                forall|j: int| 0 <= j < i ==> precedes((#[trigger] self.pairs()[j]).0, key@),
            decreases self.entries@.len() - i,
        {
            i = i + 1;
        }
        let found: bool = i < self.entries.len() && same(self.entries[i].0.as_str(), key);
        proof {
            let pairs = self.pairs();
            if found {
                lemma_place(pairs, i as int);
            } else {
                assert forall|j: int| i <= j < pairs.len() implies precedes(
                    key@,
                    (#[trigger] pairs[j]).0,
                ) by {
                    precedes_is_an_order(key@, pairs[i as int].0, pairs[j].0);
                    if i < j {
                        assert(precedes(pairs[i as int].0, pairs[j].0));
                    }
                }
                if filed(pairs, key@) {
                    let p = place(pairs, key@);
                    precedes_is_an_order(key@, key@, key@);
                    assert(pairs[p].0 == key@);
                }
            }
        }
        (i, found)
    }

    /// The name under a key.
    pub fn get(&self, key: &str) -> (r: Option<&str>)
        ensures
            match r {
                Some(name) => self@.dom().contains(key@) && name@ == self@[key@],
                None => !self@.dom().contains(key@),
            },
    {
        let (i, found) = self.seek(key);
        if found {
            proof {
                use_type_invariant(self);
                lemma_place(self.pairs(), i as int);
            }
            Some(self.entries[i].1.as_str())
        } else {
            None
        }
    }

    /// Whether there is a name under a key.
    pub fn contains_key(&self, key: &str) -> (r: bool)
        ensures
            r == self@.dom().contains(key@),
    {
        let (_, found) = self.seek(key);
        found
    }

    /// Files a name under a key, in place of the one that was there.
    pub fn insert(&mut self, key: String, name: String)
        ensures
            final(self)@ == old(self)@.insert(key@, name@),
    {
        let (i, found) = self.seek(key.as_str());
        proof {
            use_type_invariant(&*self);
        }
        let ghost before = self.pairs();
        let ghost (k, v) = (key@, name@);
        let mut entries: Vec<(String, String)> = Vec::new();
        std::mem::swap(&mut entries, &mut self.entries);
        if found {
            let _ = entries.remove(i);
        }
        entries.insert(i, (key, name));
        proof {
            let after = pairs_of(entries@);
            if found {
                assert(after =~= before.update(i as int, (k, v)));
                lemma_update(before, i as int, v);
            } else {
                assert(after =~= before.insert(i as int, (k, v)));
                lemma_insert(before, i as int, k, v);
            }
        }
        self.entries = entries;
    }

    /// Takes the name under a key out.
    pub fn remove(&mut self, key: &str)
        ensures
            final(self)@ == old(self)@.remove(key@),
    {
        let (i, found) = self.seek(key);
        proof {
            use_type_invariant(&*self);
        }
        if found {
            let ghost before = self.pairs();
            let mut entries: Vec<(String, String)> = Vec::new();
            std::mem::swap(&mut entries, &mut self.entries);
            let _ = entries.remove(i);
            proof {
                let after = pairs_of(entries@);
                assert(after =~= before.remove(i as int));
                lemma_remove(before, i as int);
            }
            self.entries = entries;
        } else {
            assert(self@ =~= self@.remove(key@));
        }
    }

    /// A copy of the table.
    pub fn copy(&self) -> (r: Self)
        ensures
            r@ == self@,
            r.pairs() == self.pairs(),
    {
        proof {
            use_type_invariant(self);
        }
        let mut entries: Vec<(String, String)> = Vec::new();
        let mut i: usize = 0;
        while i < self.entries.len()
            invariant
                i <= self.entries@.len(),
                pairs_of(entries@) =~= self.pairs().take(i as int),
            decreases self.entries@.len() - i,
        {
            entries.push((self.entries[i].0.clone(), self.entries[i].1.clone()));
            proof {
                let pairs = self.pairs();
                assert(pairs.take(i + 1) =~= pairs.take(i as int).push(pairs[i as int]));
            }
            i = i + 1;
        }
        assert(pairs_of(entries@) =~= self.pairs());
        NameTable { entries }
    }
}

proof fn lemma_update(pairs: Seq<(Seq<char>, Seq<char>)>, i: int, name: Seq<char>)
    requires
        ascending(pairs),
        0 <= i < pairs.len(),
    ensures
        ascending(pairs.update(i, (pairs[i].0, name))),
        pairs_map(pairs.update(i, (pairs[i].0, name))) == pairs_map(pairs).insert(pairs[i].0, name),
{
    let key = pairs[i].0;
    let after = pairs.update(i, (key, name));
    assert forall|a: int, b: int| 0 <= a < b < after.len() implies precedes(
        (#[trigger] after[a]).0,
        (#[trigger] after[b]).0,
    ) by {
        assert(precedes(pairs[a].0, pairs[b].0));
    }
    let (m, n) = (pairs_map(after), pairs_map(pairs).insert(key, name));
    assert forall|k: Seq<char>|
        #![trigger m.dom().contains(k)]
        #![trigger m[k]]
        m.dom().contains(k) == n.dom().contains(k) && (m.dom().contains(k) ==> m[k] == n[k]) by {
        lemma_place(after, i);
        if filed(after, k) {
            let p = place(after, k);
            lemma_place(after, p);
            lemma_place(pairs, p);
        }
        if filed(pairs, k) {
            let p = place(pairs, k);
            lemma_place(after, p);
        }
    }
    assert(m =~= n);
}

proof fn lemma_insert(
    pairs: Seq<(Seq<char>, Seq<char>)>,
    i: int,
    key: Seq<char>,
    name: Seq<char>,
)
    requires
        ascending(pairs),
        0 <= i <= pairs.len(),
        forall|j: int| 0 <= j < i ==> precedes((#[trigger] pairs[j]).0, key),
        forall|j: int| i <= j < pairs.len() ==> precedes(key, (#[trigger] pairs[j]).0),
    ensures
        ascending(pairs.insert(i, (key, name))),
        pairs_map(pairs.insert(i, (key, name))) == pairs_map(pairs).insert(key, name),
{
    let after = pairs.insert(i, (key, name));
    assert forall|a: int, b: int| 0 <= a < b < after.len() implies precedes(
        (#[trigger] after[a]).0,
        (#[trigger] after[b]).0,
    ) by {
        let a1 = if a < i { a } else { a - 1 };
        let b1 = if b < i { b } else { b - 1 };
        if a == i {
            assert(precedes(key, pairs[b1].0));
        } else if b == i {
            assert(precedes(pairs[a1].0, key));
        } else {
            assert(precedes(pairs[a1].0, pairs[b1].0));
        }
    }
    let (m, n) = (pairs_map(after), pairs_map(pairs).insert(key, name));
    assert forall|k: Seq<char>|
        #![trigger m.dom().contains(k)]
        #![trigger m[k]]
        m.dom().contains(k) == n.dom().contains(k) && (m.dom().contains(k) ==> m[k] == n[k]) by {
        assert(after[i] == (key, name));
        lemma_place(after, i);
        if filed(after, k) {
            let p = place(after, k);
            lemma_place(after, p);
            if p < i {
                lemma_place(pairs, p);
            } else if p > i {
                assert(after[p] == pairs[p - 1]);
                lemma_place(pairs, p - 1);
            }
        }
        if filed(pairs, k) {
            let p = place(pairs, k);
            if p < i {
                assert(after[p] == pairs[p]);
                lemma_place(after, p);
            } else {
                assert(after[p + 1] == pairs[p]);
                lemma_place(after, p + 1);
            }
        }
    }
    assert(m =~= n);
}

proof fn lemma_remove(pairs: Seq<(Seq<char>, Seq<char>)>, i: int)
    requires
        ascending(pairs),
        0 <= i < pairs.len(),
    ensures
        ascending(pairs.remove(i)),
        pairs_map(pairs.remove(i)) == pairs_map(pairs).remove(pairs[i].0),
{
    let key = pairs[i].0;
    let after = pairs.remove(i);
    assert forall|a: int, b: int| 0 <= a < b < after.len() implies precedes(
        (#[trigger] after[a]).0,
        (#[trigger] after[b]).0,
    ) by {
        let a1 = if a < i { a } else { a + 1 };
        let b1 = if b < i { b } else { b + 1 };
        assert(precedes(pairs[a1].0, pairs[b1].0));
    }
    let (m, n) = (pairs_map(after), pairs_map(pairs).remove(key));
    assert forall|k: Seq<char>|
        #![trigger m.dom().contains(k)]
        #![trigger m[k]]
        m.dom().contains(k) == n.dom().contains(k) && (m.dom().contains(k) ==> m[k] == n[k]) by {
        lemma_place(pairs, i);
        if filed(after, k) {
            let p = place(after, k);
            lemma_place(after, p);
            let q = if p < i { p } else { p + 1 };
            assert(after[p] == pairs[q]);
            lemma_place(pairs, q);
        }
        if filed(pairs, k) && k != key {
            let p = place(pairs, k);
            let q = if p < i { p } else { p - 1 };
            assert(after[q] == pairs[p]);
            lemma_place(after, q);
        }
    }
    assert(m =~= n);
}

/// The walk and the map agree: each walked name is filed under its key, and a
/// key is filed when, and only when, the walk meets it.
pub proof fn walk_matches_map(pairs: Seq<(Seq<char>, Seq<char>)>)
    requires
        ascending(pairs),
    ensures
        forall|i: int|
            0 <= i < pairs.len() ==> pairs_map(pairs).dom().contains((#[trigger] pairs[i]).0)
                && pairs_map(pairs)[pairs[i].0] == pairs[i].1,
        forall|key: Seq<char>| #[trigger] pairs_map(pairs).dom().contains(key) <==> filed(pairs, key),
{
    assert forall|i: int| 0 <= i < pairs.len() implies pairs_map(pairs).dom().contains(
        (#[trigger] pairs[i]).0,
    ) && pairs_map(pairs)[pairs[i].0] == pairs[i].1 by {
        lemma_place(pairs, i);
    }
}

/// One map has one walk: two ascending walks that make the same map are equal.
pub proof fn one_walk_per_map(a: Seq<(Seq<char>, Seq<char>)>, b: Seq<(Seq<char>, Seq<char>)>)
    requires
        ascending(a),
        ascending(b),
        pairs_map(a) == pairs_map(b),
    ensures
        a == b,
    decreases a.len(),
{
    walk_matches_map(a);
    walk_matches_map(b);
    if a.len() == 0 {
        if b.len() > 0 {
            assert(pairs_map(a).dom().contains(b[0].0));
        }
        assert(a =~= b);
    } else {
        assert(pairs_map(b).dom().contains(a[0].0));
        assert(filed(b, a[0].0));
        assert(pairs_map(a).dom().contains(b[0].0));
        assert(filed(a, b[0].0));
        let (p, q) = (place(b, a[0].0), place(a, b[0].0));
        precedes_is_an_order(a[0].0, b[0].0, a[0].0);
        if a[0].0 != b[0].0 {
            assert(p > 0 && q > 0);
            assert(precedes(b[0].0, b[p].0));
            assert(precedes(a[0].0, a[q].0));
        }
        lemma_place(a, 0);
        lemma_place(b, 0);
        assert(a[0] == b[0]);
        lemma_remove(a, 0);
        lemma_remove(b, 0);
        one_walk_per_map(a.remove(0), b.remove(0));
        assert(a =~= seq![a[0]] + a.remove(0));
        assert(b =~= seq![b[0]] + b.remove(0));
    }
}

} // verus!
