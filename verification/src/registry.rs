//! Creating indicators by name: the string parameter map every factory reads,
//! and a case-insensitive table from indicator names to factories.

use std::collections::HashMap;

use vstd::prelude::*;

use crate::error::IndicatorError;
use crate::text::{decimal, lemma_decimal_round_trip, lower_seq, parse_usize, to_ascii_lowercase, usize_literal};

verus! {

// ── Parameter maps ────────────────────────────────────────────────────────────

/// What a parameter map holds: each key's text to its value's text.
pub uninterp spec fn param_entries(m: HashMap<String, String>) -> Map<Seq<char>, Seq<char>>;

/// The text stored under `key`, if any.
pub open spec fn param_text(m: HashMap<String, String>, key: Seq<char>) -> Option<Seq<char>> {
    if param_entries(m).dom().contains(key) {
        Some(param_entries(m)[key])
    } else {
        None
    }
}

/// `HashMap::get`: the value stored under a key equal to `key`, if one is
/// stored. The contract says that the result is present exactly when the
/// map holds an entry whose key has the characters of `key`, and is then that
/// entry's value.
#[verifier::external_body]
fn lookup<'a>(params: &'a HashMap<String, String>, key: &str) -> (r: Option<&'a String>)
    ensures
        r is Some <==> param_entries(*params).dom().contains(key@),
        r matches Some(v) ==> v@ == param_entries(*params)[key@],
{
    params.get(key)
}

/// Whether the map holds a value for `key`.
pub fn param_present(params: &HashMap<String, String>, key: &str) -> (r: bool)
    ensures
        r == param_entries(*params).dom().contains(key@),
{
    lookup(params, key).is_some()
}

/// The parameter `key` is absent or holds a `usize` literal.
pub open spec fn usize_param_ok(m: HashMap<String, String>, key: Seq<char>) -> bool {
    match param_text(m, key) {
        None => true,
        Some(text) => usize_literal(text) is Some,
    }
}

/// The value an unsigned parameter reads as: the default when absent, the
/// literal's value otherwise.
pub open spec fn usize_param_value(m: HashMap<String, String>, key: Seq<char>, default: usize) -> usize {
    match param_text(m, key) {
        None => default,
        Some(text) => match usize_literal(text) {
            Some(v) => v,
            None => default,
        },
    }
}

/// `e` reports that parameter `key` holds text that is not a valid value.
pub open spec fn invalid_param_error(m: HashMap<String, String>, key: Seq<char>, e: IndicatorError) -> bool {
    match e {
        IndicatorError::InvalidParameter { name, value } => name@ == key && param_text(m, key)
            == Some(value@),
        _ => false,
    }
}

/// The text parameter `key`, or `default` when absent.
pub open spec fn text_param_value(m: HashMap<String, String>, key: Seq<char>, default: Seq<char>) -> Seq<char> {
    match param_text(m, key) {
        Some(text) => text,
        None => default,
    }
}

/// Reads a `usize` parameter with a default fallback: the default when the
/// key is absent, the parsed value when its text is a `usize` literal, and
/// otherwise an `InvalidParameter` error naming the key and carrying the text.
pub fn param_usize(params: &HashMap<String, String>, key: &str, default: usize) -> (r: Result<
    usize,
    IndicatorError,
>)
    ensures
        r is Ok <==> usize_param_ok(*params, key@),
        r matches Ok(v) ==> v == usize_param_value(*params, key@, default),
        r matches Err(e) ==> invalid_param_error(*params, key@, e),
{
    match lookup(params, key) {
        None => Ok(default),
        Some(s) => match parse_usize(s.as_str()) {
            Some(v) => Ok(v),
            None => Err(
                IndicatorError::InvalidParameter { name: String::from_str(key), value: s.clone() },
            ),
        },
    }
}

/// Reads a text parameter with a default fallback.
pub fn param_str<'a>(params: &'a HashMap<String, String>, key: &str, default: &'a str) -> (r:
    &'a str)
    ensures
        r@ == text_param_value(*params, key@, default@),
{
    match lookup(params, key) {
        Some(s) => s.as_str(),
        None => default,
    }
}

// ── Name table ────────────────────────────────────────────────────────────────

/// Whether every character of `s` is already lower-case ASCII-wise.
pub open spec fn is_lowered(s: Seq<char>) -> bool {
    lower_seq(s) == s
}

/// A table from indicator names to factories. Names are compared without
/// regard to ASCII case: each is stored lower-cased.
pub struct Registry<F> {
    entries: Vec<(String, F)>,
}

impl<F> Registry<F> {
    /// The table as a map from lower-cased name to factory.
    pub closed spec fn view(&self) -> Map<Seq<char>, F> {
        view_of(self.entries@)
    }

    #[verifier::type_invariant]
    closed spec fn well_formed(&self) -> bool {
        entries_ok(self.entries@)
    }

    /// An empty table.
    pub fn new() -> (r: Self)
        ensures
            r.view() == Map::<Seq<char>, F>::empty(),
    {
        let r = Registry { entries: Vec::new() };
        assert(r.view() =~= Map::<Seq<char>, F>::empty());
        r
    }

    /// Registers `factory` under `name` (lower-cased), replacing any factory
    /// already registered under the same lower-cased name.
    pub fn register(&mut self, name: &str, factory: F)
        ensures
            final(self).view() == old(self).view().insert(lower_seq(name@), factory),
    {
        let key = to_ascii_lowercase(name);
        proof {
            use_type_invariant(&*self);
            assert(lower_seq(lower_seq(name@)) =~= lower_seq(name@));
        }
        let ghost old_entries = self.entries@;
        let mut entries: Vec<(String, F)> = Vec::new();
        std::mem::swap(&mut entries, &mut self.entries);
        match position_in(&entries, &key) {
            Some(i) => {
                entries.set(i, (key, factory));
                proof {
                    lemma_view_update(old_entries, i as int, lower_seq(name@), factory);
                }
            },
            None => {
                entries.push((key, factory));
                proof {
                    lemma_view_push(old_entries, lower_seq(name@), factory);
                }
            },
        }
        *self = Registry { entries };
    }
}

impl<F: Copy> Registry<F> {
    /// The factory registered under `name`, compared without regard to ASCII
    /// case.
    pub fn get(&self, name: &str) -> (r: Option<F>)
        ensures
            r == (if self.view().dom().contains(lower_seq(name@)) {
                Some(self.view()[lower_seq(name@)])
            } else {
                None::<F>
            }),
    {
        proof {
            use_type_invariant(self);
        }
        let key = to_ascii_lowercase(name);
        match position_in(&self.entries, &key) {
            Some(i) => {
                proof {
                    lemma_view_at(self.entries@, i as int);
                }
                Some(self.entries[i].1)
            },
            None => None,
        }
    }

    /// Whether a factory is registered under `name`.
    pub fn contains(&self, name: &str) -> (r: bool)
        ensures
            r == self.view().dom().contains(lower_seq(name@)),
    {
        self.get(name).is_some()
    }

    /// The factory for `name`, or `UnknownIndicator` carrying `name` as given.
    pub fn factory_for(&self, name: &str) -> (r: Result<F, IndicatorError>)
        ensures
            self.view().dom().contains(lower_seq(name@)) ==> r == Ok::<F, IndicatorError>(
                self.view()[lower_seq(name@)],
            ),
            !self.view().dom().contains(lower_seq(name@)) ==> (match r {
                Err(IndicatorError::UnknownIndicator { name: n }) => n@ == name@,
                _ => false,
            }),
    {
        match self.get(name) {
            Some(f) => Ok(f),
            None => Err(IndicatorError::UnknownIndicator { name: String::from_str(name) }),
        }
    }
}

impl<F> Registry<F> {
    /// Every registered name, each once.
    pub fn list(&self) -> (r: Vec<String>)
        ensures
            r@.len() == self.view().dom().len(),
            forall|i: int| 0 <= i < r@.len() ==> self.view().dom().contains(#[trigger] r@[i]@),
            forall|k: Seq<char>| #[trigger]
                self.view().dom().contains(k) ==> exists|i: int| 0 <= i < r@.len() && r@[i]@ == k,
            forall|i: int, j: int| 0 <= i < j < r@.len() ==> #[trigger] r@[i]@ != #[trigger] r@[j]@,
    {
        proof {
            use_type_invariant(self);
        }
        let mut r: Vec<String> = Vec::new();
        let mut i: usize = 0;
        while i < self.entries.len()
            invariant
                entries_ok(self.entries@),
                i <= self.entries@.len(),
                r@.len() == i,
                forall|j: int| 0 <= j < i ==> #[trigger] r@[j]@ == self.entries@[j].0@,
            decreases self.entries.len() - i,
        {
            r.push(self.entries[i].0.clone());
            i += 1;
        }
        proof {
            lemma_view_len(self.entries@);
            assert forall|j: int| 0 <= j < r@.len() implies self.view().dom().contains(
                #[trigger] r@[j]@,
            ) by {
                lemma_view_at(self.entries@, j);
            }
            assert forall|k: Seq<char>| #[trigger] self.view().dom().contains(k) implies exists|
                i: int,
            | 0 <= i < r@.len() && r@[i]@ == k by {
                let j = choose|j: int| 0 <= j < self.entries@.len() && self.entries@[j].0@ == k;
                assert(r@[j]@ == k);
            }
            assert forall|a: int, b: int| 0 <= a < b < r@.len() implies #[trigger] r@[a]@
                != #[trigger] r@[b]@ by {
                assert(self.entries@[a].0@ != self.entries@[b].0@);
            }
        }
        r
    }

    /// The number of registered names.
    pub fn len(&self) -> (r: usize)
        ensures
            r == self.view().dom().len(),
    {
        proof {
            use_type_invariant(self);
            lemma_view_len(self.entries@);
        }
        self.entries.len()
    }
}

proof fn lemma_view_len<F>(entries: Seq<(String, F)>)
    requires
        entries_ok(entries),
    ensures
        view_of(entries).dom().finite(),
        view_of(entries).dom().len() == entries.len(),
    decreases entries.len(),
{
    if entries.len() == 0 {
        assert(view_of(entries).dom() =~= Set::<Seq<char>>::empty());
    } else {
        let prev = entries.drop_last();
        assert(entries_ok(prev));
        lemma_view_len(prev);
        let k = entries.last().0@;
        assert forall|i: int| 0 <= i < prev.len() implies prev[i].0@ != k by {
            assert(entries[i].0@ != entries[entries.len() - 1].0@);
        }
        assert(entries =~= prev.push(entries.last()));
        lemma_view_push(prev, k, entries.last().1);
        assert(view_of(entries).dom() =~= view_of(prev).dom().insert(k));
        assert(!view_of(prev).dom().contains(k));
    }
}

/// Stored names are lower-cased and pairwise distinct.
pub open spec fn entries_ok<F>(entries: Seq<(String, F)>) -> bool {
    &&& forall|i: int| 0 <= i < entries.len() ==> is_lowered(#[trigger] entries[i].0@)
    &&& forall|i: int, j: int|
        0 <= i < j < entries.len() ==> #[trigger] entries[i].0@ != #[trigger] entries[j].0@
}

/// The map that a list of (name, factory) entries denotes.
pub open spec fn view_of<F>(entries: Seq<(String, F)>) -> Map<Seq<char>, F> {
    Map::new(
        |k: Seq<char>| exists|i: int| 0 <= i < entries.len() && entries[i].0@ == k,
        |k: Seq<char>| entries[choose|i: int| 0 <= i < entries.len() && entries[i].0@ == k].1,
    )
}

proof fn lemma_view_at<F>(entries: Seq<(String, F)>, i: int)
    requires
        entries_ok(entries),
        0 <= i < entries.len(),
    ensures
        view_of(entries).dom().contains(entries[i].0@),
        view_of(entries)[entries[i].0@] == entries[i].1,
{
    let k = entries[i].0@;
    assert(exists|j: int| 0 <= j < entries.len() && entries[j].0@ == k);
    let j = choose|j: int| 0 <= j < entries.len() && entries[j].0@ == k;
    if j < i {
        assert(entries[j].0@ != entries[i].0@);
    } else if i < j {
        assert(entries[i].0@ != entries[j].0@);
    }
}

proof fn lemma_view_update<F>(entries: Seq<(String, F)>, i: int, k: Seq<char>, f: F)
    requires
        entries_ok(entries),
        0 <= i < entries.len(),
        entries[i].0@ == k,
    ensures
        forall|e: (String, F)| e.0@ == k ==> #[trigger] view_of(entries.update(i, e)) =~= view_of(
            entries,
        ).insert(k, e.1),
        forall|e: (String, F)| e.0@ == k ==> entries_ok(#[trigger] entries.update(i, e)),
{
    assert forall|e: (String, F)| e.0@ == k implies #[trigger] view_of(entries.update(i, e))
        =~= view_of(entries).insert(k, e.1) by {
        let ne = entries.update(i, e);
        assert(entries_ok(ne));
        let nv = view_of(ne);
        let ov = view_of(entries).insert(k, e.1);
        assert forall|q: Seq<char>| nv.dom().contains(q) <==> ov.dom().contains(q) by {
            if nv.dom().contains(q) {
                let j = choose|j: int| 0 <= j < ne.len() && ne[j].0@ == q;
                if q != k {
                    lemma_view_at(entries, j);
                }
            }
            if ov.dom().contains(q) {
                if q == k {
                    lemma_view_at(ne, i);
                } else {
                    let j = choose|j: int| 0 <= j < entries.len() && entries[j].0@ == q;
                    lemma_view_at(ne, j);
                }
            }
        }
        assert forall|q: Seq<char>| nv.dom().contains(q) implies nv[q] == ov[q] by {
            let j = choose|j: int| 0 <= j < ne.len() && ne[j].0@ == q;
            lemma_view_at(ne, j);
            if q != k {
                lemma_view_at(entries, j);
            }
        }
    }
}

proof fn lemma_view_push<F>(entries: Seq<(String, F)>, k: Seq<char>, f: F)
    requires
        entries_ok(entries),
        is_lowered(k),
        forall|i: int| 0 <= i < entries.len() ==> entries[i].0@ != k,
    ensures
        forall|e: (String, F)| e.0@ == k ==> #[trigger] view_of(entries.push(e)) =~= view_of(
            entries,
        ).insert(k, e.1),
        forall|e: (String, F)| e.0@ == k ==> entries_ok(#[trigger] entries.push(e)),
{
    assert forall|e: (String, F)| e.0@ == k implies #[trigger] view_of(entries.push(e))
        =~= view_of(entries).insert(k, e.1) by {
        let ne = entries.push(e);
        assert(entries_ok(ne));
        let nv = view_of(ne);
        let ov = view_of(entries).insert(k, e.1);
        assert forall|q: Seq<char>| nv.dom().contains(q) <==> ov.dom().contains(q) by {
            if nv.dom().contains(q) {
                let j = choose|j: int| 0 <= j < ne.len() && ne[j].0@ == q;
                if q != k {
                    lemma_view_at(entries, j);
                }
            }
            if ov.dom().contains(q) {
                if q == k {
                    lemma_view_at(ne, entries.len() as int);
                } else {
                    let j = choose|j: int| 0 <= j < entries.len() && entries[j].0@ == q;
                    lemma_view_at(ne, j);
                }
            }
        }
        assert forall|q: Seq<char>| nv.dom().contains(q) implies nv[q] == ov[q] by {
            let j = choose|j: int| 0 <= j < ne.len() && ne[j].0@ == q;
            lemma_view_at(ne, j);
            if q != k {
                lemma_view_at(entries, j);
            }
        }
    }
}

/// The index of the entry stored under `key`.
fn position_in<F>(entries: &Vec<(String, F)>, key: &String) -> (r: Option<usize>)
    ensures
        match r {
            Some(i) => i < entries@.len() && entries@[i as int].0@ == key@,
            None => forall|i: int| 0 <= i < entries@.len() ==> entries@[i].0@ != key@,
        },
{
    let mut i: usize = 0;
    while i < entries.len()
        invariant
            i <= entries@.len(),
            forall|j: int| 0 <= j < i ==> entries@[j].0@ != key@,
        decreases entries.len() - i,
    {
        if entries[i].0 == *key {
            return Some(i);
        }
        i += 1;
    }
    None
}

/// A parameter whose text is the decimal rendering of `n` reads as `n`,
/// whatever the default.
pub proof fn lemma_param_reads_back(m: HashMap<String, String>, key: Seq<char>, n: usize, default: usize)
    requires
        param_text(m, key) == Some(decimal(n as nat)),
    ensures
        usize_param_ok(m, key),
        usize_param_value(m, key, default) == n,
{
    lemma_decimal_round_trip(n);
}

/// An absent parameter reads as its default.
pub proof fn lemma_absent_param_is_default(m: HashMap<String, String>, key: Seq<char>, default: usize)
    requires
        !param_entries(m).dom().contains(key),
    ensures
        usize_param_ok(m, key),
        usize_param_value(m, key, default) == default,
{
}

/// Lower-casing is idempotent, so a stored name is its own key.
pub proof fn lemma_lower_idempotent(s: Seq<char>)
    ensures
        lower_seq(lower_seq(s)) == lower_seq(s),
{
    assert(lower_seq(lower_seq(s)) =~= lower_seq(s));
}

/// Read after write: once `f` is registered under `name`, every name with
/// the same ASCII lower-casing finds `f`, and every other name finds what it
/// found before.
pub proof fn lemma_register_then_lookup<F>(
    before: Map<Seq<char>, F>,
    name: Seq<char>,
    f: F,
    probe: Seq<char>,
)
    ensures
        lower_seq(probe) == lower_seq(name) ==> before.insert(lower_seq(name), f).dom().contains(
            lower_seq(probe),
        ) && before.insert(lower_seq(name), f)[lower_seq(probe)] == f,
        lower_seq(probe) != lower_seq(name) ==> (before.insert(lower_seq(name), f).dom().contains(
            lower_seq(probe),
        ) == before.dom().contains(lower_seq(probe))),
        lower_seq(probe) != lower_seq(name) && before.dom().contains(lower_seq(probe)) ==> before.insert(
            lower_seq(name),
            f,
        )[lower_seq(probe)] == before[lower_seq(probe)],
{
}

} // verus!
