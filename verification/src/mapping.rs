//! A generic key-value mapping: the loosely-typed shape in which raw
//! bank-aggregator records arrive and in which transactions cross the host
//! boundary. Keys map to scalar values or to one nested sub-mapping.

use vstd::prelude::*;
use crate::decimal::Decimal;
use crate::currency::CurrencyCode;
use crate::text::str_eq;

verus! {

/// A leaf value of a sub-mapping.
pub enum Scalar {
    Null,
    Str(String),
    Int(i64),
    Dec(Decimal),
    Cur(CurrencyCode),
}

/// View of a scalar: strings as their character sequences.
pub enum ScalarV {
    Null,
    Str(Seq<char>),
    Int(i64),
    Dec(Decimal),
    Cur(CurrencyCode),
}

impl View for Scalar {
    type V = ScalarV;

    open spec fn view(&self) -> ScalarV {
        match self {
            Scalar::Null => ScalarV::Null,
            Scalar::Str(s) => ScalarV::Str(s@),
            Scalar::Int(i) => ScalarV::Int(*i),
            Scalar::Dec(d) => ScalarV::Dec(*d),
            Scalar::Cur(c) => ScalarV::Cur(*c),
        }
    }
}

pub struct SubEntry {
    pub key: String,
    pub value: Scalar,
}

/// A nested mapping, one level deep: field names to scalars.
pub struct SubMapping {
    pub entries: Vec<SubEntry>,
}

impl View for SubMapping {
    type V = Seq<(Seq<char>, ScalarV)>;

    open spec fn view(&self) -> Seq<(Seq<char>, ScalarV)> {
        self.entries@.map_values(|e: SubEntry| (e.key@, e.value@))
    }
}

/// A top-level value: a scalar or one nested sub-mapping.
pub enum Value {
    Null,
    Str(String),
    Int(i64),
    Dec(Decimal),
    Sub(SubMapping),
}

pub enum ValueV {
    Null,
    Str(Seq<char>),
    Int(i64),
    Dec(Decimal),
    Sub(Seq<(Seq<char>, ScalarV)>),
}

impl View for Value {
    type V = ValueV;

    open spec fn view(&self) -> ValueV {
        match self {
            Value::Null => ValueV::Null,
            Value::Str(s) => ValueV::Str(s@),
            Value::Int(i) => ValueV::Int(*i),
            Value::Dec(d) => ValueV::Dec(*d),
            Value::Sub(m) => ValueV::Sub(m@),
        }
    }
}

pub struct MapEntry {
    pub key: String,
    pub value: Value,
}

/// A top-level mapping: field names to values.
pub struct Mapping {
    pub entries: Vec<MapEntry>,
}

impl View for Mapping {
    type V = Seq<(Seq<char>, ValueV)>;

    open spec fn view(&self) -> Seq<(Seq<char>, ValueV)> {
        self.entries@.map_values(|e: MapEntry| (e.key@, e.value@))
    }
}

/// The value under the first entry whose key is `k`, if any.
pub open spec fn lookup<V>(s: Seq<(Seq<char>, V)>, k: Seq<char>) -> Option<V>
    decreases s.len(),
{
    if s.len() == 0 {
        None
    } else if s[0].0 == k {
        Some(s[0].1)
    } else {
        lookup(s.drop_first(), k)
    }
}

/// Skipping entries whose key is not `k` leaves the lookup unchanged.
proof fn lemma_lookup_skip<V>(s: Seq<(Seq<char>, V)>, k: Seq<char>, i: int)
    requires
        0 <= i <= s.len(),
        forall|j: int| 0 <= j < i ==> s[j].0 != k,
    ensures
        lookup(s, k) == lookup(s.skip(i), k),
    decreases i,
{
    if i == 0 {
        assert(s.skip(0) =~= s);
    } else {
        lemma_lookup_skip(s, k, i - 1);
        assert(s.skip(i - 1).len() > 0);
        assert(s.skip(i - 1)[0] == s[i - 1]);
        assert(s.skip(i - 1).drop_first() =~= s.skip(i));
    }
}

/// The lookup result when `k` first occurs at index `i`.
pub proof fn lemma_lookup_at<V>(s: Seq<(Seq<char>, V)>, k: Seq<char>, i: int)
    requires
        0 <= i < s.len(),
        s[i].0 == k,
        forall|j: int| 0 <= j < i ==> s[j].0 != k,
    ensures
        lookup(s, k) == Some(s[i].1),
{
    lemma_lookup_skip(s, k, i);
    assert(s.skip(i)[0] == s[i]);
}

/// The lookup result when `k` occurs nowhere.
pub proof fn lemma_lookup_none<V>(s: Seq<(Seq<char>, V)>, k: Seq<char>)
    requires
        forall|j: int| 0 <= j < s.len() ==> s[j].0 != k,
    ensures
        lookup(s, k) is None,
{
    lemma_lookup_skip(s, k, s.len() as int);
    assert(s.skip(s.len() as int).len() == 0);
}

impl Mapping {
    /// Linear scan for the first entry named `key`.
    pub fn get(&self, key: &str) -> (r: Option<&Value>)
        ensures
            match r {
                Some(v) => lookup(self@, key@) == Some(v@),
                None => lookup(self@, key@) is None,
            },
    {
        let n: usize = self.entries.len();
        let mut i: usize = 0;
        while i < n
            invariant
                n == self.entries.len(),
                i <= n,
                self@.len() == n,
                forall|j: int| 0 <= j < i ==> self@[j].0 != key@,
            decreases n - i,
        {
            let e: &MapEntry = &self.entries[i];
            if str_eq(e.key.as_str(), key) {
                proof {
                    lemma_lookup_at(self@, key@, i as int);
                }
                return Some(&e.value);
            }
            i += 1;
        }
        proof {
            lemma_lookup_none(self@, key@);
        }
        None
    }
}

impl SubMapping {
    /// Linear scan for the first entry named `key`.
    pub fn get(&self, key: &str) -> (r: Option<&Scalar>)
        ensures
            match r {
                Some(v) => lookup(self@, key@) == Some(v@),
                None => lookup(self@, key@) is None,
            },
    {
        let n: usize = self.entries.len();
        let mut i: usize = 0;
        while i < n
            invariant
                n == self.entries.len(),
                i <= n,
                self@.len() == n,
                forall|j: int| 0 <= j < i ==> self@[j].0 != key@,
            decreases n - i,
        {
            let e: &SubEntry = &self.entries[i];
            if str_eq(e.key.as_str(), key) {
                proof {
                    lemma_lookup_at(self@, key@, i as int);
                }
                return Some(&e.value);
            }
            i += 1;
        }
        proof {
            lemma_lookup_none(self@, key@);
        }
        None
    }
}

} // verus!
