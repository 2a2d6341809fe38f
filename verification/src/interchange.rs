//! The interchange contract: bidirectional conversion between a
//! `Transaction` and a generic key-value mapping, for crossing the host
//! boundary. `to_dict` is total; `from_dict` names the first missing or
//! mistyped key; the two compose to the identity on well-formed values.

use vstd::prelude::*;
use crate::text::str_eq;
use crate::mapping::lookup;
use crate::mapping::lemma_lookup_at;
use crate::mapping::Mapping;
use crate::mapping::MapEntry;
use crate::mapping::SubMapping;
use crate::mapping::SubEntry;
use crate::mapping::Value;
use crate::mapping::ValueV;
use crate::mapping::Scalar;
use crate::mapping::ScalarV;
use crate::model::Transaction;
use crate::model::TransactionView;
use crate::model::TransactionAmount;
use crate::model::CurrencyConversion;
use crate::model::TransactionType;
use crate::model::TransactionTags;
use crate::model::FieldError;

verus! {

pub open spec fn amount_entries(a: TransactionAmount) -> Seq<(Seq<char>, ScalarV)> {
    seq![("amount"@, ScalarV::Dec(a.amount)), ("currency"@, ScalarV::Cur(a.currency))]
}

pub open spec fn conversion_entries(c: CurrencyConversion) -> Seq<(Seq<char>, ScalarV)> {
    seq![
        ("from_currency"@, ScalarV::Cur(c.from_currency)),
        ("to_currency"@, ScalarV::Cur(c.to_currency)),
        ("rate"@, ScalarV::Dec(c.rate)),
    ]
}

pub open spec fn tags_entries(g: TransactionTags) -> Seq<(Seq<char>, ScalarV)> {
    match g.transaction_type {
        None => seq![("transaction_type"@, ScalarV::Null)],
        Some(TransactionType::OneOff) => seq![("transaction_type"@, ScalarV::Str("OneOff"@))],
        Some(TransactionType::Periodic { from_date, to_date }) => seq![
            ("transaction_type"@, ScalarV::Str("Periodic"@)),
            ("from_date"@, ScalarV::Int(from_date)),
            ("to_date"@, ScalarV::Int(to_date)),
        ],
    }
}

/// The mapping form of a transaction: one entry per field, in field order,
/// optionals explicit (`Null`, never omitted).
pub open spec fn spec_to_dict(t: TransactionView) -> Seq<(Seq<char>, ValueV)> {
    seq![
        ("id"@, ValueV::Str(t.id)),
        ("bank"@, ValueV::Str(t.bank)),
        ("account_id"@, ValueV::Str(t.account_id)),
        ("transaction_datetime"@, ValueV::Int(t.transaction_datetime)),
        ("transaction_amount"@, ValueV::Sub(amount_entries(t.transaction_amount))),
        (
            "currency_conversion"@,
            match t.currency_conversion {
                Some(c) => ValueV::Sub(conversion_entries(c)),
                None => ValueV::Null,
            },
        ),
        ("short_name"@, ValueV::Str(t.short_name)),
        ("tags"@, ValueV::Sub(tags_entries(t.tags))),
    ]
}

pub open spec fn str_field(m: Seq<(Seq<char>, ValueV)>, k: Seq<char>) -> Option<Seq<char>> {
    match lookup(m, k) {
        Some(ValueV::Str(s)) => Some(s),
        _ => None,
    }
}

pub open spec fn int_field(m: Seq<(Seq<char>, ValueV)>, k: Seq<char>) -> Option<i64> {
    match lookup(m, k) {
        Some(ValueV::Int(i)) => Some(i),
        _ => None,
    }
}

pub open spec fn spec_amount_from(m: Seq<(Seq<char>, ValueV)>) -> Option<TransactionAmount> {
    match lookup(m, "transaction_amount"@) {
        Some(ValueV::Sub(sm)) => match (lookup(sm, "amount"@), lookup(sm, "currency"@)) {
            (Some(ScalarV::Dec(d)), Some(ScalarV::Cur(c))) => if c.valid() {
                Some(TransactionAmount { amount: d, currency: c })
            } else {
                None
            },
            _ => None,
        },
        _ => None,
    }
}

pub open spec fn spec_conversion_from(m: Seq<(Seq<char>, ValueV)>) -> Option<
    Option<CurrencyConversion>,
> {
    match lookup(m, "currency_conversion"@) {
        Some(ValueV::Null) => Some(None),
        Some(ValueV::Sub(sm)) => match (
            lookup(sm, "from_currency"@),
            lookup(sm, "to_currency"@),
            lookup(sm, "rate"@),
        ) {
            (Some(ScalarV::Cur(f)), Some(ScalarV::Cur(tc)), Some(ScalarV::Dec(r))) => if f.valid()
                && tc.valid() && r.is_positive() {
                Some(Some(CurrencyConversion { from_currency: f, to_currency: tc, rate: r }))
            } else {
                None
            },
            _ => None,
        },
        _ => None,
    }
}

pub open spec fn spec_tags_from(m: Seq<(Seq<char>, ValueV)>) -> Option<TransactionTags> {
    match lookup(m, "tags"@) {
        Some(ValueV::Sub(sm)) => match lookup(sm, "transaction_type"@) {
            Some(ScalarV::Null) => Some(TransactionTags { transaction_type: None }),
            Some(ScalarV::Str(s)) => if s == "OneOff"@ {
                Some(TransactionTags { transaction_type: Some(TransactionType::OneOff) })
            } else if s == "Periodic"@ {
                match (lookup(sm, "from_date"@), lookup(sm, "to_date"@)) {
                    (Some(ScalarV::Int(f)), Some(ScalarV::Int(t))) => if f <= t {
                        Some(
                            TransactionTags {
                                transaction_type: Some(
                                    TransactionType::Periodic { from_date: f, to_date: t },
                                ),
                            },
                        )
                    } else {
                        None
                    },
                    _ => None,
                }
            } else {
                None
            },
            _ => None,
        },
        _ => None,
    }
}

/// The inverse reading of a mapping: every required key present and of the
/// expected shape, checked in field order; otherwise the first offending
/// field name.
pub open spec fn spec_from_dict(m: Seq<(Seq<char>, ValueV)>) -> Result<TransactionView, Seq<char>> {
    match str_field(m, "id"@) {
        None => Err("id"@),
        Some(id) => match str_field(m, "bank"@) {
            None => Err("bank"@),
            Some(bank) => match str_field(m, "account_id"@) {
                None => Err("account_id"@),
                Some(account_id) => match int_field(m, "transaction_datetime"@) {
                    None => Err("transaction_datetime"@),
                    Some(ts) => match spec_amount_from(m) {
                        None => Err("transaction_amount"@),
                        Some(amount) => match spec_conversion_from(m) {
                            None => Err("currency_conversion"@),
                            Some(conversion) => match str_field(m, "short_name"@) {
                                None => Err("short_name"@),
                                Some(short_name) => match spec_tags_from(m) {
                                    None => Err("tags"@),
                                    Some(tags) => Ok(
                                        TransactionView {
                                            id,
                                            bank,
                                            account_id,
                                            transaction_datetime: ts,
                                            transaction_amount: amount,
                                            currency_conversion: conversion,
                                            short_name,
                                            tags,
                                        },
                                    ),
                                },
                            },
                        },
                    },
                },
            },
        },
    }
}

impl Transaction {
    /// Convert to a generic key-value mapping: one entry per field, nested
    /// values converted the same way; total over all transaction values.
    pub fn to_dict(&self) -> (r: Mapping)
        ensures
            r@ == spec_to_dict(self@),
    {
        let mut am: Vec<SubEntry> = Vec::new();
        am.push(SubEntry { key: "amount".to_owned(), value: Scalar::Dec(self.transaction_amount.amount) });
        am.push(
            SubEntry { key: "currency".to_owned(), value: Scalar::Cur(self.transaction_amount.currency) },
        );
        let amount_sub = SubMapping { entries: am };
        proof {
            assert(amount_sub@ =~= amount_entries(self@.transaction_amount));
        }
        let conversion_value: Value = match self.currency_conversion {
            Some(c) => {
                let mut cv: Vec<SubEntry> = Vec::new();
                cv.push(SubEntry { key: "from_currency".to_owned(), value: Scalar::Cur(c.from_currency) });
                cv.push(SubEntry { key: "to_currency".to_owned(), value: Scalar::Cur(c.to_currency) });
                cv.push(SubEntry { key: "rate".to_owned(), value: Scalar::Dec(c.rate) });
                let sub = SubMapping { entries: cv };
                proof {
                    assert(sub@ =~= conversion_entries(c));
                }
                Value::Sub(sub)
            },
            None => Value::Null,
        };
        let mut tg: Vec<SubEntry> = Vec::new();
        match self.tags.transaction_type {
            None => {
                tg.push(SubEntry { key: "transaction_type".to_owned(), value: Scalar::Null });
            },
            Some(TransactionType::OneOff) => {
                tg.push(
                    SubEntry {
                        key: "transaction_type".to_owned(),
                        value: Scalar::Str("OneOff".to_owned()),
                    },
                );
            },
            Some(TransactionType::Periodic { from_date, to_date }) => {
                tg.push(
                    SubEntry {
                        key: "transaction_type".to_owned(),
                        value: Scalar::Str("Periodic".to_owned()),
                    },
                );
                tg.push(SubEntry { key: "from_date".to_owned(), value: Scalar::Int(from_date) });
                tg.push(SubEntry { key: "to_date".to_owned(), value: Scalar::Int(to_date) });
            },
        }
        let tags_sub = SubMapping { entries: tg };
        proof {
            assert(tags_sub@ =~= tags_entries(self@.tags));
        }
        let mut es: Vec<MapEntry> = Vec::new();
        es.push(MapEntry { key: "id".to_owned(), value: Value::Str(self.id.clone()) });
        es.push(MapEntry { key: "bank".to_owned(), value: Value::Str(self.bank.clone()) });
        es.push(MapEntry { key: "account_id".to_owned(), value: Value::Str(self.account_id.clone()) });
        es.push(
            MapEntry {
                key: "transaction_datetime".to_owned(),
                value: Value::Int(self.transaction_datetime),
            },
        );
        es.push(MapEntry { key: "transaction_amount".to_owned(), value: Value::Sub(amount_sub) });
        es.push(MapEntry { key: "currency_conversion".to_owned(), value: conversion_value });
        es.push(MapEntry { key: "short_name".to_owned(), value: Value::Str(self.short_name.clone()) });
        es.push(MapEntry { key: "tags".to_owned(), value: Value::Sub(tags_sub) });
        let r = Mapping { entries: es };
        proof {
            assert(r@ =~= spec_to_dict(self@));
        }
        r
    }

    /// Read a transaction back from its mapping form; fails with the first
    /// missing or mistyped field, in field order.
    pub fn from_dict(dict: &Mapping) -> (r: Result<Transaction, FieldError>)
        ensures
            match r {
                Ok(t) => spec_from_dict(dict@) == Ok::<TransactionView, Seq<char>>(t@) && t@.wf(),
                Err(e) => spec_from_dict(dict@) == Err::<TransactionView, Seq<char>>(e.field@),
            },
    {
        let id: String = match str_field_exec(dict, "id") {
            Some(s) => s,
            None => {
                return Err(FieldError { field: "id".to_owned() });
            },
        };
        let bank: String = match str_field_exec(dict, "bank") {
            Some(s) => s,
            None => {
                return Err(FieldError { field: "bank".to_owned() });
            },
        };
        let account_id: String = match str_field_exec(dict, "account_id") {
            Some(s) => s,
            None => {
                return Err(FieldError { field: "account_id".to_owned() });
            },
        };
        let transaction_datetime: i64 = match dict.get("transaction_datetime") {
            Some(v) => match v {
                Value::Int(i) => *i,
                _ => {
                    return Err(FieldError { field: "transaction_datetime".to_owned() });
                },
            },
            None => {
                return Err(FieldError { field: "transaction_datetime".to_owned() });
            },
        };
        let transaction_amount: TransactionAmount = match amount_from_exec(dict) {
            Some(a) => a,
            None => {
                return Err(FieldError { field: "transaction_amount".to_owned() });
            },
        };
        let currency_conversion: Option<CurrencyConversion> = match conversion_from_exec(dict) {
            Some(c) => c,
            None => {
                return Err(FieldError { field: "currency_conversion".to_owned() });
            },
        };
        let short_name: String = match str_field_exec(dict, "short_name") {
            Some(s) => s,
            None => {
                return Err(FieldError { field: "short_name".to_owned() });
            },
        };
        let tags: TransactionTags = match tags_from_exec(dict) {
            Some(g) => g,
            None => {
                return Err(FieldError { field: "tags".to_owned() });
            },
        };
        Ok(
            Transaction {
                id,
                bank,
                account_id,
                transaction_datetime,
                transaction_amount,
                currency_conversion,
                short_name,
                tags,
            },
        )
    }
}

fn str_field_exec(dict: &Mapping, key: &str) -> (r: Option<String>)
    ensures
        match r {
            Some(s) => str_field(dict@, key@) == Some(s@),
            None => str_field(dict@, key@) is None,
        },
{
    match dict.get(key) {
        Some(v) => match v {
            Value::Str(s) => Some(s.clone()),
            _ => None,
        },
        None => None,
    }
}

fn amount_from_exec(dict: &Mapping) -> (r: Option<TransactionAmount>)
    ensures
        match r {
            Some(a) => spec_amount_from(dict@) == Some(a) && a.currency.valid(),
            None => spec_amount_from(dict@) is None,
        },
{
    let sm: &SubMapping = match dict.get("transaction_amount") {
        Some(v) => match v {
            Value::Sub(sm) => sm,
            _ => {
                return None;
            },
        },
        None => {
            return None;
        },
    };
    let amount = match sm.get("amount") {
        Some(sc) => match sc {
            Scalar::Dec(d) => *d,
            _ => {
                return None;
            },
        },
        None => {
            return None;
        },
    };
    let currency = match sm.get("currency") {
        Some(sc) => match sc {
            Scalar::Cur(c) => *c,
            _ => {
                return None;
            },
        },
        None => {
            return None;
        },
    };
    if !currency.check_valid() {
        return None;
    }
    Some(TransactionAmount { amount, currency })
}

fn conversion_from_exec(dict: &Mapping) -> (r: Option<Option<CurrencyConversion>>)
    ensures
        match r {
            Some(c) => spec_conversion_from(dict@) == Some(c) && (c matches Some(cc)
                ==> cc.from_currency.valid() && cc.to_currency.valid() && cc.rate.is_positive()),
            None => spec_conversion_from(dict@) is None,
        },
{
    let sm: &SubMapping = match dict.get("currency_conversion") {
        Some(v) => match v {
            Value::Null => {
                return Some(None);
            },
            Value::Sub(sm) => sm,
            _ => {
                return None;
            },
        },
        None => {
            return None;
        },
    };
    let from_currency = match sm.get("from_currency") {
        Some(sc) => match sc {
            Scalar::Cur(c) => *c,
            _ => {
                return None;
            },
        },
        None => {
            return None;
        },
    };
    let to_currency = match sm.get("to_currency") {
        Some(sc) => match sc {
            Scalar::Cur(c) => *c,
            _ => {
                return None;
            },
        },
        None => {
            return None;
        },
    };
    let rate = match sm.get("rate") {
        Some(sc) => match sc {
            Scalar::Dec(d) => *d,
            _ => {
                return None;
            },
        },
        None => {
            return None;
        },
    };
    if !from_currency.check_valid() || !to_currency.check_valid() || rate.mantissa <= 0 {
        return None;
    }
    Some(Some(CurrencyConversion { from_currency, to_currency, rate }))
}

fn tags_from_exec(dict: &Mapping) -> (r: Option<TransactionTags>)
    ensures
        match r {
            Some(g) => spec_tags_from(dict@) == Some(g) && (match g.transaction_type {
                Some(TransactionType::Periodic { from_date, to_date }) => from_date <= to_date,
                _ => true,
            }),
            None => spec_tags_from(dict@) is None,
        },
{
    let sm: &SubMapping = match dict.get("tags") {
        Some(v) => match v {
            Value::Sub(sm) => sm,
            _ => {
                return None;
            },
        },
        None => {
            return None;
        },
    };
    match sm.get("transaction_type") {
        Some(sc) => match sc {
            Scalar::Null => Some(TransactionTags { transaction_type: None }),
            Scalar::Str(s) => {
                if str_eq(s.as_str(), "OneOff") {
                    Some(TransactionTags { transaction_type: Some(TransactionType::OneOff) })
                } else if str_eq(s.as_str(), "Periodic") {
                    let from_date: i64 = match sm.get("from_date") {
                        Some(v) => match v {
                            Scalar::Int(i) => *i,
                            _ => {
                                return None;
                            },
                        },
                        None => {
                            return None;
                        },
                    };
                    let to_date: i64 = match sm.get("to_date") {
                        Some(v) => match v {
                            Scalar::Int(i) => *i,
                            _ => {
                                return None;
                            },
                        },
                        None => {
                            return None;
                        },
                    };
                    if from_date <= to_date {
                        Some(
                            TransactionTags {
                                transaction_type: Some(
                                    TransactionType::Periodic { from_date, to_date },
                                ),
                            },
                        )
                    } else {
                        None
                    }
                } else {
                    None
                }
            },
            _ => None,
        },
        None => None,
    }
}

/// Round-trip law: reading back the mapping form of any well-formed
/// transaction yields exactly that transaction.
pub proof fn lemma_round_trip(t: TransactionView)
    requires
        t.wf(),
    ensures
        spec_from_dict(spec_to_dict(t)) == Ok::<TransactionView, Seq<char>>(t),
{
    let m = spec_to_dict(t);
    reveal_strlit("id");
    reveal_strlit("bank");
    reveal_strlit("account_id");
    reveal_strlit("transaction_datetime");
    reveal_strlit("transaction_amount");
    reveal_strlit("currency_conversion");
    reveal_strlit("short_name");
    reveal_strlit("tags");
    reveal_strlit("amount");
    reveal_strlit("currency");
    reveal_strlit("from_currency");
    reveal_strlit("to_currency");
    reveal_strlit("rate");
    reveal_strlit("transaction_type");
    reveal_strlit("from_date");
    reveal_strlit("to_date");
    reveal_strlit("OneOff");
    reveal_strlit("Periodic");
    assert("id"@.len() == 2);
    assert("bank"@.len() == 4);
    assert("account_id"@.len() == 10);
    assert("transaction_datetime"@.len() == 20);
    assert("transaction_amount"@.len() == 18);
    assert("currency_conversion"@.len() == 19);
    assert("short_name"@.len() == 10);
    assert("tags"@.len() == 4);
    assert("bank"@[0] == 'b');
    assert("tags"@[0] == 't');
    assert("account_id"@[0] == 'a');
    assert("short_name"@[0] == 's');
    assert("amount"@.len() == 6);
    assert("currency"@.len() == 8);
    assert("from_currency"@.len() == 13);
    assert("to_currency"@.len() == 11);
    assert("rate"@.len() == 4);
    assert("transaction_type"@.len() == 16);
    assert("from_date"@.len() == 9);
    assert("to_date"@.len() == 7);
    assert("OneOff"@.len() == 6);
    assert("Periodic"@.len() == 8);
    assert("id"@ != "bank"@);
    assert("id"@ != "account_id"@);
    assert("bank"@ != "account_id"@);
    assert("id"@ != "transaction_datetime"@);
    assert("bank"@ != "transaction_datetime"@);
    assert("account_id"@ != "transaction_datetime"@);
    assert("id"@ != "transaction_amount"@);
    assert("bank"@ != "transaction_amount"@);
    assert("account_id"@ != "transaction_amount"@);
    assert("transaction_datetime"@ != "transaction_amount"@);
    assert("id"@ != "currency_conversion"@);
    assert("bank"@ != "currency_conversion"@);
    assert("account_id"@ != "currency_conversion"@);
    assert("transaction_datetime"@ != "currency_conversion"@);
    assert("transaction_amount"@ != "currency_conversion"@);
    assert("id"@ != "short_name"@);
    assert("bank"@ != "short_name"@);
    assert("account_id"@ != "short_name"@);
    assert("transaction_datetime"@ != "short_name"@);
    assert("transaction_amount"@ != "short_name"@);
    assert("currency_conversion"@ != "short_name"@);
    assert("id"@ != "tags"@);
    assert("bank"@ != "tags"@);
    assert("account_id"@ != "tags"@);
    assert("transaction_datetime"@ != "tags"@);
    assert("transaction_amount"@ != "tags"@);
    assert("currency_conversion"@ != "tags"@);
    assert("short_name"@ != "tags"@);
    lemma_lookup_at(m, "id"@, 0);
    lemma_lookup_at(m, "bank"@, 1);
    lemma_lookup_at(m, "account_id"@, 2);
    lemma_lookup_at(m, "transaction_datetime"@, 3);
    lemma_lookup_at(m, "transaction_amount"@, 4);
    lemma_lookup_at(m, "currency_conversion"@, 5);
    lemma_lookup_at(m, "short_name"@, 6);
    lemma_lookup_at(m, "tags"@, 7);
    let am = amount_entries(t.transaction_amount);
    assert("amount"@ != "currency"@);
    lemma_lookup_at(am, "amount"@, 0);
    lemma_lookup_at(am, "currency"@, 1);
    assert(spec_amount_from(m) == Some(t.transaction_amount));
    match t.currency_conversion {
        Some(c) => {
            let cm = conversion_entries(c);
            assert("from_currency"@ != "to_currency"@);
            assert("from_currency"@ != "rate"@);
            assert("to_currency"@ != "rate"@);
            lemma_lookup_at(cm, "from_currency"@, 0);
            lemma_lookup_at(cm, "to_currency"@, 1);
            lemma_lookup_at(cm, "rate"@, 2);
            assert(spec_conversion_from(m) == Some(t.currency_conversion));
        },
        None => {
            assert(spec_conversion_from(m) == Some(t.currency_conversion));
        },
    }
    let tm = tags_entries(t.tags);
    match t.tags.transaction_type {
        None => {
            lemma_lookup_at(tm, "transaction_type"@, 0);
        },
        Some(TransactionType::OneOff) => {
            lemma_lookup_at(tm, "transaction_type"@, 0);
        },
        Some(TransactionType::Periodic { from_date, to_date }) => {
            assert("transaction_type"@ != "from_date"@);
            assert("transaction_type"@ != "to_date"@);
            assert("from_date"@ != "to_date"@);
            lemma_lookup_at(tm, "transaction_type"@, 0);
            lemma_lookup_at(tm, "from_date"@, 1);
            lemma_lookup_at(tm, "to_date"@, 2);
            assert("Periodic"@ != "OneOff"@);
        },
    }
    assert(spec_tags_from(m) == Some(t.tags));
    let out = spec_from_dict(m);
    assert(out is Ok);
    assert(out->Ok_0 =~= t);
}

} // verus!
