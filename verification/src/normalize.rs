//! The record normalizer: maps one raw bank-aggregator record to a canonical
//! `Transaction`, or fails with the first unmet requirement, in a fixed
//! order: amount, short name, identifier, currency conversion, datetime.

use vstd::prelude::*;
use vstd::string::StrSliceExecFns;
use crate::currency::iso4217_valid;
use crate::currency::spec_code_of;
use crate::currency::CurrencyCode;
use crate::decimal::Decimal;
use crate::decimal::spec_parse_decimal;
use crate::decimal::parse_decimal;
use crate::datetime::spec_parse_datetime;
use crate::datetime::parse_datetime;
use crate::mapping::lookup;
use crate::mapping::Mapping;
use crate::mapping::SubMapping;
use crate::mapping::Value;
use crate::mapping::ValueV;
use crate::mapping::Scalar;
use crate::mapping::ScalarV;
use crate::model::Transaction;
use crate::model::TransactionView;
use crate::model::TransactionAmount;
use crate::model::CurrencyConversion;
use crate::model::TransactionTags;
use crate::model::MappingError;
use crate::model::MappingErrorV;

verus! {

/// A decimal read from a loosely-typed scalar: either a decimal value itself
/// or a string that parses as one.
pub open spec fn scalar_dec(v: ScalarV) -> Option<Decimal> {
    match v {
        ScalarV::Dec(d) => Some(d),
        ScalarV::Str(s) => spec_parse_decimal(s),
        _ => None,
    }
}

/// Amount extraction: the nested `transactionAmount` mapping must hold a
/// valid `currency` and a decimal `amount`.
pub open spec fn spec_amount_of(m: Seq<(Seq<char>, ValueV)>) -> Result<
    TransactionAmount,
    MappingErrorV,
> {
    match lookup(m, "transactionAmount"@) {
        None => Err(MappingErrorV::MissingField("transactionAmount"@)),
        Some(ValueV::Sub(am)) => match (lookup(am, "currency"@), lookup(am, "amount"@)) {
            (Some(ScalarV::Str(c)), Some(av)) => if !iso4217_valid(c) {
                Err(MappingErrorV::InvalidAmount)
            } else {
                match scalar_dec(av) {
                    Some(d) => Ok(TransactionAmount { amount: d, currency: spec_code_of(c) }),
                    None => Err(MappingErrorV::InvalidAmount),
                }
            },
            _ => Err(MappingErrorV::InvalidAmount),
        },
        Some(_) => Err(MappingErrorV::InvalidAmount),
    }
}

/// A field that is present as a non-empty string.
pub open spec fn nonempty_str_field(m: Seq<(Seq<char>, ValueV)>, k: Seq<char>) -> Option<
    Seq<char>,
> {
    match lookup(m, k) {
        Some(ValueV::Str(s)) => if s.len() > 0 {
            Some(s)
        } else {
            None
        },
        _ => None,
    }
}

/// Short-name waterfall: the first present, non-empty candidate, in order.
pub open spec fn spec_short_name(m: Seq<(Seq<char>, ValueV)>) -> Option<Seq<char>> {
    if nonempty_str_field(m, "creditorName"@) is Some {
        nonempty_str_field(m, "creditorName"@)
    } else if nonempty_str_field(m, "debtorName"@) is Some {
        nonempty_str_field(m, "debtorName"@)
    } else if nonempty_str_field(m, "remittanceInformationUnstructured"@) is Some {
        nonempty_str_field(m, "remittanceInformationUnstructured"@)
    } else if nonempty_str_field(m, "additionalInformation"@) is Some {
        nonempty_str_field(m, "additionalInformation"@)
    } else {
        None
    }
}

/// Datetime waterfall: the first present, non-empty candidate, in order.
pub open spec fn spec_datetime_field(m: Seq<(Seq<char>, ValueV)>) -> Option<Seq<char>> {
    if nonempty_str_field(m, "valueDateTime"@) is Some {
        nonempty_str_field(m, "valueDateTime"@)
    } else if nonempty_str_field(m, "bookingDateTime"@) is Some {
        nonempty_str_field(m, "bookingDateTime"@)
    } else if nonempty_str_field(m, "valueDate"@) is Some {
        nonempty_str_field(m, "valueDate"@)
    } else if nonempty_str_field(m, "bookingDate"@) is Some {
        nonempty_str_field(m, "bookingDate"@)
    } else {
        None
    }
}

/// Datetime resolution: the selected field parsed as an ISO 8601 timestamp
/// (a date-only value meaning midnight UTC).
pub open spec fn spec_datetime_of(m: Seq<(Seq<char>, ValueV)>) -> Result<i64, MappingErrorV> {
    match spec_datetime_field(m) {
        None => Err(MappingErrorV::MissingField("transaction_datetime"@)),
        Some(s) => match spec_parse_datetime(s) {
            Some(ts) => Ok(ts),
            None => Err(MappingErrorV::MissingField("transaction_datetime"@)),
        },
    }
}

/// Conversion extraction: absent `currencyExchange` means no conversion; a
/// present one must hold a valid `sourceCurrency` and a positive decimal
/// `exchangeRate`, converting into the transaction's own currency.
pub open spec fn spec_conversion_of(m: Seq<(Seq<char>, ValueV)>, to_currency: CurrencyCode) -> Result<
    Option<CurrencyConversion>,
    MappingErrorV,
> {
    match lookup(m, "currencyExchange"@) {
        None => Ok(None),
        Some(ValueV::Sub(cm)) => match (lookup(cm, "sourceCurrency"@), lookup(cm, "exchangeRate"@)) {
            (Some(ScalarV::Str(c)), Some(rv)) => if !iso4217_valid(c) {
                Err(MappingErrorV::InvalidConversion)
            } else {
                match scalar_dec(rv) {
                    Some(rate) => if rate.is_positive() {
                        Ok(
                            Some(
                                CurrencyConversion {
                                    from_currency: spec_code_of(c),
                                    to_currency,
                                    rate,
                                },
                            ),
                        )
                    } else {
                        Err(MappingErrorV::InvalidConversion)
                    },
                    None => Err(MappingErrorV::InvalidConversion),
                }
            },
            _ => Err(MappingErrorV::InvalidConversion),
        },
        Some(_) => Err(MappingErrorV::InvalidConversion),
    }
}

/// The whole normalizer: either a complete transaction view, or the first
/// unmet requirement in the fixed step order.
pub open spec fn spec_from_nordigen(
    m: Seq<(Seq<char>, ValueV)>,
    bank: Seq<char>,
    account_id: Seq<char>,
) -> Result<TransactionView, MappingErrorV> {
    match spec_amount_of(m) {
        Err(e) => Err(e),
        Ok(amount) => match spec_short_name(m) {
            None => Err(MappingErrorV::MissingField("short_name"@)),
            Some(short_name) => match lookup(m, "transactionId"@) {
                Some(ValueV::Str(id)) => match spec_conversion_of(m, amount.currency) {
                    Err(e) => Err(e),
                    Ok(conversion) => match spec_datetime_of(m) {
                        Err(e) => Err(e),
                        Ok(ts) => Ok(
                            TransactionView {
                                id,
                                bank,
                                account_id,
                                transaction_datetime: ts,
                                transaction_amount: amount,
                                currency_conversion: conversion,
                                short_name,
                                tags: TransactionTags { transaction_type: None },
                            },
                        ),
                    },
                },
                _ => Err(MappingErrorV::MissingField("transactionId"@)),
            },
        },
    }
}

/// Normalizing is a pure function of the record's content and the two
/// caller-supplied identifiers: the same input always yields the same
/// transaction or the same error.
pub proof fn lemma_normalize_deterministic(
    m1: Seq<(Seq<char>, ValueV)>,
    m2: Seq<(Seq<char>, ValueV)>,
    bank: Seq<char>,
    account_id: Seq<char>,
)
    requires
        m1 == m2,
    ensures
        spec_from_nordigen(m1, bank, account_id) == spec_from_nordigen(m2, bank, account_id),
{
}

/// Read a decimal from a loosely-typed scalar.
fn scalar_dec_exec(v: &Scalar) -> (r: Option<Decimal>)
    ensures
        r == scalar_dec(v@),
{
    match v {
        Scalar::Dec(d) => Some(*d),
        Scalar::Str(s) => parse_decimal(s.as_str()),
        _ => None,
    }
}

/// Read a field that is present as a non-empty string.
fn nonempty_str_get(record: &Mapping, key: &str) -> (r: Option<String>)
    ensures
        match r {
            Some(s) => nonempty_str_field(record@, key@) == Some(s@),
            None => nonempty_str_field(record@, key@) is None,
        },
{
    match record.get(key) {
        Some(v) => match v {
            Value::Str(s) => if s.as_str().unicode_len() > 0 {
                Some(s.clone())
            } else {
                None
            },
            _ => None,
        },
        None => None,
    }
}

fn short_name_exec(record: &Mapping) -> (r: Option<String>)
    ensures
        match r {
            Some(s) => spec_short_name(record@) == Some(s@) && s@.len() > 0,
            None => spec_short_name(record@) is None,
        },
{
    if let Some(s) = nonempty_str_get(record, "creditorName") {
        return Some(s);
    }
    if let Some(s) = nonempty_str_get(record, "debtorName") {
        return Some(s);
    }
    if let Some(s) = nonempty_str_get(record, "remittanceInformationUnstructured") {
        return Some(s);
    }
    if let Some(s) = nonempty_str_get(record, "additionalInformation") {
        return Some(s);
    }
    None
}

fn datetime_field_exec(record: &Mapping) -> (r: Option<String>)
    ensures
        match r {
            Some(s) => spec_datetime_field(record@) == Some(s@),
            None => spec_datetime_field(record@) is None,
        },
{
    if let Some(s) = nonempty_str_get(record, "valueDateTime") {
        return Some(s);
    }
    if let Some(s) = nonempty_str_get(record, "bookingDateTime") {
        return Some(s);
    }
    if let Some(s) = nonempty_str_get(record, "valueDate") {
        return Some(s);
    }
    if let Some(s) = nonempty_str_get(record, "bookingDate") {
        return Some(s);
    }
    None
}

fn amount_of_exec(record: &Mapping) -> (r: Result<TransactionAmount, MappingError>)
    ensures
        match r {
            Ok(a) => spec_amount_of(record@) == Ok::<TransactionAmount, MappingErrorV>(a)
                && a.currency.valid(),
            Err(e) => spec_amount_of(record@) == Err::<TransactionAmount, MappingErrorV>(e@),
        },
{
    let sub: &SubMapping = match record.get("transactionAmount") {
        None => {
            return Err(MappingError::MissingField("transactionAmount".to_owned()));
        },
        Some(v) => match v {
            Value::Sub(am) => am,
            _ => {
                return Err(MappingError::InvalidAmount);
            },
        },
    };
    let cur_s: &String = match sub.get("currency") {
        Some(sc) => match sc {
            Scalar::Str(c) => c,
            _ => {
                return Err(MappingError::InvalidAmount);
            },
        },
        None => {
            return Err(MappingError::InvalidAmount);
        },
    };
    let av: &Scalar = match sub.get("amount") {
        Some(v) => v,
        None => {
            return Err(MappingError::InvalidAmount);
        },
    };
    let currency: CurrencyCode = match CurrencyCode::from_code(cur_s.as_str()) {
        Ok(c) => c,
        Err(_) => {
            return Err(MappingError::InvalidAmount);
        },
    };
    let amount: Decimal = match scalar_dec_exec(av) {
        Some(d) => d,
        None => {
            return Err(MappingError::InvalidAmount);
        },
    };
    Ok(TransactionAmount { amount, currency })
}

fn conversion_of_exec(record: &Mapping, to_currency: CurrencyCode) -> (r: Result<
    Option<CurrencyConversion>,
    MappingError,
>)
    ensures
        match r {
            Ok(c) => spec_conversion_of(record@, to_currency) == Ok::<
                Option<CurrencyConversion>,
                MappingErrorV,
            >(c) && (c matches Some(cc) ==> cc.from_currency.valid() && cc.rate.is_positive()
                && cc.to_currency == to_currency),
            Err(e) => spec_conversion_of(record@, to_currency) == Err::<
                Option<CurrencyConversion>,
                MappingErrorV,
            >(e@),
        },
{
    let sub: &SubMapping = match record.get("currencyExchange") {
        None => {
            return Ok(None);
        },
        Some(v) => match v {
            Value::Sub(cm) => cm,
            _ => {
                return Err(MappingError::InvalidConversion);
            },
        },
    };
    let src: &String = match sub.get("sourceCurrency") {
        Some(sc) => match sc {
            Scalar::Str(c) => c,
            _ => {
                return Err(MappingError::InvalidConversion);
            },
        },
        None => {
            return Err(MappingError::InvalidConversion);
        },
    };
    let rv: &Scalar = match sub.get("exchangeRate") {
        Some(v) => v,
        None => {
            return Err(MappingError::InvalidConversion);
        },
    };
    let from_currency: CurrencyCode = match CurrencyCode::from_code(src.as_str()) {
        Ok(c) => c,
        Err(_) => {
            return Err(MappingError::InvalidConversion);
        },
    };
    let rate: Decimal = match scalar_dec_exec(rv) {
        Some(d) => d,
        None => {
            return Err(MappingError::InvalidConversion);
        },
    };
    if rate.mantissa <= 0 {
        return Err(MappingError::InvalidConversion);
    }
    Ok(Some(CurrencyConversion { from_currency, to_currency, rate }))
}

fn datetime_of_exec(record: &Mapping) -> (r: Result<i64, MappingError>)
    ensures
        match r {
            Ok(ts) => spec_datetime_of(record@) == Ok::<i64, MappingErrorV>(ts),
            Err(e) => spec_datetime_of(record@) == Err::<i64, MappingErrorV>(e@),
        },
{
    let s: String = match datetime_field_exec(record) {
        Some(s) => s,
        None => {
            return Err(MappingError::MissingField("transaction_datetime".to_owned()));
        },
    };
    match parse_datetime(s.as_str()) {
        Some(ts) => Ok(ts),
        None => Err(MappingError::MissingField("transaction_datetime".to_owned())),
    }
}

impl Transaction {
    /// Normalize one raw bank-aggregator record, with `bank` and
    /// `account_id` supplied by the caller. Returns a complete, well-formed
    /// transaction, or the first unmet requirement in the fixed step order;
    /// the outcome is exactly `spec_from_nordigen` of the record's content.
    pub fn from_nordigen(record: &Mapping, bank: &str, account_id: &str) -> (r: Result<
        Transaction,
        MappingError,
    >)
        ensures
            match r {
                Ok(t) => spec_from_nordigen(record@, bank@, account_id@) == Ok::<
                    TransactionView,
                    MappingErrorV,
                >(t@) && t@.wf() && t@.short_name.len() > 0,
                Err(e) => spec_from_nordigen(record@, bank@, account_id@) == Err::<
                    TransactionView,
                    MappingErrorV,
                >(e@),
            },
    {
        let transaction_amount: TransactionAmount = match amount_of_exec(record) {
            Ok(a) => a,
            Err(e) => {
                return Err(e);
            },
        };
        let short_name: String = match short_name_exec(record) {
            Some(s) => s,
            None => {
                return Err(MappingError::MissingField("short_name".to_owned()));
            },
        };
        let id: String = match record.get("transactionId") {
            Some(v) => match v {
                Value::Str(s) => s.clone(),
                _ => {
                    return Err(MappingError::MissingField("transactionId".to_owned()));
                },
            },
            None => {
                return Err(MappingError::MissingField("transactionId".to_owned()));
            },
        };
        let currency_conversion: Option<CurrencyConversion> = match conversion_of_exec(
            record,
            transaction_amount.currency,
        ) {
            Ok(c) => c,
            Err(e) => {
                return Err(e);
            },
        };
        let transaction_datetime: i64 = match datetime_of_exec(record) {
            Ok(ts) => ts,
            Err(e) => {
                return Err(e);
            },
        };
        let t = Transaction {
            id,
            bank: bank.to_owned(),
            account_id: account_id.to_owned(),
            transaction_datetime,
            transaction_amount,
            currency_conversion,
            short_name,
            tags: TransactionTags { transaction_type: None },
        };
        proof {
            let specr = spec_from_nordigen(record@, bank@, account_id@);
            assert(specr is Ok && t@ =~= specr->Ok_0);
            assert(t@.wf());
        }
        Ok(t)
    }
}

} // verus!
