//! The canonical domain model: a normalized bank transaction and its parts.
//! All types are immutable value types; timestamps are seconds since the Unix
//! epoch, UTC.

use vstd::prelude::*;
use crate::decimal::Decimal;
use crate::currency::CurrencyCode;

verus! {

/// A monetary amount in a given currency.
#[derive(Clone, Copy, PartialEq, Eq, Debug)]
pub struct TransactionAmount {
    pub amount: Decimal,
    pub currency: CurrencyCode,
}

/// A currency exchange observed in the source record: `rate` converts from
/// `from_currency` into `to_currency`.
#[derive(Clone, Copy, PartialEq, Eq, Debug)]
pub struct CurrencyConversion {
    pub from_currency: CurrencyCode,
    pub to_currency: CurrencyCode,
    pub rate: Decimal,
}

/// Classification of a transaction.
#[derive(Clone, Copy, PartialEq, Eq, Debug)]
pub enum TransactionType {
    OneOff,
    Periodic { from_date: i64, to_date: i64 },
}

/// Tags attached to a transaction; an absent type means "unclassified".
#[derive(Clone, Copy, PartialEq, Eq, Debug)]
pub struct TransactionTags {
    pub transaction_type: Option<TransactionType>,
}

/// The canonical transaction value.
#[derive(Clone, PartialEq, Eq, Debug)]
pub struct Transaction {
    pub id: String,
    pub bank: String,
    pub account_id: String,
    pub transaction_datetime: i64,
    pub transaction_amount: TransactionAmount,
    pub currency_conversion: Option<CurrencyConversion>,
    pub short_name: String,
    pub tags: TransactionTags,
}

/// The mathematical content of a `Transaction`: strings as character
/// sequences, everything else already a plain value.
#[verifier::ext_equal]
pub struct TransactionView {
    pub id: Seq<char>,
    pub bank: Seq<char>,
    pub account_id: Seq<char>,
    pub transaction_datetime: i64,
    pub transaction_amount: TransactionAmount,
    pub currency_conversion: Option<CurrencyConversion>,
    pub short_name: Seq<char>,
    pub tags: TransactionTags,
}

impl View for Transaction {
    type V = TransactionView;

    open spec fn view(&self) -> TransactionView {
        TransactionView {
            id: self.id@,
            bank: self.bank@,
            account_id: self.account_id@,
            transaction_datetime: self.transaction_datetime,
            transaction_amount: self.transaction_amount,
            currency_conversion: self.currency_conversion,
            short_name: self.short_name@,
            tags: self.tags,
        }
    }
}

impl TransactionView {
    /// Structural well-formedness: currencies are ISO 4217 codes, a recorded
    /// conversion rate is positive, and a periodic range is ordered.
    pub open spec fn wf(self) -> bool {
        &&& self.transaction_amount.currency.valid()
        &&& match self.currency_conversion {
            Some(c) => c.from_currency.valid() && c.to_currency.valid() && c.rate.is_positive(),
            None => true,
        }
        &&& match self.tags.transaction_type {
            Some(TransactionType::Periodic { from_date, to_date }) => from_date <= to_date,
            _ => true,
        }
    }
}

impl Transaction {
    /// Direct construction from explicitly supplied fields.
    pub fn new(
        id: String,
        bank: String,
        account_id: String,
        transaction_datetime: i64,
        transaction_amount: TransactionAmount,
        currency_conversion: Option<CurrencyConversion>,
        short_name: String,
        tags: TransactionTags,
    ) -> (r: Transaction)
        ensures
            r@ == (TransactionView {
                id: id@,
                bank: bank@,
                account_id: account_id@,
                transaction_datetime,
                transaction_amount,
                currency_conversion,
                short_name: short_name@,
                tags,
            }),
    {
        Transaction {
            id,
            bank,
            account_id,
            transaction_datetime,
            transaction_amount,
            currency_conversion,
            short_name,
            tags,
        }
    }
}

/// A failure of the record normalizer, naming the first unmet requirement.
#[derive(Clone, PartialEq, Eq, Debug)]
pub enum MappingError {
    MissingField(String),
    InvalidAmount,
    InvalidConversion,
}

/// View of a `MappingError`: field names as character sequences.
pub enum MappingErrorV {
    MissingField(Seq<char>),
    InvalidAmount,
    InvalidConversion,
}

impl View for MappingError {
    type V = MappingErrorV;

    open spec fn view(&self) -> MappingErrorV {
        match self {
            MappingError::MissingField(f) => MappingErrorV::MissingField(f@),
            MappingError::InvalidAmount => MappingErrorV::InvalidAmount,
            MappingError::InvalidConversion => MappingErrorV::InvalidConversion,
        }
    }
}

/// A failure of `Transaction::from_dict`, naming the first missing or
/// mistyped key.
#[derive(Clone, PartialEq, Eq, Debug)]
pub struct FieldError {
    pub field: String,
}

} // verus!
