use model_rs::currency::CurrencyCode;
use model_rs::decimal::Decimal;
use model_rs::mapping::MapEntry;
use model_rs::mapping::Mapping;
use model_rs::mapping::Scalar;
use model_rs::mapping::SubEntry;
use model_rs::mapping::SubMapping;
use model_rs::mapping::Value;
use model_rs::model::MappingError;
use model_rs::model::Transaction;

fn entry(key: &str, value: Value) -> MapEntry {
    MapEntry { key: key.to_string(), value }
}

fn sub_entry(key: &str, value: Scalar) -> SubEntry {
    SubEntry { key: key.to_string(), value }
}

fn amount_value(currency: &str, amount: &str) -> Value {
    Value::Sub(SubMapping {
        entries: vec![
            sub_entry("currency", Scalar::Str(currency.to_string())),
            sub_entry("amount", Scalar::Str(amount.to_string())),
        ],
    })
}

/// A minimal record that normalizes successfully.
fn base_record() -> Mapping {
    Mapping {
        entries: vec![
            entry("transactionAmount", amount_value("EUR", "12.50")),
            entry("creditorName", Value::Str("Grocer".to_string())),
            entry("transactionId", Value::Str("tx-1".to_string())),
            entry("bookingDate", Value::Str("2024-03-01".to_string())),
        ],
    }
}

#[test]
fn normalizes_complete_record() {
    let t = Transaction::from_nordigen(&base_record(), "mybank", "acct-1").unwrap();
    assert_eq!(t.id, "tx-1");
    assert_eq!(t.bank, "mybank");
    assert_eq!(t.account_id, "acct-1");
    assert_eq!(t.short_name, "Grocer");
    assert_eq!(t.transaction_amount.amount, Decimal { mantissa: 1250, scale: 2 });
    assert_eq!(t.transaction_amount.currency, CurrencyCode::from_code("EUR").unwrap());
    assert_eq!(t.currency_conversion, None);
    assert_eq!(t.tags.transaction_type, None);
}

#[test]
fn short_name_waterfall_prefers_debtor_over_remittance() {
    let mut record = base_record();
    record.entries.retain(|e| e.key != "creditorName");
    record.entries.push(entry("debtorName", Value::Str("Alice".to_string())));
    record
        .entries
        .push(entry("remittanceInformationUnstructured", Value::Str("Invoice 42".to_string())));
    let t = Transaction::from_nordigen(&record, "b", "a").unwrap();
    assert_eq!(t.short_name, "Alice");
}

#[test]
fn short_name_skips_empty_candidates() {
    let mut record = base_record();
    record.entries.retain(|e| e.key != "creditorName");
    record.entries.push(entry("creditorName", Value::Str(String::new())));
    record.entries.push(entry("additionalInformation", Value::Str("fallback".to_string())));
    let t = Transaction::from_nordigen(&record, "b", "a").unwrap();
    assert_eq!(t.short_name, "fallback");
}

#[test]
fn missing_short_name_is_reported() {
    let mut record = base_record();
    record.entries.retain(|e| e.key != "creditorName");
    let err = Transaction::from_nordigen(&record, "b", "a").unwrap_err();
    assert_eq!(err, MappingError::MissingField("short_name".to_string()));
}

#[test]
fn booking_date_resolves_to_midnight_utc() {
    let t = Transaction::from_nordigen(&base_record(), "b", "a").unwrap();
    assert_eq!(t.transaction_datetime, 1709251200);
}

#[test]
fn datetime_waterfall_prefers_value_datetime() {
    let mut record = base_record();
    record.entries.push(entry("valueDateTime", Value::Str("2024-03-01T12:00:00Z".to_string())));
    let t = Transaction::from_nordigen(&record, "b", "a").unwrap();
    assert_eq!(t.transaction_datetime, 1709294400);
}

#[test]
fn leap_day_resolves() {
    let mut record = base_record();
    record.entries.retain(|e| e.key != "bookingDate");
    record.entries.push(entry("bookingDate", Value::Str("2024-02-29".to_string())));
    let t = Transaction::from_nordigen(&record, "b", "a").unwrap();
    assert_eq!(t.transaction_datetime, 1709164800);
}

#[test]
fn invalid_date_is_reported() {
    let mut record = base_record();
    record.entries.retain(|e| e.key != "bookingDate");
    record.entries.push(entry("bookingDate", Value::Str("2023-02-29".to_string())));
    let err = Transaction::from_nordigen(&record, "b", "a").unwrap_err();
    assert_eq!(err, MappingError::MissingField("transaction_datetime".to_string()));
}

#[test]
fn missing_datetime_is_reported() {
    let mut record = base_record();
    record.entries.retain(|e| e.key != "bookingDate");
    let err = Transaction::from_nordigen(&record, "b", "a").unwrap_err();
    assert_eq!(err, MappingError::MissingField("transaction_datetime".to_string()));
}

#[test]
fn missing_transaction_id_is_reported() {
    let mut record = base_record();
    record.entries.retain(|e| e.key != "transactionId");
    let err = Transaction::from_nordigen(&record, "b", "a").unwrap_err();
    assert_eq!(err, MappingError::MissingField("transactionId".to_string()));
}

#[test]
fn missing_amount_is_reported() {
    let mut record = base_record();
    record.entries.retain(|e| e.key != "transactionAmount");
    let err = Transaction::from_nordigen(&record, "b", "a").unwrap_err();
    assert_eq!(err, MappingError::MissingField("transactionAmount".to_string()));
}

#[test]
fn unknown_currency_is_invalid_amount() {
    let mut record = base_record();
    record.entries.retain(|e| e.key != "transactionAmount");
    record.entries.push(entry("transactionAmount", amount_value("ZZZ", "1.00")));
    let err = Transaction::from_nordigen(&record, "b", "a").unwrap_err();
    assert_eq!(err, MappingError::InvalidAmount);
}

#[test]
fn malformed_amount_is_invalid_amount() {
    let mut record = base_record();
    record.entries.retain(|e| e.key != "transactionAmount");
    record.entries.push(entry("transactionAmount", amount_value("EUR", "12..5")));
    let err = Transaction::from_nordigen(&record, "b", "a").unwrap_err();
    assert_eq!(err, MappingError::InvalidAmount);
}

#[test]
fn conversion_is_optional() {
    let t = Transaction::from_nordigen(&base_record(), "b", "a").unwrap();
    assert_eq!(t.currency_conversion, None);
}

#[test]
fn conversion_is_extracted() {
    let mut record = base_record();
    record.entries.push(entry(
        "currencyExchange",
        Value::Sub(SubMapping {
            entries: vec![
                sub_entry("sourceCurrency", Scalar::Str("USD".to_string())),
                sub_entry("exchangeRate", Scalar::Str("1.08".to_string())),
            ],
        }),
    ));
    let t = Transaction::from_nordigen(&record, "b", "a").unwrap();
    let c = t.currency_conversion.unwrap();
    assert_eq!(c.from_currency, CurrencyCode::from_code("USD").unwrap());
    assert_eq!(c.to_currency, CurrencyCode::from_code("EUR").unwrap());
    assert_eq!(c.rate, Decimal { mantissa: 108, scale: 2 });
}

#[test]
fn conversion_missing_rate_is_invalid() {
    let mut record = base_record();
    record.entries.push(entry(
        "currencyExchange",
        Value::Sub(SubMapping {
            entries: vec![sub_entry("sourceCurrency", Scalar::Str("USD".to_string()))],
        }),
    ));
    let err = Transaction::from_nordigen(&record, "b", "a").unwrap_err();
    assert_eq!(err, MappingError::InvalidConversion);
}

#[test]
fn conversion_nonpositive_rate_is_invalid() {
    let mut record = base_record();
    record.entries.push(entry(
        "currencyExchange",
        Value::Sub(SubMapping {
            entries: vec![
                sub_entry("sourceCurrency", Scalar::Str("USD".to_string())),
                sub_entry("exchangeRate", Scalar::Str("-1.08".to_string())),
            ],
        }),
    ));
    let err = Transaction::from_nordigen(&record, "b", "a").unwrap_err();
    assert_eq!(err, MappingError::InvalidConversion);
}

#[test]
fn normalization_is_idempotent() {
    let record = base_record();
    let t1 = Transaction::from_nordigen(&record, "b", "a").unwrap();
    let t2 = Transaction::from_nordigen(&record, "b", "a").unwrap();
    assert_eq!(t1, t2);
}

#[test]
fn decimal_amount_scalar_is_accepted() {
    let mut record = base_record();
    record.entries.retain(|e| e.key != "transactionAmount");
    record.entries.push(entry(
        "transactionAmount",
        Value::Sub(SubMapping {
            entries: vec![
                sub_entry("currency", Scalar::Str("SEK".to_string())),
                sub_entry("amount", Scalar::Dec(Decimal { mantissa: -300, scale: 1 })),
            ],
        }),
    ));
    let t = Transaction::from_nordigen(&record, "b", "a").unwrap();
    assert_eq!(t.transaction_amount.amount, Decimal { mantissa: -300, scale: 1 });
}

#[test]
fn lowercase_currency_code_is_rejected() {
    assert!(CurrencyCode::from_code("eur").is_err());
    let code = CurrencyCode::from_code("EUR").unwrap();
    assert_eq!(code.code(), "EUR");
}

#[test]
fn empty_record_fails_on_amount_first() {
    let record = Mapping { entries: vec![] };
    let err = Transaction::from_nordigen(&record, "b", "a").unwrap_err();
    assert_eq!(err, MappingError::MissingField("transactionAmount".to_string()));
}

#[test]
fn value_date_beats_booking_date() {
    let mut record = base_record();
    record.entries.push(entry("valueDate", Value::Str("2024-02-29".to_string())));
    let t = Transaction::from_nordigen(&record, "b", "a").unwrap();
    assert_eq!(t.transaction_datetime, 1709164800);
}
