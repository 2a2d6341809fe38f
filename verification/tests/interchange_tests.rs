use model_rs::currency::CurrencyCode;
use model_rs::decimal::Decimal;
use model_rs::mapping::Value;
use model_rs::model::CurrencyConversion;
use model_rs::model::Transaction;
use model_rs::model::TransactionAmount;
use model_rs::model::TransactionTags;
use model_rs::model::TransactionType;

fn sample(conversion: bool, tag: Option<TransactionType>) -> Transaction {
    let eur = CurrencyCode::from_code("EUR").unwrap();
    let usd = CurrencyCode::from_code("USD").unwrap();
    Transaction::new(
        "tx-9".to_string(),
        "mybank".to_string(),
        "acct-7".to_string(),
        1709251200,
        TransactionAmount { amount: Decimal { mantissa: 995, scale: 2 }, currency: eur },
        if conversion {
            Some(CurrencyConversion {
                from_currency: usd,
                to_currency: eur,
                rate: Decimal { mantissa: 108, scale: 2 },
            })
        } else {
            None
        },
        "Grocer".to_string(),
        TransactionTags { transaction_type: tag },
    )
}

#[test]
fn round_trip_plain() {
    let t = sample(false, None);
    let back = Transaction::from_dict(&t.to_dict()).unwrap();
    assert_eq!(back, t);
}

#[test]
fn round_trip_with_conversion() {
    let t = sample(true, None);
    let back = Transaction::from_dict(&t.to_dict()).unwrap();
    assert_eq!(back, t);
}

#[test]
fn round_trip_one_off() {
    let t = sample(false, Some(TransactionType::OneOff));
    let back = Transaction::from_dict(&t.to_dict()).unwrap();
    assert_eq!(back, t);
}

#[test]
fn round_trip_periodic() {
    let t = sample(
        true,
        Some(TransactionType::Periodic { from_date: 1709251200, to_date: 1711929600 }),
    );
    let back = Transaction::from_dict(&t.to_dict()).unwrap();
    assert_eq!(back, t);
}

#[test]
fn to_dict_has_one_entry_per_field() {
    let t = sample(false, None);
    let d = t.to_dict();
    let keys: Vec<&str> = d.entries.iter().map(|e| e.key.as_str()).collect();
    assert_eq!(
        keys,
        vec![
            "id",
            "bank",
            "account_id",
            "transaction_datetime",
            "transaction_amount",
            "currency_conversion",
            "short_name",
            "tags",
        ],
    );
}

#[test]
fn absent_conversion_is_an_explicit_null() {
    let t = sample(false, None);
    let d = t.to_dict();
    let v = d.get("currency_conversion").unwrap();
    assert!(matches!(v, Value::Null));
}

#[test]
fn from_dict_names_first_missing_field() {
    let t = sample(false, None);
    let mut d = t.to_dict();
    d.entries.retain(|e| e.key != "bank");
    let err = Transaction::from_dict(&d).unwrap_err();
    assert_eq!(err.field, "bank");
}

#[test]
fn from_dict_names_first_mistyped_field() {
    let t = sample(false, None);
    let mut d = t.to_dict();
    for e in d.entries.iter_mut() {
        if e.key == "transaction_datetime" {
            e.value = Value::Str("not a timestamp".to_string());
        }
    }
    let err = Transaction::from_dict(&d).unwrap_err();
    assert_eq!(err.field, "transaction_datetime");
}

#[test]
fn from_dict_checks_fields_in_order() {
    let t = sample(false, None);
    let mut d = t.to_dict();
    d.entries.retain(|e| e.key != "id" && e.key != "tags");
    let err = Transaction::from_dict(&d).unwrap_err();
    assert_eq!(err.field, "id");
}

#[test]
fn new_sets_all_fields() {
    let t = sample(true, Some(TransactionType::OneOff));
    assert_eq!(t.id, "tx-9");
    assert_eq!(t.bank, "mybank");
    assert_eq!(t.account_id, "acct-7");
    assert_eq!(t.transaction_datetime, 1709251200);
    assert_eq!(t.short_name, "Grocer");
    assert_eq!(t.tags.transaction_type, Some(TransactionType::OneOff));
    assert!(t.currency_conversion.is_some());
}
