use bitcoind_async_client::json::Json;
use bitcoind_async_client::txid::{deserialize_txid, Txid};
use bitcoind_async_client::types::{
    max_fee_rate_btc_per_kvb, serialize_option_bitcoin, serialize_option_fee_rate, Amount, BroadcastOptions,
    CreateRawTransactionArguments, CreateRawTransactionInput, CreateRawTransactionOutput,
    CreateWalletArguments, FeeRate, ImportDescriptorInput, ListUnspentQueryOptions,
    PreviousTransactionOutput, PsbtBumpFeeOptions, SighashType, WalletCreateFundedPsbtOptions,
};
use serde_json::Value;

/// The document that a driver makes of a JSON value.
fn document(json: &Json) -> Value {
    match json {
        Json::Null => Value::Null,
        Json::Bool(b) => Value::from(*b),
        Json::Unsigned(n) => Value::from(*n),
        Json::Ratio(q) => Value::from(q.numerator as f64 / q.denominator as f64),
        Json::Btc(sat) => Value::from(bitcoin::Amount::from_sat(*sat).to_btc()),
        Json::Number(n) => Value::Number(n.clone()),
        Json::String(s) => Value::from(s.as_str()),
        Json::Array(items) => Value::from(items.iter().map(document).collect::<Vec<Value>>()),
        Json::Object(members) => {
            members.iter().map(|(name, value)| (name.clone(), document(value))).collect()
        }
    }
}

fn parsed(text: &str) -> Value {
    serde_json::from_str(text).unwrap()
}

fn params(options: &BroadcastOptions) -> Vec<Value> {
    options.to_params().iter().map(document).collect()
}

fn fee_rate(sat_per_kwu: u64) -> FeeRate {
    FeeRate { sat_per_kwu }
}

/// An object with the one member `fee_rate`.
fn fee_rate_option(fee_rate: Option<FeeRate>) -> Value {
    let members = vec![("fee_rate".to_string(), document(&serialize_option_fee_rate(&fee_rate)))];
    members.into_iter().collect()
}

fn serialized_fee_rate_sat_per_kwu(value: &Value) -> u64 {
    let fee_rate = value["fee_rate"].as_f64().unwrap();
    (fee_rate * 250.0).round() as u64
}

#[test]
fn broadcast_options_to_params_omits_empty_options() {
    let params: Vec<_> = params(&BroadcastOptions::default());

    assert_eq!(params, Vec::<Value>::new());
}

#[test]
fn broadcast_options_to_params_adds_max_fee_rate_only() {
    let params: Vec<_> = params(&BroadcastOptions {
        max_fee_rate: Some(fee_rate(25_000_000)),
        max_burn_amount: None,
    });

    assert_eq!(params, vec![Value::from(1.0)]);
}

#[test]
fn broadcast_options_to_params_adds_null_placeholder_for_max_burn_amount_only() {
    let params: Vec<_> = params(&BroadcastOptions {
        max_fee_rate: None,
        max_burn_amount: Some(Amount { sat: 50_000 }),
    });

    assert_eq!(params, vec![Value::Null, Value::from(0.0005)]);
}

#[test]
fn broadcast_options_to_params_adds_max_fee_rate_and_max_burn_amount() {
    let params: Vec<_> = params(&BroadcastOptions {
        max_fee_rate: Some(fee_rate(12_500_000)),
        max_burn_amount: Some(Amount { sat: 25_000 }),
    });

    assert_eq!(params, vec![Value::from(0.5), Value::from(0.00025)]);
}

#[test]
fn serialize_option_fee_rate_preserves_sub_sat_per_vb_example() {
    let value = fee_rate_option(Some(fee_rate(125)));

    assert_eq!(value, parsed(r#"{ "fee_rate": 0.5 }"#));
}

#[test]
fn wallet_create_funded_psbt_options_serializes_fee_rate_as_sat_per_vb_example() {
    let value = document(
        &WalletCreateFundedPsbtOptions { fee_rate: Some(fee_rate(375)), ..Default::default() }
            .to_json(),
    );

    assert_eq!(value, parsed(r#"{ "fee_rate": 1.5 }"#));
}

#[test]
fn wallet_create_funded_psbt_options_skips_missing_fee_rate() {
    let value = document(
        &WalletCreateFundedPsbtOptions { lock_unspents: Some(true), ..Default::default() }
            .to_json(),
    );

    assert_eq!(value, parsed(r#"{ "lockUnspents": true }"#));
}

#[test]
fn psbt_bump_fee_options_serializes_fee_rate_as_sat_per_vb_example() {
    let rate = bitcoin::FeeRate::from_sat_per_vb(20).unwrap();
    let value = document(
        &PsbtBumpFeeOptions {
            fee_rate: Some(fee_rate(rate.to_sat_per_kwu())),
            ..Default::default()
        }
        .to_json(),
    );

    assert_eq!(value, parsed(r#"{ "fee_rate": 20.0 }"#));
}

#[test]
fn serialize_option_fee_rate_serializes_none_as_null_without_skip() {
    let value = fee_rate_option(None);

    assert_eq!(value, parsed(r#"{ "fee_rate": null }"#));
}

#[test]
fn fee_rates_are_recovered_from_what_is_written() {
    let mut sat_per_kwu: u64 = 0;
    while sat_per_kwu <= 1_000_000_000 {
        let rate = Some(fee_rate(sat_per_kwu));
        let values = vec![
            fee_rate_option(rate),
            document(
                &WalletCreateFundedPsbtOptions { fee_rate: rate, ..Default::default() }.to_json(),
            ),
            document(&PsbtBumpFeeOptions { fee_rate: rate, ..Default::default() }.to_json()),
        ];
        for value in values {
            assert_eq!(serialized_fee_rate_sat_per_kwu(&value), sat_per_kwu);
        }
        sat_per_kwu = sat_per_kwu * 3 + 1;
    }
}

#[test]
fn fee_rate_units_agree() {
    let kvb = max_fee_rate_btc_per_kvb(fee_rate(1_250));
    assert_eq!(kvb.numerator as f64 / kvb.denominator as f64, 0.00005);
    let vb = serialize_option_fee_rate(&Some(fee_rate(1_250)));
    assert_eq!(document(&vb), Value::from(5.0));
}

#[test]
fn bitcoin_amounts_are_written_in_btc() {
    assert_eq!(
        document(&serialize_option_bitcoin(&Some(Amount { sat: 150_000_000 }))),
        Value::from(1.5)
    );
    assert_eq!(document(&serialize_option_bitcoin(&None)), Value::Null);
}

#[test]
fn default_options_are_written_as_nothing() {
    assert_eq!(document(&WalletCreateFundedPsbtOptions::default().to_json()), parsed("{}"));
    assert_eq!(document(&PsbtBumpFeeOptions::default().to_json()), parsed("{}"));
}

#[test]
fn all_funding_options_are_written() {
    let options = WalletCreateFundedPsbtOptions {
        fee_rate: Some(fee_rate(500)),
        lock_unspents: Some(false),
        conf_target: Some(6),
        replaceable: Some(true),
    };
    assert_eq!(
        document(&options.to_json()),
        parsed(
            r#"{"fee_rate":2.0,"lockUnspents":false,"conf_target":6,"replaceable":true}"#
        )
    );
}

#[test]
fn all_bumping_options_are_written() {
    let options = PsbtBumpFeeOptions {
        conf_target: Some(2),
        fee_rate: Some(fee_rate(250)),
        replaceable: Some(true),
        estimate_mode: Some("economical".to_string()),
        outputs: Some(vec![CreateRawTransactionOutput::Data { data: "00ff".to_string() }]),
        original_change_index: Some(1),
    };
    assert_eq!(
        document(&options.to_json()),
        parsed(
            r#"{"conf_target":2,"fee_rate":1.0,"replaceable":true,"estimate_mode":"economical",
                "outputs":[{"data":"00ff"}],"original_change_index":1}"#
        )
    );
}

#[test]
fn unspent_query_options_write_missing_ones_as_null() {
    let options = ListUnspentQueryOptions {
        minimum_amount: Some(Amount { sat: 1 }),
        maximum_amount: None,
        maximum_count: Some(7),
    };
    assert_eq!(
        document(&options.to_json()),
        parsed(r#"{"minimumAmount":0.00000001,"maximumAmount":null,"maximumCount":7}"#)
    );
}

#[test]
fn raw_transaction_arguments_are_written() {
    let amount = serde_json::Number::from_f64(0.25).unwrap();
    let arguments = CreateRawTransactionArguments {
        inputs: vec![
            CreateRawTransactionInput { txid: "ab".to_string(), vout: 0 },
            CreateRawTransactionInput { txid: "cd".to_string(), vout: 4294967295 },
        ],
        outputs: vec![
            CreateRawTransactionOutput::AddressAmount { address: "bc1q".to_string(), amount },
            CreateRawTransactionOutput::Data { data: "beef".to_string() },
        ],
    };
    assert_eq!(
        document(&arguments.to_json()),
        parsed(
            r#"{"inputs":[{"txid":"ab","vout":0},{"txid":"cd","vout":4294967295}],
                "outputs":[{"bc1q":0.25},{"data":"beef"}]}"#
        )
    );
}

#[test]
fn wallet_and_descriptor_arguments_are_written() {
    let wallet = CreateWalletArguments { name: "w".to_string(), load_on_startup: None };
    assert_eq!(document(&wallet.to_json()), parsed(r#"{"name":"w","load_on_startup":null}"#));
    let descriptor = ImportDescriptorInput {
        desc: "tr(x)".to_string(),
        active: Some(true),
        timestamp: "now".to_string(),
    };
    assert_eq!(
        document(&descriptor.to_json()),
        parsed(r#"{"desc":"tr(x)","active":true,"timestamp":"now"}"#)
    );
}

#[test]
fn sighash_types_are_written_under_their_names() {
    let cases = vec![
        (SighashType::Default, "DEFAULT"),
        (SighashType::All, "ALL"),
        (SighashType::NoOutputs, "NONE"),
        (SighashType::Single, "SINGLE"),
        (SighashType::AllPlusAnyoneCanPay, "ALL|ANYONECANPAY"),
        (SighashType::NonePlusAnyoneCanPay, "NONE|ANYONECANPAY"),
        (SighashType::SinglePlusAnyoneCanPay, "SINGLE|ANYONECANPAY"),
    ];
    for (sighash, name) in cases {
        assert_eq!(document(&sighash.to_json()), Value::from(name));
    }
}

const GENESIS: &str = "4a5e1e4baab89f3a32518a88c31bc87f618f76673e2cc77ab2127b7afdeda33b";

#[test]
fn transaction_ids_are_read_and_written() {
    let txid = Txid::parse(GENESIS).unwrap();
    assert_eq!(txid.hash[0], 0x3b);
    assert_eq!(txid.hash[31], 0x4a);
    assert_eq!(txid.to_text(), GENESIS);
    assert_eq!(Txid::parse(&GENESIS.to_uppercase()), Some(txid));
    assert_eq!(deserialize_txid(GENESIS), txid);
}

#[test]
fn other_text_is_no_transaction_id() {
    assert_eq!(Txid::parse(""), None);
    assert_eq!(Txid::parse(&GENESIS[1..]), None);
    assert_eq!(Txid::parse(&format!("{}0", GENESIS)), None);
    assert_eq!(Txid::parse(&GENESIS.replace('4', "g")), None);
    assert_eq!(Txid::parse(&format!("0x{}", &GENESIS[2..])), None);
    assert_eq!(Txid::parse(&"é".repeat(32)), None);
    assert_eq!(Txid::parse(&"é".repeat(64)), None);
}

#[test]
fn previous_outputs_are_written() {
    let output = PreviousTransactionOutput {
        txid: Txid::parse(GENESIS).unwrap(),
        vout: 3,
        script_pubkey: "51".to_string(),
        redeem_script: None,
        witness_script: Some("00".to_string()),
        amount: serde_json::Number::from_f64(12.5),
    };
    let value = document(&output.to_json());
    assert_eq!(value["txid"], Value::from(GENESIS));
    assert_eq!(value["vout"], Value::from(3));
    assert_eq!(value["scriptPubKey"], Value::from("51"));
    assert_eq!(value["redeemScript"], Value::Null);
    assert_eq!(value["witnessScript"], Value::from("00"));
    assert_eq!(value["amount"], Value::from(12.5));
}

#[test]
fn previous_outputs_that_differ_are_written_differently() {
    let output = PreviousTransactionOutput {
        txid: Txid::parse(GENESIS).unwrap(),
        vout: 3,
        script_pubkey: "51".to_string(),
        redeem_script: None,
        witness_script: None,
        amount: None,
    };
    let mut hash = output.txid.hash;
    hash[31] = hash[31].wrapping_add(1);
    let others = vec![
        PreviousTransactionOutput { txid: Txid { hash }, ..output.clone() },
        PreviousTransactionOutput { vout: 4, ..output.clone() },
        PreviousTransactionOutput { script_pubkey: "52".to_string(), ..output.clone() },
        PreviousTransactionOutput { redeem_script: Some(String::new()), ..output.clone() },
        PreviousTransactionOutput { witness_script: Some(String::new()), ..output.clone() },
        PreviousTransactionOutput { amount: Some(serde_json::Number::from(0)), ..output.clone() },
    ];
    let written = document(&output.to_json());
    assert_eq!(written, document(&output.clone().to_json()));
    assert_eq!(deserialize_txid(written["txid"].as_str().unwrap()), output.txid);
    for other in others {
        assert_ne!(written, document(&other.to_json()));
    }
}

#[test]
fn amounts_are_given_in_btc() {
    let amount = Amount { sat: 123_456_789 };
    let options = BroadcastOptions { max_fee_rate: None, max_burn_amount: Some(amount) };
    assert!(matches!(options.to_params()[1], Json::Btc(123_456_789)));
    assert_eq!(params(&options), vec![Value::Null, Value::from(1.23456789)]);
    assert!(matches!(serialize_option_bitcoin(&Some(amount)), Json::Btc(123_456_789)));
    assert!(matches!(serialize_option_bitcoin(&None), Json::Null));
    let query = ListUnspentQueryOptions {
        minimum_amount: Some(amount),
        maximum_amount: Some(Amount { sat: u64::MAX }),
        maximum_count: None,
    };
    match query.to_json() {
        Json::Object(members) => {
            assert!(matches!(members[0].1, Json::Btc(123_456_789)));
            assert!(matches!(members[1].1, Json::Btc(u64::MAX)));
        }
        _ => panic!("an object was expected"),
    }
}

#[test]
fn a_previous_output_is_read_back_from_its_members() {
    let output = PreviousTransactionOutput {
        txid: Txid::parse(GENESIS).unwrap(),
        vout: u32::MAX,
        script_pubkey: "51".to_string(),
        redeem_script: Some("00".to_string()),
        witness_script: None,
        amount: serde_json::Number::from_f64(0.5),
    };
    let value = document(&output.to_json());
    let text = |name: &str| value[name].as_str().map(|s| s.to_string());
    let read = PreviousTransactionOutput {
        txid: deserialize_txid(&text("txid").unwrap().to_uppercase()),
        vout: value["vout"].as_u64().unwrap() as u32,
        script_pubkey: text("scriptPubKey").unwrap(),
        redeem_script: text("redeemScript"),
        witness_script: text("witnessScript"),
        amount: value["amount"].as_f64().and_then(serde_json::Number::from_f64),
    };
    assert_eq!(read, output);
}
