use backend::handlers::{get_balance, get_internal_transactions, get_transactions, Failure};
use backend::json::JsonValue;
use backend::models::{EtherscanResponse, Transaction};

const SAMPLE: &str = "0x742d35Cc6634C0532925a3b844Bc454e4438f44e";

fn document(value: serde_json::Value) -> JsonValue {
    match value {
        serde_json::Value::Null => JsonValue::Null,
        serde_json::Value::Bool(flag) => JsonValue::Bool(flag),
        serde_json::Value::Number(number) => JsonValue::Number(number.to_string()),
        serde_json::Value::String(text) => JsonValue::Text(text),
        serde_json::Value::Array(items) => {
            JsonValue::Array(items.into_iter().map(document).collect())
        }
        serde_json::Value::Object(entries) => JsonValue::Object(
            entries.into_iter().map(|(name, item)| (name, document(item))).collect(),
        ),
    }
}

fn reply(body: &str) -> Result<EtherscanResponse, Failure> {
    let parsed: serde_json::Value = serde_json::from_str(body).map_err(|_| Failure::Parse)?;
    let status = parsed.get("status").and_then(|s| s.as_str()).ok_or(Failure::Parse)?;
    let result = parsed.get("result").ok_or(Failure::Parse)?;
    Ok(EtherscanResponse { status: status.to_string(), result: document(result.clone()) })
}

fn to_eth(wei: &str) -> String {
    let wei_value: f64 = wei.parse().unwrap_or(0.0);
    format!("{:.6}", wei_value / 1e18)
}

#[test]
fn answers_a_balance_from_a_body_of_upstream() {
    let body = r#"{"status":"1","message":"OK","result":"40891626854930000000000"}"#;
    let answer = get_balance(SAMPLE.to_string(), reply(body), to_eth);
    assert_eq!(answer.address, SAMPLE);
    assert_eq!(answer.balance_wei, "40891626854930000000000");
    assert_eq!(answer.balance_eth, "40891.626855");
}

#[test]
fn answers_zero_from_a_body_that_reports_an_error() {
    let body = r#"{"status":"0","message":"NOTOK","result":"Max rate limit reached"}"#;
    let answer = get_balance(SAMPLE.to_string(), reply(body), to_eth);
    assert_eq!(answer.balance_wei, "0");
    assert_eq!(answer.balance_eth, "0.000000");
}

#[test]
fn answers_zero_from_a_body_that_is_no_json() {
    let answer = get_balance(SAMPLE.to_string(), reply("<html>502</html>"), to_eth);
    assert_eq!(answer.balance_wei, "0");
    assert_eq!(answer.balance_eth, "0.000000");
    assert_eq!(get_transactions(SAMPLE, reply("")), Vec::new());
}

#[test]
fn answers_transactions_from_a_body_of_upstream() {
    let body = r#"{
        "status": "1",
        "message": "OK",
        "result": [
            {
                "blockNumber": "14923692",
                "timeStamp": "1654646570",
                "hash": "0xc52783ad354aecc04c670047754f062e3d6d04e8f5b24774472651f9c3882c60",
                "nonce": "1",
                "blockHash": "0x7e1638fd2c6bdd05ffd83c1cf06c63e2f67d0f802084bef076d06bdcf86d1bb0",
                "transactionIndex": "61",
                "from": "0x9aa99c23f67c81701c772b106b4f83f6e858dd2e",
                "to": "0x742d35cc6634c0532925a3b844bc454e4438f44e",
                "value": "11000000000000000",
                "gas": "21000",
                "gasPrice": "55095906565",
                "isError": "0",
                "txreceipt_status": "1",
                "input": "0x",
                "contractAddress": "",
                "cumulativeGasUsed": "8188269",
                "gasUsed": "21000",
                "confirmations": "6145843",
                "methodId": "0x",
                "functionName": ""
            },
            {
                "blockNumber": "14923678",
                "timeStamp": "1654646411",
                "hash": "0xaa45b4858ba44230a5fce5a29570a5dec2bf1f0ba95bacdec4fe8f2c4fa99338",
                "from": "0x742d35cc6634c0532925a3b844bc454e4438f44e",
                "to": "",
                "value": "0",
                "gas": "6000000",
                "gasPrice": "83924748773",
                "gasUsed": "4457269",
                "confirmations": 6145857,
                "isError": false,
                "logs": [{"topic": null}]
            }
        ]
    }"#;
    let expected = vec![
        Transaction {
            hash: "0xc52783ad354aecc04c670047754f062e3d6d04e8f5b24774472651f9c3882c60"
                .to_string(),
            from: "0x9aa99c23f67c81701c772b106b4f83f6e858dd2e".to_string(),
            to: "0x742d35cc6634c0532925a3b844bc454e4438f44e".to_string(),
            value: "11000000000000000".to_string(),
            timestamp: "1654646570".to_string(),
            block_number: "14923692".to_string(),
            gas: "21000".to_string(),
            gas_price: "55095906565".to_string(),
            gas_used: "21000".to_string(),
        },
        Transaction {
            hash: "0xaa45b4858ba44230a5fce5a29570a5dec2bf1f0ba95bacdec4fe8f2c4fa99338"
                .to_string(),
            from: "0x742d35cc6634c0532925a3b844bc454e4438f44e".to_string(),
            to: String::new(),
            value: "0".to_string(),
            timestamp: "1654646411".to_string(),
            block_number: "14923678".to_string(),
            gas: "6000000".to_string(),
            gas_price: "83924748773".to_string(),
            gas_used: "4457269".to_string(),
        },
    ];
    assert_eq!(get_transactions(SAMPLE, reply(body)), expected);
    assert_eq!(get_internal_transactions(SAMPLE, reply(body)), expected);
}

#[test]
fn answers_the_empty_list_from_a_body_that_reports_an_error() {
    let body = r#"{"status":"0","message":"No transactions found","result":[]}"#;
    assert_eq!(get_transactions(SAMPLE, reply(body)), Vec::new());
    let body = r#"{"status":"0","message":"NOTOK","result":"Max rate limit reached"}"#;
    assert_eq!(get_transactions(SAMPLE, reply(body)), Vec::new());
}

#[test]
fn answers_the_empty_list_from_records_without_a_gas_price() {
    let body = r#"{
        "status": "1",
        "message": "OK",
        "result": [
            {
                "blockNumber": "2535368",
                "timeStamp": "1477837690",
                "hash": "0x8a1a9989bda84f80143181a68bc137ecefa64d0d4ebde45dd94fc0cf49e70cb6",
                "from": "0x20d42f2e99a421147acf198d775395cac2e8b03d",
                "to": "",
                "value": "0",
                "contractAddress": "0x2c1ba59d6f58433fb1eaee7d20b26ed83bda51a3",
                "input": "",
                "type": "create",
                "gas": "254791",
                "gasUsed": "46750",
                "traceId": "0",
                "isError": "0",
                "errCode": ""
            }
        ]
    }"#;
    assert_eq!(get_internal_transactions(SAMPLE, reply(body)), Vec::new());
}

#[test]
fn answers_the_empty_list_from_a_field_that_is_a_number() {
    let body = r#"{"status":"1","result":[{"blockNumber":14923692,"timeStamp":"1","hash":"h",
        "from":"f","to":"t","value":"v","gas":"g","gasPrice":"p","gasUsed":"u"}]}"#;
    assert_eq!(get_transactions(SAMPLE, reply(body)), Vec::new());
}
