use summits::address::standardize_address;
use summits::mint_filter::entry_function_id_matches;
use summits::mint_filter::first_token_address;
use summits::mint_filter::Change;
use summits::mint_filter::EntryFunctionId;
use summits::mint_filter::MalformedTransaction;
use summits::mint_filter::MoveModuleId;
use summits::mint_filter::Payload;
use summits::mint_filter::SummitsProcessorConfig;
use summits::mint_filter::Transaction;
use summits::mint_filter::TransactionInfo;
use summits::mint_filter::TransactionPayload;
use summits::mint_filter::TxnData;
use summits::mint_filter::UserTransactionRequest;
use summits::mint_filter::WriteSetChange;

const CONTRACT: &str = "0xc0ffee";

fn config() -> SummitsProcessorConfig {
    SummitsProcessorConfig { contract_address: CONTRACT.to_string() }
}

fn function(address: &str, module: &str, name: &str) -> EntryFunctionId {
    EntryFunctionId {
        module: Some(MoveModuleId { address: address.to_string(), name: module.to_string() }),
        name: name.to_string(),
    }
}

fn call(function: Option<EntryFunctionId>) -> Option<TxnData> {
    Some(TxnData::User {
        request: Some(UserTransactionRequest {
            payload: Some(TransactionPayload {
                payload: Some(Payload::EntryFunction { function }),
            }),
        }),
    })
}

fn write(address: &str, type_str: &str) -> WriteSetChange {
    WriteSetChange {
        change: Some(Change::WriteResource {
            address: address.to_string(),
            type_str: type_str.to_string(),
        }),
    }
}

fn token_write(address: &str) -> WriteSetChange {
    write(address, "0x4::token::Token")
}

fn txn(
    version: u64,
    success: bool,
    function: EntryFunctionId,
    changes: Vec<WriteSetChange>,
) -> Transaction {
    Transaction {
        version,
        info: Some(TransactionInfo { success, changes }),
        txn_data: call(Some(function)),
    }
}

fn mint() -> EntryFunctionId {
    function(CONTRACT, "summits_token", "mint")
}

#[test]
fn successful_mint_yields_one_event_with_canonical_address() {
    let batch = vec![txn(7, true, mint(), vec![token_write("0xabc")])];
    let events = config().extract_mint_events(&batch).unwrap();
    assert_eq!(events.len(), 1);
    assert_eq!(events[0].token_address, standardize_address("0xabc"));
    assert_eq!(
        events[0].token_address,
        "0x0000000000000000000000000000000000000000000000000000000000000abc"
    );
    assert_eq!(events[0].stream_version, 7);
}

#[test]
fn unsuccessful_mint_yields_nothing() {
    let batch = vec![txn(7, false, mint(), vec![token_write("0xabc")])];
    assert!(config().extract_mint_events(&batch).unwrap().is_empty());
    assert_eq!(config().token_to_write(&batch[0]), Ok(None));
}

#[test]
fn other_function_yields_nothing() {
    let burn = function(CONTRACT, "summits_token", "burn");
    let batch = vec![txn(7, true, burn, vec![token_write("0xabc")])];
    assert!(config().extract_mint_events(&batch).unwrap().is_empty());
}

#[test]
fn other_module_or_contract_yields_nothing() {
    let other_module = function(CONTRACT, "other_token", "mint");
    let other_contract = function("0xdead", "summits_token", "mint");
    let no_module = EntryFunctionId { module: None, name: "mint".to_string() };
    for f in [other_module, other_contract, no_module] {
        let batch = vec![txn(1, true, f, vec![token_write("0xabc")])];
        assert!(config().extract_mint_events(&batch).unwrap().is_empty());
    }
}

#[test]
fn contract_address_is_compared_as_written() {
    let padded = function(&standardize_address(CONTRACT), "summits_token", "mint");
    let batch = vec![txn(1, true, padded, vec![token_write("0xabc")])];
    assert!(config().extract_mint_events(&batch).unwrap().is_empty());
}

#[test]
fn mint_without_token_write_yields_nothing() {
    let batch = vec![
        txn(1, true, mint(), vec![]),
        txn(2, true, mint(), vec![write("0xabc", "0x1::coin::CoinStore")]),
        txn(3, true, mint(), vec![WriteSetChange { change: None }]),
        txn(4, true, mint(), vec![WriteSetChange { change: Some(Change::Other) }]),
    ];
    assert!(config().extract_mint_events(&batch).unwrap().is_empty());
}

#[test]
fn first_token_write_wins() {
    let changes = vec![
        WriteSetChange { change: None },
        write("0x1", "0x1::object::ObjectCore"),
        token_write("0x2"),
        token_write("0x3"),
    ];
    assert_eq!(first_token_address(&changes), Some(standardize_address("0x2")));
    assert_eq!(first_token_address(&Vec::new()), None);
}

#[test]
fn events_keep_transaction_order() {
    let batch = vec![
        txn(10, true, mint(), vec![token_write("0x3")]),
        txn(11, false, mint(), vec![token_write("0x9")]),
        txn(12, true, mint(), vec![token_write("0x1")]),
        txn(13, true, function(CONTRACT, "summits_token", "transfer"), vec![token_write("0x8")]),
        txn(14, true, mint(), vec![token_write("0x2")]),
    ];
    let events = config().extract_mint_events(&batch).unwrap();
    let got: Vec<(String, u64)> =
        events.into_iter().map(|e| (e.token_address, e.stream_version)).collect();
    assert_eq!(
        got,
        vec![
            (standardize_address("0x3"), 10),
            (standardize_address("0x1"), 12),
            (standardize_address("0x2"), 14),
        ]
    );
}

#[test]
fn empty_batch_has_no_events() {
    assert!(config().extract_mint_events(&Vec::new()).unwrap().is_empty());
}

#[test]
fn same_token_twice_gives_two_events() {
    let batch = vec![
        txn(1, true, mint(), vec![token_write("0x5")]),
        txn(2, true, mint(), vec![token_write("0x5")]),
    ];
    assert_eq!(config().extract_mint_events(&batch).unwrap().len(), 2);
}

#[test]
fn non_user_transaction_and_other_payload_are_no_mints() {
    let system = Transaction {
        version: 1,
        info: Some(TransactionInfo { success: true, changes: vec![token_write("0x1")] }),
        txn_data: Some(TxnData::Other),
    };
    let script = Transaction {
        version: 2,
        info: Some(TransactionInfo { success: true, changes: vec![token_write("0x1")] }),
        txn_data: Some(TxnData::User {
            request: Some(UserTransactionRequest {
                payload: Some(TransactionPayload { payload: Some(Payload::Other) }),
            }),
        }),
    };
    assert_eq!(entry_function_id_matches(&system, &mint()), Ok(false));
    assert_eq!(entry_function_id_matches(&script, &mint()), Ok(false));
    assert!(config().extract_mint_events(&vec![system, script]).unwrap().is_empty());
}

#[test]
fn matching_compares_module_and_name() {
    let t = txn(1, true, mint(), vec![]);
    assert_eq!(entry_function_id_matches(&t, &mint()), Ok(true));
    assert_eq!(
        entry_function_id_matches(&t, &function(CONTRACT, "summits_token", "Mint")),
        Ok(false)
    );
    assert_eq!(
        entry_function_id_matches(&t, &EntryFunctionId { module: None, name: "mint".to_string() }),
        Ok(false)
    );
    assert_eq!(config().mint_function_id().name, "mint");
    let module = config().mint_function_id().module.unwrap();
    assert_eq!(module.address, CONTRACT);
    assert_eq!(module.name, "summits_token");
}

fn with_data(txn_data: Option<TxnData>) -> Transaction {
    Transaction {
        version: 1,
        info: Some(TransactionInfo { success: true, changes: vec![token_write("0x1")] }),
        txn_data,
    }
}

#[test]
fn missing_txn_data_is_malformed() {
    let t = with_data(None);
    assert_eq!(entry_function_id_matches(&t, &mint()), Err(MalformedTransaction::NoTxnData));
    assert_eq!(config().get_tokens_to_write(&t), Err(MalformedTransaction::NoTxnData));
    assert_eq!(
        config().extract_mint_events(&vec![t]).unwrap_err(),
        MalformedTransaction::NoTxnData
    );
}

#[test]
fn missing_request_is_malformed() {
    let t = with_data(Some(TxnData::User { request: None }));
    assert_eq!(config().token_to_write(&t), Err(MalformedTransaction::NoRequest));
}

#[test]
fn missing_payload_is_malformed() {
    let outer = with_data(Some(TxnData::User {
        request: Some(UserTransactionRequest { payload: None }),
    }));
    let inner = with_data(Some(TxnData::User {
        request: Some(UserTransactionRequest {
            payload: Some(TransactionPayload { payload: None }),
        }),
    }));
    assert_eq!(config().token_to_write(&outer), Err(MalformedTransaction::NoPayload));
    assert_eq!(config().token_to_write(&inner), Err(MalformedTransaction::NoPayload));
}

#[test]
fn missing_function_is_malformed() {
    let t = with_data(call(None));
    assert_eq!(config().token_to_write(&t), Err(MalformedTransaction::NoFunction));
}

#[test]
fn failed_transaction_is_skipped_before_its_shape_is_read() {
    let mut t = with_data(None);
    t.info = Some(TransactionInfo { success: false, changes: vec![] });
    assert_eq!(config().token_to_write(&t), Ok(None));
    assert!(config().extract_mint_events(&vec![t]).unwrap().is_empty());
}

#[test]
fn first_malformed_transaction_fails_the_batch() {
    let batch = vec![
        txn(1, true, mint(), vec![token_write("0x1")]),
        with_data(Some(TxnData::User { request: None })),
        with_data(None),
    ];
    assert_eq!(
        config().extract_mint_events(&batch).unwrap_err(),
        MalformedTransaction::NoRequest
    );
}

#[test]
fn mint_without_info_yields_nothing() {
    let t = Transaction { version: 1, info: None, txn_data: call(Some(mint())) };
    assert_eq!(config().token_to_write(&t), Ok(None));
    let malformed = Transaction { version: 1, info: None, txn_data: None };
    assert_eq!(config().token_to_write(&malformed), Err(MalformedTransaction::NoTxnData));
}

#[test]
fn malformed_transactions_can_be_passed_over() {
    let mut broken = with_data(Some(TxnData::User { request: None }));
    broken.version = 2;
    let mut headless = with_data(None);
    headless.version = 4;
    let batch = vec![
        txn(1, true, mint(), vec![token_write("0x1")]),
        broken,
        txn(3, true, mint(), vec![token_write("0x3")]),
        headless,
        txn(5, false, mint(), vec![token_write("0x5")]),
    ];
    let (events, skipped) = config().extract_mint_events_skipping(&batch);
    let got: Vec<(String, u64)> =
        events.into_iter().map(|e| (e.token_address, e.stream_version)).collect();
    assert_eq!(got, vec![(standardize_address("0x1"), 1), (standardize_address("0x3"), 3)]);
    assert_eq!(skipped, vec![2, 4]);
}

#[test]
fn passing_over_changes_nothing_on_a_sound_batch() {
    let batch = vec![
        txn(1, true, mint(), vec![token_write("0x1")]),
        txn(2, true, function(CONTRACT, "summits_token", "burn"), vec![]),
        txn(3, true, mint(), vec![token_write("0x3")]),
    ];
    let strict = config().extract_mint_events(&batch).unwrap();
    let (lenient, skipped) = config().extract_mint_events_skipping(&batch);
    assert!(skipped.is_empty());
    assert_eq!(strict.len(), lenient.len());
    for (a, b) in strict.iter().zip(lenient.iter()) {
        assert_eq!(a.token_address, b.token_address);
        assert_eq!(a.stream_version, b.stream_version);
    }
}
