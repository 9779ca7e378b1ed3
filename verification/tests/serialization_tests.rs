use solana_accountgen::serialization::{bincode as bincode_adapter, borsh as borsh_adapter};
use solana_accountgen::{Account, AccountBuilder, AccountGenError, Pubkey};

fn borsh_encode<T: borsh::BorshSerialize>(value: &T) -> Result<Vec<u8>, String> {
    borsh::to_vec(value).map_err(|error| error.to_string())
}

fn borsh_decode<T: borsh::BorshDeserialize>(bytes: &[u8]) -> Result<T, String> {
    borsh::from_slice(bytes).map_err(|error| error.to_string())
}

fn bincode_encode<T: bincode::Encode>(value: &T) -> Result<Vec<u8>, String> {
    bincode::encode_to_vec(value, bincode::config::standard()).map_err(|error| error.to_string())
}

fn bincode_decode<T: bincode::Decode<()>>(bytes: &[u8]) -> Result<(T, usize), String> {
    bincode::decode_from_slice(bytes, bincode::config::standard())
        .map_err(|error| error.to_string())
}

fn json_encode<T: serde::Serialize>(value: &T) -> Result<Vec<u8>, String> {
    serde_json::to_vec(value).map_err(|error| error.to_string())
}

fn json_decode<T: serde::de::DeserializeOwned>(bytes: &[u8]) -> Result<(T, usize), String> {
    serde_json::from_slice(bytes)
        .map(|value| (value, bytes.len()))
        .map_err(|error| error.to_string())
}

fn account_holding(encoded: Result<Vec<u8>, AccountGenError>) -> Account {
    AccountBuilder::new()
        .balance(1)
        .owner(Pubkey::new_from_array([1; 32]))
        .data_raw(encoded.unwrap())
        .build()
}

fn payloads() -> Vec<Vec<u8>> {
    vec![
        vec![],
        vec![0],
        vec![1, 2, 3, 4, 5],
        (0..=255).collect(),
        vec![0xff; 1000],
    ]
}

#[test]
fn borsh_adapter_round_trips_byte_payloads() {
    for payload in payloads() {
        let account = account_holding(borsh_adapter::serialize_data(borsh_encode(&payload)));
        let read: Vec<u8> =
            borsh_adapter::deserialize_account_data(&account, borsh_decode::<Vec<u8>>).unwrap();
        assert_eq!(read, payload);
    }
}

#[test]
fn bincode_adapter_round_trips_byte_payloads() {
    for payload in payloads() {
        let account = account_holding(bincode_adapter::serialize_data(bincode_encode(&payload)));
        let read: Vec<u8> =
            bincode_adapter::deserialize_account_data(&account, bincode_decode::<Vec<u8>>)
                .unwrap();
        assert_eq!(read, payload);
    }
}

#[test]
fn json_codec_round_trips_byte_payloads_through_the_second_adapter() {
    for payload in payloads() {
        let account = account_holding(bincode_adapter::serialize_data(json_encode(&payload)));
        let read: Vec<u8> =
            bincode_adapter::deserialize_account_data(&account, json_decode::<Vec<u8>>).unwrap();
        assert_eq!(read, payload);
    }
}

#[test]
fn adapters_round_trip_typed_payloads() {
    let value = (42u64, "Test Account".to_string(), vec![1u8, 2, 3], true);

    let account = account_holding(borsh_adapter::serialize_data(borsh_encode(&value)));
    let read: (u64, String, Vec<u8>, bool) =
        borsh_adapter::deserialize_account_data(&account, borsh_decode).unwrap();
    assert_eq!(read, value);

    let account = account_holding(bincode_adapter::serialize_data(bincode_encode(&value)));
    let read: (u64, String, Vec<u8>, bool) =
        bincode_adapter::deserialize_account_data(&account, bincode_decode).unwrap();
    assert_eq!(read, value);

    let account = account_holding(bincode_adapter::serialize_data(json_encode(&value)));
    let read: (u64, String, Vec<u8>, bool) =
        bincode_adapter::deserialize_account_data(&account, json_decode).unwrap();
    assert_eq!(read, value);
}

#[test]
fn borsh_adapter_hands_the_bytes_on_unchanged() {
    assert_eq!(
        borsh_adapter::serialize_data(borsh_encode(&42u64)),
        Ok(vec![42, 0, 0, 0, 0, 0, 0, 0])
    );
    assert_eq!(
        borsh_adapter::serialize_data(Ok(vec![9, 9])),
        Ok(vec![9, 9])
    );
    assert_eq!(
        bincode_adapter::serialize_data(bincode_encode(&42u64)),
        Ok(vec![42])
    );
}

#[test]
fn adapters_report_a_failed_encoding() {
    let failure = AccountGenError::SerializationError("too deep".to_string());
    assert_eq!(
        borsh_adapter::serialize_data(Err("too deep".to_string())),
        Err(failure.clone())
    );
    assert_eq!(
        bincode_adapter::serialize_data(Err("too deep".to_string())),
        Err(failure)
    );
}

#[test]
fn adapters_report_a_malformed_payload() {
    let account = account_holding(Ok(vec![1, 2, 3]));

    let borsh_read: Result<u64, AccountGenError> =
        borsh_adapter::deserialize_account_data(&account, borsh_decode::<u64>);
    assert!(matches!(
        borsh_read,
        Err(AccountGenError::DeserializationError(_))
    ));

    let cut_off = account_holding(Ok(vec![5, b'a']));
    let bincode_read: Result<String, AccountGenError> =
        bincode_adapter::deserialize_account_data(&cut_off, bincode_decode::<String>);
    assert!(matches!(
        bincode_read,
        Err(AccountGenError::DeserializationError(_))
    ));

    assert_eq!(
        borsh_adapter::deserialized::<u8>(Err("bad".to_string())),
        Err(AccountGenError::DeserializationError("bad".to_string()))
    );
    assert_eq!(
        bincode_adapter::deserialized::<u8>(Err("bad".to_string())),
        Err(AccountGenError::DeserializationError("bad".to_string()))
    );
}

#[test]
fn borsh_adapter_reads_the_whole_payload() {
    let account = account_holding(Ok(vec![7, 0, 0, 0, 0, 0, 0, 0, 99]));
    let seen = borsh_adapter::deserialize_account_data(
        &account,
        |bytes: &[u8]| -> Result<Vec<u8>, String> { Ok(bytes.to_vec()) },
    )
    .unwrap();
    assert_eq!(seen, account.data);

    let strict: Result<u64, AccountGenError> =
        borsh_adapter::deserialize_account_data(&account, borsh_decode::<u64>);
    assert!(strict.is_err());
}

#[test]
fn bincode_adapter_drops_the_number_of_bytes_read() {
    let account = account_holding(Ok(vec![7, 99, 98]));
    let read: u64 =
        bincode_adapter::deserialize_account_data(&account, bincode_decode::<u64>).unwrap();
    assert_eq!(read, 7);
    assert_eq!(bincode_adapter::deserialized(Ok((5u8, 1))), Ok(5u8));
}
