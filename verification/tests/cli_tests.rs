use solana_accountgen::cli::{generate, parse_format, GenerateError, Generated, OutputFormat};
use solana_accountgen::{Account, AccountGenError};
use std::str::FromStr;

fn ledger_account(account: &Account) -> solana_account::Account {
    solana_account::Account {
        lamports: account.lamports,
        data: account.data.clone(),
        owner: solana_pubkey::Pubkey::new_from_array(account.owner.to_bytes()),
        executable: account.executable,
        rent_epoch: account.rent_epoch,
    }
}

#[allow(deprecated)]
fn printed(generated: &Generated) -> String {
    let account = ledger_account(&generated.account);
    match generated.format {
        OutputFormat::Json => serde_json::to_string_pretty(&account).unwrap(),
        OutputFormat::Base64 => base64::encode(serde_json::to_vec(&account).unwrap()),
    }
}

#[test]
#[allow(deprecated)]
fn test_cli_base64_output() {
    let owner = "11111111111111111111111111111111";
    let owner_pubkey = solana_pubkey::Pubkey::from_str(owner).unwrap();

    let generated = generate(1000000, owner, false, "base64", None).unwrap();
    let base64_output = printed(&generated).trim().to_string();

    let decoded_bytes = base64::decode(&base64_output).unwrap();
    let decoded_account: solana_account::Account = serde_json::from_slice(&decoded_bytes).unwrap();

    assert_eq!(decoded_account.lamports, 1000000);
    assert_eq!(decoded_account.owner, owner_pubkey);
    assert_eq!(decoded_account.executable, false);
}

#[test]
#[allow(deprecated)]
fn test_cli_base64_output_with_data() {
    let owner = "11111111111111111111111111111111";
    let owner_pubkey = solana_pubkey::Pubkey::from_str(owner).unwrap();

    let generated = generate(1000000, owner, false, "base64", Some("0102030405")).unwrap();
    let base64_output = printed(&generated).trim().to_string();

    let decoded_bytes = base64::decode(&base64_output).unwrap();
    let decoded_account: solana_account::Account = serde_json::from_slice(&decoded_bytes).unwrap();

    assert_eq!(decoded_account.lamports, 1000000);
    assert_eq!(decoded_account.owner, owner_pubkey);
    assert_eq!(decoded_account.executable, false);
    assert_eq!(decoded_account.data, vec![1, 2, 3, 4, 5]);
}

#[test]
fn generate_builds_the_account_of_its_arguments() {
    let owner = "SysvarRent111111111111111111111111111111111";
    let generated = generate(7, owner, true, "json", Some("00ffAbcD")).unwrap();
    assert_eq!(generated.format, OutputFormat::Json);
    assert_eq!(generated.account.lamports, 7);
    assert_eq!(
        generated.account.owner.to_bytes(),
        solana_pubkey::Pubkey::from_str(owner).unwrap().to_bytes()
    );
    assert_ne!(generated.account.owner.to_bytes(), [0; 32]);
    assert!(generated.account.executable);
    assert_eq!(generated.account.rent_epoch, 0);
    assert_eq!(generated.account.data, vec![0x00, 0xff, 0xab, 0xcd]);

    let json: serde_json::Value = serde_json::from_str(&printed(&generated)).unwrap();
    assert_eq!(json["lamports"], 7);
    assert_eq!(json["executable"], true);
}

#[test]
fn generate_without_data_builds_an_empty_payload() {
    let generated = generate(0, "11111111111111111111111111111111", false, "json", None).unwrap();
    assert_eq!(generated.account.data, Vec::<u8>::new());
    assert_eq!(generated.account.lamports, 0);
    assert_eq!(generated.account.owner.to_bytes(), [0; 32]);

    let empty = generate(0, "11111111111111111111111111111111", false, "json", Some("")).unwrap();
    assert_eq!(empty.account.data, Vec::<u8>::new());
}

#[test]
fn generate_rejects_an_owner_that_is_no_address() {
    for owner in ["", "not an address", "1111", "0OIl"] {
        let result = generate(1, owner, false, "json", None);
        assert!(matches!(result, Err(GenerateError::InvalidOwner(_))));
    }
}

#[test]
fn generate_rejects_data_that_is_not_hexadecimal() {
    for data in ["123", "zz", "0g", "é9"] {
        let result = generate(
            1,
            "11111111111111111111111111111111",
            false,
            "json",
            Some(data),
        );
        assert!(matches!(
            result,
            Err(GenerateError::Account(
                AccountGenError::InvalidDataFormat(_)
            ))
        ));
    }
}

#[test]
fn generate_rejects_an_unsupported_format() {
    for format in ["yaml", "JSON", "", "base64 "] {
        let result = generate(1, "11111111111111111111111111111111", false, format, None);
        assert_eq!(
            result.err(),
            Some(GenerateError::UnsupportedFormat(format.to_string()))
        );
    }
}

#[test]
fn generate_reports_the_first_bad_argument() {
    let owner_first = generate(1, "bad owner", false, "yaml", Some("zz"));
    assert!(matches!(owner_first, Err(GenerateError::InvalidOwner(_))));

    let data_second = generate(
        1,
        "11111111111111111111111111111111",
        false,
        "yaml",
        Some("zz"),
    );
    assert!(matches!(data_second, Err(GenerateError::Account(_))));
}

#[test]
fn formats_are_named_json_and_base64() {
    assert_eq!(parse_format("json"), Some(OutputFormat::Json));
    assert_eq!(parse_format("base64"), Some(OutputFormat::Base64));
    assert_eq!(parse_format("Json"), None);
    assert_eq!(parse_format("jso"), None);
    assert_eq!(parse_format(""), None);
}
