use horizon_client::account::{Account, Thresholds};
use horizon_client::balance::Balance;
use horizon_client::error::Error;
use horizon_client::json::{parse_json, Json};
use horizon_client::num::parse_u64;
use horizon_client::asset::Asset;
use horizon_client::records::Records;
use horizon_client::signer::Signer;

fn account_json() -> &'static str {
    "{\"id\":\"GCEZWKCA5VLDNRLN3RPRJMRZOX3Z6G5CHCGSNFHEYVXM3XOJMDS674JZ\",\"paging_token\":\"\",\"account_id\":\"GCEZWKCA5VLDNRLN3RPRJMRZOX3Z6G5CHCGSNFHEYVXM3XOJMDS674JZ\",\"sequence\":\"604941848674305\",\"subentry_count\":1,\"last_modified_ledger\":140917,\"thresholds\":{\"low_threshold\":0,\"med_threshold\":0,\"high_threshold\":0},\"flags\":{\"auth_required\":false,\"auth_revocable\":false,\"auth_immutable\":false},\"balances\":[{\"balance\":\"100.0000000\",\"buying_liabilities\":\"0.0000000\",\"selling_liabilities\":\"0.0000000\",\"limit\":\"100.0000000\",\"last_modified_ledger\":140993,\"asset_type\":\"credit_alphanum4\",\"asset_code\":\"USD\",\"asset_issuer\":\"GBAUUA74H4XOQYRSOW2RZUA4QL5PB37U3JS5NE3RTB2ELJVMIF5RLMAG\"}],\"signers\":[{\"weight\":1,\"key\":\"GCEZWKCA5VLDNRLN3RPRJMRZOX3Z6G5CHCGSNFHEYVXM3XOJMDS674JZ\",\"type\":\"ed25519_public_key\"}],\"data\":{}}"
}

#[test]
fn it_parses_account_from_json() {
    let account: Account = Account::from_json_text(account_json()).unwrap();
    assert_eq!(account.id_ref(), "GCEZWKCA5VLDNRLN3RPRJMRZOX3Z6G5CHCGSNFHEYVXM3XOJMDS674JZ");
    assert_eq!(account.paging_token().as_str(), "");
    assert_eq!(
        account.account_id_ref(),
        "GCEZWKCA5VLDNRLN3RPRJMRZOX3Z6G5CHCGSNFHEYVXM3XOJMDS674JZ"
    );
    assert_eq!(account.sequence(), 604941848674305);
    assert_eq!(account.subentry_count(), 1);
    assert_eq!(account.last_modified_ledger(), 140917);
    assert_eq!(*account.thresholds(), Thresholds::new(0, 0, 0));
    assert!(!account.flags().is_auth_immutable());
    assert!(!account.flags().is_auth_required());
    assert!(!account.flags().is_auth_revocable());
    assert_eq!(
        account.balances()[0],
        Balance::new(
            "100.0000000".to_string(),
            "0.0000000".to_string(),
            "0.0000000".to_string(),
            "100.0000000".to_string(),
            140993,
            "credit_alphanum4".to_string(),
            Some("USD".to_string()),
            Some("GBAUUA74H4XOQYRSOW2RZUA4QL5PB37U3JS5NE3RTB2ELJVMIF5RLMAG".to_string()),
        )
    );
    assert_eq!(
        *account.signers(),
        vec![Signer::new(
            1,
            "GCEZWKCA5VLDNRLN3RPRJMRZOX3Z6G5CHCGSNFHEYVXM3XOJMDS674JZ".to_string(),
            "ed25519_public_key".to_string()
        )]
    );
    assert!(account.data().is_empty());
}

#[test]
fn round_trip_literal_account() {
    let text = "{\"id\":\"GCEZWKCA5VLDNRLN3RPRJMRZOX3Z6G5CHCGSNFHEYVXM3XOJMDS674JZ\",\"paging_token\":\"\",\"account_id\":\"GCEZWKCA5VLDNRLN3RPRJMRZOX3Z6G5CHCGSNFHEYVXM3XOJMDS674JZ\",\"sequence\":\"604941848674305\",\"subentry_count\":1,\"last_modified_ledger\":140917,\"thresholds\":{\"low_threshold\":0,\"med_threshold\":0,\"high_threshold\":0},\"flags\":{\"auth_required\":false,\"auth_revocable\":false,\"auth_immutable\":false},\"balances\":[{\"balance\":\"100.0000000\",\"asset_type\":\"credit_alphanum4\",\"asset_code\":\"USD\",\"asset_issuer\":\"GBAUUA74H4XOQYRSOW2RZUA4QL5PB37U3JS5NE3RTB2ELJVMIF5RLMAG\",\"last_modified_ledger\":140993}],\"signers\":[{\"weight\":1,\"key\":\"GCEZWKCA5VLDNRLN3RPRJMRZOX3Z6G5CHCGSNFHEYVXM3XOJMDS674JZ\",\"type\":\"ed25519_public_key\"}],\"data\":{}}";
    let account = Account::from_json_text(text).unwrap();
    assert_eq!(account.sequence(), 604941848674305);
    assert_eq!(account.subentry_count(), 1);
    assert_eq!(
        *account.balances()[0].asset_code(),
        Some("USD".to_string())
    );
    assert_eq!(account.signers()[0].weight, 1);
    assert!(account.data().is_empty());
    // The omitted backward-compatibility fields take their zero values.
    assert_eq!(account.balances()[0].buying_liabilities().as_str(), "");
    assert_eq!(account.balances()[0].selling_liabilities().as_str(), "");
    assert_eq!(account.balances()[0].limit().as_str(), "");
}

#[test]
fn balance_defaults_when_fields_absent() {
    let text = "{\"balance\":\"5.0\",\"asset_type\":\"native\"}";
    let j = parse_json(text).unwrap();
    let b = Balance::from_json(&j).unwrap();
    assert_eq!(b.balance().as_str(), "5.0");
    assert_eq!(b.buying_liabilities().as_str(), "");
    assert_eq!(b.selling_liabilities().as_str(), "");
    assert_eq!(b.limit().as_str(), "");
    assert_eq!(*b.last_modified_ledger(), 0);
    assert_eq!(b.asset_type().as_str(), "native");
    assert_eq!(*b.asset_code(), None);
    assert_eq!(*b.asset_issuer(), None);
}

#[test]
fn balance_missing_required_field() {
    let j = parse_json("{\"asset_type\":\"native\"}").unwrap();
    assert_eq!(Balance::from_json(&j).unwrap_err(), Error::MissingField);
}

#[test]
fn balance_wrong_field_type() {
    let j = parse_json("{\"balance\":5,\"asset_type\":\"native\"}").unwrap();
    assert_eq!(Balance::from_json(&j).unwrap_err(), Error::UnexpectedType);
}

#[test]
fn balance_equality_laws() {
    let mk = || {
        Balance::new(
            "1.0".to_string(),
            "0".to_string(),
            "0".to_string(),
            "".to_string(),
            7,
            "native".to_string(),
            None,
            None,
        )
    };
    let a = mk();
    let b = mk();
    let c = mk();
    let other = Balance::new(
        "2.0".to_string(),
        "0".to_string(),
        "0".to_string(),
        "".to_string(),
        7,
        "native".to_string(),
        None,
        None,
    );
    assert!(a == a);
    assert!(a == b && b == a);
    assert!(a == b && b == c && a == c);
    assert!(a != other);
}

#[test]
fn sequence_is_decoded_from_string() {
    assert_eq!(parse_u64("604941848674305").unwrap(), 604941848674305);
    assert_eq!(parse_u64("0").unwrap(), 0);
    assert_eq!(parse_u64("007").unwrap(), 7);
    assert_eq!(parse_u64("18446744073709551615").unwrap(), u64::MAX);
}

#[test]
fn sequence_rejects_bad_strings() {
    assert_eq!(parse_u64("").unwrap_err(), Error::InvalidNumericString);
    assert_eq!(parse_u64("12a3").unwrap_err(), Error::InvalidNumericString);
    assert_eq!(parse_u64("-5").unwrap_err(), Error::InvalidNumericString);
    assert_eq!(parse_u64("+5").unwrap_err(), Error::InvalidNumericString);
    assert_eq!(
        parse_u64("18446744073709551616").unwrap_err(),
        Error::InvalidNumericString
    );
}

#[test]
fn account_bad_sequence_fails_deserialization() {
    let text = "{\"id\":\"G\",\"paging_token\":\"\",\"account_id\":\"G\",\"sequence\":\"12x\",\"subentry_count\":1,\"last_modified_ledger\":1,\"thresholds\":{\"low_threshold\":0,\"med_threshold\":0,\"high_threshold\":0},\"flags\":{\"auth_required\":false,\"auth_revocable\":false,\"auth_immutable\":false},\"balances\":[],\"signers\":[],\"data\":{}}";
    assert_eq!(
        Account::from_json_text(text).unwrap_err(),
        Error::InvalidNumericString
    );
}

#[test]
fn account_data_values_carry_base64_text() {
    let text = "{\"id\":\"G\",\"paging_token\":\"\",\"account_id\":\"G\",\"sequence\":\"1\",\"subentry_count\":0,\"last_modified_ledger\":1,\"thresholds\":{\"low_threshold\":0,\"med_threshold\":0,\"high_threshold\":0},\"flags\":{\"auth_required\":false,\"auth_revocable\":false,\"auth_immutable\":false},\"balances\":[],\"signers\":[],\"data\":{\"memo\":\"aGVsbG8=\"}}";
    let account = Account::from_json_text(text).unwrap();
    assert_eq!(account.data().len(), 1);
    assert_eq!(account.data()[0].0.as_str(), "memo");
    assert_eq!(account.data()[0].1.encoded().as_str(), "aGVsbG8=");
}

#[test]
fn json_parser_handles_structure_and_escapes() {
    let j = parse_json(" { \"a\" : [ 1 , \"x\\n\\\"y\" , null , true , false ] } ").unwrap();
    match &j {
        Json::Obj(fields) => {
            assert_eq!(fields.len(), 1);
            assert_eq!(fields[0].0.as_str(), "a");
            match &fields[0].1 {
                Json::Arr(items) => {
                    assert_eq!(items.len(), 5);
                    assert!(matches!(items[0], Json::UInt(1)));
                    match &items[1] {
                        Json::Str(s) => assert_eq!(s.as_str(), "x\n\"y"),
                        _ => panic!("expected a string"),
                    }
                    assert!(matches!(items[2], Json::Null));
                    assert!(matches!(items[3], Json::Bool(true)));
                    assert!(matches!(items[4], Json::Bool(false)));
                },
                _ => panic!("expected an array"),
            }
        },
        _ => panic!("expected an object"),
    }
}

#[test]
fn json_parser_rejects_malformed_documents() {
    assert_eq!(parse_json("").unwrap_err(), Error::Syntax);
    assert_eq!(parse_json("{").unwrap_err(), Error::Syntax);
    assert_eq!(parse_json("{}tail").unwrap_err(), Error::Syntax);
    assert_eq!(parse_json("[1,]").unwrap_err(), Error::Syntax);
    assert_eq!(parse_json("\"unterminated").unwrap_err(), Error::Syntax);
    assert_eq!(parse_json("-5").unwrap_err(), Error::Syntax);
    assert_eq!(parse_json("1.5").unwrap_err(), Error::Syntax);
    assert_eq!(parse_json("18446744073709551616").unwrap_err(), Error::Syntax);
}

#[test]
fn signer_requires_all_fields() {
    let j = parse_json("{\"weight\":1,\"key\":\"K\"}").unwrap();
    assert_eq!(Signer::from_json(&j).unwrap_err(), Error::MissingField);
    let j = parse_json("{\"weight\":1,\"key\":\"K\",\"type\":\"t\"}").unwrap();
    let s = Signer::from_json(&j).unwrap();
    assert_eq!(s.weight, 1);
    assert_eq!(s.key().as_str(), "K");
    assert_eq!(s.signer_type().as_str(), "t");
    let j = parse_json("{\"weight\":4294967296,\"key\":\"K\",\"type\":\"t\"}").unwrap();
    assert_eq!(Signer::from_json(&j).unwrap_err(), Error::UnexpectedType);
}

#[test]
fn records_page_deserializes_assets() {
    let text = "{\"_embedded\":{\"records\":[{\"asset_type\":\"credit_alphanum4\",\"asset_code\":\"USD\",\"asset_issuer\":\"GBAUUA74H4XOQYRSOW2RZUA4QL5PB37U3JS5NE3RTB2ELJVMIF5RLMAG\",\"amount\":\"100.0000000\",\"num_accounts\":3,\"paging_token\":\"USD_1\"}]}}";
    let j = parse_json(text).unwrap();
    let page: Records<Asset> = Records::from_json(&j).unwrap();
    assert_eq!(page.records().len(), 1);
    assert_eq!(page.records()[0].asset_type().as_str(), "credit_alphanum4");
    assert_eq!(page.records()[0].asset_code().as_str(), "USD");
    assert_eq!(page.records()[0].num_accounts(), 3);
    assert_eq!(page.records()[0].paging_token().as_str(), "USD_1");
}

#[test]
fn records_page_requires_embedded_records() {
    let j = parse_json("{\"records\":[]}").unwrap();
    let r: Result<Records<Asset>, Error> = Records::from_json(&j);
    assert_eq!(r.unwrap_err(), Error::MissingField);
}
