use stubborn_query::account::AccountIdentifier;
use stubborn_query::chain_id::ChainIdentifier;
use stubborn_query::cli::display_line;
use stubborn_query::cli::ShowCosmosKeyCmd;
use stubborn_query::error::QueryError;
use stubborn_query::messages::block_number_failure_message;
use stubborn_query::messages::chain_id_failure_message;
use stubborn_query::messages::event_nonce_failure_message;

#[test]
fn account_identifier_accepts_non_empty_text() {
    let account = AccountIdentifier::new("addr1qxy0example".to_string()).unwrap();
    assert_eq!(account.as_str(), "addr1qxy0example");
}

#[test]
fn account_identifier_rejects_empty_text() {
    let rejected = AccountIdentifier::new(String::new());
    match rejected {
        Ok(_) => panic!("an empty address must be rejected"),
        Err(e) => assert_eq!(e.detail, "account identifier must not be empty"),
    }
}

#[test]
fn chain_identifier_holds_64_bit_values_exactly() {
    let id = ChainIdentifier::from_u64(9000000000000000000);
    assert_eq!(id.low, 9000000000000000000u128);
    assert_eq!(id.high, 0);
    assert_eq!(id, ChainIdentifier::from_u128(9000000000000000000u128));
}

#[test]
fn chain_identifier_distinguishes_values() {
    assert_ne!(ChainIdentifier::from_u64(1), ChainIdentifier::from_u64(2));
}

#[test]
fn failure_messages_have_their_fixed_texts() {
    assert_eq!(
        block_number_failure_message(),
        "Failed to get latest block! Is your Eth node working?"
    );
    assert_eq!(
        chain_id_failure_message(),
        "Failed to get chain ID! Is your Eth node working?"
    );
    assert_eq!(
        event_nonce_failure_message(&QueryError::new("boom".to_string())),
        "Failed to get last event nonce, is the Cosmos GRPC working? boom"
    );
}

#[test]
fn key_name_is_the_first_argument() {
    let cmd = ShowCosmosKeyCmd {
        args: vec!["validator".to_string(), "extra".to_string()],
    };
    assert_eq!(cmd.key_name(), Some(&"validator".to_string()));
}

#[test]
fn key_name_is_missing_without_arguments() {
    let cmd = ShowCosmosKeyCmd::default();
    assert_eq!(cmd.key_name(), None);
}

#[test]
fn display_line_is_tab_separated() {
    assert_eq!(display_line("validator", "addr1qxy0example"), "validator\taddr1qxy0example");
}
