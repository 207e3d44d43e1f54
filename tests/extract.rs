use linera_rest_api::error::ManagerError;
use linera_rest_api::extract::{extract_field, extract_field_flexible};

const HEX: &str = "abcdef0123456789abcdef0123456789abcdef0123456789abcdef0123456789";

fn not_found(r: Result<String, ManagerError>, label: &str) -> bool {
    match r {
        Err(ManagerError::FieldNotFound { field }) => field == label,
        _ => false,
    }
}

#[test]
fn labeled_chain_id_is_returned_trimmed() {
    let text = format!("Chain ID: {}", HEX);
    assert_eq!(extract_field_flexible(&text, "Chain ID").unwrap(), HEX);
}

#[test]
fn labeled_chain_id_ignores_blank_lines_and_spaces() {
    let text = format!("\n\n   Chain ID:    {}   \n\n", HEX);
    assert_eq!(extract_field_flexible(&text, "Chain ID").unwrap(), HEX);
}

#[test]
fn labeled_value_keeps_text_after_the_label() {
    let text = "Default owner: 0x12:34 extra\n";
    assert_eq!(extract_field_flexible(text, "Default owner").unwrap(), "0x12:34 extra");
}

#[test]
fn labeled_value_skips_repeated_colons() {
    let text = "Chain ID::: abc\r\n";
    assert_eq!(extract_field_flexible(text, "Chain ID").unwrap(), "abc");
}

#[test]
fn first_labeled_line_wins() {
    let text = "noise\nChain ID: first\nChain ID: second\n";
    assert_eq!(extract_field_flexible(text, "Chain ID").unwrap(), "first");
}

#[test]
fn empty_labeled_line_falls_through_to_later_line() {
    let text = "Chain ID:\nChain ID: later\n";
    assert_eq!(extract_field_flexible(text, "Chain ID").unwrap(), "later");
}

#[test]
fn split_strategy_takes_piece_after_first_colon() {
    let text = "key: value: more, Chain ID\n";
    assert_eq!(extract_field(text, "Chain ID").unwrap(), "value");
}

#[test]
fn split_strategy_uses_equals_without_colon() {
    let text = "Chain ID = xyz\n";
    assert_eq!(extract_field(text, "Chain ID").unwrap(), "xyz");
}

#[test]
fn split_strategy_used_when_label_ends_the_line() {
    let text = "owner: alice = Default owner\n";
    assert_eq!(extract_field_flexible(text, "Default owner").unwrap(), "alice = Default owner");
}

#[test]
fn label_with_empty_value_gives_empty_string() {
    assert_eq!(extract_field_flexible("Chain ID:\n", "Chain ID").unwrap(), "");
}

#[test]
fn bare_hex_line_found_without_label() {
    let text = format!("Wallet ready\n  {}  \nbye", HEX);
    assert_eq!(extract_field_flexible(&text, "Chain ID").unwrap(), HEX);
    assert_eq!(extract_field(&text, "Chain ID").unwrap(), HEX);
}

#[test]
fn short_hex_line_is_not_an_identifier() {
    let text = "abcdef0123\n";
    assert!(not_found(extract_field_flexible(text, "Chain ID"), "Chain ID"));
}

#[test]
fn hex_line_with_other_character_is_not_an_identifier() {
    let text = format!("{}g\n", HEX);
    assert!(not_found(extract_field(&text, "Chain ID"), "Chain ID"));
}

#[test]
fn no_label_and_no_hex_is_field_not_found() {
    let text = "hello\nworld\n";
    let r = extract_field_flexible(text, "Chain ID");
    assert!(not_found(r.clone(), "Chain ID"));
    assert_eq!(r.unwrap_err().message(), "Could not find Chain ID in output");
}

#[test]
fn empty_output_is_field_not_found() {
    assert!(not_found(extract_field("", "Chain ID"), "Chain ID"));
    assert!(not_found(extract_field_flexible("", "Chain ID"), "Chain ID"));
}

#[test]
fn non_ascii_text_is_handled_by_characters() {
    let text = "Chäin ID: ünïcode\n";
    assert_eq!(extract_field_flexible(text, "ID").unwrap(), "ünïcode");
}

#[test]
fn hex_token_within_a_line_is_found() {
    let text = format!("x {}", HEX);
    assert_eq!(extract_field_flexible(&text, "Chain ID").unwrap(), HEX);
    let text = format!("created chain\tid {} at block 7\n", HEX);
    assert_eq!(extract_field(&text, "Chain ID").unwrap(), HEX);
}

#[test]
fn first_hex_token_wins() {
    let other = "0000000000000000000000000000000000000000000000000000000000000000ff";
    let text = format!("note {} and {}\n", other, HEX);
    assert_eq!(extract_field_flexible(&text, "Chain ID").unwrap(), other);
}

#[test]
fn hex_token_glued_to_other_text_does_not_count() {
    let text = format!("id={}\n", HEX);
    assert!(not_found(extract_field_flexible(&text, "Chain ID"), "Chain ID"));
}

#[test]
fn blank_lines_around_output_change_nothing() {
    let core = format!("Chain ID: {}\nDefault owner = k1", HEX);
    let wrapped = format!(" \t\n\n{}\n\t \n", core);
    assert_eq!(extract_field_flexible(&wrapped, "Chain ID"), extract_field_flexible(&core, "Chain ID"));
    assert_eq!(extract_field(&wrapped, "Default owner"), extract_field(&core, "Default owner"));
    assert_eq!(extract_field(&wrapped, "Default owner").unwrap(), "k1");
    let missing = "nothing";
    let wrapped_missing = format!("\n{}\n  ", missing);
    assert_eq!(extract_field_flexible(&wrapped_missing, "Chain ID"), extract_field_flexible(missing, "Chain ID"));
}

#[test]
fn colon_after_white_space_is_stripped() {
    assert_eq!(extract_field_flexible("Chain ID : abc", "Chain ID").unwrap(), "abc");
    assert_eq!(extract_field_flexible("Chain ID  :: abc  \n", "Chain ID").unwrap(), "abc");
    assert_eq!(extract_field_flexible("Default owner\t: k9", "Default owner").unwrap(), "k9");
}
