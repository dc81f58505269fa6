use snarkos_node::bulletin::{notification_message, BULLETIN};

#[test]
fn bulletin_is_the_published_text() {
    let text = notification_message();
    assert_eq!(text, BULLETIN);
    assert_eq!(text.chars().count(), 2009);
    assert!(text.starts_with(
        "\n\n ==================================================================================================\n\n"
    ));
    assert!(text.ends_with(
        "    - There are NO INCENTIVES during this calibration period.\n\n ==================================================================================================\n"
    ));
}

#[test]
fn bulletin_holds_its_headline_and_instructions() {
    let text = notification_message();
    assert!(text.contains(
        "                     \u{1f6a7} Welcome to Aleo Testnet 3 Phase 3 - Calibration Period \u{1f6a7}\n"
    ));
    assert!(text.contains("    - Start Date: September 27, 2023\n"));
    assert!(text.contains("    - End Date: October 18, 2023 (subject to change)\n"));
    assert!(text.contains("        - git checkout testnet3 && git pull\n"));
    assert!(text.contains("        - cargo install --path .\n"));
    assert!(text.contains("        - snarkos clean\n"));
    assert!(text.contains("        - snarkos start --nodisplay --client\n"));
    assert!(text.contains("stability, and interoperability under varying network conditions."));
    assert_eq!(text.lines().count(), 47);
}

#[test]
fn bulletin_carries_no_terminal_escapes() {
    let text = notification_message();
    assert!(!text.contains('\u{1b}'));
    assert_eq!(text.matches('\u{1f6a7}').count(), 2);
}

#[test]
fn bulletin_is_the_same_every_time() {
    assert_eq!(notification_message(), notification_message());
}
