//! Card content: each card says exactly what the signer's state calls for.

use liana_signers::card;

#[test]
fn locked_card_shows_the_pairing_code() {
    let c = card::locked_hardware_wallet("Acme One".to_string(), Some("9876".to_string()));
    assert_eq!(c.header, vec!["Locked, check code:".to_string(), "9876".to_string()]);
    assert_eq!(c.caption, vec!["Acme One".to_string()]);
    assert!(c.tooltip.is_none());
    assert!(!c.success_mark);

    let c = card::locked_hardware_wallet("Acme One".to_string(), None);
    assert_eq!(c.header, vec!["Locked".to_string()]);
}

#[test]
fn supported_card_names_alias_fingerprint_kind_and_version() {
    let c = card::supported_hardware_wallet(
        "Acme One".to_string(),
        Some("2.1.0".to_string()),
        "f00dbabe".to_string(),
        Some("treasury".to_string()),
    );
    assert_eq!(c.header, vec!["treasury".to_string(), "#f00dbabe".to_string()]);
    assert_eq!(c.caption, vec!["Acme One".to_string(), "2.1.0".to_string()]);
    assert!(c.trailing.is_empty());
}

#[test]
fn unrelated_card_explains_itself() {
    let c = card::unrelated_hardware_wallet(
        "Acme One".to_string(),
        None,
        "f00dbabe".to_string(),
    );
    assert_eq!(c.header, vec!["#f00dbabe".to_string()]);
    assert_eq!(c.caption, vec!["Acme One".to_string()]);
    assert_eq!(
        c.body,
        vec!["This signing device is not related to this Liana wallet.".to_string()]
    );
    assert!(!c.success_mark);
}

#[test]
fn unsupported_version_card_asks_for_the_required_version() {
    let c = card::unsupported_version_hardware_wallet(
        "Acme One".to_string(),
        Some("1.9.3".to_string()),
        "2.0.0".to_string(),
    );
    assert_eq!(
        c.header,
        vec![
            "Unsupported firmware version".to_string(),
            "Install version 2.0.0 or later".to_string()
        ]
    );
    assert_eq!(c.tooltip.as_deref(), Some("Please upgrade firmware"));
}

#[test]
fn wrong_network_card_warns() {
    let c = card::wrong_network_hardware_wallet("Acme One".to_string(), None);
    assert_eq!(c.header, vec!["Wrong network in the device settings".to_string()]);
    assert_eq!(
        c.tooltip.as_deref(),
        Some(
            "The wrong bitcoin application is open or the device was initialized with the wrong network"
        )
    );
}

#[test]
fn connection_error_card_warns() {
    let c = card::unsupported_hardware_wallet("Acme One".to_string(), None);
    assert_eq!(c.header, vec!["Connection error".to_string()]);
    assert_eq!(
        c.tooltip.as_deref(),
        Some("Make sure your device is unlocked and a supported Bitcoin application is opened.")
    );
}

#[test]
fn processing_card_asks_to_check_the_device() {
    let c = card::processing_hardware_wallet(
        "Acme One".to_string(),
        None,
        "f00d".to_string(),
        None,
    );
    assert_eq!(
        c.trailing,
        vec!["Processing...".to_string(), "Please check your device".to_string()]
    );
    assert!(!c.success_mark);
}

#[test]
fn success_cards_carry_the_mark() {
    let c = card::sign_success_hardware_wallet(
        "Acme One".to_string(),
        None,
        "f00d".to_string(),
        None,
    );
    assert_eq!(c.trailing, vec!["Signed".to_string()]);
    assert!(c.success_mark);

    let c = card::registration_success_hardware_wallet(
        "Acme One".to_string(),
        None,
        "f00d".to_string(),
        None,
    );
    assert_eq!(c.trailing, vec!["Registered".to_string()]);
    assert!(c.success_mark);

    let c = card::selected_hardware_wallet(
        "Acme One".to_string(),
        None,
        "f00d".to_string(),
        None,
        Some("unsteady link".to_string()),
    );
    assert!(c.success_mark);
    assert_eq!(c.tooltip.as_deref(), Some("unsteady link"));
}

#[test]
fn hot_signer_cards_name_this_computer() {
    let c = card::hot_signer("f00d".to_string(), Some("day key".to_string()), true);
    assert_eq!(c.header, vec!["day key".to_string(), "#f00d".to_string()]);
    assert_eq!(c.caption, vec!["This computer".to_string()]);
    assert!(c.body.is_empty());

    let c = card::hot_signer("f00d".to_string(), None, false);
    assert_eq!(
        c.body,
        vec!["This hot signer is not part of this spending path.".to_string()]
    );

    let c = card::selected_hot_signer("f00d".to_string(), None);
    assert_eq!(
        c.caption,
        vec![
            "This computer".to_string(),
            "(A derived key from a mnemonic stored locally)".to_string()
        ]
    );
    assert!(c.success_mark);

    let c = card::unselected_hot_signer("f00d".to_string(), None);
    assert!(!c.success_mark);

    let c = card::sign_success_hot_signer("f00d".to_string(), None);
    assert_eq!(c.trailing, vec!["Signed".to_string()]);
    assert!(c.success_mark);
}

#[test]
fn provider_key_cards_show_kind_and_token() {
    let c = card::selected_provider_key(
        "f00d".to_string(),
        "cosigner".to_string(),
        "Safety Net".to_string(),
        "tok-1".to_string(),
    );
    assert_eq!(c.header, vec!["cosigner".to_string(), "#f00d".to_string()]);
    assert_eq!(c.caption, vec!["Safety Net (tok-1)".to_string()]);
    assert!(c.success_mark);

    let c = card::unselected_provider_key(
        "f00d".to_string(),
        "cosigner".to_string(),
        "Safety Net".to_string(),
        "tok-1".to_string(),
    );
    assert!(!c.success_mark);

    let c = card::unsaved_provider_key(
        "f00d".to_string(),
        "Safety Net".to_string(),
        "tok-1".to_string(),
    );
    assert_eq!(c.header, vec!["#f00d".to_string()]);
    assert!(c.success_mark);
}

#[test]
fn warning_and_disabled_and_unimplemented_cards() {
    let c = card::warning_hardware_wallet(
        "Acme One".to_string(),
        Some("2.0.0".to_string()),
        "f00d".to_string(),
        None,
        "registration failed".to_string(),
    );
    assert_eq!(c.tooltip.as_deref(), Some("registration failed"));

    let c = card::disabled_hardware_wallet(
        "Acme One".to_string(),
        None,
        "f00d".to_string(),
        "temporarily unusable".to_string(),
    );
    assert_eq!(c.body, vec!["temporarily unusable".to_string()]);

    let c = card::unimplemented_method_hardware_wallet(
        "Acme One".to_string(),
        None,
        "f00d".to_string(),
        "this device cannot display addresses".to_string(),
    );
    assert_eq!(c.tooltip.as_deref(), Some("this device cannot display addresses"));
    assert_eq!(c.header, vec!["#f00d".to_string()]);
}
