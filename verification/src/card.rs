//! Display content of signer cards.
//!
//! A consumer renders each signing participant as a small card. These
//! functions compute exactly what each card says — header texts, caption
//! texts, inline body texts, trailing status texts, an optional warning
//! tooltip, and whether a success mark is shown — as plain values. Widget
//! layout, styling and icons are the rendering host's business.

use vstd::prelude::*;

verus! {

/// What one signer card displays, in reading order.
pub struct CardView {
    /// Top line: the user alias (if shown) and/or a headline, then the
    /// fingerprint label.
    pub header: Vec<String>,
    /// Second line: the signer kind and related detail.
    pub caption: Vec<String>,
    /// Inline explanatory texts in the card's body.
    pub body: Vec<String>,
    /// Right-hand status texts.
    pub trailing: Vec<String>,
    /// Warning text shown on demand.
    pub tooltip: Option<String>,
    /// Whether the card carries a success mark.
    pub success_mark: bool,
}

/// The header names the participant: optional alias first, then the
/// fingerprint prefixed with a number sign.
pub open spec fn spec_identity_header(h: Seq<String>, alias: Option<String>, fingerprint: String) -> bool {
    match alias {
        Some(a) => h.len() == 2 && h[0]@ == a@ && h[1]@ == "#"@ + fingerprint@,
        None => h.len() == 1 && h[0]@ == "#"@ + fingerprint@,
    }
}

/// The caption names the signer kind, then its version when known.
pub open spec fn spec_kind_caption(c: Seq<String>, kind: String, version: Option<String>) -> bool {
    match version {
        Some(v) => c.len() == 2 && c[0]@ == kind@ && c[1]@ == v@,
        None => c.len() == 1 && c[0]@ == kind@,
    }
}

/// Builds the identity header; see [`spec_identity_header`].
fn identity_header(alias: Option<String>, fingerprint: String) -> (r: Vec<String>)
    ensures
        spec_identity_header(r@, alias, fingerprint),
{
    let mut h: Vec<String> = Vec::new();
    match &alias {
        Some(a) => {
            h.push(a.clone());
        },
        None => {},
    }
    h.push(String::from_str("#").concat(fingerprint.as_str()));
    h
}

/// Builds the kind caption; see [`spec_kind_caption`].
fn kind_caption(kind: String, version: Option<String>) -> (r: Vec<String>)
    ensures
        spec_kind_caption(r@, kind, version),
{
    let mut c: Vec<String> = Vec::new();
    c.push(kind);
    match version {
        Some(v) => {
            c.push(v);
        },
        None => {},
    }
    c
}

/// Card for a device that answered but is locked; when the device shows a
/// pairing code, the card asks the user to check it.
pub fn locked_hardware_wallet(kind: String, pairing_code: Option<String>) -> (r: CardView)
    ensures
        match pairing_code {
            Some(code) => r.header@.len() == 2 && r.header@[0]@ == "Locked, check code:"@
                && r.header@[1]@ == code@,
            None => r.header@.len() == 1 && r.header@[0]@ == "Locked"@,
        },
        r.caption@.len() == 1 && r.caption@[0]@ == kind@,
        r.body@.len() == 0,
        r.trailing@.len() == 0,
        r.tooltip is None,
        !r.success_mark,
{
    let mut header: Vec<String> = Vec::new();
    match pairing_code {
        Some(code) => {
            header.push(String::from_str("Locked, check code:"));
            header.push(code);
        },
        None => {
            header.push(String::from_str("Locked"));
        },
    }
    let mut caption: Vec<String> = Vec::new();
    caption.push(kind);
    CardView {
        header,
        caption,
        body: Vec::new(),
        trailing: Vec::new(),
        tooltip: None,
        success_mark: false,
    }
}

/// Card for a present, supported device with nothing to report.
pub fn supported_hardware_wallet(
    kind: String,
    version: Option<String>,
    fingerprint: String,
    alias: Option<String>,
) -> (r: CardView)
    ensures
        spec_identity_header(r.header@, alias, fingerprint),
        spec_kind_caption(r.caption@, kind, version),
        r.body@.len() == 0,
        r.trailing@.len() == 0,
        r.tooltip is None,
        !r.success_mark,
{
    CardView {
        header: identity_header(alias, fingerprint),
        caption: kind_caption(kind, version),
        body: Vec::new(),
        trailing: Vec::new(),
        tooltip: None,
        success_mark: false,
    }
}

/// Card for a present device with a warning to show on demand.
pub fn warning_hardware_wallet(
    kind: String,
    version: Option<String>,
    fingerprint: String,
    alias: Option<String>,
    warning: String,
) -> (r: CardView)
    ensures
        spec_identity_header(r.header@, alias, fingerprint),
        spec_kind_caption(r.caption@, kind, version),
        r.body@.len() == 0,
        r.trailing@.len() == 0,
        r.tooltip matches Some(t) && t@ == warning@,
        !r.success_mark,
{
    CardView {
        header: identity_header(alias, fingerprint),
        caption: kind_caption(kind, version),
        body: Vec::new(),
        trailing: Vec::new(),
        tooltip: Some(warning),
        success_mark: false,
    }
}

/// Card for a device whose vendor driver lacks the requested capability;
/// the explanation is shown on demand.
pub fn unimplemented_method_hardware_wallet(
    kind: String,
    version: Option<String>,
    fingerprint: String,
    message: String,
) -> (r: CardView)
    ensures
        spec_identity_header(r.header@, None, fingerprint),
        spec_kind_caption(r.caption@, kind, version),
        r.body@.len() == 0,
        r.trailing@.len() == 0,
        r.tooltip matches Some(t) && t@ == message@,
        !r.success_mark,
{
    CardView {
        header: identity_header(None, fingerprint),
        caption: kind_caption(kind, version),
        body: Vec::new(),
        trailing: Vec::new(),
        tooltip: Some(message),
        success_mark: false,
    }
}

/// Card for a present device that cannot be used, with the reason inline.
pub fn disabled_hardware_wallet(
    kind: String,
    version: Option<String>,
    fingerprint: String,
    label: String,
) -> (r: CardView)
    ensures
        spec_identity_header(r.header@, None, fingerprint),
        spec_kind_caption(r.caption@, kind, version),
        r.body@.len() == 1 && r.body@[0]@ == label@,
        r.trailing@.len() == 0,
        r.tooltip is None,
        !r.success_mark,
{
    let mut body: Vec<String> = Vec::new();
    body.push(label);
    CardView {
        header: identity_header(None, fingerprint),
        caption: kind_caption(kind, version),
        body,
        trailing: Vec::new(),
        tooltip: None,
        success_mark: false,
    }
}

/// Card for a probed device whose fingerprint is not part of this wallet.
pub fn unrelated_hardware_wallet(
    kind: String,
    version: Option<String>,
    fingerprint: String,
) -> (r: CardView)
    ensures
        spec_identity_header(r.header@, None, fingerprint),
        spec_kind_caption(r.caption@, kind, version),
        r.body@.len() == 1 && r.body@[0]@
            == "This signing device is not related to this Liana wallet."@,
        r.trailing@.len() == 0,
        r.tooltip is None,
        !r.success_mark,
{
    disabled_hardware_wallet(
        kind,
        version,
        fingerprint,
        String::from_str("This signing device is not related to this Liana wallet."),
    )
}

/// Card for a device busy with a signing request awaiting its operator.
pub fn processing_hardware_wallet(
    kind: String,
    version: Option<String>,
    fingerprint: String,
    alias: Option<String>,
) -> (r: CardView)
    ensures
        spec_identity_header(r.header@, alias, fingerprint),
        spec_kind_caption(r.caption@, kind, version),
        r.body@.len() == 0,
        r.trailing@.len() == 2 && r.trailing@[0]@ == "Processing..."@ && r.trailing@[1]@
            == "Please check your device"@,
        r.tooltip is None,
        !r.success_mark,
{
    let mut trailing: Vec<String> = Vec::new();
    trailing.push(String::from_str("Processing..."));
    trailing.push(String::from_str("Please check your device"));
    CardView {
        header: identity_header(alias, fingerprint),
        caption: kind_caption(kind, version),
        body: Vec::new(),
        trailing,
        tooltip: None,
        success_mark: false,
    }
}

/// Card for a device the user selected for the next signing request; an
/// optional warning is shown on demand beside the success mark.
pub fn selected_hardware_wallet(
    kind: String,
    version: Option<String>,
    fingerprint: String,
    alias: Option<String>,
    warning: Option<String>,
) -> (r: CardView)
    ensures
        spec_identity_header(r.header@, alias, fingerprint),
        spec_kind_caption(r.caption@, kind, version),
        r.body@.len() == 0,
        r.trailing@.len() == 0,
        match warning {
            Some(w) => r.tooltip matches Some(t) && t@ == w@,
            None => r.tooltip is None,
        },
        r.success_mark,
{
    CardView {
        header: identity_header(alias, fingerprint),
        caption: kind_caption(kind, version),
        body: Vec::new(),
        trailing: Vec::new(),
        tooltip: warning,
        success_mark: true,
    }
}

/// Card for a device that contributed its signature.
pub fn sign_success_hardware_wallet(
    kind: String,
    version: Option<String>,
    fingerprint: String,
    alias: Option<String>,
) -> (r: CardView)
    ensures
        spec_identity_header(r.header@, alias, fingerprint),
        spec_kind_caption(r.caption@, kind, version),
        r.body@.len() == 0,
        r.trailing@.len() == 1 && r.trailing@[0]@ == "Signed"@,
        r.tooltip is None,
        r.success_mark,
{
    let mut trailing: Vec<String> = Vec::new();
    trailing.push(String::from_str("Signed"));
    CardView {
        header: identity_header(alias, fingerprint),
        caption: kind_caption(kind, version),
        body: Vec::new(),
        trailing,
        tooltip: None,
        success_mark: true,
    }
}

/// Card for a device on which the wallet descriptor was just registered.
pub fn registration_success_hardware_wallet(
    kind: String,
    version: Option<String>,
    fingerprint: String,
    alias: Option<String>,
) -> (r: CardView)
    ensures
        spec_identity_header(r.header@, alias, fingerprint),
        spec_kind_caption(r.caption@, kind, version),
        r.body@.len() == 0,
        r.trailing@.len() == 1 && r.trailing@[0]@ == "Registered"@,
        r.tooltip is None,
        r.success_mark,
{
    let mut trailing: Vec<String> = Vec::new();
    trailing.push(String::from_str("Registered"));
    CardView {
        header: identity_header(alias, fingerprint),
        caption: kind_caption(kind, version),
        body: Vec::new(),
        trailing,
        tooltip: None,
        success_mark: true,
    }
}

/// Card for a device configured for the wrong bitcoin network.
pub fn wrong_network_hardware_wallet(kind: String, version: Option<String>) -> (r: CardView)
    ensures
        r.header@.len() == 1 && r.header@[0]@ == "Wrong network in the device settings"@,
        spec_kind_caption(r.caption@, kind, version),
        r.body@.len() == 0,
        r.trailing@.len() == 0,
        r.tooltip matches Some(t) && t@
            == "The wrong bitcoin application is open or the device was initialized with the wrong network"@,
        !r.success_mark,
{
    let mut header: Vec<String> = Vec::new();
    header.push(String::from_str("Wrong network in the device settings"));
    CardView {
        header,
        caption: kind_caption(kind, version),
        body: Vec::new(),
        trailing: Vec::new(),
        tooltip: Some(
            String::from_str(
                "The wrong bitcoin application is open or the device was initialized with the wrong network",
            ),
        ),
        success_mark: false,
    }
}

/// Card for a device that could not be talked to in a supported way.
pub fn unsupported_hardware_wallet(kind: String, version: Option<String>) -> (r: CardView)
    ensures
        r.header@.len() == 1 && r.header@[0]@ == "Connection error"@,
        spec_kind_caption(r.caption@, kind, version),
        r.body@.len() == 0,
        r.trailing@.len() == 0,
        r.tooltip matches Some(t) && t@
            == "Make sure your device is unlocked and a supported Bitcoin application is opened."@,
        !r.success_mark,
{
    let mut header: Vec<String> = Vec::new();
    header.push(String::from_str("Connection error"));
    CardView {
        header,
        caption: kind_caption(kind, version),
        body: Vec::new(),
        trailing: Vec::new(),
        tooltip: Some(
            String::from_str(
                "Make sure your device is unlocked and a supported Bitcoin application is opened.",
            ),
        ),
        success_mark: false,
    }
}

/// Card for a device whose firmware is older than the required minimum.
pub fn unsupported_version_hardware_wallet(
    kind: String,
    version: Option<String>,
    requested_version: String,
) -> (r: CardView)
    ensures
        r.header@.len() == 2 && r.header@[0]@ == "Unsupported firmware version"@ && r.header@[1]@
            == "Install version "@ + requested_version@ + " or later"@,
        spec_kind_caption(r.caption@, kind, version),
        r.body@.len() == 0,
        r.trailing@.len() == 0,
        r.tooltip matches Some(t) && t@ == "Please upgrade firmware"@,
        !r.success_mark,
{
    let mut header: Vec<String> = Vec::new();
    header.push(String::from_str("Unsupported firmware version"));
    header.push(
        String::from_str("Install version ").concat(requested_version.as_str()).concat(
            " or later",
        ),
    );
    CardView {
        header,
        caption: kind_caption(kind, version),
        body: Vec::new(),
        trailing: Vec::new(),
        tooltip: Some(String::from_str("Please upgrade firmware")),
        success_mark: false,
    }
}

/// Card for the local hot signer after it contributed its signature.
pub fn sign_success_hot_signer(fingerprint: String, alias: Option<String>) -> (r: CardView)
    ensures
        spec_identity_header(r.header@, alias, fingerprint),
        r.caption@.len() == 1 && r.caption@[0]@ == "This computer"@,
        r.body@.len() == 0,
        r.trailing@.len() == 1 && r.trailing@[0]@ == "Signed"@,
        r.tooltip is None,
        r.success_mark,
{
    let mut caption: Vec<String> = Vec::new();
    caption.push(String::from_str("This computer"));
    let mut trailing: Vec<String> = Vec::new();
    trailing.push(String::from_str("Signed"));
    CardView {
        header: identity_header(alias, fingerprint),
        caption,
        body: Vec::new(),
        trailing,
        tooltip: None,
        success_mark: true,
    }
}

/// Card for the local hot signer when the user has selected it.
pub fn selected_hot_signer(fingerprint: String, alias: Option<String>) -> (r: CardView)
    ensures
        spec_identity_header(r.header@, alias, fingerprint),
        r.caption@.len() == 2 && r.caption@[0]@ == "This computer"@ && r.caption@[1]@
            == "(A derived key from a mnemonic stored locally)"@,
        r.body@.len() == 0,
        r.trailing@.len() == 0,
        r.tooltip is None,
        r.success_mark,
{
    let mut caption: Vec<String> = Vec::new();
    caption.push(String::from_str("This computer"));
    caption.push(String::from_str("(A derived key from a mnemonic stored locally)"));
    CardView {
        header: identity_header(alias, fingerprint),
        caption,
        body: Vec::new(),
        trailing: Vec::new(),
        tooltip: None,
        success_mark: true,
    }
}

/// Card for the local hot signer when it is not selected.
pub fn unselected_hot_signer(fingerprint: String, alias: Option<String>) -> (r: CardView)
    ensures
        spec_identity_header(r.header@, alias, fingerprint),
        r.caption@.len() == 2 && r.caption@[0]@ == "This computer"@ && r.caption@[1]@
            == "(A derived key from a mnemonic stored locally)"@,
        r.body@.len() == 0,
        r.trailing@.len() == 0,
        r.tooltip is None,
        !r.success_mark,
{
    let mut caption: Vec<String> = Vec::new();
    caption.push(String::from_str("This computer"));
    caption.push(String::from_str("(A derived key from a mnemonic stored locally)"));
    CardView {
        header: identity_header(alias, fingerprint),
        caption,
        body: Vec::new(),
        trailing: Vec::new(),
        tooltip: None,
        success_mark: false,
    }
}

/// Card for the local hot signer; when it cannot sign the current spending
/// path, the card says so inline.
pub fn hot_signer(fingerprint: String, alias: Option<String>, can_sign: bool) -> (r: CardView)
    ensures
        spec_identity_header(r.header@, alias, fingerprint),
        r.caption@.len() == 1 && r.caption@[0]@ == "This computer"@,
        if can_sign {
            r.body@.len() == 0
        } else {
            r.body@.len() == 1 && r.body@[0]@
                == "This hot signer is not part of this spending path."@
        },
        r.trailing@.len() == 0,
        r.tooltip is None,
        !r.success_mark,
{
    let mut caption: Vec<String> = Vec::new();
    caption.push(String::from_str("This computer"));
    let mut body: Vec<String> = Vec::new();
    if !can_sign {
        body.push(String::from_str("This hot signer is not part of this spending path."));
    }
    CardView {
        header: identity_header(alias, fingerprint),
        caption,
        body,
        trailing: Vec::new(),
        tooltip: None,
        success_mark: false,
    }
}

/// Card for a selected cosigning-service key.
pub fn selected_provider_key(
    fingerprint: String,
    alias: String,
    key_kind: String,
    token: String,
) -> (r: CardView)
    ensures
        spec_identity_header(r.header@, Some(alias), fingerprint),
        r.caption@.len() == 1 && r.caption@[0]@ == key_kind@ + " ("@ + token@ + ")"@,
        r.body@.len() == 0,
        r.trailing@.len() == 0,
        r.tooltip is None,
        r.success_mark,
{
    let mut caption: Vec<String> = Vec::new();
    caption.push(key_kind.concat(" (").concat(token.as_str()).concat(")"));
    CardView {
        header: identity_header(Some(alias), fingerprint),
        caption,
        body: Vec::new(),
        trailing: Vec::new(),
        tooltip: None,
        success_mark: true,
    }
}

/// Card for an unselected cosigning-service key.
pub fn unselected_provider_key(
    fingerprint: String,
    alias: String,
    key_kind: String,
    token: String,
) -> (r: CardView)
    ensures
        spec_identity_header(r.header@, Some(alias), fingerprint),
        r.caption@.len() == 1 && r.caption@[0]@ == key_kind@ + " ("@ + token@ + ")"@,
        r.body@.len() == 0,
        r.trailing@.len() == 0,
        r.tooltip is None,
        !r.success_mark,
{
    let mut caption: Vec<String> = Vec::new();
    caption.push(key_kind.concat(" (").concat(token.as_str()).concat(")"));
    CardView {
        header: identity_header(Some(alias), fingerprint),
        caption,
        body: Vec::new(),
        trailing: Vec::new(),
        tooltip: None,
        success_mark: false,
    }
}

/// Card for a cosigning-service key not yet saved to the wallet; such a key
/// is necessarily selected, so the success mark shows.
pub fn unsaved_provider_key(fingerprint: String, key_kind: String, token: String) -> (r: CardView)
    ensures
        spec_identity_header(r.header@, None, fingerprint),
        r.caption@.len() == 1 && r.caption@[0]@ == key_kind@ + " ("@ + token@ + ")"@,
        r.body@.len() == 0,
        r.trailing@.len() == 0,
        r.tooltip is None,
        r.success_mark,
{
    let mut caption: Vec<String> = Vec::new();
    caption.push(key_kind.concat(" (").concat(token.as_str()).concat(")"));
    CardView {
        header: identity_header(None, fingerprint),
        caption,
        body: Vec::new(),
        trailing: Vec::new(),
        tooltip: None,
        success_mark: true,
    }
}

} // verus!
