use udpipe_rs::{check_payload, download_model, model_filename, ErrorKind, AVAILABLE_MODELS};

#[test]
fn test_model_filename() {
    assert_eq!(
        model_filename("english-ewt"),
        "english-ewt-ud-2.5-191206.udpipe"
    );
    assert_eq!(
        model_filename("dutch-alpino"),
        "dutch-alpino-ud-2.5-191206.udpipe"
    );
}

#[test]
fn test_available_models_contains_common_languages() {
    assert!(AVAILABLE_MODELS.contains(&"english-ewt"));
    assert!(AVAILABLE_MODELS.contains(&"german-gsd"));
    assert!(AVAILABLE_MODELS.contains(&"french-gsd"));
    assert!(AVAILABLE_MODELS.contains(&"spanish-ancora"));
}

#[test]
fn test_available_models_sorted() {
    let mut sorted = AVAILABLE_MODELS.to_vec();
    sorted.sort();
    assert_eq!(AVAILABLE_MODELS, sorted.as_slice());
}

#[test]
fn test_download_model_invalid_language() {
    let result = download_model("invalid-language-xyz", ".");
    assert!(result.is_err());
    let err = result.unwrap_err();
    assert!(err.message.contains("Unknown language"));
}

#[test]
fn unknown_language_message_lists_first_models() {
    let err = download_model("klingon", "models").unwrap_err();
    assert_eq!(err.kind, ErrorKind::InvalidArgument);
    assert_eq!(
        err.message,
        "Unknown language 'klingon'. Use one of: afrikaans-afribooms, ancient_greek-perseus, \
         ancient_greek-proiel, arabic-padt, armenian-armtdp, ..."
    );
}

#[test]
fn download_plan_for_known_language() {
    let d = download_model("english-ewt", "models").unwrap();
    assert_eq!(
        d.url,
        "https://lindat.mff.cuni.cz/repository/xmlui/bitstream/handle/11234/1-3131/english-ewt-ud-2.5-191206.udpipe"
    );
    assert_eq!(d.path, "models/english-ewt-ud-2.5-191206.udpipe");
}

#[test]
fn download_path_joins_without_doubled_separator() {
    let d = download_model("german-gsd", "/tmp/models/").unwrap();
    assert_eq!(d.path, "/tmp/models/german-gsd-ud-2.5-191206.udpipe");
    let d = download_model("german-gsd", "").unwrap();
    assert_eq!(d.path, "german-gsd-ud-2.5-191206.udpipe");
    let d = download_model("wolof-wtb", ".").unwrap();
    assert_eq!(d.path, "./wolof-wtb-ud-2.5-191206.udpipe");
}

#[test]
fn language_match_is_exact() {
    assert!(download_model("English-ewt", ".").is_err());
    assert!(download_model("english-ew", ".").is_err());
    assert!(download_model("", ".").is_err());
    assert!(download_model("afrikaans-afribooms", ".").is_ok());
}

#[test]
fn empty_payload_is_transfer_failure() {
    let err = check_payload(&[]).unwrap_err();
    assert_eq!(err.kind, ErrorKind::TransferFailed);
    assert_eq!(err.message, "Downloaded file is empty");
    assert!(check_payload(&[1u8]).is_ok());
}
