use protocol_z_cash::resolver::get_location;

#[test]
fn term_code_resolves_to_protocol_document() {
    assert_eq!(
        get_location("TCR:1.2.3"),
        "https://zips.z.cash/protocol/protocol.pdf#TCR:1.2.3"
    );
}

#[test]
fn bare_term_code_resolves_with_itself_as_fragment() {
    assert_eq!(get_location("TCR"), "https://zips.z.cash/protocol/protocol.pdf#TCR");
}

#[test]
fn zip_identifier_resolves_to_zip_document() {
    assert_eq!(get_location("zip-200:abstract"), "https://zips.z.cash/zip-200#abstract");
}

#[test]
fn zip_identifier_keeps_later_colons_in_anchor() {
    assert_eq!(get_location("zip-200:a:b"), "https://zips.z.cash/zip-200#a:b");
}

#[test]
fn zip_identifier_with_empty_anchor_resolves_to_empty_fragment() {
    assert_eq!(get_location("zip-200:"), "https://zips.z.cash/zip-200#");
}

#[test]
fn zip_tag_with_empty_number_still_resolves() {
    assert_eq!(get_location("zip-:a"), "https://zips.z.cash/zip-#a");
}

#[test]
fn zip_identifier_without_colon_does_not_resolve() {
    assert_eq!(get_location("zip-200"), "");
}

#[test]
fn unknown_prefix_does_not_resolve() {
    assert_eq!(get_location("foo:bar"), "");
}

#[test]
fn near_miss_term_code_does_not_resolve() {
    assert_eq!(get_location("TCRx:1.2.3"), "");
    assert_eq!(get_location("tcr:1.2.3"), "");
    assert_eq!(get_location("TC"), "");
}

#[test]
fn empty_identifier_does_not_resolve() {
    assert_eq!(get_location(""), "");
}

#[test]
fn empty_prefix_does_not_resolve() {
    assert_eq!(get_location(":anchor"), "");
}

#[test]
fn resolving_twice_gives_identical_results() {
    let first = get_location("zip-200:abstract");
    let second = get_location("zip-200:abstract");
    assert_eq!(first, second);
    let first = get_location("nonsense");
    let second = get_location("nonsense");
    assert_eq!(first, second);
}
