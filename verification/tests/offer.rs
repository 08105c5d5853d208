use greenlight_backend::offer::build_offer_params;

#[test]
fn omitted_expiry_leaves_no_absolute_expiry() {
    let p = build_offer_params(None, 1_700_000_000);
    assert_eq!(p.absolute_expiry, None);
}

#[test]
fn requested_expiry_is_added_to_the_current_time() {
    let p = build_offer_params(Some(3600), 1_700_000_000);
    assert_eq!(p.absolute_expiry, Some(1_700_003_600));
}

#[test]
fn fixed_offer_fields_never_vary() {
    let p = build_offer_params(Some(60), 10);
    assert_eq!(p.amount, "any");
    assert_eq!(p.description, "Shopstr username registration");
    assert_eq!(p.issuer, "");
    assert_eq!(p.label, "");
    assert_eq!(p.quantity_max, 0);
}
