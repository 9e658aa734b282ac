use client_catalogue_request::catalogue::{
    active_link_owner, check_import, check_link_label, check_link_license, check_row_license,
    link_flag_active, link_needs_license, new_client_link, normalize_settings, prepare_product,
    revoke_outcome, valid_product, valid_settings, Product, Settings,
};
use client_catalogue_request::error::ApiError;

fn settings(business_name: &str, price_label: &str, tax_note: &str, currency: &str) -> Settings {
    Settings {
        business_name: business_name.to_string(),
        price_label: price_label.to_string(),
        tax_note: tax_note.to_string(),
        currency: currency.to_string(),
    }
}

fn product(n: usize) -> Product {
    Product {
        id: n.to_string(),
        sku: format!("SKU-{n}"),
        name: format!("Product {n}"),
        description: "".into(),
        category: "Products".into(),
        price_cents: Some(100),
        stock_note: "Ask".into(),
    }
}

/// The decisions of a catalogue save, in the order the server makes them.
fn save(count: usize, s: &Settings, licensed: bool) -> Result<usize, ApiError> {
    let needs_license = check_import(count, s)?;
    if needs_license {
        check_row_license(count, licensed)?;
    }
    Ok(count)
}

#[test]
fn free_workspace_cannot_save_thirteen_rows_without_a_verified_license() {
    let products: Vec<Product> = (0..13).map(product).collect();
    let s = settings("Seller", "Trade price", "", "GBP");
    let result = save(products.len(), &s, false);
    assert!(matches!(result, Err(ApiError::FreeRowLimit)));
    assert_eq!(result.unwrap_err().status(), 403);
}

#[test]
fn verified_license_raises_catalogue_and_link_limits() {
    let products: Vec<Product> = (0..13).map(product).collect();
    let s = settings("Paid Seller", "Trade price", "", "GBP");
    assert_eq!(save(products.len(), &s, true), Ok(13));
    let one = check_link_label("Buyer one").unwrap();
    assert_eq!(check_link_license(0, true), Ok(()));
    let first = new_client_link(one);
    assert!(first.active);
    let two = check_link_label("Buyer two").unwrap();
    assert_eq!(check_link_license(1, true), Ok(()));
    let second = new_client_link(two);
    assert_ne!(first.token, second.token);
    assert_eq!(second.label, "Buyer two");
}

#[test]
fn catalogue_import_cap_is_five_thousand_rows() {
    let too_many: Vec<Product> = (0..5001).map(product).collect();
    let s = settings("Seller", "Trade price", "", "GBP");
    let result = save(too_many.len(), &s, true);
    assert!(matches!(result, Err(ApiError::TooManyRows)));
    assert_eq!(result.unwrap_err().status(), 400);
    assert_eq!(save(5000, &s, true), Ok(5000));
}

#[test]
fn twelve_rows_need_no_license() {
    let s = settings("Seller", "Trade price", "", "GBP");
    assert_eq!(save(12, &s, false), Ok(12));
    assert_eq!(check_import(12, &s), Ok(false));
    assert_eq!(check_import(13, &s), Ok(true));
}

#[test]
fn cap_is_checked_before_settings() {
    let bad = settings("", "Trade price", "", "GBP");
    assert_eq!(check_import(5001, &bad), Err(ApiError::TooManyRows));
    assert_eq!(check_import(3, &bad), Err(ApiError::InvalidSettings));
}

#[test]
fn settings_validation() {
    assert_eq!(valid_settings(&settings("Seller", "Trade price", "", "GBP")), Ok(()));
    assert_eq!(valid_settings(&settings("  Seller ", "Trade", "", " gbp ")), Ok(()));
    assert_eq!(valid_settings(&settings("   ", "Trade", "", "GBP")), Err(ApiError::InvalidSettings));
    assert_eq!(valid_settings(&settings("Seller", " \t", "", "GBP")), Err(ApiError::InvalidSettings));
    assert_eq!(valid_settings(&settings("Seller", "Trade", "", "GB")), Err(ApiError::InvalidSettings));
    assert_eq!(valid_settings(&settings("Seller", "Trade", "", "GBPX")), Err(ApiError::InvalidSettings));
    assert_eq!(valid_settings(&settings(&"x".repeat(80), "Trade", "", "GBP")), Ok(()));
    assert_eq!(
        valid_settings(&settings(&"x".repeat(81), "Trade", "", "GBP")),
        Err(ApiError::InvalidSettings)
    );
    // Lengths count UTF-8 bytes: 40 two-byte characters are 80 bytes.
    assert_eq!(valid_settings(&settings(&"é".repeat(40), "Trade", "", "GBP")), Ok(()));
    assert_eq!(
        valid_settings(&settings(&"é".repeat(41), "Trade", "", "GBP")),
        Err(ApiError::InvalidSettings)
    );
    assert_eq!(
        valid_settings(&settings("Seller", "Trade", &"n".repeat(161), "GBP")),
        Err(ApiError::InvalidSettings)
    );
}

#[test]
fn settings_are_stored_trimmed_with_uppercase_currency() {
    let s = normalize_settings(&settings("  Seller\n", " Trade price ", " incl. VAT ", " gbp "));
    assert_eq!(s.business_name, "Seller");
    assert_eq!(s.price_label, "Trade price");
    assert_eq!(s.tax_note, "incl. VAT");
    assert_eq!(s.currency, "GBP");
}

#[test]
fn product_validation_names_the_row() {
    assert_eq!(valid_product(&product(0), 0), Ok(()));
    let mut p = product(0);
    p.sku = "  ".into();
    let e = valid_product(&p, 4).unwrap_err();
    assert_eq!(e, ApiError::InvalidProductRow(5));
    assert_eq!(e.message(), "Row 5 needs a SKU, a short name, and a valid price or POA.");
    assert_eq!(e.status(), 400);
    let mut p = product(0);
    p.price_cents = Some(-1);
    assert_eq!(valid_product(&p, 0), Err(ApiError::InvalidProductRow(1)));
    let mut p = product(0);
    p.price_cents = None;
    assert_eq!(valid_product(&p, 0), Ok(()));
    let mut p = product(0);
    p.description = "d".repeat(1001);
    assert_eq!(valid_product(&p, 11), Err(ApiError::InvalidProductRow(12)));
}

#[test]
fn products_are_stored_trimmed_with_an_id() {
    let p = Product {
        id: "".into(),
        sku: " MUG-12 ".into(),
        name: "Stack mug 12 oz ".into(),
        description: " Stoneware mug".into(),
        category: "Tableware\t".into(),
        price_cents: Some(480),
        stock_note: " In stock ".into(),
    };
    let q = prepare_product(&p, 0).unwrap();
    assert_eq!(q.id.len(), 36);
    assert_eq!(q.id.matches('-').count(), 4);
    assert_eq!(q.sku, "MUG-12");
    assert_eq!(q.name, "Stack mug 12 oz");
    assert_eq!(q.description, "Stoneware mug");
    assert_eq!(q.category, "Tableware");
    assert_eq!(q.price_cents, Some(480));
    assert_eq!(q.stock_note, "In stock");
    let again = prepare_product(&q, 0).unwrap();
    assert_eq!(again.id, q.id);
    assert_eq!(again.sku, q.sku);
    let other = prepare_product(&p, 0).unwrap();
    assert_ne!(other.id, q.id);
    let kept = prepare_product(&product(7), 7).unwrap();
    assert_eq!(kept.id, "7");
}

#[test]
fn link_labels_are_checked_and_trimmed() {
    assert_eq!(check_link_label("  Buyer  "), Ok("Buyer".to_string()));
    assert_eq!(check_link_label(" B "), Err(ApiError::InvalidLinkLabel));
    assert_eq!(check_link_label("Bé"), Ok("Bé".to_string()));
    assert_eq!(check_link_label(&"L".repeat(120)), Ok("L".repeat(120)));
    assert_eq!(check_link_label(&"L".repeat(121)), Err(ApiError::InvalidLinkLabel));
}

#[test]
fn free_workspace_gets_one_link() {
    assert!(!link_needs_license(0));
    assert!(link_needs_license(1));
    assert_eq!(check_link_license(0, false), Ok(()));
    let e = check_link_license(1, false).unwrap_err();
    assert_eq!(e, ApiError::FreeLinkLimit);
    assert_eq!(e.status(), 403);
    assert_eq!(check_link_license(5, true), Ok(()));
}

#[test]
fn client_links_use_long_random_tokens() {
    let l = new_client_link("Buyer".to_string());
    assert_eq!(l.token.len(), 28);
    assert!(l.token.chars().all(|c| c.is_ascii_alphanumeric()));
    assert!(l.active);
}

#[test]
fn link_lookup_and_revoke_outcomes() {
    // An active link resolves to its seller; a lookup that finds no active
    // link is refused, and revoking twice is refused.
    assert_eq!(active_link_owner(Some("seller-c".to_string())), Ok("seller-c".to_string()));
    assert_eq!(revoke_outcome(1), Ok(()));
    let e = active_link_owner(None).unwrap_err();
    assert_eq!(e, ApiError::LinkNotActive);
    assert_eq!(e.status(), 404);
    assert_eq!(revoke_outcome(0), Err(ApiError::LinkAlreadyInactive));
    assert!(link_flag_active(1));
    assert!(!link_flag_active(0));
}
