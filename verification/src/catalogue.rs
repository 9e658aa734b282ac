//! The seller's catalogue: settings and product rows, what a save accepts and
//! how it stores them, the row and link allowances of a workspace, and client
//! links.
use vstd::prelude::*;
use crate::error::ApiError;
use crate::text::{
    byte_len, byte_length, trim_spec, trim_str, trimmed, to_uppercase, unicode_uppercase,
};
use crate::tokens::{is_hyphenated_uuid, is_token, new_product_id, token};

verus! {

/// The most rows one catalogue import may hold, licensed or not.
pub const IMPORT_ROW_CAP: usize = 5000;

/// The rows a workspace without an active license may save.
pub const FREE_ROW_LIMIT: usize = 12;

/// The active client links a workspace without an active license may hold.
pub const FREE_LINK_LIMIT: i64 = 1;

/// The length of a client-link token.
pub const LINK_TOKEN_LEN: usize = 28;

/// One catalogue row. Prices are in integer minor units; `None` is POA.
#[derive(Debug, Clone)]
pub struct Product {
    pub id: String,
    pub sku: String,
    pub name: String,
    pub description: String,
    pub category: String,
    pub price_cents: Option<i64>,
    pub stock_note: String,
}

/// How the seller's catalogue presents itself.
#[derive(Debug, Clone)]
pub struct Settings {
    pub business_name: String,
    pub price_label: String,
    pub tax_note: String,
    pub currency: String,
}

/// A link that lets one client browse the catalogue and send requests.
#[derive(Debug, Clone)]
pub struct ClientLink {
    pub token: String,
    pub label: String,
    pub active: bool,
}

/// Settings a save accepts: a business name and price label that are not
/// blank, lengths within bounds (in UTF-8 bytes), and a currency code of
/// three bytes once trimmed.
pub open spec fn settings_ok(x: Settings) -> bool {
    &&& trim_spec(x.business_name@).len() > 0
    &&& byte_len(x.business_name@) <= 80
    &&& trim_spec(x.price_label@).len() > 0
    &&& byte_len(x.price_label@) <= 40
    &&& byte_len(x.tax_note@) <= 160
    &&& byte_len(trim_spec(x.currency@)) == 3
}

/// A row a save accepts: a SKU and name that are not blank, lengths within
/// bounds (in UTF-8 bytes), and no negative price.
pub open spec fn product_ok(p: Product) -> bool {
    &&& trim_spec(p.sku@).len() > 0
    &&& trim_spec(p.name@).len() > 0
    &&& byte_len(p.sku@) <= 80
    &&& byte_len(p.name@) <= 120
    &&& byte_len(p.description@) <= 1000
    &&& byte_len(p.category@) <= 80
    &&& byte_len(p.stock_note@) <= 200
    &&& !(p.price_cents matches Some(v) && v < 0)
}

/// How a saved row is stored: the given id or a fresh UUID when it has none,
/// text fields trimmed, the price kept.
pub open spec fn stored_product(p: Product, q: Product) -> bool {
    &&& (p.id@.len() > 0 ==> q.id@ == p.id@)
    &&& (p.id@.len() == 0 ==> is_hyphenated_uuid(q.id@))
    &&& q.sku@ == trim_spec(p.sku@)
    &&& q.name@ == trim_spec(p.name@)
    &&& q.description@ == trim_spec(p.description@)
    &&& q.category@ == trim_spec(p.category@)
    &&& q.price_cents == p.price_cents
    &&& q.stock_note@ == trim_spec(p.stock_note@)
}

/// How saved settings are stored: every field trimmed, the currency in uppercase.
pub open spec fn stored_settings(x: Settings, y: Settings) -> bool {
    &&& y.business_name@ == trim_spec(x.business_name@)
    &&& y.price_label@ == trim_spec(x.price_label@)
    &&& y.tax_note@ == trim_spec(x.tax_note@)
    &&& y.currency@ == unicode_uppercase(trim_spec(x.currency@))
}

/// Accepts settings that `settings_ok` allows.
pub fn valid_settings(x: &Settings) -> (r: Result<(), ApiError>)
    ensures
        r == (if settings_ok(*x) {
            Ok(())
        } else {
            Err(ApiError::InvalidSettings)
        }),
{
    if trim_str(x.business_name.as_str()).is_empty() || byte_length(x.business_name.as_str()) > 80
        || trim_str(x.price_label.as_str()).is_empty() || byte_length(x.price_label.as_str()) > 40
        || byte_length(x.tax_note.as_str()) > 160 || byte_length(trim_str(x.currency.as_str()))
        != 3 {
        Err(ApiError::InvalidSettings)
    } else {
        Ok(())
    }
}

/// Accepts a row that `product_ok` allows; `n` is its zero-based position and
/// the error names it one-based.
pub fn valid_product(p: &Product, n: usize) -> (r: Result<(), ApiError>)
    requires
        n < usize::MAX,
    ensures
        r == (if product_ok(*p) {
            Ok(())
        } else {
            Err(ApiError::InvalidProductRow((n + 1) as usize))
        }),
{
    let negative = match p.price_cents {
        Some(v) => v < 0,
        None => false,
    };
    if trim_str(p.sku.as_str()).is_empty() || trim_str(p.name.as_str()).is_empty() || byte_length(
        p.sku.as_str(),
    ) > 80 || byte_length(p.name.as_str()) > 120 || byte_length(p.description.as_str()) > 1000
        || byte_length(p.category.as_str()) > 80 || byte_length(p.stock_note.as_str()) > 200
        || negative {
        Err(ApiError::InvalidProductRow(n + 1))
    } else {
        Ok(())
    }
}

/// The stored form of accepted settings.
pub fn normalize_settings(x: &Settings) -> (y: Settings)
    ensures
        stored_settings(*x, y),
{
    Settings {
        business_name: trimmed(x.business_name.as_str()),
        price_label: trimmed(x.price_label.as_str()),
        tax_note: trimmed(x.tax_note.as_str()),
        currency: to_uppercase(trim_str(x.currency.as_str())),
    }
}

/// Checks row `n` (zero-based) of a save and gives the form it is stored in.
pub fn prepare_product(p: &Product, n: usize) -> (r: Result<Product, ApiError>)
    requires
        n < usize::MAX,
    ensures
        !product_ok(*p) ==> r == Err::<Product, ApiError>(ApiError::InvalidProductRow((n + 1) as usize)),
        product_ok(*p) ==> (r matches Ok(q) && stored_product(*p, q)),
{
    valid_product(p, n)?;
    let id = if p.id.as_str().is_empty() {
        new_product_id()
    } else {
        p.id.clone()
    };
    Ok(
        Product {
            id,
            sku: trimmed(p.sku.as_str()),
            name: trimmed(p.name.as_str()),
            description: trimmed(p.description.as_str()),
            category: trimmed(p.category.as_str()),
            price_cents: p.price_cents,
            stock_note: trimmed(p.stock_note.as_str()),
        },
    )
}

/// What a save of `count` rows with settings `x` gets before any license is
/// looked at: too many rows, invalid settings, or whether it needs a license.
pub open spec fn import_precheck(count: nat, x: Settings) -> Result<bool, ApiError> {
    if count > IMPORT_ROW_CAP {
        Err(ApiError::TooManyRows)
    } else if !settings_ok(x) {
        Err(ApiError::InvalidSettings)
    } else {
        Ok(count > FREE_ROW_LIMIT)
    }
}

/// Whether `count` rows may be saved with or without an active license.
pub open spec fn row_license_spec(count: nat, licensed: bool) -> Result<(), ApiError> {
    if count > FREE_ROW_LIMIT && !licensed {
        Err(ApiError::FreeRowLimit)
    } else {
        Ok(())
    }
}

/// Whether a save of `count` rows with settings `x` is admitted.
pub open spec fn catalogue_admission(count: nat, x: Settings, licensed: bool) -> Result<(), ApiError> {
    match import_precheck(count, x) {
        Err(e) => Err(e),
        Ok(_) => row_license_spec(count, licensed),
    }
}

/// The checks of a catalogue save that need no license: the row cap first,
/// then the settings. `Ok(true)` means the save needs an active license.
pub fn check_import(count: usize, x: &Settings) -> (r: Result<bool, ApiError>)
    ensures
        r == import_precheck(count as nat, *x),
{
    if count > IMPORT_ROW_CAP {
        return Err(ApiError::TooManyRows);
    }
    valid_settings(x)?;
    Ok(count > FREE_ROW_LIMIT)
}

/// The license check of a catalogue save.
pub fn check_row_license(count: usize, licensed: bool) -> (r: Result<(), ApiError>)
    ensures
        r == row_license_spec(count as nat, licensed),
{
    if count > FREE_ROW_LIMIT && !licensed {
        Err(ApiError::FreeRowLimit)
    } else {
        Ok(())
    }
}

/// A client link label a seller may give: at least two bytes once trimmed and
/// at most 120 bytes as sent.
pub open spec fn link_label_ok(label: Seq<char>) -> bool {
    byte_len(trim_spec(label)) >= 2 && byte_len(label) <= 120
}

/// Checks a new link's label and gives it trimmed.
pub fn check_link_label(label: &str) -> (r: Result<String, ApiError>)
    ensures
        link_label_ok(label@) ==> (r matches Ok(t) && t@ == trim_spec(label@)),
        !link_label_ok(label@) ==> r == Err::<String, ApiError>(ApiError::InvalidLinkLabel),
{
    if byte_length(trim_str(label)) < 2 || byte_length(label) > 120 {
        return Err(ApiError::InvalidLinkLabel);
    }
    Ok(trimmed(label))
}

/// Whether a workspace with `active` links needs a license for one more.
pub fn link_needs_license(active: i64) -> (r: bool)
    ensures
        r == (active >= FREE_LINK_LIMIT),
{
    active >= FREE_LINK_LIMIT
}

/// Whether one more link may be created beside `active` active ones.
pub open spec fn link_license_spec(active: int, licensed: bool) -> Result<(), ApiError> {
    if active >= FREE_LINK_LIMIT && !licensed {
        Err(ApiError::FreeLinkLimit)
    } else {
        Ok(())
    }
}

/// The license check of link creation.
pub fn check_link_license(active: i64, licensed: bool) -> (r: Result<(), ApiError>)
    ensures
        r == link_license_spec(active as int, licensed),
{
    if active >= FREE_LINK_LIMIT && !licensed {
        Err(ApiError::FreeLinkLimit)
    } else {
        Ok(())
    }
}

/// A new active link with a fresh 28-character token.
pub fn new_client_link(label: String) -> (l: ClientLink)
    ensures
        is_token(l.token@, LINK_TOKEN_LEN as nat),
        l.label@ == label@,
        l.active,
{
    ClientLink { token: token(LINK_TOKEN_LEN), label, active: true }
}

/// A stored `active` flag marks an active link when it is 1.
pub fn link_flag_active(flag: i64) -> (r: bool)
    ensures
        r == (flag == 1),
{
    flag == 1
}

/// Revoking succeeds when it deactivated a link of the seller.
pub fn revoke_outcome(rows_affected: u64) -> (r: Result<(), ApiError>)
    ensures
        r == (if rows_affected == 0 {
            Err(ApiError::LinkAlreadyInactive)
        } else {
            Ok(())
        }),
{
    if rows_affected == 0 {
        Err(ApiError::LinkAlreadyInactive)
    } else {
        Ok(())
    }
}

/// The seller behind a client link, when the link is active.
pub fn active_link_owner(owner: Option<String>) -> (r: Result<String, ApiError>)
    ensures
        match owner {
            Some(o) => r matches Ok(s) && s@ == o@,
            None => r == Err::<String, ApiError>(ApiError::LinkNotActive),
        },
{
    match owner {
        Some(o) => Ok(o),
        None => Err(ApiError::LinkNotActive),
    }
}

} // verus!
