//! The errors the API answers with: each has an HTTP status and a message.
use vstd::prelude::*;
use crate::text::{concat, decimal, decimal_spec, owned};

verus! {

/// A refused or failed request.
#[derive(Debug, Clone, PartialEq, Eq)]
pub enum ApiError {
    /// No valid seller sign-in.
    Unauthorized,
    /// The catalogue settings are incomplete or too long.
    InvalidSettings,
    /// A catalogue row is invalid; holds its one-based row number.
    InvalidProductRow(usize),
    /// The license service could not be reached or refused the request.
    LicenseUnavailable,
    /// An import holds more rows than any workspace may save at once.
    TooManyRows,
    /// An unlicensed workspace tried to save more rows than it includes.
    FreeRowLimit,
    /// A SKU occurs twice in one catalogue; holds the SKU as sent.
    DuplicateSku(String),
    /// A client link label is missing or too long.
    InvalidLinkLabel,
    /// An unlicensed workspace tried to create a second active link.
    FreeLinkLimit,
    /// The link to revoke is unknown or already inactive.
    LinkAlreadyInactive,
    /// A client link is unknown or revoked.
    LinkNotActive,
    /// The buyer's contact details are missing or invalid.
    InvalidContact,
    /// The request lines are missing, too many, or have a bad quantity.
    InvalidLines,
    /// A product occurs on two lines of one request.
    DuplicateProduct,
    /// A requested product is no longer in the catalogue.
    ProductUnavailable,
    /// The request to delete is unknown or already deleted.
    RequestAlreadyDeleted,
    /// The sample workspace id is malformed.
    DemoUnavailable,
    /// A sample request names a product outside the sample catalogue.
    DemoProductUnavailable,
    /// Storage or an upstream service failed.
    Internal,
    /// The caller exceeded its request rate.
    TooManyRequests,
}

impl ApiError {
    /// The HTTP status code of each error.
    pub open spec fn status_spec(&self) -> u16 {
        match self {
            ApiError::Unauthorized => 401,
            ApiError::InvalidSettings => 400,
            ApiError::InvalidProductRow(_) => 400,
            ApiError::LicenseUnavailable => 503,
            ApiError::TooManyRows => 400,
            ApiError::FreeRowLimit => 403,
            ApiError::DuplicateSku(_) => 400,
            ApiError::InvalidLinkLabel => 400,
            ApiError::FreeLinkLimit => 403,
            ApiError::LinkAlreadyInactive => 404,
            ApiError::LinkNotActive => 404,
            ApiError::InvalidContact => 400,
            ApiError::InvalidLines => 400,
            ApiError::DuplicateProduct => 400,
            ApiError::ProductUnavailable => 400,
            ApiError::RequestAlreadyDeleted => 404,
            ApiError::DemoUnavailable => 404,
            ApiError::DemoProductUnavailable => 400,
            ApiError::Internal => 500,
            ApiError::TooManyRequests => 429,
        }
    }

    /// The message shown to the caller for each error.
    pub open spec fn message_spec(&self) -> Seq<char> {
        match self {
            ApiError::Unauthorized => "Sign in with Sociobot to open the seller workspace."@,
            ApiError::InvalidSettings => "Add a business name, price label, and three-letter currency code."@,
            ApiError::InvalidProductRow(row) => "Row "@ + decimal_spec(*row as nat)
                + " needs a SKU, a short name, and a valid price or POA."@,
            ApiError::LicenseUnavailable => "Could not check the license. Try again when connected."@,
            ApiError::TooManyRows => "This import has more than 5,000 rows. Split it into smaller files."@,
            ApiError::FreeRowLimit => "The free workspace includes 12 catalogue rows. Add an active license to import more."@,
            ApiError::DuplicateSku(sku) => "SKU "@ + sku@ + " appears more than once."@,
            ApiError::InvalidLinkLabel => "Name the client or client group for this link."@,
            ApiError::FreeLinkLimit => "The free workspace includes one client link. Add an active license to create more."@,
            ApiError::LinkAlreadyInactive => "That client link is already inactive."@,
            ApiError::LinkNotActive => "This client link is not active. Ask the seller for a new link."@,
            ApiError::InvalidContact => "Add your name, company, and a valid email address."@,
            ApiError::InvalidLines => "Add at least one product. Each quantity must be from 1 to 9,999."@,
            ApiError::DuplicateProduct => "Each product can appear only once. Change its quantity instead."@,
            ApiError::ProductUnavailable => "A selected product is no longer available. Reload the catalogue."@,
            ApiError::RequestAlreadyDeleted => "That request is already deleted."@,
            ApiError::DemoUnavailable => "This sample workspace is not available. Reset the demo to start again."@,
            ApiError::DemoProductUnavailable => "A selected sample product is not available. Reset the demo."@,
            ApiError::Internal => "The server could not finish that action. Try again."@,
            ApiError::TooManyRequests => "Too many requests. Wait one second and try again."@,
        }
    }

    /// The HTTP status code of this error.
    pub fn status(&self) -> (code: u16)
        ensures
            code == self.status_spec(),
    {
        match self {
            ApiError::Unauthorized => 401,
            ApiError::InvalidSettings => 400,
            ApiError::InvalidProductRow(_) => 400,
            ApiError::LicenseUnavailable => 503,
            ApiError::TooManyRows => 400,
            ApiError::FreeRowLimit => 403,
            ApiError::DuplicateSku(_) => 400,
            ApiError::InvalidLinkLabel => 400,
            ApiError::FreeLinkLimit => 403,
            ApiError::LinkAlreadyInactive => 404,
            ApiError::LinkNotActive => 404,
            ApiError::InvalidContact => 400,
            ApiError::InvalidLines => 400,
            ApiError::DuplicateProduct => 400,
            ApiError::ProductUnavailable => 400,
            ApiError::RequestAlreadyDeleted => 404,
            ApiError::DemoUnavailable => 404,
            ApiError::DemoProductUnavailable => 400,
            ApiError::Internal => 500,
            ApiError::TooManyRequests => 429,
        }
    }

    /// The message shown to the caller for this error.
    pub fn message(&self) -> (m: String)
        ensures
            m@ == self.message_spec(),
    {
        match self {
            ApiError::Unauthorized => owned("Sign in with Sociobot to open the seller workspace."),
            ApiError::InvalidSettings => owned("Add a business name, price label, and three-letter currency code."),
            ApiError::InvalidProductRow(row) => {
                let head = concat("Row ", decimal(*row as u64).as_str());
                concat(head.as_str(), " needs a SKU, a short name, and a valid price or POA.")
            },
            ApiError::LicenseUnavailable => owned("Could not check the license. Try again when connected."),
            ApiError::TooManyRows => owned("This import has more than 5,000 rows. Split it into smaller files."),
            ApiError::FreeRowLimit => owned("The free workspace includes 12 catalogue rows. Add an active license to import more."),
            ApiError::DuplicateSku(sku) => {
                let head = concat("SKU ", sku.as_str());
                concat(head.as_str(), " appears more than once.")
            },
            ApiError::InvalidLinkLabel => owned("Name the client or client group for this link."),
            ApiError::FreeLinkLimit => owned("The free workspace includes one client link. Add an active license to create more."),
            ApiError::LinkAlreadyInactive => owned("That client link is already inactive."),
            ApiError::LinkNotActive => owned("This client link is not active. Ask the seller for a new link."),
            ApiError::InvalidContact => owned("Add your name, company, and a valid email address."),
            ApiError::InvalidLines => owned("Add at least one product. Each quantity must be from 1 to 9,999."),
            ApiError::DuplicateProduct => owned("Each product can appear only once. Change its quantity instead."),
            ApiError::ProductUnavailable => owned("A selected product is no longer available. Reload the catalogue."),
            ApiError::RequestAlreadyDeleted => owned("That request is already deleted."),
            ApiError::DemoUnavailable => owned("This sample workspace is not available. Reset the demo to start again."),
            ApiError::DemoProductUnavailable => owned("A selected sample product is not available. Reset the demo."),
            ApiError::Internal => owned("The server could not finish that action. Try again."),
            ApiError::TooManyRequests => owned("Too many requests. Wait one second and try again."),
        }
    }
}

} // verus!
