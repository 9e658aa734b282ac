//! Quote requests from clients, and the stateless sample workspace.
use vstd::prelude::*;
use crate::error::ApiError;
use crate::text::{
    byte_len, byte_length, contains_char, is_ascii_alnum, owned, text_eq, trim_spec, trim_str,
    trimmed, chars_of,
};
use crate::tokens::{is_prefixed_hex_id, is_token, new_demo_request_id, token};

verus! {

/// The most lines one request may hold.
pub const MAX_LINES: usize = 100;

/// The largest quantity one line may ask for.
pub const MAX_QUANTITY: i64 = 9999;

/// The length of a sample workspace id.
pub const DEMO_ID_LEN: usize = 32;

/// One line of a quote request.
#[derive(Debug, Clone)]
pub struct RequestLine {
    pub product_id: String,
    pub quantity: i64,
}

/// A quote request as a client sends it.
#[derive(Debug, Clone)]
pub struct RequestInput {
    pub client_name: String,
    pub company: String,
    pub email: String,
    pub po_number: String,
    pub note: String,
    pub lines: Vec<RequestLine>,
}

/// The contact part of a request as it is stored: every field trimmed.
#[derive(Debug, Clone)]
pub struct RequestContact {
    pub client_name: String,
    pub company: String,
    pub email: String,
    pub po_number: String,
    pub note: String,
}

/// Contact details a request must carry: a name and company of at least two
/// bytes once trimmed, an email address holding `@` of at most 254 bytes, a
/// PO number of at most 80 bytes and a note of at most 2000 bytes.
pub open spec fn contact_ok(x: RequestInput) -> bool {
    &&& byte_len(trim_spec(x.client_name@)) >= 2
    &&& byte_len(trim_spec(x.company@)) >= 2
    &&& x.email@.contains('@')
    &&& byte_len(x.email@) <= 254
    &&& byte_len(x.po_number@) <= 80
    &&& byte_len(x.note@) <= 2000
}

/// A quantity a line may ask for.
pub open spec fn quantity_ok(q: i64) -> bool {
    1 <= q <= MAX_QUANTITY
}

/// Between one and 100 lines, each with a quantity from 1 to 9,999.
pub open spec fn lines_ok(lines: Seq<RequestLine>) -> bool {
    &&& lines.len() > 0
    &&& lines.len() <= MAX_LINES
    &&& forall|i: int| 0 <= i < lines.len() ==> quantity_ok(#[trigger] lines[i].quantity)
}

/// No product occurs on two lines.
pub open spec fn distinct_products(lines: Seq<RequestLine>) -> bool {
    forall|i: int, j: int|
        0 <= i < j < lines.len() ==> (#[trigger] lines[i]).product_id@ != (#[trigger] lines[j]).product_id@
}

/// What checking a request gives: the contact details are checked first,
/// then the lines, then that no product repeats.
pub open spec fn request_check(x: RequestInput) -> Result<(), ApiError> {
    if !contact_ok(x) {
        Err(ApiError::InvalidContact)
    } else if !lines_ok(x.lines@) {
        Err(ApiError::InvalidLines)
    } else if !distinct_products(x.lines@) {
        Err(ApiError::DuplicateProduct)
    } else {
        Ok(())
    }
}

/// Checks a quote request.
pub fn valid_request(x: &RequestInput) -> (r: Result<(), ApiError>)
    ensures
        r == request_check(*x),
{
    if byte_length(trim_str(x.client_name.as_str())) < 2 || byte_length(
        trim_str(x.company.as_str()),
    ) < 2 || !contains_char(x.email.as_str(), '@') || byte_length(x.email.as_str()) > 254
        || byte_length(x.po_number.as_str()) > 80 || byte_length(x.note.as_str()) > 2000 {
        return Err(ApiError::InvalidContact);
    }
    let n = x.lines.len();
    if n == 0 || n > MAX_LINES {
        return Err(ApiError::InvalidLines);
    }
    let mut i: usize = 0;
    while i < n
        invariant
            n == x.lines@.len(),
            0 < n <= MAX_LINES,
            contact_ok(*x),
            i <= n,
            forall|k: int| 0 <= k < i ==> quantity_ok(#[trigger] x.lines@[k].quantity),
        decreases n - i,
    {
        let q = x.lines[i].quantity;
        if q < 1 || q > MAX_QUANTITY {
            assert(!quantity_ok(x.lines@[i as int].quantity));
            return Err(ApiError::InvalidLines);
        }
        i = i + 1;
    }
    let mut i: usize = 0;
    while i < n
        invariant
            n == x.lines@.len(),
            lines_ok(x.lines@),
            contact_ok(*x),
            i <= n,
            forall|a: int, b: int|
                0 <= a < b < i ==> (#[trigger] x.lines@[a]).product_id@
                    != (#[trigger] x.lines@[b]).product_id@,
        decreases n - i,
    {
        let mut j: usize = 0;
        while j < i
            invariant
                n == x.lines@.len(),
                lines_ok(x.lines@),
                contact_ok(*x),
                i < n,
                j <= i,
                forall|a: int| 0 <= a < j ==> (#[trigger] x.lines@[a]).product_id@ != x.lines@[i as int].product_id@,
            decreases i - j,
        {
            if x.lines[j].product_id == x.lines[i].product_id {
                assert(!distinct_products(x.lines@)) by {
                    assert(x.lines@[j as int].product_id@ == x.lines@[i as int].product_id@);
                }
                return Err(ApiError::DuplicateProduct);
            }
            j = j + 1;
        }
        i = i + 1;
    }
    Ok(())
}

/// The contact details of a request, trimmed for storage.
pub fn trimmed_contact(x: &RequestInput) -> (c: RequestContact)
    ensures
        c.client_name@ == trim_spec(x.client_name@),
        c.company@ == trim_spec(x.company@),
        c.email@ == trim_spec(x.email@),
        c.po_number@ == trim_spec(x.po_number@),
        c.note@ == trim_spec(x.note@),
{
    RequestContact {
        client_name: trimmed(x.client_name.as_str()),
        company: trimmed(x.company.as_str()),
        email: trimmed(x.email.as_str()),
        po_number: trimmed(x.po_number.as_str()),
        note: trimmed(x.note.as_str()),
    }
}

/// Deleting succeeds when it removed a request of the seller.
pub fn delete_outcome(rows_affected: u64) -> (r: Result<(), ApiError>)
    ensures
        r == (if rows_affected == 0 {
            Err(ApiError::RequestAlreadyDeleted)
        } else {
            Ok(())
        }),
{
    if rows_affected == 0 {
        Err(ApiError::RequestAlreadyDeleted)
    } else {
        Ok(())
    }
}

/// A sample workspace id: 32 ASCII letters and digits.
pub open spec fn demo_id_ok(id: Seq<char>) -> bool {
    &&& byte_len(id) == DEMO_ID_LEN
    &&& forall|i: int| 0 <= i < id.len() ==> is_ascii_alnum(#[trigger] id[i])
}

/// Accepts well-formed sample workspace ids.
pub fn demo_ok(id: &str) -> (r: Result<(), ApiError>)
    ensures
        r == (if demo_id_ok(id@) {
            Ok(())
        } else {
            Err(ApiError::DemoUnavailable)
        }),
{
    if byte_length(id) != DEMO_ID_LEN {
        return Err(ApiError::DemoUnavailable);
    }
    let v = chars_of(id);
    let mut i: usize = 0;
    while i < v.len()
        invariant
            v@ == id@,
            i <= v@.len(),
            forall|k: int| 0 <= k < i ==> is_ascii_alnum(#[trigger] id@[k]),
        decreases v@.len() - i,
    {
        let c = v[i];
        if !(('0' <= c && c <= '9') || ('A' <= c && c <= 'Z') || ('a' <= c && c <= 'z')) {
            assert(!is_ascii_alnum(id@[i as int]));
            return Err(ApiError::DemoUnavailable);
        }
        i = i + 1;
    }
    Ok(())
}

/// A fresh sample workspace id.
pub fn new_demo_id() -> (id: String)
    ensures
        is_token(id@, DEMO_ID_LEN as nat),
{
    token(DEMO_ID_LEN)
}

/// One product of the sample catalogue.
#[derive(Debug, Clone)]
pub struct SampleProduct {
    pub product_id: String,
    pub sku: String,
    pub name: String,
    pub price_cents: Option<i64>,
}

/// The sample catalogue: product id, SKU, name and price of its six products.
pub open spec fn sample_table() -> Seq<(Seq<char>, Seq<char>, Seq<char>, Option<i64>)> {
    seq![
        ("p1"@, "NW-101"@, "Recycled counter notebook"@, Some(850i64)),
        ("p2"@, "NW-114"@, "Brass desk ruler"@, Some(1250i64)),
        ("p3"@, "PK-220"@, "Kraft dispatch box"@, Some(1890i64)),
        ("p4"@, "PK-228"@, "Custom paper tape"@, None),
        ("p5"@, "SV-410"@, "Shelf label set"@, Some(2400i64)),
        ("p6"@, "SV-421"@, "Oak display riser"@, None),
    ]
}

/// `p` holds the sample entry `t`.
pub open spec fn sample_is(p: SampleProduct, t: (Seq<char>, Seq<char>, Seq<char>, Option<i64>)) -> bool {
    p.product_id@ == t.0 && p.sku@ == t.1 && p.name@ == t.2 && p.price_cents == t.3
}

fn sample(product_id: &str, sku: &str, name: &str, price_cents: Option<i64>) -> (p: SampleProduct)
    ensures
        p.product_id@ == product_id@,
        p.sku@ == sku@,
        p.name@ == name@,
        p.price_cents == price_cents,
{
    SampleProduct {
        product_id: owned(product_id),
        sku: owned(sku),
        name: owned(name),
        price_cents,
    }
}

/// The sample catalogue.
pub fn sample_products() -> (v: Vec<SampleProduct>)
    ensures
        v@.len() == sample_table().len(),
        forall|i: int| 0 <= i < v@.len() ==> sample_is(#[trigger] v@[i], sample_table()[i]),
{
    let mut v: Vec<SampleProduct> = Vec::new();
    v.push(sample("p1", "NW-101", "Recycled counter notebook", Some(850)));
    v.push(sample("p2", "NW-114", "Brass desk ruler", Some(1250)));
    v.push(sample("p3", "PK-220", "Kraft dispatch box", Some(1890)));
    v.push(sample("p4", "PK-228", "Custom paper tape", None));
    v.push(sample("p5", "SV-410", "Shelf label set", Some(2400)));
    v.push(sample("p6", "SV-421", "Oak display riser", None));
    v
}

/// Entry `i` is the first sample whose product id is `pid`.
pub open spec fn first_sample(pid: Seq<char>, i: int) -> bool {
    &&& 0 <= i < sample_table().len()
    &&& sample_table()[i].0 == pid
    &&& forall|j: int| 0 <= j < i ==> (#[trigger] sample_table()[j]).0 != pid
}

/// Some sample has product id `pid`.
pub open spec fn in_samples(pid: Seq<char>) -> bool {
    exists|i: int| 0 <= i < sample_table().len() && (#[trigger] sample_table()[i]).0 == pid
}

/// One line of a sample request, with the sample product it names.
#[derive(Debug, Clone)]
pub struct DemoLine {
    pub product_id: String,
    pub sku: String,
    pub name: String,
    pub quantity: i64,
    pub price_cents: Option<i64>,
}

/// A sample quote request as the sample inbox shows it.
#[derive(Debug, Clone)]
pub struct DemoRequest {
    pub id: String,
    pub client_name: String,
    pub company: String,
    pub email: String,
    pub po_number: String,
    pub note: String,
    pub status: String,
    pub created_at: String,
    pub lines: Vec<DemoLine>,
}

/// `d` is the sample-catalogue line for request line `l`.
pub open spec fn demo_line_for(l: RequestLine, d: DemoLine) -> bool {
    exists|i: int|
        first_sample(l.product_id@, i) && {
            let t = #[trigger] sample_table()[i];
            d.product_id@ == t.0 && d.sku@ == t.1 && d.name@ == t.2 && d.price_cents == t.3
                && d.quantity == l.quantity
        }
}

/// `d` is the sample request made from `x` at `created_at`.
pub open spec fn demo_request_from(x: RequestInput, created_at: Seq<char>, d: DemoRequest) -> bool {
    &&& is_prefixed_hex_id(d.id@, "RQ-DEMO-"@, 4)
    &&& d.client_name@ == trim_spec(x.client_name@)
    &&& d.company@ == trim_spec(x.company@)
    &&& d.email@ == trim_spec(x.email@)
    &&& d.po_number@ == trim_spec(x.po_number@)
    &&& d.note@ == trim_spec(x.note@)
    &&& d.status@ == "New"@
    &&& d.created_at@ == created_at
    &&& d.lines@.len() == x.lines@.len()
    &&& forall|i: int| 0 <= i < x.lines@.len() ==> demo_line_for(x.lines@[i], #[trigger] d.lines@[i])
}

/// The sample line for `l`, or `None` when no sample product has its id.
fn demo_line(samples: &Vec<SampleProduct>, l: &RequestLine) -> (r: Option<DemoLine>)
    requires
        samples@.len() == sample_table().len(),
        forall|i: int| 0 <= i < samples@.len() ==> sample_is(#[trigger] samples@[i], sample_table()[i]),
    ensures
        r is None <==> !in_samples(l.product_id@),
        r matches Some(d) ==> demo_line_for(*l, d),
{
    let mut k: usize = 0;
    while k < samples.len()
        invariant
            samples@.len() == sample_table().len(),
            forall|i: int| 0 <= i < samples@.len() ==> sample_is(#[trigger] samples@[i], sample_table()[i]),
            k <= samples@.len(),
            forall|j: int| 0 <= j < k ==> (#[trigger] sample_table()[j]).0 != l.product_id@,
        decreases samples@.len() - k,
    {
        let s = &samples[k];
        if text_eq(s.product_id.as_str(), l.product_id.as_str()) {
            let d = DemoLine {
                product_id: s.product_id.clone(),
                sku: s.sku.clone(),
                name: s.name.clone(),
                quantity: l.quantity,
                price_cents: s.price_cents,
            };
            assert(sample_is(samples@[k as int], sample_table()[k as int]));
            assert(first_sample(l.product_id@, k as int));
            assert(sample_table()[k as int].0 == l.product_id@);
            return Some(d);
        }
        assert(sample_is(samples@[k as int], sample_table()[k as int]));
        k = k + 1;
    }
    None
}

/// Builds the sample request a sample workspace answers with. Nothing is
/// stored: the browser keeps the sample inbox. The workspace id is checked
/// first, then the request, then that every line names a sample product.
pub fn demo_request(id: &str, x: &RequestInput, created_at: String) -> (r: Result<
    DemoRequest,
    ApiError,
>)
    ensures
        !demo_id_ok(id@) ==> r == Err::<DemoRequest, ApiError>(ApiError::DemoUnavailable),
        demo_id_ok(id@) ==> (request_check(*x) matches Err(e) ==> r == Err::<DemoRequest, ApiError>(e)),
        demo_id_ok(id@) && request_check(*x) is Ok && (exists|i: int|
            0 <= i < x.lines@.len() && !in_samples((#[trigger] x.lines@[i]).product_id@)) ==> r
            == Err::<DemoRequest, ApiError>(ApiError::DemoProductUnavailable),
        demo_id_ok(id@) && request_check(*x) is Ok && (forall|i: int|
            0 <= i < x.lines@.len() ==> in_samples((#[trigger] x.lines@[i]).product_id@)) ==> (
        r matches Ok(d) && demo_request_from(*x, created_at@, d)),
{
    demo_ok(id)?;
    valid_request(x)?;
    let samples = sample_products();
    let mut lines: Vec<DemoLine> = Vec::new();
    let n = x.lines.len();
    let mut i: usize = 0;
    while i < n
        invariant
            n == x.lines@.len(),
            demo_id_ok(id@),
            request_check(*x) is Ok,
            samples@.len() == sample_table().len(),
            forall|k: int| 0 <= k < samples@.len() ==> sample_is(#[trigger] samples@[k], sample_table()[k]),
            i <= n,
            lines@.len() == i,
            forall|k: int| 0 <= k < i ==> in_samples((#[trigger] x.lines@[k]).product_id@),
            forall|k: int| 0 <= k < i ==> demo_line_for(x.lines@[k], #[trigger] lines@[k]),
        decreases n - i,
    {
        match demo_line(&samples, &x.lines[i]) {
            Some(d) => {
                lines.push(d);
            },
            None => {
                return Err(ApiError::DemoProductUnavailable);
            },
        }
        i = i + 1;
    }
    let c = trimmed_contact(x);
    Ok(
        DemoRequest {
            id: new_demo_request_id(),
            client_name: c.client_name,
            company: c.company,
            email: c.email,
            po_number: c.po_number,
            note: c.note,
            status: owned("New"),
            created_at,
            lines,
        },
    )
}

/// `d` is the example request every sample inbox shows.
pub open spec fn is_sample_inbox_request(d: DemoRequest) -> bool {
    &&& d.id@ == "RQ-6C24A19E"@
    &&& d.client_name@ == "Maya Patel"@
    &&& d.company@ == "Juniper Corner"@
    &&& d.email@ == "maya@example.test"@
    &&& d.po_number@ == "PO-1842"@
    &&& d.note@ == "Please quote delivery to Bristol."@
    &&& d.status@ == "New"@
    &&& d.created_at@ == "2026-08-28 09:14"@
    &&& d.lines@.len() == 2
    &&& d.lines@[0].product_id@ == "p1"@ && d.lines@[0].sku@ == "NW-101"@ && d.lines@[0].name@
        == "Recycled counter notebook"@ && d.lines@[0].quantity == 24 && d.lines@[0].price_cents
        == Some(850i64)
    &&& d.lines@[1].product_id@ == "p4"@ && d.lines@[1].sku@ == "PK-228"@ && d.lines@[1].name@
        == "Custom paper tape"@ && d.lines@[1].quantity == 12 && d.lines@[1].price_cents
        == None::<i64>
}

/// The request every sample inbox shows first.
pub fn sample_inbox_request() -> (d: DemoRequest)
    ensures
        is_sample_inbox_request(d),
{
    let mut lines: Vec<DemoLine> = Vec::new();
    lines.push(
        DemoLine {
            product_id: owned("p1"),
            sku: owned("NW-101"),
            name: owned("Recycled counter notebook"),
            quantity: 24,
            price_cents: Some(850),
        },
    );
    lines.push(
        DemoLine {
            product_id: owned("p4"),
            sku: owned("PK-228"),
            name: owned("Custom paper tape"),
            quantity: 12,
            price_cents: None,
        },
    );
    DemoRequest {
        id: owned("RQ-6C24A19E"),
        client_name: owned("Maya Patel"),
        company: owned("Juniper Corner"),
        email: owned("maya@example.test"),
        po_number: owned("PO-1842"),
        note: owned("Please quote delivery to Bristol."),
        status: owned("New"),
        created_at: owned("2026-08-28 09:14"),
        lines,
    }
}

/// The sample inbox of a sample workspace: the example request, for every
/// well-formed workspace id, with nothing looked up or stored.
pub fn demo_inbox(id: &str) -> (r: Result<Vec<DemoRequest>, ApiError>)
    ensures
        !demo_id_ok(id@) ==> r == Err::<Vec<DemoRequest>, ApiError>(ApiError::DemoUnavailable),
        demo_id_ok(id@) ==> (r matches Ok(v) && v@.len() == 1 && is_sample_inbox_request(v@[0])),
{
    demo_ok(id)?;
    let mut v: Vec<DemoRequest> = Vec::new();
    v.push(sample_inbox_request());
    Ok(v)
}

} // verus!
